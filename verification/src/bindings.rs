//! The calls into other crates. Nothing in this file is proved: each contract
//! states what the called code is relied on to do.

use vstd::prelude::*;

verus! {

#[verifier::external_type_specification]
#[verifier::external_body]
pub struct ExIoError(std::io::Error);

#[verifier::external_type_specification]
#[verifier::external_body]
pub struct ExJsonError(serde_json::Error);

/// A raster of RGBA pixels with 8 bits to the channel, kept in an
/// `image::RgbaImage`. What it holds is spoken of as `image_rows` and
/// `image_width`.
#[verifier::external_body]
pub struct ShadowMap {
    image: image::RgbaImage,
}

/// The text that a gzip stream unpacks to; `None` where the bytes are no
/// complete gzip member or what they hold is not UTF-8.
pub uninterp spec fn gunzipped_text(bytes: Seq<u8>) -> Option<Seq<char>>;

/// The rows that a JSON text denotes as an array of arrays of 32-bit
/// integers; `None` where it denotes nothing of that shape.
pub uninterp spec fn json_rows(text: Seq<char>) -> Option<Seq<Seq<i32>>>;

/// The pixels of an image, row by row from the top, each as red, green, blue
/// and alpha.
pub uninterp spec fn image_rows(image: ShadowMap) -> Seq<Seq<(u8, u8, u8, u8)>>;

/// The width that an image was made with.
pub uninterp spec fn image_width(image: ShadowMap) -> nat;

/// The bytes that the PNG encoder writes for an image of the given width and
/// rows.
pub uninterp spec fn png_encoding(width: nat, rows: Seq<Seq<(u8, u8, u8, u8)>>) -> Seq<u8>;

/// The standard base64 text of a byte string, padded.
pub uninterp spec fn base64_text(bytes: Seq<u8>) -> Seq<char>;

/// The grid that nested vectors hold.
pub open spec fn grid_view(rows: Vec<Vec<i32>>) -> Seq<Seq<i32>> {
    Seq::new(rows@.len(), |m: int| rows@[m]@)
}

/// `flate2::read::GzDecoder::new` on the bytes, drained with
/// `std::io::Read::read_to_string`. Relied on: the outcome depends on the
/// bytes alone, and is the unpacked text or an error.
#[verifier::external_body]
pub(crate) fn gunzip_to_string(bytes: &[u8]) -> (res: Result<String, std::io::Error>)
    ensures
        match res {
            Ok(text) => gunzipped_text(bytes@) == Some(text@),
            Err(_) => gunzipped_text(bytes@) is None,
        },
{
    let mut decoder = flate2::read::GzDecoder::new(bytes);
    let mut text = String::new();
    match std::io::Read::read_to_string(&mut decoder, &mut text) {
        Ok(_) => Ok(text),
        Err(e) => Err(e),
    }
}

/// `serde_json::from_str` at the type `Vec<Vec<i32>>`. Relied on: the outcome
/// depends on the text alone, and is the rows it denotes or an error.
#[verifier::external_body]
pub(crate) fn parse_json_rows(text: &str) -> (res: Result<Vec<Vec<i32>>, serde_json::Error>)
    ensures
        match res {
            Ok(rows) => json_rows(text@) == Some(grid_view(rows)),
            Err(_) => json_rows(text@) is None,
        },
{
    serde_json::from_str::<Vec<Vec<i32>>>(text)
}

/// `image::ImageBuffer::new` for RGBA pixels of 8 bits. Relied on: the image
/// has the given width and height, and every channel of every pixel is zero.
/// The call panics where the buffer's length overflows `usize`.
#[verifier::external_body]
pub(crate) fn new_image(width: u32, height: u32) -> (image: ShadowMap)
    requires
        width as int * height as int * 4 <= usize::MAX,
    ensures
        image_width(image) == width,
        image_rows(image) == Seq::new(
            height as nat,
            |y: int| Seq::new(width as nat, |x: int| (0u8, 0u8, 0u8, 0u8)),
        ),
{
    ShadowMap { image: image::RgbaImage::new(width, height) }
}

/// `image::ImageBuffer::put_pixel`. Relied on: the pixel in column `x` of row
/// `y` becomes the given one and nothing else changes. The call panics where
/// `x` or `y` is out of bounds.
#[verifier::external_body]
pub(crate) fn put_pixel(image: &mut ShadowMap, x: u32, y: u32, pixel: (u8, u8, u8, u8))
    requires
        (x as nat) < image_width(*old(image)),
        (y as nat) < image_rows(*old(image)).len(),
    ensures
        image_width(*final(image)) == image_width(*old(image)),
        image_rows(*final(image)) == image_rows(*old(image)).update(
            y as int,
            image_rows(*old(image))[y as int].update(x as int, pixel),
        ),
{
    image.image.put_pixel(x, y, image::Rgba([pixel.0, pixel.1, pixel.2, pixel.3]));
}

/// `image::ImageBuffer::dimensions`. Relied on: it gives the width and the
/// number of rows.
#[verifier::external_body]
pub(crate) fn image_dimensions(image: &ShadowMap) -> (dimensions: (u32, u32))
    ensures
        dimensions.0 == image_width(*image),
        dimensions.1 == image_rows(*image).len(),
{
    image.image.dimensions()
}

/// `image::ImageBuffer::get_pixel`. Relied on: it gives the pixel in column
/// `x` of row `y`. The call panics where `x` or `y` is out of bounds.
#[verifier::external_body]
pub(crate) fn get_pixel(image: &ShadowMap, x: u32, y: u32) -> (pixel: (u8, u8, u8, u8))
    requires
        (x as nat) < image_width(*image),
        (y as nat) < image_rows(*image).len(),
    ensures
        pixel == image_rows(*image)[y as int][x as int],
{
    let channels = image.image.get_pixel(x, y).0;
    (channels[0], channels[1], channels[2], channels[3])
}

/// `image::ImageBuffer::write_to` with `ImageOutputFormat::Png`, into a
/// cursor over a fresh vector. Relied on: the bytes written depend on the
/// image's width and pixels alone. An error of the encoder is dropped, and
/// the bytes written up to it are returned.
#[verifier::external_body]
pub(crate) fn png_bytes(image: &ShadowMap) -> (bytes: Vec<u8>)
    ensures
        bytes@ == png_encoding(image_width(*image), image_rows(*image)),
{
    let mut bytes: Vec<u8> = Vec::new();
    let _ = image.image.write_to(
        &mut std::io::Cursor::new(&mut bytes),
        image::ImageOutputFormat::Png,
    );
    bytes
}

/// `base64::encode`. Relied on: the text depends on the bytes alone. The call
/// panics where the text's length overflows `usize`, which the length of a
/// slice in memory cannot bring about.
#[verifier::external_body]
pub(crate) fn base64_string(bytes: &[u8]) -> (text: String)
    ensures
        text@ == base64_text(bytes@),
{
    base64::encode(bytes)
}

} // verus!
