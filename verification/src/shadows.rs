//! Shadow masks: a translucent black pixel over every sample of a heightmap
//! that rises above a fixed elevation, and a clear one over the others.

use vstd::prelude::*;
use vstd::string::StringExecFns;
use crate::bindings::{
    base64_string,
    base64_text,
    get_pixel,
    image_dimensions,
    image_rows,
    image_width,
    new_image,
    png_bytes,
    png_encoding,
    put_pixel,
};
pub use crate::bindings::ShadowMap;
use crate::heightmap::{
    has_tile_dimensions,
    load_heightmap,
    loaded,
    stored_bytes,
    Heightmap,
    LoadError,
    SAMPLES_PER_SIDE,
};

verus! {

/// Samples above this elevation are shadowed.
pub const SHADOW_THRESHOLD: i32 = 50;

/// Alpha of a shadowed pixel, out of 255.
pub const SHADOW_ALPHA: u8 = 120;

/// The pixel over a sample: black, translucent where the sample is above the
/// threshold and clear elsewhere.
pub open spec fn shadow_pixel(elevation: i32) -> (u8, u8, u8, u8) {
    if elevation > SHADOW_THRESHOLD {
        (0u8, 0u8, 0u8, SHADOW_ALPHA)
    } else {
        (0u8, 0u8, 0u8, 0u8)
    }
}

/// The mask of a grid: row `m` of the grid gives row `m` of the mask, and
/// sample `n` of the row its pixel `n`.
pub open spec fn shadow_rows(grid: Seq<Seq<i32>>) -> Seq<Seq<(u8, u8, u8, u8)>> {
    Seq::new(grid.len(), |m: int| Seq::new(grid[m].len(), |n: int| shadow_pixel(grid[m][n])))
}

/// The mask while it is painted: done before pixel `n` of row `m`, blank
/// from there on.
spec fn painted_rows(grid: Seq<Seq<i32>>, m: int, n: int) -> Seq<Seq<(u8, u8, u8, u8)>> {
    Seq::new(
        grid.len(),
        |y: int|
            Seq::new(
                grid[y].len(),
                |x: int|
                    if y < m || (y == m && x < n) {
                        shadow_pixel(grid[y][x])
                    } else {
                        (0u8, 0u8, 0u8, 0u8)
                    },
            ),
    )
}

impl ShadowMap {
    /// The width and the height of the mask, in pixels.
    pub fn dimensions(&self) -> (dimensions: (u32, u32))
        ensures
            dimensions.0 == image_width(*self),
            dimensions.1 == image_rows(*self).len(),
    {
        image_dimensions(self)
    }

    /// The pixel in column `x` of row `y`, as red, green, blue and alpha;
    /// `None` outside the mask.
    pub fn pixel(&self, x: u32, y: u32) -> (pixel: Option<(u8, u8, u8, u8)>)
        ensures
            pixel == if x < image_width(*self) && y < image_rows(*self).len() {
                Some(image_rows(*self)[y as int][x as int])
            } else {
                None
            },
    {
        let (width, height) = image_dimensions(self);
        if x < width && y < height {
            Some(get_pixel(self, x, y))
        } else {
            None
        }
    }
}

fn pixel_over(elevation: i32) -> (pixel: (u8, u8, u8, u8))
    ensures
        pixel == shadow_pixel(elevation),
{
    let alpha_channel: u8 = if elevation > SHADOW_THRESHOLD {
        SHADOW_ALPHA
    } else {
        0
    };
    (0, 0, 0, alpha_channel)
}

/// Renders the shadow mask of a heightmap: an image of the heightmap's
/// dimensions whose pixel in column `n` of row `m` is the one over sample `n`
/// of row `m`.
pub fn compute_shadows(heightmap: Heightmap) -> (shadows: ShadowMap)
    ensures
        image_width(shadows) == heightmap@.len(),
        image_rows(shadows) == shadow_rows(heightmap@),
        has_tile_dimensions(heightmap@),
{
    let rows = heightmap.rows();
    let ghost grid = heightmap@;
    let side: u32 = SAMPLES_PER_SIDE;
    let mut shadows = new_image(side, side);
    assert(image_rows(shadows) =~~= painted_rows(grid, 0, 0));
    let mut m: u32 = 0;
    while m < side
        invariant
            side == SAMPLES_PER_SIDE,
            has_tile_dimensions(grid),
            grid == crate::bindings::grid_view(*rows),
            rows.len() == side,
            0 <= m <= side,
            image_width(shadows) == side,
            image_rows(shadows) == painted_rows(grid, m as int, 0),
        decreases side - m,
    {
        let mut n: u32 = 0;
        while n < side
            invariant
                side == SAMPLES_PER_SIDE,
                has_tile_dimensions(grid),
                grid == crate::bindings::grid_view(*rows),
                rows.len() == side,
                0 <= m < side,
                0 <= n <= side,
                image_width(shadows) == side,
                image_rows(shadows) == painted_rows(grid, m as int, n as int),
            decreases side - n,
        {
            assert(grid[m as int].len() == side);
            let row = &rows[m as usize];
            assert(row@ == grid[m as int]);
            let pixel = pixel_over(row[n as usize]);
            put_pixel(&mut shadows, n, m, pixel);
            assert(image_rows(shadows) =~~= painted_rows(grid, m as int, n + 1));
            n += 1;
        }
        assert(painted_rows(grid, m as int, side as int) =~~= painted_rows(grid, m + 1, 0));
        m += 1;
    }
    assert(painted_rows(grid, side as int, 0) =~~= shadow_rows(grid));
    shadows
}

/// Over ground that nowhere rises above the threshold the mask is clear
/// throughout, and has the grid's dimensions.
pub proof fn lemma_low_ground_is_clear(grid: Seq<Seq<i32>>)
    requires
        forall|m: int, n: int|
            0 <= m < grid.len() && 0 <= n < grid[m].len() ==> #[trigger] grid[m][n]
                <= SHADOW_THRESHOLD,
    ensures
        shadow_rows(grid).len() == grid.len(),
        forall|m: int|
            0 <= m < grid.len() ==> (#[trigger] shadow_rows(grid)[m]).len() == grid[m].len(),
        forall|m: int, n: int|
            0 <= m < grid.len() && 0 <= n < grid[m].len() ==> #[trigger] shadow_rows(grid)[m][n]
                == (0u8, 0u8, 0u8, 0u8),
{
}

/// The data URI of a grid's mask.
pub open spec fn mask_uri(grid: Seq<Seq<i32>>) -> Seq<char> {
    "data:image/png;base64,"@ + base64_text(png_encoding(grid.len(), shadow_rows(grid)))
}

/// Answers a request for a tile's shadows from what the store holds under
/// the tile's name: the mask of the stored heightmap as a data URI, or why no
/// heightmap could be had.
pub fn get_shadows(artifact: Option<Vec<u8>>) -> (response: Result<String, LoadError>)
    ensures
        match loaded(stored_bytes(artifact)) {
            Ok(grid) => response matches Ok(uri) && uri@ == mask_uri(grid),
            Err(error) => response matches Err(e) && e == error,
        },
{
    match load_heightmap(artifact) {
        Ok(heightmap) => {
            let shadow_image = compute_shadows(heightmap);
            Ok(base64_encode_image(&shadow_image))
        },
        Err(error) => Err(error),
    }
}

/// Wraps base64 text of a PNG image as a data URI.
pub fn png_data_uri(encoded: &str) -> (uri: String)
    ensures
        uri@ == "data:image/png;base64,"@ + encoded@,
{
    String::from_str("data:image/png;base64,").concat(encoded)
}

/// Encodes a mask as a PNG image in a data URI, ready to embed.
pub fn base64_encode_image(image: &ShadowMap) -> (uri: String)
    ensures
        uri@ == "data:image/png;base64,"@ + base64_text(
            png_encoding(image_width(*image), image_rows(*image)),
        ),
{
    let image_data = png_bytes(image);
    let image_base64 = base64_string(image_data.as_slice());
    png_data_uri(image_base64.as_str())
}

} // verus!
