use std::io::Write;

use terrain_tiles::coordinates::{TileCoordinates, TILE_SIZE};
use terrain_tiles::heightmap::{
    artifact_name, load_heightmap, Heightmap, LoadError, SAMPLES_PER_SIDE,
};
use terrain_tiles::decimal::decimal_text;
use terrain_tiles::shadows::{
    base64_encode_image, compute_shadows, get_shadows, png_data_uri, SHADOW_ALPHA,
    SHADOW_THRESHOLD,
};

fn gzip(text: &str) -> Vec<u8> {
    let mut encoder = flate2::write::GzEncoder::new(Vec::new(), flate2::Compression::default());
    encoder.write_all(text.as_bytes()).unwrap();
    encoder.finish().unwrap()
}

fn json_of(rows: &[Vec<i32>]) -> String {
    let mut text = String::from("[");
    for (m, row) in rows.iter().enumerate() {
        if m > 0 {
            text.push(',');
        }
        text.push('[');
        for (n, sample) in row.iter().enumerate() {
            if n > 0 {
                text.push(',');
            }
            text.push_str(&format!("{}", sample));
        }
        text.push(']');
    }
    text.push(']');
    text
}

fn flat(side: usize, elevation: i32) -> Vec<Vec<i32>> {
    vec![vec![elevation; side]; side]
}

fn error_of(outcome: Result<Heightmap, LoadError>) -> LoadError {
    match outcome {
        Ok(_) => panic!("a heightmap was loaded"),
        Err(error) => error,
    }
}

#[test]
fn heightmap_is_loaded() {
    let artifact = gzip(&json_of(&flat(200, 7)));
    let heightmap = load_heightmap(Some(artifact));

    assert!(heightmap.is_ok());
    assert!((heightmap.unwrap().rows().len() as u32) == TILE_SIZE / 2);
}

#[test]
fn samples_per_side_is_half_a_tile() {
    assert_eq!(SAMPLES_PER_SIDE, 200);
}

#[test]
fn loaded_rows_are_the_stored_ones() {
    let mut rows = flat(200, 0);
    rows[3][5] = 51;
    rows[199][0] = -12;
    rows[0][199] = i32::MAX;
    let heightmap = load_heightmap(Some(gzip(&json_of(&rows)))).unwrap();
    assert_eq!(heightmap.rows(), &rows);
}

#[test]
fn a_missing_artifact_is_not_found() {
    assert_eq!(error_of(load_heightmap(None)), LoadError::ArtifactNotFound);
}

#[test]
fn bytes_that_are_no_gzip_stream_fail_to_decode() {
    let text = json_of(&flat(200, 0));
    assert_eq!(
        error_of(load_heightmap(Some(text.into_bytes()))),
        LoadError::DecodeFailure
    );
    assert_eq!(error_of(load_heightmap(Some(Vec::new()))), LoadError::DecodeFailure);
}

#[test]
fn a_truncated_stream_fails_to_decode() {
    let mut artifact = gzip(&json_of(&flat(200, 0)));
    artifact.truncate(artifact.len() / 2);
    assert_eq!(error_of(load_heightmap(Some(artifact))), LoadError::DecodeFailure);
}

#[test]
fn malformed_json_fails_to_decode() {
    assert_eq!(
        error_of(load_heightmap(Some(gzip("[[1, 2], [3, ")))),
        LoadError::DecodeFailure
    );
    assert_eq!(error_of(Heightmap::from_json("[[1.5]]")), LoadError::DecodeFailure);
    assert_eq!(error_of(Heightmap::from_json("[[\"1\"]]")), LoadError::DecodeFailure);
    assert_eq!(error_of(Heightmap::from_json("{\"a\": 1}")), LoadError::DecodeFailure);
    assert_eq!(error_of(Heightmap::from_json("[[2147483648]]")), LoadError::DecodeFailure);
}

#[test]
fn grids_of_other_dimensions_are_refused() {
    assert_eq!(error_of(Heightmap::from_rows(Vec::new())), LoadError::DimensionMismatch);
    assert_eq!(error_of(Heightmap::from_rows(flat(199, 0))), LoadError::DimensionMismatch);
    assert_eq!(error_of(Heightmap::from_rows(flat(201, 0))), LoadError::DimensionMismatch);
    let mut ragged = flat(200, 0);
    ragged[199].pop();
    assert_eq!(error_of(Heightmap::from_rows(ragged)), LoadError::DimensionMismatch);
    let mut long = flat(200, 0);
    long[0].push(1);
    assert_eq!(error_of(Heightmap::from_rows(long)), LoadError::DimensionMismatch);
    assert_eq!(error_of(Heightmap::from_json("[[1, 2], [3, 4]]")), LoadError::DimensionMismatch);
    assert_eq!(
        error_of(load_heightmap(Some(gzip(&json_of(&flat(2, 0)))))),
        LoadError::DimensionMismatch
    );
}

#[test]
fn artifacts_are_named_by_both_coordinates() {
    let tile = TileCoordinates { longitude: 247_600, latitude: 6_719_600 };
    assert_eq!(artifact_name(&tile), "247600x6719600");
    assert_eq!(artifact_name(&TileCoordinates { longitude: 0, latitude: 0 }), "0x0");
    assert_eq!(artifact_name(&TileCoordinates { longitude: -400, latitude: 800 }), "-400x800");
}

#[test]
fn the_threshold_is_exact() {
    let mut rows = flat(200, 0);
    rows[0][0] = 50;
    rows[0][1] = 51;
    rows[1][0] = 49;
    rows[2][3] = i32::MAX;
    rows[3][2] = i32::MIN;
    let shadows = compute_shadows(Heightmap::from_rows(rows).unwrap());
    assert_eq!(shadows.pixel(0, 0), Some((0, 0, 0, 0)));
    assert_eq!(shadows.pixel(1, 0), Some((0, 0, 0, 120)));
    assert_eq!(shadows.pixel(0, 1), Some((0, 0, 0, 0)));
    assert_eq!(shadows.pixel(3, 2), Some((0, 0, 0, 120)));
    assert_eq!(shadows.pixel(2, 3), Some((0, 0, 0, 0)));
}

#[test]
fn columns_run_along_a_row() {
    let mut rows = flat(200, 0);
    rows[10][199] = 100;
    let shadows = compute_shadows(Heightmap::from_rows(rows).unwrap());
    assert_eq!(shadows.dimensions(), (200, 200));
    assert_eq!(shadows.pixel(199, 10), Some((0, 0, 0, 120)));
    assert_eq!(shadows.pixel(10, 199), Some((0, 0, 0, 0)));
    assert_eq!(shadows.pixel(200, 10), None);
    assert_eq!(shadows.pixel(10, 200), None);
}

#[test]
fn low_ground_gives_a_clear_mask() {
    let mut rows = flat(200, 50);
    rows[17][4] = -3;
    let heightmap = load_heightmap(Some(gzip(&json_of(&rows)))).unwrap();
    let shadows = compute_shadows(heightmap);
    assert_eq!(shadows.dimensions(), (200, 200));
    for y in 0..200 {
        for x in 0..200 {
            assert_eq!(shadows.pixel(x, y), Some((0, 0, 0, 0)));
        }
    }
}

#[test]
fn every_pixel_follows_its_sample() {
    let mut rows = flat(200, 0);
    for m in 0..200 {
        for n in 0..200 {
            rows[m][n] = ((m * 7 + n * 13) % 101) as i32;
        }
    }
    let shadows = compute_shadows(Heightmap::from_rows(rows.clone()).unwrap());
    for m in 0..200usize {
        for n in 0..200usize {
            let alpha = if rows[m][n] > 50 { 120 } else { 0 };
            assert_eq!(shadows.pixel(n as u32, m as u32), Some((0, 0, 0, alpha)));
        }
    }
}

#[test]
fn a_data_uri_is_the_prefix_and_the_text() {
    assert_eq!(png_data_uri("AAAA"), "data:image/png;base64,AAAA");
    assert_eq!(png_data_uri(""), "data:image/png;base64,");
}

#[test]
fn the_encoded_image_decodes_to_the_mask() {
    let mut rows = flat(200, 0);
    rows[5][9] = 51;
    let shadows = compute_shadows(Heightmap::from_rows(rows).unwrap());
    let uri = base64_encode_image(&shadows);
    let prefix = "data:image/png;base64,";
    assert!(uri.starts_with(prefix));
    let png = base64::decode(&uri[prefix.len()..]).unwrap();
    assert_eq!(&png[..8], &[0x89, b'P', b'N', b'G', 0x0d, 0x0a, 0x1a, 0x0a]);
    let decoded = image::load_from_memory(&png).unwrap().to_rgba8();
    assert_eq!(decoded.dimensions(), (200, 200));
    assert_eq!(decoded.get_pixel(9, 5).0, [0, 0, 0, 120]);
    assert_eq!(decoded.get_pixel(5, 9).0, [0, 0, 0, 0]);
    assert_eq!(decoded.get_pixel(0, 0).0, [0, 0, 0, 0]);
}

#[test]
fn the_shadow_constants_are_50_and_120() {
    assert_eq!(SHADOW_THRESHOLD, 50);
    assert_eq!(SHADOW_ALPHA, 120);
}

#[test]
fn integers_are_written_in_decimal() {
    let cases: [(i64, &str); 9] = [
        (0, "0"),
        (7, "7"),
        (10, "10"),
        (-1, "-1"),
        (109, "109"),
        (-4000, "-4000"),
        (6_719_600, "6719600"),
        (i64::MAX, "9223372036854775807"),
        (i64::MIN, "-9223372036854775808"),
    ];
    for (n, text) in cases {
        assert_eq!(decimal_text(n), text);
        assert_eq!(decimal_text(n), n.to_string());
    }
}

#[test]
fn a_request_is_answered_with_the_mask_or_the_error() {
    let mut rows = flat(200, 50);
    rows[199][198] = 51;
    let artifact = gzip(&json_of(&rows));
    let uri = get_shadows(Some(artifact.clone())).unwrap();
    let shadows = compute_shadows(load_heightmap(Some(artifact)).unwrap());
    assert_eq!(uri, base64_encode_image(&shadows));
    let png = base64::decode(&uri["data:image/png;base64,".len()..]).unwrap();
    let decoded = image::load_from_memory(&png).unwrap().to_rgba8();
    assert_eq!(decoded.dimensions(), (200, 200));
    for y in 0..200 {
        for x in 0..200 {
            let alpha = if (x, y) == (198, 199) { 120 } else { 0 };
            assert_eq!(decoded.get_pixel(x, y).0, [0, 0, 0, alpha]);
        }
    }

    assert_eq!(get_shadows(None), Err(LoadError::ArtifactNotFound));
    assert_eq!(get_shadows(Some(vec![1, 2, 3])), Err(LoadError::DecodeFailure));
    assert_eq!(get_shadows(Some(gzip("[[1, 2], [3, "))), Err(LoadError::DecodeFailure));
    assert_eq!(get_shadows(Some(gzip("[[1]]"))), Err(LoadError::DimensionMismatch));
}

#[test]
fn invalid_utf8_fails_to_decode() {
    let mut encoder = flate2::write::GzEncoder::new(Vec::new(), flate2::Compression::default());
    encoder.write_all(&[0xff, 0xfe, 0x5b]).unwrap();
    let artifact = encoder.finish().unwrap();
    assert_eq!(error_of(load_heightmap(Some(artifact))), LoadError::DecodeFailure);
}
