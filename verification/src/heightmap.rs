//! Elevation grids: one square grid of samples per tile, stored as gzip over
//! a JSON array of arrays of integers.

use vstd::prelude::*;
use vstd::string::StringExecFns;
use crate::bindings::{grid_view, gunzip_to_string, gunzipped_text, json_rows, parse_json_rows};
use crate::coordinates::{TileCoordinates, TILE_SIZE};
use crate::decimal::{decimal, decimal_text};

verus! {

/// Samples along each side of a tile's elevation grid.
pub const SAMPLES_PER_SIDE: u32 = TILE_SIZE / 2;

/// Why no elevation grid could be had for a tile.
#[derive(Debug, Clone, Copy, PartialEq, Eq, Structural)]
pub enum LoadError {
    /// Nothing is stored for the tile.
    ArtifactNotFound,
    /// What is stored is no gzip stream of text, or the text is no JSON array
    /// of arrays of integers.
    DecodeFailure,
    /// The grid is not `SAMPLES_PER_SIDE` rows of `SAMPLES_PER_SIDE` samples.
    DimensionMismatch,
}

/// A grid has the dimensions of a tile's elevation grid.
pub open spec fn has_tile_dimensions(grid: Seq<Seq<i32>>) -> bool {
    &&& grid.len() == SAMPLES_PER_SIDE
    &&& forall|m: int| 0 <= m < grid.len() ==> (#[trigger] grid[m]).len() == SAMPLES_PER_SIDE
}

/// What validating a parsed grid gives.
pub open spec fn validated(grid: Seq<Seq<i32>>) -> Result<Seq<Seq<i32>>, LoadError> {
    if has_tile_dimensions(grid) {
        Ok(grid)
    } else {
        Err(LoadError::DimensionMismatch)
    }
}

/// What decoding an artifact's text gives.
pub open spec fn decoded(parsed: Option<Seq<Seq<i32>>>) -> Result<Seq<Seq<i32>>, LoadError> {
    match parsed {
        Some(grid) => validated(grid),
        None => Err(LoadError::DecodeFailure),
    }
}

/// What the store holds for a tile, as a byte string.
pub open spec fn stored_bytes(artifact: Option<Vec<u8>>) -> Option<Seq<u8>> {
    match artifact {
        Some(bytes) => Some(bytes@),
        None => None,
    }
}

/// What loading gives, from what the store holds for the tile.
pub open spec fn loaded(artifact: Option<Seq<u8>>) -> Result<Seq<Seq<i32>>, LoadError> {
    match artifact {
        None => Err(LoadError::ArtifactNotFound),
        Some(bytes) => match gunzipped_text(bytes) {
            None => Err(LoadError::DecodeFailure),
            Some(text) => decoded(json_rows(text)),
        },
    }
}

/// A loaded outcome agrees with the expected one: the same error, or a
/// heightmap of the expected grid.
pub open spec fn agrees(
    outcome: Result<Heightmap, LoadError>,
    expected: Result<Seq<Seq<i32>>, LoadError>,
) -> bool {
    match expected {
        Ok(grid) => outcome matches Ok(heightmap) && heightmap@ == grid,
        Err(error) => outcome matches Err(e) && e == error,
    }
}

/// The elevation samples of one tile: `SAMPLES_PER_SIDE` rows from the top,
/// each of `SAMPLES_PER_SIDE` samples from the left.
#[derive(Debug)]
pub struct Heightmap {
    data: Vec<Vec<i32>>,
}

impl View for Heightmap {
    type V = Seq<Seq<i32>>;

    closed spec fn view(&self) -> Seq<Seq<i32>> {
        grid_view(self.data)
    }
}

impl Heightmap {
    #[verifier::type_invariant]
    spec fn well_formed(&self) -> bool {
        has_tile_dimensions(grid_view(self.data))
    }

    /// Takes rows of samples as a heightmap, if they have the dimensions of a
    /// tile's grid.
    pub fn from_rows(rows: Vec<Vec<i32>>) -> (outcome: Result<Heightmap, LoadError>)
        ensures
            agrees(outcome, validated(grid_view(rows))),
    {
        let side: usize = SAMPLES_PER_SIDE as usize;
        if rows.len() != side {
            return Err(LoadError::DimensionMismatch);
        }
        let mut m: usize = 0;
        while m < side
            invariant
                side == SAMPLES_PER_SIDE,
                rows.len() == side,
                0 <= m <= side,
                forall|k: int| 0 <= k < m ==> (#[trigger] grid_view(rows)[k]).len() == side,
            decreases side - m,
        {
            if rows[m].len() != side {
                assert(grid_view(rows)[m as int].len() != SAMPLES_PER_SIDE);
                return Err(LoadError::DimensionMismatch);
            }
            m += 1;
        }
        Ok(Heightmap { data: rows })
    }

    /// Parses the text of an artifact: a JSON array of arrays of integers
    /// with the dimensions of a tile's grid.
    pub fn from_json(text: &str) -> (outcome: Result<Heightmap, LoadError>)
        ensures
            agrees(outcome, decoded(json_rows(text@))),
    {
        match parse_json_rows(text) {
            Ok(rows) => Heightmap::from_rows(rows),
            Err(_) => Err(LoadError::DecodeFailure),
        }
    }

    /// The rows of samples.
    pub fn rows(&self) -> (rows: &Vec<Vec<i32>>)
        ensures
            grid_view(*rows) == self@,
            has_tile_dimensions(self@),
    {
        proof {
            use_type_invariant(self);
        }
        &self.data
    }
}

/// The name under which a tile's artifact is stored: the longitude in
/// decimal, an `x`, and the latitude in decimal.
pub open spec fn artifact_name_of(coordinates: TileCoordinates) -> Seq<char> {
    decimal(coordinates.longitude as int) + seq!['x'] + decimal(coordinates.latitude as int)
}

/// The name under which a tile's artifact is stored.
pub fn artifact_name(coordinates: &TileCoordinates) -> (name: String)
    ensures
        name@ == artifact_name_of(*coordinates),
{
    proof {
        reveal_strlit("x");
    }
    let latitude = decimal_text(coordinates.latitude);
    let name = decimal_text(coordinates.longitude).concat("x").concat(latitude.as_str());
    assert(name@ =~= artifact_name_of(*coordinates));
    name
}

/// Loads the heightmap of a tile from what the store holds under the tile's
/// name: `None` where it holds nothing, else the bytes of the artifact.
pub fn load_heightmap(artifact: Option<Vec<u8>>) -> (outcome: Result<Heightmap, LoadError>)
    ensures
        agrees(outcome, loaded(stored_bytes(artifact))),
{
    match artifact {
        None => Err(LoadError::ArtifactNotFound),
        Some(bytes) => match gunzip_to_string(bytes.as_slice()) {
            Ok(text) => Heightmap::from_json(text.as_str()),
            Err(_) => Err(LoadError::DecodeFailure),
        },
    }
}

} // verus!
