//! Tile addressing: which tile of the fixed grid a planar position belongs to,
//! and where inside that tile it lies.

use vstd::prelude::*;

verus! {

/// Side length of a map tile, in metres and in pixels.
pub const TILE_SIZE: u32 = 400;

/// A planar position in whole metres: each axis of the projected position
/// rounded down, since values grow towards the east and the north.
#[derive(Debug, Clone, Copy, PartialEq, Eq, Structural)]
pub struct FlooredCoordinates {
    pub longitude: i64,
    pub latitude: i64,
}

/// The address of a tile. Both fields of an address that names a tile are
/// multiples of `TILE_SIZE`.
#[derive(Debug, Clone, Copy, PartialEq, Eq, Structural)]
pub struct TileCoordinates {
    pub longitude: i64,
    pub latitude: i64,
}

/// What a viewer needs to place a point on its tile.
#[derive(Debug, Clone, Copy, PartialEq, Eq, Structural)]
pub struct TileInformation {
    pub longitude: i64,
    pub latitude: i64,
    pub tile_height: u32,
    pub tile_width: u32,
    /// Distance of the point from the tile's longitude.
    pub x: i64,
    /// Distance of the point from the tile's latitude.
    pub y: i64,
}

/// The tile coordinate chosen for one axis: the multiple of `TILE_SIZE` whose
/// centred span `[origin - TILE_SIZE / 2, origin + TILE_SIZE / 2)` holds
/// `index`. The division rounds down, also below zero.
pub open spec fn tile_origin(index: int) -> int {
    (index + TILE_SIZE as int / 2) / (TILE_SIZE as int) * (TILE_SIZE as int)
}

/// Whether the tile coordinate of `index` can be held in an `i64`.
pub open spec fn is_addressable(index: int) -> bool {
    i64::MIN <= tile_origin(index) <= i64::MAX
}

impl FlooredCoordinates {
    /// Both axes have a tile coordinate that fits the address type.
    pub open spec fn addressable(&self) -> bool {
        is_addressable(self.longitude as int) && is_addressable(self.latitude as int)
    }

    /// The address of the tile that this position is assigned to.
    pub open spec fn tile(&self) -> (int, int) {
        (tile_origin(self.longitude as int), tile_origin(self.latitude as int))
    }

    /// The position relative to its tile's address.
    pub open spec fn offset(&self) -> (int, int) {
        (
            self.longitude - tile_origin(self.longitude as int),
            self.latitude - tile_origin(self.latitude as int),
        )
    }

    /// Decides `addressable`: all positions but those within half a tile of
    /// the ends of the `i64` range.
    pub fn is_addressable(&self) -> (yes: bool)
        ensures
            yes == self.addressable(),
    {
        axis_is_addressable(self.longitude) && axis_is_addressable(self.latitude)
    }
}

impl View for TileCoordinates {
    type V = (int, int);

    /// The address as a pair of mathematical integers.
    open spec fn view(&self) -> (int, int) {
        (self.longitude as int, self.latitude as int)
    }
}

impl TileCoordinates {
    /// Both fields lie on the grid.
    pub open spec fn is_aligned(&self) -> bool {
        self.longitude as int % (TILE_SIZE as int) == 0 && self.latitude as int % (TILE_SIZE as int)
            == 0
    }
}

/// The tile coordinate of `index` is the one grid line whose centred span
/// holds `index`.
pub proof fn lemma_tile_origin_is_nearest(index: int)
    ensures
        tile_origin(index) % (TILE_SIZE as int) == 0,
        tile_origin(index) - TILE_SIZE / 2 <= index < tile_origin(index) + TILE_SIZE / 2,
{
}

/// No other grid line has `index` in its centred span.
pub proof fn lemma_tile_origin_is_unique(index: int, origin: int)
    requires
        origin % (TILE_SIZE as int) == 0,
        origin - TILE_SIZE / 2 <= index < origin + TILE_SIZE / 2,
    ensures
        origin == tile_origin(index),
{
}

/// A position needs its tile coordinate to fit an `i64`; that holds of all
/// positions from `-9223372036854775800` up to, not including,
/// `9223372036854775800`.
pub proof fn lemma_addressable_range(index: int)
    ensures
        is_addressable(index) <==> -9223372036854775800 <= index < 9223372036854775800,
{
}

fn axis_is_addressable(index: i64) -> (yes: bool)
    ensures
        yes == is_addressable(index as int),
{
    proof {
        lemma_addressable_range(index as int);
    }
    -9223372036854775800 <= index && index < 9223372036854775800
}

/// Rounds one axis to its tile coordinate.
fn nearest_tile_origin(index: i64) -> (origin: i64)
    requires
        is_addressable(index as int),
    ensures
        origin as int == tile_origin(index as int),
{
    proof {
        lemma_addressable_range(index as int);
    }
    let size: i64 = TILE_SIZE as i64;
    let half: i64 = size / 2;
    // Position of `index` above the grid line at or below it.
    let above: i64 = if index >= 0 {
        index % size
    } else {
        let rest: i64 = (-index) % size;
        if rest == 0 {
            0
        } else {
            size - rest
        }
    };
    assert(above as int == index as int % (TILE_SIZE as int));
    if above >= half {
        index + (size - above)
    } else {
        index - above
    }
}

/// Retrieves the address of the tile that a position is assigned to. Each
/// axis goes to the nearest multiple of `TILE_SIZE`; a position exactly half
/// way between two goes to the upper one, so that a tile's span is
/// `[address - TILE_SIZE / 2, address + TILE_SIZE / 2)`.
pub fn get_tile_coordinates(coordinates: &FlooredCoordinates) -> (tile: TileCoordinates)
    requires
        coordinates.addressable(),
    ensures
        tile@ == coordinates.tile(),
        tile.is_aligned(),
{
    proof {
        lemma_tile_origin_is_nearest(coordinates.longitude as int);
        lemma_tile_origin_is_nearest(coordinates.latitude as int);
    }
    TileCoordinates {
        longitude: nearest_tile_origin(coordinates.longitude),
        latitude: nearest_tile_origin(coordinates.latitude),
    }
}

/// Resolves a projected position to its tile, the tile's size, and the
/// position's offset from the tile's address. The offset is negative for a
/// position in the lower half of the tile's span.
pub fn wgs84_coordinates_to_tile(coordinates: &FlooredCoordinates) -> (information: TileInformation)
    requires
        coordinates.addressable(),
    ensures
        (information.longitude as int, information.latitude as int) == coordinates.tile(),
        information.longitude as int % (TILE_SIZE as int) == 0,
        information.latitude as int % (TILE_SIZE as int) == 0,
        (information.x as int, information.y as int) == coordinates.offset(),
        information.tile_height == TILE_SIZE,
        information.tile_width == TILE_SIZE,
        -(TILE_SIZE / 2) <= information.x < TILE_SIZE / 2,
        -(TILE_SIZE / 2) <= information.y < TILE_SIZE / 2,
{
    proof {
        lemma_tile_origin_is_nearest(coordinates.longitude as int);
        lemma_tile_origin_is_nearest(coordinates.latitude as int);
    }
    let tile_coordinates = get_tile_coordinates(coordinates);
    TileInformation {
        longitude: tile_coordinates.longitude,
        latitude: tile_coordinates.latitude,
        tile_height: TILE_SIZE,
        tile_width: TILE_SIZE,
        x: coordinates.longitude - tile_coordinates.longitude,
        y: coordinates.latitude - tile_coordinates.latitude,
    }
}

/// Addressing is idempotent: a position that lies on a tile's address is
/// assigned to that tile, at offset zero.
pub proof fn lemma_address_is_its_own_tile(coordinates: FlooredCoordinates)
    requires
        coordinates.longitude as int % (TILE_SIZE as int) == 0,
        coordinates.latitude as int % (TILE_SIZE as int) == 0,
    ensures
        coordinates.tile() == (coordinates.longitude as int, coordinates.latitude as int),
        coordinates.offset() == (0int, 0int),
        coordinates.addressable(),
{
}

/// The tile of a position is the tile of that tile's own address.
pub proof fn lemma_tile_origin_idempotent(index: int)
    ensures
        tile_origin(tile_origin(index)) == tile_origin(index),
{
}

/// An offset is never a whole tile away from the address: it lies in
/// `[-TILE_SIZE / 2, TILE_SIZE / 2)`, and it is non-negative exactly for the
/// positions in the lower half of a grid cell.
pub proof fn lemma_offset_range(index: int)
    ensures
        -(TILE_SIZE / 2) <= index - tile_origin(index) < TILE_SIZE / 2,
        0 <= index - tile_origin(index) <==> index % (TILE_SIZE as int) < TILE_SIZE / 2,
{
}

/// For a position in the lower half of a grid cell the offset lies in
/// `[0, TILE_SIZE)`.
pub proof fn lemma_offset_within_tile(coordinates: FlooredCoordinates)
    requires
        coordinates.longitude as int % (TILE_SIZE as int) < TILE_SIZE / 2,
        coordinates.latitude as int % (TILE_SIZE as int) < TILE_SIZE / 2,
    ensures
        0 <= coordinates.offset().0 < TILE_SIZE,
        0 <= coordinates.offset().1 < TILE_SIZE,
{
}

} // verus!
