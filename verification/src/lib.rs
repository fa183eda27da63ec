//! Map-tile addressing on a fixed planar grid, and the rendering of
//! translucent shadow masks from per-tile elevation grids.

pub mod bindings;
pub mod coordinates;
pub mod decimal;
pub mod heightmap;
pub mod shadows;
