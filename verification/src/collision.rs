//! The collision test: may a footprint of one tile's extent stand at a point, given a
//! vessel's grid and where the grid's corner is?

use vstd::prelude::*;

use crate::grid::{grid_height, grid_width, passable_at, Grid};
use crate::tile::Tile;

verus! {

/// The width and height of one tile, in pixels.
pub const TILE_SIZE: i64 = 64;

/// What the collision test says of a point.
#[derive(Clone, Copy, Debug, PartialEq, Eq, Structural)]
pub enum Footing {
    /// The footprint is on the vessel and every tile under it is passable.
    Legal,
    /// The footprint is on the vessel, and some tile under it is not passable.
    Blocked,
    /// The footprint is not wholly on the vessel.
    OffVessel,
}

/// Whether the footprint at `(x, y)`, one tile wide and high, lies wholly on the
/// vessel whose grid has its corner at `(ox, oy)`.
pub open spec fn on_vessel(tiles: Seq<Seq<Tile>>, ox: int, oy: int, x: int, y: int) -> bool {
    &&& ox <= x
    &&& x + TILE_SIZE <= ox + grid_width(tiles) * TILE_SIZE
    &&& oy <= y
    &&& y + TILE_SIZE <= oy + grid_height(tiles) * TILE_SIZE
}

/// The cell in which an offset from the grid's corner lies.
pub open spec fn cell_floor(offset: int) -> int {
    offset / (TILE_SIZE as int)
}

/// The cell in which an offset lies if it is on a cell boundary, else the next one.
pub open spec fn cell_ceil(offset: int) -> int {
    (offset + TILE_SIZE - 1) / (TILE_SIZE as int)
}

/// Whether the up to four cells that the footprint at `(x, y)` straddles are all
/// passable.
pub open spec fn corners_passable(tiles: Seq<Seq<Tile>>, ox: int, oy: int, x: int, y: int) -> bool {
    &&& passable_at(tiles, cell_floor(x - ox), cell_floor(y - oy))
    &&& passable_at(tiles, cell_floor(x - ox), cell_ceil(y - oy))
    &&& passable_at(tiles, cell_ceil(x - ox), cell_floor(y - oy))
    &&& passable_at(tiles, cell_ceil(x - ox), cell_ceil(y - oy))
}

/// The footing at `(x, y)` on the vessel whose grid has its corner at `(ox, oy)`.
pub open spec fn footing_of(tiles: Seq<Seq<Tile>>, ox: int, oy: int, x: int, y: int) -> Footing {
    if !on_vessel(tiles, ox, oy, x, y) {
        Footing::OffVessel
    } else if corners_passable(tiles, ox, oy, x, y) {
        Footing::Legal
    } else {
        Footing::Blocked
    }
}

/// A footprint on the vessel straddles only columns and rows that the grid has, at
/// most two of each.
pub proof fn lemma_on_vessel_cells_in_grid(tiles: Seq<Seq<Tile>>, ox: int, oy: int, x: int, y: int)
    requires
        on_vessel(tiles, ox, oy, x, y),
    ensures
        0 <= cell_floor(x - ox) <= cell_ceil(x - ox) < grid_width(tiles),
        0 <= cell_floor(y - oy) <= cell_ceil(y - oy) < grid_height(tiles),
        cell_ceil(x - ox) <= cell_floor(x - ox) + 1,
        cell_ceil(y - oy) <= cell_floor(y - oy) + 1,
{
}

/// Tests the footprint at `(x, y)` against the grid with its corner at
/// `(origin_x, origin_y)`.
pub fn footing(grid: &Grid, origin_x: i64, origin_y: i64, x: i64, y: i64) -> (f: Footing)
    ensures
        f == footing_of(grid@, origin_x as int, origin_y as int, x as int, y as int),
        f is OffVessel <==> !on_vessel(grid@, origin_x as int, origin_y as int, x as int, y as int),
        f is Legal <==> on_vessel(grid@, origin_x as int, origin_y as int, x as int, y as int)
            && corners_passable(grid@, origin_x as int, origin_y as int, x as int, y as int),
        f is Blocked <==> on_vessel(grid@, origin_x as int, origin_y as int, x as int, y as int)
            && !corners_passable(grid@, origin_x as int, origin_y as int, x as int, y as int),
{
    let size: i128 = TILE_SIZE as i128;
    let right: i128 = origin_x as i128 + grid.width() as i128 * size;
    let bottom: i128 = origin_y as i128 + grid.height() as i128 * size;
    let is_in_x = x >= origin_x && x as i128 + size <= right;
    let is_in_y = y >= origin_y && y as i128 + size <= bottom;
    if is_in_x && is_in_y {
        let dx: u128 = (x as i128 - origin_x as i128) as u128;
        let dy: u128 = (y as i128 - origin_y as i128) as u128;
        let step: u128 = TILE_SIZE as u128;
        let col_floor: usize = (dx / step) as usize;
        let col_ceil: usize = ((dx + step - 1) / step) as usize;
        let row_floor: usize = (dy / step) as usize;
        let row_ceil: usize = ((dy + step - 1) / step) as usize;
        if !grid.passable(col_floor, row_floor) || !grid.passable(col_floor, row_ceil)
            || !grid.passable(col_ceil, row_floor) || !grid.passable(col_ceil, row_ceil) {
            return Footing::Blocked;
        }
        return Footing::Legal;
    }
    Footing::OffVessel
}

} // verus!
