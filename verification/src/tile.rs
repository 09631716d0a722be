//! Tiles: the material of one grid cell and whether a footprint may occupy it.

use vstd::prelude::*;

verus! {

/// The material of a grid cell.
#[derive(Clone, Copy, Debug, PartialEq, Eq, Structural)]
pub enum TileType {
    WoodFloor,
    StoneWall,
    GrassFloor,
    DirtFloor,
    Tree,
    Air,
    Water,
    Wheel,
}

/// One grid cell. `passable` is fixed by the material when the tile is made.
#[derive(Clone, Copy, Debug, PartialEq, Eq, Structural)]
pub struct Tile {
    pub tile_type: TileType,
    pub passable: bool,
}

/// Water, stone walls and air stop a footprint; every other material carries it.
pub open spec fn material_passable(tile_type: TileType) -> bool {
    !(tile_type is Water || tile_type is StoneWall || tile_type is Air)
}

impl Tile {
    /// A tile is well formed when its passability is the one its material gives.
    pub open spec fn wf(self) -> bool {
        self.passable == material_passable(self.tile_type)
    }

    pub fn new(tile_type: TileType) -> (tile: Tile)
        ensures
            tile.tile_type == tile_type,
            tile.passable == material_passable(tile_type),
            tile.wf(),
    {
        let can_pass = match tile_type {
            TileType::Water | TileType::StoneWall | TileType::Air => false,
            _ => true,
        };
        Tile { tile_type: tile_type, passable: can_pass }
    }
}

} // verus!
