//! The tile layout of a vessel: a rectangle of tiles, built once from a template of
//! small integers and never changed afterwards.

use vstd::prelude::*;

use crate::tile::{material_passable, Tile, TileType};

verus! {

/// Why a template gives no grid.
#[derive(Clone, Copy, Debug, PartialEq, Eq, Structural)]
pub enum TemplateError {
    /// The template has no rows, or its first row has no cells.
    Empty,
    /// Some row is longer or shorter than the first.
    Ragged,
}

/// The material that a template code stands for: 1 is a wooden floor, 2 the wheel,
/// and everything else is air.
pub open spec fn material_of_code(code: i32) -> TileType {
    if code == 1 {
        TileType::WoodFloor
    } else if code == 2 {
        TileType::Wheel
    } else {
        TileType::Air
    }
}

/// The tile that a template code stands for.
pub open spec fn tile_of_code(code: i32) -> Tile {
    Tile { tile_type: material_of_code(code), passable: material_passable(material_of_code(code)) }
}

/// A template without a single cell in its first row.
pub open spec fn template_empty(rows: Seq<Seq<i32>>) -> bool {
    rows.len() == 0 || rows[0].len() == 0
}

/// A template in which some row differs in length from the first.
pub open spec fn template_ragged(rows: Seq<Seq<i32>>) -> bool {
    exists|r: int| 0 <= r < rows.len() && #[trigger] rows[r].len() != rows[0].len()
}

/// The grid that a template describes. A template is written row by row, a grid is
/// held column by column: the tile in column `c`, row `r` comes from cell `c` of
/// template row `r`.
pub open spec fn grid_of(rows: Seq<Seq<i32>>) -> Seq<Seq<Tile>> {
    Seq::new(rows[0].len(), |c: int| Seq::new(rows.len(), |r: int| tile_of_code(rows[r][c])))
}

/// How many columns a grid has.
pub open spec fn grid_width(tiles: Seq<Seq<Tile>>) -> int {
    tiles.len() as int
}

/// How many rows a grid has.
pub open spec fn grid_height(tiles: Seq<Seq<Tile>>) -> int {
    if tiles.len() == 0 {
        0
    } else {
        tiles[0].len() as int
    }
}

/// Every column has the same number of tiles, and every tile is as passable as its
/// material says.
pub open spec fn grid_wf(tiles: Seq<Seq<Tile>>) -> bool {
    &&& forall|c: int| 0 <= c < tiles.len() ==> (#[trigger] tiles[c]).len() == grid_height(tiles)
    &&& forall|c: int, r: int|
        0 <= c < tiles.len() && 0 <= r < tiles[c].len() ==> (#[trigger] tiles[c][r]).wf()
}

/// Whether a footprint may occupy the cell in column `col`, row `row`. A cell that the
/// grid does not have is not passable.
pub open spec fn passable_at(tiles: Seq<Seq<Tile>>, col: int, row: int) -> bool {
    0 <= col < tiles.len() && 0 <= row < tiles[col].len() && tiles[col][row].passable
}

/// The material that a template code stands for.
pub fn tile_type_of_code(code: i32) -> (tile_type: TileType)
    ensures
        tile_type == material_of_code(code),
{
    match code {
        1 => TileType::WoodFloor,
        2 => TileType::Wheel,
        _ => TileType::Air,
    }
}

/// A rectangle of tiles, held column by column.
pub struct Grid {
    columns: Vec<Vec<Tile>>,
}

impl View for Grid {
    type V = Seq<Seq<Tile>>;

    closed spec fn view(&self) -> Seq<Seq<Tile>> {
        Seq::new(self.columns@.len(), |c: int| self.columns@[c]@)
    }
}

impl Grid {
    /// The grid's invariant.
    pub open spec fn wf(&self) -> bool {
        grid_wf(self@)
    }

    /// Builds the grid that a template describes. A template with nothing in it, or
    /// with rows of different lengths, is turned down.
    pub fn from_template(template: &Vec<Vec<i32>>) -> (result: Result<Grid, TemplateError>)
        ensures
            match result {
                Ok(grid) => {
                    &&& !template_empty(template.deep_view())
                    &&& !template_ragged(template.deep_view())
                    &&& grid@ == grid_of(template.deep_view())
                    &&& grid.wf()
                },
                Err(TemplateError::Empty) => template_empty(template.deep_view()),
                Err(TemplateError::Ragged) => {
                    &&& !template_empty(template.deep_view())
                    &&& template_ragged(template.deep_view())
                },
            },
    {
        let ghost rows = template.deep_view();
        if template.len() == 0 {
            return Err(TemplateError::Empty);
        }
        let height: usize = template.len();
        let width: usize = template[0].len();
        if width == 0 {
            return Err(TemplateError::Empty);
        }
        let mut r: usize = 0;
        while r < height
            invariant
                r <= height,
                height == template.len(),
                rows == template.deep_view(),
                0 < height,
                0 < width,
                width == rows[0].len(),
                forall|k: int| 0 <= k < r ==> (#[trigger] rows[k]).len() == width,
            decreases height - r,
        {
            assert(rows[r as int].len() == template[r as int].len());
            if template[r].len() != width {
                return Err(TemplateError::Ragged);
            }
            r += 1;
        }
        Ok(Grid::build(template))
    }

    /// Builds the grid that a template with cells, and with rows of one length,
    /// describes.
    pub(crate) fn build(template: &Vec<Vec<i32>>) -> (grid: Grid)
        requires
            !template_empty(template.deep_view()),
            !template_ragged(template.deep_view()),
        ensures
            grid@ == grid_of(template.deep_view()),
            grid.wf(),
    {
        let ghost rows = template.deep_view();
        let height: usize = template.len();
        let width: usize = template[0].len();
        assert(rows[0].len() == width);
        assert forall|k: int| 0 <= k < height implies (#[trigger] rows[k]).len() == width by {
            if rows[k].len() != rows[0].len() {
                assert(template_ragged(rows));
            }
        }
        let mut columns: Vec<Vec<Tile>> = Vec::new();
        let mut c: usize = 0;
        while c < width
            invariant
                c <= width,
                height == template.len(),
                rows == template.deep_view(),
                0 < height,
                0 < width,
                width == rows[0].len(),
                forall|k: int| 0 <= k < height ==> (#[trigger] rows[k]).len() == width,
                columns@.len() == c,
                forall|k: int| 0 <= k < c ==> (#[trigger] columns@[k])@ == grid_of(rows)[k],
            decreases width - c,
        {
            let mut column: Vec<Tile> = Vec::new();
            let mut r: usize = 0;
            while r < height
                invariant
                    r <= height,
                    c < width,
                    height == template.len(),
                    rows == template.deep_view(),
                    0 < height,
                    width == rows[0].len(),
                    forall|k: int| 0 <= k < height ==> (#[trigger] rows[k]).len() == width,
                    column@.len() == r,
                    forall|k: int|
                        0 <= k < r ==> #[trigger] column@[k] == tile_of_code(rows[k][c as int]),
                decreases height - r,
            {
                assert(rows[r as int].len() == template[r as int].len());
                assert(rows[r as int][c as int] == template[r as int][c as int]);
                column.push(Tile::new(tile_type_of_code(template[r][c])));
                r += 1;
            }
            columns.push(column);
            c += 1;
        }
        Grid { columns: columns }
    }

    /// How many columns the grid has.
    pub fn width(&self) -> (width: usize)
        ensures
            width == grid_width(self@),
    {
        self.columns.len()
    }

    /// How many rows the grid has.
    pub fn height(&self) -> (height: usize)
        ensures
            height == grid_height(self@),
    {
        if self.columns.len() == 0 {
            0
        } else {
            self.columns[0].len()
        }
    }

    /// The tile in column `col`, row `row`, if the grid has one there.
    pub fn tile(&self, col: usize, row: usize) -> (tile: Option<Tile>)
        ensures
            match tile {
                Some(t) => {
                    &&& col < self@.len()
                    &&& row < self@[col as int].len()
                    &&& t == self@[col as int][row as int]
                },
                None => !(col < self@.len() && row < self@[col as int].len()),
            },
    {
        if col < self.columns.len() {
            if row < self.columns[col].len() {
                return Some(self.columns[col][row]);
            }
        }
        None
    }

    /// Whether a footprint may occupy the cell in column `col`, row `row`. A cell that
    /// the grid does not have is not passable.
    pub fn passable(&self, col: usize, row: usize) -> (passable: bool)
        ensures
            passable == passable_at(self@, col as int, row as int),
    {
        match self.tile(col, row) {
            Some(tile) => tile.passable,
            None => false,
        }
    }
}

} // verus!
