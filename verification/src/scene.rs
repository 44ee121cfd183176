//! What a frame shows, in pixels and colours.

use vstd::prelude::*;

verus! {

/// The side of a grid cell on the screen, in pixels.
pub const CELL_SIZE: i64 = 20;

/// A colour with eight bits for each of red, green, blue and opacity.
#[derive(Clone, Copy, PartialEq, Eq, Debug, Structural)]
pub struct Rgba {
    pub red: u8,
    pub green: u8,
    pub blue: u8,
    pub alpha: u8,
}

/// A square on the screen: the pixel of its upper left corner and its side.
#[derive(Clone, Copy, PartialEq, Eq, Debug, Structural)]
pub struct Square {
    pub x: i64,
    pub y: i64,
    pub side: i64,
}

/// A frame: a background that fills the window and squares of one colour
/// drawn over it.
#[derive(Debug)]
pub struct Scene {
    pub background: Rgba,
    pub fill: Rgba,
    pub squares: Vec<Square>,
}

impl Rgba {
    /// Opaque green.
    pub open spec fn spec_solid_green() -> Rgba {
        Rgba { red: 0, green: 255, blue: 0, alpha: 255 }
    }

    /// Opaque blue.
    pub open spec fn spec_solid_blue() -> Rgba {
        Rgba { red: 0, green: 0, blue: 255, alpha: 255 }
    }

    /// Opaque green.
    #[verifier::when_used_as_spec(spec_solid_green)]
    pub fn solid_green() -> (c: Rgba)
        ensures
            c == Rgba::spec_solid_green(),
    {
        Rgba { red: 0, green: 255, blue: 0, alpha: 255 }
    }

    /// Opaque blue.
    #[verifier::when_used_as_spec(spec_solid_blue)]
    pub fn solid_blue() -> (c: Rgba)
        ensures
            c == Rgba::spec_solid_blue(),
    {
        Rgba { red: 0, green: 0, blue: 255, alpha: 255 }
    }
}

impl Square {
    /// The square that shows a grid cell: the cell's coordinates scaled by the
    /// cell size, one cell wide.
    pub open spec fn shows(self, cell: (int, int)) -> bool {
        &&& self.x == cell.0 * CELL_SIZE
        &&& self.y == cell.1 * CELL_SIZE
        &&& self.side == CELL_SIZE
    }

    /// The square that shows the grid cell `(x, y)`.
    pub fn of_cell(x: i32, y: i32) -> (square: Square)
        ensures
            square.shows((x as int, y as int)),
    {
        Square { x: x as i64 * CELL_SIZE, y: y as i64 * CELL_SIZE, side: CELL_SIZE }
    }
}

/// Whether the squares show the cells, one for one and in the same order.
pub open spec fn squares_show(squares: Seq<Square>, cells: Seq<(int, int)>) -> bool {
    &&& squares.len() == cells.len()
    &&& forall|i: int| 0 <= i < cells.len() ==> (#[trigger] squares[i]).shows(cells[i])
}

} // verus!
