//! The grid data type: a rectangular array of binary cell states, with
//! its well-formedness invariant and constructors.

use vstd::prelude::*;

verus! {

/// Cell state: dead.
pub const DEAD: u8 = 0;
/// Cell state: alive.
pub const ALIVE: u8 = 1;

/// The errors the library reports. Construction, placement and lookup
/// are all-or-nothing: on an error nothing has been built or changed.
#[derive(Clone, Copy, Debug, PartialEq, Eq, Structural)]
pub enum Error {
    /// A grid or pattern was requested with a zero width or height.
    ZeroDimension,
    /// A pattern offset would place cells outside the target grid.
    PlacementOutOfBounds,
    /// No pattern of the requested name exists.
    UnknownPattern,
}

/// A rectangular grid of cells. Every row has exactly `width` cells,
/// there are exactly `height` rows, and every cell is `DEAD` or `ALIVE`.
/// A pattern is a small grid of its own dimensions, used as a read-only
/// template.
#[derive(Clone, Debug, PartialEq, Eq)]
pub struct Grid {
    pub width: usize,
    pub height: usize,
    pub cells: Vec<Vec<u8>>,
}

impl Grid {
    /// Well-formedness: positive dimensions, a fully rectangular cell
    /// array, and no cell value other than `DEAD` or `ALIVE`.
    pub open spec fn wf(self) -> bool {
        &&& 0 < self.width
        &&& 0 < self.height
        &&& self.cells@.len() == self.height
        &&& forall|y: int| 0 <= y < self.height ==> (#[trigger] self.cells@[y])@.len() == self.width
        &&& forall|y: int, x: int|
            0 <= y < self.height && 0 <= x < self.width ==> (#[trigger] self.cells@[y]@[x]) == DEAD
                || self.cells@[y]@[x] == ALIVE
    }

    /// Whether the cell at row `y`, column `x` is alive. Positions
    /// outside the grid are never alive: the boundary is finite and
    /// does not wrap around.
    pub open spec fn alive_at(self, y: int, x: int) -> bool {
        &&& 0 <= y < self.height
        &&& 0 <= x < self.width
        &&& self.cells@[y]@[x] == ALIVE
    }

    /// The cell state at row `y`, column `x`.
    pub fn cell(&self, y: usize, x: usize) -> (r: u8)
        requires
            self.wf(),
            y < self.height,
            x < self.width,
        ensures
            r == self.cells@[y as int]@[x as int],
            (r == ALIVE) <==> self.alive_at(y as int, x as int),
    {
        self.cells[y][x]
    }
}

/// A row of `width` dead cells.
fn dead_row(width: usize) -> (r: Vec<u8>)
    ensures
        r@.len() == width,
        forall|i: int| 0 <= i < width ==> r@[i] == DEAD,
{
    let mut row: Vec<u8> = Vec::new();
    let mut i: usize = 0;
    while i < width
        invariant
            i <= width,
            row@.len() == i,
            forall|j: int| 0 <= j < i ==> row@[j] == DEAD,
        decreases width - i,
    {
        row.push(DEAD);
        i += 1;
    }
    row
}

/// Returns a grid of the given dimensions with every cell dead, or
/// `Error::ZeroDimension` when either dimension is zero.
pub fn create_empty(width: usize, height: usize) -> (r: Result<Grid, Error>)
    ensures
        r is Ok <==> (width > 0 && height > 0),
        r matches Err(e) ==> e == Error::ZeroDimension,
        r matches Ok(g) ==> {
            &&& g.wf()
            &&& g.width == width
            &&& g.height == height
            &&& forall|y: int, x: int| !g.alive_at(y, x)
        },
{
    if width == 0 || height == 0 {
        return Err(Error::ZeroDimension);
    }
    let mut rows: Vec<Vec<u8>> = Vec::new();
    let mut y: usize = 0;
    while y < height
        invariant
            y <= height,
            rows@.len() == y,
            forall|yy: int| 0 <= yy < y ==> (#[trigger] rows@[yy])@.len() == width,
            forall|yy: int, xx: int|
                0 <= yy < y && 0 <= xx < width ==> (#[trigger] rows@[yy]@[xx]) == DEAD,
        decreases height - y,
    {
        rows.push(dead_row(width));
        y += 1;
    }
    Ok(Grid { width, height, cells: rows })
}

} // verus!
