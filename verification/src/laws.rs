//! Laws of the transition rule, proved once and for all grids: a lone
//! cell dies and gives birth to nothing (so the boundary does not wrap
//! around), an L-tromino gives birth at the fourth corner, and a 2x2
//! block is a still life.

use vstd::prelude::*;

use crate::engine::next_alive;
use crate::grid::Grid;

verus! {

/// Whether `g`'s alive cells are exactly the one at row `cy`, column
/// `cx`.
pub open spec fn lone_cell(g: Grid, cy: int, cx: int) -> bool {
    &&& g.alive_at(cy, cx)
    &&& forall|y: int, x: int| #[trigger] g.alive_at(y, x) ==> y == cy && x == cx
}

/// A lone alive cell dies of isolation and gives birth to nothing: the
/// next generation is entirely dead. In particular a lone cell at a
/// corner neither influences nor is influenced by any other cell, so
/// the grid's finite boundary does not wrap around.
pub proof fn lemma_lone_cell_extinction(g: Grid, cy: int, cx: int)
    requires
        g.wf(),
        lone_cell(g, cy, cx),
    ensures
        forall|y: int, x: int| !next_alive(g, y, x),
{
}

/// Whether `g`'s alive cells are exactly the L-tromino at rows 0..2,
/// columns 0..2 with the cell at row 1, column 1 dead.
pub open spec fn l_tromino_only(g: Grid) -> bool {
    &&& g.alive_at(0, 0)
    &&& g.alive_at(0, 1)
    &&& g.alive_at(1, 0)
    &&& forall|y: int, x: int| #[trigger] g.alive_at(y, x) ==> (y == 0 && x == 0) || (y == 0 && x
        == 1) || (y == 1 && x == 0)
}

/// Birth: in a grid of at least 3x3 whose alive cells are exactly the
/// L-tromino at rows 0..2, columns 0..2, the dead cell at row 1, column
/// 1 has exactly 3 alive neighbors and becomes alive, while every cell
/// outside the tromino's 3x3 neighborhood stays dead.
pub proof fn lemma_l_tromino_birth(g: Grid)
    requires
        g.wf(),
        g.height >= 3,
        g.width >= 3,
        l_tromino_only(g),
    ensures
        next_alive(g, 1, 1),
        forall|y: int, x: int| (y > 2 || x > 2) ==> !next_alive(g, y, x),
{
}

/// Whether `g`'s alive cells are exactly the 2x2 block whose top-left
/// corner is at row `r`, column `c`.
pub open spec fn block_only(g: Grid, r: int, c: int) -> bool {
    &&& forall|y: int, x: int| #[trigger] g.alive_at(y, x) <==> (r <= y < r + 2 && c <= x < c + 2
        && 0 <= y < g.height && 0 <= x < g.width)
    &&& g.alive_at(r, c)
    &&& g.alive_at(r + 1, c + 1)
}

/// A 2x2 block with at least one row and column of margin on all sides
/// is a still life: each block cell has exactly 3 alive neighbors and
/// survives, each other cell has at most 2 and stays dead, so the next
/// generation equals the current one — and hence, the same hypotheses
/// holding again, every later generation as well.
pub proof fn lemma_block_still_life(g: Grid, r: int, c: int)
    requires
        g.wf(),
        block_only(g, r, c),
        1 <= r,
        r + 2 < g.height,
        1 <= c,
        c + 2 < g.width,
    ensures
        forall|y: int, x: int|
            0 <= y < g.height && 0 <= x < g.width ==> (next_alive(g, y, x) <==> g.alive_at(y, x)),
{
}

} // verus!
