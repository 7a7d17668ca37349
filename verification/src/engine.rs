//! The automaton engine: neighbor counting and the transition rule
//! that advances a grid by one generation.

use vstd::prelude::*;

use crate::grid::ALIVE;
use crate::grid::DEAD;
use crate::grid::Grid;

verus! {

/// An alive cell with fewer neighbors dies of isolation.
pub const SURVIVAL_MIN: u8 = 2;
/// An alive cell with more neighbors dies of overcrowding.
pub const SURVIVAL_MAX: u8 = 3;
/// A dead cell with exactly this many neighbors becomes alive.
pub const BIRTH_COUNT: u8 = 3;

/// 1 when the cell at row `y`, column `x` is alive, else 0. Positions
/// outside the grid count as dead.
pub open spec fn alive_n(g: Grid, y: int, x: int) -> int {
    if g.alive_at(y, x) {
        1
    } else {
        0
    }
}

/// The number of alive cells among the up-to-8 cells adjacent to row
/// `y`, column `x` (the 3x3 block centered there, excluding the center).
/// Positions outside the boundary contribute nothing: the grid does not
/// wrap around, so edge and corner cells simply have fewer candidates.
pub open spec fn neighbor_count(g: Grid, y: int, x: int) -> int {
    alive_n(g, y - 1, x - 1) + alive_n(g, y - 1, x) + alive_n(g, y - 1, x + 1) + alive_n(
        g,
        y,
        x - 1,
    ) + alive_n(g, y, x + 1) + alive_n(g, y + 1, x - 1) + alive_n(g, y + 1, x) + alive_n(
        g,
        y + 1,
        x + 1,
    )
}

/// The transition rule: whether the cell at row `y`, column `x` is
/// alive in the next generation. An alive cell survives with 2 or 3
/// alive neighbors; a dead cell is born with exactly 3; every other
/// cell is dead.
pub open spec fn next_alive(g: Grid, y: int, x: int) -> bool {
    if g.alive_at(y, x) {
        SURVIVAL_MIN as int <= neighbor_count(g, y, x) <= SURVIVAL_MAX as int
    } else {
        neighbor_count(g, y, x) == BIRTH_COUNT as int
    }
}

/// Counts the alive neighbors of the cell at row `y`, column `x`.
pub fn count_neighbors(g: &Grid, y: usize, x: usize) -> (n: u8)
    requires
        g.wf(),
        y < g.height,
        x < g.width,
    ensures
        n as int == neighbor_count(*g, y as int, x as int),
        n <= 8,
{
    let mut n: u8 = 0;
    if y > 0 && x > 0 && g.cells[y - 1][x - 1] == ALIVE {
        n += 1;
    }
    if y > 0 && g.cells[y - 1][x] == ALIVE {
        n += 1;
    }
    if y > 0 && x + 1 < g.width && g.cells[y - 1][x + 1] == ALIVE {
        n += 1;
    }
    if x > 0 && g.cells[y][x - 1] == ALIVE {
        n += 1;
    }
    if x + 1 < g.width && g.cells[y][x + 1] == ALIVE {
        n += 1;
    }
    if y + 1 < g.height && x > 0 && g.cells[y + 1][x - 1] == ALIVE {
        n += 1;
    }
    if y + 1 < g.height && g.cells[y + 1][x] == ALIVE {
        n += 1;
    }
    if y + 1 < g.height && x + 1 < g.width && g.cells[y + 1][x + 1] == ALIVE {
        n += 1;
    }
    n
}

/// Advances the grid by one generation. Returns a new grid of the same
/// dimensions whose every cell follows the transition rule; the input
/// grid is never mutated, so a reader of the previous generation never
/// observes a half-updated state.
pub fn advance(g: &Grid) -> (r: Grid)
    requires
        g.wf(),
    ensures
        r.wf(),
        r.width == g.width,
        r.height == g.height,
        forall|y: int, x: int|
            0 <= y < g.height && 0 <= x < g.width ==> (r.alive_at(y, x) <==> next_alive(
                *g,
                y,
                x,
            )),
{
    let mut rows: Vec<Vec<u8>> = Vec::new();
    let mut y: usize = 0;
    while y < g.height
        invariant
            g.wf(),
            y <= g.height,
            rows@.len() == y,
            forall|yy: int| 0 <= yy < y ==> (#[trigger] rows@[yy])@.len() == g.width,
            forall|yy: int, xx: int|
                0 <= yy < y && 0 <= xx < g.width ==> (#[trigger] rows@[yy]@[xx]) == DEAD
                    || rows@[yy]@[xx] == ALIVE,
            forall|yy: int, xx: int|
                0 <= yy < y && 0 <= xx < g.width ==> ((#[trigger] rows@[yy]@[xx]) == ALIVE
                    <==> next_alive(*g, yy, xx)),
        decreases g.height - y,
    {
        let mut row: Vec<u8> = Vec::new();
        let mut x: usize = 0;
        while x < g.width
            invariant
                g.wf(),
                y < g.height,
                x <= g.width,
                row@.len() == x,
                forall|xx: int|
                    0 <= xx < x ==> (#[trigger] row@[xx]) == DEAD || row@[xx] == ALIVE,
                forall|xx: int|
                    0 <= xx < x ==> ((#[trigger] row@[xx]) == ALIVE <==> next_alive(
                        *g,
                        y as int,
                        xx,
                    )),
            decreases g.width - x,
        {
            let n = count_neighbors(g, y, x);
            let next: u8 = if g.cells[y][x] == ALIVE {
                if n < SURVIVAL_MIN || n > SURVIVAL_MAX {
                    DEAD
                } else {
                    ALIVE
                }
            } else {
                if n == BIRTH_COUNT {
                    ALIVE
                } else {
                    DEAD
                }
            };
            row.push(next);
            x += 1;
        }
        rows.push(row);
        y += 1;
    }
    Grid { width: g.width, height: g.height, cells: rows }
}

} // verus!
