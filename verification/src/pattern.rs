//! The pattern library: fixed, named seed patterns. It holds one
//! pattern, the period-30 glider gun: two stable 2x2 blocks, a central
//! hook structure, and two symmetric arm structures, in a 10-row,
//! 38-column template.

use vstd::prelude::*;

use crate::grid::ALIVE;
use crate::grid::DEAD;
use crate::grid::Error;
use crate::grid::Grid;

verus! {

/// Number of rows of the glider-gun template.
pub const GUN_HEIGHT: usize = 10;
/// Number of columns of the glider-gun template.
pub const GUN_WIDTH: usize = 38;

/// The fixed coordinate table of the glider gun: whether the template
/// cell at row `y`, column `x` is alive. Listed row by row.
pub open spec fn gun_cell(y: int, x: int) -> bool {
    ||| (y == 1 && x == 25)
    ||| (y == 2 && (x == 23 || x == 25))
    ||| (y == 3 && (x == 13 || x == 14 || x == 21 || x == 22 || x == 35 || x == 36))
    ||| (y == 4 && (x == 12 || x == 16 || x == 21 || x == 22 || x == 35 || x == 36))
    ||| (y == 5 && (x == 1 || x == 2 || x == 11 || x == 17 || x == 21 || x == 22))
    ||| (y == 6 && (x == 1 || x == 2 || x == 11 || x == 15 || x == 17 || x == 18 || x == 23 || x
        == 25))
    ||| (y == 7 && (x == 11 || x == 17 || x == 25))
    ||| (y == 8 && (x == 12 || x == 16))
    ||| (y == 9 && (x == 13 || x == 14))
}

/// Decides `gun_cell` for one template cell.
fn gun_cell_at(y: usize, x: usize) -> (r: bool)
    ensures
        r == gun_cell(y as int, x as int),
{
    (y == 1 && x == 25) || (y == 2 && (x == 23 || x == 25)) || (y == 3 && (x == 13 || x == 14 || x
        == 21 || x == 22 || x == 35 || x == 36)) || (y == 4 && (x == 12 || x == 16 || x == 21 || x
        == 22 || x == 35 || x == 36)) || (y == 5 && (x == 1 || x == 2 || x == 11 || x == 17 || x
        == 21 || x == 22)) || (y == 6 && (x == 1 || x == 2 || x == 11 || x == 15 || x == 17 || x
        == 18 || x == 23 || x == 25)) || (y == 7 && (x == 11 || x == 17 || x == 25)) || (y == 8 && (
    x == 12 || x == 16)) || (y == 9 && (x == 13 || x == 14))
}

/// Returns the fixed pattern of the given name, or
/// `Error::UnknownPattern` for any other name: an unknown name is a
/// configuration error, never a silent empty pattern. The one known
/// name is "glider_gun".
pub fn named_pattern(name: &str) -> (r: Result<Grid, Error>)
    ensures
        r is Ok <==> name@ == "glider_gun"@,
        r matches Err(e) ==> e == Error::UnknownPattern,
        r matches Ok(p) ==> {
            &&& p.wf()
            &&& p.width == GUN_WIDTH
            &&& p.height == GUN_HEIGHT
            &&& forall|y: int, x: int| p.alive_at(y, x) <==> (0 <= y < GUN_HEIGHT && 0 <= x
                < GUN_WIDTH && gun_cell(y, x))
        },
{
    let key: String = name.to_owned();
    let gun_name: String = "glider_gun".to_owned();
    if key != gun_name {
        return Err(Error::UnknownPattern);
    }
    let mut rows: Vec<Vec<u8>> = Vec::new();
    let mut y: usize = 0;
    while y < GUN_HEIGHT
        invariant
            y <= GUN_HEIGHT,
            rows@.len() == y,
            forall|yy: int| 0 <= yy < y ==> (#[trigger] rows@[yy])@.len() == GUN_WIDTH,
            forall|yy: int, xx: int|
                0 <= yy < y && 0 <= xx < GUN_WIDTH ==> (#[trigger] rows@[yy]@[xx]) == DEAD
                    || rows@[yy]@[xx] == ALIVE,
            forall|yy: int, xx: int|
                0 <= yy < y && 0 <= xx < GUN_WIDTH ==> ((#[trigger] rows@[yy]@[xx]) == ALIVE
                    <==> gun_cell(yy, xx)),
        decreases GUN_HEIGHT - y,
    {
        let mut row: Vec<u8> = Vec::new();
        let mut x: usize = 0;
        while x < GUN_WIDTH
            invariant
                y < GUN_HEIGHT,
                x <= GUN_WIDTH,
                row@.len() == x,
                forall|xx: int|
                    0 <= xx < x ==> (#[trigger] row@[xx]) == DEAD || row@[xx] == ALIVE,
                forall|xx: int|
                    0 <= xx < x ==> ((#[trigger] row@[xx]) == ALIVE <==> gun_cell(y as int, xx)),
            decreases GUN_WIDTH - x,
        {
            let v: u8 = if gun_cell_at(y, x) {
                ALIVE
            } else {
                DEAD
            };
            row.push(v);
            x += 1;
        }
        rows.push(row);
        y += 1;
    }
    Ok(Grid { width: GUN_WIDTH, height: GUN_HEIGHT, cells: rows })
}

} // verus!
