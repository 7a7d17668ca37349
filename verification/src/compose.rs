//! The compositor: places a pattern into a grid at a given offset.

use vstd::prelude::*;

use crate::grid::ALIVE;
use crate::grid::DEAD;
use crate::grid::Error;
use crate::grid::Grid;

verus! {

/// Whether a pattern of `pattern`'s dimensions fits inside `base` when
/// its top-left corner is shifted down by `offset_x` rows and right by
/// `offset_y` columns.
pub open spec fn placement_fits(pattern: Grid, base: Grid, offset_x: int, offset_y: int) -> bool {
    &&& offset_x + pattern.height <= base.height
    &&& offset_y + pattern.width <= base.width
}

/// Returns a new grid with `base`'s dimensions, initialized to dead and
/// then overwritten with `pattern`'s cells: `base` contributes only its
/// dimensions, and neither `base` nor `pattern` is mutated.
///
/// Axis convention: `offset_x` shifts the pattern's rows downward (it is
/// added to the row index), `offset_y` shifts its columns rightward (it
/// is added to the column index). A placement that would put any pattern
/// cell outside `base`'s bounds fails with
/// `Error::PlacementOutOfBounds`; it is never truncated or wrapped.
pub fn place(pattern: &Grid, base: &Grid, offset_x: usize, offset_y: usize) -> (r: Result<
    Grid,
    Error,
>)
    requires
        pattern.wf(),
        base.wf(),
    ensures
        r is Ok <==> placement_fits(*pattern, *base, offset_x as int, offset_y as int),
        r matches Err(e) ==> e == Error::PlacementOutOfBounds,
        r matches Ok(g) ==> {
            &&& g.wf()
            &&& g.width == base.width
            &&& g.height == base.height
            &&& forall|y: int, x: int|
                g.alive_at(y, x) <==> pattern.alive_at(y - offset_x, x - offset_y)
        },
{
    if pattern.height > base.height || offset_x > base.height - pattern.height
        || pattern.width > base.width || offset_y > base.width - pattern.width {
        return Err(Error::PlacementOutOfBounds);
    }
    let mut rows: Vec<Vec<u8>> = Vec::new();
    let mut y: usize = 0;
    while y < base.height
        invariant
            pattern.wf(),
            base.wf(),
            offset_x + pattern.height <= base.height,
            offset_y + pattern.width <= base.width,
            y <= base.height,
            rows@.len() == y,
            forall|yy: int| 0 <= yy < y ==> (#[trigger] rows@[yy])@.len() == base.width,
            forall|yy: int, xx: int|
                0 <= yy < y && 0 <= xx < base.width ==> (#[trigger] rows@[yy]@[xx]) == DEAD
                    || rows@[yy]@[xx] == ALIVE,
            forall|yy: int, xx: int|
                0 <= yy < y && 0 <= xx < base.width ==> ((#[trigger] rows@[yy]@[xx])
                    == ALIVE <==> pattern.alive_at(yy - offset_x, xx - offset_y)),
        decreases base.height - y,
    {
        let mut row: Vec<u8> = Vec::new();
        let mut x: usize = 0;
        while x < base.width
            invariant
                pattern.wf(),
                base.wf(),
                offset_x + pattern.height <= base.height,
                offset_y + pattern.width <= base.width,
                y < base.height,
                x <= base.width,
                row@.len() == x,
                forall|xx: int|
                    0 <= xx < x ==> (#[trigger] row@[xx]) == DEAD || row@[xx]
                        == ALIVE,
                forall|xx: int|
                    0 <= xx < x ==> ((#[trigger] row@[xx]) == ALIVE
                        <==> pattern.alive_at(y - offset_x, xx - offset_y)),
            decreases base.width - x,
        {
            let v: u8 = if y >= offset_x && y - offset_x < pattern.height && x >= offset_y && x
                - offset_y < pattern.width {
                pattern.cells[y - offset_x][x - offset_y]
            } else {
                DEAD
            };
            row.push(v);
            x += 1;
        }
        rows.push(row);
        y += 1;
    }
    Ok(Grid { width: base.width, height: base.height, cells: rows })
}

} // verus!
