//! Random grid construction: each cell is drawn from a caller-supplied
//! randomness source. Exposed for exploratory use; the default startup
//! path seeds from the pattern library instead.

use rand::Rng;
use vstd::prelude::*;

use crate::grid::ALIVE;
use crate::grid::DEAD;
use crate::grid::Error;
use crate::grid::Grid;

verus! {

/// Declares rand::rngs::ThreadRng, the thread-local generator, so that
/// a randomness source can be passed through signatures. The value is
/// opaque; nothing is assumed of it.
#[verifier::external_type_specification]
#[verifier::external_body]
pub struct ExThreadRng(rand::rngs::ThreadRng);

/// Relies on rand::Rng::gen_range: the sample lies in the given range,
/// here 0..2, so it is 0 or 1. Nothing else holds of a random draw.
#[verifier::external_body]
fn draw_cell(rng: &mut rand::rngs::ThreadRng) -> (r: u8)
    ensures
        r == DEAD || r == ALIVE,
{
    rng.gen_range(0..2)
}

/// Returns a grid of the given dimensions where each cell is
/// independently drawn from `rng`, or `Error::ZeroDimension` when
/// either dimension is zero. Consumes entropy from `rng`.
pub fn create_random(width: usize, height: usize, rng: &mut rand::rngs::ThreadRng) -> (r: Result<
    Grid,
    Error,
>)
    ensures
        r is Ok <==> (width > 0 && height > 0),
        r matches Err(e) ==> e == Error::ZeroDimension,
        r matches Ok(g) ==> g.wf() && g.width == width && g.height == height,
{
    if width == 0 || height == 0 {
        return Err(Error::ZeroDimension);
    }
    let mut rows: Vec<Vec<u8>> = Vec::new();
    let mut y: usize = 0;
    while y < height
        invariant
            0 < width,
            y <= height,
            rows@.len() == y,
            forall|yy: int| 0 <= yy < y ==> (#[trigger] rows@[yy])@.len() == width,
            forall|yy: int, xx: int|
                0 <= yy < y && 0 <= xx < width ==> (#[trigger] rows@[yy]@[xx]) == DEAD
                    || rows@[yy]@[xx] == ALIVE,
        decreases height - y,
    {
        let mut row: Vec<u8> = Vec::new();
        let mut x: usize = 0;
        while x < width
            invariant
                x <= width,
                row@.len() == x,
                forall|xx: int|
                    0 <= xx < x ==> (#[trigger] row@[xx]) == DEAD || row@[xx] == ALIVE,
            decreases width - x,
        {
            row.push(draw_cell(rng));
            x += 1;
        }
        rows.push(row);
        y += 1;
    }
    Ok(Grid { width, height, cells: rows })
}

} // verus!
