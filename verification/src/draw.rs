use crate::buffer::{Buffer, BufferError, Region};
use crate::color::Color;
use vstd::prelude::*;

verus! {

/// Whether the pixel `(px, py)` lies on the outline of a box of `dim` whose
/// top left corner is the origin of `region`.
pub open spec fn on_box(region: Region, dim: (u32, u32), px: int, py: int) -> bool {
    let x = px - region.x;
    let y = py - region.y;
    &&& 0 <= x < dim.0
    &&& 0 <= y < dim.1
    &&& (x == 0 || x == dim.0 - 1 || y == 0 || y == dim.1 - 1)
}

/// Whether a box of `dim` at the origin of `region` lies inside the region
/// and on the grid of `buf`.
pub open spec fn box_fits(buf: &Buffer, region: Region, dim: (u32, u32)) -> bool {
    &&& dim.0 <= region.width
    &&& dim.1 <= region.height
    &&& region.x + dim.0 <= buf.dims().0
    &&& region.y + dim.1 <= buf.dims().1
}

/// Draws the outline of a box of `dim`, one pixel wide, with its top left
/// corner at the origin of `region`. A box that does not fit is refused and
/// nothing is drawn.
pub fn draw_box(buf: &mut Buffer, region: &Region, c: &Color, dim: (u32, u32)) -> (r: Result<
    (),
    BufferError,
>)
    requires
        old(buf).wf(),
    ensures
        final(buf).wf(),
        final(buf).dims() == old(buf).dims(),
        final(buf).same_tail(old(buf)),
        r is Ok <==> box_fits(old(buf), *region, dim),
        r is Err ==> r == Err::<(), BufferError>(BufferError::OutOfBounds),
        forall|px: int, py: int|
            final(buf).in_grid(px, py) ==> #[trigger] final(buf).pixel(px, py) == if r is Ok
                && on_box(*region, dim, px, py) {
                c.argb()
            } else {
                old(buf).pixel(px, py)
            },
{
    let size = buf.dimensions();
    if dim.0 > region.width || dim.1 > region.height || region.x as u64 + dim.0 as u64
        > size.0 as u64 || region.y as u64 + dim.1 as u64 > size.1 as u64 {
        return Err(BufferError::OutOfBounds);
    }
    if dim.0 == 0 || dim.1 == 0 {
        return Ok(());
    }
    let mut x: u32 = 0;
    while x < dim.0
        invariant
            x <= dim.0,
            dim.0 > 0,
            dim.1 > 0,
            buf.wf(),
            buf.dims() == old(buf).dims(),
            buf.same_tail(old(buf)),
            box_fits(old(buf), *region, dim),
            forall|px: int, py: int|
                buf.in_grid(px, py) ==> #[trigger] buf.pixel(px, py) == if on_box(
                    *region,
                    dim,
                    px,
                    py,
                ) && (py - region.y == 0 || py - region.y == dim.1 - 1) && px - region.x < x {
                    c.argb()
                } else {
                    old(buf).pixel(px, py)
                },
        decreases dim.0 - x,
    {
        let top = buf.put(region, (x, 0), c);
        let bottom = buf.put(region, (x, dim.1 - 1), c);
        assert(top is Ok && bottom is Ok);
        x = x + 1;
    }
    let mut y: u32 = 0;
    while y < dim.1
        invariant
            y <= dim.1,
            dim.0 > 0,
            dim.1 > 0,
            buf.wf(),
            buf.dims() == old(buf).dims(),
            buf.same_tail(old(buf)),
            box_fits(old(buf), *region, dim),
            forall|px: int, py: int|
                buf.in_grid(px, py) ==> #[trigger] buf.pixel(px, py) == if on_box(
                    *region,
                    dim,
                    px,
                    py,
                ) && (py - region.y == 0 || py - region.y == dim.1 - 1 || py - region.y < y) {
                    c.argb()
                } else {
                    old(buf).pixel(px, py)
                },
        decreases dim.1 - y,
    {
        let left = buf.put(region, (0, y), c);
        let right = buf.put(region, (dim.0 - 1, y), c);
        assert(left is Ok && right is Ok);
        y = y + 1;
    }
    Ok(())
}

} // verus!
