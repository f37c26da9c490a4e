use crate::color::Color;
use vstd::prelude::*;

verus! {

/// Why a buffer operation was refused.
#[derive(Clone, Copy, Debug, PartialEq, Eq, Structural)]
pub enum BufferError {
    /// The pixel or sub-region asked for does not lie inside the region it
    /// was asked of.
    OutOfBounds,
}

/// A rectangle `(x, y, width, height)` in signed buffer coordinates, as
/// damage is reported to the display server.
pub type Rect = (i32, i32, i32, i32);

/// Whether the pixel `(px, py)` lies inside `area`. A rectangle with a
/// non-positive width or height holds no pixel.
pub open spec fn rect_contains(area: Rect, px: int, py: int) -> bool {
    &&& area.0 <= px < area.0 + area.2
    &&& area.1 <= py < area.1 + area.3
}

/// Whether `area` lies inside a grid of `width` by `height` pixels.
pub open spec fn rect_within(area: Rect, width: int, height: int) -> bool {
    &&& 0 <= area.0
    &&& 0 <= area.1
    &&& 0 <= area.2
    &&& 0 <= area.3
    &&& area.0 + area.2 <= width
    &&& area.1 + area.3 <= height
}

/// A rectangular window into a buffer: where it starts and how far it
/// reaches, in buffer coordinates. Drawing through a region addresses pixels
/// relative to its origin and never touches a pixel outside it.
#[derive(Clone, Copy, Debug, PartialEq, Eq, Structural)]
pub struct Region {
    pub x: u32,
    pub y: u32,
    pub width: u32,
    pub height: u32,
}

impl Region {
    /// Whether the buffer pixel `(px, py)` lies inside this region.
    pub open spec fn contains(self, px: int, py: int) -> bool {
        &&& self.x <= px < self.x + self.width
        &&& self.y <= py < self.y + self.height
    }

    /// Whether every pixel of this region lies inside `outer`.
    pub open spec fn inside(self, outer: Region) -> bool {
        &&& outer.x <= self.x
        &&& outer.y <= self.y
        &&& self.x + self.width <= outer.x + outer.width
        &&& self.y + self.height <= outer.y + outer.height
    }

    /// The window `sub`, given relative to this region's origin, if it fits.
    pub open spec fn spec_subdimensions(self, sub: (u32, u32, u32, u32)) -> Result<
        Region,
        BufferError,
    > {
        if sub.0 + sub.2 > self.width || sub.1 + sub.3 > self.height || self.x + sub.0 > u32::MAX
            || self.y + sub.1 > u32::MAX {
            Err(BufferError::OutOfBounds)
        } else {
            Ok(
                Region {
                    x: (self.x + sub.0) as u32,
                    y: (self.y + sub.1) as u32,
                    width: sub.2,
                    height: sub.3,
                },
            )
        }
    }

    /// What is left of this region right of and below `offset`, if `offset`
    /// lies inside it.
    pub open spec fn spec_offset(self, offset: (u32, u32)) -> Result<Region, BufferError> {
        if offset.0 > self.width || offset.1 > self.height || self.x + offset.0 > u32::MAX || self.y
            + offset.1 > u32::MAX {
            Err(BufferError::OutOfBounds)
        } else {
            Ok(
                Region {
                    x: (self.x + offset.0) as u32,
                    y: (self.y + offset.1) as u32,
                    width: (self.width - offset.0) as u32,
                    height: (self.height - offset.1) as u32,
                },
            )
        }
    }

    pub fn new(x: u32, y: u32, width: u32, height: u32) -> (r: Region)
        ensures
            r == (Region { x, y, width, height }),
    {
        Region { x, y, width, height }
    }

    /// Origin and extent as `(x, y, width, height)`.
    pub fn get_bounds(&self) -> (b: (u32, u32, u32, u32))
        ensures
            b == (self.x, self.y, self.width, self.height),
    {
        (self.x, self.y, self.width, self.height)
    }

    /// Origin and extent as a damage rectangle.
    pub fn get_signed_bounds(&self) -> (b: Rect)
        ensures
            b == (self.x as i32, self.y as i32, self.width as i32, self.height as i32),
    {
        (self.x as i32, self.y as i32, self.width as i32, self.height as i32)
    }

    /// Narrows the region to the window `sub = (x, y, width, height)`, with
    /// `x` and `y` counted from this region's origin. A window that reaches
    /// past this region's extent is refused.
    pub fn subdimensions(&self, sub: (u32, u32, u32, u32)) -> (r: Result<Region, BufferError>)
        ensures
            r == self.spec_subdimensions(sub),
    {
        let right: u64 = sub.0 as u64 + sub.2 as u64;
        let bottom: u64 = sub.1 as u64 + sub.3 as u64;
        let x: u64 = self.x as u64 + sub.0 as u64;
        let y: u64 = self.y as u64 + sub.1 as u64;
        if right > self.width as u64 || bottom > self.height as u64 || x > u32::MAX as u64 || y
            > u32::MAX as u64 {
            Err(BufferError::OutOfBounds)
        } else {
            Ok(Region { x: x as u32, y: y as u32, width: sub.2, height: sub.3 })
        }
    }

    /// Moves the origin by `offset` and shrinks the extent by as much. An
    /// offset past this region's extent is refused.
    pub fn offset(&self, offset: (u32, u32)) -> (r: Result<Region, BufferError>)
        ensures
            r == self.spec_offset(offset),
    {
        let x: u64 = self.x as u64 + offset.0 as u64;
        let y: u64 = self.y as u64 + offset.1 as u64;
        if offset.0 > self.width || offset.1 > self.height || x > u32::MAX as u64 || y
            > u32::MAX as u64 {
            Err(BufferError::OutOfBounds)
        } else {
            Ok(
                Region {
                    x: x as u32,
                    y: y as u32,
                    width: self.width - offset.0,
                    height: self.height - offset.1,
                },
            )
        }
    }
}

/// A window made by `subdimensions` lies inside the region it was made from.
pub proof fn lemma_subdimensions_inside(outer: Region, sub: (u32, u32, u32, u32))
    requires
        outer.spec_subdimensions(sub) is Ok,
    ensures
        outer.spec_subdimensions(sub)->Ok_0.inside(outer),
{
}

/// A window made by `offset` lies inside the region it was made from.
pub proof fn lemma_offset_inside(outer: Region, offset: (u32, u32))
    requires
        outer.spec_offset(offset) is Ok,
    ensures
        outer.spec_offset(offset)->Ok_0.inside(outer),
{
}

/// A pixel of an inner region is a pixel of every region around it.
pub proof fn lemma_inside_contains(inner: Region, outer: Region, px: int, py: int)
    requires
        inner.inside(outer),
        inner.contains(px, py),
    ensures
        outer.contains(px, py),
{
}

proof fn lemma_index_in_grid(x: int, y: int, w: int, h: int)
    by (nonlinear_arith)
    requires
        0 <= x < w,
        0 <= y < h,
    ensures
        0 <= y * w + x < w * h,
        0 <= y * w <= w * h,
{
}

proof fn lemma_index_injective(x1: int, y1: int, x2: int, y2: int, w: int)
    by (nonlinear_arith)
    requires
        0 <= x1 < w,
        0 <= x2 < w,
        0 <= y1,
        0 <= y2,
        y1 * w + x1 == y2 * w + x2,
    ensures
        x1 == x2,
        y1 == y2,
{
    if y1 < y2 {
        assert(y2 * w >= (y1 + 1) * w);
    } else if y2 < y1 {
        assert(y1 * w >= (y2 + 1) * w);
    }
}

/// A grid of 32-bit pixels, `width` by `height`, stored row by row at the
/// front of a pixel store that may be longer than the grid.
pub struct Buffer {
    buf: Vec<u32>,
    dimensions: (u32, u32),
}

impl Buffer {
    /// The pixel store, row-major; the grid is its first `width * height`
    /// entries.
    pub closed spec fn storage(&self) -> Seq<u32> {
        self.buf@
    }

    /// Width and height of the grid.
    pub closed spec fn dims(&self) -> (u32, u32) {
        self.dimensions
    }

    /// The store holds the whole grid.
    pub open spec fn wf(&self) -> bool {
        self.dims().0 * self.dims().1 <= self.storage().len()
    }

    pub open spec fn in_grid(&self, x: int, y: int) -> bool {
        0 <= x < self.dims().0 && 0 <= y < self.dims().1
    }

    /// The pixel in column `x` of row `y`.
    pub open spec fn pixel(&self, x: int, y: int) -> u32 {
        self.storage()[y * self.dims().0 + x]
    }

    /// The entries of the store behind the grid.
    pub open spec fn same_tail(&self, other: &Buffer) -> bool {
        &&& self.storage().len() == other.storage().len()
        &&& forall|i: int|
            self.dims().0 * self.dims().1 <= i < self.storage().len() ==> self.storage()[i]
                == other.storage()[i]
    }

    /// A grid of `dimensions` over the pixel store `buf`.
    pub fn new(buf: Vec<u32>, dimensions: (u32, u32)) -> (b: Buffer)
        requires
            dimensions.0 * dimensions.1 <= buf@.len(),
        ensures
            b.wf(),
            b.dims() == dimensions,
            b.storage() == buf@,
    {
        Buffer { buf, dimensions }
    }

    /// Gives the pixel store back.
    pub fn into_inner(self) -> (buf: Vec<u32>)
        ensures
            buf@ == self.storage(),
    {
        self.buf
    }

    pub fn dimensions(&self) -> (d: (u32, u32))
        ensures
            d == self.dims(),
    {
        self.dimensions
    }

    /// The region that spans the whole grid.
    pub fn region(&self) -> (r: Region)
        ensures
            r == (Region { x: 0, y: 0, width: self.dims().0, height: self.dims().1 }),
    {
        Region { x: 0, y: 0, width: self.dimensions.0, height: self.dimensions.1 }
    }

    fn index_of(&self, x: u32, y: u32) -> (i: usize)
        requires
            self.wf(),
            self.in_grid(x as int, y as int),
        ensures
            i == y * self.dims().0 + x,
            i < self.dims().0 * self.dims().1,
            i < self.storage().len(),
    {
        let len = self.buf.len();
        proof {
            lemma_index_in_grid(x as int, y as int, self.dims().0 as int, self.dims().1 as int);
            assert(y * self.dims().0 <= len);
        }
        (y as usize) * (self.dimensions.0 as usize) + (x as usize)
    }

    /// Reads the pixel at `pos`, if the grid has one there.
    pub fn get(&self, pos: (u32, u32)) -> (p: Option<u32>)
        requires
            self.wf(),
        ensures
            p == if self.in_grid(pos.0 as int, pos.1 as int) {
                Some(self.pixel(pos.0 as int, pos.1 as int))
            } else {
                None
            },
    {
        if pos.0 < self.dimensions.0 && pos.1 < self.dimensions.1 {
            let i = self.index_of(pos.0, pos.1);
            Some(self.buf[i])
        } else {
            None
        }
    }

    fn set_pixel(&mut self, x: u32, y: u32, value: u32)
        requires
            old(self).wf(),
            old(self).in_grid(x as int, y as int),
        ensures
            final(self).wf(),
            final(self).dims() == old(self).dims(),
            final(self).same_tail(old(self)),
            forall|px: int, py: int|
                final(self).in_grid(px, py) ==> #[trigger] final(self).pixel(px, py) == if px == x
                    && py == y {
                    value
                } else {
                    old(self).pixel(px, py)
                },
    {
        let i = self.index_of(x, y);
        self.buf.set(i, value);
        proof {
            let w = self.dims().0 as int;
            assert forall|px: int, py: int| self.in_grid(px, py) implies #[trigger] self.pixel(
                px,
                py,
            ) == if px == x && py == y {
                value
            } else {
                old(self).pixel(px, py)
            } by {
                lemma_index_in_grid(px, py, w, self.dims().1 as int);
                if py * w + px == y * w + x {
                    lemma_index_injective(px, py, x as int, y as int, w);
                }
            }
        }
    }

    /// Fills every pixel of `region` that the grid holds with `c`.
    pub fn memset(&mut self, region: &Region, c: &Color)
        requires
            old(self).wf(),
        ensures
            final(self).wf(),
            final(self).dims() == old(self).dims(),
            final(self).same_tail(old(self)),
            forall|px: int, py: int|
                final(self).in_grid(px, py) ==> #[trigger] final(self).pixel(px, py) == if region.contains(
                    px,
                    py,
                ) {
                    c.argb()
                } else {
                    old(self).pixel(px, py)
                },
    {
        let value = c.as_argb8888();
        let w = self.dimensions.0;
        let h = self.dimensions.1;
        let x0: u32 = if region.x < w { region.x } else { w };
        let y0: u32 = if region.y < h { region.y } else { h };
        let right: u64 = region.x as u64 + region.width as u64;
        let bottom: u64 = region.y as u64 + region.height as u64;
        let x1: u32 = if right < w as u64 { right as u32 } else { w };
        let y1: u32 = if bottom < h as u64 { bottom as u32 } else { h };
        let mut y: u32 = y0;
        while y < y1
            invariant
                self.wf(),
                self.dims() == old(self).dims(),
                self.dims() == (w, h),
                self.same_tail(old(self)),
                value == c.argb(),
                x0 <= w,
                x1 <= w,
                y0 <= y,
                y1 <= h,
                x0 == if region.x < w { region.x } else { w },
                y0 == if region.y < h { region.y } else { h },
                x1 as int == if region.x + region.width < w { region.x + region.width } else { w as int },
                y1 as int == if region.y + region.height < h { region.y + region.height } else { h as int },
                forall|px: int, py: int|
                    self.in_grid(px, py) ==> #[trigger] self.pixel(px, py) == if region.contains(
                        px,
                        py,
                    ) && py < y {
                        value
                    } else {
                        old(self).pixel(px, py)
                    },
            decreases y1 - y,
        {
            let mut x: u32 = x0;
            while x < x1
                invariant
                    self.wf(),
                    self.dims() == old(self).dims(),
                    self.dims() == (w, h),
                    self.same_tail(old(self)),
                    x0 <= x,
                    x1 <= w,
                    y0 <= y < y1,
                    y1 <= h,
                    x0 == if region.x < w { region.x } else { w },
                    y0 == if region.y < h { region.y } else { h },
                    x1 as int == if region.x + region.width < w { region.x + region.width } else { w as int },
                    y1 as int == if region.y + region.height < h { region.y + region.height } else { h as int },
                    forall|px: int, py: int|
                        self.in_grid(px, py) ==> #[trigger] self.pixel(px, py) == if region.contains(
                            px,
                            py,
                        ) && (py < y || (py == y && px < x)) {
                            value
                        } else {
                            old(self).pixel(px, py)
                        },
                decreases x1 - x,
            {
                self.set_pixel(x, y, value);
                x = x + 1;
            }
            y = y + 1;
        }
    }

    /// Sets the pixel at `pos`, counted from the origin of `region`, to `c`.
    /// A position outside the region or outside the grid is refused and
    /// leaves the buffer as it was.
    pub fn put(&mut self, region: &Region, pos: (u32, u32), c: &Color) -> (r: Result<
        (),
        BufferError,
    >)
        requires
            old(self).wf(),
        ensures
            final(self).wf(),
            final(self).dims() == old(self).dims(),
            final(self).same_tail(old(self)),
            r is Ok <==> pos.0 < region.width && pos.1 < region.height && old(self).in_grid(
                region.x + pos.0,
                region.y + pos.1,
            ),
            r is Err ==> r == Err::<(), BufferError>(BufferError::OutOfBounds),
            forall|px: int, py: int|
                final(self).in_grid(px, py) ==> #[trigger] final(self).pixel(px, py) == if r is Ok
                    && px == region.x + pos.0 && py == region.y + pos.1 {
                    c.argb()
                } else {
                    old(self).pixel(px, py)
                },
    {
        let x: u64 = region.x as u64 + pos.0 as u64;
        let y: u64 = region.y as u64 + pos.1 as u64;
        if pos.0 >= region.width || pos.1 >= region.height || x >= self.dimensions.0 as u64 || y
            >= self.dimensions.1 as u64 {
            return Err(BufferError::OutOfBounds);
        }
        let value = c.as_argb8888();
        self.set_pixel(x as u32, y as u32, value);
        Ok(())
    }

    /// Copies the pixels of `area` from this buffer into `dst`, each to the
    /// place it has here. Only pixels that both grids hold are copied.
    pub fn copy_to(&self, dst: &mut Buffer, area: Rect)
        requires
            self.wf(),
            old(dst).wf(),
        ensures
            final(dst).wf(),
            final(dst).dims() == old(dst).dims(),
            final(dst).same_tail(old(dst)),
            forall|px: int, py: int|
                final(dst).in_grid(px, py) ==> #[trigger] final(dst).pixel(px, py) == if rect_contains(
                    area,
                    px,
                    py,
                ) && self.in_grid(px, py) {
                    self.pixel(px, py)
                } else {
                    old(dst).pixel(px, py)
                },
    {
        let w: u32 = if self.dimensions.0 < dst.dimensions.0 {
            self.dimensions.0
        } else {
            dst.dimensions.0
        };
        let h: u32 = if self.dimensions.1 < dst.dimensions.1 {
            self.dimensions.1
        } else {
            dst.dimensions.1
        };
        let x0 = clip(area.0 as i64, w);
        let y0 = clip(area.1 as i64, h);
        let x1 = clip(area.0 as i64 + area.2 as i64, w);
        let y1 = clip(area.1 as i64 + area.3 as i64, h);
        let mut y: u32 = y0;
        while y < y1
            invariant
                self.wf(),
                dst.wf(),
                dst.dims() == old(dst).dims(),
                dst.same_tail(old(dst)),
                w as int == if self.dims().0 < dst.dims().0 { self.dims().0 } else { dst.dims().0 },
                h as int == if self.dims().1 < dst.dims().1 { self.dims().1 } else { dst.dims().1 },
                x0 == spec_clip(area.0 as int, w),
                y0 == spec_clip(area.1 as int, h),
                x1 == spec_clip(area.0 + area.2, w),
                y1 == spec_clip(area.1 + area.3, h),
                y0 <= y,
                forall|px: int, py: int|
                    dst.in_grid(px, py) ==> #[trigger] dst.pixel(px, py) == if rect_contains(
                        area,
                        px,
                        py,
                    ) && self.in_grid(px, py) && py < y {
                        self.pixel(px, py)
                    } else {
                        old(dst).pixel(px, py)
                    },
            decreases y1 - y,
        {
            let mut x: u32 = x0;
            while x < x1
                invariant
                    self.wf(),
                    dst.wf(),
                    dst.dims() == old(dst).dims(),
                    dst.same_tail(old(dst)),
                    w as int == if self.dims().0 < dst.dims().0 {
                        self.dims().0
                    } else {
                        dst.dims().0
                    },
                    h as int == if self.dims().1 < dst.dims().1 {
                        self.dims().1
                    } else {
                        dst.dims().1
                    },
                    x0 == spec_clip(area.0 as int, w),
                    y0 == spec_clip(area.1 as int, h),
                    x1 == spec_clip(area.0 + area.2, w),
                    y1 == spec_clip(area.1 + area.3, h),
                    y0 <= y < y1,
                    x0 <= x,
                    forall|px: int, py: int|
                        dst.in_grid(px, py) ==> #[trigger] dst.pixel(px, py) == if rect_contains(
                            area,
                            px,
                            py,
                        ) && self.in_grid(px, py) && (py < y || (py == y && px < x)) {
                            self.pixel(px, py)
                        } else {
                            old(dst).pixel(px, py)
                        },
                decreases x1 - x,
            {
                let i = self.index_of(x, y);
                let value = self.buf[i];
                dst.set_pixel(x, y, value);
                x = x + 1;
            }
            y = y + 1;
        }
    }
}

/// `v` brought into the range from 0 to `limit`.
pub open spec fn spec_clip(v: int, limit: u32) -> u32 {
    if v < 0 {
        0
    } else if v > limit {
        limit
    } else {
        v as u32
    }
}

fn clip(v: i64, limit: u32) -> (r: u32)
    ensures
        r == spec_clip(v as int, limit),
{
    if v < 0 {
        0
    } else if v > limit as i64 {
        limit
    } else {
        v as u32
    }
}

} // verus!
