use crate::buffer::{rect_within, Buffer, Rect, Region};
use crate::color::Color;
use crate::config::Config;
use chrono::Local;
use vstd::prelude::*;

verus! {

/// A moment on the clock, with what it takes to show it as local time.
#[derive(Clone, Copy, Debug, PartialEq, Eq, Structural)]
pub struct Timestamp {
    /// Whole seconds since 1970-01-01 00:00:00 UTC.
    pub secs: i64,
    /// The nanoseconds past `secs`.
    pub nanos: u32,
    /// How many seconds local time is ahead of UTC.
    pub utc_offset: i32,
}

/// Reads the clock with `chrono::Local::now` and takes the result apart with
/// `timestamp`, `timestamp_subsec_nanos` and `offset().local_minus_utc()`.
/// Nothing is claimed of the value: it is whatever the clock says.
#[verifier::external_body]
pub(crate) fn local_now() -> Timestamp {
    let now = Local::now();
    Timestamp {
        secs: now.timestamp(),
        nanos: now.timestamp_subsec_nanos(),
        utc_offset: now.offset().local_minus_utc(),
    }
}

/// Whether a key went down or up.
#[derive(Clone, Copy, Debug, PartialEq, Eq, Structural)]
pub enum KeyState {
    Released,
    Pressed,
}

/// Which modifier keys are held or locked.
#[derive(Clone, Copy, Debug, PartialEq, Eq, Structural)]
pub struct ModifiersState {
    pub ctrl: bool,
    pub alt: bool,
    pub shift: bool,
    pub caps_lock: bool,
    pub logo: bool,
    pub num_lock: bool,
}

/// Why a frame could not be drawn.
#[derive(Clone, Debug, PartialEq, Eq)]
pub enum DrawError {
    /// A widget reached outside the region it was given.
    OutOfBounds,
    /// The frame's size in bytes does not fit the display protocol's signed
    /// 32-bit sizes.
    TooLarge,
    /// A widget's own failure, in its words.
    Other(String),
}

/// What a widget is given to draw with.
pub struct DrawContext<'a> {
    /// The frame that is drawn.
    pub buf: Buffer,
    /// The part of the frame that the widget may draw on.
    pub region: Region,
    pub bg: &'a Color,
    /// The local date and time at which the frame is drawn.
    pub time: &'a Timestamp,
    /// Whether the widget has to draw even if nothing of it changed.
    pub force: bool,
    pub config: &'a Config,
}

impl<'a> DrawContext<'a> {
    /// The frame holds its grid, the region lies on the grid, and the grid's
    /// width and height can be written as signed 32-bit numbers.
    pub open spec fn wf(&self) -> bool {
        &&& self.buf.wf()
        &&& self.buf.dims().0 <= i32::MAX
        &&& self.buf.dims().1 <= i32::MAX
        &&& self.region.x + self.region.width <= self.buf.dims().0
        &&& self.region.y + self.region.height <= self.buf.dims().1
    }
}

/// What a widget says of what it drew.
#[derive(Debug)]
pub struct DrawReport {
    pub width: u32,
    pub height: u32,
    /// The rectangles that changed, in frame coordinates.
    pub damage: Vec<Rect>,
    /// Whether everything changed, whatever `damage` holds.
    pub full_damage: bool,
}

impl DrawReport {
    /// Every damaged rectangle lies on a frame of `dims`.
    pub open spec fn within(&self, dims: (u32, u32)) -> bool {
        forall|i: int|
            0 <= i < self.damage@.len() ==> rect_within(
                #[trigger] self.damage@[i],
                dims.0 as int,
                dims.1 as int,
            )
    }

    /// The report of a widget of `width` by `height` that drew nothing.
    pub fn empty(width: u32, height: u32) -> (r: DrawReport)
        ensures
            r.width == width,
            r.height == height,
            r.damage@ == Seq::<Rect>::empty(),
            !r.full_damage,
    {
        DrawReport { width, height, damage: Vec::new(), full_damage: false }
    }
}

/// What draws into a frame and takes the input.
pub trait Widget {
    /// The size that the widget wants its frame to have.
    open spec fn spec_size(&self) -> (u32, u32) {
        arbitrary()
    }

    fn size(&self) -> (s: (u32, u32))
        ensures
            s == self.spec_size(),
    ;

    /// Draws the widget into the region of `ctx`, its origin `pos` counted
    /// from the region's. The widget leaves the frame's size as it is,
    /// reports its own size as it was when the drawing began, and reports
    /// only damage that lies on the frame.
    fn draw(&mut self, ctx: &mut DrawContext, pos: (u32, u32)) -> (r: Result<
        DrawReport,
        DrawError,
    >)
        requires
            old(ctx).wf(),
        ensures
            final(ctx).wf(),
            final(ctx).buf.dims() == old(ctx).buf.dims(),
            final(ctx).region == old(ctx).region,
            r matches Ok(report) ==> {
                &&& report.width == old(self).spec_size().0
                &&& report.height == old(self).spec_size().1
                &&& report.within(old(ctx).buf.dims())
            },
    ;

    fn keyboard_input(
        &mut self,
        keysym: u32,
        modifier_state: ModifiersState,
        key_state: KeyState,
        interpreted: Option<String>,
    );

    fn mouse_click(&mut self, button: u32, pos: (u32, u32));

    /// `scroll` is the horizontal and the vertical distance, in 256ths of a
    /// scroll unit.
    fn mouse_scroll(&mut self, scroll: (i64, i64), pos: (u32, u32));
}

} // verus!
