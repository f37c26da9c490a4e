use crate::buffer::{rect_contains, rect_within, Buffer, Rect};
use crate::color::Color;
use crate::cmd::Cmd;
use crate::config::Config;
use crate::doublemempool::{current_slot, DoubleMemPool, MemPool, PoolSlot};
use crate::surfaces::{AppInner, SurfaceState};
use crate::widget::{local_now, DrawContext, DrawError, DrawReport, Timestamp, Widget};
use std::collections::VecDeque;
use vstd::prelude::*;

verus! {

/// Whether a frame of `size` can be described to the display server: its
/// height, its stride in bytes and its size in bytes are carried as signed
/// 32-bit numbers. A pixel takes four bytes.
pub open spec fn frame_fits(size: (u32, u32)) -> bool {
    &&& 4 * size.0 <= i32::MAX
    &&& size.1 <= i32::MAX
    &&& 4 * size.0 * size.1 <= i32::MAX
}

/// The rectangle that spans a frame of `size`.
pub open spec fn full_rect(size: (u32, u32)) -> Rect {
    (0, 0, size.0 as i32, size.1 as i32)
}

/// A frame that is ready to be shown: what to attach to every surface, and
/// what to say of it.
#[derive(Debug)]
pub struct Frame {
    /// The pool that holds the pixels, from its first byte on.
    pub slot: PoolSlot,
    /// The width of the buffer in pixels.
    pub width: i32,
    /// The height of the buffer in pixels.
    pub height: i32,
    /// The bytes from the start of one row to the start of the next.
    pub stride: i32,
    /// The size to set on every layer surface before the buffer is attached,
    /// in surface units; none where the size did not change.
    pub resize: Option<(u32, u32)>,
    /// The rectangles to report as damaged on every surface.
    pub damage: Vec<Rect>,
}

/// Whether a drawn frame has to be shown at all: not when its size is the
/// size of the frame before and the widget reports no damage.
pub open spec fn submits(size_changed: bool, report: DrawReport) -> bool {
    size_changed || report.full_damage || report.damage@.len() != 0
}

/// The damage of a frame that is shown: the whole frame where the drawing
/// was forced or the widget says so, else what the widget reports.
pub open spec fn frame_damage(size: (u32, u32), force: bool, report: DrawReport) -> Seq<Rect> {
    if force || report.full_damage {
        seq![full_rect(size)]
    } else {
        report.damage@
    }
}

/// Whether `frame` is the frame that comes of a drawing into `slot` at
/// `size`: see `finish_frame`.
pub open spec fn is_frame_of(
    frame: Frame,
    slot: PoolSlot,
    size: (u32, u32),
    scale: u32,
    size_changed: bool,
    force: bool,
    report: DrawReport,
) -> bool {
    &&& frame.slot == slot
    &&& frame.width == report.width as i32
    &&& frame.height == report.height as i32
    &&& frame.stride == (4 * size.0) as i32
    &&& frame.resize == if size_changed {
        Some(((size.0 / scale) as u32, (size.1 / scale) as u32))
    } else {
        None
    }
    &&& frame.damage@ == frame_damage(size, force, report)
}

fn copy_rects(v: &Vec<Rect>) -> (r: Vec<Rect>)
    ensures
        r@ == v@,
{
    let mut r: Vec<Rect> = Vec::new();
    let mut i: usize = 0;
    while i < v.len()
        invariant
            i <= v.len(),
            r@ == v@.take(i as int),
        decreases v.len() - i,
    {
        r.push(v[i]);
        i = i + 1;
        assert(r@ =~= v@.take(i as int));
    }
    assert(v@.take(v.len() as int) =~= v@);
    r
}

/// Decides what comes of a drawing into the pool in `slot`, at `size`, of
/// which the widget gave `report`. Nothing is shown if the size did not
/// change and the widget reports no damage. Else the frame has the width
/// and the height that the widget reports and rows of `size.0` pixels; the
/// layer surfaces are resized, in surface units, if the size changed; and
/// the damage is the whole frame where the drawing was forced or the widget
/// says so, else the widget's rectangles.
pub fn finish_frame(
    slot: PoolSlot,
    size: (u32, u32),
    scale: u32,
    size_changed: bool,
    force: bool,
    report: DrawReport,
) -> (r: Option<Frame>)
    requires
        frame_fits(size),
        scale >= 1,
    ensures
        r is Some <==> submits(size_changed, report),
        r matches Some(frame) ==> is_frame_of(
            frame,
            slot,
            size,
            scale,
            size_changed,
            force,
            report,
        ),
{
    if !size_changed && !report.full_damage && report.damage.len() == 0 {
        return None;
    }
    let resize = if size_changed {
        Some((size.0 / scale, size.1 / scale))
    } else {
        None
    };
    let mut damage: Vec<Rect> = Vec::new();
    if force || report.full_damage {
        damage.push((0, 0, size.0 as i32, size.1 as i32));
        assert(damage@ =~= seq![full_rect(size)]);
    } else {
        damage = report.damage;
    }
    Some(
        Frame {
            slot,
            width: report.width as i32,
            height: report.height as i32,
            stride: (4 * size.0) as i32,
            resize,
            damage,
        },
    )
}

/// Whether one of the rectangles of `damage` holds the pixel `(px, py)`.
pub open spec fn damaged(damage: Seq<Rect>, px: int, py: int) -> bool {
    exists|i: int| 0 <= i < damage.len() && rect_contains(#[trigger] damage[i], px, py)
}

/// The pixels of a pool after it was grown to hold `n` of them.
pub open spec fn grown(pixels: Seq<u32>, n: int) -> Seq<u32> {
    if n <= pixels.len() {
        pixels
    } else {
        pixels + Seq::new((n - pixels.len()) as nat, |i: int| 0u32)
    }
}

/// Whether the damage of the last frame can be carried over into a frame of
/// `size`: there was a last frame, it had this size, and the pool it is
/// read from holds a frame of this size.
pub open spec fn carries_over(
    last: Seq<u32>,
    size: (u32, u32),
    last_damage: Option<Seq<Rect>>,
    size_changed: bool,
) -> bool {
    last_damage is Some && !size_changed && size.0 * size.1 <= last.len()
}

/// Takes the pixels out of `cur`, grown to hold a frame of `size`, and
/// makes them ready for the widget to draw on. Where the damage of the last
/// frame can be carried over and the drawing is not forced, the pixels of
/// that damage are copied from `last`, and every other pixel is left as
/// `cur` held it. Else the drawing is forced and every pixel gets the
/// background colour. `cur` is left without pixels until the frame is given
/// back to it.
pub fn prepare_frame(
    last: &mut MemPool,
    cur: &mut MemPool,
    size: (u32, u32),
    last_damage: &Option<Vec<Rect>>,
    size_changed: bool,
    force: bool,
    bg: &Color,
) -> (r: (Buffer, bool))
    requires
        frame_fits(size),
    ensures
        final(last).pixels() == old(last).pixels(),
        final(last).buffers() == old(last).buffers(),
        final(cur).buffers() == old(cur).buffers(),
        final(cur).pixels() == Seq::<u32>::empty(),
        r.0.wf(),
        r.0.dims() == size,
        r.0.storage().len() == grown(old(cur).pixels(), size.0 * size.1).len(),
        r.1 == (force || !carries_over(
            old(last).pixels(),
            size,
            match *last_damage {
                Some(d) => Some(d@),
                None => None,
            },
            size_changed,
        )),
        forall|px: int, py: int|
            r.0.in_grid(px, py) ==> #[trigger] r.0.pixel(px, py) == if r.1 {
                bg.argb()
            } else if damaged(last_damage->0@, px, py) {
                old(last).pixels()[py * size.0 + px]
            } else {
                grown(old(cur).pixels(), size.0 * size.1)[py * size.0 + px]
            },
{
    assert(size.0 * size.1 <= 0x2000_0000 * 0x8000_0000) by (nonlinear_arith)
        requires
            size.0 <= 0x2000_0000,
            size.1 <= 0x8000_0000,
    ;
    let pixels: u64 = size.0 as u64 * size.1 as u64;
    assert(4 * size.0 * size.1 == pixels * 4) by (nonlinear_arith)
        requires
            pixels == size.0 * size.1,
    ;
    cur.resize((pixels * 4) as usize);
    let mut store: Vec<u32> = Vec::new();
    core::mem::swap(cur.mmap(), &mut store);
    assert(store@ =~= grown(old(cur).pixels(), size.0 * size.1));
    let mut buf = Buffer::new(store, size);
    let ghost fresh = buf;
    let mut force = force;
    let mut copied = false;
    if !size_changed && last.size() as u64 >= pixels {
        if let Some(damage) = last_damage {
            let mut last_store: Vec<u32> = Vec::new();
            core::mem::swap(last.mmap(), &mut last_store);
            let ghost kept = last_store@;
            let last_buf = Buffer::new(last_store, size);
            let mut i: usize = 0;
            while i < damage.len()
                invariant
                    i <= damage.len(),
                    last_buf.wf(),
                    last_buf.dims() == size,
                    last_buf.storage() == kept,
                    buf.wf(),
                    buf.dims() == size,
                    fresh.dims() == size,
                    buf.storage().len() == fresh.storage().len(),
                    forall|px: int, py: int|
                        buf.in_grid(px, py) ==> #[trigger] buf.pixel(px, py) == if damaged(
                            damage@.take(i as int),
                            px,
                            py,
                        ) {
                            last_buf.pixel(px, py)
                        } else {
                            fresh.pixel(px, py)
                        },
                decreases damage.len() - i,
            {
                let ghost before = buf;
                last_buf.copy_to(&mut buf, damage[i]);
                proof {
                    let done = damage@.take(i as int);
                    let more = damage@.take(i + 1);
                    assert forall|px: int, py: int| buf.in_grid(px, py) implies #[trigger] buf.pixel(
                        px,
                        py,
                    ) == if damaged(more, px, py) {
                        last_buf.pixel(px, py)
                    } else {
                        fresh.pixel(px, py)
                    } by {
                        assert(before.in_grid(px, py));
                        if damaged(done, px, py) {
                            let k = choose|k: int|
                                0 <= k < done.len() && rect_contains(#[trigger] done[k], px, py);
                            assert(more[k] == done[k]);
                        }
                        if rect_contains(damage@[i as int], px, py) {
                            assert(more[i as int] == damage@[i as int]);
                        }
                        if damaged(more, px, py) {
                            let k = choose|k: int|
                                0 <= k < more.len() && rect_contains(#[trigger] more[k], px, py);
                            if k < i {
                                assert(done[k] == more[k]);
                            }
                        }
                    }
                }
                i = i + 1;
            }
            assert(damage@.take(damage.len() as int) =~= damage@);
            let mut last_store = last_buf.into_inner();
            core::mem::swap(last.mmap(), &mut last_store);
            copied = true;
        }
    }
    if !copied {
        force = true;
    }
    if force {
        let region = buf.region();
        buf.memset(&region, bg);
    }
    (buf, force)
}

/// The greeter: the widget, the surface set, the two frame pools, the
/// command queue and what is remembered of the last frame shown.
pub struct App<W: Widget> {
    config: Config,
    pools: DoubleMemPool,
    cmd_queue: VecDeque<Cmd>,
    widget: Option<W>,
    inner: AppInner,
    last_damage: Option<Vec<Rect>>,
    last_dim: (u32, u32),
}

impl<W: Widget> App<W> {
    pub closed spec fn config(&self) -> Config {
        self.config
    }

    pub closed spec fn pools(&self) -> DoubleMemPool {
        self.pools
    }

    /// The commands that wait, the next one first.
    pub closed spec fn queue(&self) -> Seq<Cmd> {
        self.cmd_queue@
    }

    pub closed spec fn widget(&self) -> Option<W> {
        self.widget
    }

    /// The surface set.
    pub closed spec fn surfaces(&self) -> SurfaceState {
        self.inner@
    }

    /// The damage of the last frame shown; none before the first.
    pub closed spec fn last_damage(&self) -> Option<Seq<Rect>> {
        match self.last_damage {
            Some(d) => Some(d@),
            None => None,
        }
    }

    /// The size of the last frame shown; `(0, 0)` before the first.
    pub closed spec fn last_dim(&self) -> (u32, u32) {
        self.last_dim
    }

    pub open spec fn wf(&self) -> bool {
        self.surfaces().wf()
    }

    /// Everything but the widget, the pools and what is remembered of the
    /// last frame is as in `other`.
    pub open spec fn same_setup(&self, other: &Self) -> bool {
        &&& self.config() == other.config()
        &&& self.queue() == other.queue()
        &&& self.surfaces() == other.surfaces()
    }

    /// The last frame shown is remembered as in `other`.
    pub open spec fn same_memory(&self, other: &Self) -> bool {
        &&& self.last_damage() == other.last_damage()
        &&& self.last_dim() == other.last_dim()
    }

    /// The slot that the next frame is drawn into.
    pub open spec fn next_slot(&self) -> PoolSlot {
        current_slot(self.pools().switched())
    }

    /// A greeter without a widget, with an empty queue and no frame shown.
    pub fn new(config: Config) -> (app: App<W>)
        requires
            1 <= config.scale <= i32::MAX,
        ensures
            app.wf(),
            app.config() == config,
            app.queue() == Seq::<Cmd>::empty(),
            app.widget() is None,
            app.last_damage() is None,
            app.last_dim() == (0u32, 0u32),
            app.surfaces() == (SurfaceState {
                compositor: false,
                shell: false,
                surfaces: Seq::empty(),
                configured: 0,
                outputs: Seq::empty(),
                output_mode: config.output_mode,
                visible: true,
                scale: config.scale,
            }),
            !app.pools().switched(),
            !app.pools().first().spec_is_used(),
            !app.pools().second().spec_is_used(),
    {
        let inner = AppInner::new(config.output_mode, config.scale);
        App {
            config,
            pools: DoubleMemPool::new(),
            cmd_queue: VecDeque::new(),
            widget: None,
            inner,
            last_damage: None,
            last_dim: (0, 0),
        }
    }

    /// The command queue.
    pub fn cmd_queue(&mut self) -> (q: &mut VecDeque<Cmd>)
        ensures
            q@ == old(self).queue(),
            final(self).queue() == final(q)@,
            final(self).config() == old(self).config(),
            final(self).pools() == old(self).pools(),
            final(self).widget() == old(self).widget(),
            final(self).surfaces() == old(self).surfaces(),
            final(self).same_memory(old(self)),
    {
        &mut self.cmd_queue
    }

    /// The surface set.
    pub fn inner(&mut self) -> (inner: &mut AppInner)
        ensures
            inner@ == old(self).surfaces(),
            final(self).surfaces() == final(inner)@,
            final(self).config() == old(self).config(),
            final(self).pools() == old(self).pools(),
            final(self).widget() == old(self).widget(),
            final(self).queue() == old(self).queue(),
            final(self).same_memory(old(self)),
    {
        &mut self.inner
    }

    /// The two frame pools.
    pub fn get_pools(&mut self) -> (pools: &mut DoubleMemPool)
        ensures
            *pools == old(self).pools(),
            final(self).pools() == *final(pools),
            final(self).same_setup(old(self)),
            final(self).widget() == old(self).widget(),
            final(self).same_memory(old(self)),
    {
        &mut self.pools
    }

    /// Whether a widget was set.
    pub fn has_widget(&self) -> (b: bool)
        ensures
            b == self.widget() is Some,
    {
        self.widget.is_some()
    }

    /// The widget.
    pub fn get_widget(&mut self) -> (w: &mut W)
        requires
            old(self).widget() is Some,
        ensures
            *w == old(self).widget()->0,
            final(self).widget() == Some(*final(w)),
            final(self).same_setup(old(self)),
            final(self).pools() == old(self).pools(),
            final(self).same_memory(old(self)),
    {
        match &mut self.widget {
            Some(w) => w,
            None => vstd::pervasive::unreached(),
        }
    }

    /// Sets the widget and draws it, forced.
    pub fn set_widget(&mut self, w: W) -> (r: Result<Option<Frame>, DrawError>)
        requires
            old(self).wf(),
        ensures
            old(self).with_widget(w).redrawn(final(self), true, r),
            final(self).queue() == old(self).queue(),
            final(self).widget() is Some,
    {
        self.widget = Some(w);
        self.redraw(true)
    }

    /// This state with `w` as its widget.
    pub closed spec fn with_widget(&self, w: W) -> Self {
        App {
            config: self.config,
            pools: self.pools,
            cmd_queue: self.cmd_queue,
            widget: Some(w),
            inner: self.inner,
            last_damage: self.last_damage,
            last_dim: self.last_dim,
        }
    }

    /// Setting a widget changes nothing but the widget.
    pub proof fn lemma_with_widget(&self, w: W)
        ensures
            self.with_widget(w).widget() == Some(w),
            self.with_widget(w).config() == self.config(),
            self.with_widget(w).pools() == self.pools(),
            self.with_widget(w).queue() == self.queue(),
            self.with_widget(w).surfaces() == self.surfaces(),
            self.with_widget(w).same_memory(self),
    {
    }

    /// Draws a frame at the time that the clock shows: see `redraw_at`.
    pub fn redraw(&mut self, force: bool) -> (r: Result<Option<Frame>, DrawError>)
        requires
            old(self).wf(),
        ensures
            old(self).redrawn(final(self), force, r),
            final(self).queue() == old(self).queue(),
    {
        let time = local_now();
        self.redraw_at(force, &time)
    }

    /// What holds of a redraw, forced or not, that took `self` to `next` and
    /// gave `r`, whatever the widget drew.
    pub open spec fn redrawn(
        &self,
        next: &Self,
        force: bool,
        r: Result<Option<Frame>, DrawError>,
    ) -> bool {
        let size = self.widget()->0.spec_size();
        let slot = self.next_slot();
        &&& next.wf()
        &&& next.config() == self.config()
        &&& next.surfaces() == self.surfaces()
        &&& next.widget() is Some <==> self.widget() is Some
        // Without a widget, and before every surface is configured, nothing
        // happens at all.
        &&& self.widget() is None || !self.surfaces().ready() ==> {
            &&& r == Ok::<Option<Frame>, DrawError>(None)
            &&& next.pools() == self.pools()
            &&& next.widget() == self.widget()
            &&& next.same_memory(self)
        }
        // Once every surface is configured, the pools take their turn,
        // frame or no frame.
        &&& self.widget() is Some && self.surfaces().ready() ==> {
            &&& next.pools().switched() == !self.pools().switched()
            // The pool whose turn it is is still held by the display server:
            // no frame, and nothing else changes.
            &&& self.pools().slot(slot).spec_is_used() ==> {
                &&& r == Ok::<Option<Frame>, DrawError>(None)
                &&& next.pools().first() == self.pools().first()
                &&& next.pools().second() == self.pools().second()
                &&& next.widget() == self.widget()
                &&& next.same_memory(self)
            }
            // A frame that the protocol cannot describe is refused before
            // anything is drawn.
            &&& !self.pools().slot(slot).spec_is_used() && !frame_fits(size) ==> {
                &&& r == Err::<Option<Frame>, DrawError>(DrawError::TooLarge)
                &&& next.widget() == self.widget()
            }
        }
        &&& r is Ok && r->Ok_0 is None ==> next.same_memory(self)
        &&& r is Err ==> next.same_memory(self)
        &&& r matches Ok(Some(frame)) ==> {
            &&& self.widget() is Some
            &&& self.surfaces().ready()
            &&& !self.pools().slot(slot).spec_is_used()
            &&& frame_fits(size)
            &&& frame.slot == slot
            &&& frame.stride == (4 * size.0) as i32
            &&& frame.width == size.0
            &&& frame.height == size.1
            // A frame of another size than the last is damaged as a whole.
            &&& self.last_dim() != size ==> {
                &&& frame.damage@ == seq![full_rect(size)]
                &&& frame.resize == Some(
                    (
                        (size.0 / self.surfaces().scale) as u32,
                        (size.1 / self.surfaces().scale) as u32,
                    ),
                )
            }
            &&& self.last_dim() == size ==> frame.resize is None
            // So is the first frame, and a forced one.
            &&& self.last_damage() is None || force ==> frame.damage@ == seq![full_rect(size)]
            &&& frame.damage@.len() > 0
            &&& forall|i: int|
                0 <= i < frame.damage@.len() ==> rect_within(
                    #[trigger] frame.damage@[i],
                    size.0 as int,
                    size.1 as int,
                )
            // The frame is remembered, and its pool is the server's until
            // it is released.
            &&& next.last_dim() == size
            &&& next.last_damage() == Some(frame.damage@)
            &&& next.pools().slot(slot).buffers() == 1
            &&& next.pools().slot(slot).pixels().len() >= size.0 * size.1
        }
    }

    /// Draws a frame, if there is anything to show, as of `time`.
    ///
    /// Nothing is drawn without a widget, before every surface had its first
    /// configure acknowledged, or while the pool whose turn it is is still
    /// held by the display server. Else the pool is grown to the widget's
    /// size. If the size is that of the last frame shown and the other pool
    /// holds a frame of that size, the damage of the last frame is copied
    /// over from there; if not, the drawing is forced. A forced drawing
    /// starts from the background colour. Then the widget draws, and
    /// `finish_frame` decides what is shown.
    pub fn redraw_at(&mut self, force: bool, time: &Timestamp) -> (r: Result<
        Option<Frame>,
        DrawError,
    >)
        requires
            old(self).wf(),
        ensures
            old(self).redrawn(final(self), force, r),
            final(self).queue() == old(self).queue(),
    {
        let widget = match &mut self.widget {
            Some(w) => w,
            None => {
                return Ok(None);
            },
        };
        if !self.inner.ready() {
            return Ok(None);
        }
        let slot = self.pools.next_slot();
        let scale = self.inner.scale();
        let (last, cur) = match self.pools.pool() {
            Some(p) => p,
            None => {
                return Ok(None);
            },
        };
        let size = widget.size();
        if size.0 as u64 * 4 > i32::MAX as u64 || size.1 as u64 > i32::MAX as u64 {
            return Err(DrawError::TooLarge);
        }
        assert(size.0 * size.1 <= 0x2000_0000 * 0x8000_0000) by (nonlinear_arith)
            requires
                size.0 <= 0x2000_0000,
                size.1 <= 0x8000_0000,
        ;
        let pixels: u64 = size.0 as u64 * size.1 as u64;
        assert(4 * size.0 * size.1 == pixels * 4) by (nonlinear_arith)
            requires
                pixels == size.0 * size.1,
        ;
        if pixels * 4 > i32::MAX as u64 {
            return Err(DrawError::TooLarge);
        }
        let size_changed = self.last_dim.0 != size.0 || self.last_dim.1 != size.1;
        let (buf, force) = prepare_frame(
            last,
            cur,
            size,
            &self.last_damage,
            size_changed,
            force,
            &self.config.background,
        );
        let region = buf.region();
        let mut ctx = DrawContext {
            buf,
            region,
            bg: &self.config.background,
            time,
            force,
            config: &self.config,
        };
        let drawn = widget.draw(&mut ctx, (0, 0));
        let DrawContext { buf, .. } = ctx;
        let mut store = buf.into_inner();
        core::mem::swap(cur.mmap(), &mut store);
        let report = match drawn {
            Ok(report) => report,
            Err(e) => {
                return Err(e);
            },
        };
        match finish_frame(slot, size, scale, size_changed, force, report) {
            None => Ok(None),
            Some(frame) => {
                cur.buffer();
                self.last_damage = Some(copy_rects(&frame.damage));
                self.last_dim = size;
                Ok(Some(frame))
            },
        }
    }

    /// Records that the display server released the buffer over the pool in
    /// `slot`. Returns whether that left the pool free.
    pub fn release(&mut self, slot: PoolSlot) -> (free: bool)
        ensures
            final(self).same_setup(old(self)),
            final(self).same_memory(old(self)),
            final(self).widget() == old(self).widget(),
            final(self).pools().switched() == old(self).pools().switched(),
            final(self).pools().slot(slot).pixels() == old(self).pools().slot(slot).pixels(),
            final(self).pools().slot(slot).buffers() == if old(self).pools().slot(slot).buffers()
                > 0 {
                old(self).pools().slot(slot).buffers() - 1
            } else {
                0
            },
            free == (old(self).pools().slot(slot).buffers() == 1),
            slot == PoolSlot::First ==> final(self).pools().second() == old(self).pools().second(),
            slot == PoolSlot::Second ==> final(self).pools().first() == old(self).pools().first(),
    {
        self.pools.release(slot)
    }
}

/// Whether `cmd` is an input that goes to the widget.
pub open spec fn is_input(cmd: Cmd) -> bool {
    cmd is MouseClick || cmd is MouseScroll || cmd is Keyboard
}

/// The queue after its first command was dispatched: the command is gone,
/// and where it was an input, a redraw waits at the back, behind everything
/// that was queued before.
pub open spec fn queue_step(queue: Seq<Cmd>) -> Seq<Cmd> {
    if queue.len() == 0 {
        queue
    } else if is_input(queue[0]) {
        queue.drop_first().push(Cmd::Draw)
    } else {
        queue.drop_first()
    }
}

/// The queue after `n` steps of the loop in which nothing else was queued.
pub open spec fn queue_after(queue: Seq<Cmd>, n: nat) -> Seq<Cmd>
    decreases n,
{
    if n == 0 {
        queue
    } else {
        queue_step(queue_after(queue, (n - 1) as nat))
    }
}

/// How many of `cmds` are inputs.
pub open spec fn inputs_in(cmds: Seq<Cmd>) -> nat
    decreases cmds.len(),
{
    if cmds.len() == 0 {
        0
    } else {
        inputs_in(cmds.drop_last()) + if is_input(cmds.last()) {
            1nat
        } else {
            0nat
        }
    }
}

/// Commands are dispatched in the order in which they were queued: after
/// `k` turns of the loop the queue holds what was behind the first `k`
/// commands, in the old order, and behind that one redraw for each input
/// among those `k`. So the turn after dispatches the command that was at
/// place `k`, and the redraw that an input asks for comes after everything
/// that was queued when the input was dispatched.
pub proof fn lemma_dispatch_in_order(queue: Seq<Cmd>, k: nat)
    requires
        k <= queue.len(),
    ensures
        queue_after(queue, k) == queue.skip(k as int) + Seq::new(
            inputs_in(queue.take(k as int)),
            |i: int| Cmd::Draw,
        ),
        k < queue.len() ==> queue_after(queue, k)[0] == queue[k as int],
    decreases k,
{
    if k == 0 {
        assert(queue.take(0) =~= Seq::<Cmd>::empty());
        assert(queue_after(queue, 0) =~= queue.skip(0) + Seq::new(0, |i: int| Cmd::Draw));
    } else {
        let j = (k - 1) as nat;
        lemma_dispatch_in_order(queue, j);
        let before = queue_after(queue, j);
        assert(before[0] == queue[j as int]);
        assert(queue.take(k as int).drop_last() =~= queue.take(j as int));
        assert(queue.take(k as int).last() == queue[j as int]);
        assert(queue_step(before) =~= queue.skip(k as int) + Seq::new(
            inputs_in(queue.take(k as int)),
            |i: int| Cmd::Draw,
        ));
    }
}

/// Drawing twice without a change between shows one frame at most: a
/// drawing at the size of the last frame shown, of which the widget reports
/// no damage, shows nothing.
pub proof fn lemma_unchanged_frame_is_skipped(report: DrawReport)
    requires
        !report.full_damage,
        report.damage@.len() == 0,
    ensures
        !submits(false, report),
{
}

/// A frame of another size than the last is shown whatever the widget
/// reports, and a forced frame that is shown is damaged as a whole.
pub proof fn lemma_resized_frame_is_full(
    size: (u32, u32),
    size_changed: bool,
    force: bool,
    report: DrawReport,
)
    ensures
        size_changed ==> submits(size_changed, report),
        force ==> frame_damage(size, force, report) == seq![full_rect(size)],
{
}

/// What one turn of the event loop came to.
#[derive(Debug)]
pub enum Step {
    /// The queue was empty: flush what is to be sent, then wait for the
    /// display server or for a wake-up.
    Wait,
    /// An input went to the widget, and a redraw was queued behind it.
    Input,
    /// A redraw was made: show the frame, if there is one, and flush.
    Drawn(Option<Frame>),
    /// The loop ends.
    Exit,
}

impl<W: Widget> App<W> {
    /// Whether the next turn of the loop can be taken: an input needs a
    /// widget to go to.
    pub open spec fn can_step(&self) -> bool {
        &&& self.wf()
        &&& self.queue().len() > 0 && is_input(self.queue()[0]) ==> self.widget() is Some
    }

    /// Whether the next turn of the loop can be taken.
    pub fn ready_to_step(&self) -> (b: bool)
        requires
            self.wf(),
        ensures
            b == self.can_step(),
    {
        if self.cmd_queue.len() == 0 {
            return true;
        }
        match &self.cmd_queue[0] {
            Cmd::MouseClick { .. } | Cmd::MouseScroll { .. } | Cmd::Keyboard { .. } => {
                self.widget.is_some()
            },
            _ => true,
        }
    }

    /// One turn of the event loop: takes the command at the front of the
    /// queue, if there is one, and does what it asks. Commands are taken in
    /// the order in which they were queued. An input goes to the widget and
    /// queues a redraw behind everything that waits; a redraw is made as
    /// `redraw` says, forced or not; an exit ends the loop. An error of the
    /// redraw comes back as it is.
    pub fn step(&mut self) -> (r: Result<Step, DrawError>)
        requires
            old(self).can_step(),
        ensures
            final(self).wf(),
            final(self).queue() == queue_step(old(self).queue()),
            final(self).config() == old(self).config(),
            final(self).surfaces() == old(self).surfaces(),
            old(self).queue().len() == 0 ==> {
                &&& r matches Ok(Step::Wait)
                &&& final(self).pools() == old(self).pools()
                &&& final(self).widget() == old(self).widget()
                &&& final(self).same_memory(old(self))
            },
            old(self).queue().len() > 0 ==> match old(self).queue()[0] {
                Cmd::Exit => {
                    &&& r matches Ok(Step::Exit)
                    &&& final(self).pools() == old(self).pools()
                    &&& final(self).widget() == old(self).widget()
                    &&& final(self).same_memory(old(self))
                },
                Cmd::Draw => match r {
                    Ok(Step::Drawn(frame)) => old(self).redrawn(
                        final(self),
                        false,
                        Ok(frame),
                    ),
                    Ok(_) => false,
                    Err(e) => old(self).redrawn(final(self), false, Err(e)),
                },
                Cmd::ForceDraw => match r {
                    Ok(Step::Drawn(frame)) => old(self).redrawn(
                        final(self),
                        true,
                        Ok(frame),
                    ),
                    Ok(_) => false,
                    Err(e) => old(self).redrawn(final(self), true, Err(e)),
                },
                _ => {
                    &&& r matches Ok(Step::Input)
                    &&& final(self).widget() is Some
                    &&& final(self).pools() == old(self).pools()
                    &&& final(self).same_memory(old(self))
                },
            },
    {
        let ghost before = self.cmd_queue@;
        let cmd = match self.cmd_queue.pop_front() {
            Some(cmd) => cmd,
            None => {
                return Ok(Step::Wait);
            },
        };
        assert(self.cmd_queue@ =~= before.drop_first());
        match cmd {
            Cmd::Exit => Ok(Step::Exit),
            Cmd::Draw => {
                match self.redraw(false) {
                    Ok(frame) => Ok(Step::Drawn(frame)),
                    Err(e) => Err(e),
                }
            },
            Cmd::ForceDraw => {
                match self.redraw(true) {
                    Ok(frame) => Ok(Step::Drawn(frame)),
                    Err(e) => Err(e),
                }
            },
            Cmd::MouseClick { btn, pos } => {
                self.get_widget().mouse_click(btn, pos);
                self.cmd_queue.push_back(Cmd::Draw);
                Ok(Step::Input)
            },
            Cmd::MouseScroll { scroll, pos } => {
                self.get_widget().mouse_scroll(scroll, pos);
                self.cmd_queue.push_back(Cmd::Draw);
                Ok(Step::Input)
            },
            Cmd::Keyboard { key, key_state, modifiers_state, interpreted } => {
                self.get_widget().keyboard_input(key, modifiers_state, key_state, interpreted);
                self.cmd_queue.push_back(Cmd::Draw);
                Ok(Step::Input)
            },
        }
    }

}

} // verus!
