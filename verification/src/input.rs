use crate::cmd::Cmd;
use crate::keysyms::{key_c, spec_key_c};
use crate::widget::{KeyState, ModifiersState};
use std::collections::VecDeque;
use vstd::prelude::*;

verus! {

/// What a seat's keyboard reports.
#[derive(Debug, PartialEq, Eq)]
pub enum KbEvent {
    /// The keyboard focus entered a surface.
    Enter,
    /// The keyboard focus left a surface.
    Leave,
    /// The modifiers changed.
    Modifiers { modifiers: ModifiersState },
    /// A key went down or up; `utf8` is the text that it stands for.
    Key { keysym: u32, state: KeyState, utf8: Option<String> },
    /// A held key repeats.
    Repeat { keysym: u32, utf8: Option<String> },
}

/// The commands that a keyboard event puts on the queue while `modifiers`
/// are held: a pressed `c` with control asks to exit, any other pressed key
/// goes to the widget with the modifiers as they stand, and nothing else
/// gives a command.
pub open spec fn keyboard_commands(modifiers: ModifiersState, event: KbEvent) -> Seq<Cmd> {
    match event {
        KbEvent::Key { keysym, state, utf8 } => if state == KeyState::Pressed {
            if keysym == spec_key_c() && modifiers.ctrl {
                seq![Cmd::Exit]
            } else {
                seq![
                    Cmd::Keyboard {
                        key: keysym,
                        key_state: state,
                        modifiers_state: modifiers,
                        interpreted: utf8,
                    },
                ]
            }
        } else {
            Seq::empty()
        },
        _ => Seq::empty(),
    }
}

/// The modifiers after a keyboard event.
pub open spec fn keyboard_modifiers(modifiers: ModifiersState, event: KbEvent) -> ModifiersState {
    match event {
        KbEvent::Modifiers { modifiers: changed } => changed,
        _ => modifiers,
    }
}

/// What is remembered of one seat's keyboard between its events.
#[derive(Clone, Copy, Debug, PartialEq, Eq, Structural)]
pub struct KeyboardState {
    pub modifiers: ModifiersState,
}

impl KeyboardState {
    /// A keyboard with no modifier held.
    pub fn new() -> (k: KeyboardState)
        ensures
            k.modifiers == (ModifiersState {
                ctrl: false,
                alt: false,
                shift: false,
                caps_lock: false,
                logo: false,
                num_lock: false,
            }),
    {
        KeyboardState {
            modifiers: ModifiersState {
                ctrl: false,
                alt: false,
                shift: false,
                caps_lock: false,
                logo: false,
                num_lock: false,
            },
        }
    }

    /// Takes one keyboard event and puts what it asks for at the back of
    /// `queue`.
    pub fn handle(&mut self, event: KbEvent, queue: &mut VecDeque<Cmd>)
        ensures
            final(self).modifiers == keyboard_modifiers(old(self).modifiers, event),
            final(queue)@ == old(queue)@ + keyboard_commands(old(self).modifiers, event),
    {
        let ghost before = queue@;
        match event {
            KbEvent::Key { keysym, state, utf8 } => {
                match state {
                    KeyState::Pressed => {
                        if keysym == key_c() && self.modifiers.ctrl {
                            queue.push_back(Cmd::Exit);
                            assert(queue@ =~= before + seq![Cmd::Exit]);
                        } else {
                            let cmd = Cmd::Keyboard {
                                key: keysym,
                                key_state: state,
                                modifiers_state: self.modifiers,
                                interpreted: utf8,
                            };
                            queue.push_back(cmd);
                            assert(queue@ =~= before + seq![cmd]);
                        }
                    },
                    KeyState::Released => {
                        assert(queue@ =~= before + Seq::<Cmd>::empty());
                    },
                }
            },
            KbEvent::Modifiers { modifiers } => {
                self.modifiers = modifiers;
                assert(queue@ =~= before + Seq::<Cmd>::empty());
            },
            _ => {
                assert(queue@ =~= before + Seq::<Cmd>::empty());
            },
        }
    }
}

/// The axis of a scroll.
#[derive(Clone, Copy, Debug, PartialEq, Eq, Structural)]
pub enum Axis {
    VerticalScroll,
    HorizontalScroll,
}

/// Whether a button went down or up.
#[derive(Clone, Copy, Debug, PartialEq, Eq, Structural)]
pub enum ButtonState {
    Released,
    Pressed,
}

/// What a seat's pointer reports. Positions are whole surface units;
/// scroll distances are in 256ths of a scroll unit, as the display protocol
/// carries them.
#[derive(Clone, Copy, Debug, PartialEq, Eq, Structural)]
pub enum PointerEvent {
    Enter { surface_x: u32, surface_y: u32 },
    Leave,
    Motion { surface_x: u32, surface_y: u32 },
    Axis { axis: Axis, value: i32 },
    Button { button: u32, state: ButtonState },
    /// The events since the last frame belong together.
    Frame,
    /// Any other event.
    Other,
}

/// What is remembered of one seat's pointer between its events. Scrolls and
/// clicks are gathered until the pointer's frame event.
#[derive(Clone, Copy, Debug, PartialEq, Eq)]
pub struct PointerState {
    /// How many buffer pixels make one surface unit.
    pub scale: u32,
    pub pos: (u32, u32),
    pub vert_scroll: i64,
    pub horiz_scroll: i64,
    pub btn: u32,
    pub btn_clicked: bool,
}

impl PointerState {
    /// Whether `event` can be taken in this state: the position that a
    /// motion leads to, and the sum that a scroll adds up to, fit their
    /// types.
    pub open spec fn accepts(self, event: PointerEvent) -> bool {
        match event {
            PointerEvent::Motion { surface_x, surface_y } => {
                &&& surface_x * self.scale <= u32::MAX
                &&& surface_y * self.scale <= u32::MAX
            },
            PointerEvent::Axis { axis, value } => axis == Axis::VerticalScroll ==> i64::MIN
                <= self.vert_scroll + value <= i64::MAX,
            _ => true,
        }
    }

    /// The state after `event`.
    pub open spec fn next(self, event: PointerEvent) -> PointerState {
        match event {
            PointerEvent::Enter { surface_x, surface_y } => PointerState {
                pos: (surface_x, surface_y),
                ..self
            },
            PointerEvent::Leave => PointerState { pos: (0, 0), ..self },
            PointerEvent::Motion { surface_x, surface_y } => PointerState {
                pos: ((surface_x * self.scale) as u32, (surface_y * self.scale) as u32),
                ..self
            },
            PointerEvent::Axis { axis, value } => if axis == Axis::VerticalScroll {
                PointerState { vert_scroll: (self.vert_scroll + value) as i64, ..self }
            } else {
                self
            },
            PointerEvent::Button { button, state } => if state == ButtonState::Released {
                PointerState { btn: button, btn_clicked: true, ..self }
            } else {
                self
            },
            PointerEvent::Frame => PointerState {
                vert_scroll: 0,
                horiz_scroll: 0,
                btn_clicked: false,
                ..self
            },
            PointerEvent::Other => self,
        }
    }

    /// The commands that `event` puts on the queue: only a frame event gives
    /// any, first the scroll gathered since the last frame, if there is one,
    /// then the click, if there was one.
    pub open spec fn commands(self, event: PointerEvent) -> Seq<Cmd> {
        if event == PointerEvent::Frame {
            (if self.vert_scroll != 0 || self.horiz_scroll != 0 {
                seq![Cmd::MouseScroll { scroll: (self.horiz_scroll, self.vert_scroll), pos: self.pos }]
            } else {
                Seq::empty()
            }) + (if self.btn_clicked {
                seq![Cmd::MouseClick { btn: self.btn, pos: self.pos }]
            } else {
                Seq::empty()
            })
        } else {
            Seq::empty()
        }
    }

    /// A pointer at the origin with nothing gathered.
    pub fn new(scale: u32) -> (p: PointerState)
        ensures
            p == (PointerState {
                scale,
                pos: (0u32, 0u32),
                vert_scroll: 0,
                horiz_scroll: 0,
                btn: 0,
                btn_clicked: false,
            }),
    {
        PointerState {
            scale,
            pos: (0, 0),
            vert_scroll: 0,
            horiz_scroll: 0,
            btn: 0,
            btn_clicked: false,
        }
    }

    /// Whether `event` can be taken in this state.
    pub fn can_handle(&self, event: PointerEvent) -> (b: bool)
        ensures
            b == self.accepts(event),
    {
        match event {
            PointerEvent::Motion { surface_x, surface_y } => {
                surface_x.checked_mul(self.scale).is_some() && surface_y.checked_mul(
                    self.scale,
                ).is_some()
            },
            PointerEvent::Axis { axis, value } => {
                match axis {
                    Axis::VerticalScroll => {
                        let sum: i128 = self.vert_scroll as i128 + value as i128;
                        i64::MIN as i128 <= sum && sum <= i64::MAX as i128
                    },
                    Axis::HorizontalScroll => true,
                }
            },
            _ => true,
        }
    }

    /// Takes one pointer event and puts what it asks for at the back of
    /// `queue`.
    pub fn handle(&mut self, event: PointerEvent, queue: &mut VecDeque<Cmd>)
        requires
            old(self).accepts(event),
        ensures
            *final(self) == old(self).next(event),
            final(queue)@ == old(queue)@ + old(self).commands(event),
    {
        let ghost before = queue@;
        match event {
            PointerEvent::Enter { surface_x, surface_y } => {
                self.pos = (surface_x, surface_y);
            },
            PointerEvent::Leave => {
                self.pos = (0, 0);
            },
            PointerEvent::Motion { surface_x, surface_y } => {
                self.pos = (surface_x * self.scale, surface_y * self.scale);
            },
            PointerEvent::Axis { axis, value } => {
                match axis {
                    Axis::VerticalScroll => {
                        self.vert_scroll = self.vert_scroll + value as i64;
                    },
                    Axis::HorizontalScroll => {},
                }
            },
            PointerEvent::Button { button, state } => {
                match state {
                    ButtonState::Released => {
                        self.btn = button;
                        self.btn_clicked = true;
                    },
                    ButtonState::Pressed => {},
                }
            },
            PointerEvent::Frame => {
                if self.vert_scroll != 0 || self.horiz_scroll != 0 {
                    queue.push_back(
                        Cmd::MouseScroll {
                            scroll: (self.horiz_scroll, self.vert_scroll),
                            pos: self.pos,
                        },
                    );
                    self.vert_scroll = 0;
                    self.horiz_scroll = 0;
                }
                if self.btn_clicked {
                    queue.push_back(Cmd::MouseClick { btn: self.btn, pos: self.pos });
                    self.btn_clicked = false;
                }
            },
            PointerEvent::Other => {},
        }
        assert(queue@ =~= before + old(self).commands(event));
    }
}

/// The sum of `values`.
pub open spec fn sum(values: Seq<i32>) -> int
    decreases values.len(),
{
    if values.len() == 0 {
        0
    } else {
        sum(values.drop_last()) + values.last()
    }
}

/// The state after one vertical scroll event for each of `values`, in their
/// order.
pub open spec fn after_scrolls(state: PointerState, values: Seq<i32>) -> PointerState
    decreases values.len(),
{
    if values.len() == 0 {
        state
    } else {
        after_scrolls(state, values.drop_last()).next(
            PointerEvent::Axis { axis: Axis::VerticalScroll, value: values.last() },
        )
    }
}

/// Scrolls between two frame events are gathered into one: after any run of
/// vertical scroll events, none of which gives a command, the frame event
/// gives one scroll command with the sum of the run, and none at all where
/// the sum is zero.
pub proof fn lemma_scrolls_coalesce(state: PointerState, values: Seq<i32>)
    requires
        state.vert_scroll == 0,
        state.horiz_scroll == 0,
        !state.btn_clicked,
        forall|n: int| 0 <= n <= values.len() ==> i64::MIN <= #[trigger] sum(values.take(n)) <= i64::MAX,
    ensures
        after_scrolls(state, values).vert_scroll == sum(values),
        after_scrolls(state, values).pos == state.pos,
        forall|n: int|
            0 <= n < values.len() ==> #[trigger] after_scrolls(state, values.take(n)).commands(
                PointerEvent::Axis { axis: Axis::VerticalScroll, value: values[n] },
            ) == Seq::<Cmd>::empty(),
        after_scrolls(state, values).commands(PointerEvent::Frame) == if sum(values) != 0 {
            seq![Cmd::MouseScroll { scroll: (0i64, sum(values) as i64), pos: state.pos }]
        } else {
            Seq::<Cmd>::empty()
        },
        after_scrolls(state, values).next(PointerEvent::Frame).vert_scroll == 0,
{
    lemma_after_scrolls(state, values);
    let end = after_scrolls(state, values);
    assert(values.take(values.len() as int) =~= values);
    if sum(values) != 0 {
        assert(end.commands(PointerEvent::Frame) =~= seq![
            Cmd::MouseScroll { scroll: (0i64, sum(values) as i64), pos: state.pos },
        ]);
    } else {
        assert(end.commands(PointerEvent::Frame) =~= Seq::<Cmd>::empty());
    }
}

proof fn lemma_after_scrolls(state: PointerState, values: Seq<i32>)
    requires
        forall|n: int| 0 <= n <= values.len() ==> i64::MIN <= state.vert_scroll + #[trigger] sum(
            values.take(n),
        ) <= i64::MAX,
    ensures
        after_scrolls(state, values) == (PointerState {
            vert_scroll: (state.vert_scroll + sum(values)) as i64,
            ..state
        }),
    decreases values.len(),
{
    assert(values.take(values.len() as int) =~= values);
    if values.len() == 0 {
        assert(values.take(0) =~= values);
    } else {
        let front = values.drop_last();
        assert forall|n: int| 0 <= n <= front.len() implies i64::MIN <= state.vert_scroll
            + #[trigger] sum(front.take(n)) <= i64::MAX by {
            assert(front.take(n) =~= values.take(n));
        }
        lemma_after_scrolls(state, front);
        assert(front =~= values.take(values.len() - 1));
    }
}

} // verus!
