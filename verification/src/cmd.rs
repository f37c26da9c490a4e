use crate::widget::{KeyState, ModifiersState};
use vstd::prelude::*;

verus! {

/// What the event loop is asked to do, one entry of its queue.
#[derive(Debug, PartialEq, Eq)]
pub enum Cmd {
    Exit,
    Draw,
    ForceDraw,
    MouseClick { btn: u32, pos: (u32, u32) },
    /// `scroll` is the horizontal and the vertical distance, in 256ths of a
    /// scroll unit.
    MouseScroll { scroll: (i64, i64), pos: (u32, u32) },
    Keyboard {
        key: u32,
        key_state: KeyState,
        modifiers_state: ModifiersState,
        interpreted: Option<String>,
    },
}

} // verus!
