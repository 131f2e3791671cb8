//! What the host reads from its input devices once per frame.
use vstd::prelude::*;

verus! {

/// One frame of input: keys pressed this frame and keys held down.
#[derive(Clone, Copy, Debug, PartialEq, Eq, Structural, Default)]
pub struct InputSnapshot {
    pub left_pressed: bool,
    pub right_pressed: bool,
    pub up_pressed: bool,
    pub down_pressed: bool,
    pub left_held: bool,
    pub right_held: bool,
    pub up_held: bool,
    pub down_held: bool,
    pub confirm: bool,
    pub cancel: bool,
}

impl InputSnapshot {
    /// A frame with no key pressed or held.
    pub fn idle() -> (r: InputSnapshot)
        ensures
            !r.left_pressed && !r.right_pressed && !r.up_pressed && !r.down_pressed,
            !r.left_held && !r.right_held && !r.up_held && !r.down_held,
            !r.confirm && !r.cancel,
    {
        InputSnapshot {
            left_pressed: false,
            right_pressed: false,
            up_pressed: false,
            down_pressed: false,
            left_held: false,
            right_held: false,
            up_held: false,
            down_held: false,
            confirm: false,
            cancel: false,
        }
    }
}

} // verus!
