use vstd::prelude::*;

verus! {

/// A discrete interaction event produced by the input source and consumed
/// exactly once, in FIFO order, by the input handler.
///
/// `MouseMove` carries element-relative coordinates already scaled to the
/// canvas backing resolution; `MouseDown` and `MouseUp` carry nothing.
#[derive(Clone, Copy, Debug, PartialEq, Eq)]
pub enum CanvasEvent {
    MouseMove(u32, u32),
    MouseDown,
    MouseUp,
}

} // verus!
