//! State shared between the pen and touch channels for palm rejection.
use vstd::prelude::*;

verus! {

/// Whether the pen is on the surface, and when it last left it (in
/// milliseconds on a clock of the caller's choice).
#[derive(Clone, Copy, Debug, PartialEq, Eq, Structural)]
pub struct PalmState {
    pub pen_down: bool,
    pub last_pen_up: Option<u64>,
}

impl PalmState {
    /// Pen up, never seen lifting.
    pub fn new() -> (r: PalmState)
        ensures
            !r.pen_down,
            r.last_pen_up is None,
    {
        PalmState { pen_down: false, last_pen_up: None }
    }
}

} // verus!
