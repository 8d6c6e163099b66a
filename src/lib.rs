//! Bridges the pen and touch digitizer of a remote tablet to virtual input
//! devices on the host: the wire codec, the touch-gesture engine, the lease
//! that keeps the remote UI paused, and the remote commands of a run.
use vstd::prelude::*;

pub mod device;
pub mod error;
pub mod event;
pub mod grab;
pub mod lease;
pub mod palm;
pub mod remote;
pub mod touch;

verus! {

} // verus!
