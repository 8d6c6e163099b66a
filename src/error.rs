//! Failures of a bridge run, by the stage that failed.
use vstd::prelude::*;

verus! {

#[derive(Clone, Debug)]
pub enum BridgeError {
    /// The network connection could not be made.
    Connect { detail: String },
    /// The remote end rejected the credentials.
    Auth { detail: String },
    /// The remote CPU reported an architecture with no helper binary.
    UnsupportedArchitecture { reported: String },
    /// Uploading or installing the grab helper exited with this status.
    Deploy { status: i32 },
    /// A one-shot remote command exited with this status.
    Command { status: i32 },
    /// The byte stream closed or failed mid-run.
    Stream { detail: String },
}

} // verus!
