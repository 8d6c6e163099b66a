//! The remote commands of a bridge run, and the choice of how the remote UI
//! application is kept from acting on the input while it is streamed.
use vstd::prelude::*;

use crate::error::BridgeError;
use crate::grab::{grab_command, grab_command_spec};

verus! {

/// Account used on the remote device.
pub const SSH_USER: &'static str = "root";

/// Port of the remote shell service.
pub const SSH_PORT: u16 = 22;

/// Pause-UI script, up to the device path that it reads in the foreground:
/// a background loop keeps stopping the UI process, and an exit trap kills
/// the loop and resumes the UI whatever ends the read.
pub const PAUSE_UI_PREFIX: &'static str = "trap 'kill $STOPPER 2>/dev/null; kill -CONT $(pidof xochitl) 2>/dev/null' EXIT; (while true; do kill -STOP $(pidof xochitl) 2>/dev/null; sleep 1; done) & STOPPER=$!; sleep 0.5; cat ";

/// Plain read of a device, up to its path.
pub const PLAIN_READ_PREFIX: &'static str = "cat ";

/// Resumes the UI process; resuming a running process does nothing.
pub const RESUME_UI: &'static str = "kill -CONT $(pidof xochitl) 2>/dev/null";

/// How the remote UI application is kept from acting on the input.
#[derive(Clone, Copy, Debug, PartialEq, Eq, Structural)]
pub enum Interference {
    /// Read the device alongside the UI.
    Plain,
    /// Read through the grab helper, which locks the device.
    ExclusiveGrab,
    /// Keep the UI process stopped while the device is read.
    PauseUi,
}

impl Interference {
    /// Whether streaming needs the grab helper installed first.
    pub fn needs_helper(&self) -> (r: bool)
        ensures
            r == (*self == Interference::ExclusiveGrab),
    {
        match self {
            Interference::ExclusiveGrab => true,
            _ => false,
        }
    }

    /// Whether a stream holds a pause lease while it runs.
    pub fn takes_lease(&self) -> (r: bool)
        ensures
            r == (*self == Interference::PauseUi),
    {
        match self {
            Interference::PauseUi => true,
            _ => false,
        }
    }
}

pub open spec fn stream_command_spec(device_path: Seq<char>, stop_ui: bool) -> Seq<char> {
    if stop_ui {
        PAUSE_UI_PREFIX@ + device_path
    } else {
        PLAIN_READ_PREFIX@ + device_path
    }
}

/// The remote command that reads a device, with or without the pause-UI
/// loop around it.
pub fn build_stream_command(device_path: &str, stop_ui: bool) -> (r: String)
    ensures
        r@ == stream_command_spec(device_path@, stop_ui),
{
    let mut r = if stop_ui {
        String::from_str(PAUSE_UI_PREFIX)
    } else {
        String::from_str(PLAIN_READ_PREFIX)
    };
    r.append(device_path);
    r
}

/// The remote command that streams a device under an interference mode.
pub fn stream_command(device_path: &str, mode: Interference) -> (r: String)
    ensures
        r@ == match mode {
            Interference::Plain => stream_command_spec(device_path@, false),
            Interference::PauseUi => stream_command_spec(device_path@, true),
            Interference::ExclusiveGrab => grab_command_spec(device_path@),
        },
{
    match mode {
        Interference::Plain => build_stream_command(device_path, false),
        Interference::PauseUi => build_stream_command(device_path, true),
        Interference::ExclusiveGrab => grab_command(device_path),
    }
}

pub open spec fn resume_command_spec() -> Seq<char> {
    "sh -c '"@ + RESUME_UI@ + "'"@
}

/// The one-shot remote command that resumes the UI application.
pub fn resume_command() -> (r: String)
    ensures
        r@ == resume_command_spec(),
{
    let mut r = String::from_str("sh -c '");
    r.append(RESUME_UI);
    r.append("'");
    r
}

/// Outcome of a one-shot remote command from its exit status; a status that
/// could not be read counts as -1.
pub fn command_outcome(status: Option<i32>) -> (r: Result<(), BridgeError>)
    ensures
        r == match status {
            Some(0) => Ok::<(), BridgeError>(()),
            Some(s) => Err(BridgeError::Command { status: s }),
            None => Err(BridgeError::Command { status: -1i32 }),
        },
{
    let s: i32 = match status {
        Some(s) => s,
        None => -1,
    };
    if s != 0 {
        return Err(BridgeError::Command { status: s });
    }
    Ok(())
}

} // verus!
