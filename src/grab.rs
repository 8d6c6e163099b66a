//! Deployment of the exclusive-grab helper: a small remote binary that
//! locks the input device for reading and pipes its records to stdout.
use vstd::prelude::*;

use crate::error::BridgeError;

verus! {

/// Remote path of the installed helper.
pub const GRAB_HELPER_PATH: &'static str = "/tmp/rm-mouse-grab";

/// What `uname -m` prints on a 32-bit ARM device.
pub const ARMV7_TAG: &'static str = "armv7l";

/// What `uname -m` prints on a 64-bit ARM device.
pub const AARCH64_TAG: &'static str = "aarch64";

/// Remote command that prints the CPU architecture.
pub const ARCH_QUERY: &'static str = "uname -m";

/// CPU architectures with a helper binary.
#[derive(Clone, Copy, Debug, PartialEq, Eq, Structural)]
pub enum Arch {
    Armv7,
    Aarch64,
}

/// The architecture that a trimmed `uname -m` output names, if any.
pub open spec fn arch_of_tag(tag: Seq<char>) -> Option<Arch> {
    if tag == ARMV7_TAG@ {
        Some(Arch::Armv7)
    } else if tag == AARCH64_TAG@ {
        Some(Arch::Aarch64)
    } else {
        None
    }
}

/// `r` is the outcome of reading the architecture from `tag`.
pub open spec fn arch_result(tag: Seq<char>, r: Result<Arch, BridgeError>) -> bool {
    match arch_of_tag(tag) {
        Some(a) => r == Ok::<Arch, BridgeError>(a),
        None => r matches Err(BridgeError::UnsupportedArchitecture { reported }) && reported@ == tag,
    }
}

/// What `str::trim` returns for a string.
pub uninterp spec fn trimmed(s: Seq<char>) -> Seq<char>;

/// Relies on `str::trim`: drops leading and trailing whitespace; the result
/// depends on the characters alone.
#[verifier::external_body]
fn trim_text(s: &str) -> (r: &str)
    ensures
        r@ == trimmed(s@),
{
    s.trim()
}

impl Arch {
    /// Short name of the architecture.
    pub fn name(&self) -> (r: &'static str)
        ensures
            r@ == (match self {
                Arch::Armv7 => "armv7"@,
                Arch::Aarch64 => "aarch64"@,
            }),
    {
        match self {
            Arch::Armv7 => "armv7",
            Arch::Aarch64 => "aarch64",
        }
    }

    /// File name of the helper binary built for this architecture.
    pub fn helper_file(&self) -> (r: &'static str)
        ensures
            r@ == (match self {
                Arch::Armv7 => "evgrab-armv7"@,
                Arch::Aarch64 => "evgrab-aarch64"@,
            }),
    {
        match self {
            Arch::Armv7 => "evgrab-armv7",
            Arch::Aarch64 => "evgrab-aarch64",
        }
    }
}

/// Maps an already trimmed architecture tag to an architecture.
pub fn arch_from_tag(tag: &str) -> (r: Result<Arch, BridgeError>)
    ensures
        arch_result(tag@, r),
{
    let t = tag.to_owned();
    if t == ARMV7_TAG.to_owned() {
        Ok(Arch::Armv7)
    } else if t == AARCH64_TAG.to_owned() {
        Ok(Arch::Aarch64)
    } else {
        Err(BridgeError::UnsupportedArchitecture { reported: t })
    }
}

/// Reads the architecture from the output of the remote `uname -m`,
/// ignoring surrounding whitespace.
pub fn detect_arch(output: &str) -> (r: Result<Arch, BridgeError>)
    ensures
        arch_result(trimmed(output@), r),
{
    arch_from_tag(trim_text(output))
}

/// The remote command that installs the helper from its standard input:
/// written to a process-unique temporary file, made executable, then
/// renamed into place.
pub open spec fn upload_command_spec() -> Seq<char> {
    let p = GRAB_HELPER_PATH@;
    "cat > "@ + p + ".$$ && chmod +x "@ + p + ".$$ && mv -f "@ + p + ".$$ "@ + p
}

pub fn upload_command() -> (r: String)
    ensures
        r@ == upload_command_spec(),
{
    let mut r = String::from_str("cat > ");
    r.append(GRAB_HELPER_PATH);
    r.append(".$$ && chmod +x ");
    r.append(GRAB_HELPER_PATH);
    r.append(".$$ && mv -f ");
    r.append(GRAB_HELPER_PATH);
    r.append(".$$ ");
    r.append(GRAB_HELPER_PATH);
    r
}

/// Outcome of the upload, from the exit status of the remote command.
pub fn check_upload_status(status: i32) -> (r: Result<(), BridgeError>)
    ensures
        r == if status == 0 {
            Ok::<(), BridgeError>(())
        } else {
            Err(BridgeError::Deploy { status })
        },
{
    if status != 0 {
        return Err(BridgeError::Deploy { status });
    }
    Ok(())
}

/// The remote command that streams a device through the helper: the shell
/// is replaced by the helper, and its stderr goes to a log file.
pub open spec fn grab_command_spec(device_path: Seq<char>) -> Seq<char> {
    "exec "@ + GRAB_HELPER_PATH@ + " "@ + device_path + " 2>>"@ + GRAB_HELPER_PATH@ + ".log"@
}

pub fn grab_command(device_path: &str) -> (r: String)
    ensures
        r@ == grab_command_spec(device_path@),
{
    let mut r = String::from_str("exec ");
    r.append(GRAB_HELPER_PATH);
    r.append(" ");
    r.append(device_path);
    r.append(" 2>>");
    r.append(GRAB_HELPER_PATH);
    r.append(".log");
    r
}

} // verus!
