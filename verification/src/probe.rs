//! The signal probe: is a signing operation that waits for a touch in
//! progress? The host asks the process list; what it asks and how the answer
//! is read stands here.

use crate::request::{Command, CommandView};
use vstd::prelude::*;
use vstd::string::*;

verus! {

/// The program that searches the process list.
pub const PROBE_PROGRAM: &'static str = "pgrep";

/// The command lines that count as a signing operation.
pub const PROBE_PATTERN: &'static str = "ssh-keygen.*-Y sign";

/// The command that succeeds if and only if a live process matches the
/// pattern on its full command line.
pub open spec fn probe() -> CommandView {
    CommandView { program: PROBE_PROGRAM@, args: seq!["-f"@, PROBE_PATTERN@] }
}

/// The command that the host runs at each poll, with its output discarded.
pub fn probe_command() -> (command: Command)
    ensures
        command@ == probe(),
{
    let mut args: Vec<String> = Vec::new();
    args.push(String::from_str("-f"));
    args.push(String::from_str(PROBE_PATTERN));
    let command = Command { program: String::from_str(PROBE_PROGRAM), args };
    assert(command@.args =~= probe().args);
    command
}

/// The signal that a poll yields: `succeeded` says whether the probe ran and
/// found a match, and is `None` if it could not be run. A probe that cannot
/// be run counts as no signal, since the next poll asks again.
pub fn signal_of(succeeded: Option<bool>) -> (signal: bool)
    ensures
        signal == (succeeded == Some(true)),
{
    match succeeded {
        Some(found) => found,
        None => false,
    }
}

} // verus!
