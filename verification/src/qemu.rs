//! Exit codes understood by the hosting machine/emulator. The driver
//! writes the numeric value of a code to the host's exit mechanism; the
//! harness itself only selects which code to signal.

use vstd::prelude::*;

verus! {

/// Exit codes for the hosting machine. The numeric value of each code
/// is what the host's exit mechanism expects on its diagnostic port.
#[derive(Debug, Clone, Copy, PartialEq, Eq, Structural)]
pub enum ExitCode {
    Success,
    _Failed,
}

impl ExitCode {
    /// The numeric value written to the host's exit mechanism.
    pub fn code(&self) -> (c: u32)
        ensures
            c == (match *self {
                ExitCode::Success => 0x10u32,
                ExitCode::_Failed => 0x11u32,
            }),
    {
        match *self {
            ExitCode::Success => 0x10,
            ExitCode::_Failed => 0x11,
        }
    }
}

} // verus!
