//! Exit codes for the emulator's debug-exit device.

use vstd::prelude::*;

verus! {

/// How the machine stops.
#[derive(Clone, Copy, Debug, PartialEq, Eq, Structural)]
pub enum QemuExitCode {
    Success,
    Failed,
}

impl QemuExitCode {
    /// The value written to the debug-exit port.
    pub fn code(&self) -> (r: u32)
        ensures
            r == exit_value(*self),
    {
        match self {
            QemuExitCode::Success => 0x10,
            QemuExitCode::Failed => 0x11,
        }
    }
}

/// The value written to the debug-exit port for `c`.
pub open spec fn exit_value(c: QemuExitCode) -> u32 {
    match c {
        QemuExitCode::Success => 0x10,
        QemuExitCode::Failed => 0x11,
    }
}

} // verus!
