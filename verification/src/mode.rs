//! The dialect a device speaks, fixed once per session, and what it gates.

use vstd::prelude::*;

verus! {

/// The command dialect of the remote device.
#[derive(Clone, Copy, Debug, PartialEq, Eq, Structural)]
pub enum DeviceMode {
    /// A MicroPython interpreter that can enter raw execution mode.
    MicroPythonRepl,
    /// The line-oriented upyOS shell.
    UpyOS,
    /// Neither dialect was recognised.
    Unknown,
}

/// The way file content and listings travel, chosen by the device's mode.
#[derive(Clone, Copy, Debug, PartialEq, Eq, Structural)]
pub enum Strategy {
    /// Programs run through the interpreter's raw mode.
    Interpreter,
    /// Line-oriented shell commands.
    Shell,
}

impl DeviceMode {
    /// Whether commands that need the raw interpreter mode may run.
    pub fn is_repl_compatible(&self) -> (r: bool)
        ensures
            r == (*self == DeviceMode::MicroPythonRepl),
    {
        matches!(self, DeviceMode::MicroPythonRepl)
    }

    /// Whether commands that need the upyOS shell may run.
    pub fn is_upyos_compatible(&self) -> (r: bool)
        ensures
            r == (*self == DeviceMode::UpyOS),
    {
        matches!(self, DeviceMode::UpyOS)
    }

    /// The name of the mode, as shown to a user.
    pub open spec fn description_text(self) -> Seq<char> {
        match self {
            DeviceMode::MicroPythonRepl => "MicroPython REPL"@,
            DeviceMode::UpyOS => "upyOS (Linux-like shell)"@,
            DeviceMode::Unknown => "Unknown mode"@,
        }
    }

    /// The name of the mode, as shown to a user.
    pub fn description(&self) -> (r: &'static str)
        ensures
            r@ == self.description_text(),
    {
        match self {
            DeviceMode::MicroPythonRepl => "MicroPython REPL",
            DeviceMode::UpyOS => "upyOS (Linux-like shell)",
            DeviceMode::Unknown => "Unknown mode",
        }
    }

    /// The strategy that a mode selects: the shell's own for a shell, the
    /// interpreter's for every other mode, an unknown one included.
    pub open spec fn strategy_of(self) -> Strategy {
        if self == DeviceMode::UpyOS {
            Strategy::Shell
        } else {
            Strategy::Interpreter
        }
    }

    /// The strategy that this mode selects for listings and file transfer.
    pub fn strategy(&self) -> (r: Strategy)
        ensures
            r == self.strategy_of(),
    {
        match self {
            DeviceMode::UpyOS => Strategy::Shell,
            _ => Strategy::Interpreter,
        }
    }
}

} // verus!
