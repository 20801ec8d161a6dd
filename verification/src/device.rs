//! The session with one device: it holds the mode that was detected at the
//! start, and every operation is made from it, gated by that mode.

use vstd::prelude::*;
use vstd::string::StringSliceAdditionalSpecFns;
use vstd::utf8::encode_utf8;
use crate::base64::encode;
use crate::bridge::{Bridge, BridgeState};
use crate::detect::{DetectMode, DetectState};
use crate::error::{Error, ErrorView};
use crate::exec::{ExecCommand, ExecState};
use crate::files::{
    download_program,
    get_file_program,
    list_files_program,
    listing_program,
    put_file_program,
    upload_program,
};
use crate::link::Request;
use crate::mode::{DeviceMode, Strategy};
use crate::reset::{hard_reset_script, script, soft_reset_script};
use crate::send::{SendState, SendString};
use crate::shell::{
    shell_command,
    upload_lines,
    QueryState,
    ShellQuery,
    ShellUpload,
    UploadState,
    CONTENT_WAIT_MS,
    LISTING_WAIT_MS,
    UPLOAD_LIMIT,
};

verus! {

/// The mismatch that a command for mode `required` meets on a device in
/// mode `actual`.
pub open spec fn mismatch(required: DeviceMode, actual: DeviceMode) -> ErrorView {
    ErrorView::ModeMismatch { required, actual }
}

/// One file transfer as it is planned: where the file is on either side,
/// how many bytes it has, and the strategy that will carry it.
#[derive(Debug, PartialEq, Eq)]
pub struct TransferDescriptor {
    pub local_path: String,
    pub remote_path: String,
    pub byte_len: usize,
    pub strategy: Strategy,
}

/// One session with a device. Its mode is set when it is made and never
/// changes.
pub struct MpDevice {
    mode: DeviceMode,
}

impl View for MpDevice {
    type V = DeviceMode;

    closed spec fn view(&self) -> DeviceMode {
        self.mode
    }
}

impl MpDevice {
    /// A session with a device in the given mode.
    pub fn new(mode: DeviceMode) -> (r: MpDevice)
        ensures
            r@ == mode,
    {
        MpDevice { mode }
    }

    /// The detection to run at the start of a session.
    pub fn detect_mode() -> (r: DetectMode)
        ensures
            r@ == DetectState::fresh(),
    {
        DetectMode::new()
    }

    /// The session that a detection leads to: one in the mode it found, or
    /// the failure that ended it.
    pub fn detected(probe: &DetectMode) -> (r: Result<MpDevice, Error>)
        ensures
            match r {
                Ok(device) => probe@.outcome() == Ok::<DeviceMode, ErrorView>(device@),
                Err(e) => probe@.outcome() == Err::<DeviceMode, ErrorView>(e@),
            },
    {
        match probe.outcome() {
            Ok(mode) => Ok(MpDevice { mode }),
            Err(e) => Err(e),
        }
    }

    /// The mode of the device.
    pub fn mode(&self) -> (r: DeviceMode)
        ensures
            r == self@,
    {
        self.mode
    }

    /// The strategy for listings and file transfer on this device.
    pub fn strategy(&self) -> (r: Strategy)
        ensures
            r == self@.strategy_of(),
    {
        self.mode.strategy()
    }

    /// The plan of a file transfer on this device. Its strategy is the one
    /// that the device's mode selects.
    pub fn plan_transfer(&self, local_path: &str, remote_path: &str, byte_len: usize) -> (r:
        TransferDescriptor)
        ensures
            r.local_path@ == local_path@,
            r.remote_path@ == remote_path@,
            r.byte_len == byte_len,
            r.strategy == self@.strategy_of(),
    {
        TransferDescriptor {
            local_path: local_path.to_owned(),
            remote_path: remote_path.to_owned(),
            byte_len,
            strategy: self.mode.strategy(),
        }
    }

    /// Passes for an interpreter; for any other mode, an unknown one
    /// included, it is `ModeMismatch`.
    pub fn ensure_repl_mode(&self) -> (r: Result<(), Error>)
        ensures
            match r {
                Ok(_) => self@ == DeviceMode::MicroPythonRepl,
                Err(e) => self@ != DeviceMode::MicroPythonRepl && e@ == mismatch(
                    DeviceMode::MicroPythonRepl,
                    self@,
                ),
            },
    {
        if self.mode.is_repl_compatible() {
            Ok(())
        } else {
            Err(Error::ModeMismatch { required: DeviceMode::MicroPythonRepl, actual: self.mode })
        }
    }

    /// Passes for a shell; for any other mode, an unknown one included, it
    /// is `ModeMismatch`.
    pub fn ensure_upyos_mode(&self) -> (r: Result<(), Error>)
        ensures
            match r {
                Ok(_) => self@ == DeviceMode::UpyOS,
                Err(e) => self@ != DeviceMode::UpyOS && e@ == mismatch(DeviceMode::UpyOS, self@),
            },
    {
        if self.mode.is_upyos_compatible() {
            Ok(())
        } else {
            Err(Error::ModeMismatch { required: DeviceMode::UpyOS, actual: self.mode })
        }
    }

    /// The command that runs `code` in the interpreter's raw mode, or
    /// `ModeMismatch` if the device is not an interpreter.
    pub fn exec_command(&self, code: &str) -> (r: Result<ExecCommand, Error>)
        ensures
            match r {
                Ok(command) => self@ == DeviceMode::MicroPythonRepl && command@
                    == ExecState::fresh(code.spec_bytes()),
                Err(e) => self@ != DeviceMode::MicroPythonRepl && e@ == mismatch(
                    DeviceMode::MicroPythonRepl,
                    self@,
                ),
            },
    {
        ExecCommand::new(self.mode, code)
    }

    /// The command that lists the directory `path` through the
    /// interpreter, or `ModeMismatch` if the device is not an interpreter.
    pub fn list_files_repl(&self, path: &str) -> (r: Result<ExecCommand, Error>)
        ensures
            match r {
                Ok(command) => self@ == DeviceMode::MicroPythonRepl && command@
                    == ExecState::fresh(encode_utf8(listing_program(path@))),
                Err(e) => self@ != DeviceMode::MicroPythonRepl && e@ == mismatch(
                    DeviceMode::MicroPythonRepl,
                    self@,
                ),
            },
    {
        let program = list_files_program(path);
        ExecCommand::new(self.mode, program.as_str())
    }

    /// The query that lists the directory `path` through the shell, or
    /// `ModeMismatch` if the device is not a shell.
    pub fn list_files_upyos(&self, path: &str) -> (r: Result<ShellQuery, Error>)
        ensures
            match r {
                Ok(query) => self@ == DeviceMode::UpyOS && query@ == QueryState::fresh(
                    encode_utf8(shell_command("ls -1"@, path@)),
                    LISTING_WAIT_MS,
                ),
                Err(e) => self@ != DeviceMode::UpyOS && e@ == mismatch(DeviceMode::UpyOS, self@),
            },
    {
        ShellQuery::list_files(self.mode, path)
    }

    /// The command that writes `content` to the file `path` through the
    /// interpreter, or `ModeMismatch` if the device is not an interpreter.
    /// It is one command that carries the whole encoded content, whatever
    /// the size of the content.
    pub fn put_file_repl(&self, content: &[u8], path: &str) -> (r: Result<ExecCommand, Error>)
        ensures
            match r {
                Ok(command) => self@ == DeviceMode::MicroPythonRepl && command@
                    == ExecState::fresh(encode_utf8(upload_program(encode(content@), path@))),
                Err(e) => self@ != DeviceMode::MicroPythonRepl && e@ == mismatch(
                    DeviceMode::MicroPythonRepl,
                    self@,
                ),
            },
    {
        let program = put_file_program(content, path);
        ExecCommand::new(self.mode, program.as_str())
    }

    /// The upload of the text `content` to the file `path` through the
    /// shell; `ModeMismatch` if the device is not a shell, else `TooLarge`
    /// if the content has more than `UPLOAD_LIMIT` bytes.
    pub fn put_file_upyos(&self, content: &str, path: &str) -> (r: Result<ShellUpload, Error>)
        ensures
            match r {
                Ok(upload) => {
                    &&& self@ == DeviceMode::UpyOS
                    &&& content.spec_bytes().len() <= UPLOAD_LIMIT
                    &&& upload@ == UploadState::fresh(
                        encode_utf8(shell_command("fileup"@, path@)),
                        upload_lines(content@),
                    )
                },
                Err(e) => if self@ != DeviceMode::UpyOS {
                    e@ == mismatch(DeviceMode::UpyOS, self@)
                } else {
                    &&& content.spec_bytes().len() > UPLOAD_LIMIT
                    &&& e@ == (ErrorView::TooLarge {
                        size: content.spec_bytes().len() as usize,
                        limit: UPLOAD_LIMIT,
                    })
                },
            },
    {
        ShellUpload::new(self.mode, content, path)
    }

    /// The command that prints the encoded content of the file `path`
    /// through the interpreter, or `ModeMismatch` if the device is not an
    /// interpreter.
    pub fn get_file_repl(&self, path: &str) -> (r: Result<ExecCommand, Error>)
        ensures
            match r {
                Ok(command) => self@ == DeviceMode::MicroPythonRepl && command@
                    == ExecState::fresh(encode_utf8(download_program(path@))),
                Err(e) => self@ != DeviceMode::MicroPythonRepl && e@ == mismatch(
                    DeviceMode::MicroPythonRepl,
                    self@,
                ),
            },
    {
        let program = get_file_program(path);
        ExecCommand::new(self.mode, program.as_str())
    }

    /// The query that prints the file `path` through the shell, or
    /// `ModeMismatch` if the device is not a shell.
    pub fn get_file_upyos(&self, path: &str) -> (r: Result<ShellQuery, Error>)
        ensures
            match r {
                Ok(query) => self@ == DeviceMode::UpyOS && query@ == QueryState::fresh(
                    encode_utf8(shell_command("cat"@, path@)),
                    CONTENT_WAIT_MS,
                ),
                Err(e) => self@ != DeviceMode::UpyOS && e@ == mismatch(DeviceMode::UpyOS, self@),
            },
    {
        ShellQuery::get_file(self.mode, path)
    }

    /// The requests of a soft reset.
    pub fn soft_reset(&self) -> (r: Vec<Request>)
        ensures
            script(r@) == soft_reset_script(),
    {
        crate::reset::soft_reset()
    }

    /// The requests of a hard reset.
    pub fn hard_reset(&self) -> (r: Vec<Request>)
        ensures
            script(r@) == hard_reset_script(),
    {
        crate::reset::hard_reset()
    }

    /// The send of a line of text. Every mode takes it.
    pub fn send_string(&self, data: &str, timeout_secs: Option<u64>) -> (r: SendString)
        ensures
            r@ == SendState::fresh(data@, data.spec_bytes(), timeout_secs),
    {
        SendString::new(data, timeout_secs)
    }

    /// The pass-through between the device and the local terminal:
    /// interactive if the local input is a terminal, else in script mode.
    pub fn run_repl(&self, input_is_terminal: bool) -> (r: Bridge)
        ensures
            r@ == BridgeState::fresh(input_is_terminal),
    {
        Bridge::new(input_is_terminal)
    }
}

} // verus!
