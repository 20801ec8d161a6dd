//! The ways an operation can fail.

use vstd::prelude::*;
use crate::mode::DeviceMode;

verus! {

/// Why an operation did not give its result.
#[derive(Debug, PartialEq, Eq)]
pub enum Error {
    /// The transport failed at something other than a timeout. The text is
    /// the transport's own.
    Transport(String),
    /// The operation needs a mode other than the one the device is in. Found
    /// before anything is sent.
    ModeMismatch { required: DeviceMode, actual: DeviceMode },
    /// The device answered with an error of its own. The text is what was
    /// captured from it.
    Remote(String),
    /// The device refused to overwrite a protected file. The text is the
    /// device's answer.
    ProtectedFile(String),
    /// The content is larger than a shell upload accepts.
    TooLarge { size: usize, limit: usize },
    /// The device sent nothing that could be the content of the file.
    NoContent,
}

/// The mathematical content of an [`Error`].
pub enum ErrorView {
    Transport(Seq<char>),
    ModeMismatch { required: DeviceMode, actual: DeviceMode },
    Remote(Seq<char>),
    ProtectedFile(Seq<char>),
    TooLarge { size: usize, limit: usize },
    NoContent,
}

impl View for Error {
    type V = ErrorView;

    open spec fn view(&self) -> ErrorView {
        match self {
            Error::Transport(text) => ErrorView::Transport(text@),
            Error::ModeMismatch { required, actual } => ErrorView::ModeMismatch {
                required: *required,
                actual: *actual,
            },
            Error::Remote(text) => ErrorView::Remote(text@),
            Error::ProtectedFile(text) => ErrorView::ProtectedFile(text@),
            Error::TooLarge { size, limit } => ErrorView::TooLarge { size: *size, limit: *limit },
            Error::NoContent => ErrorView::NoContent,
        }
    }
}

} // verus!
