//! The error taxonomy of the pipeline. No failure is recovered locally:
//! every stage error is fatal and aborts the remaining stages.

use vstd::prelude::*;

verus! {

/// What went wrong in a pipeline run.
#[derive(Clone, Copy, Debug, PartialEq, Eq, Structural)]
pub enum Error {
    /// The architecture token is not one of the supported set.
    /// Detected before any network or filesystem activity.
    InputError,
    /// The download ended with a non-success HTTP status.
    TransferError,
    /// A file could not be created, opened, written, copied or removed.
    IOError,
    /// A spawned subprocess exited non-zero or could not be spawned.
    ProcessError,
}

impl Error {
    /// A short human-readable name for the error, for the driver's messages.
    pub fn describe(&self) -> (r: &'static str)
        ensures
            self is InputError ==> r@ == "invalid architecture (supported: x86_64 rpi)"@,
            self is TransferError ==> r@ == "download failed"@,
            self is IOError ==> r@ == "file operation failed"@,
            self is ProcessError ==> r@ == "subprocess failed"@,
    {
        match self {
            Error::InputError => "invalid architecture (supported: x86_64 rpi)",
            Error::TransferError => "download failed",
            Error::IOError => "file operation failed",
            Error::ProcessError => "subprocess failed",
        }
    }
}

} // verus!
