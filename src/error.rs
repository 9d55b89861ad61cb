//! Errors that the controller's decisions report.
use vstd::prelude::*;

verus! {

/// An error of the isle controller.
#[derive(Debug, PartialEq, Eq)]
pub enum Error {
    /// A log or control file could not be opened, created, read or written;
    /// the text names the path or says what went wrong.
    InvalidFile(String),
    /// The emulator wrote to its error stream: its captured standard output
    /// and standard error, in that order.
    QEmu(String, String),
}

} // verus!
