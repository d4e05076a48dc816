use vstd::prelude::*;

verus! {

/// Errors reported by the library.
#[derive(Debug, Clone, Copy, PartialEq, Eq, Structural)]
pub enum Error {
    /// A call into the control authority failed; carries the status it reported.
    Winapi(u32),
    /// A string handed to the control authority holds a nul unit of its own.
    ArgumentHasNulByte,
    /// A dispatch table without entries, or without its closing `{ null, null }` entry.
    InvalidServiceTable,
    /// A receive buffer came back without a nul terminator.
    MissingNulTerminator,
}

pub type Result<T> = core::result::Result<T, Error>;

/// Maps the status of a failed native call to the library's error.
pub fn native_failure(status: u32) -> (r: Error)
    ensures
        r == Error::Winapi(status),
{
    Error::Winapi(status)
}

} // verus!
