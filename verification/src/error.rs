//! The errors of the library.

use vstd::prelude::*;

verus! {

/// Why a request failed.
#[derive(Debug, PartialEq, Eq, Structural)]
pub enum Error {
    /// A failure that is answered with this error code.
    ErrorCode(u16),
    /// The request payload is not a valid argument of its command.
    Decode,
}

/// The library's result type.
pub type Result<T> = core::result::Result<T, Error>;

} // verus!
