//! Error codes sent back to clients.

use vstd::prelude::*;

verus! {

/// The error code for a request that the server cannot serve: an unknown
/// command, or no connection id left to hand out.
pub const SYSTEM_ERROR: u16 = 1;

} // verus!
