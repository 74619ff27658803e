//! Two sample handlers that answer with a fixed text, whatever the request.

use crate::buffer::{buffer_from_slice, bytes_of};
use crate::error::{Error, Result};
use bytes::BytesMut;
use vstd::prelude::*;
use vstd::string::StringSliceAdditionalSpecFns;

verus! {

/// Answers a user information request with "User Info: John Doe".
pub fn handle_user_info(data: BytesMut) -> (r: Result<BytesMut>)
    ensures
        r matches Ok(b) && bytes_of(b) == "User Info: John Doe".spec_bytes(),
{
    let response = buffer_from_slice("User Info: John Doe".as_bytes());
    Ok(response)
}

/// Answers an order request with "Order: #12345".
pub fn handle_order(data: BytesMut) -> (r: Result<BytesMut>)
    ensures
        r matches Ok(b) && bytes_of(b) == "Order: #12345".spec_bytes(),
{
    let response = buffer_from_slice("Order: #12345".as_bytes());
    Ok(response)
}

} // verus!
