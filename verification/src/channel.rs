//! The tokio channels that carry responses to a connection's writer task.

use bytes::BytesMut;
use tokio::sync::mpsc::{Receiver, Sender};
use vstd::prelude::*;

verus! {

#[verifier::external_type_specification]
#[verifier::external_body]
#[verifier::reject_recursive_types(T)]
pub struct ExSender<T>(tokio::sync::mpsc::Sender<T>);

#[verifier::external_type_specification]
#[verifier::external_body]
#[verifier::reject_recursive_types(T)]
pub struct ExReceiver<T>(tokio::sync::mpsc::Receiver<T>);

/// A response on its way to a client: error code, command, data.
pub type Reply = (u16, u16, BytesMut);

/// `tx` and `rx` are the two ends of one channel that holds up to `bound`
/// messages.
pub uninterp spec fn channel_ends(tx: Sender<Reply>, rx: Receiver<Reply>, bound: usize) -> bool;

/// `tokio::sync::mpsc::channel`: a fresh channel with room for `buffer`
/// messages; it returns the sender and the receiver of that one channel.
/// That the channel is distinct from every other one is left unsaid: it
/// rests on an allocation, which no value here shows. The crate panics on a
/// zero or too large capacity, which `requires` leaves out.
#[verifier::external_body]
pub(crate) fn bounded_channel(buffer: usize) -> (r: (Sender<Reply>, Receiver<Reply>))
    requires
        0 < buffer <= usize::MAX / 8,
    ensures
        channel_ends(r.0, r.1, buffer),
{
    tokio::sync::mpsc::channel::<Reply>(buffer)
}

} // verus!
