//! What the connection tasks tell the connection manager.

use crate::channel::Reply;
use crate::connection::Connection;
use tokio::sync::mpsc::Sender;
use vstd::prelude::*;

verus! {

/// An event for the connection manager.
pub enum SocketEvents {
    /// A client finished its handshake.
    Handshake(Sender<Reply>, Connection),
    /// The connection with this id closed.
    Disconnect(u32),
}

} // verus!
