//! A client connection as the connection manager sees it.

use crate::channel::Reply;
use tokio::sync::mpsc::Sender;
use vstd::prelude::*;

verus! {

/// A connected client: its id (0 until the manager assigns one), the token
/// it presented, and where its responses go.
#[derive(Debug)]
pub struct Connection {
    pub id: u32,
    pub name: String,
    pub msg_sender: Sender<Reply>,
}

impl Connection {
    /// A connection that has no id yet.
    pub fn new(name: String, msg_sender: Sender<Reply>) -> (c: Self)
        ensures
            c.id == 0,
            c.name == name,
            c.msg_sender == msg_sender,
    {
        Self { id: 0, name, msg_sender }
    }
}

} // verus!
