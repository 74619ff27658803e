//! A pool of response senders, handed out to connections one at a time and
//! taken back when they close.

use crate::channel::{bounded_channel, channel_ends, Reply};
use tokio::sync::mpsc::{Receiver, Sender};
use vstd::prelude::*;

verus! {

/// The capacity of each channel in the pool.
pub const CHANNEL_CAPACITY: usize = 32;

/// The senders that are free, the most recently returned one on top.
pub struct ChannelPool {
    pool: Vec<Sender<Reply>>,
}

impl ChannelPool {
    /// The free senders, bottom to top.
    pub closed spec fn senders(&self) -> Seq<Sender<Reply>> {
        self.pool@
    }

    /// A pool of `size` fresh channels with room for `CHANNEL_CAPACITY`
    /// messages each. The pool keeps the senders; the receivers are returned
    /// for the caller to drain, the receiver at each position belonging to
    /// the pool's sender at that position.
    pub fn new(size: usize) -> (r: (Self, Vec<Receiver<Reply>>))
        ensures
            r.0.senders().len() == size,
            r.1.len() == size,
            forall|i: int|
                0 <= i < size ==> channel_ends(
                    #[trigger] r.0.senders()[i],
                    r.1@[i],
                    CHANNEL_CAPACITY,
                ),
    {
        let mut pool: Vec<Sender<Reply>> = Vec::with_capacity(size);
        let mut receivers: Vec<Receiver<Reply>> = Vec::with_capacity(size);
        for _i in 0..size
            invariant
                pool.len() == _i,
                receivers.len() == _i,
                forall|j: int|
                    0 <= j < _i ==> channel_ends(#[trigger] pool@[j], receivers@[j], CHANNEL_CAPACITY),
        {
            let (tx, rx) = bounded_channel(CHANNEL_CAPACITY);
            pool.push(tx);
            receivers.push(rx);
        }
        (Self { pool }, receivers)
    }

    /// `get_channel` on `pre` leaves `post` and returns `r`: the top sender
    /// comes off, or nothing when the pool is empty.
    pub open spec fn takes(pre: ChannelPool, post: ChannelPool, r: Option<Sender<Reply>>) -> bool {
        if pre.senders().len() == 0 {
            &&& r is None
            &&& post.senders() == pre.senders()
        } else {
            &&& r == Some(pre.senders().last())
            &&& post.senders() == pre.senders().drop_last()
        }
    }

    /// `return_channel(tx)` on `pre` leaves `post`: `tx` goes on top.
    pub open spec fn gives_back(pre: ChannelPool, post: ChannelPool, tx: Sender<Reply>) -> bool {
        post.senders() == pre.senders().push(tx)
    }

    /// Takes the top sender, or `None` when every sender is in use.
    pub fn get_channel(&mut self) -> (r: Option<Sender<Reply>>)
        ensures
            Self::takes(*old(self), *final(self), r),
    {
        self.pool.pop()
    }

    /// Puts a sender back on top.
    pub fn return_channel(&mut self, tx: Sender<Reply>)
        ensures
            Self::gives_back(*old(self), *final(self), tx),
    {
        self.pool.push(tx);
    }
}

/// Returning a sender to a pool and then taking one gives that sender back
/// and leaves the pool as it was before the return.
pub proof fn lemma_return_then_get(
    p0: ChannelPool,
    p1: ChannelPool,
    p2: ChannelPool,
    tx: Sender<Reply>,
    r: Option<Sender<Reply>>,
)
    requires
        ChannelPool::gives_back(p0, p1, tx),
        ChannelPool::takes(p1, p2, r),
    ensures
        r == Some(tx),
        p2.senders() == p0.senders(),
{
    assert(p0.senders().push(tx).drop_last() =~= p0.senders());
}

} // verus!
