//! The connection manager: hands out connection ids and keeps the table of
//! live connections.
//!
//! Ids run from 1 to the client limit. Ids waiting in the pool are handed
//! out again before any fresh one; fresh ids are counted upward.

use crate::buffer::{buffer_new, bytes_of};
use crate::channel::Reply;
use crate::connection::Connection;
use crate::constant::error_code::SYSTEM_ERROR;
use crate::error::{Error, Result};
use crate::socket_events::SocketEvents;
use std::collections::HashMap;
use tokio::sync::mpsc::Sender;
use vstd::pervasive::unreached;
use vstd::prelude::*;

verus! {

broadcast use vstd::std_specs::hash::group_hash_axioms;

/// The largest number of connection ids a manager hands out.
pub const MAX_CLIENT: u32 = 1000;

/// The connection manager's state.
pub struct SocketMgr {
    connections: HashMap<u32, Connection>,
    max_client: u32,
    connection_indices: u32,
    connection_index_pool: Vec<u32>,
}

/// What the event loop has to do after the manager handled an event.
pub enum Action {
    /// The connection was registered under this id; nothing to send.
    Registered(u32),
    /// The handshake was refused: send this reply on this sender.
    Refuse(Sender<Reply>, Reply),
}

impl SocketMgr {
    /// The client limit.
    pub closed spec fn max_clients(&self) -> u32 {
        self.max_client
    }

    /// How many fresh ids have been counted out so far.
    pub closed spec fn next_index(&self) -> u32 {
        self.connection_indices
    }

    /// Released ids waiting to be handed out again, the last one first.
    pub closed spec fn free_ids(&self) -> Seq<u32> {
        self.connection_index_pool@
    }

    /// The live connections by id.
    pub closed spec fn connections(&self) -> Map<u32, Connection> {
        self.connections@
    }

    /// The ids that are handed out: counted out and not waiting in the pool.
    pub open spec fn issued(&self) -> Set<u32> {
        Set::new(|i: u32| 1 <= i <= self.next_index() && !self.free_ids().contains(i))
    }

    /// The manager's invariant: the counter stays within the limit, the pool
    /// holds distinct ids that were counted out, and every live connection
    /// sits under its own id, which is a handed out one.
    pub open spec fn wf(&self) -> bool {
        &&& self.next_index() <= self.max_clients()
        &&& forall|i: int|
            0 <= i < self.free_ids().len() ==> 1 <= #[trigger] self.free_ids()[i]
                <= self.next_index()
        &&& self.free_ids().no_duplicates()
        &&& forall|k: u32| #[trigger]
            self.connections().contains_key(k) ==> self.issued().contains(k)
                && self.connections()[k].id == k
    }

    /// The id the next successful allocation hands out, if there is one: the
    /// last pooled id, else the next fresh one while the limit allows.
    pub open spec fn next_id(&self) -> Option<u32> {
        if self.free_ids().len() > 0 {
            Some(self.free_ids().last())
        } else if self.next_index() < self.max_clients() {
            Some((self.next_index() + 1) as u32)
        } else {
            None
        }
    }

    /// How the id bookkeeping of `post` follows from `self` by one
    /// successful allocation.
    pub open spec fn allocated_to(&self, post: &Self) -> bool {
        &&& post.max_clients() == self.max_clients()
        &&& if self.free_ids().len() > 0 {
            &&& post.free_ids() == self.free_ids().drop_last()
            &&& post.next_index() == self.next_index()
        } else {
            &&& post.free_ids() == self.free_ids()
            &&& post.next_index() == self.next_index() + 1
        }
    }

    /// A manager as `new` makes it: limit 1000, nothing counted out,
    /// nothing pooled, no connections.
    pub open spec fn is_fresh(&self) -> bool {
        &&& self.wf()
        &&& self.max_clients() == MAX_CLIENT
        &&& self.next_index() == 0
        &&& self.free_ids() == Seq::<u32>::empty()
        &&& self.connections() == Map::<u32, Connection>::empty()
    }

    /// One call of `add_connection` on `pre` leaves `post` and returns `r`:
    /// the next id when there is one, with the bookkeeping of one
    /// allocation, else `SYSTEM_ERROR` with nothing changed. The connection
    /// table is left alone either way.
    pub open spec fn add_step(pre: SocketMgr, post: SocketMgr, r: Result<u32>) -> bool {
        &&& post.wf()
        &&& post.connections() == pre.connections()
        &&& match pre.next_id() {
            Some(id) => {
                &&& r == Ok::<u32, Error>(id)
                &&& pre.allocated_to(&post)
            },
            None => {
                &&& r == Err::<u32, Error>(Error::ErrorCode(SYSTEM_ERROR))
                &&& post == pre
            },
        }
    }

    /// An empty manager with the client limit of 1000.
    pub fn new() -> (m: Self)
        ensures
            m.is_fresh(),
            m.issued() == Set::<u32>::empty(),
    {
        let m = Self {
            connections: HashMap::new(),
            max_client: MAX_CLIENT,
            connection_indices: 0,
            connection_index_pool: Vec::new(),
        };
        assert(m.issued() =~= Set::<u32>::empty());
        m
    }

    /// Hands out a connection id: the last pooled id if there is one, else
    /// the next fresh id while the client limit allows; otherwise the
    /// `SYSTEM_ERROR` code. The connection table is left alone.
    pub fn add_connection(&mut self, name: String) -> (r: Result<u32>)
        requires
            old(self).wf(),
        ensures
            Self::add_step(*old(self), *final(self), r),
            r matches Ok(id) ==> {
                &&& 1 <= id <= old(self).max_clients()
                &&& !old(self).issued().contains(id)
                &&& !old(self).connections().contains_key(id)
                &&& final(self).issued() == old(self).issued().insert(id)
            },
    {
        proof {
            lemma_next_id_is_fresh(*old(self));
        }
        let id = if !self.connection_index_pool.is_empty() {
            self.connection_index_pool.pop().unwrap()
        } else if self.connection_indices < self.max_client {
            self.connection_indices += 1;
            self.connection_indices
        } else {
            0
        };

        if id == 0 {
            return Err(Error::ErrorCode(SYSTEM_ERROR));
        }
        proof {
            let pre = *old(self);
            assert(self.free_ids().len() > 0 ==> self.free_ids().last() >= 1);
            if pre.free_ids().len() > 0 {
                assert(self.free_ids() =~= pre.free_ids().drop_last());
                assert forall|i: int| 0 <= i < self.free_ids().len() implies 1
                    <= #[trigger] self.free_ids()[i] <= self.next_index() by {
                    assert(self.free_ids()[i] == pre.free_ids()[i]);
                }
                assert forall|x: u32| #[trigger]
                    self.issued().contains(x) == pre.issued().insert(id).contains(x) by {
                    if x == id {
                        assert(pre.free_ids()[pre.free_ids().len() - 1] == id);
                        if self.free_ids().contains(x) {
                            let j = choose|j: int|
                                0 <= j < self.free_ids().len() && self.free_ids()[j] == x;
                            assert(pre.free_ids()[j] == x);
                        }
                    } else {
                        if pre.free_ids().contains(x) {
                            let j = choose|j: int|
                                0 <= j < pre.free_ids().len() && pre.free_ids()[j] == x;
                            assert(self.free_ids()[j] == x);
                        }
                    }
                }
            } else {
                assert forall|x: u32| #[trigger]
                    self.issued().contains(x) == pre.issued().insert(id).contains(x) by {
                    if self.free_ids().contains(x) {
                        let j = choose|j: int|
                            0 <= j < self.free_ids().len() && self.free_ids()[j] == x;
                        assert(pre.free_ids()[j] == x);
                    }
                }
            }
            assert(self.issued() =~= pre.issued().insert(id));
        }
        Ok(id)
    }

    /// The decision half of the manager's event loop. A handshake gets an id
    /// and is registered under it; when no id is left, the returned action
    /// holds the reply for the client (the error code, command 0, no data)
    /// and the client's sender, and what becomes of it is up to the event
    /// loop. A disconnect is not handled: the server stops on one, so
    /// `requires` leaves it out.
    pub fn handle_event(&mut self, event: SocketEvents) -> (action: Action)
        requires
            old(self).wf(),
            event is Handshake,
        ensures
            final(self).wf(),
            event matches SocketEvents::Handshake(_, conn) && match old(self).next_id() {
                Some(id) => {
                    &&& action == Action::Registered(id)
                    &&& old(self).allocated_to(&*final(self))
                    &&& final(self).connections() == old(self).connections().insert(
                        id,
                        Connection { id: id, name: conn.name, msg_sender: conn.msg_sender },
                    )
                    &&& final(self).issued() == old(self).issued().insert(id)
                },
                None => {
                    &&& action matches Action::Refuse(sender, reply)
                    &&& sender == conn.msg_sender
                    &&& reply.0 == SYSTEM_ERROR
                    &&& reply.1 == 0
                    &&& bytes_of(reply.2) == Seq::<u8>::empty()
                    &&& *final(self) == *old(self)
                },
            },
    {
        match event {
            SocketEvents::Handshake(_tx, mut conn) => match self.add_connection(conn.name.clone()) {
                Ok(id) => {
                    conn.id = id;
                    let ghost mid = *self;
                    self.connections.insert(id, conn);
                    proof {
                        assert forall|k: u32| #[trigger]
                            self.connections().contains_key(k) implies self.issued().contains(k)
                            && self.connections()[k].id == k by {
                            if k != id {
                                assert(mid.connections().contains_key(k));
                            }
                        }
                    }
                    Action::Registered(id)
                },
                Err(Error::ErrorCode(code)) => {
                    let msg = buffer_new();
                    Action::Refuse(conn.msg_sender, (code, 0, msg))
                },
                Err(_) => unreached(),
            },
            SocketEvents::Disconnect(_) => unreached(),
        }
    }
}

/// The id the manager would hand out next is within the limit, not handed
/// out already and not held by a live connection; and the manager refuses
/// only when the pool is empty and the limit is reached.
pub proof fn lemma_next_id_is_fresh(m: SocketMgr)
    requires
        m.wf(),
    ensures
        m.next_id() is None <==> (m.free_ids().len() == 0 && m.next_index() == m.max_clients()),
        m.next_id() matches Some(id) ==> {
            &&& 1 <= id <= m.max_clients()
            &&& !m.issued().contains(id)
            &&& !m.connections().contains_key(id)
        },
{
    if m.free_ids().len() > 0 {
        let id = m.free_ids().last();
        assert(m.free_ids()[m.free_ids().len() - 1] == id);
        assert(m.free_ids().contains(id));
    }
}

/// Two successive allocations, each of which succeeds, hand out different
/// ids.
pub proof fn lemma_successive_ids_differ(m1: SocketMgr, m2: SocketMgr)
    requires
        m1.wf(),
        m2.wf(),
        m1.allocated_to(&m2),
        m1.next_id() is Some,
        m2.next_id() is Some,
    ensures
        m1.next_id()->0 != m2.next_id()->0,
{
    let p1 = m1.free_ids();
    if p1.len() > 0 {
        let id1 = p1.last();
        assert(p1[p1.len() - 1] == id1);
        if m2.free_ids().len() > 0 {
            assert(m2.free_ids().last() == p1[p1.len() - 2]);
        }
    }
}

/// The manager's bookkeeping after `i` calls of `add_connection` from a
/// fresh manager, whatever they returned.
proof fn lemma_state_after_calls(states: Seq<SocketMgr>, results: Seq<Result<u32>>, i: int)
    requires
        states.len() == results.len() + 1,
        states[0].is_fresh(),
        forall|j: int|
            0 <= j < results.len() ==> SocketMgr::add_step(
                states[j],
                #[trigger] states[j + 1],
                results[j],
            ),
        0 <= i < states.len(),
    ensures
        states[i].max_clients() == MAX_CLIENT,
        states[i].free_ids() == Seq::<u32>::empty(),
        states[i].next_index() == if i < MAX_CLIENT {
            i
        } else {
            MAX_CLIENT as int
        },
    decreases i,
{
    if i > 0 {
        lemma_state_after_calls(states, results, i - 1);
        assert(SocketMgr::add_step(states[i - 1], states[i - 1 + 1], results[i - 1]));
    }
}

/// From a fresh manager, the `k`-th call of `add_connection` returns `k` for
/// the first 1000 calls, and `SYSTEM_ERROR` for every later one: exactly the
/// first 1000 allocations succeed, with the ids 1 to 1000 in order.
pub proof fn lemma_first_allocations(states: Seq<SocketMgr>, results: Seq<Result<u32>>)
    requires
        states.len() == results.len() + 1,
        states[0].is_fresh(),
        forall|j: int|
            0 <= j < results.len() ==> SocketMgr::add_step(
                states[j],
                #[trigger] states[j + 1],
                results[j],
            ),
    ensures
        forall|k: int|
            0 <= k < results.len() ==> #[trigger] results[k] == if k < MAX_CLIENT {
                Ok::<u32, Error>((k + 1) as u32)
            } else {
                Err::<u32, Error>(Error::ErrorCode(SYSTEM_ERROR))
            },
{
    assert forall|k: int| 0 <= k < results.len() implies #[trigger] results[k] == if k
        < MAX_CLIENT {
        Ok::<u32, Error>((k + 1) as u32)
    } else {
        Err::<u32, Error>(Error::ErrorCode(SYSTEM_ERROR))
    } by {
        lemma_state_after_calls(states, results, k);
        assert(SocketMgr::add_step(states[k], states[k + 1], results[k]));
    }
}

/// No two live connections carry the same id.
pub proof fn lemma_connection_ids_distinct(m: SocketMgr, a: u32, b: u32)
    requires
        m.wf(),
        m.connections().contains_key(a),
        m.connections().contains_key(b),
        a != b,
    ensures
        m.connections()[a].id != m.connections()[b].id,
{
}

} // verus!
