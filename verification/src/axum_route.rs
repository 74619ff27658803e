//! A routing table from command numbers to handlers, looked up per request.

use crate::router::{command_of, Command, CMD_BS_PLAY, CMD_CANCEL, CMD_FRUIT_PLAY, CMD_USER_INFO};
use std::collections::HashMap;
use vstd::prelude::*;

verus! {

broadcast use vstd::std_specs::hash::group_hash_axioms;

/// The table that `Router::new` builds.
pub open spec fn default_routes() -> Map<u16, Command> {
    map![
        CMD_USER_INFO => Command::UserInfo,
        CMD_FRUIT_PLAY => Command::FruitPlay,
        CMD_BS_PLAY => Command::BsPlay,
        CMD_CANCEL => Command::Cancel,
    ]
}

/// Maps command numbers to the handlers that serve them.
pub struct Router {
    routes: HashMap<u16, Command>,
}

impl Router {
    /// The routing table.
    pub closed spec fn table(&self) -> Map<u16, Command> {
        self.routes@
    }

    /// The router of the four served commands.
    pub fn new() -> (r: Self)
        ensures
            r.table() == default_routes(),
            r.table().dom() == set![1001u16, 2001u16, 2002u16, 2003u16],
            r.table()[1001] == Command::UserInfo,
            r.table()[2001] == Command::FruitPlay,
            r.table()[2002] == Command::BsPlay,
            r.table()[2003] == Command::Cancel,
    {
        let mut routes: HashMap<u16, Command> = HashMap::new();
        routes.insert(CMD_USER_INFO, Command::UserInfo);
        routes.insert(CMD_FRUIT_PLAY, Command::FruitPlay);
        routes.insert(CMD_BS_PLAY, Command::BsPlay);
        routes.insert(CMD_CANCEL, Command::Cancel);
        let r = Self { routes };
        assert(r.table() =~= default_routes());
        r
    }

    /// The handler for `cmd`, or "Unknown command" when the table has none.
    pub fn route(&self, cmd: u16) -> (r: Result<Command, &'static str>)
        ensures
            self.table().contains_key(cmd) ==> r == Ok::<Command, &'static str>(self.table()[cmd]),
            !self.table().contains_key(cmd) ==> (r matches Err(e) && e@ == "Unknown command"@),
    {
        if let Some(handler) = self.routes.get(&cmd) {
            Ok(*handler)
        } else {
            Err("Unknown command")
        }
    }
}

/// The table that `Router::new` builds has exactly the keys 1001, 2001,
/// 2002 and 2003, mapped to user information, fruit play, big-or-small play
/// and cancellation; `route` answers every other number "Unknown command".
pub proof fn lemma_default_routes_keys(cmd: u16)
    ensures
        default_routes().dom() == set![1001u16, 2001u16, 2002u16, 2003u16],
        default_routes().contains_key(cmd) <==> (cmd == 1001 || cmd == 2001 || cmd == 2002 || cmd
            == 2003),
        default_routes()[1001] == Command::UserInfo,
        default_routes()[2001] == Command::FruitPlay,
        default_routes()[2002] == Command::BsPlay,
        default_routes()[2003] == Command::Cancel,
{
    assert(default_routes().dom() =~= set![1001u16, 2001u16, 2002u16, 2003u16]);
}

/// The routing table and the match of `route_message` send every command
/// number to the same handler, and refuse the same numbers.
pub proof fn lemma_routes_agree(cmd: u16)
    ensures
        default_routes().contains_key(cmd) <==> command_of(cmd) is Some,
        default_routes().contains_key(cmd) ==> command_of(cmd) == Some(default_routes()[cmd]),
{
}

} // verus!
