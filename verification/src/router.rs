//! Routing of requests to their handlers by command number.
//!
//! Four commands are served. A request for one of them must carry a payload
//! that decodes as the command's argument; its handler then answers with a
//! fixed result. Decoding the payload and encoding the answer are protobuf
//! work done by the caller: routing takes whether the payload decoded.

use crate::constant::error_code::SYSTEM_ERROR;
use crate::error::{Error, Result};
use vstd::prelude::*;

verus! {

broadcast use vstd::string::to_string_from_display_ensures_for_str;

/// The command number of the user information request.
pub const CMD_USER_INFO: u16 = 1001;

/// The command number of a fruit machine play.
pub const CMD_FRUIT_PLAY: u16 = 2001;

/// The command number of a big-or-small play.
pub const CMD_BS_PLAY: u16 = 2002;

/// The command number of a cancellation.
pub const CMD_CANCEL: u16 = 2003;

/// The handler that serves a command.
#[derive(Debug, Clone, Copy, PartialEq, Eq, Structural)]
pub enum Command {
    UserInfo,
    FruitPlay,
    BsPlay,
    Cancel,
}

/// The handler for a command number, if the number is served.
pub open spec fn command_of(cmd: u16) -> Option<Command> {
    if cmd == CMD_USER_INFO {
        Some(Command::UserInfo)
    } else if cmd == CMD_FRUIT_PLAY {
        Some(Command::FruitPlay)
    } else if cmd == CMD_BS_PLAY {
        Some(Command::BsPlay)
    } else if cmd == CMD_CANCEL {
        Some(Command::Cancel)
    } else {
        None
    }
}

/// Exactly four command numbers are served, each by its own handler: 1001
/// user information, 2001 fruit play, 2002 big-or-small play, 2003
/// cancellation. Every other number has no handler, so `command_for` gives
/// `None` for it and `route_message` answers it with `SYSTEM_ERROR`.
pub proof fn lemma_served_commands(cmd: u16)
    ensures
        command_of(cmd) is Some <==> (cmd == 1001 || cmd == 2001 || cmd == 2002 || cmd == 2003),
        cmd == 1001 ==> command_of(cmd) == Some(Command::UserInfo),
        cmd == 2001 ==> command_of(cmd) == Some(Command::FruitPlay),
        cmd == 2002 ==> command_of(cmd) == Some(Command::BsPlay),
        cmd == 2003 ==> command_of(cmd) == Some(Command::Cancel),
{
}

/// The answer to a user information request.
#[derive(Debug, Clone, PartialEq)]
pub struct UserInfoResult {
    pub user_id: u32,
    pub name: String,
    pub balance: i64,
    pub icon: String,
}

/// The answer to a fruit machine play.
#[derive(Debug, Clone, PartialEq)]
pub struct FruitPlayResult {
    pub lights: Vec<u32>,
    pub fruits: Vec<u32>,
    pub odds: u32,
    pub part: Vec<u32>,
    pub win: i64,
    pub balance: i64,
}

/// The answer to a big-or-small play.
#[derive(Debug, Clone, PartialEq)]
pub struct BsPlayResult {
    pub result: u32,
    pub win: i64,
    pub balance: i64,
}

/// The answer to a cancellation.
#[derive(Debug, Clone, PartialEq)]
pub struct CancelResult {
    pub balance: i64,
}

/// The answer of one of the handlers.
#[derive(Debug, Clone, PartialEq)]
pub enum Response {
    UserInfo(UserInfoResult),
    FruitPlay(FruitPlayResult),
    BsPlay(BsPlayResult),
    Cancel(CancelResult),
}

/// The user information answer: user 1, "Player", balance 1000, "icon.png".
pub open spec fn is_user_info_answer(r: UserInfoResult) -> bool {
    &&& r.user_id == 1
    &&& r.name@ == "Player"@
    &&& r.balance == 1000
    &&& r.icon@ == "icon.png"@
}

/// The fruit play answer: lights 0, 1, 2, no fruits, odds 2, no parts,
/// win 500, balance 1500.
pub open spec fn is_fruit_play_answer(r: FruitPlayResult) -> bool {
    &&& r.lights@ == seq![0u32, 1u32, 2u32]
    &&& r.fruits@ == Seq::<u32>::empty()
    &&& r.odds == 2
    &&& r.part@ == Seq::<u32>::empty()
    &&& r.win == 500
    &&& r.balance == 1500
}

/// The big-or-small answer: result 7, win 200, balance 1200.
pub open spec fn is_bs_play_answer(r: BsPlayResult) -> bool {
    &&& r.result == 7
    &&& r.win == 200
    &&& r.balance == 1200
}

/// The cancellation answer: balance 1000.
pub open spec fn is_cancel_answer(r: CancelResult) -> bool {
    r.balance == 1000
}

/// `resp` is the answer of the handler `c`.
pub open spec fn is_answer_of(c: Command, resp: Response) -> bool {
    match c {
        Command::UserInfo => resp matches Response::UserInfo(r) && is_user_info_answer(r),
        Command::FruitPlay => resp matches Response::FruitPlay(r) && is_fruit_play_answer(r),
        Command::BsPlay => resp matches Response::BsPlay(r) && is_bs_play_answer(r),
        Command::Cancel => resp matches Response::Cancel(r) && is_cancel_answer(r),
    }
}

/// Serves the user information request.
pub fn handle_user_info() -> (r: UserInfoResult)
    ensures
        is_user_info_answer(r),
{
    UserInfoResult {
        user_id: 1,
        name: "Player".to_string(),
        balance: 1000,
        icon: "icon.png".to_string(),
    }
}

/// Serves a fruit machine play.
pub fn handle_fruit_play() -> (r: FruitPlayResult)
    ensures
        is_fruit_play_answer(r),
{
    let r = FruitPlayResult {
        lights: vec![0, 1, 2],
        fruits: vec![],
        odds: 2,
        part: vec![],
        win: 500,
        balance: 1500,
    };
    assert(r.lights@ =~= seq![0u32, 1u32, 2u32]);
    assert(r.fruits@ =~= Seq::<u32>::empty());
    assert(r.part@ =~= Seq::<u32>::empty());
    r
}

/// Serves a big-or-small play.
pub fn handle_bs_play() -> (r: BsPlayResult)
    ensures
        is_bs_play_answer(r),
{
    BsPlayResult { result: 7, win: 200, balance: 1200 }
}

/// Serves a cancellation.
pub fn handle_cancel() -> (r: CancelResult)
    ensures
        is_cancel_answer(r),
{
    CancelResult { balance: 1000 }
}

/// The handler that serves `cmd`, so that the caller knows which argument
/// to decode the payload as.
pub fn command_for(cmd: u16) -> (r: Option<Command>)
    ensures
        r == command_of(cmd),
{
    match cmd {
        CMD_USER_INFO => Some(Command::UserInfo),
        CMD_FRUIT_PLAY => Some(Command::FruitPlay),
        CMD_BS_PLAY => Some(Command::BsPlay),
        CMD_CANCEL => Some(Command::Cancel),
        _ => None,
    }
}

/// The answer of handler `c` to a payload that decoded (`arg_valid`), or
/// the decode error to one that did not.
fn serve(c: Command, arg_valid: bool) -> (r: Result<Response>)
    ensures
        arg_valid ==> (r matches Ok(resp) && is_answer_of(c, resp)),
        !arg_valid ==> r == Err::<Response, Error>(Error::Decode),
{
    if !arg_valid {
        return Err(Error::Decode);
    }
    match c {
        Command::UserInfo => Ok(Response::UserInfo(handle_user_info())),
        Command::FruitPlay => Ok(Response::FruitPlay(handle_fruit_play())),
        Command::BsPlay => Ok(Response::BsPlay(handle_bs_play())),
        Command::Cancel => Ok(Response::Cancel(handle_cancel())),
    }
}

/// Routes a request by its command number. An unknown command is answered
/// with `SYSTEM_ERROR` whatever the payload; a known one with the decode
/// error when its payload did not decode as the command's argument
/// (`arg_valid` false), else with its handler's answer.
pub fn route_message(cmd: u16, arg_valid: bool) -> (r: Result<Response>)
    ensures
        match command_of(cmd) {
            Some(c) => if arg_valid {
                r matches Ok(resp) && is_answer_of(c, resp)
            } else {
                r == Err::<Response, Error>(Error::Decode)
            },
            None => r == Err::<Response, Error>(Error::ErrorCode(SYSTEM_ERROR)),
        },
{
    match command_for(cmd) {
        Some(c) => serve(c, arg_valid),
        None => Err(Error::ErrorCode(SYSTEM_ERROR)),
    }
}

} // verus!
