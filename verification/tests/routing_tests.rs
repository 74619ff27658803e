use socket_server::axum_route::Router;
use socket_server::constant::error_code::SYSTEM_ERROR;
use socket_server::error::Error;
use socket_server::handlers;
use socket_server::router::{
    command_for, handle_bs_play, handle_cancel, handle_fruit_play, handle_user_info,
    route_message, Command, Response,
};
use bytes::BytesMut;

#[test]
fn user_info_answer() {
    let r = handle_user_info();
    assert_eq!(r.user_id, 1);
    assert_eq!(r.name, "Player");
    assert_eq!(r.balance, 1000);
    assert_eq!(r.icon, "icon.png");
}

#[test]
fn fruit_play_answer() {
    let r = handle_fruit_play();
    assert_eq!(r.lights, vec![0, 1, 2]);
    assert!(r.fruits.is_empty());
    assert_eq!(r.odds, 2);
    assert!(r.part.is_empty());
    assert_eq!(r.win, 500);
    assert_eq!(r.balance, 1500);
}

#[test]
fn bs_play_answer() {
    let r = handle_bs_play();
    assert_eq!((r.result, r.win, r.balance), (7, 200, 1200));
}

#[test]
fn cancel_answer() {
    assert_eq!(handle_cancel().balance, 1000);
}

#[test]
fn route_message_dispatches() {
    assert_eq!(route_message(1001, true), Ok(Response::UserInfo(handle_user_info())));
    assert_eq!(route_message(2001, true), Ok(Response::FruitPlay(handle_fruit_play())));
    assert_eq!(route_message(2002, true), Ok(Response::BsPlay(handle_bs_play())));
    assert_eq!(route_message(2003, true), Ok(Response::Cancel(handle_cancel())));
}

#[test]
fn route_message_refuses_undecodable_payloads() {
    for cmd in [1001u16, 2001, 2002, 2003] {
        assert_eq!(route_message(cmd, false), Err(Error::Decode));
    }
}

#[test]
fn command_for_names_the_handler() {
    assert_eq!(command_for(1001), Some(Command::UserInfo));
    assert_eq!(command_for(2001), Some(Command::FruitPlay));
    assert_eq!(command_for(2002), Some(Command::BsPlay));
    assert_eq!(command_for(2003), Some(Command::Cancel));
    assert_eq!(command_for(2004), None);
}

#[test]
fn route_message_refuses_unknown_commands() {
    for cmd in [0u16, 1000, 1002, 2000, 2004, u16::MAX] {
        assert_eq!(route_message(cmd, true), Err(Error::ErrorCode(SYSTEM_ERROR)));
        assert_eq!(route_message(cmd, false), Err(Error::ErrorCode(SYSTEM_ERROR)));
    }
}

#[test]
fn router_table_routes() {
    let router = Router::new();
    assert_eq!(router.route(1001), Ok(Command::UserInfo));
    assert_eq!(router.route(2001), Ok(Command::FruitPlay));
    assert_eq!(router.route(2002), Ok(Command::BsPlay));
    assert_eq!(router.route(2003), Ok(Command::Cancel));
    assert_eq!(router.route(1002), Err("Unknown command"));
}

#[test]
fn router_and_route_message_agree() {
    let router = Router::new();
    for cmd in 0..=u16::MAX {
        let by_table = router.route(cmd);
        let by_match = route_message(cmd, true);
        assert_eq!(by_table.is_ok(), by_match.is_ok());
        if let (Ok(c), Ok(resp)) = (by_table, by_match) {
            let matches = match (c, resp) {
                (Command::UserInfo, Response::UserInfo(_)) => true,
                (Command::FruitPlay, Response::FruitPlay(_)) => true,
                (Command::BsPlay, Response::BsPlay(_)) => true,
                (Command::Cancel, Response::Cancel(_)) => true,
                _ => false,
            };
            assert!(matches);
        }
    }
}

#[test]
fn sample_handlers_answer_fixed_text() {
    let a = handlers::handle_user_info(BytesMut::new()).unwrap();
    assert_eq!(&a[..], b"User Info: John Doe");
    let b = handlers::handle_order(BytesMut::from(&b"anything"[..])).unwrap();
    assert_eq!(&b[..], b"Order: #12345");
}
