use socket_server::connection::Connection;
use socket_server::constant::error_code::SYSTEM_ERROR;
use socket_server::error::Error;
use socket_server::socket_events::SocketEvents;
use socket_server::socket_mgr::{Action, SocketMgr, MAX_CLIENT};

fn connection(name: &str) -> Connection {
    let (tx, _rx) = tokio::sync::mpsc::channel(4);
    Connection::new(name.to_string(), tx)
}

#[test]
fn new_connection_has_no_id() {
    let c = connection("token");
    assert_eq!(c.id, 0);
    assert_eq!(c.name, "token");
}

#[test]
fn ids_are_counted_from_one() {
    let mut mgr = SocketMgr::new();
    assert_eq!(mgr.add_connection("a".to_string()), Ok(1));
    assert_eq!(mgr.add_connection("b".to_string()), Ok(2));
    assert_eq!(mgr.add_connection("c".to_string()), Ok(3));
}

#[test]
fn ids_run_out_at_the_limit() {
    let mut mgr = SocketMgr::new();
    for i in 1..=MAX_CLIENT {
        assert_eq!(mgr.add_connection(String::new()), Ok(i));
    }
    assert_eq!(
        mgr.add_connection(String::new()),
        Err(Error::ErrorCode(SYSTEM_ERROR))
    );
    assert_eq!(
        mgr.add_connection(String::new()),
        Err(Error::ErrorCode(SYSTEM_ERROR))
    );
}

#[test]
fn handshake_registers_under_a_fresh_id() {
    let mut mgr = SocketMgr::new();
    let (tx, _rx) = tokio::sync::mpsc::channel(4);
    match mgr.handle_event(SocketEvents::Handshake(tx, connection("first"))) {
        Action::Registered(id) => assert_eq!(id, 1),
        Action::Refuse(..) => panic!("refused"),
    }
    let (tx, _rx) = tokio::sync::mpsc::channel(4);
    match mgr.handle_event(SocketEvents::Handshake(tx, connection("second"))) {
        Action::Registered(id) => assert_eq!(id, 2),
        Action::Refuse(..) => panic!("refused"),
    }
}

#[test]
fn handshake_refused_when_ids_run_out() {
    let mut mgr = SocketMgr::new();
    for _ in 0..MAX_CLIENT {
        let (tx, _rx) = tokio::sync::mpsc::channel(4);
        assert!(matches!(
            mgr.handle_event(SocketEvents::Handshake(tx, connection("x"))),
            Action::Registered(_)
        ));
    }
    let (tx, _rx) = tokio::sync::mpsc::channel(4);
    let conn = connection("late");
    let own_sender = conn.msg_sender.clone();
    match mgr.handle_event(SocketEvents::Handshake(tx, conn)) {
        Action::Refuse(sender, (code, cmd, data)) => {
            assert!(sender.same_channel(&own_sender));
            assert_eq!(code, SYSTEM_ERROR);
            assert_eq!(cmd, 0);
            assert!(data.is_empty());
        }
        Action::Registered(_) => panic!("registered past the limit"),
    }
}
