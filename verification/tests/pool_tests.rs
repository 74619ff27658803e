use socket_server::channel_pool::ChannelPool;

#[test]
fn pool_hands_out_each_sender_once() {
    let (mut pool, receivers) = ChannelPool::new(3);
    assert_eq!(receivers.len(), 3);
    assert!(pool.get_channel().is_some());
    assert!(pool.get_channel().is_some());
    assert!(pool.get_channel().is_some());
    assert!(pool.get_channel().is_none());
}

#[test]
fn empty_pool_has_nothing() {
    let (mut pool, receivers) = ChannelPool::new(0);
    assert!(receivers.is_empty());
    assert!(pool.get_channel().is_none());
}

#[test]
fn returned_sender_comes_back_first() {
    let (mut pool, _receivers) = ChannelPool::new(2);
    let a = pool.get_channel().unwrap();
    let b = pool.get_channel().unwrap();
    assert!(!a.same_channel(&b));
    pool.return_channel(a.clone());
    let again = pool.get_channel().unwrap();
    assert!(again.same_channel(&a));
    assert!(pool.get_channel().is_none());
}

#[test]
fn senders_reach_their_receivers() {
    let (mut pool, mut receivers) = ChannelPool::new(1);
    let tx = pool.get_channel().unwrap();
    tx.try_send((0, 7, bytes::BytesMut::new())).unwrap();
    let (code, cmd, data) = receivers[0].try_recv().unwrap();
    assert_eq!((code, cmd), (0, 7));
    assert!(data.is_empty());
}

#[test]
fn pool_senders_pair_with_receivers_by_position() {
    let (mut pool, mut receivers) = ChannelPool::new(3);
    let top = pool.get_channel().unwrap();
    top.try_send((1, 2, bytes::BytesMut::new())).unwrap();
    assert!(receivers[0].try_recv().is_err());
    assert!(receivers[1].try_recv().is_err());
    assert_eq!(receivers[2].try_recv().unwrap().1, 2);
    assert_eq!(top.max_capacity(), 32);
}
