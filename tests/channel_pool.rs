use oc_worker::channel_pool::{recv_msg, send_msg, try_recv_msg, ChannelPool, RecvPoll, THREAD_COUNT};

#[test]
fn channel_fifo_order() {
    let mut pool: ChannelPool<u32> = ChannelPool::new();
    for k in 0..5u32 {
        send_msg(&mut pool, 3, k);
    }
    for k in 0..5u32 {
        assert_eq!(try_recv_msg(&mut pool, 3), Some(k));
    }
    assert_eq!(try_recv_msg(&mut pool, 3), None);
}

#[test]
fn channels_are_independent() {
    let mut pool: ChannelPool<&str> = ChannelPool::new();
    pool.send(1, "a");
    pool.send(2, "b");
    pool.send(1, "c");
    assert_eq!(pool.try_recv(2), Some("b"));
    assert_eq!(pool.try_recv(1), Some("a"));
    assert_eq!(pool.try_recv(1), Some("c"));
    assert_eq!(pool.try_recv(0), None);
    assert_eq!(THREAD_COUNT, 10);
}

#[test]
fn poll_on_empty_returns_nothing() {
    let mut pool: ChannelPool<u8> = ChannelPool::new();
    assert_eq!(try_recv_msg(&mut pool, 0), None);
    assert_eq!(try_recv_msg(&mut pool, THREAD_COUNT - 1), None);
}

#[test]
fn suspended_receive_resumes_on_next_enqueue() {
    let mut pool: ChannelPool<u8> = ChannelPool::new();
    assert!(matches!(recv_msg(&mut pool, 4), RecvPoll::Pending));
    // an enqueue on another channel wakes nothing
    assert!(!send_msg(&mut pool, 5, 1));
    // the next enqueue on the channel wakes the receiver, once
    assert!(send_msg(&mut pool, 4, 7));
    assert!(!send_msg(&mut pool, 4, 8));
    assert!(matches!(recv_msg(&mut pool, 4), RecvPoll::Ready(7)));
    assert!(matches!(recv_msg(&mut pool, 4), RecvPoll::Ready(8)));
}

#[test]
fn ready_receive_does_not_suspend() {
    let mut pool: ChannelPool<u8> = ChannelPool::new();
    send_msg(&mut pool, 2, 9);
    assert!(matches!(recv_msg(&mut pool, 2), RecvPoll::Ready(9)));
    assert!(!send_msg(&mut pool, 2, 10));
}
