use multi_agent_file_processor::rpc::{CallState, RpcFailure, RpcLayer};

fn dest(name: &str) -> Vec<u8> {
    name.as_bytes().to_vec()
}

#[test]
fn open_call_assigns_consecutive_handles() {
    let mut table = RpcLayer::new();
    assert_eq!(table.open_call(dest("reply.a"), 100), Some(0));
    assert_eq!(table.open_call(dest("reply.b"), 100), Some(1));
    assert_eq!(table.call_count(), 2);
}

#[test]
fn open_call_rejects_reused_destination() {
    let mut table = RpcLayer::new();
    assert_eq!(table.open_call(dest("reply.a"), 100), Some(0));
    assert_eq!(table.open_call(dest("reply.a"), 200), None);
    assert_eq!(table.call_count(), 1);
}

#[test]
fn replies_resolve_their_own_call_regardless_of_order() {
    let mut table = RpcLayer::new();
    let h1 = table.open_call(dest("reply.one"), 100).unwrap();
    let h2 = table.open_call(dest("reply.two"), 100).unwrap();
    let h3 = table.open_call(dest("reply.three"), 100).unwrap();

    // Deliver in reverse order of the calls.
    assert_eq!(table.deliver_reply(&dest("reply.three"), b"3".to_vec()), Some(h3));
    assert_eq!(table.deliver_reply(&dest("reply.one"), b"1".to_vec()), Some(h1));
    assert_eq!(table.deliver_reply(&dest("reply.two"), b"2".to_vec()), Some(h2));

    for (h, expected) in [(h1, b"1"), (h2, b"2"), (h3, b"3")] {
        match table.state_of(h) {
            CallState::Replied(p) => assert_eq!(p.as_slice(), expected),
            other => panic!("call {h} should hold its own reply, found {other:?}"),
        }
    }
}

#[test]
fn stray_reply_is_discarded() {
    let mut table = RpcLayer::new();
    table.open_call(dest("reply.a"), 100).unwrap();
    assert_eq!(table.deliver_reply(&dest("reply.unknown"), b"x".to_vec()), None);
    assert!(matches!(table.state_of(0), CallState::Waiting));
}

#[test]
fn late_reply_is_discarded() {
    let mut table = RpcLayer::new();
    let h = table.open_call(dest("reply.a"), 100).unwrap();
    assert_eq!(table.deliver_reply(&dest("reply.a"), b"first".to_vec()), Some(h));
    // The call is resolved; a second reply to the same destination goes nowhere.
    assert_eq!(table.deliver_reply(&dest("reply.a"), b"second".to_vec()), None);
    match table.state_of(h) {
        CallState::Replied(p) => assert_eq!(p.as_slice(), b"first"),
        other => panic!("resolution must not change, found {other:?}"),
    }
}

#[test]
fn deadline_expiry_resolves_as_timeout() {
    let mut table = RpcLayer::new();
    let h = table.open_call(dest("reply.a"), 100).unwrap();
    assert!(!table.expire(h, 99));
    assert!(matches!(table.state_of(h), CallState::Waiting));
    assert!(table.expire(h, 100));
    match table.conclude(h, "files.list.request", 100) {
        Some(Err(RpcFailure::Timeout { topic, elapsed_ms })) => {
            assert_eq!(topic, "files.list.request");
            assert_eq!(elapsed_ms, 100);
        }
        other => panic!("an expired call must conclude as Timeout, found {other:?}"),
    }
}

#[test]
fn stream_closure_resolves_as_channel_closed() {
    let mut table = RpcLayer::new();
    let h = table.open_call(dest("reply.a"), 100).unwrap();
    assert!(table.close_stream(h));
    match table.conclude(h, "files.list.request", 7) {
        Some(Err(RpcFailure::ChannelClosed)) => {}
        other => panic!("a closed stream must conclude as ChannelClosed, found {other:?}"),
    }
}

#[test]
fn timeout_and_channel_closed_are_distinct() {
    let mut table = RpcLayer::new();
    let timed_out = table.open_call(dest("reply.a"), 100).unwrap();
    let closed = table.open_call(dest("reply.b"), 100).unwrap();
    assert!(table.expire(timed_out, 500));
    assert!(table.close_stream(closed));
    let a = table.conclude(timed_out, "t", 500).unwrap().unwrap_err();
    let b = table.conclude(closed, "t", 500).unwrap().unwrap_err();
    assert!(matches!(a, RpcFailure::Timeout { .. }));
    assert!(matches!(b, RpcFailure::ChannelClosed));
}

#[test]
fn resolved_call_is_never_resolved_again() {
    let mut table = RpcLayer::new();
    let h = table.open_call(dest("reply.a"), 100).unwrap();
    assert_eq!(table.deliver_reply(&dest("reply.a"), b"answer".to_vec()), Some(h));
    assert!(!table.expire(h, 1000));
    assert!(!table.close_stream(h));
    match table.conclude(h, "t", 1000) {
        Some(Ok(p)) => assert_eq!(p.as_slice(), b"answer"),
        other => panic!("the single resolution must stand, found {other:?}"),
    }
}

#[test]
fn waiting_call_has_no_conclusion() {
    let mut table = RpcLayer::new();
    let h = table.open_call(dest("reply.a"), 100).unwrap();
    assert!(table.conclude(h, "t", 0).is_none());
}

#[test]
fn destination_is_kept_for_the_call() {
    let mut table = RpcLayer::new();
    let h = table.open_call(dest("reply.abc"), 100).unwrap();
    assert_eq!(table.destination(h), &dest("reply.abc"));
}
