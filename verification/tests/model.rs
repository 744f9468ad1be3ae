use outbound::address::PeerAddress;
use outbound::dispatcher::OutboundCore;
use outbound::message::Direction;
use outbound::message::Message;
use outbound::message::Payload;
use outbound::outcome::SendOutcome;
use outbound::registry::Registry;

fn addr(host: u32, port: u16) -> PeerAddress {
    PeerAddress::new(host, port)
}

fn tagged(a: PeerAddress, tag: u64) -> Message {
    Message::new(Direction::Outbound(a), Payload::Ping(tag))
}

fn core_with(entries: &[(PeerAddress, usize)]) -> OutboundCore {
    let mut registry = Registry::new();
    for (a, capacity) in entries {
        registry.register(*a, *capacity);
    }
    OutboundCore::new(registry)
}

#[test]
fn send_to_unknown_peer_drops_and_counts_nothing() {
    let a = addr(10, 4130);
    let mut core = core_with(&[]);
    let m = tagged(a, 7);
    match core.send(m.clone()) {
        SendOutcome::PeerDisconnected(back) => assert_eq!(back, m),
        _ => panic!("a peer with no registry entry must report PeerDisconnected"),
    }
    assert!(core.registry.get_queue(a).is_none());
    assert_eq!(core.success_count(), 0);
    assert_eq!(core.failure_count(), 0);
}

#[test]
fn send_below_capacity_enqueues_and_is_isolated() {
    let a = addr(1, 1000);
    let b = addr(2, 2000);
    let mut core = core_with(&[(a, 1), (b, 4)]);
    // saturate a's queue
    assert!(matches!(core.send(tagged(a, 0)), SendOutcome::Enqueued));
    assert!(matches!(core.send(tagged(a, 1)), SendOutcome::QueueFull(_)));
    // a full queue at a does not affect dispatch to b
    assert!(matches!(core.send(tagged(b, 2)), SendOutcome::Enqueued));
    assert_eq!(core.registry.get_queue(b).unwrap().len(), 1);
    assert_eq!(core.registry.get_queue(a).unwrap().len(), 1);
}

#[test]
fn full_queue_sheds_newest_and_keeps_length() {
    let a = addr(3, 3000);
    let mut core = core_with(&[(a, 2)]);
    let m1 = tagged(a, 1);
    let m2 = tagged(a, 2);
    let m3 = tagged(a, 3);
    assert!(matches!(core.send(m1.clone()), SendOutcome::Enqueued));
    assert!(matches!(core.send(m2.clone()), SendOutcome::Enqueued));
    match core.send(m3.clone()) {
        SendOutcome::QueueFull(back) => assert_eq!(back, m3),
        _ => panic!("the message over capacity must be shed"),
    }
    let q = core.registry.get_queue(a).unwrap();
    assert_eq!(q.len(), 2);
    assert_eq!(q.messages().as_slice(), &[m1, m2]);
}

#[test]
fn closed_queue_reports_stale_entry() {
    let a = addr(4, 4000);
    let mut core = core_with(&[(a, 2)]);
    let m1 = tagged(a, 1);
    assert!(matches!(core.send(m1), SendOutcome::Enqueued));
    core.registry.close_queue(a);
    let m2 = tagged(a, 2);
    match core.send(m2.clone()) {
        SendOutcome::QueueClosed(back) => assert_eq!(back, m2),
        _ => panic!("a closed queue must report QueueClosed"),
    }
    assert_eq!(core.registry.get_queue(a).unwrap().len(), 1);
}

#[test]
fn writer_delivers_in_enqueue_order() {
    let a = addr(5, 5000);
    let mut core = core_with(&[(a, 8)]);
    let sent: Vec<Message> = (0..5u64).map(|t| tagged(a, t)).collect();
    for m in &sent {
        assert!(matches!(core.send(m.clone()), SendOutcome::Enqueued));
    }
    let mut delivered: Vec<Message> = Vec::new();
    while let Some(m) = core.writer_step(a, true) {
        delivered.push(m);
    }
    assert_eq!(delivered, sent);
    assert!(core.writer_step(a, true).is_none());
}

#[test]
fn counters_track_each_dequeued_message() {
    let a = addr(6, 6000);
    let mut core = core_with(&[(a, 4)]);
    for t in 0..3u64 {
        assert!(matches!(core.send(tagged(a, t)), SendOutcome::Enqueued));
    }
    assert!(core.writer_step(a, true).is_some());
    assert!(core.writer_step(a, false).is_some());
    assert!(core.writer_step(a, true).is_some());
    assert_eq!(core.success_count(), 2);
    assert_eq!(core.failure_count(), 1);
    // every dequeued message was counted exactly once
    assert_eq!(core.success_count() + core.failure_count(), 3);
    // an empty queue moves nothing
    assert!(core.writer_step(a, true).is_none());
    assert_eq!(core.success_count(), 2);
    assert_eq!(core.failure_count(), 1);
}

#[test]
fn ping_without_sync_carries_height_zero() {
    let a = addr(7, 7000);
    let mut core = core_with(&[(a, 2)]);
    assert!(matches!(core.ping(a, None), SendOutcome::Enqueued));
    assert!(matches!(core.ping(a, Some(42)), SendOutcome::Enqueued));
    let q = core.registry.get_queue(a).unwrap();
    assert_eq!(q.messages()[0].payload, Payload::Ping(0));
    assert_eq!(q.messages()[0].direction, Direction::Outbound(a));
    assert_eq!(q.messages()[1].payload, Payload::Ping(42));
}

#[test]
fn backlogged_peer_keeps_four_drops_one_then_drains() {
    let peer = addr(8, 8000);
    let mut core = core_with(&[(peer, 4)]);
    let mut outcomes: Vec<SendOutcome> = Vec::new();
    for t in 0..5u64 {
        outcomes.push(core.send(tagged(peer, t)));
    }
    let enqueued = outcomes
        .iter()
        .filter(|o| matches!(o, SendOutcome::Enqueued))
        .count();
    let dropped = outcomes
        .iter()
        .filter(|o| matches!(o, SendOutcome::QueueFull(_)))
        .count();
    assert_eq!(enqueued, 4);
    assert_eq!(dropped, 1);
    assert_eq!(core.registry.get_queue(peer).unwrap().len(), 4);
    for _ in 0..4 {
        assert!(core.writer_step(peer, true).is_some());
    }
    assert_eq!(core.success_count(), 4);
    assert_eq!(core.failure_count(), 0);
    assert_eq!(core.registry.get_queue(peer).unwrap().len(), 0);
}

#[test]
fn deregistered_peer_is_disconnected_again() {
    let a = addr(9, 9000);
    let mut core = core_with(&[(a, 2)]);
    assert!(matches!(core.send(tagged(a, 1)), SendOutcome::Enqueued));
    core.registry.deregister(a);
    assert!(matches!(
        core.send(tagged(a, 2)),
        SendOutcome::PeerDisconnected(_)
    ));
}

#[test]
fn writer_finishes_only_when_closed_and_drained() {
    let a = addr(11, 1100);
    let mut core = core_with(&[(a, 2)]);
    assert!(!core.writer_finished(a));
    assert!(matches!(core.send(tagged(a, 1)), SendOutcome::Enqueued));
    core.registry.close_queue(a);
    // closed but not yet drained
    assert!(!core.writer_finished(a));
    assert!(core.writer_step(a, true).is_some());
    assert!(core.writer_finished(a));
    // a peer with no entry at all has no writer left to run
    assert!(core.writer_finished(addr(12, 1200)));
}

#[test]
fn reregistering_a_peer_replaces_its_queue() {
    let a = addr(13, 1300);
    let mut core = core_with(&[(a, 2)]);
    assert!(matches!(core.send(tagged(a, 1)), SendOutcome::Enqueued));
    assert_eq!(core.registry.get_queue(a).unwrap().len(), 1);
    // a fresh handshake installs a fresh queue; the old backlog is gone
    core.registry.register(a, 3);
    let q = core.registry.get_queue(a).unwrap();
    assert_eq!(q.len(), 0);
    assert_eq!(q.queue_capacity(), 3);
    assert!(!q.is_closed());
}

#[test]
fn deregistering_an_absent_peer_changes_nothing() {
    let a = addr(14, 1400);
    let b = addr(15, 1500);
    let mut core = core_with(&[(a, 2)]);
    core.registry.deregister(b);
    assert!(core.registry.get_queue(a).is_some());
    assert!(core.registry.get_queue(b).is_none());
}
