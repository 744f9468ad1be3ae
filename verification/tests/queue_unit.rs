use outbound::address::PeerAddress;
use outbound::message::Direction;
use outbound::message::Message;
use outbound::message::Payload;
use outbound::outcome::EnqueueStatus;
use outbound::queue::OutboundQueue;

fn note(tag: u64) -> Message {
    Message::new(
        Direction::Outbound(PeerAddress::new(1, 1)),
        Payload::Ping(tag),
    )
}

#[test]
fn queue_accepts_up_to_capacity_then_refuses() {
    let mut q = OutboundQueue::new(2);
    assert_eq!(q.queue_capacity(), 2);
    assert!(matches!(q.try_enqueue(note(1)), EnqueueStatus::Enqueued));
    assert!(matches!(q.try_enqueue(note(2)), EnqueueStatus::Enqueued));
    match q.try_enqueue(note(3)) {
        EnqueueStatus::Full(m) => assert_eq!(m, note(3)),
        _ => panic!("the third message must be refused as Full"),
    }
    assert_eq!(q.len(), 2);
}

#[test]
fn queue_dequeues_front_first() {
    let mut q = OutboundQueue::new(4);
    q.try_enqueue(note(1));
    q.try_enqueue(note(2));
    assert_eq!(q.dequeue(), Some(note(1)));
    assert_eq!(q.dequeue(), Some(note(2)));
    assert_eq!(q.dequeue(), None);
}

#[test]
fn closed_queue_refuses_but_keeps_contents() {
    let mut q = OutboundQueue::new(4);
    q.try_enqueue(note(1));
    q.close();
    assert!(q.is_closed());
    match q.try_enqueue(note(2)) {
        EnqueueStatus::Closed(m) => assert_eq!(m, note(2)),
        _ => panic!("a closed queue must refuse with Closed"),
    }
    assert_eq!(q.len(), 1);
    assert_eq!(q.dequeue(), Some(note(1)));
}
