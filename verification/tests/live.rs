//! Exercises the dispatcher against the real collaborators: a
//! mpmc_map registry and tokio bounded channels.

use mpmc_map::MpmcMap;
use outbound::address::PeerAddress;
use outbound::message::Direction;
use outbound::message::Message;
use outbound::message::Payload;
use outbound::outbound::Outbound;
use outbound::outcome::SendOutcome;

type Channels = MpmcMap<PeerAddress, tokio::sync::mpsc::Sender<Message>>;

fn runtime() -> tokio::runtime::Runtime {
    tokio::runtime::Builder::new_current_thread()
        .build()
        .expect("runtime")
}

fn tagged(a: PeerAddress, tag: u64) -> Message {
    Message::new(Direction::Outbound(a), Payload::Ping(tag))
}

#[test]
fn live_unknown_peer_is_disconnected() {
    let rt = runtime();
    rt.block_on(async {
        let channels: Channels = MpmcMap::new();
        let out = Outbound::new(channels);
        let a = PeerAddress::new(9, 9);
        let m = tagged(a, 7);
        match out.send_request(m.clone()) {
            SendOutcome::PeerDisconnected(back) => assert_eq!(back, m),
            _ => panic!("a peer missing from the channel map must be PeerDisconnected"),
        }
        assert_eq!(out.success_count(), 0);
        assert_eq!(out.failure_count(), 0);
    });
}

#[test]
fn live_full_channel_returns_the_message() {
    let rt = runtime();
    rt.block_on(async {
        let channels: Channels = MpmcMap::new();
        let a = PeerAddress::new(1, 4130);
        let (tx, mut rx) = tokio::sync::mpsc::channel::<Message>(2);
        channels.insert(a, tx).await;
        let out = Outbound::new(channels);
        assert!(matches!(out.send_request(tagged(a, 1)), SendOutcome::Enqueued));
        assert!(matches!(out.send_request(tagged(a, 2)), SendOutcome::Enqueued));
        match out.send_request(tagged(a, 3)) {
            SendOutcome::QueueFull(back) => assert_eq!(back, tagged(a, 3)),
            _ => panic!("the message over capacity must come back as QueueFull"),
        }
        // FIFO through the real channel
        assert_eq!(rx.recv().await, Some(tagged(a, 1)));
        assert_eq!(rx.recv().await, Some(tagged(a, 2)));
    });
}

#[test]
fn live_closed_channel_is_flagged() {
    let rt = runtime();
    rt.block_on(async {
        let channels: Channels = MpmcMap::new();
        let a = PeerAddress::new(2, 4130);
        let (tx, rx) = tokio::sync::mpsc::channel::<Message>(2);
        channels.insert(a, tx).await;
        drop(rx);
        let out = Outbound::new(channels);
        match out.send_request(tagged(a, 1)) {
            SendOutcome::QueueClosed(back) => assert_eq!(back, tagged(a, 1)),
            _ => panic!("a channel whose consumer is gone must be QueueClosed"),
        }
    });
}

#[test]
fn live_ping_without_sync_carries_height_zero() {
    let rt = runtime();
    rt.block_on(async {
        let channels: Channels = MpmcMap::new();
        let a = PeerAddress::new(3, 4130);
        let (tx, mut rx) = tokio::sync::mpsc::channel::<Message>(4);
        channels.insert(a, tx).await;
        let out = Outbound::new(channels);
        assert!(matches!(out.send_ping(a, None), SendOutcome::Enqueued));
        assert!(matches!(out.send_ping(a, Some(42)), SendOutcome::Enqueued));
        let first = rx.recv().await.unwrap();
        assert_eq!(first.payload, Payload::Ping(0));
        assert_eq!(first.direction, Direction::Outbound(a));
        assert_eq!(rx.recv().await.unwrap().payload, Payload::Ping(42));
    });
}

#[test]
fn live_backlogged_peer_drains_to_four_successes() {
    let rt = runtime();
    rt.block_on(async {
        let channels: Channels = MpmcMap::new();
        let peer = PeerAddress::new(4, 4130);
        let (tx, mut rx) = tokio::sync::mpsc::channel::<Message>(4);
        channels.insert(peer, tx).await;
        let out = Outbound::new(channels);
        let mut enqueued = 0;
        let mut dropped = 0;
        for t in 0..5u64 {
            match out.send_request(tagged(peer, t)) {
                SendOutcome::Enqueued => enqueued += 1,
                SendOutcome::QueueFull(_) => dropped += 1,
                _ => panic!("only Enqueued or QueueFull can happen here"),
            }
        }
        assert_eq!(enqueued, 4);
        assert_eq!(dropped, 1);
        // the writer drains all four and every write succeeds
        for t in 0..4u64 {
            let m = rx.recv().await.unwrap();
            assert_eq!(m, tagged(peer, t));
            out.record_write_outcome(true);
        }
        assert_eq!(out.success_count(), 4);
        assert_eq!(out.failure_count(), 0);
    });
}
