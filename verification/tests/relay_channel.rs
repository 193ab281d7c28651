//! The relay channel: FIFO delivery, one payload per drain invocation, and
//! tolerance of a dropped consumer half.

use bevy_discord::channel::{drain_one, open_channel, send_payload, share_sender};
use bevy_discord::messages::rich_presence::{
    MessageCollectionRichPresence, RichPresenceMessageKind,
};

#[test]
fn drain_on_empty_queue_yields_nothing() {
    let (_tx, rx) = open_channel::<u32>();
    assert!(drain_one(&rx).is_none());
}

#[test]
fn payloads_cross_in_fifo_order() {
    let (tx, rx) = open_channel::<u32>();
    assert!(send_payload(&tx, 1).is_none());
    assert!(send_payload(&tx, 2).is_none());
    assert!(send_payload(&tx, 3).is_none());
    assert_eq!(drain_one(&rx), Some(1));
    assert_eq!(drain_one(&rx), Some(2));
    assert_eq!(drain_one(&rx), Some(3));
    assert_eq!(drain_one(&rx), None);
}

#[test]
fn each_drain_invocation_moves_at_most_one_payload() {
    let (tx, rx) = open_channel::<u32>();
    assert!(send_payload(&tx, 10).is_none());
    assert!(send_payload(&tx, 20).is_none());
    // One invocation takes the oldest payload and leaves the other queued.
    assert_eq!(drain_one(&rx), Some(10));
    assert_eq!(drain_one(&rx), Some(20));
}

#[test]
fn send_after_receiver_dropped_returns_payload_without_panicking() {
    let (tx, rx) = open_channel::<u32>();
    drop(rx);
    // The payload comes back unchanged; nothing panics and work goes on.
    assert_eq!(send_payload(&tx, 7), Some(7));
    assert_eq!(send_payload(&tx, 8), Some(8));
}

#[test]
fn shared_senders_feed_the_same_queue() {
    let (tx, rx) = open_channel::<u32>();
    let tx2 = share_sender(&tx);
    assert!(send_payload(&tx, 1).is_none());
    assert!(send_payload(&tx2, 2).is_none());
    assert_eq!(drain_one(&rx), Some(1));
    assert_eq!(drain_one(&rx), Some(2));
}

#[test]
fn two_payloads_two_drains_arrive_in_emission_order() {
    // A producer emits two presence payloads in quick succession; the drain
    // system runs twice, draining one payload per invocation; the bus sees
    // them in emission order with zero loss.
    let (tx, rx) = open_channel::<MessageCollectionRichPresence>();
    let first = MessageCollectionRichPresence::activity_join("join-secret".to_string());
    let second = MessageCollectionRichPresence::activity_spectate("watch-secret".to_string());
    assert!(send_payload(&tx, first).is_none());
    assert!(send_payload(&tx, second).is_none());

    let got1 = drain_one(&rx).expect("first drain must yield the first payload");
    assert_eq!(got1.kind(), RichPresenceMessageKind::ActivityJoin);
    match got1 {
        MessageCollectionRichPresence::ActivityJoinMessage(m) => {
            assert_eq!(m.secret, "join-secret");
        }
        _ => panic!("first payload drained out of order"),
    }

    let got2 = drain_one(&rx).expect("second drain must yield the second payload");
    assert_eq!(got2.kind(), RichPresenceMessageKind::ActivitySpectate);
    match got2 {
        MessageCollectionRichPresence::ActivitySpectateMessage(m) => {
            assert_eq!(m.secret, "watch-secret");
        }
        _ => panic!("second payload drained out of order"),
    }

    assert!(drain_one(&rx).is_none());
}
