//! Single-threaded tests: requests are queued first, then the actor is driven
//! one `serve_one` turn at a time, and the replies are read back.

use data_vessel::DataAction;
use data_vessel::DataVessel;
use data_vessel::Key;
use data_vessel::KeyCacheActor;

fn key(value: &str, guid: &str, incarnation_id: Option<u32>) -> Key {
    Key { key: String::from(value), guid: String::from(guid), incarnation_id }
}

#[test]
fn fresh_actor_returns_empty_key() {
    let (tx, rx) = std::sync::mpsc::channel::<DataAction>();
    let mut actor = KeyCacheActor::new();

    let (reply_tx, reply_rx) = std::sync::mpsc::channel::<Key>();
    tx.send(DataAction::KeyKeeperGetKeyValue { response: reply_tx }).unwrap();
    assert!(actor.serve_one(&rx));

    let got = reply_rx.recv().unwrap();
    assert_eq!(got.key, "");
    assert_eq!(got.guid, "");
    assert_eq!(got.incarnation_id, None);
}

#[test]
fn set_then_get_last_write_wins() {
    let (tx, rx) = std::sync::mpsc::channel::<DataAction>();
    let mut actor = KeyCacheActor::new();

    let mut acks = Vec::new();
    for i in 0..3u32 {
        let (reply_tx, reply_rx) = std::sync::mpsc::channel::<bool>();
        let k = key(&format!("value-{i}"), &format!("guid-{i}"), Some(i));
        tx.send(DataAction::KeyKeeperSetKey { key: k, response: reply_tx }).unwrap();
        acks.push(reply_rx);
    }
    let (get_tx, get_rx) = std::sync::mpsc::channel::<Key>();
    tx.send(DataAction::KeyKeeperGetKeyValue { response: get_tx }).unwrap();

    for _ in 0..4 {
        assert!(actor.serve_one(&rx));
    }
    for reply_rx in acks {
        assert_eq!(reply_rx.recv().unwrap(), true);
    }
    let got = get_rx.recv().unwrap();
    assert_eq!(got.key, "value-2");
    assert_eq!(got.guid, "guid-2");
    assert_eq!(got.incarnation_id, Some(2));
}

#[test]
fn set_is_full_replacement() {
    let (tx, rx) = std::sync::mpsc::channel::<DataAction>();
    let mut actor = KeyCacheActor::new();

    let (ack_tx, ack_rx) = std::sync::mpsc::channel::<bool>();
    tx.send(DataAction::KeyKeeperSetKey {
        key: key("abc", "g1", Some(1)),
        response: ack_tx,
    })
    .unwrap();
    let (ack2_tx, ack2_rx) = std::sync::mpsc::channel::<bool>();
    tx.send(DataAction::KeyKeeperSetKey {
        key: key("later", "g2", None),
        response: ack2_tx,
    })
    .unwrap();
    let (get_tx, get_rx) = std::sync::mpsc::channel::<Key>();
    tx.send(DataAction::KeyKeeperGetKeyValue { response: get_tx }).unwrap();

    assert!(actor.serve_one(&rx));
    assert!(actor.serve_one(&rx));
    assert!(actor.serve_one(&rx));

    assert_eq!(ack_rx.recv().unwrap(), true);
    assert_eq!(ack2_rx.recv().unwrap(), true);
    let got = get_rx.recv().unwrap();
    assert_eq!(got.key, "later");
    assert_eq!(got.guid, "g2");
    assert_eq!(got.incarnation_id, None);
}

#[test]
fn stop_answers_earlier_requests_and_drops_later_ones() {
    let (tx, rx) = std::sync::mpsc::channel::<DataAction>();
    let mut actor = KeyCacheActor::new();

    let (ack_tx, ack_rx) = std::sync::mpsc::channel::<bool>();
    tx.send(DataAction::KeyKeeperSetKey {
        key: key("kept", "g1", Some(7)),
        response: ack_tx,
    })
    .unwrap();
    let (get_tx, get_rx) = std::sync::mpsc::channel::<Key>();
    tx.send(DataAction::KeyKeeperGetKeyValue { response: get_tx }).unwrap();
    tx.send(DataAction::Stop).unwrap();
    tx.send(DataAction::Stop).unwrap();
    let (late_tx, late_rx) = std::sync::mpsc::channel::<bool>();
    tx.send(DataAction::KeyKeeperSetKey {
        key: key("lost", "g2", None),
        response: late_tx,
    })
    .unwrap();

    assert!(actor.serve_one(&rx));
    assert!(actor.serve_one(&rx));
    assert!(!actor.serve_one(&rx));

    assert_eq!(ack_rx.recv().unwrap(), true);
    let got = get_rx.recv().unwrap();
    assert_eq!(got.key, "kept");

    drop(rx);
    assert!(late_rx.recv().is_err());
}

#[test]
fn projections_read_their_own_field() {
    assert_eq!(key("abc", "g1", Some(1)).into_value(), "abc");
    assert_eq!(key("abc", "g1", Some(1)).into_guid(), "g1");
    assert_eq!(key("abc", "g1", Some(1)).into_incarnation(), Some(1));
    assert_eq!(Key::empty().into_value(), "");
    assert_eq!(Key::empty().into_guid(), "");
    assert_eq!(Key::empty().into_incarnation(), None);
}

#[test]
fn stopped_vessel_fails_open() {
    let (tx, rx) = std::sync::mpsc::channel::<DataAction>();
    let vessel = DataVessel::new(tx);
    drop(rx);

    assert_eq!(vessel.update_current_key(key("abc", "g1", Some(1))), false);
    assert_eq!(vessel.get_current_key_value(), "");
    assert_eq!(vessel.get_current_key_guid(), "");
    assert_eq!(vessel.get_current_key_incarnation(), None);
    vessel.stop();
    vessel.stop();
}
