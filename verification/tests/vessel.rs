//! Round-trip tests with a live actor: the loop runs on its own thread, and
//! handles talk to it exactly as a host program would.

use data_vessel::DataAction;
use data_vessel::DataVessel;
use data_vessel::Key;
use data_vessel::KeyCacheActor;

fn run_actor_loop(receiver: &std::sync::mpsc::Receiver<DataAction>) {
    let mut actor = KeyCacheActor::new();
    while actor.serve_one(receiver) {}
}

#[test]
fn scenario_set_read_stop() {
    let (sender, receiver) = std::sync::mpsc::channel::<DataAction>();
    let vessel = DataVessel::new(sender);
    let inside = vessel.clone();

    crossbeam_utils::thread::scope(|s| {
        s.spawn(move |_| run_actor_loop(&receiver));

        assert_eq!(inside.get_current_key_guid(), "");
        let accepted = inside.update_current_key(Key {
            key: String::from("abc"),
            guid: String::from("g1"),
            incarnation_id: Some(1),
        });
        assert_eq!(accepted, true);
        assert_eq!(inside.get_current_key_value(), "abc");
        assert_eq!(inside.get_current_key_guid(), "g1");
        assert_eq!(inside.get_current_key_incarnation(), Some(1));

        inside.stop();
    })
    .unwrap();

    // The scope has joined the loop thread: the actor is gone, so every
    // further request degrades to its fail-open fallback.
    assert_eq!(
        vessel.update_current_key(Key {
            key: String::from("late"),
            guid: String::from("g2"),
            incarnation_id: None,
        }),
        false
    );
    assert_eq!(vessel.get_current_key_value(), "");
    vessel.stop();
}

#[test]
fn concurrent_sets_and_gets_never_tear() {
    let (sender, receiver) = std::sync::mpsc::channel::<DataAction>();
    let vessel = DataVessel::new(sender);

    crossbeam_utils::thread::scope(|s| {
        s.spawn(move |_| run_actor_loop(&receiver));

        let mut workers = Vec::new();
        for i in 0..4u32 {
            let handle = vessel.clone();
            workers.push(s.spawn(move |_| {
                for _ in 0..25 {
                    let accepted = handle.update_current_key(Key {
                        key: format!("value-{i}"),
                        guid: format!("guid-{i}"),
                        incarnation_id: Some(i),
                    });
                    assert!(accepted);
                }
            }));
        }
        for _ in 0..4 {
            let handle = vessel.clone();
            workers.push(s.spawn(move |_| {
                for _ in 0..25 {
                    let value = handle.get_current_key_value();
                    assert!(
                        value == ""
                            || value == "value-0"
                            || value == "value-1"
                            || value == "value-2"
                            || value == "value-3"
                    );
                    let guid = handle.get_current_key_guid();
                    assert!(
                        guid == ""
                            || guid == "guid-0"
                            || guid == "guid-1"
                            || guid == "guid-2"
                            || guid == "guid-3"
                    );
                }
            }));
        }
        for w in workers {
            w.join().unwrap();
        }

        vessel.stop();
    })
    .unwrap();
}
