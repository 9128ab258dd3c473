use splitkb::protocol::{encode_event, KeyEvent, RA};
use splitkb::tasks::{
    left_half_tail, link_probe_actions, local_event_actions, relay_actions, right_half_tail,
    TaskAction,
};

fn probe() -> Vec<TaskAction> {
    vec![
        TaskAction::Spawn(Some(KeyEvent::Press(3, 3))),
        TaskAction::Spawn(Some(KeyEvent::Release(3, 3))),
    ]
}

#[test]
fn link_probe_is_a_press_and_release_of_row_three_column_three() {
    assert_eq!(link_probe_actions(), probe());
}

#[test]
fn local_events_are_spawned_in_order() {
    let events = vec![KeyEvent::Press(1, 2), KeyEvent::Release(4, 8)];
    assert_eq!(
        local_event_actions(&events),
        vec![
            TaskAction::Spawn(Some(KeyEvent::Press(1, 2))),
            TaskAction::Spawn(Some(KeyEvent::Release(4, 8))),
        ]
    );
    assert!(local_event_actions(&Vec::new()).is_empty());
}

#[test]
fn left_tail_probes_only_when_a_byte_waits() {
    let mut with_byte = probe();
    with_byte.push(TaskAction::Spawn(None));
    assert_eq!(left_half_tail(true), with_byte);
    assert_eq!(left_half_tail(false), vec![TaskAction::Spawn(None)]);
}

#[test]
fn relay_writes_the_frame_only_when_writable() {
    let mut expected = probe();
    expected.push(TaskAction::Send(255, 27));
    assert_eq!(relay_actions(KeyEvent::Press(3, 3), true), expected);
    let mut expected = probe();
    expected.push(TaskAction::Send(254, 21));
    assert_eq!(relay_actions(KeyEvent::Release(2, 5), true), expected);
    assert!(relay_actions(KeyEvent::Press(3, 3), false).is_empty());
}

#[test]
fn right_tail_only_ticks() {
    assert_eq!(right_half_tail(), vec![TaskAction::Spawn(None)]);
}

#[test]
fn relayed_frame_is_received_as_the_same_event() {
    let event = KeyEvent::Release(4, 6);
    let mut ra = RA::default();
    let mut received = Vec::new();
    for action in relay_actions(event, true) {
        if let TaskAction::Send(ident, key) = action {
            assert_eq!((ident, key), encode_event(event));
            assert_eq!(ra.receive(Some(ident)), None);
            received.push(ra.receive(Some(key)));
        }
    }
    assert_eq!(received, vec![Some(event)]);
}
