use splitkb::protocol::{
    encode_event, key_code_byte, process_key, KeyEvent, ReceivedAction, ERROR_ID, PRESS_ID, RA,
    RELEASE_ID,
};

#[test]
fn identifiers_are_distinct_high_bytes() {
    assert_eq!(PRESS_ID, 255);
    assert_eq!(RELEASE_ID, 254);
    assert_eq!(ERROR_ID, 253);
}

#[test]
fn key_byte_packs_row_high_and_column_low() {
    assert_eq!(key_code_byte(0, 0), 0);
    assert_eq!(key_code_byte(2, 5), 0b0001_0101);
    assert_eq!(key_code_byte(5, 7), 47);
    assert_eq!(key_code_byte(31, 7), 255);
    // a row of 32 or more loses its high bits
    assert_eq!(key_code_byte(33, 1), 9);
}

#[test]
fn key_byte_column_eight_spills_into_the_row() {
    // the ninth column of a half does not fit in three bits
    assert_eq!(key_code_byte(0, 8), 8);
    assert_eq!(process_key(Some(key_code_byte(0, 8))), (1, 0));
    assert_eq!(key_code_byte(4, 8), key_code_byte(5, 0));
}

#[test]
fn encode_event_writes_identifier_then_key() {
    assert_eq!(encode_event(KeyEvent::Press(3, 3)), (255, 27));
    assert_eq!(encode_event(KeyEvent::Release(2, 5)), (254, 21));
    assert_eq!(encode_event(KeyEvent::Press(5, 7)), (PRESS_ID, 47));
}

#[test]
fn process_key_reads_coordinates() {
    assert_eq!(process_key(Some(27)), (3, 3));
    assert_eq!(process_key(Some(0)), (0, 0));
    assert_eq!(process_key(Some(255)), (31, 7));
    assert_eq!(process_key(None), (255, 255));
}

#[test]
fn default_receiver_is_idle() {
    let ra = RA::default();
    assert!(ra.inner.is_none());
}

#[test]
fn update_sets_the_pending_action() {
    let mut ra = RA::default();
    ra.update(Some(ReceivedAction::Release));
    assert_eq!(ra.inner, Some(ReceivedAction::Release));
    ra.update(None);
    assert_eq!(ra.inner, None);
}

#[test]
fn receive_press_frame() {
    let mut ra = RA::default();
    assert_eq!(ra.receive(Some(PRESS_ID)), None);
    assert_eq!(ra.inner, Some(ReceivedAction::Press));
    assert_eq!(ra.receive(Some(27)), Some(KeyEvent::Press(3, 3)));
    assert_eq!(ra.inner, None);
}

#[test]
fn receive_release_frame() {
    let mut ra = RA::default();
    assert_eq!(ra.receive(Some(RELEASE_ID)), None);
    assert_eq!(ra.inner, Some(ReceivedAction::Release));
    assert_eq!(ra.receive(Some(47)), Some(KeyEvent::Release(5, 7)));
    assert_eq!(ra.inner, None);
}

#[test]
fn receive_ignores_unknown_identifier() {
    let mut ra = RA::default();
    assert_eq!(ra.receive(Some(7)), None);
    assert_eq!(ra.inner, None);
    assert_eq!(ra.receive(Some(ERROR_ID)), None);
    assert_eq!(ra.inner, None);
}

#[test]
fn receive_failed_read_while_idle_stays_idle() {
    let mut ra = RA::default();
    ra.update(None);
    assert_eq!(ra.receive(None), None);
    assert_eq!(ra.inner, None);
}

#[test]
fn receive_failed_read_of_key_gives_error_coordinates() {
    let mut ra = RA::default();
    ra.update(Some(ReceivedAction::Press));
    assert_eq!(ra.receive(None), Some(KeyEvent::Press(255, 255)));
    assert_eq!(ra.inner, None);
}

#[test]
fn receive_while_waiting_takes_any_byte_as_key() {
    let mut ra = RA::default();
    ra.update(Some(ReceivedAction::Release));
    assert_eq!(ra.receive(Some(PRESS_ID)), Some(KeyEvent::Release(31, 7)));
    assert_eq!(ra.inner, None);
}

#[test]
fn frame_round_trip_for_every_packable_coordinate() {
    for row in 0u8..32 {
        for col in 0u8..8 {
            for event in [KeyEvent::Press(row, col), KeyEvent::Release(row, col)] {
                let (ident, key) = encode_event(event);
                let mut ra = RA::default();
                assert_eq!(ra.receive(Some(ident)), None);
                assert_eq!(ra.receive(Some(key)), Some(event));
                assert!(ra.inner.is_none());
            }
        }
    }
}
