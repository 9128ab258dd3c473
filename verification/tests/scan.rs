use splitkb::protocol::KeyEvent;
use splitkb::scan::{debounce, new_debouncer, COLS, DEBOUNCE_SCANS, ROWS, SCAN_PERIOD_US};

fn released() -> [[bool; 9]; 6] {
    [[false; 9]; 6]
}

#[test]
fn matrix_and_timing_constants() {
    assert_eq!(ROWS, 6);
    assert_eq!(COLS, 9);
    assert_eq!(DEBOUNCE_SCANS, 10);
    assert_eq!(SCAN_PERIOD_US, 500);
}

#[test]
fn debounce_nothing_pressed_gives_no_event() {
    let mut d = new_debouncer();
    for _ in 0..30 {
        assert!(debounce(&mut d, released()).is_empty());
    }
}

#[test]
fn debounce_press_is_validated_after_the_bounce_limit() {
    let mut d = new_debouncer();
    let mut keys = released();
    keys[0][1] = true;
    for _ in 0..DEBOUNCE_SCANS {
        assert!(debounce(&mut d, keys).is_empty());
    }
    assert_eq!(debounce(&mut d, keys), vec![KeyEvent::Press(0, 1)]);
    // stable afterwards
    assert!(debounce(&mut d, keys).is_empty());
    for _ in 0..DEBOUNCE_SCANS {
        assert!(debounce(&mut d, released()).is_empty());
    }
    assert_eq!(debounce(&mut d, released()), vec![KeyEvent::Release(0, 1)]);
}

#[test]
fn debounce_bounce_restarts_the_count() {
    let mut d = new_debouncer();
    let mut keys = released();
    keys[2][3] = true;
    for _ in 0..5 {
        assert!(debounce(&mut d, keys).is_empty());
    }
    // back to the stable state: the count restarts
    assert!(debounce(&mut d, released()).is_empty());
    for _ in 0..DEBOUNCE_SCANS {
        assert!(debounce(&mut d, keys).is_empty());
    }
    assert_eq!(debounce(&mut d, keys), vec![KeyEvent::Press(2, 3)]);
}

#[test]
fn debounce_reports_changed_keys_in_row_major_order() {
    let mut d = new_debouncer();
    let mut first = released();
    first[5][8] = true;
    first[0][0] = true;
    first[3][2] = true;
    for _ in 0..=DEBOUNCE_SCANS {
        debounce(&mut d, first);
    }
    let mut second = first;
    second[0][0] = false;
    second[3][4] = true;
    second[5][8] = false;
    let mut events = Vec::new();
    for _ in 0..=DEBOUNCE_SCANS {
        events.extend(debounce(&mut d, second));
    }
    assert_eq!(
        events,
        vec![KeyEvent::Release(0, 0), KeyEvent::Press(3, 4), KeyEvent::Release(5, 8)]
    );
}
