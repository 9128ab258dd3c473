//! The scan step: debouncing the key matrix, and what each half does with
//! the debounced events.
//!
//! The half plugged into USB (the left one) hands its events to the local
//! layout; the other half relays them over the serial link as frames.

use vstd::prelude::*;
use keyberon::debounce::Debouncer;
use keyberon::layout::Event;
use crate::protocol::KeyEvent;

verus! {

/// Number of rows of the key matrix of one half.
pub const ROWS: usize = 6;
/// Number of columns of the key matrix of one half.
pub const COLS: usize = 9;
/// Number of consecutive identical scans that validate a new key state.
pub const DEBOUNCE_SCANS: u16 = 10;
/// Period of the matrix scan, in microseconds.
pub const SCAN_PERIOD_US: u32 = 500;

#[verifier::external_type_specification]
#[verifier::external_body]
#[verifier::reject_recursive_types(T)]
pub struct ExDebouncer<T>(Debouncer<T>);

/// The key matrix as rows of columns.
pub open spec fn matrix_view(keys: [[bool; 9]; 6]) -> Seq<Seq<bool>> {
    keys@.map_values(|r: [bool; 9]| r@)
}

/// The stable key state that a debouncer holds (its current state).
pub uninterp spec fn debounced_keys(d: Debouncer<[[bool; 9]; 6]>) -> Seq<Seq<bool>>;

/// The number of bouncing scans that a debouncer was made to filter.
pub uninterp spec fn bounce_limit(d: Debouncer<[[bool; 9]; 6]>) -> u16;

/// The state that a debouncer is counting scans of: the last scan that
/// differed from its stable state (its `new` state).
pub uninterp spec fn debounce_candidate(d: Debouncer<[[bool; 9]; 6]>) -> Seq<Seq<bool>>;

/// The number of consecutive scans equal to the candidate state that the
/// debouncer has counted (its `since` count).
pub uninterp spec fn debounce_count(d: Debouncer<[[bool; 9]; 6]>) -> u16;

/// The count that a scan brings the debouncer to when it differs from the
/// stable state: one more if it repeats the candidate, else one.
pub open spec fn next_count(d: Debouncer<[[bool; 9]; 6]>, keys: Seq<Seq<bool>>) -> int {
    if debounce_candidate(d) == keys {
        debounce_count(d) + 1
    } else {
        1
    }
}

/// One scan `keys` takes the debouncer from `was` to `now` and reports
/// `events`: a scan equal to the stable state resets the count; a scan that
/// brings the count past the bounce limit becomes the stable state (the old
/// stable state becomes the candidate, the count restarts) and reports every
/// key that changed; any other scan becomes the candidate and is counted.
pub open spec fn debounce_step(
    was: Debouncer<[[bool; 9]; 6]>,
    now: Debouncer<[[bool; 9]; 6]>,
    keys: Seq<Seq<bool>>,
    events: Seq<KeyEvent>,
) -> bool {
    &&& bounce_limit(now) == bounce_limit(was)
    &&& if keys == debounced_keys(was) {
        &&& debounced_keys(now) == debounced_keys(was)
        &&& debounce_candidate(now) == debounce_candidate(was)
        &&& debounce_count(now) == 0
        &&& events.len() == 0
    } else if next_count(was, keys) > bounce_limit(was) {
        &&& debounced_keys(now) == keys
        &&& debounce_candidate(now) == debounced_keys(was)
        &&& debounce_count(now) == 0
        &&& events == transitions(debounced_keys(was), keys)
    } else {
        &&& debounced_keys(now) == debounced_keys(was)
        &&& debounce_candidate(now) == keys
        &&& debounce_count(now) == next_count(was, keys)
        &&& events.len() == 0
    }
}

/// The event of one key going from `was` to `now`, if it changed.
pub open spec fn cell_transition(row: int, col: int, was: bool, now: bool) -> Seq<KeyEvent> {
    if !was && now {
        seq![KeyEvent::Press(row as u8, col as u8)]
    } else if was && !now {
        seq![KeyEvent::Release(row as u8, col as u8)]
    } else {
        seq![]
    }
}

/// The events of the first `n` keys of a row, in column order.
pub open spec fn row_transitions(row: int, was: Seq<bool>, now: Seq<bool>, n: int) -> Seq<KeyEvent>
    decreases n,
{
    if n <= 0 {
        seq![]
    } else {
        row_transitions(row, was, now, n - 1) + cell_transition(row, n - 1, was[n - 1], now[n - 1])
    }
}

/// The events of the first `m` rows, row by row.
pub open spec fn rows_transitions(was: Seq<Seq<bool>>, now: Seq<Seq<bool>>, m: int) -> Seq<KeyEvent>
    decreases m,
{
    if m <= 0 {
        seq![]
    } else {
        rows_transitions(was, now, m - 1) + row_transitions(m - 1, was[m - 1], now[m - 1], now[m - 1].len() as int)
    }
}

/// Every key that differs between two matrix states, as a press where it is
/// now down and a release where it is now up, in row-major order.
pub open spec fn transitions(was: Seq<Seq<bool>>, now: Seq<Seq<bool>>) -> Seq<KeyEvent> {
    rows_transitions(was, now, now.len() as int)
}

/// Creates a debouncer with the given initial state.
///
/// Calls `Debouncer::new` of keyberon. Claims that the debouncer holds `cur`
/// as its stable state and `new` as its candidate, has counted no scan, and
/// was made with the given bounce limit.
#[verifier::external_body]
fn debouncer_new(cur: [[bool; 9]; 6], new: [[bool; 9]; 6], nb_bounce: u16) -> (d: Debouncer<[[bool; 9]; 6]>)
    ensures
        debounced_keys(d) == matrix_view(cur),
        debounce_candidate(d) == matrix_view(new),
        debounce_count(d) == 0,
        bounce_limit(d) == nb_bounce,
{
    Debouncer::new(cur, new, nb_bounce)
}

/// Feeds one scan of the matrix to the debouncer and collects its events.
///
/// Calls `Debouncer::events` of keyberon, which first runs `update` and then,
/// where the update validated the scan, lists the keys that differ between
/// the old stable state and the scan, each as `Press` where now down and
/// `Release` where now up, row by row and column by column. Claims
/// `debounce_step` of the debouncer before and after, as `update` reads. The
/// count stays below `u16::MAX` so that adding one to it does not overflow.
#[verifier::external_body]
fn debouncer_events(d: &mut Debouncer<[[bool; 9]; 6]>, keys: [[bool; 9]; 6]) -> (events: Vec<KeyEvent>)
    requires
        debounce_count(*old(d)) < u16::MAX,
    ensures
        debounce_step(*old(d), *final(d), matrix_view(keys), events@),
{
    let mut out = Vec::new();
    for e in d.events(keys) {
        out.push(
            match e {
                Event::Press(i, j) => KeyEvent::Press(i, j),
                Event::Release(i, j) => KeyEvent::Release(i, j),
            },
        );
    }
    out
}

/// Position of an event's key in row-major order.
pub open spec fn key_position(e: KeyEvent) -> int {
    e.row() * 9 + e.col()
}

/// What holds of each event of a scan, against the old and new key states.
pub open spec fn valid_transition(e: KeyEvent, was: Seq<Seq<bool>>, now: Seq<Seq<bool>>) -> bool {
    &&& e.row() < 6
    &&& e.col() < 9
    &&& (e is Press) == now[e.row() as int][e.col() as int]
    &&& was[e.row() as int][e.col() as int] != now[e.row() as int][e.col() as int]
}

proof fn lemma_row_transitions(row: int, was: Seq<bool>, now: Seq<bool>, n: int)
    requires
        0 <= row < 6,
        0 <= n <= 9,
        was.len() == 9,
        now.len() == 9,
    ensures
        forall|k: int|
            0 <= k < row_transitions(row, was, now, n).len() ==> {
                let e = #[trigger] row_transitions(row, was, now, n)[k];
                &&& e.row() == row
                &&& e.col() < n
                &&& (e is Press) == now[e.col() as int]
                &&& was[e.col() as int] != now[e.col() as int]
            },
        forall|k1: int, k2: int|
            0 <= k1 < k2 < row_transitions(row, was, now, n).len() ==> #[trigger] row_transitions(
                row,
                was,
                now,
                n,
            )[k1].col() < #[trigger] row_transitions(row, was, now, n)[k2].col(),
    decreases n,
{
    if n > 0 {
        lemma_row_transitions(row, was, now, n - 1);
        let prev = row_transitions(row, was, now, n - 1);
        let cell = cell_transition(row, n - 1, was[n - 1], now[n - 1]);
        assert(row_transitions(row, was, now, n) == prev + cell);
        assert forall|k: int| 0 <= k < cell.len() implies {
            let e = #[trigger] cell[k];
            &&& e.row() == row
            &&& e.col() == n - 1
        } by {}
    }
}

proof fn lemma_rows_transitions(was: Seq<Seq<bool>>, now: Seq<Seq<bool>>, m: int)
    requires
        0 <= m <= 6,
        was.len() == 6,
        now.len() == 6,
        forall|i: int| 0 <= i < 6 ==> (#[trigger] was[i]).len() == 9 && now[i].len() == 9,
    ensures
        forall|k: int|
            0 <= k < rows_transitions(was, now, m).len() ==> {
                let e = #[trigger] rows_transitions(was, now, m)[k];
                valid_transition(e, was, now) && e.row() < m
            },
        forall|k1: int, k2: int|
            0 <= k1 < k2 < rows_transitions(was, now, m).len() ==> key_position(
                #[trigger] rows_transitions(was, now, m)[k1],
            ) < key_position(#[trigger] rows_transitions(was, now, m)[k2]),
    decreases m,
{
    if m > 0 {
        lemma_rows_transitions(was, now, m - 1);
        lemma_row_transitions(m - 1, was[m - 1], now[m - 1], 9);
        let prev = rows_transitions(was, now, m - 1);
        let row = row_transitions(m - 1, was[m - 1], now[m - 1], 9);
        assert(rows_transitions(was, now, m) == prev + row);
        let all = prev + row;
        assert forall|k: int| 0 <= k < all.len() implies {
            let e = #[trigger] all[k];
            valid_transition(e, was, now) && e.row() < m
        } by {
            if k >= prev.len() {
                assert(all[k] == row[k - prev.len()]);
            }
        }
        assert forall|k1: int, k2: int| 0 <= k1 < k2 < all.len() implies key_position(
            #[trigger] all[k1],
        ) < key_position(#[trigger] all[k2]) by {
            if k2 < prev.len() {
            } else if k1 < prev.len() {
                assert(all[k2] == row[k2 - prev.len()]);
            } else {
                assert(all[k1] == row[k1 - prev.len()]);
                assert(all[k2] == row[k2 - prev.len()]);
            }
        }
    }
}

/// The events of a change of key state lie within the matrix, press exactly
/// the keys now down, release exactly those now up, name only keys that
/// changed, and come in row-major order, so that no key comes twice.
pub proof fn lemma_transitions(was: Seq<Seq<bool>>, now: Seq<Seq<bool>>)
    requires
        was.len() == 6,
        now.len() == 6,
        forall|i: int| 0 <= i < 6 ==> (#[trigger] was[i]).len() == 9 && now[i].len() == 9,
    ensures
        forall|k: int|
            0 <= k < transitions(was, now).len() ==> valid_transition(
                #[trigger] transitions(was, now)[k],
                was,
                now,
            ),
        forall|k1: int, k2: int|
            0 <= k1 < k2 < transitions(was, now).len() ==> key_position(
                #[trigger] transitions(was, now)[k1],
            ) < key_position(#[trigger] transitions(was, now)[k2]),
{
    lemma_rows_transitions(was, now, 6);
}

/// A matrix state of six rows of nine keys.
pub open spec fn matrix_shaped(m: Seq<Seq<bool>>) -> bool {
    &&& m.len() == 6
    &&& forall|i: int| 0 <= i < 6 ==> (#[trigger] m[i]).len() == 9
}

/// A debouncer whose states have the shape of the matrix, whose count has
/// not passed its bounce limit, and whose limit leaves room for the count to
/// grow by one.
pub open spec fn debouncer_ready(d: Debouncer<[[bool; 9]; 6]>) -> bool {
    &&& bounce_limit(d) < u16::MAX
    &&& debounce_count(d) <= bounce_limit(d)
    &&& matrix_shaped(debounced_keys(d))
    &&& matrix_shaped(debounce_candidate(d))
}

/// A matrix with no key down.
pub open spec fn released_matrix() -> Seq<Seq<bool>> {
    Seq::new(6, |i: int| Seq::new(9, |j: int| false))
}

/// The debouncer of one half: no key down, and a new state validated after
/// `DEBOUNCE_SCANS` bouncing scans.
pub fn new_debouncer() -> (d: Debouncer<[[bool; 9]; 6]>)
    ensures
        debouncer_ready(d),
        debounced_keys(d) == released_matrix(),
        debounce_candidate(d) == released_matrix(),
        debounce_count(d) == 0,
        bounce_limit(d) == DEBOUNCE_SCANS,
{
    let row: [bool; 9] = [false, false, false, false, false, false, false, false, false];
    let cur: [[bool; 9]; 6] = [row, row, row, row, row, row];
    let new: [[bool; 9]; 6] = [row, row, row, row, row, row];
    let d = debouncer_new(cur, new, DEBOUNCE_SCANS);
    assert(matrix_view(cur) =~= released_matrix()) by {
        assert(row@ =~= Seq::new(9, |j: int| false));
    }
    assert(matrix_view(new) =~= released_matrix()) by {
        assert(row@ =~= Seq::new(9, |j: int| false));
    }
    d
}

/// Feeds one scan of the key matrix to the debouncer and returns the
/// debounced events: a scan is validated, and becomes the stable state, once
/// it has been seen on more consecutive scans than the bounce limit; then one
/// event comes per key that changed, in row-major order; else none.
pub fn debounce(debouncer: &mut Debouncer<[[bool; 9]; 6]>, keys: [[bool; 9]; 6]) -> (events: Vec<KeyEvent>)
    requires
        debouncer_ready(*old(debouncer)),
    ensures
        debouncer_ready(*final(debouncer)),
        debounce_step(*old(debouncer), *final(debouncer), matrix_view(keys), events@),
        forall|k: int|
            0 <= k < events@.len() ==> valid_transition(
                #[trigger] events@[k],
                debounced_keys(*old(debouncer)),
                matrix_view(keys),
            ),
        forall|k1: int, k2: int|
            0 <= k1 < k2 < events@.len() ==> key_position(#[trigger] events@[k1]) < key_position(
                #[trigger] events@[k2],
            ),
{
    let events = debouncer_events(debouncer, keys);
    proof {
        let now = matrix_view(keys);
        assert forall|i: int| 0 <= i < 6 implies (#[trigger] now[i]).len() == 9 by {
            assert(now[i] == keys@[i]@);
        }
        lemma_transitions(debounced_keys(*old(debouncer)), now);
        assert(now.len() == 6);
        assert(matrix_shaped(now));
    }
    events
}

} // verus!
