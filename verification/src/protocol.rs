//! The serial link between the two halves of the keyboard.
//!
//! The half that is not plugged into USB sends each debounced key event as a
//! frame of two bytes: an identifier byte (`PRESS_ID` or `RELEASE_ID`) and a
//! key byte that packs the row into bits 7..3 and the column into bits 2..0.
//! The other half reads the frame back one byte per interrupt, remembering in
//! an `RA` which kind of event the identifier announced.

use vstd::prelude::*;

verus! {

/// Identifier byte announcing a key press.
pub const PRESS_ID: u8 = 255;
/// Identifier byte announcing a key release.
pub const RELEASE_ID: u8 = 254;
/// Identifier taken in place of a byte that could not be read.
pub const ERROR_ID: u8 = 253;

/// An event on the key matrix, at row `.0` and column `.1`.
#[derive(Clone, Copy, Debug, PartialEq, Eq, Structural)]
pub enum KeyEvent {
    Press(u8, u8),
    Release(u8, u8),
}

impl KeyEvent {
    pub open spec fn row(self) -> u8 {
        match self {
            KeyEvent::Press(i, _) => i,
            KeyEvent::Release(i, _) => i,
        }
    }

    pub open spec fn col(self) -> u8 {
        match self {
            KeyEvent::Press(_, j) => j,
            KeyEvent::Release(_, j) => j,
        }
    }
}

/// The kind of event that an identifier byte announced.
#[derive(Clone, Copy, Debug, PartialEq, Eq, Structural)]
pub enum ReceivedAction {
    Press,
    Release,
}

/// The receiving side of the link: the action announced by the last
/// identifier byte, while its key byte is still to come.
pub struct RA {
    pub inner: Option<ReceivedAction>,
}

/// The key byte of a frame: the row in the five high bits, the column or-ed
/// into the low bits.
pub open spec fn key_byte(row: u8, col: u8) -> u8 {
    (((row % 32) * 8) as u8) | col
}

/// The two bytes sent for an event.
pub open spec fn frame(e: KeyEvent) -> (u8, u8) {
    match e {
        KeyEvent::Press(i, j) => (PRESS_ID, key_byte(i, j)),
        KeyEvent::Release(i, j) => (RELEASE_ID, key_byte(i, j)),
    }
}

/// The coordinates read from a key byte, or `(255, 255)` where no byte could
/// be read.
pub open spec fn decoded_key(read: Option<u8>) -> (u8, u8) {
    match read {
        Some(k) => ((k / 8) as u8, (k % 8) as u8),
        None => (255, 255),
    }
}

/// The action announced by an identifier byte; any other byte, or a failed
/// read, announces nothing.
pub open spec fn ident_action(read: Option<u8>) -> Option<ReceivedAction> {
    match read {
        Some(b) => if b == PRESS_ID {
            Some(ReceivedAction::Press)
        } else if b == RELEASE_ID {
            Some(ReceivedAction::Release)
        } else {
            None
        },
        None => None,
    }
}

pub open spec fn action_event(action: ReceivedAction, coord: (u8, u8)) -> KeyEvent {
    match action {
        ReceivedAction::Press => KeyEvent::Press(coord.0, coord.1),
        ReceivedAction::Release => KeyEvent::Release(coord.0, coord.1),
    }
}

/// One step of the receiver: the state after one read, and the event it
/// completes, if any.
pub open spec fn receive_step(state: Option<ReceivedAction>, read: Option<u8>) -> (Option<ReceivedAction>, Option<KeyEvent>) {
    match state {
        Some(action) => (None, Some(action_event(action, decoded_key(read)))),
        None => (ident_action(read), None),
    }
}

/// Packs a row and a column into a key byte.
pub fn key_code_byte(row: u8, col: u8) -> (k: u8)
    ensures
        k == key_byte(row, col),
        row < 32 && col < 8 ==> k as int == row * 8 + col,
{
    proof {
        lemma_key_byte_packing(row, col);
    }
    assert(((row << 3u8) | col) == ((((row % 32) * 8) as u8) | col)) by (bit_vector);
    (row << 3) | col
}

/// The frame that the sending half writes for an event.
pub fn encode_event(event: KeyEvent) -> (f: (u8, u8))
    ensures
        f == frame(event),
        f.0 == (if event is Press { 255u8 } else { 254u8 }),
        event.row() < 32 && event.col() < 8 ==> f.1 as int == event.row() * 8 + event.col(),
{
    proof {
        lemma_frame_layout(event);
    }
    match event {
        KeyEvent::Press(i, j) => (PRESS_ID, key_code_byte(i, j)),
        KeyEvent::Release(i, j) => (RELEASE_ID, key_code_byte(i, j)),
    }
}

/// The coordinates carried by a key byte; `read` is `None` where the byte
/// could not be read.
pub fn process_key(read: Option<u8>) -> (coord: (u8, u8))
    ensures
        coord == decoded_key(read),
        read is Some ==> coord.0 < 32 && coord.1 < 8,
        read matches Some(k) ==> coord.0 as int == k / 8 && coord.1 as int == k % 8,
        read is None ==> coord == (255u8, 255u8),
{
    match read {
        Some(key) => {
            assert(((key >> 3u8) & 0b0011111u8) == key / 8 && (key & 0b00000111u8) == key % 8)
                by (bit_vector);
            ((key >> 3) & 0b0011111, key & 0b00000111)
        },
        None => (255, 255),
    }
}

impl Default for RA {
    fn default() -> (ra: Self)
        ensures
            ra.inner is None,
    {
        RA { inner: None }
    }
}

impl RA {
    pub fn update(&mut self, action: Option<ReceivedAction>)
        ensures
            final(self).inner == action,
    {
        self.inner = action
    }

    /// Takes one byte from the link (`None` where the read failed) and
    /// returns the event that it completes.
    pub fn receive(&mut self, read: Option<u8>) -> (event: Option<KeyEvent>)
        ensures
            (final(self).inner, event) == receive_step(old(self).inner, read),
    {
        if let Some(action) = self.inner {
            let (x, y) = process_key(read);
            let key = match action {
                ReceivedAction::Press => KeyEvent::Press(x, y),
                ReceivedAction::Release => KeyEvent::Release(x, y),
            };
            self.update(None);
            Some(key)
        } else {
            let ident = match read {
                Some(b) => b,
                None => ERROR_ID,
            };
            if ident == PRESS_ID {
                self.update(Some(ReceivedAction::Press));
            } else if ident == RELEASE_ID {
                self.update(Some(ReceivedAction::Release));
            } else {
                self.update(None);
            }
            None
        }
    }
}

/// A key byte gives back the row and the column that were packed into it,
/// for a row below 32 and a column below 8.
pub proof fn lemma_key_byte_round_trip(row: u8, col: u8)
    requires
        row < 32,
        col < 8,
    ensures
        decoded_key(Some(key_byte(row, col))) == (row, col),
{
    let k = key_byte(row, col);
    assert(((((row % 32) * 8) as u8) | col) / 8 == row && ((((row % 32) * 8) as u8) | col) % 8 == col)
        by (bit_vector)
        requires
            row < 32,
            col < 8,
    ;
}

/// An idle receiver that is handed the two bytes of the frame of an event
/// completes nothing on the first byte, completes that very event on the
/// second, and is idle again; for a row below 32 and a column below 8.
pub proof fn lemma_frame_round_trip(e: KeyEvent)
    requires
        e.row() < 32,
        e.col() < 8,
    ensures
        receive_step(None, Some(frame(e).0)).1 == None::<KeyEvent>,
        receive_step(receive_step(None, Some(frame(e).0)).0, Some(frame(e).1)) == (
        None::<ReceivedAction>,
        Some(e),
        ),
{
    lemma_key_byte_round_trip(e.row(), e.col());
}

/// The receiver waits for at most one key byte: whatever it reads while an
/// action is pending, it completes an event and returns to idle; and it only
/// starts waiting from idle, on an identifier byte.
pub proof fn lemma_receiver_waits_one_byte(state: Option<ReceivedAction>, read: Option<u8>)
    ensures
        state is Some ==> receive_step(state, read).0 is None && receive_step(state, read).1 is Some,
        receive_step(state, read).0 is Some ==> state is None && (read == Some(PRESS_ID) || read
            == Some(RELEASE_ID)),
{
}

/// The key byte holds the row in bits 7..3 and the column in bits 2..0: for a
/// row below 32 and a column below 8 it is `row * 8 + col`.
pub proof fn lemma_key_byte_packing(row: u8, col: u8)
    ensures
        row < 32 && col < 8 ==> key_byte(row, col) as int == row * 8 + col,
{
    if row < 32 && col < 8 {
        assert(((((row % 32) * 8) as u8) | col) as int == row * 8 + col) by (bit_vector)
            requires
                row < 32,
                col < 8,
        ;
    }
}

/// A key byte reads back as its high five bits for the row and its low three
/// bits for the column; a failed read gives row and column 255.
pub proof fn lemma_key_byte_unpacking(read: Option<u8>)
    ensures
        read matches Some(k) ==> decoded_key(read).0 as int == k / 8 && decoded_key(read).1 as int
            == k % 8 && decoded_key(read).0 < 32 && decoded_key(read).1 < 8,
        read is None ==> decoded_key(read) == (255u8, 255u8),
{
}

/// The frame of an event: first 255 for a press or 254 for a release, then
/// the key byte `row * 8 + col` (for a row below 32 and a column below 8).
pub proof fn lemma_frame_layout(e: KeyEvent)
    ensures
        frame(e).0 == (if e is Press { 255u8 } else { 254u8 }),
        frame(e).1 == key_byte(e.row(), e.col()),
        e.row() < 32 && e.col() < 8 ==> frame(e).1 as int == e.row() * 8 + e.col(),
{
    lemma_key_byte_packing(e.row(), e.col());
}

/// An idle receiver never completes an event: whatever it reads, it only
/// arms a press on 255 or a release on 254 and stays idle on anything else.
pub proof fn lemma_idle_receiver_completes_nothing(read: Option<u8>)
    ensures
        receive_step(None, read).1 is None,
        receive_step(None, read).0 == (if read == Some(255u8) {
            Some(ReceivedAction::Press)
        } else if read == Some(254u8) {
            Some(ReceivedAction::Release)
        } else {
            None
        }),
{
}

/// A receiver armed with an action completes exactly one event of that kind
/// from the next byte: row `k / 8` and column `k % 8` of a byte `k`, or row
/// and column 255 for a failed read; and it is idle again.
pub proof fn lemma_armed_receiver_completes(action: ReceivedAction, read: Option<u8>)
    ensures
        receive_step(Some(action), read).0 is None,
        ({
            let (x, y) = match read {
                Some(k) => ((k / 8) as u8, (k % 8) as u8),
                None => (255u8, 255u8),
            };
            receive_step(Some(action), read).1 == Some(
                if action == ReceivedAction::Press {
                    KeyEvent::Press(x, y)
                } else {
                    KeyEvent::Release(x, y)
                },
            )
        }),
{
}

} // verus!
