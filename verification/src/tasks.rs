//! What the interrupt tasks do around the serial link, as lists of actions
//! that the firmware performs in order.

use vstd::prelude::*;
#[allow(unused_imports)]
use crate::protocol::{
    KeyEvent, ReceivedAction, encode_event, frame, lemma_frame_round_trip, receive_step,
};

verus! {

/// One action of a task: spawn the layout task with an event (or with none,
/// which makes the layout tick), or write a frame of two bytes on the link.
#[derive(Clone, Copy, Debug, PartialEq, Eq, Structural)]
pub enum TaskAction {
    Spawn(Option<KeyEvent>),
    Send(u8, u8),
}

/// The pair of events spawned whenever the link shows activity: a press and a
/// release of the key at row 3, column 3.
pub open spec fn link_probe() -> Seq<TaskAction> {
    seq![
        TaskAction::Spawn(Some(KeyEvent::Press(3, 3))),
        TaskAction::Spawn(Some(KeyEvent::Release(3, 3))),
    ]
}

/// The actions that mark activity on the link.
pub fn link_probe_actions() -> (actions: Vec<TaskAction>)
    ensures
        actions@ == link_probe(),
{
    let mut actions = Vec::new();
    actions.push(TaskAction::Spawn(Some(KeyEvent::Press(3, 3))));
    actions.push(TaskAction::Spawn(Some(KeyEvent::Release(3, 3))));
    assert(actions@ =~= link_probe());
    actions
}

/// On the half plugged into USB: each debounced event goes to the local
/// layout, in order.
pub fn local_event_actions(events: &Vec<KeyEvent>) -> (actions: Vec<TaskAction>)
    ensures
        actions@ == events@.map_values(|e: KeyEvent| TaskAction::Spawn(Some(e))),
{
    let mut actions = Vec::new();
    let mut i: usize = 0;
    while i < events.len()
        invariant
            i <= events@.len(),
            actions@ == events@.take(i as int).map_values(|e: KeyEvent| TaskAction::Spawn(Some(e))),
        decreases events@.len() - i,
    {
        actions.push(TaskAction::Spawn(Some(events[i])));
        i = i + 1;
        assert(actions@ =~= events@.take(i as int).map_values(|e: KeyEvent| TaskAction::Spawn(Some(e))));
    }
    assert(events@.take(i as int) =~= events@);
    actions
}

/// On the half plugged into USB, once the events are handed on: mark a byte
/// waiting on the link, then make the layout tick.
pub fn left_half_tail(uart_readable: bool) -> (actions: Vec<TaskAction>)
    ensures
        actions@ == (if uart_readable {
            link_probe()
        } else {
            seq![]
        }) + seq![TaskAction::Spawn(None)],
{
    let mut actions = if uart_readable {
        link_probe_actions()
    } else {
        Vec::new()
    };
    actions.push(TaskAction::Spawn(None));
    actions
}

/// The actions of the relaying half for one event.
pub open spec fn relay(event: KeyEvent, uart_writable: bool) -> Seq<TaskAction> {
    if uart_writable {
        link_probe() + seq![TaskAction::Send(frame(event).0, frame(event).1)]
    } else {
        seq![]
    }
}

/// On the other half, for one debounced event: where the link can take
/// bytes, mark the activity and write the frame of the event; else drop it.
pub fn relay_actions(event: KeyEvent, uart_writable: bool) -> (actions: Vec<TaskAction>)
    ensures
        actions@ == relay(event, uart_writable),
        !uart_writable ==> actions@.len() == 0,
        uart_writable ==> actions@.len() == 3 && actions@[2] == TaskAction::Send(
            if event is Press { 255u8 } else { 254u8 },
            frame(event).1,
        ),
        uart_writable && event.row() < 32 && event.col() < 8 ==> actions@[2]->Send_1 as int
            == event.row() * 8 + event.col(),
{
    proof {
        lemma_relay_writes_the_frame(event, uart_writable);
    }
    if uart_writable {
        let mut actions = link_probe_actions();
        let (ident, key) = encode_event(event);
        actions.push(TaskAction::Send(ident, key));
        actions
    } else {
        Vec::new()
    }
}

/// On the other half, once every event is relayed: make the layout tick.
pub fn right_half_tail() -> (actions: Vec<TaskAction>)
    ensures
        actions@ == seq![TaskAction::Spawn(None)],
{
    let mut actions = Vec::new();
    actions.push(TaskAction::Spawn(None));
    actions
}

/// Each frame that the relaying half writes for an event is read back by an
/// idle receiver on the other half as that same event, and leaves the
/// receiver idle; for an event whose row is below 32 and column below 8.
pub proof fn lemma_relay_delivers(event: KeyEvent, uart_writable: bool, k: int)
    requires
        event.row() < 32,
        event.col() < 8,
        0 <= k < relay(event, uart_writable).len(),
        relay(event, uart_writable)[k] is Send,
    ensures
        ({
            let (ident, key) = (relay(event, uart_writable)[k]->Send_0, relay(event, uart_writable)[k]->Send_1);
            &&& receive_step(None, Some(ident)).1 == None::<KeyEvent>
            &&& receive_step(receive_step(None, Some(ident)).0, Some(key)) == (None::<ReceivedAction>, Some(event))
        }),
{
    lemma_frame_round_trip(event);
    assert(relay(event, uart_writable)[k] == TaskAction::Send(frame(event).0, frame(event).1));
}

/// The relaying half drops an event only when the link cannot take bytes.
/// When it can, it spawns the probe press and release of row 3, column 3 and
/// then writes exactly one frame, that of the event: 255 for a press or 254
/// for a release, then the key byte `row * 8 + col` (for a row below 32 and
/// a column below 8).
pub proof fn lemma_relay_writes_the_frame(event: KeyEvent, uart_writable: bool)
    ensures
        !uart_writable ==> relay(event, uart_writable).len() == 0,
        uart_writable ==> {
            let a = relay(event, uart_writable);
            &&& a.len() == 3
            &&& a[0] == TaskAction::Spawn(Some(KeyEvent::Press(3, 3)))
            &&& a[1] == TaskAction::Spawn(Some(KeyEvent::Release(3, 3)))
            &&& a[2] == TaskAction::Send(
                if event is Press { 255u8 } else { 254u8 },
                frame(event).1,
            )
            &&& forall|k: int| 0 <= k < 2 ==> !(a[k] is Send)
        },
        uart_writable && event.row() < 32 && event.col() < 8 ==> relay(event, uart_writable)[2]->Send_1 as int
            == event.row() * 8 + event.col(),
{
    crate::protocol::lemma_frame_layout(event);
}

} // verus!
