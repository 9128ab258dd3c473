//! The layout step of the half plugged into USB: key events go to keyberon's
//! layout, and each tick yields the HID report of the keys now held.

use vstd::prelude::*;
use keyberon::action::Action;
use keyberon::key_code::KbHidReport;
use keyberon::layout::{Event, Layers, Layout};
use crate::protocol::KeyEvent;

verus! {

#[verifier::external_type_specification]
#[verifier::external_body]
pub struct ExLayout(Layout);

#[verifier::external_type_specification]
#[verifier::external_body]
pub struct ExKbHidReport(KbHidReport);

#[verifier::external_type_specification]
#[verifier::external_body]
pub struct ExAction(Action);

/// The variant of a keyberon action, without its fields.
#[derive(Clone, Copy, Debug, PartialEq, Eq, Structural)]
pub enum ActionKind {
    NoOp,
    Trans,
    KeyCode,
    MultipleKeyCodes,
    MultipleActions,
    Layer,
    DefaultLayer,
    HoldTap,
    Other,
}

/// The variant of an action.
pub uninterp spec fn action_kind_of(action: Action) -> ActionKind;

/// The layers that a layout was made with, as layers of rows of actions.
pub uninterp spec fn layout_layers(layout: Layout) -> Seq<Seq<Seq<Action>>>;

/// The key codes that a layout holds in its current state, each as its HID
/// usage byte, in the order that `Layout::keycodes` yields them.
pub uninterp spec fn layout_keycodes(layout: Layout) -> Seq<u8>;

/// The layout that `Layout::new` makes over the given layers: default layer
/// 0, no key state, no stacked event and no pending hold-tap.
pub uninterp spec fn fresh_layout(layers: Seq<Seq<Seq<Action>>>) -> Layout;

/// The layout after it was handed a key event.
pub uninterp spec fn layout_after_event(layout: Layout, event: KeyEvent) -> Layout;

/// The layout after one time step.
pub uninterp spec fn layout_after_tick(layout: Layout) -> Layout;

/// The bytes of a keyboard report.
pub uninterp spec fn report_bytes(report: KbHidReport) -> Seq<u8>;

/// The report bytes that keyberon's `KbHidReport` collects from a sequence
/// of key codes.
pub uninterp spec fn report_of_keycodes(codes: Seq<u8>) -> Seq<u8>;

/// Layers as layers of rows of actions.
pub open spec fn layers_view(layers: Layers) -> Seq<Seq<Seq<Action>>> {
    layers@.map_values(|l: &[&[Action]]| l@.map_values(|r: &[Action]| r@))
}

/// An action that only presses a key code, or does nothing.
pub open spec fn plain_action(action: Action) -> bool {
    action_kind_of(action) == ActionKind::NoOp || action_kind_of(action) == ActionKind::KeyCode
}

pub open spec fn plain_row(row: Seq<Action>) -> bool {
    forall|k: int| 0 <= k < row.len() ==> plain_action(#[trigger] row[k])
}

pub open spec fn plain_layer(layer: Seq<Seq<Action>>) -> bool {
    forall|j: int| 0 <= j < layer.len() ==> plain_row(#[trigger] layer[j])
}

/// Layers whose every action presses a key code or does nothing: no
/// transparent key, layer switch, multiple action or hold-tap.
pub open spec fn plain_layers(layers: Seq<Seq<Seq<Action>>>) -> bool {
    forall|i: int| 0 <= i < layers.len() ==> plain_layer(#[trigger] layers[i])
}

/// The variant of an action.
///
/// Tells the variants of keyberon's `Action` apart, one arm each; the enum is
/// marked non-exhaustive, hence the last arm.
#[verifier::external_body]
fn action_kind(action: &Action) -> (kind: ActionKind)
    ensures
        kind == action_kind_of(*action),
{
    match action {
        Action::NoOp => ActionKind::NoOp,
        Action::Trans => ActionKind::Trans,
        Action::KeyCode(_) => ActionKind::KeyCode,
        Action::MultipleKeyCodes(_) => ActionKind::MultipleKeyCodes,
        Action::MultipleActions(_) => ActionKind::MultipleActions,
        Action::Layer(_) => ActionKind::Layer,
        Action::DefaultLayer(_) => ActionKind::DefaultLayer,
        Action::HoldTap { .. } => ActionKind::HoldTap,
        _ => ActionKind::Other,
    }
}

/// A new layout over the given layers.
///
/// Calls `Layout::new` of keyberon, which keeps the layers and starts on
/// default layer 0 with no key state, no stacked event and no pending
/// hold-tap, so that `keycodes` yields nothing. Claims that the result is
/// the fresh layout over the layers' actions.
#[verifier::external_body]
fn layout_new(layers: Layers) -> (layout: Layout)
    ensures
        layout == fresh_layout(layers_view(layers)),
        layout_layers(layout) == layers_view(layers),
        layout_keycodes(layout) == Seq::<u8>::empty(),
{
    Layout::new(layers)
}

/// Hands a key event to the layout.
///
/// Calls `Layout::event` of keyberon. Claims that the new layout is a
/// function of the old one and the event, and that the layers stay. The new
/// key state itself is left unsaid: it depends on the layers and on the
/// events stacked inside the layout. Keyberon asserts, when it runs an
/// action, that no hold-tap is pending; with layers that hold only key codes
/// and no-ops no hold-tap ever is, and no other step of `event` can panic
/// there, hence the `requires`.
#[verifier::external_body]
fn layout_event(layout: &mut Layout, event: KeyEvent)
    requires
        plain_layers(layout_layers(*old(layout))),
    ensures
        *final(layout) == layout_after_event(*old(layout), event),
        layout_layers(*final(layout)) == layout_layers(*old(layout)),
{
    let _ = layout.event(
        match event {
            KeyEvent::Press(i, j) => Event::Press(i, j),
            KeyEvent::Release(i, j) => Event::Release(i, j),
        },
    );
}

/// Advances the layout by one time step.
///
/// Calls `Layout::tick` of keyberon. Claims that the new layout is a
/// function of the old one, and that the layers stay; the new key state is
/// left unsaid, as for `layout_event`, and the `requires` is there for the
/// same reason.
#[verifier::external_body]
fn layout_tick(layout: &mut Layout)
    requires
        plain_layers(layout_layers(*old(layout))),
    ensures
        *final(layout) == layout_after_tick(*old(layout)),
        layout_layers(*final(layout)) == layout_layers(*old(layout)),
{
    let _ = layout.tick();
}

/// The report of the keys that the layout holds.
///
/// Calls `Layout::keycodes` of keyberon and collects the codes into a
/// `KbHidReport`. Claims that the report's bytes are what keyberon builds
/// from the layout's key codes, and that a report has eight bytes.
#[verifier::external_body]
fn layout_report(layout: &Layout) -> (report: KbHidReport)
    ensures
        report_bytes(report) == report_of_keycodes(layout_keycodes(*layout)),
        report_bytes(report).len() == 8,
{
    layout.keycodes().collect()
}

fn row_is_plain(row: &[Action]) -> (plain: bool)
    ensures
        plain == plain_row(row@),
{
    let mut k: usize = 0;
    while k < row.len()
        invariant
            k <= row@.len(),
            forall|m: int| 0 <= m < k ==> plain_action(#[trigger] row@[m]),
        decreases row@.len() - k,
    {
        let kind = action_kind(&row[k]);
        if kind != ActionKind::NoOp && kind != ActionKind::KeyCode {
            return false;
        }
        k = k + 1;
    }
    true
}

fn layer_is_plain(layer: &[&[Action]]) -> (plain: bool)
    ensures
        plain == plain_layer(layer@.map_values(|r: &[Action]| r@)),
{
    let ghost view = layer@.map_values(|r: &[Action]| r@);
    let mut j: usize = 0;
    while j < layer.len()
        invariant
            j <= layer@.len(),
            view == layer@.map_values(|r: &[Action]| r@),
            forall|m: int| 0 <= m < j ==> plain_row(#[trigger] view[m]),
        decreases layer@.len() - j,
    {
        if !row_is_plain(layer[j]) {
            assert(!plain_row(view[j as int]));
            return false;
        }
        j = j + 1;
    }
    true
}

/// A layout whose layers hold only key codes and no-ops.
pub struct Keymap {
    layout: Layout,
}

impl Keymap {
    /// The keyberon layout inside.
    pub closed spec fn layout(self) -> Layout {
        self.layout
    }

    /// The layers of the layout hold only key codes and no-ops.
    pub open spec fn wf(self) -> bool {
        plain_layers(layout_layers(self.layout()))
    }

    /// A fresh keymap over the given layers, with no key held; `None` where a
    /// layer holds an action other than a key code or a no-op.
    pub fn new(layers: Layers) -> (keymap: Option<Keymap>)
        ensures
            keymap is Some <==> plain_layers(layers_view(layers)),
            keymap matches Some(k) ==> k.wf() && k.layout() == fresh_layout(layers_view(layers))
                && layout_layers(k.layout()) == layers_view(layers)
                && layout_keycodes(k.layout()) == Seq::<u8>::empty(),
    {
        let ghost view = layers_view(layers);
        let mut i: usize = 0;
        while i < layers.len()
            invariant
                i <= layers@.len(),
                view == layers_view(layers),
                forall|m: int| 0 <= m < i ==> plain_layer(#[trigger] view[m]),
            decreases layers@.len() - i,
        {
            if !layer_is_plain(layers[i]) {
                assert(!plain_layer(view[i as int]));
                return None;
            }
            i = i + 1;
        }
        Some(Keymap { layout: layout_new(layers) })
    }
}

/// The layout step for one run of the layout task: an event is handed to the
/// layout and nothing is reported; no event makes the layout tick, and the
/// report of the keys held after the tick comes back.
pub fn handle_event(keymap: &mut Keymap, event: Option<KeyEvent>) -> (report: Option<KbHidReport>)
    requires
        old(keymap).wf(),
    ensures
        final(keymap).wf(),
        report is Some <==> event is None,
        event matches Some(e) ==> final(keymap).layout() == layout_after_event(old(keymap).layout(), e),
        event is None ==> final(keymap).layout() == layout_after_tick(old(keymap).layout()),
        report matches Some(r) ==> report_bytes(r) == report_of_keycodes(
            layout_keycodes(final(keymap).layout()),
        ) && report_bytes(r).len() == 8,
{
    match event {
        Some(e) => {
            layout_event(&mut keymap.layout, e);
            None
        },
        None => {
            layout_tick(&mut keymap.layout);
            Some(layout_report(&keymap.layout))
        },
    }
}

/// What the layout task does next with a report that it handed to the
/// keyboard: stop, ask the USB device for its state, or write the report.
#[derive(Clone, Copy, Debug, PartialEq, Eq, Structural)]
pub enum ReportStep {
    Stop,
    QueryDevice,
    Write,
}

/// After the report was set on the keyboard: only a report that changed
/// the keyboard's report goes further, to the device state.
pub fn after_report_set(changed: bool) -> (step: ReportStep)
    ensures
        step == if changed {
            ReportStep::QueryDevice
        } else {
            ReportStep::Stop
        },
{
    if changed {
        ReportStep::QueryDevice
    } else {
        ReportStep::Stop
    }
}

/// After the device state was read: the report is written only while the
/// device is configured.
pub fn after_device_query(configured: bool) -> (step: ReportStep)
    ensures
        step == if configured {
            ReportStep::Write
        } else {
            ReportStep::Stop
        },
{
    if configured {
        ReportStep::Write
    } else {
        ReportStep::Stop
    }
}

/// After a write attempt that wrote `written` bytes (`None` for an error):
/// the report is written again only when the endpoint took no byte.
pub fn after_write(written: Option<usize>) -> (step: ReportStep)
    ensures
        step == if written == Some(0usize) {
            ReportStep::Write
        } else {
            ReportStep::Stop
        },
{
    match written {
        Some(n) => if n == 0 {
            ReportStep::Write
        } else {
            ReportStep::Stop
        },
        None => ReportStep::Stop,
    }
}

} // verus!
