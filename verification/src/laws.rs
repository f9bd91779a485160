//! What holds of the input state machine on every input.

use vstd::prelude::*;
use crate::binding::{bound, default_bindings, default_intent, lemma_default_bound};
use crate::event::{Event, PRIMARY_BUTTON};
use crate::intent::Intent;
use crate::model::Model;

verus! {

/// Whether `event` is the key `code` going down or coming up.
pub open spec fn is_key_event(event: Event, code: Seq<char>) -> bool {
    match event {
        Event::KeyDown { code: c } => c@ == code,
        Event::KeyUp { code: c } => c@ == code,
        _ => false,
    }
}

/// Whether `event` is the primary button going down.
pub open spec fn is_primary_press(event: Event) -> bool {
    event matches Event::MouseDown { button } && button == PRIMARY_BUTTON
}

/// A second key-down on a held key adds nothing.
pub proof fn lemma_key_down_idempotent(m: Model, code: Seq<char>)
    ensures
        m.key_down(code).key_down(code) == m.key_down(code),
{
    let once = m.key_down(code);
    assert(once.key_down(code).active =~= once.active);
}

/// A second key-up on a released key removes nothing.
pub proof fn lemma_key_up_idempotent(m: Model, code: Seq<char>)
    ensures
        m.key_up(code).key_up(code) == m.key_up(code),
{
    let once = m.key_up(code);
    assert(once.key_up(code).active =~= once.active);
}

/// A key-up undoes a key-down on the same key, and a key-down a key-up:
/// of two events on one key only the later one counts.
pub proof fn lemma_later_key_event_wins(m: Model, code: Seq<char>)
    ensures
        m.key_down(code).key_up(code) == m.key_up(code),
        m.key_up(code).key_down(code) == m.key_down(code),
{
    assert(m.key_down(code).key_up(code).active =~= m.key_up(code).active);
    assert(m.key_up(code).key_down(code).active =~= m.key_down(code).active);
}

/// After any run of key-down and key-up events on one key, the intents
/// bound to it are active exactly if the last event was a key-down,
/// however many downs and ups came before. Nothing else has changed.
pub proof fn lemma_last_key_event_decides(m: Model, code: Seq<char>, events: Seq<Event>)
    requires
        events.len() > 0,
        forall|k: int| 0 <= k < events.len() ==> is_key_event(#[trigger] events[k], code),
    ensures
        m.handle_all(events) == if events.last() is KeyDown {
            m.key_down(code)
        } else {
            m.key_up(code)
        },
        forall|i: Intent|
            bound(m.bindings, code).contains(i) ==> (m.handle_all(events).active.contains(i) <==> (
            events.last() is KeyDown)),
        forall|i: Intent|
            !bound(m.bindings, code).contains(i) ==> (m.handle_all(events).active.contains(i)
                <==> m.active.contains(i)),
    decreases events.len(),
{
    let before = events.drop_last();
    let last = events.last();
    assert(is_key_event(last, code));
    if before.len() == 0 {
        assert(m.handle_all(before) == m);
    } else {
        assert forall|k: int| 0 <= k < before.len() implies is_key_event(
            #[trigger] before[k],
            code,
        ) by {
            assert(before[k] == events[k]);
        }
        lemma_last_key_event_decides(m, code, before);
        lemma_key_down_idempotent(m, code);
        lemma_key_up_idempotent(m, code);
        lemma_later_key_event_wins(m, code);
    }
}

/// Whether `event` is a key going down or coming up, whatever its code.
pub open spec fn is_keyboard_event(event: Event) -> bool {
    event is KeyDown || event is KeyUp
}

/// A code that no row of the table carries changes nothing, going down or
/// coming up.
pub proof fn lemma_unbound_code_changes_nothing(m: Model, code: Seq<char>)
    requires
        bound(m.bindings, code) == Set::<Intent>::empty(),
    ensures
        m.key_down(code) == m,
        m.key_up(code) == m,
{
    assert(m.key_down(code).active =~= m.active);
    assert(m.key_up(code).active =~= m.active);
}

/// Under the default table a code that is none of the eight key codes
/// changes nothing, going down or coming up.
pub proof fn lemma_unknown_key_changes_nothing(m: Model, code: Seq<char>)
    requires
        m.bindings == default_bindings(),
        default_intent(code) is None,
    ensures
        m.key_down(code) == m,
        m.key_up(code) == m,
{
    lemma_default_bound(code);
    lemma_unbound_code_changes_nothing(m, code);
}

/// The empty code is no key: under the default table it changes nothing,
/// going down or coming up, in a drag or outside one.
pub proof fn lemma_empty_code_changes_nothing(m: Model)
    requires
        m.bindings == default_bindings(),
    ensures
        m.key_down(Seq::<char>::empty()) == m,
        m.key_up(Seq::<char>::empty()) == m,
{
    reveal_strlit("");
    assert(""@ =~= Seq::<char>::empty());
    lemma_default_bound(Seq::<char>::empty());
    lemma_unknown_key_changes_nothing(m, Seq::<char>::empty());
}

/// Under the default table a key changes no flag but its own: every
/// intent that is not the one of the key `code` stays as it was, and so do
/// the cursor, the anchor, the drag and the table.
pub proof fn lemma_key_changes_only_its_intent(m: Model, code: Seq<char>, i: Intent)
    requires
        m.bindings == default_bindings(),
        default_intent(code) != Some(i),
    ensures
        m.key_down(code).active.contains(i) == m.active.contains(i),
        m.key_up(code).active.contains(i) == m.active.contains(i),
        m.key_down(code) == (Model { active: m.key_down(code).active, ..m }),
        m.key_up(code) == (Model { active: m.key_up(code).active, ..m }),
{
    lemma_default_bound(code);
}

/// Under the default table no key event changes whether mouse look is
/// active, whatever its code.
pub proof fn lemma_key_leaves_mouse_look(m: Model, code: Seq<char>)
    requires
        m.bindings == default_bindings(),
    ensures
        m.key_down(code).active.contains(Intent::MouseLook) == m.active.contains(
            Intent::MouseLook,
        ),
        m.key_up(code).active.contains(Intent::MouseLook) == m.active.contains(Intent::MouseLook),
{
    lemma_default_bound(code);
}

/// Under the default table no run of key events changes whether mouse
/// look is active, nor the cursor, the anchor or the drag.
pub proof fn lemma_key_events_leave_mouse_look(m: Model, events: Seq<Event>)
    requires
        m.bindings == default_bindings(),
        forall|k: int| 0 <= k < events.len() ==> is_keyboard_event(#[trigger] events[k]),
    ensures
        m.handle_all(events).active.contains(Intent::MouseLook) == m.active.contains(
            Intent::MouseLook,
        ),
        m.handle_all(events) == (Model { active: m.handle_all(events).active, ..m }),
        !m.commits_any(events),
    decreases events.len(),
{
    if events.len() > 0 {
        let before = events.drop_last();
        assert forall|k: int| 0 <= k < before.len() implies is_keyboard_event(
            #[trigger] before[k],
        ) by {
            assert(before[k] == events[k]);
        }
        lemma_key_events_leave_mouse_look(m, before);
        assert(is_keyboard_event(events.last()));
        match events.last() {
            Event::KeyDown { code } => lemma_key_leaves_mouse_look(m.handle_all(before), code@),
            Event::KeyUp { code } => lemma_key_leaves_mouse_look(m.handle_all(before), code@),
            _ => {},
        }
    }
}

/// Every state that events lead to from the initial one has the default
/// table.
pub proof fn lemma_table_stays_default(events: Seq<Event>)
    ensures
        Model::initial().handle_all(events).bindings == default_bindings(),
{
    lemma_bindings_never_change(Model::initial(), events);
}

/// Whether the events are presses and releases of the key `code` in turn,
/// beginning with a press.
pub open spec fn alternates(events: Seq<Event>, code: Seq<char>) -> bool {
    forall|k: int|
        0 <= k < events.len() ==> is_key_event(#[trigger] events[k], code) && (events[k] is KeyDown
            <==> k % 2 == 0)
}

/// When presses and releases of one key take turns, the intents bound to
/// it are active exactly if the presses outnumber the releases, that is,
/// if the number of events is odd.
pub proof fn lemma_alternating_keys_parity(m: Model, code: Seq<char>, events: Seq<Event>)
    requires
        events.len() > 0,
        alternates(events, code),
    ensures
        forall|i: Intent|
            bound(m.bindings, code).contains(i) ==> (m.handle_all(events).active.contains(i) <==> (
            events.len() % 2 == 1)),
{
    assert(is_key_event(events.last(), code));
    assert(events.last() is KeyDown <==> (events.len() - 1) % 2 == 0);
    lemma_last_key_event_decides(m, code, events);
}

/// Releasing a button while no drag is under way changes nothing and
/// commits nothing.
pub proof fn lemma_release_without_drag_is_noop(m: Model, button: usize)
    requires
        !m.dragging,
    ensures
        m.mouse_up(button) == m,
        !m.commits(Event::MouseUp { button }),
{
}

/// Pressing a button while a drag is under way changes nothing.
pub proof fn lemma_press_while_dragging_is_noop(m: Model, button: usize)
    requires
        m.dragging,
    ensures
        m.mouse_down(button) == m,
{
}

/// The drag lifecycle: the primary button begins a drag at the cursor, and
/// its release ends the drag and commits. No other button does either.
pub proof fn lemma_drag_lifecycle(m: Model, button: usize)
    ensures
        m.mouse_down(button).dragging <==> (m.dragging || button == PRIMARY_BUTTON),
        m.mouse_up(button).dragging <==> (m.dragging && button != PRIMARY_BUTTON),
        !m.dragging && button == PRIMARY_BUTTON ==> m.mouse_down(button).anchor == m.mouse,
        m.commits(Event::MouseUp { button }) <==> (m.dragging && button == PRIMARY_BUTTON),
{
}

/// Without a press of the primary button no drag begins: a batch that
/// holds none, met outside a drag, leaves the camera outside a drag, moves
/// no anchor and commits nothing.
pub proof fn lemma_no_press_no_drag(m: Model, events: Seq<Event>)
    requires
        !m.dragging,
        forall|k: int| 0 <= k < events.len() ==> !is_primary_press(#[trigger] events[k]),
    ensures
        !m.handle_all(events).dragging,
        m.handle_all(events).anchor == m.anchor,
        !m.commits_any(events),
    decreases events.len(),
{
    if events.len() > 0 {
        let before = events.drop_last();
        assert forall|k: int| 0 <= k < before.len() implies !is_primary_press(
            #[trigger] before[k],
        ) by {
            assert(before[k] == events[k]);
        }
        lemma_no_press_no_drag(m, before);
        assert(!is_primary_press(events.last()));
    }
}

/// A drag begins and ends with no offset: right after the press that
/// begins it and right after the release that ends it, the cursor is at the
/// anchor. The offsets of a later drag are thus taken from where that
/// drag begins, not from an earlier anchor.
pub proof fn lemma_drag_edges_reset_offset(m: Model)
    ensures
        !m.dragging ==> m.mouse_down(PRIMARY_BUTTON).look_delta() == (0int, 0int),
        m.dragging ==> m.mouse_up(PRIMARY_BUTTON).look_delta() == (0int, 0int),
{
}

/// The cursor's offset from the anchor is bounded whatever the events were:
/// neither coordinate leaves the range of a difference of two 32-bit
/// positions, so scaling it by a finite sensitivity stays finite.
pub proof fn lemma_look_delta_bounded(m: Model)
    ensures
        -0xFFFF_FFFF <= m.look_delta().0 <= 0xFFFF_FFFF,
        -0xFFFF_FFFF <= m.look_delta().1 <= 0xFFFF_FFFF,
{
}

/// While a drag is under way the anchor stays where the drag began,
/// whatever the events, until the primary button comes up.
pub proof fn lemma_anchor_holds_during_drag(m: Model, event: Event)
    requires
        m.dragging,
        !m.commits(event),
    ensures
        m.handle(event).dragging,
        m.handle(event).anchor == m.anchor,
{
}

/// Every cursor move during a drag keeps mouse look active, and the
/// first one outside a drag switches it off.
pub proof fn lemma_mouse_look_follows_drag(m: Model, x: i32, y: i32)
    ensures
        m.mouse_pos(x, y).active.contains(Intent::MouseLook) <==> m.dragging,
        m.mouse_pos(x, y).look_delta() == (x - m.anchor.0, y - m.anchor.1),
{
}

/// No event changes the binding table.
pub proof fn lemma_bindings_never_change(m: Model, events: Seq<Event>)
    ensures
        m.handle_all(events).bindings == m.bindings,
    decreases events.len(),
{
    if events.len() > 0 {
        lemma_bindings_never_change(m, events.drop_last());
    }
}

/// Taking two batches one after the other is taking them joined.
pub proof fn lemma_handle_all_concat(m: Model, first: Seq<Event>, second: Seq<Event>)
    ensures
        m.handle_all(first + second) == m.handle_all(first).handle_all(second),
        m.commits_any(first + second) == (m.commits_any(first) || m.handle_all(first).commits_any(
            second,
        )),
    decreases second.len(),
{
    if second.len() == 0 {
        assert(first + second =~= first);
    } else {
        assert((first + second).drop_last() =~= first + second.drop_last());
        assert((first + second).last() == second.last());
        lemma_handle_all_concat(m, first, second.drop_last());
    }
}

} // verus!
