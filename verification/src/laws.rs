//! Laws of the translator that relate several steps: cursor application
//! is idempotent, at most one touch ever emulates the pointer, and
//! composition events stay properly bracketed across a whole session.

use vstd::prelude::*;
use crate::events::{EventView, ImeEvent, NativeTouchPhase, Pos2};
use crate::keymap::CursorIcon;
use crate::state::{
    cursor_icon_actions, cursor_icon_step, ime_emitted, ime_started_after, ime_step, touch_step,
    with_events, PlatformActionView, StateView,
};

verus! {

/// Cursor-icon application is idempotent: after a shape has been applied
/// while the pointer is inside the window, applying the same shape again
/// requires no native call at all, whatever the first application
/// returned.
pub proof fn lemma_cursor_icon_idempotent(s: StateView, icon: CursorIcon)
    requires
        s.pointer_pos_in_points is Some,
    ensures
        cursor_icon_step(s, icon).current_cursor_icon == Some(icon),
        cursor_icon_actions(cursor_icon_step(s, icon), icon) == Seq::<PlatformActionView>::empty(),
{
}

/// While some touch is the pointer surrogate, a report of any other
/// touch appends only its raw touch event: it neither takes over the
/// surrogate nor moves the emulated pointer.
pub proof fn lemma_touch_surrogate_exclusive(
    s: StateView,
    device_id: u64,
    id: u64,
    phase: NativeTouchPhase,
    pos: Pos2,
    force_milli: Option<u32>,
    surrogate: u64,
)
    requires
        s.pointer_touch_id == Some(surrogate),
        id != surrogate,
    ensures
        touch_step(s, device_id, id, phase, pos, force_milli) == with_events(
            s,
            seq![
                EventView::Touch {
                    device_id,
                    id,
                    phase: crate::state::abstract_touch_phase(phase),
                    pos,
                    force_milli,
                },
            ],
        ),
        touch_step(s, device_id, id, phase, pos, force_milli).pointer_touch_id == Some(surrogate),
{
}

/// How the pointer surrogate can change: a start claims it only while it
/// is free, only an end or cancel of the surrogate itself releases it,
/// and every other report leaves it as it is.
pub proof fn lemma_touch_surrogate_transitions(
    s: StateView,
    device_id: u64,
    id: u64,
    phase: NativeTouchPhase,
    pos: Pos2,
    force_milli: Option<u32>,
)
    ensures
        ({
            let after = touch_step(s, device_id, id, phase, pos, force_milli).pointer_touch_id;
            match s.pointer_touch_id {
                None => after == (if phase == NativeTouchPhase::Started {
                    Some(id)
                } else {
                    None::<u64>
                }),
                Some(surrogate) => {
                    if surrogate != id {
                        after == Some(surrogate)
                    } else {
                        after == (match phase {
                            NativeTouchPhase::Started => Some(id),
                            NativeTouchPhase::Moved => Some(id),
                            NativeTouchPhase::Ended => None::<u64>,
                            NativeTouchPhase::Cancelled => None::<u64>,
                        })
                    }
                },
            }
        }),
{
}

/// One native touch report, as the translator receives it.
#[derive(Clone, Copy, Debug, PartialEq, Eq, Structural)]
pub struct TouchReport {
    pub device_id: u64,
    pub id: u64,
    pub phase: NativeTouchPhase,
    pub pos: Pos2,
    pub force_milli: Option<u32>,
}

/// The state after a whole sequence of touch reports.
pub open spec fn touch_run(s: StateView, reports: Seq<TouchReport>) -> StateView
    decreases reports.len(),
{
    if reports.len() == 0 {
        s
    } else {
        let r = reports[0];
        touch_run(
            touch_step(s, r.device_id, r.id, r.phase, r.pos, r.force_milli),
            reports.skip(1),
        )
    }
}

/// Whether a report ends or cancels the given touch.
pub open spec fn releases(report: TouchReport, id: u64) -> bool {
    report.id == id && (report.phase is Ended || report.phase is Cancelled)
}

/// A new surrogate can be claimed only after the old one is released:
/// through any sequence of touch reports in which the surrogate touch
/// never ends nor cancels, it stays the surrogate, whatever the other
/// touches do.
pub proof fn lemma_surrogate_persists(s: StateView, reports: Seq<TouchReport>, surrogate: u64)
    requires
        s.pointer_touch_id == Some(surrogate),
        forall|k: int| 0 <= k < reports.len() ==> !releases(#[trigger] reports[k], surrogate),
    ensures
        touch_run(s, reports).pointer_touch_id == Some(surrogate),
    decreases reports.len(),
{
    if reports.len() > 0 {
        let r = reports[0];
        let s1 = touch_step(s, r.device_id, r.id, r.phase, r.pos, r.force_milli);
        lemma_touch_surrogate_transitions(s, r.device_id, r.id, r.phase, r.pos, r.force_milli);
        assert(!releases(reports[0], surrogate));
        assert(s1.pointer_touch_id == Some(surrogate));
        assert(forall|k: int|
            0 <= k < reports.skip(1).len() ==> reports.skip(1)[k] == reports[k + 1]);
        lemma_surrogate_persists(s1, reports.skip(1), surrogate);
    }
}

/// Whether an abstract event opens a composition.
pub open spec fn is_composition_start(e: EventView) -> bool {
    e is CompositionStart
}

/// Whether an abstract event closes a composition.
pub open spec fn is_composition_end(e: EventView) -> bool {
    e is CompositionEnd
}

/// Whether the stream holds a composition start that no later event has
/// closed.
pub open spec fn has_open_composition(events: Seq<EventView>) -> bool {
    exists|j: int|
        0 <= j < events.len() && is_composition_start(#[trigger] events[j]) && (forall|m: int|
            j < m < events.len() ==> !is_composition_end(#[trigger] events[m]))
}

/// Whether every composition end in the stream is preceded by a
/// composition start that no event in between has closed.
pub open spec fn composition_well_bracketed(events: Seq<EventView>) -> bool {
    forall|k: int|
        0 <= k < events.len() && is_composition_end(#[trigger] events[k]) ==> exists|j: int|
            0 <= j < k && is_composition_start(#[trigger] events[j]) && (forall|m: int|
                j < m < k ==> !is_composition_end(#[trigger] events[m]))
}

/// The abstract events a whole sequence of composition notifications
/// emits, starting from the given in-progress flag.
pub open spec fn ime_run_emitted(started: bool, imes: Seq<ImeEvent>) -> Seq<EventView>
    decreases imes.len(),
{
    if imes.len() == 0 {
        Seq::empty()
    } else {
        ime_emitted(started, imes[0]) + ime_run_emitted(
            ime_started_after(started, imes[0]),
            imes.skip(1),
        )
    }
}

/// Whether every commit notification in the sequence arrives while a
/// composition is in progress, starting from the given flag.
pub open spec fn commits_arrive_while_composing(started: bool, imes: Seq<ImeEvent>) -> bool
    decreases imes.len(),
{
    if imes.len() == 0 {
        true
    } else {
        (imes[0] is Commit ==> started) && commits_arrive_while_composing(
            ime_started_after(started, imes[0]),
            imes.skip(1),
        )
    }
}

/// One step of the bracketing induction: processing one notification
/// keeps the emitted stream well bracketed and keeps the in-progress
/// flag meaning "the stream holds an open composition".
proof fn lemma_ime_step_bracketed(started: bool, stream: Seq<EventView>, ime: ImeEvent)
    requires
        composition_well_bracketed(stream),
        started ==> has_open_composition(stream),
        ime is Commit ==> started,
    ensures
        composition_well_bracketed(stream + ime_emitted(started, ime)),
        ime_started_after(started, ime) ==> has_open_composition(stream + ime_emitted(started, ime)),
{
    let emitted = ime_emitted(started, ime);
    let stream2 = stream + emitted;
    match ime {
        ImeEvent::Enabled => {
            assert(stream2 =~= stream);
        },
        ImeEvent::Disabled => {
            assert(stream2 =~= stream);
        },
        ImeEvent::Preedit(_t) => {
            assert forall|k: int|
                0 <= k < stream2.len() && is_composition_end(#[trigger] stream2[k]) implies exists|j: int|
                0 <= j < k && is_composition_start(#[trigger] stream2[j]) && (forall|m: int|
                    j < m < k ==> !is_composition_end(#[trigger] stream2[m])) by {
                assert(k < stream.len() && stream2[k] == stream[k]);
                let j = choose|j: int|
                    0 <= j < k && is_composition_start(#[trigger] stream[j]) && (forall|m: int|
                        j < m < k ==> !is_composition_end(#[trigger] stream[m]));
                assert(is_composition_start(stream2[j]));
                assert(forall|m: int| j < m < k ==> !is_composition_end(#[trigger] stream2[m]));
            }
            if !started {
                let j = stream.len() as int;
                assert(is_composition_start(stream2[j]));
                assert(forall|m: int|
                    j < m < stream2.len() ==> !is_composition_end(#[trigger] stream2[m]));
                assert(has_open_composition(stream2));
            } else {
                let j = choose|j: int|
                    0 <= j < stream.len() && is_composition_start(#[trigger] stream[j]) && (
                    forall|m: int|
                        j < m < stream.len() ==> !is_composition_end(#[trigger] stream[m]));
                assert(is_composition_start(stream2[j]));
                assert(forall|m: int|
                    j < m < stream2.len() ==> !is_composition_end(#[trigger] stream2[m]));
                assert(has_open_composition(stream2));
            }
        },
        ImeEvent::Commit(_t) => {
            let j = choose|j: int|
                0 <= j < stream.len() && is_composition_start(#[trigger] stream[j]) && (forall|
                    m: int,
                |
                    j < m < stream.len() ==> !is_composition_end(#[trigger] stream[m]));
            assert forall|k: int|
                0 <= k < stream2.len() && is_composition_end(#[trigger] stream2[k]) implies exists|
                jj: int,
            |
                0 <= jj < k && is_composition_start(#[trigger] stream2[jj]) && (forall|m: int|
                    jj < m < k ==> !is_composition_end(#[trigger] stream2[m])) by {
                if k < stream.len() {
                    assert(stream2[k] == stream[k]);
                    let jj = choose|jj: int|
                        0 <= jj < k && is_composition_start(#[trigger] stream[jj]) && (forall|
                            m: int,
                        |
                            jj < m < k ==> !is_composition_end(#[trigger] stream[m]));
                    assert(is_composition_start(stream2[jj]));
                    assert(forall|m: int|
                        jj < m < k ==> !is_composition_end(#[trigger] stream2[m]));
                } else {
                    assert(k == stream.len());
                    assert(is_composition_start(stream2[j]));
                    assert(forall|m: int|
                        j < m < k ==> !is_composition_end(#[trigger] stream2[m]));
                }
            }
        },
    }
}

/// The bracketing induction over a whole run of notifications.
proof fn lemma_ime_run_bracketed_from(started: bool, stream: Seq<EventView>, imes: Seq<ImeEvent>)
    requires
        composition_well_bracketed(stream),
        started ==> has_open_composition(stream),
        commits_arrive_while_composing(started, imes),
    ensures
        composition_well_bracketed(stream + ime_run_emitted(started, imes)),
    decreases imes.len(),
{
    if imes.len() == 0 {
        assert(stream + ime_run_emitted(started, imes) =~= stream);
    } else {
        let ime = imes[0];
        let started2 = ime_started_after(started, ime);
        let stream2 = stream + ime_emitted(started, ime);
        lemma_ime_step_bracketed(started, stream, ime);
        lemma_ime_run_bracketed_from(started2, stream2, imes.skip(1));
        assert(stream + ime_run_emitted(started, imes) =~= stream2 + ime_run_emitted(
            started2,
            imes.skip(1),
        ));
    }
}

/// A composition end is never emitted without a preceding, still-open
/// composition start: over any sequence of composition notifications in
/// which each commit arrives while a composition is in progress (the
/// windowing system sends a preedit before a commit), the emitted stream
/// is well bracketed.  A commit arriving with no composition in progress
/// would emit an unmatched end, so such runs are excluded.
pub proof fn lemma_ime_bracketing(imes: Seq<ImeEvent>)
    requires
        commits_arrive_while_composing(false, imes),
    ensures
        composition_well_bracketed(ime_run_emitted(false, imes)),
{
    lemma_ime_run_bracketed_from(false, Seq::empty(), imes);
    assert(Seq::empty() + ime_run_emitted(false, imes) =~= ime_run_emitted(false, imes));
}

/// A run of composition notifications appends exactly the run's emitted
/// events to the input queue and leaves the in-progress flag where the
/// run leaves it; the rest of the state is untouched.
pub proof fn lemma_ime_run_step(s: StateView, imes: Seq<ImeEvent>)
    ensures
        ime_run_state(s, imes) == with_events(
            StateView {
                input_method_editor_started: ime_run_started(
                    s.input_method_editor_started,
                    imes,
                ),
                ..s
            },
            ime_run_emitted(s.input_method_editor_started, imes),
        ),
    decreases imes.len(),
{
    if imes.len() == 0 {
        assert(ime_run_state(s, imes) =~= with_events(
            StateView {
                input_method_editor_started: ime_run_started(s.input_method_editor_started, imes),
                ..s
            },
            ime_run_emitted(s.input_method_editor_started, imes),
        ));
    } else {
        lemma_ime_run_step(ime_step(s, imes[0]), imes.skip(1));
        assert(ime_run_state(s, imes) =~= with_events(
            StateView {
                input_method_editor_started: ime_run_started(s.input_method_editor_started, imes),
                ..s
            },
            ime_run_emitted(s.input_method_editor_started, imes),
        ));
    }
}

/// The in-progress flag after a whole run of notifications.
pub open spec fn ime_run_started(started: bool, imes: Seq<ImeEvent>) -> bool
    decreases imes.len(),
{
    if imes.len() == 0 {
        started
    } else {
        ime_run_started(ime_started_after(started, imes[0]), imes.skip(1))
    }
}

/// The state after a whole run of composition notifications.
pub open spec fn ime_run_state(s: StateView, imes: Seq<ImeEvent>) -> StateView
    decreases imes.len(),
{
    if imes.len() == 0 {
        s
    } else {
        ime_run_state(ime_step(s, imes[0]), imes.skip(1))
    }
}

} // verus!
