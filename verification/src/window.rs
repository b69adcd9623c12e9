//! The window host binding: the per-window association between the native
//! window and its owning application instance, and event dispatch through
//! that association.

use vstd::prelude::*;

use crate::app::{
    dispatched, event_action, event_stops, no_stop_events, App, DispatchAction, Event,
};

verus! {

/// The per-window slot holding the back-reference to the owning application
/// instance.  The association is stored once, during window creation, and is
/// never reassigned; it is retrieved from the event-dispatch path without any
/// process-wide variable.
#[derive(Debug)]
pub struct WindowBinding {
    pub owner: u64,
}

impl WindowBinding {
    /// Stores the owner's identity in the window's user-data slot at
    /// creation time.
    pub fn create(owner_back_reference: u64) -> (w: WindowBinding)
        ensures
            w.owner == owner_back_reference,
    {
        WindowBinding { owner: owner_back_reference }
    }

    /// Resolves the back-reference from the dispatch callback.
    pub fn resolve_owner(&self) -> (r: u64)
        ensures
            r == self.owner,
    {
        self.owner
    }
}

/// Dispatches one host event to the application instance the window's
/// back-reference resolves to.  Dispatch mutates only the loop flag; the
/// association and the instance identity survive unchanged.
pub fn dispatch(window: &WindowBinding, app: &mut App, e: &Event) -> (action: DispatchAction)
    requires
        window.owner == old(app).id,
    ensures
        *final(app) == dispatched(*old(app), *e),
        action == event_action(*e),
        window.owner == final(app).id,
{
    app.handle_event(e)
}

/// The application state after a whole sequence of dispatched events.
pub open spec fn dispatched_seq(a: App, events: Seq<Event>) -> App
    decreases events.len(),
{
    if events.len() == 0 {
        a
    } else {
        dispatched_seq(dispatched(a, events[0]), events.skip(1))
    }
}

/// Dispatch only ever clears the running flag: after a whole sequence of
/// events the loop runs exactly when it ran before and no event stopped it,
/// and the surface, the frame offsets and the identity are untouched.
pub proof fn lemma_dispatched_seq_effect(a: App, events: Seq<Event>)
    ensures
        dispatched_seq(a, events).running == (a.running && no_stop_events(events)),
        dispatched_seq(a, events).buffer == a.buffer,
        dispatched_seq(a, events).x_offset == a.x_offset,
        dispatched_seq(a, events).y_offset == a.y_offset,
        dispatched_seq(a, events).id == a.id,
        dispatched_seq(a, events).policy == a.policy,
    decreases events.len(),
{
    if events.len() > 0 {
        let rest = events.skip(1);
        lemma_dispatched_seq_effect(dispatched(a, events[0]), rest);
        if no_stop_events(events) {
            assert(!event_stops(events[0]));
            assert forall|i: int| 0 <= i < rest.len() implies !event_stops(#[trigger] rest[i]) by {
                assert(rest[i] == events[i + 1]);
            }
        }
        if !event_stops(events[0]) && no_stop_events(rest) {
            assert forall|i: int| 0 <= i < events.len() implies !event_stops(
                #[trigger] events[i],
            ) by {
                if i > 0 {
                    assert(events[i] == rest[i - 1]);
                }
            }
        }
    }
}

/// The back-reference stored at window-creation time stays valid under
/// dispatch: however many events are dispatched, the instance identity is
/// unchanged and the window still resolves to the same application instance.
pub proof fn lemma_back_reference_stable(w: WindowBinding, a: App, events: Seq<Event>)
    requires
        w.owner == a.id,
    ensures
        dispatched_seq(a, events).id == a.id,
        w.owner == dispatched_seq(a, events).id,
    decreases events.len(),
{
    if events.len() > 0 {
        lemma_back_reference_stable(w, dispatched(a, events[0]), events.skip(1));
    }
}

/// Width and height of a rectangle given by its edge coordinates, as the
/// host reports a client area.
pub fn rect_dimensions(left: i32, top: i32, right: i32, bottom: i32) -> (r: (i32, i32))
    requires
        i32::MIN <= right - left <= i32::MAX,
        i32::MIN <= bottom - top <= i32::MAX,
    ensures
        r.0 == right - left,
        r.1 == bottom - top,
{
    (right - left, bottom - top)
}

} // verus!
