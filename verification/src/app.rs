//! The application instance and the per-frame event loop: drain host events,
//! render the payload, advance the frame offsets, and observe the stop
//! condition.

use vstd::arithmetic::div_mod::{
    lemma_add_mod_noop, lemma_mod_add_multiples_vanish, lemma_small_mod,
};
use vstd::prelude::*;

use crate::buffer::{render_weird_gradient, CreationError, OffscreenBuffer};

verus! {

/// The semantic notifications the window host delivers to the application,
/// distilled from the raw host event stream.
#[derive(Clone, Copy, Debug, PartialEq, Eq, Structural)]
pub enum Event {
    CloseRequested,
    Destroyed,
    PaintRequested,
    ActivationChanged,
}

/// What the host must do right after an event was dispatched.
#[derive(Clone, Copy, Debug, PartialEq, Eq, Structural)]
pub enum DispatchAction {
    /// Re-present the current surface without re-rendering it.
    Present,
    /// Nothing beyond the state change already applied.
    NoAction,
}

/// Whether the event forces the loop to stop.
pub open spec fn event_stops(e: Event) -> bool {
    e is CloseRequested || e is Destroyed
}

/// The action owed to the host for the event.
pub open spec fn event_action(e: Event) -> DispatchAction {
    if e is PaintRequested {
        DispatchAction::Present
    } else {
        DispatchAction::NoAction
    }
}

/// How the loop retrieves host events: drain without blocking and render
/// every iteration, or wait for the next event and render only when a paint
/// is requested.  A run uses one policy throughout; they are never mixed.
#[derive(Clone, Copy, Debug, PartialEq, Eq, Structural)]
pub enum PollPolicy {
    NonBlocking,
    Blocking,
}

/// The application state after one event is dispatched: a close request or a
/// destroy notification clears `running`; nothing else changes.
pub open spec fn dispatched(a: App, e: Event) -> App {
    App { running: a.running && !event_stops(e), ..a }
}

/// No event in the drained queue forces a stop.
pub open spec fn no_stop_events(events: Seq<Event>) -> bool {
    forall|i: int| 0 <= i < events.len() ==> !event_stops(#[trigger] events[i])
}

/// The frame offset after one frame: incremented by 1, wrapping at 256.
pub open spec fn next_offset(o: u8) -> u8 {
    if o == 255 {
        0u8
    } else {
        (o + 1) as u8
    }
}

/// The frame offset after `n` frames.
pub open spec fn offset_after(o: u8, n: nat) -> u8
    decreases n,
{
    if n == 0 {
        o
    } else {
        next_offset(offset_after(o, (n - 1) as nat))
    }
}

/// The application instance: owns exactly one pixel surface, the frame
/// offsets, and the loop's `running` flag.  `id` is the stable identity the
/// window's back-reference resolves to; it never changes after construction.
#[derive(Debug)]
pub struct App {
    pub id: u64,
    pub buffer: OffscreenBuffer,
    pub x_offset: u8,
    pub y_offset: u8,
    pub running: bool,
    pub policy: PollPolicy,
}

impl App {
    /// The instance invariant: its surface is well-formed.
    pub open spec fn wf(self) -> bool {
        self.buffer.wf()
    }

    /// Constructs the instance: allocates the surface and enters the running
    /// state, with the continuous non-blocking poll policy.  Fails exactly
    /// when the surface dimensions are rejected, and then allocates nothing.
    pub fn new(id: u64, width: i32, height: i32) -> (r: Result<App, CreationError>)
        requires
            width > 0 && height > 0 ==> width * height * 4 <= i32::MAX,
        ensures
            width <= 0 ==> r == Err::<App, CreationError>(CreationError::NonPositiveWidth),
            width > 0 && height <= 0 ==> r == Err::<App, CreationError>(
                CreationError::NonPositiveHeight,
            ),
            width > 0 && height > 0 ==> {
                &&& r matches Ok(a)
                &&& a.wf()
                &&& a.id == id
                &&& a.running
                &&& a.x_offset == 0
                &&& a.y_offset == 0
                &&& a.policy == PollPolicy::NonBlocking
                &&& a.buffer.width == width
                &&& a.buffer.height == height
                &&& forall|i: int| 0 <= i < a.buffer.memory@.len() ==> a.buffer.memory@[i] == 0u8
            },
    {
        App::with_policy(id, width, height, PollPolicy::NonBlocking)
    }

    /// Constructs the instance under the chosen poll policy; one run keeps
    /// its policy from construction to teardown.
    pub fn with_policy(id: u64, width: i32, height: i32, policy: PollPolicy) -> (r: Result<
        App,
        CreationError,
    >)
        requires
            width > 0 && height > 0 ==> width * height * 4 <= i32::MAX,
        ensures
            width <= 0 ==> r == Err::<App, CreationError>(CreationError::NonPositiveWidth),
            width > 0 && height <= 0 ==> r == Err::<App, CreationError>(
                CreationError::NonPositiveHeight,
            ),
            width > 0 && height > 0 ==> {
                &&& r matches Ok(a)
                &&& a.wf()
                &&& a.id == id
                &&& a.running
                &&& a.x_offset == 0
                &&& a.y_offset == 0
                &&& a.policy == policy
                &&& a.buffer.width == width
                &&& a.buffer.height == height
                &&& forall|i: int| 0 <= i < a.buffer.memory@.len() ==> a.buffer.memory@[i] == 0u8
            },
    {
        match OffscreenBuffer::new(width, height) {
            Ok(buffer) => Ok(
                App { id, buffer, x_offset: 0, y_offset: 0, running: true, policy },
            ),
            Err(e) => Err(e),
        }
    }

    /// Whether the loop should keep iterating.
    pub fn is_running(&self) -> (r: bool)
        ensures
            r == self.running,
    {
        self.running
    }

    /// The stable identity published to the window at creation time.
    pub fn instance_id(&self) -> (r: u64)
        ensures
            r == self.id,
    {
        self.id
    }

    /// The current frame offsets.
    pub fn offsets(&self) -> (r: (u8, u8))
        ensures
            r.0 == self.x_offset,
            r.1 == self.y_offset,
    {
        (self.x_offset, self.y_offset)
    }

    /// Requests the loop to stop; observed at the top of the next iteration.
    pub fn stop(&mut self)
        ensures
            *final(self) == (App { running: false, ..*old(self) }),
    {
        self.running = false;
    }

    /// Dispatches one host-delivered event, synchronously.  Close requests
    /// and destroy notifications clear `running`; a paint request owes the
    /// host a re-presentation of the already-rendered surface; activation
    /// changes are informational.  The surface is never touched here.
    pub fn handle_event(&mut self, e: &Event) -> (action: DispatchAction)
        ensures
            *final(self) == dispatched(*old(self), *e),
            action == event_action(*e),
    {
        match e {
            Event::CloseRequested => {
                self.stop();
                DispatchAction::NoAction
            },
            Event::Destroyed => {
                self.stop();
                DispatchAction::NoAction
            },
            Event::PaintRequested => DispatchAction::Present,
            Event::ActivationChanged => DispatchAction::NoAction,
        }
    }
}

/// Renders one frame of the payload with the current offsets and advances
/// them by one: the per-frame payload step.  Under the non-blocking policy
/// the loop takes this step every iteration; under the blocking policy the
/// host takes it when a paint is requested.
pub fn render_frame(app: &mut App)
    requires
        old(app).wf(),
    ensures
        final(app).wf(),
        final(app).id == old(app).id,
        final(app).running == old(app).running,
        final(app).policy == old(app).policy,
        final(app).buffer.width == old(app).buffer.width,
        final(app).buffer.height == old(app).buffer.height,
        final(app).buffer.top_down == old(app).buffer.top_down,
        final(app).buffer.gradient_rendered(old(app).x_offset, old(app).y_offset),
        final(app).x_offset == next_offset(old(app).x_offset),
        final(app).y_offset == next_offset(old(app).y_offset),
{
    render_weird_gradient(&mut app.buffer, app.x_offset, app.y_offset);
    app.x_offset = if app.x_offset == 255 {
        0
    } else {
        app.x_offset + 1
    };
    app.y_offset = if app.y_offset == 255 {
        0
    } else {
        app.y_offset + 1
    };
}

/// One iteration of the running loop: observe the stop condition, drain the
/// handed-over events, and — under the non-blocking policy — render one
/// frame with the current offsets and advance them.  When the loop has
/// already stopped, nothing is rendered and nothing changes.  A stop event
/// still lets the current frame render; the loop condition is observed at
/// the top of the next iteration.
pub fn run_iteration(app: &mut App, events: &Vec<Event>) -> (keep_running: bool)
    requires
        old(app).wf(),
    ensures
        final(app).wf(),
        final(app).id == old(app).id,
        final(app).policy == old(app).policy,
        keep_running == final(app).running,
        !old(app).running ==> *final(app) == *old(app),
        old(app).running ==> {
            &&& final(app).running == no_stop_events(events@)
            &&& final(app).buffer.width == old(app).buffer.width
            &&& final(app).buffer.height == old(app).buffer.height
            &&& final(app).buffer.top_down == old(app).buffer.top_down
        },
        old(app).running && old(app).policy is NonBlocking ==> {
            &&& final(app).buffer.gradient_rendered(old(app).x_offset, old(app).y_offset)
            &&& final(app).x_offset == next_offset(old(app).x_offset)
            &&& final(app).y_offset == next_offset(old(app).y_offset)
        },
        old(app).running && old(app).policy is Blocking ==> {
            &&& final(app).buffer == old(app).buffer
            &&& final(app).x_offset == old(app).x_offset
            &&& final(app).y_offset == old(app).y_offset
        },
{
    if !app.is_running() {
        return false;
    }
    let mut running: bool = true;
    let mut i: usize = 0;
    while i < events.len()
        invariant
            i <= events@.len(),
            running == no_stop_events(events@.take(i as int)),
        decreases events@.len() - i,
    {
        let e = events[i];
        match e {
            Event::CloseRequested => {
                running = false;
            },
            Event::Destroyed => {
                running = false;
            },
            Event::PaintRequested => {},
            Event::ActivationChanged => {},
        }
        proof {
            let s = events@.take(i as int);
            let t = events@.take(i + 1);
            assert(t =~= s.push(events@[i as int]));
            if no_stop_events(s) && !event_stops(events@[i as int]) {
                assert forall|j: int| 0 <= j < t.len() implies !event_stops(#[trigger] t[j]) by {
                    if j < i {
                        assert(t[j] == s[j]);
                    } else {
                        assert(t[j] == events@[i as int]);
                    }
                }
            }
            if no_stop_events(t) {
                assert forall|j: int| 0 <= j < s.len() implies !event_stops(#[trigger] s[j]) by {
                    assert(s[j] == t[j]);
                }
                assert(!event_stops(events@[i as int])) by {
                    assert(t[i as int] == events@[i as int]);
                }
            }
        }
        i = i + 1;
    }
    proof {
        assert(events@.take(events@.len() as int) =~= events@);
    }
    match app.policy {
        PollPolicy::NonBlocking => render_frame(app),
        PollPolicy::Blocking => {},
    }
    app.running = running;
    running
}

/// Dispatching a close request or a destroy notification always leaves the
/// loop flag cleared, whatever state the instance was in.
pub proof fn lemma_stop_dispatch_clears_running(a: App, e: Event)
    requires
        event_stops(e),
    ensures
        !dispatched(a, e).running,
{
}

/// If any drained event requests a close or reports destruction, the loop is
/// not running once the iteration's dispatch phase is over.
pub proof fn lemma_stop_event_halts(events: Seq<Event>, i: int)
    requires
        0 <= i < events.len(),
        event_stops(events[i]),
    ensures
        !no_stop_events(events),
{
}

/// After `n` frames an offset equals the start plus `n`, modulo 256.
pub proof fn lemma_offset_after_mod(o: u8, n: nat)
    ensures
        offset_after(o, n) == ((o + n) % 256) as u8,
    decreases n,
{
    if n == 0 {
        lemma_small_mod(o as nat, 256);
    } else {
        lemma_offset_after_mod(o, (n - 1) as nat);
        lemma_add_mod_noop(o + n - 1, 1, 256);
        let r = (o + n - 1) % 256;
        lemma_small_mod(1, 256);
        if r == 255 {
            assert((o + n) % 256 == (r + 1) % 256);
        } else {
            lemma_small_mod((r + 1) as nat, 256);
        }
    }
}

/// Advancing an offset once per frame for 256 frames returns it to its
/// original value: the payload's 8-bit wraparound period.
pub proof fn lemma_offset_period(o: u8)
    ensures
        offset_after(o, 256) == o,
{
    lemma_offset_after_mod(o, 256);
    lemma_mod_add_multiples_vanish(o as int, 256);
    lemma_small_mod(o as nat, 256);
}

/// After 256 frames the frame offsets are back where they started, so the
/// gradient payload holds its original byte values at every pixel.
pub proof fn lemma_payload_period(b: OffscreenBuffer, xo: u8, yo: u8)
    ensures
        offset_after(xo, 256) == xo,
        offset_after(yo, 256) == yo,
        b.gradient_rendered(offset_after(xo, 256), offset_after(yo, 256)) == b.gradient_rendered(
            xo,
            yo,
        ),
{
    lemma_offset_period(xo);
    lemma_offset_period(yo);
}

} // verus!
