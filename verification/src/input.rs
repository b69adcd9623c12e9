//! The controller input source: lazy discovery of a vendor backend and
//! cached per-entry-point resolution, degrading to "unavailable" when
//! nothing loads.  The host performs the actual dynamic-library work and
//! reports each outcome as a plain value; every decision is made here.

use vstd::prelude::*;

verus! {

/// Whether the backend library probe has run, and how it ended.
#[derive(Clone, Copy, Debug, PartialEq, Eq, Structural)]
pub enum BackendState {
    Unprobed,
    Bound,
    Absent,
}

/// Resolution state of one backend entry point, computed at most once.
#[derive(Clone, Copy, Debug, PartialEq, Eq, Structural)]
pub enum EntryState {
    Unresolved,
    Resolved,
    Unavailable,
}

/// What a poll or vibrate request must do next.
#[derive(Clone, Copy, Debug, PartialEq, Eq, Structural)]
pub enum PollPlan {
    /// The entry point is resolved; the host may invoke it.
    Invoke,
    /// No backend or no entry point; the operation yields no result.
    Unavailable,
    /// The backend probe has not run yet.
    NeedsProbe,
    /// The backend is bound but this entry point is still unresolved.
    NeedsResolution,
}

/// A failed controller operation; never fatal to the process.
#[derive(Clone, Copy, Debug, PartialEq, Eq, Structural)]
pub enum ControllerError {
    BackendUnavailable,
    EntryPointUnavailable,
}

impl ControllerError {
    /// The human-readable description of the failure.
    pub fn message(&self) -> (r: &'static str)
        ensures
            *self is BackendUnavailable ==> r@ == "Failed to load XInput dll"@,
            *self is EntryPointUnavailable ==> r@ == "Failed to load XInput entry point"@,
    {
        match self {
            ControllerError::BackendUnavailable => "Failed to load XInput dll",
            ControllerError::EntryPointUnavailable => "Failed to load XInput entry point",
        }
    }
}

/// The binding to the vendor input backend: the backend probe outcome and
/// the cached resolution state of its two entry points.
#[derive(Debug)]
pub struct ControllerBinding {
    pub backend: BackendState,
    pub get_state: EntryState,
    pub set_state: EntryState,
}

/// The plan for an operation that needs the given entry point.
pub open spec fn entry_plan(backend: BackendState, entry: EntryState) -> PollPlan {
    if entry is Resolved {
        PollPlan::Invoke
    } else if entry is Unavailable {
        PollPlan::Unavailable
    } else if backend is Unprobed {
        PollPlan::NeedsProbe
    } else if backend is Bound {
        PollPlan::NeedsResolution
    } else {
        PollPlan::Unavailable
    }
}

impl ControllerBinding {
    /// The binding invariant: an entry point can only be resolved inside a
    /// bound backend.
    pub open spec fn wf(self) -> bool {
        !(self.backend is Bound) ==> !(self.get_state is Resolved) && !(self.set_state
            is Resolved)
    }

    /// A fresh binding: nothing probed, nothing resolved.
    pub fn new() -> (b: ControllerBinding)
        ensures
            b.wf(),
            b.backend is Unprobed,
            b.get_state is Unresolved,
            b.set_state is Unresolved,
    {
        ControllerBinding {
            backend: BackendState::Unprobed,
            get_state: EntryState::Unresolved,
            set_state: EntryState::Unresolved,
        }
    }
}

/// The backend library names to probe, most recent variant first; discovery
/// binds to the first that loads.
pub fn xinput_backend_candidates() -> (r: Vec<&'static str>)
    ensures
        r@.len() == 5,
        r@[0]@ == "xinput1_4.dll"@,
        r@[1]@ == "xinput1_3.dll"@,
        r@[2]@ == "xinput1_2.dll"@,
        r@[3]@ == "xinput1_1.dll"@,
        r@[4]@ == "xinput9_1_0.dll"@,
{
    let mut v: Vec<&'static str> = Vec::new();
    v.push("xinput1_4.dll");
    v.push("xinput1_3.dll");
    v.push("xinput1_2.dll");
    v.push("xinput1_1.dll");
    v.push("xinput9_1_0.dll");
    v
}

/// Records the outcome of the host's backend probe.  The probe runs at most
/// once: once the backend state is decided, later outcomes are ignored and
/// the binding is returned unchanged.  `Ok` exactly when a backend is bound
/// afterward.
pub fn load_xinput(binding: &mut ControllerBinding, backend_loaded: bool) -> (r: Result<
    (),
    ControllerError,
>)
    requires
        old(binding).wf(),
    ensures
        final(binding).wf(),
        final(binding).get_state == old(binding).get_state,
        final(binding).set_state == old(binding).set_state,
        old(binding).backend is Unprobed ==> final(binding).backend == (if backend_loaded {
            BackendState::Bound
        } else {
            BackendState::Absent
        }),
        !(old(binding).backend is Unprobed) ==> *final(binding) == *old(binding),
        r is Ok <==> final(binding).backend is Bound,
{
    match binding.backend {
        BackendState::Unprobed => {
            if backend_loaded {
                binding.backend = BackendState::Bound;
                Ok(())
            } else {
                binding.backend = BackendState::Absent;
                Err(ControllerError::BackendUnavailable)
            }
        },
        BackendState::Bound => Ok(()),
        BackendState::Absent => Err(ControllerError::BackendUnavailable),
    }
}

/// Records the outcome of resolving the state-query entry point.  Resolution
/// is attempted at most once: a decided entry point is left as it is.
/// Without a bound backend the entry point becomes unavailable whatever the
/// host reports.  `Ok` exactly when the entry point is resolved afterward.
pub fn load_xinput_get_state(binding: &mut ControllerBinding, symbol_found: bool) -> (r: Result<
    (),
    ControllerError,
>)
    requires
        old(binding).wf(),
    ensures
        final(binding).wf(),
        final(binding).backend == old(binding).backend,
        final(binding).set_state == old(binding).set_state,
        !(old(binding).get_state is Unresolved) ==> *final(binding) == *old(binding),
        old(binding).get_state is Unresolved ==> final(binding).get_state == (if old(
            binding,
        ).backend is Bound && symbol_found {
            EntryState::Resolved
        } else {
            EntryState::Unavailable
        }),
        r is Ok <==> final(binding).get_state is Resolved,
{
    match binding.get_state {
        EntryState::Unresolved => {
            let resolved = match binding.backend {
                BackendState::Bound => symbol_found,
                _ => false,
            };
            if resolved {
                binding.get_state = EntryState::Resolved;
                Ok(())
            } else {
                binding.get_state = EntryState::Unavailable;
                Err(ControllerError::EntryPointUnavailable)
            }
        },
        EntryState::Resolved => Ok(()),
        EntryState::Unavailable => Err(ControllerError::EntryPointUnavailable),
    }
}

/// Records the outcome of resolving the vibration entry point; the same
/// at-most-once caching as for the state query, independently of it.
pub fn load_xinput_set_state(binding: &mut ControllerBinding, symbol_found: bool) -> (r: Result<
    (),
    ControllerError,
>)
    requires
        old(binding).wf(),
    ensures
        final(binding).wf(),
        final(binding).backend == old(binding).backend,
        final(binding).get_state == old(binding).get_state,
        !(old(binding).set_state is Unresolved) ==> *final(binding) == *old(binding),
        old(binding).set_state is Unresolved ==> final(binding).set_state == (if old(
            binding,
        ).backend is Bound && symbol_found {
            EntryState::Resolved
        } else {
            EntryState::Unavailable
        }),
        r is Ok <==> final(binding).set_state is Resolved,
{
    match binding.set_state {
        EntryState::Unresolved => {
            let resolved = match binding.backend {
                BackendState::Bound => symbol_found,
                _ => false,
            };
            if resolved {
                binding.set_state = EntryState::Resolved;
                Ok(())
            } else {
                binding.set_state = EntryState::Unavailable;
                Err(ControllerError::EntryPointUnavailable)
            }
        },
        EntryState::Resolved => Ok(()),
        EntryState::Unavailable => Err(ControllerError::EntryPointUnavailable),
    }
}

/// What a poll of the controller state must do, given the cached binding.
/// The binding itself is not changed by asking.
pub fn xinput_get_state(binding: &ControllerBinding) -> (r: PollPlan)
    ensures
        r == entry_plan(binding.backend, binding.get_state),
{
    match binding.get_state {
        EntryState::Resolved => PollPlan::Invoke,
        EntryState::Unavailable => PollPlan::Unavailable,
        EntryState::Unresolved => match binding.backend {
            BackendState::Unprobed => PollPlan::NeedsProbe,
            BackendState::Bound => PollPlan::NeedsResolution,
            BackendState::Absent => PollPlan::Unavailable,
        },
    }
}

/// What a vibration request must do, given the cached binding.
pub fn xinput_set_state(binding: &ControllerBinding) -> (r: PollPlan)
    ensures
        r == entry_plan(binding.backend, binding.set_state),
{
    match binding.set_state {
        EntryState::Resolved => PollPlan::Invoke,
        EntryState::Unavailable => PollPlan::Unavailable,
        EntryState::Unresolved => match binding.backend {
            BackendState::Unprobed => PollPlan::NeedsProbe,
            BackendState::Bound => PollPlan::NeedsResolution,
            BackendState::Absent => PollPlan::Unavailable,
        },
    }
}

/// With no loadable backend, polling and vibrating yield `Unavailable` —
/// and since asking does not change the binding, they do so on every call,
/// without failing the process.
pub proof fn lemma_no_backend_always_unavailable(b: ControllerBinding)
    requires
        b.wf(),
        b.backend is Absent,
    ensures
        entry_plan(b.backend, b.get_state) is Unavailable,
        entry_plan(b.backend, b.set_state) is Unavailable,
{
}

} // verus!
