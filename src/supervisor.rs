//! The lifecycle of the spawned backend process and the slot that owns its
//! handle. The host keeps one supervisor behind one lock, shared by the start
//! task and the shutdown handler, and does the spawning, killing and waiting
//! itself, outside the lock, on what these transitions hand it.
use vstd::prelude::*;

verus! {

/// Lifecycle of the backend process.
#[derive(PartialEq, Eq, Structural, Clone, Copy, Debug)]
pub enum SupervisorState {
    /// Nothing started yet.
    Idle,
    /// Resolution and spawn are under way on a worker.
    Starting,
    /// A process was spawned and its handle is held.
    Running,
    /// No executable was found, or the spawn failed; there is no retry.
    StartFailed,
    /// The process was taken for termination; terminal.
    Stopped,
}

/// The supervisor as a state and the handle slot.
pub struct SupervisorModel<H> {
    pub state: SupervisorState,
    pub slot: Option<H>,
}

/// The slot holds a handle exactly while the process runs.
pub open spec fn model_wf<H>(m: SupervisorModel<H>) -> bool {
    m.slot is Some <==> m.state == SupervisorState::Running
}

/// Asking to start: only an idle supervisor moves on; the answer says
/// whether the caller should dispatch the start work.
pub open spec fn begin_start_spec<H>(m: SupervisorModel<H>) -> (SupervisorModel<H>, bool) {
    if m.state == SupervisorState::Idle {
        (SupervisorModel { state: SupervisorState::Starting, slot: m.slot }, true)
    } else {
        (m, false)
    }
}

/// Resolution or spawn failed: a start under way ends as failed.
pub open spec fn start_failed_spec<H>(m: SupervisorModel<H>) -> SupervisorModel<H> {
    if m.state == SupervisorState::Starting {
        SupervisorModel { state: SupervisorState::StartFailed, slot: m.slot }
    } else {
        m
    }
}

/// A spawned process is published: a start under way stores the handle and
/// runs; in any other state the handle is handed back, since no second
/// process may be owned.
pub open spec fn publish_spec<H>(m: SupervisorModel<H>, child: H) -> (SupervisorModel<H>, Option<H>) {
    if m.state == SupervisorState::Starting {
        (SupervisorModel { state: SupervisorState::Running, slot: Some(child) }, None)
    } else {
        (m, Some(child))
    }
}

/// Stopping takes the handle out of the slot, if there is one, for the
/// caller to kill and wait on; without a handle nothing changes.
pub open spec fn stop_spec<H>(m: SupervisorModel<H>) -> (SupervisorModel<H>, Option<H>) {
    match m.slot {
        Some(h) => (SupervisorModel { state: SupervisorState::Stopped, slot: None }, Some(h)),
        None => (m, None),
    }
}

/// Owner of the backend process handle.
pub struct ProcessSupervisor<H> {
    state: SupervisorState,
    slot: Option<H>,
}

impl<H> ProcessSupervisor<H> {
    pub closed spec fn model(&self) -> SupervisorModel<H> {
        SupervisorModel { state: self.state, slot: self.slot }
    }

    pub open spec fn wf(&self) -> bool {
        model_wf(self.model())
    }

    /// An idle supervisor with an empty slot.
    pub fn new() -> (r: Self)
        ensures
            r.wf(),
            r.model() == (SupervisorModel::<H> { state: SupervisorState::Idle, slot: None }),
    {
        ProcessSupervisor { state: SupervisorState::Idle, slot: None }
    }

    /// Moves an idle supervisor to starting; true when the caller is to
    /// dispatch resolution and spawn to a worker.
    pub fn begin_start(&mut self) -> (r: bool)
        requires
            old(self).wf(),
        ensures
            final(self).wf(),
            (final(self).model(), r) == begin_start_spec(old(self).model()),
    {
        if self.state == SupervisorState::Idle {
            self.state = SupervisorState::Starting;
            true
        } else {
            false
        }
    }

    /// Records that no executable was found or that it could not be spawned.
    pub fn start_failed(&mut self)
        requires
            old(self).wf(),
        ensures
            final(self).wf(),
            final(self).model() == start_failed_spec(old(self).model()),
    {
        if self.state == SupervisorState::Starting {
            self.state = SupervisorState::StartFailed;
        }
    }

    /// Publishes the spawned process's handle. Returns the handle back when
    /// the supervisor was not starting; the caller must then terminate it.
    pub fn publish(&mut self, child: H) -> (r: Option<H>)
        requires
            old(self).wf(),
        ensures
            final(self).wf(),
            (final(self).model(), r) == publish_spec(old(self).model(), child),
    {
        if self.state == SupervisorState::Starting {
            self.state = SupervisorState::Running;
            self.slot = Some(child);
            None
        } else {
            Some(child)
        }
    }

    /// Takes the handle for termination. `None` when none is held: never
    /// started, still starting, start failed, or already stopped.
    pub fn stop(&mut self) -> (r: Option<H>)
        requires
            old(self).wf(),
        ensures
            final(self).wf(),
            (final(self).model(), r) == stop_spec(old(self).model()),
    {
        match self.slot.take() {
            Some(h) => {
                self.state = SupervisorState::Stopped;
                Some(h)
            },
            None => None,
        }
    }

    /// The current lifecycle state.
    pub fn state(&self) -> (r: SupervisorState)
        ensures
            r == self.model().state,
    {
        self.state
    }

    /// Whether a process handle is held.
    pub fn has_handle(&self) -> (r: bool)
        ensures
            r == self.model().slot is Some,
    {
        self.slot.is_some()
    }
}

/// Stopping twice is the same as stopping once: the second stop hands out
/// nothing and changes nothing.
pub proof fn lemma_stop_idempotent<H>(m: SupervisorModel<H>)
    requires
        model_wf(m),
    ensures
        model_wf(stop_spec(m).0),
        stop_spec(stop_spec(m).0) == (stop_spec(m).0, None::<H>),
{
}

/// A process is owned at most once per run: once a start has been asked
/// for, no later start is dispatched, whatever else happened in between.
pub proof fn lemma_no_second_start<H>(m: SupervisorModel<H>)
    requires
        m.state != SupervisorState::Idle,
    ensures
        begin_start_spec(m) == (m, false),
{
}

} // verus!
