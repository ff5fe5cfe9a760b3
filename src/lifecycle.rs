//! The supervisor's phases, from launch to termination, and the shutdown
//! hook that drains the process slot.
use vstd::prelude::*;
use crate::slot::SupervisorState;

verus! {

/// Where the supervisor is in its lifecycle.
#[derive(PartialEq, Eq, Structural, Clone, Copy, Debug)]
pub enum Phase {
    Idle,
    Launching,
    LaunchFailed,
    Launched,
    ProbingReadiness,
    Ready,
    Unready,
    Running,
    Terminating,
    Terminated,
}

/// Whether a phase comes before any launch attempt has finished.
pub open spec fn before_launch(p: Phase) -> bool {
    p == Phase::Idle || p == Phase::Launching
}

/// Whether a phase is one in which a launched process is held and not yet
/// handed to the shutdown path.
pub open spec fn holds_process(p: Phase) -> bool {
    p == Phase::Launched || p == Phase::ProbingReadiness || p == Phase::Ready || p
        == Phase::Unready
}

/// Whether shutdown has begun.
pub open spec fn shutting_down(p: Phase) -> bool {
    p == Phase::Terminating || p == Phase::Terminated
}

/// The phase after a window-destroyed signal: the first one moves to
/// terminating when there is a process to stop and straight to terminated
/// when there is none; any later one changes nothing.
pub open spec fn phase_after_shutdown(p: Phase, had_process: bool) -> Phase {
    if shutting_down(p) {
        p
    } else if had_process {
        Phase::Terminating
    } else {
        Phase::Terminated
    }
}

/// The supervisor: its phase and the slot that owns the process handle.
pub struct Supervisor<H> {
    phase: Phase,
    state: SupervisorState<H>,
}

impl<H> Supervisor<H> {
    pub closed spec fn phase(&self) -> Phase {
        self.phase
    }

    /// What the process slot holds.
    pub closed spec fn slot(&self) -> Option<H> {
        self.state.slot()
    }

    /// The slot agrees with the phase: empty before a launch and once
    /// shutdown has begun, occupied from a successful launch until shutdown,
    /// and filled at most once.
    pub closed spec fn wf(&self) -> bool {
        &&& self.state.wf()
        &&& before_launch(self.phase) ==> !self.state.was_stored()
        &&& before_launch(self.phase) || self.phase == Phase::LaunchFailed || shutting_down(
            self.phase,
        ) ==> self.state.slot() is None
        &&& holds_process(self.phase) ==> self.state.slot() is Some
    }

    /// A supervisor that has not started anything yet.
    pub fn new() -> (r: Self)
        ensures
            r.wf(),
            r.phase() == Phase::Idle,
            r.slot() is None,
    {
        Supervisor { phase: Phase::Idle, state: SupervisorState::new() }
    }

    /// The current phase.
    pub fn current_phase(&self) -> (r: Phase)
        ensures
            r == self.phase(),
    {
        self.phase
    }

    /// Whether a process handle is held.
    pub fn has_process(&self) -> (r: bool)
        ensures
            r == self.slot() is Some,
    {
        self.state.peek_running()
    }

    /// The launcher starts trying candidates.
    pub fn begin_launch(&mut self)
        requires
            old(self).wf(),
            old(self).phase() == Phase::Idle,
        ensures
            final(self).wf(),
            final(self).phase() == Phase::Launching,
            final(self).slot() is None,
    {
        self.phase = Phase::Launching;
    }

    /// A candidate was spawned: its handle goes into the slot.
    pub fn launch_succeeded(&mut self, handle: H)
        requires
            old(self).wf(),
            old(self).phase() == Phase::Launching,
        ensures
            final(self).wf(),
            final(self).phase() == Phase::Launched,
            final(self).slot() == Some(handle),
    {
        self.state.store(handle);
        self.phase = Phase::Launched;
    }

    /// Every candidate failed: the slot stays empty.
    pub fn launch_failed(&mut self)
        requires
            old(self).wf(),
            old(self).phase() == Phase::Launching,
        ensures
            final(self).wf(),
            final(self).phase() == Phase::LaunchFailed,
            final(self).slot() is None,
    {
        self.phase = Phase::LaunchFailed;
    }

    /// The readiness probe starts.
    pub fn begin_probe(&mut self)
        requires
            old(self).wf(),
            old(self).phase() == Phase::Launched,
        ensures
            final(self).wf(),
            final(self).phase() == Phase::ProbingReadiness,
            final(self).slot() == old(self).slot(),
    {
        self.phase = Phase::ProbingReadiness;
    }

    /// The readiness probe finished, ready or not.
    pub fn probe_finished(&mut self, ready: bool)
        requires
            old(self).wf(),
            old(self).phase() == Phase::ProbingReadiness,
        ensures
            final(self).wf(),
            final(self).phase() == (if ready {
                Phase::Ready
            } else {
                Phase::Unready
            }),
            final(self).slot() == old(self).slot(),
    {
        self.phase = if ready {
            Phase::Ready
        } else {
            Phase::Unready
        };
    }

    /// The UI is up. Readiness does not gate this, and neither does a
    /// failed launch, which runs on without a process.
    pub fn ui_started(&mut self)
        requires
            old(self).wf(),
            old(self).phase() == Phase::Ready || old(self).phase() == Phase::Unready
                || old(self).phase() == Phase::LaunchFailed,
        ensures
            final(self).wf(),
            final(self).phase() == Phase::Running,
            final(self).slot() == old(self).slot(),
    {
        self.phase = Phase::Running;
    }

    /// The shutdown hook, run on the host's window-destroyed signal. It
    /// drains the slot and returns the handle that the caller must signal to
    /// terminate, if one was held. A later signal finds the slot empty and
    /// changes nothing.
    pub fn on_window_destroyed(&mut self) -> (r: Option<H>)
        requires
            old(self).wf(),
        ensures
            final(self).wf(),
            r == old(self).slot(),
            final(self).slot() is None,
            final(self).phase() == phase_after_shutdown(old(self).phase(), r is Some),
    {
        let r = self.state.take();
        if !self.shutdown_begun() {
            if r.is_some() {
                self.phase = Phase::Terminating;
            } else {
                self.phase = Phase::Terminated;
            }
        }
        r
    }

    fn shutdown_begun(&self) -> (r: bool)
        ensures
            r == shutting_down(self.phase()),
    {
        match self.phase {
            Phase::Terminating | Phase::Terminated => true,
            _ => false,
        }
    }

    /// The terminate signal was sent, or sending it failed: either way
    /// shutdown is complete.
    pub fn terminate_finished(&mut self)
        requires
            old(self).wf(),
            old(self).phase() == Phase::Terminating,
        ensures
            final(self).wf(),
            final(self).phase() == Phase::Terminated,
            final(self).slot() is None,
    {
        self.phase = Phase::Terminated;
    }
}

/// Two window-destroyed signals in a row: the second hands out nothing and
/// leaves the phase where the first put it.
pub proof fn second_shutdown_is_noop(p: Phase, had_process: bool)
    ensures
        phase_after_shutdown(phase_after_shutdown(p, had_process), false) == phase_after_shutdown(
            p,
            had_process,
        ),
{
}

} // verus!
