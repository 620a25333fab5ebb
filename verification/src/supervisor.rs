//! Lifecycle supervision of the sidecar child process.
//!
//! The supervisor holds no operating-system handle itself: the caller owns
//! the spawned child and performs every query and kill. The supervisor is the
//! decision logic — a state machine from the observed facts (spawn outcome,
//! liveness reports, termination outcomes) to the action owed next.

use vstd::prelude::*;

verus! {

/// The supervised child, as the supervisor last observed it. `Running` is the
/// only non-terminal state; every window-destruction step leaves a terminal
/// one.
#[derive(Clone, Copy, Debug, PartialEq, Eq, Structural)]
pub enum ChildState {
    Running,
    ExitedNaturally,
    TerminatedByShell,
    TerminationFailed,
}

/// What a non-blocking liveness query of the child reported. A query that
/// itself errors is `Indeterminate`: the handle may no longer name this
/// process, so nothing may be killed through it.
#[derive(Clone, Copy, Debug, PartialEq, Eq, Structural)]
pub enum Liveness {
    StillRunning,
    AlreadyExited,
    Indeterminate,
}

/// What the caller must do after a window-destruction step.
#[derive(Clone, Copy, Debug, PartialEq, Eq, Structural)]
pub enum Action {
    IssueTerminate,
    DoNothing,
}

/// Why supervision could not start. Spawn failure is startup-fatal: the shell
/// must not present a window with no backend attached.
#[derive(Clone, Copy, Debug, PartialEq, Eq, Structural)]
pub enum StartError {
    SpawnFailure,
}

/// True of every state in which the supervisor takes no further action.
pub open spec fn is_terminal(s: ChildState) -> bool {
    s != ChildState::Running
}

/// The state after a window-destruction step: a running child moves to the
/// terminal state the liveness report dictates; a terminal state is kept.
pub open spec fn destroyed_next(s: ChildState, liveness: Liveness) -> ChildState {
    if s == ChildState::Running {
        match liveness {
            Liveness::StillRunning => ChildState::TerminatedByShell,
            Liveness::AlreadyExited => ChildState::ExitedNaturally,
            Liveness::Indeterminate => ChildState::ExitedNaturally,
        }
    } else {
        s
    }
}

/// The action owed after a window-destruction step: terminate exactly when
/// the child was still running, never on a terminal or indeterminate handle.
pub open spec fn destroyed_action(s: ChildState, liveness: Liveness) -> Action {
    if s == ChildState::Running && liveness == Liveness::StillRunning {
        Action::IssueTerminate
    } else {
        Action::DoNothing
    }
}

/// The supervisor of the one sidecar child the shell owns.
pub struct Supervisor {
    state: ChildState,
}

impl Supervisor {
    /// The child as the supervisor last observed it.
    pub closed spec fn child_state(&self) -> ChildState {
        self.state
    }

    /// A supervisor over a freshly spawned, hence running, child.
    pub fn new() -> (s: Supervisor)
        ensures
            s.child_state() == ChildState::Running,
    {
        Supervisor { state: ChildState::Running }
    }

    /// Begin supervision from the outcome of the spawn attempt: a supervisor
    /// over the running child when the spawn succeeded, the fatal error when
    /// it did not — no handle exists then.
    pub fn start_supervision(spawn_succeeded: bool) -> (r: Result<Supervisor, StartError>)
        ensures
            r is Ok <==> spawn_succeeded,
            r is Ok ==> r->Ok_0.child_state() == ChildState::Running,
            r is Err ==> r->Err_0 == StartError::SpawnFailure,
    {
        if spawn_succeeded {
            Ok(Supervisor::new())
        } else {
            Err(StartError::SpawnFailure)
        }
    }

    /// The child as currently observed, for callers outside the proof.
    pub fn current_state(&self) -> (s: ChildState)
        ensures
            s == self.child_state(),
    {
        self.state
    }

    /// True exactly when a window-destruction step must query liveness: the
    /// query happens once per step, and only on a running child.
    pub fn needs_liveness_query(&self) -> (b: bool)
        ensures
            b == (self.child_state() == ChildState::Running),
    {
        match self.state {
            ChildState::Running => true,
            _ => false,
        }
    }

    /// Record a window-destruction event together with what the liveness
    /// query reported, and return the action owed. Total in the state: on an
    /// already-terminal supervisor this is a no-op that asks for nothing, so
    /// a spurious second event cannot fail or double-kill.
    pub fn on_window_destroyed(&mut self, liveness: Liveness) -> (a: Action)
        ensures
            final(self).child_state() == destroyed_next(old(self).child_state(), liveness),
            a == destroyed_action(old(self).child_state(), liveness),
    {
        match self.state {
            ChildState::Running => {
                match liveness {
                    Liveness::StillRunning => {
                        self.state = ChildState::TerminatedByShell;
                        Action::IssueTerminate
                    },
                    Liveness::AlreadyExited => {
                        self.state = ChildState::ExitedNaturally;
                        Action::DoNothing
                    },
                    Liveness::Indeterminate => {
                        self.state = ChildState::ExitedNaturally;
                        Action::DoNothing
                    },
                }
            },
            _ => Action::DoNothing,
        }
    }

    /// Record whether an issued terminate request went through. Meaningful
    /// only straight after `IssueTerminate`; in any other state it changes
    /// nothing. A failed request leaves the degraded terminal state, which is
    /// logged and never surfaced — the shell is tearing down regardless.
    pub fn record_termination_outcome(&mut self, success: bool)
        ensures
            final(self).child_state() == (if old(self).child_state()
                == ChildState::TerminatedByShell && !success {
                ChildState::TerminationFailed
            } else {
                old(self).child_state()
            }),
    {
        match self.state {
            ChildState::TerminatedByShell => {
                if !success {
                    self.state = ChildState::TerminationFailed;
                }
            },
            _ => {},
        }
    }
}

/// Window destruction is idempotent: whatever state a first step left and
/// whatever a later liveness query would report, a second step keeps that
/// state and never asks for a second kill.
pub proof fn lemma_window_destroyed_idempotent(s: ChildState, l1: Liveness, l2: Liveness)
    ensures
        destroyed_next(destroyed_next(s, l1), l2) == destroyed_next(s, l1),
        destroyed_action(destroyed_next(s, l1), l2) == Action::DoNothing,
{
}

/// A window-destruction step always lands in a terminal state, so the
/// supervisor never terminates the same child twice.
pub proof fn lemma_window_destroyed_terminal(s: ChildState, liveness: Liveness)
    ensures
        is_terminal(destroyed_next(s, liveness)),
{
}

} // verus!
