//! The decisions of a supervisor that keeps a component task running.
//!
//! The supervisor waits for one of two events: the component reports an
//! irrecoverable error, or the component's task ends. Either way the component
//! is asked to clean up, and then restarted unless the clean-up failed.
use vstd::prelude::*;

verus! {

/// The message handed to the component when its task ended without reporting anything.
pub const UNEXPECTED_SHUTDOWN_MESSAGE: &'static str = "An unexpected shutdown was observed in a component.";

/// What woke the supervisor up.
#[derive(Clone, Copy, Debug, PartialEq, Eq, Structural)]
pub enum SupervisorEvent {
    /// The component sent an irrecoverable error on its channel.
    IrrecoverableReported,
    /// The component's task completed (for instance after an uncaught panic).
    TaskEnded,
}

/// Which error the component's clean-up handler receives.
#[derive(Clone, Copy, Debug, PartialEq, Eq, Structural)]
pub enum CleanupInput {
    /// The error the component reported.
    Reported,
    /// The generic [`UNEXPECTED_SHUTDOWN_MESSAGE`].
    UnexpectedShutdown,
}

/// What the supervisor does once the clean-up handler has run.
#[derive(Clone, Copy, Debug, PartialEq, Eq, Structural)]
pub enum SupervisorDecision {
    /// Start the component again and keep supervising.
    Restart,
    /// Stop supervising and return the clean-up handler's error.
    Stop,
}

/// The supervision state: whether a component task is being watched.
#[derive(Clone, Copy, Debug, PartialEq, Eq, Structural)]
pub struct SupervisorState {
    pub task_running: bool,
}

/// Whether a supervisor in `state` reacts to `event`.
pub open spec fn listens(state: SupervisorState, event: SupervisorEvent) -> bool {
    event == SupervisorEvent::IrrecoverableReported || state.task_running
}

/// The clean-up input for `event`.
pub open spec fn cleanup_input_of(event: SupervisorEvent) -> CleanupInput {
    match event {
        SupervisorEvent::IrrecoverableReported => CleanupInput::Reported,
        SupervisorEvent::TaskEnded => CleanupInput::UnexpectedShutdown,
    }
}

/// The decision taken once the clean-up handler returned.
pub open spec fn decision_after(cleanup_succeeded: bool) -> SupervisorDecision {
    if cleanup_succeeded {
        SupervisorDecision::Restart
    } else {
        SupervisorDecision::Stop
    }
}

impl SupervisorState {
    /// A supervisor that has not started its component yet.
    pub fn new() -> (s: Self)
        ensures
            !s.task_running,
    {
        SupervisorState { task_running: false }
    }

    /// The component has been started (or restarted) and its task is watched.
    pub fn started(&mut self)
        ensures
            final(self).task_running,
    {
        self.task_running = true;
    }

    /// Whether the supervisor listens for `event`: task completion is only
    /// watched while there is a task.
    pub fn listens_for(&self, event: SupervisorEvent) -> (b: bool)
        ensures
            b == listens(*self, event),
    {
        match event {
            SupervisorEvent::IrrecoverableReported => true,
            SupervisorEvent::TaskEnded => self.task_running,
        }
    }

    /// The input of the clean-up handler for `event`.
    pub fn cleanup_input(event: SupervisorEvent) -> (c: CleanupInput)
        ensures
            c == cleanup_input_of(event),
    {
        match event {
            SupervisorEvent::IrrecoverableReported => CleanupInput::Reported,
            SupervisorEvent::TaskEnded => CleanupInput::UnexpectedShutdown,
        }
    }

    /// After the clean-up handler ran: restart when it succeeded, stop otherwise.
    pub fn after_cleanup(&self, cleanup_succeeded: bool) -> (d: SupervisorDecision)
        ensures
            d == decision_after(cleanup_succeeded),
    {
        if cleanup_succeeded {
            SupervisorDecision::Restart
        } else {
            SupervisorDecision::Stop
        }
    }
}

} // verus!

verus! {

/// A started component whose task ends is noticed, its clean-up handler gets
/// the unexpected-shutdown message, and when the clean-up succeeds it is
/// restarted: the supervised task is restarted whenever it stops.
pub proof fn lemma_stopped_task_is_restarted(state: SupervisorState)
    requires
        state.task_running,
    ensures
        listens(state, SupervisorEvent::TaskEnded),
        cleanup_input_of(SupervisorEvent::TaskEnded) == CleanupInput::UnexpectedShutdown,
        decision_after(true) == SupervisorDecision::Restart,
{
}

/// A reported irrecoverable error is always noticed and handed to the
/// clean-up handler; supervision stops only when the clean-up fails.
pub proof fn lemma_reported_error_is_handled(state: SupervisorState, cleanup_succeeded: bool)
    ensures
        listens(state, SupervisorEvent::IrrecoverableReported),
        cleanup_input_of(SupervisorEvent::IrrecoverableReported) == CleanupInput::Reported,
        (decision_after(cleanup_succeeded) == SupervisorDecision::Stop) == !cleanup_succeeded,
{
}

} // verus!
