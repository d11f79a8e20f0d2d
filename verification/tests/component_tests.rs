use mysten_infra::component::{
    CleanupInput, SupervisorDecision, SupervisorEvent, SupervisorState, UNEXPECTED_SHUTDOWN_MESSAGE,
};

#[test]
fn supervisor_decisions() {
    let mut s = SupervisorState::new();
    assert!(s.listens_for(SupervisorEvent::IrrecoverableReported));
    assert!(!s.listens_for(SupervisorEvent::TaskEnded));
    s.started();
    assert!(s.listens_for(SupervisorEvent::TaskEnded));
    assert_eq!(SupervisorState::cleanup_input(SupervisorEvent::TaskEnded), CleanupInput::UnexpectedShutdown);
    assert_eq!(SupervisorState::cleanup_input(SupervisorEvent::IrrecoverableReported), CleanupInput::Reported);
    assert_eq!(s.after_cleanup(true), SupervisorDecision::Restart);
    assert_eq!(s.after_cleanup(false), SupervisorDecision::Stop);
    assert_eq!(UNEXPECTED_SHUTDOWN_MESSAGE, "An unexpected shutdown was observed in a component.");
}
