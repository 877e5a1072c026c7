use sidecar_supervisor::supervisor::{ProcessSupervisor, SupervisorState};

#[test]
fn start_publish_stop_then_stop_again() {
    let mut sup: ProcessSupervisor<u32> = ProcessSupervisor::new();
    assert_eq!(sup.state(), SupervisorState::Idle);
    assert!(sup.begin_start());
    assert_eq!(sup.state(), SupervisorState::Starting);
    assert_eq!(sup.publish(42), None);
    assert_eq!(sup.state(), SupervisorState::Running);
    assert!(sup.has_handle());
    assert_eq!(sup.stop(), Some(42));
    assert_eq!(sup.state(), SupervisorState::Stopped);
    assert!(!sup.has_handle());
    assert_eq!(sup.stop(), None);
    assert_eq!(sup.state(), SupervisorState::Stopped);
}

#[test]
fn stop_without_start_is_noop() {
    let mut sup: ProcessSupervisor<u32> = ProcessSupervisor::new();
    assert_eq!(sup.stop(), None);
    assert_eq!(sup.state(), SupervisorState::Idle);
    assert_eq!(sup.stop(), None);
}

#[test]
fn failed_start_leaves_nothing_to_stop() {
    let mut sup: ProcessSupervisor<u32> = ProcessSupervisor::new();
    assert!(sup.begin_start());
    sup.start_failed();
    assert_eq!(sup.state(), SupervisorState::StartFailed);
    assert_eq!(sup.stop(), None);
    assert!(!sup.begin_start());
}

#[test]
fn start_is_dispatched_once() {
    let mut sup: ProcessSupervisor<u32> = ProcessSupervisor::new();
    assert!(sup.begin_start());
    assert!(!sup.begin_start());
    assert_eq!(sup.publish(1), None);
    assert!(!sup.begin_start());
}

#[test]
fn second_handle_is_handed_back() {
    let mut sup: ProcessSupervisor<u32> = ProcessSupervisor::new();
    assert_eq!(sup.publish(7), Some(7));
    assert!(sup.begin_start());
    assert_eq!(sup.publish(1), None);
    assert_eq!(sup.publish(2), Some(2));
    assert_eq!(sup.stop(), Some(1));
    assert_eq!(sup.publish(3), Some(3));
}

#[test]
fn stop_while_starting_keeps_start_going() {
    let mut sup: ProcessSupervisor<u32> = ProcessSupervisor::new();
    assert!(sup.begin_start());
    assert_eq!(sup.stop(), None);
    assert_eq!(sup.state(), SupervisorState::Starting);
    assert_eq!(sup.publish(5), None);
    assert_eq!(sup.stop(), Some(5));
}
