use service_supervisor::registry::{classify, RegistryErrorKind};
use service_supervisor::status::{
    AcceptedControls, ServiceState, ServiceStatusReport, EXIT_CLEAN, EXIT_REPORT_FAILED,
    EXIT_SPAWN_FAILED,
};

#[test]
fn start_pending_report_asks_the_manager_to_wait() {
    let report = ServiceStatusReport::start_pending(4242);
    assert_eq!(report.state, ServiceState::StartPending);
    assert_eq!(report.accepted, AcceptedControls { stop: true, pause_continue: false });
    assert_eq!(report.exit_code, 0);
    assert_eq!(report.checkpoint, 1);
    assert_eq!(report.wait_hint_secs, 10);
    assert_eq!(report.process_id, Some(4242));
}

#[test]
fn running_report_accepts_stop_pause_and_continue() {
    let report = ServiceStatusReport::running(17);
    assert_eq!(report.state, ServiceState::Running);
    assert_eq!(report.accepted, AcceptedControls { stop: true, pause_continue: true });
    assert_eq!(report.exit_code, 0);
    assert_eq!(report.checkpoint, 0);
    assert_eq!(report.wait_hint_secs, 5);
    assert_eq!(report.process_id, Some(17));
}

#[test]
fn stopped_report_accepts_nothing() {
    let report = ServiceStatusReport::stopped(EXIT_CLEAN);
    assert_eq!(report.state, ServiceState::Stopped);
    assert_eq!(report.accepted, AcceptedControls { stop: false, pause_continue: false });
    assert_eq!(report.exit_code, 0);
    assert_eq!(report.checkpoint, 0);
    assert_eq!(report.wait_hint_secs, 5);
    assert_eq!(report.process_id, None);
}

#[test]
fn stopped_report_carries_the_exit_code() {
    assert_eq!(ServiceStatusReport::stopped(EXIT_SPAWN_FAILED).exit_code, 1);
    assert_eq!(ServiceStatusReport::stopped(EXIT_REPORT_FAILED).exit_code, 2);
    assert_eq!(ServiceStatusReport::stopped(77).exit_code, 77);
}

#[test]
fn accepted_controls_as_bit_mask() {
    assert_eq!(AcceptedControls { stop: false, pause_continue: false }.bits(), 0);
    assert_eq!(AcceptedControls { stop: true, pause_continue: false }.bits(), 1);
    assert_eq!(AcceptedControls { stop: false, pause_continue: true }.bits(), 2);
    assert_eq!(AcceptedControls { stop: true, pause_continue: true }.bits(), 3);
}

#[test]
fn registry_failures_by_kind() {
    assert_eq!(classify(Some(1073)), RegistryErrorKind::AlreadyExists);
    assert_eq!(classify(Some(5)), RegistryErrorKind::AccessDenied);
    assert_eq!(classify(Some(1060)), RegistryErrorKind::NotFound);
    assert_eq!(classify(Some(0)), RegistryErrorKind::Other);
    assert_eq!(classify(Some(-1)), RegistryErrorKind::Other);
    assert_eq!(classify(None), RegistryErrorKind::Other);
}

#[test]
fn removing_an_unknown_service_is_a_not_found_failure() {
    let kind = classify(Some(service_supervisor::registry::CODE_SERVICE_DOES_NOT_EXIST));
    assert_eq!(kind, RegistryErrorKind::NotFound);
    assert_ne!(kind, RegistryErrorKind::Other);
}
