use status_device::connect::ConnectAction;
use status_device::connect::ConnectFailure;
use status_device::connect::ConnectStage;
use status_device::connect::ConnectionOutcome;
use status_device::connect::NetworkAddress;
use status_device::connect::NetworkConnector;

fn addr() -> NetworkAddress {
    NetworkAddress { o0: 192, o1: 168, o2: 1, o3: 100 }
}

#[test]
fn successful_bringup_reaches_ready() {
    let mut c = NetworkConnector::new();
    assert_eq!(c.stage, ConnectStage::Idle);
    assert!(c.pending_action().is_none());
    c.begin();
    assert_eq!(c.pending_action(), Some(ConnectAction::ApplyConfigurationAndStart));
    c.on_step_result(true);
    assert_eq!(c.pending_action(), Some(ConnectAction::Associate));
    c.on_step_result(true);
    assert_eq!(c.pending_action(), Some(ConnectAction::AwaitAddress));
    c.on_step_result(true);
    assert_eq!(c.stage, ConnectStage::Ready);
    assert_eq!(c.outcome(addr()), Some(ConnectionOutcome::Connected(addr())));
}

#[test]
fn configuration_rejection_is_fatal() {
    let mut c = NetworkConnector::new();
    c.begin();
    c.on_step_result(false);
    assert_eq!(c.stage, ConnectStage::Failed(ConnectFailure::ConfigurationRejected));
    assert_eq!(c.outcome(addr()), Some(ConnectionOutcome::Failed(ConnectFailure::ConfigurationRejected)));
}

#[test]
fn association_timeout_is_fatal() {
    let mut c = NetworkConnector::new();
    c.begin();
    c.on_step_result(true);
    c.on_step_result(false);
    assert_eq!(c.stage, ConnectStage::Failed(ConnectFailure::AssociationTimeout));
}

#[test]
fn address_assignment_failure_is_fatal() {
    let mut c = NetworkConnector::new();
    c.begin();
    c.on_step_result(true);
    c.on_step_result(true);
    c.on_step_result(false);
    assert_eq!(c.stage, ConnectStage::Failed(ConnectFailure::AddressAssignmentFailed));
}

#[test]
fn terminal_stages_absorb_further_events() {
    let mut c = NetworkConnector::new();
    c.begin();
    c.on_step_result(false);
    let failed = c.stage;
    c.on_step_result(true);
    assert_eq!(c.stage, failed);
}

#[test]
fn no_outcome_before_a_terminal_stage() {
    let mut c = NetworkConnector::new();
    c.begin();
    assert!(c.outcome(addr()).is_none());
    c.on_step_result(true);
    assert!(c.outcome(addr()).is_none());
}

#[test]
fn address_renders_in_dotted_decimal() {
    assert_eq!(addr().text(), "192.168.1.100");
    let a = NetworkAddress { o0: 0, o1: 0, o2: 0, o3: 0 };
    assert_eq!(a.text(), "0.0.0.0");
    let b = NetworkAddress { o0: 255, o1: 255, o2: 255, o3: 255 };
    assert_eq!(b.text(), "255.255.255.255");
}
