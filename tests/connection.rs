use desk_control::connection::{
    resolve_endpoints, ConnectAction, ConnectError, ConnectEvent, Connector, EndpointKind,
    EndpointPair, Phase, ScanError, TransportError, CONNECT_ATTEMPTS, OPEN_SCAN_SECS,
    TARGETED_SCAN_SECS,
};
use desk_control::discovery::ObservedDevice;
use desk_control::protocol::{CONTROL_ENDPOINT_ID, HEIGHT_ENDPOINT_ID, REFERENCE_INPUT_ID};

fn device(address: &str, name: Option<&str>) -> ObservedDevice {
    ObservedDevice { address: address.to_string(), name: name.map(|n| n.to_string()) }
}

/// A transport that answers from a script and counts what it was asked.
struct FakeTransport {
    devices: Vec<ObservedDevice>,
    endpoints: Vec<u128>,
    /// Outcome of each link request, in turn; past the end, requests fail.
    link_results: Vec<Result<(), TransportError>>,
    linked: bool,
    /// A failed link request still leaves the link up.
    failures_leave_link: bool,
    no_adapter: bool,
    scans: usize,
    links: usize,
    releases: usize,
    slept_ms: u64,
}

impl FakeTransport {
    fn new(devices: Vec<ObservedDevice>, link_results: Vec<Result<(), TransportError>>) -> Self {
        FakeTransport {
            devices,
            endpoints: vec![REFERENCE_INPUT_ID, CONTROL_ENDPOINT_ID, HEIGHT_ENDPOINT_ID],
            link_results,
            linked: false,
            failures_leave_link: false,
            no_adapter: false,
            scans: 0,
            links: 0,
            releases: 0,
            slept_ms: 0,
        }
    }

    fn answer(&mut self, action: &ConnectAction) -> ConnectEvent {
        match action {
            ConnectAction::Scan { .. } => {
                self.scans += 1;
                if self.no_adapter {
                    ConnectEvent::ScanFailed(ScanError::NoAdapter)
                } else {
                    ConnectEvent::Scanned(self.devices.clone())
                }
            }
            ConnectAction::Sleep { ms } => {
                self.slept_ms += ms;
                ConnectEvent::Slept
            }
            ConnectAction::QueryLink { .. } => ConnectEvent::LinkStatus(Ok(self.linked)),
            ConnectAction::Link { .. } => {
                let r = self
                    .link_results
                    .get(self.links)
                    .cloned()
                    .unwrap_or(Err(TransportError::Timeout));
                self.links += 1;
                match r {
                    Ok(()) => self.linked = true,
                    Err(_) => self.linked = self.failures_leave_link,
                }
                ConnectEvent::LinkDone(r)
            }
            ConnectAction::DiscoverServices { .. } => {
                ConnectEvent::ServicesFound(Ok(self.endpoints.clone()))
            }
            ConnectAction::Release => {
                self.releases += 1;
                self.linked = false;
                ConnectEvent::Released
            }
            other => panic!("no answer to {:?}", other),
        }
    }
}

/// Run a connection to the end; the final action is `Ready` or `Fail`.
fn run(target: Option<&str>, t: &mut FakeTransport) -> (ConnectAction, Connector) {
    let mut c = Connector::new(target.map(|s| s.to_string()));
    let mut action = c.step(ConnectEvent::Start);
    for _ in 0..200 {
        match action {
            ConnectAction::Ready { .. } | ConnectAction::Fail(_) | ConnectAction::Ignore => {
                return (action, c);
            }
            _ => {}
        }
        let event = t.answer(&action);
        action = c.step(event);
    }
    panic!("connection did not end");
}

fn failed(m: &str) -> Result<(), TransportError> {
    Err(TransportError::Failed(m.to_string()))
}

#[test]
fn ready_after_two_failed_links() {
    let mut t = FakeTransport::new(
        vec![device("11", Some("Chair")), device("22", Some("Desk 123"))],
        vec![failed("first"), Err(TransportError::Timeout), Ok(())],
    );
    let (action, c) = run(None, &mut t);
    match action {
        ConnectAction::Ready { device, endpoints } => {
            assert_eq!(device, 1);
            assert_eq!(endpoints, EndpointPair { control: 1, height: 2 });
        }
        other => panic!("expected ready, got {:?}", other),
    }
    assert_eq!(t.links, 3);
    assert_eq!(c.phase, Phase::Ready);
    assert_eq!(c.attempt, 3);
}

#[test]
fn fails_after_three_links_with_last_error() {
    let mut t = FakeTransport::new(
        vec![device("22", Some("Desk 123"))],
        vec![Err(TransportError::Timeout), failed("second"), failed("third"), Ok(())],
    );
    let (action, c) = run(Some("22"), &mut t);
    match action {
        ConnectAction::Fail(ConnectError::ConnectTransportError(m)) => assert_eq!(m, "third"),
        other => panic!("expected the last transport error, got {:?}", other),
    }
    assert_eq!(t.links, CONNECT_ATTEMPTS as usize);
    assert_eq!(c.phase, Phase::Failed);
}

#[test]
fn last_link_timeout_is_reported() {
    let mut t = FakeTransport::new(vec![device("22", Some("DPG"))], vec![]);
    let (action, _) = run(None, &mut t);
    assert!(matches!(action, ConnectAction::Fail(ConnectError::ConnectTimeout)));
    assert_eq!(t.links, 3);
}

#[test]
fn whole_round_is_retried_with_a_new_scan() {
    let mut t = FakeTransport::new(vec![device("22", Some("Desk"))], vec![failed("x"), Ok(())]);
    let (action, _) = run(Some("22"), &mut t);
    assert!(matches!(action, ConnectAction::Ready { .. }));
    assert_eq!(t.scans, 2);
    assert_eq!(t.links, 2);
}

#[test]
fn link_left_open_is_released_before_retry() {
    let mut t = FakeTransport::new(vec![device("22", Some("Desk"))], vec![failed("x"), Ok(())]);
    t.failures_leave_link = true;
    let (action, _) = run(None, &mut t);
    assert!(matches!(action, ConnectAction::Ready { .. }));
    assert_eq!(t.releases, 1);
}

#[test]
fn already_linked_device_is_not_linked_again() {
    let mut t = FakeTransport::new(vec![device("22", Some("Desk"))], vec![]);
    t.linked = true;
    let (action, _) = run(None, &mut t);
    assert!(matches!(action, ConnectAction::Ready { device: 0, .. }));
    assert_eq!(t.links, 0);
}

#[test]
fn no_candidates_after_one_open_scan() {
    let mut t = FakeTransport::new(vec![device("11", Some("Chair")), device("12", None)], vec![]);
    let (action, _) = run(None, &mut t);
    assert!(matches!(action, ConnectAction::Fail(ConnectError::NoCandidatesFound)));
    assert_eq!(t.scans, 1);
}

#[test]
fn unknown_address_is_not_found_after_several_scans() {
    let mut t = FakeTransport::new(vec![device("11", Some("Desk"))], vec![]);
    let (action, _) = run(Some("99"), &mut t);
    assert!(matches!(action, ConnectAction::Fail(ConnectError::DeviceNotFound)));
    assert_eq!(t.scans, 3);
    assert_eq!(t.links, 0);
}

#[test]
fn missing_adapter_fails_at_once() {
    let mut t = FakeTransport::new(vec![], vec![]);
    t.no_adapter = true;
    let (action, _) = run(None, &mut t);
    assert!(matches!(action, ConnectAction::Fail(ConnectError::NoAdapter)));
    assert_eq!(t.scans, 1);
}

#[test]
fn scan_transport_error_is_reported() {
    let mut c = Connector::new(None);
    c.step(ConnectEvent::Start);
    let a = c.step(ConnectEvent::ScanFailed(ScanError::Transport("off".to_string())));
    assert!(matches!(a, ConnectAction::Fail(ConnectError::ScanFailure(ref m)) if m == "off"));
}

#[test]
fn missing_endpoint_is_not_retried() {
    let mut t = FakeTransport::new(vec![device("22", Some("Desk"))], vec![Ok(()), Ok(())]);
    t.endpoints = vec![CONTROL_ENDPOINT_ID];
    let (action, _) = run(None, &mut t);
    assert!(matches!(
        action,
        ConnectAction::Fail(ConnectError::MissingEndpoint(EndpointKind::Height))
    ));
    assert_eq!(t.links, 1);
    assert_eq!(t.scans, 1);
    assert_eq!(t.releases, 1);
}

#[test]
fn service_discovery_failure_is_not_retried() {
    let mut c = Connector::new(None);
    c.step(ConnectEvent::Start);
    c.step(ConnectEvent::Scanned(vec![device("1", Some("desk"))]));
    c.step(ConnectEvent::Slept);
    c.step(ConnectEvent::LinkStatus(Ok(true)));
    let a = c.step(ConnectEvent::ServicesFound(Err(TransportError::Timeout)));
    assert!(matches!(a, ConnectAction::QueryLink { .. }));
    let a = c.step(ConnectEvent::LinkStatus(Ok(false)));
    assert!(matches!(
        a,
        ConnectAction::Fail(ConnectError::ServiceDiscoveryFailure(TransportError::Timeout))
    ));
}

#[test]
fn scan_lengths_depend_on_target() {
    let mut c = Connector::new(None);
    assert!(matches!(c.step(ConnectEvent::Start), ConnectAction::Scan { secs } if secs == OPEN_SCAN_SECS));
    let mut c = Connector::new(Some("1".to_string()));
    assert!(matches!(c.step(ConnectEvent::Start), ConnectAction::Scan { secs } if secs == TARGETED_SCAN_SECS));
    assert_eq!(OPEN_SCAN_SECS, 10);
    assert_eq!(TARGETED_SCAN_SECS, 5);
}

#[test]
fn out_of_order_event_is_ignored() {
    let mut c = Connector::new(None);
    assert!(matches!(c.step(ConnectEvent::Slept), ConnectAction::Ignore));
    assert_eq!(c.phase, Phase::Idle);
}

#[test]
fn endpoints_resolved_by_identifier() {
    assert_eq!(
        resolve_endpoints(&vec![HEIGHT_ENDPOINT_ID, CONTROL_ENDPOINT_ID]),
        Ok(EndpointPair { control: 1, height: 0 })
    );
    assert_eq!(resolve_endpoints(&vec![HEIGHT_ENDPOINT_ID]), Err(EndpointKind::Control));
    assert_eq!(resolve_endpoints(&vec![]), Err(EndpointKind::Control));
    assert_eq!(resolve_endpoints(&vec![CONTROL_ENDPOINT_ID]), Err(EndpointKind::Height));
}
