use vstd::prelude::*;

use crate::discovery::{select_candidate, selected, target_view, ObservedDevice};
use crate::protocol::{CONTROL_ENDPOINT_ID, HEIGHT_ENDPOINT_ID};

verus! {

/// Connection rounds (scan, link, service discovery) made before giving up.
pub const CONNECT_ATTEMPTS: u32 = 3;

/// Scans made within one round when a known address is looked for.
pub const TARGETED_SCAN_ROUNDS: u32 = 3;

/// Length of one scan when a known address is looked for, in seconds.
pub const TARGETED_SCAN_SECS: u64 = 5;

/// Length of the scan when no address is known yet, in seconds.
pub const OPEN_SCAN_SECS: u64 = 10;

/// Pause between two scans of one round, in milliseconds.
pub const RESCAN_PAUSE_MS: u64 = 1000;

/// Pause after a scan, before touching the chosen device, in milliseconds.
pub const SETTLE_MS: u64 = 1000;

/// Bound on one query of the link state, in milliseconds.
pub const LINK_STATUS_TIMEOUT_MS: u64 = 5000;

/// Bound on one request to link, in milliseconds.
pub const LINK_TIMEOUT_MS: u64 = 15000;

/// Bound on service discovery, in milliseconds.
pub const DISCOVERY_TIMEOUT_MS: u64 = 10000;

/// Pause after releasing a link that a failed round left open, in milliseconds.
pub const RELEASE_PAUSE_MS: u64 = 500;

/// Pause before a new round, in milliseconds.
pub const RETRY_PAUSE_MS: u64 = 2000;

/// How one operation of the wireless transport failed.
#[derive(Debug, Clone)]
pub enum TransportError {
    /// The operation did not finish within its bound.
    Timeout,
    /// The transport reported an error, described by the message.
    Failed(String),
}

/// How a scan failed.
#[derive(Debug, Clone)]
pub enum ScanError {
    /// No local wireless adapter is available.
    NoAdapter,
    /// The transport reported an error while scanning.
    Transport(String),
}

/// One of the two endpoints a desk controller must offer.
#[derive(Debug, Clone, Copy, PartialEq, Eq, Structural)]
pub enum EndpointKind {
    /// The endpoint that accepts movement commands.
    Control,
    /// The endpoint that reports the height.
    Height,
}

/// Why a connection could not be established.
#[derive(Debug, Clone)]
pub enum ConnectError {
    /// No local wireless adapter is available.
    NoAdapter,
    /// Scanning failed in the transport.
    ScanFailure(String),
    /// No device that looks like a desk was seen.
    NoCandidatesFound,
    /// Desks were seen, but none with the requested address.
    DeviceNotFound,
    /// Linking to the device did not finish in time.
    ConnectTimeout,
    /// Linking to the device failed in the transport.
    ConnectTransportError(String),
    /// The device's endpoints could not be listed.
    ServiceDiscoveryFailure(TransportError),
    /// The device lacks one of the required endpoints: it is no desk controller.
    MissingEndpoint(EndpointKind),
}

/// Positions of the control and height endpoints in the list of endpoints
/// that service discovery reported.
#[derive(Debug, Clone, Copy, PartialEq, Eq, Structural)]
pub struct EndpointPair {
    pub control: usize,
    pub height: usize,
}

/// Where a connection attempt stands, and what it waits for.
#[derive(Debug, Clone, Copy, PartialEq, Eq, Structural)]
pub enum Phase {
    /// Not started.
    Idle,
    /// Waiting for a scan to end.
    Scanning,
    /// Waiting out the pause before another scan of the same round.
    PausingBeforeRescan,
    /// Waiting out the pause after a scan.
    Settling,
    /// Waiting to learn whether the chosen device is linked.
    CheckingLink,
    /// Waiting for a link request to end.
    Linking,
    /// Waiting for service discovery to end.
    DiscoveringServices,
    /// After a failure: waiting to learn whether a link is left open.
    CheckingAfterFailure,
    /// After a failure: waiting for a link to be released.
    Releasing,
    /// After a release: waiting out the release pause.
    PausingAfterRelease,
    /// Waiting out the pause before a new round.
    PausingBeforeRetry,
    /// Connected; both endpoints are known.
    Ready,
    /// Given up.
    Failed,
}

/// What the transport reports back to the connection state machine.
pub enum ConnectEvent {
    /// The caller asks for a connection.
    Start,
    /// A scan ended; these devices were seen, in this order.
    Scanned(Vec<ObservedDevice>),
    /// A scan could not be made.
    ScanFailed(ScanError),
    /// A pause ended.
    Slept,
    /// Whether the chosen device is linked.
    LinkStatus(Result<bool, TransportError>),
    /// A link request ended.
    LinkDone(Result<(), TransportError>),
    /// Service discovery ended with the identifiers of the device's endpoints.
    ServicesFound(Result<Vec<u128>, TransportError>),
    /// A release of the link ended (its outcome does not matter).
    Released,
}

/// What the caller of the state machine must do next.
#[derive(Debug)]
pub enum ConnectAction {
    /// Scan for this many seconds, then report `Scanned` or `ScanFailed`.
    Scan { secs: u64 },
    /// Pause this long, then report `Slept`.
    Sleep { ms: u64 },
    /// Ask, within the bound, whether the chosen device is linked; report `LinkStatus`.
    QueryLink { timeout_ms: u64 },
    /// Ask, within the bound, for a link to the chosen device; report `LinkDone`.
    Link { timeout_ms: u64 },
    /// List, within the bound, the chosen device's endpoints; report `ServicesFound`.
    DiscoverServices { timeout_ms: u64 },
    /// Release the link to the chosen device; report `Released`.
    Release,
    /// Done: the device at position `device` of the last scan is connected.
    Ready { device: usize, endpoints: EndpointPair },
    /// Done: no connection.
    Fail(ConnectError),
    /// The event does not fit the current phase; nothing changed.
    Ignore,
}

/// The connection state machine: scan, select, link, discover services, with
/// a bounded number of rounds.
#[derive(Debug)]
pub struct Connector {
    /// Address of the desk to connect to, or `None` for the first desk seen.
    pub target: Option<String>,
    pub phase: Phase,
    /// The current round, from 1 once started.
    pub attempt: u32,
    /// Scans made in the current round.
    pub scan_round: u32,
    /// Position of the chosen device in the last scan.
    pub chosen: usize,
    /// The failure of the current round, while it is being cleaned up.
    pub last_error: Option<ConnectError>,
    /// Whether the current round's failure may be retried.
    pub retryable: bool,
}

/// The first position at or after `i` that holds `id`.
pub open spec fn first_index_of(ids: Seq<u128>, id: u128, i: nat) -> Option<nat>
    decreases ids.len() - i,
{
    if i >= ids.len() {
        None
    } else if ids[i as int] == id {
        Some(i)
    } else {
        first_index_of(ids, id, i + 1)
    }
}

/// The endpoints of a device with these endpoint identifiers, or the first
/// one that is missing (control before height).
pub open spec fn endpoints_of(ids: Seq<u128>) -> Result<EndpointPair, EndpointKind> {
    match first_index_of(ids, CONTROL_ENDPOINT_ID, 0) {
        None => Err(EndpointKind::Control),
        Some(c) => match first_index_of(ids, HEIGHT_ENDPOINT_ID, 0) {
            None => Err(EndpointKind::Height),
            Some(h) => Ok(EndpointPair { control: c as usize, height: h as usize }),
        },
    }
}

/// The error that a failed link (or link query) stands for.
pub open spec fn link_error(t: TransportError) -> ConnectError {
    match t {
        TransportError::Timeout => ConnectError::ConnectTimeout,
        TransportError::Failed(m) => ConnectError::ConnectTransportError(m),
    }
}

/// The error that a failed scan stands for.
pub open spec fn scan_error(e: ScanError) -> ConnectError {
    match e {
        ScanError::NoAdapter => ConnectError::NoAdapter,
        ScanError::Transport(m) => ConnectError::ScanFailure(m),
    }
}

/// Length of one scan, in seconds.
pub open spec fn scan_secs_of(c: Connector) -> u64 {
    if c.target is Some {
        TARGETED_SCAN_SECS
    } else {
        OPEN_SCAN_SECS
    }
}

/// Scans made in one round before the device counts as absent.
pub open spec fn scan_rounds_of(c: Connector) -> u32 {
    if c.target is Some {
        TARGETED_SCAN_ROUNDS
    } else {
        1
    }
}

/// After a failure has been cleaned up: no further round follows.
pub open spec fn gives_up(c: Connector) -> bool {
    !c.retryable || c.attempt >= CONNECT_ATTEMPTS
}

/// A round failed with `err`: find out whether a link is left open.
pub open spec fn on_failure(c: Connector, err: ConnectError, retryable: bool) -> (
    Connector,
    ConnectAction,
) {
    (
        Connector {
            phase: Phase::CheckingAfterFailure,
            last_error: Some(err),
            retryable,
            ..c
        },
        ConnectAction::QueryLink { timeout_ms: LINK_STATUS_TIMEOUT_MS },
    )
}

/// A failed round is cleaned up: give up with its error, or pause before the
/// next round.
pub open spec fn after_cleanup(c: Connector, pause_ms: u64, next: Phase) -> (
    Connector,
    ConnectAction,
) {
    if gives_up(c) {
        (
            Connector { phase: Phase::Failed, last_error: None, ..c },
            ConnectAction::Fail(c.last_error->Some_0),
        )
    } else {
        (Connector { phase: next, ..c }, ConnectAction::Sleep { ms: pause_ms })
    }
}

/// A state machine that has not started, for a connection to `target` (or to
/// the first desk seen).
pub open spec fn initial(target: Option<String>) -> Connector {
    Connector {
        target,
        phase: Phase::Idle,
        attempt: 0,
        scan_round: 0,
        chosen: 0,
        last_error: None,
        retryable: true,
    }
}

/// The state machine: the next state and action for an event.
pub open spec fn transition(c: Connector, e: ConnectEvent) -> (Connector, ConnectAction) {
    let ignore = (c, ConnectAction::Ignore);
    match e {
        ConnectEvent::Start => if c.phase == Phase::Idle {
            (
                Connector { phase: Phase::Scanning, attempt: 1, scan_round: 1, ..c },
                ConnectAction::Scan { secs: scan_secs_of(c) },
            )
        } else {
            ignore
        },
        ConnectEvent::Scanned(devs) => if c.phase == Phase::Scanning {
            match selected(devs@, target_view(c.target)) {
                Some(i) => (
                    Connector { phase: Phase::Settling, chosen: i as usize, ..c },
                    ConnectAction::Sleep { ms: SETTLE_MS },
                ),
                None => if c.scan_round < scan_rounds_of(c) {
                    (
                        Connector { phase: Phase::PausingBeforeRescan, ..c },
                        ConnectAction::Sleep { ms: RESCAN_PAUSE_MS },
                    )
                } else if c.target is Some && selected(devs@, None) is Some {
                    (
                        Connector { phase: Phase::Failed, ..c },
                        ConnectAction::Fail(ConnectError::DeviceNotFound),
                    )
                } else {
                    (
                        Connector { phase: Phase::Failed, ..c },
                        ConnectAction::Fail(ConnectError::NoCandidatesFound),
                    )
                },
            }
        } else {
            ignore
        },
        ConnectEvent::ScanFailed(err) => if c.phase == Phase::Scanning {
            (Connector { phase: Phase::Failed, ..c }, ConnectAction::Fail(scan_error(err)))
        } else {
            ignore
        },
        ConnectEvent::Slept => if c.phase == Phase::PausingBeforeRescan {
            (
                Connector { phase: Phase::Scanning, scan_round: (c.scan_round + 1) as u32, ..c },
                ConnectAction::Scan { secs: scan_secs_of(c) },
            )
        } else if c.phase == Phase::Settling {
            (
                Connector { phase: Phase::CheckingLink, ..c },
                ConnectAction::QueryLink { timeout_ms: LINK_STATUS_TIMEOUT_MS },
            )
        } else if c.phase == Phase::PausingAfterRelease {
            (
                Connector { phase: Phase::PausingBeforeRetry, ..c },
                ConnectAction::Sleep { ms: RETRY_PAUSE_MS },
            )
        } else if c.phase == Phase::PausingBeforeRetry {
            (
                Connector {
                    phase: Phase::Scanning,
                    attempt: (c.attempt + 1) as u32,
                    scan_round: 1,
                    last_error: None,
                    ..c
                },
                ConnectAction::Scan { secs: scan_secs_of(c) },
            )
        } else {
            ignore
        },
        ConnectEvent::LinkStatus(status) => if c.phase == Phase::CheckingLink {
            match status {
                Ok(true) => (
                    Connector { phase: Phase::DiscoveringServices, ..c },
                    ConnectAction::DiscoverServices { timeout_ms: DISCOVERY_TIMEOUT_MS },
                ),
                Ok(false) => (
                    Connector { phase: Phase::Linking, ..c },
                    ConnectAction::Link { timeout_ms: LINK_TIMEOUT_MS },
                ),
                Err(t) => on_failure(c, link_error(t), true),
            }
        } else if c.phase == Phase::CheckingAfterFailure {
            match status {
                Ok(true) => (Connector { phase: Phase::Releasing, ..c }, ConnectAction::Release),
                _ => after_cleanup(c, RETRY_PAUSE_MS, Phase::PausingBeforeRetry),
            }
        } else {
            ignore
        },
        ConnectEvent::LinkDone(result) => if c.phase == Phase::Linking {
            match result {
                Ok(()) => (
                    Connector { phase: Phase::DiscoveringServices, ..c },
                    ConnectAction::DiscoverServices { timeout_ms: DISCOVERY_TIMEOUT_MS },
                ),
                Err(t) => on_failure(c, link_error(t), true),
            }
        } else {
            ignore
        },
        ConnectEvent::ServicesFound(result) => if c.phase == Phase::DiscoveringServices {
            match result {
                Ok(ids) => match endpoints_of(ids@) {
                    Ok(pair) => (
                        Connector { phase: Phase::Ready, ..c },
                        ConnectAction::Ready { device: c.chosen, endpoints: pair },
                    ),
                    Err(kind) => on_failure(c, ConnectError::MissingEndpoint(kind), false),
                },
                Err(t) => on_failure(c, ConnectError::ServiceDiscoveryFailure(t), false),
            }
        } else {
            ignore
        },
        ConnectEvent::Released => if c.phase == Phase::Releasing {
            after_cleanup(c, RELEASE_PAUSE_MS, Phase::PausingAfterRelease)
        } else {
            ignore
        },
    }
}

/// The position of the first `id` in `ids`.
fn index_of(ids: &Vec<u128>, id: u128) -> (r: Option<usize>)
    ensures
        r == (match first_index_of(ids@, id, 0) {
            Some(i) => Some(i as usize),
            None => None,
        }),
{
    let mut i: usize = 0;
    while i < ids.len()
        invariant
            i <= ids@.len(),
            first_index_of(ids@, id, 0) == first_index_of(ids@, id, i as nat),
        decreases ids@.len() - i,
    {
        if ids[i] == id {
            return Some(i);
        }
        i = i + 1;
    }
    None
}

/// Locate the control and height endpoints among the identifiers that service
/// discovery reported; a missing one is named in the error.
pub fn resolve_endpoints(ids: &Vec<u128>) -> (r: Result<EndpointPair, EndpointKind>)
    ensures
        r == endpoints_of(ids@),
{
    match index_of(ids, CONTROL_ENDPOINT_ID) {
        None => Err(EndpointKind::Control),
        Some(c) => match index_of(ids, HEIGHT_ENDPOINT_ID) {
            None => Err(EndpointKind::Height),
            Some(h) => Ok(EndpointPair { control: c, height: h }),
        },
    }
}

/// The connection error for a failed link (or link query).
fn link_failure(t: TransportError) -> (r: ConnectError)
    ensures
        r == link_error(t),
{
    match t {
        TransportError::Timeout => ConnectError::ConnectTimeout,
        TransportError::Failed(m) => ConnectError::ConnectTransportError(m),
    }
}

impl Connector {
    /// The state invariant.
    pub open spec fn wf(&self) -> bool {
        &&& self.attempt <= CONNECT_ATTEMPTS
        &&& (self.phase == Phase::Idle) == (self.attempt == 0)
        &&& self.scan_round <= scan_rounds_of(*self)
        &&& self.phase == Phase::PausingBeforeRescan ==> self.scan_round < scan_rounds_of(*self)
        &&& (self.phase == Phase::CheckingAfterFailure || self.phase == Phase::Releasing)
            ==> self.last_error is Some
        &&& (self.phase == Phase::PausingAfterRelease || self.phase == Phase::PausingBeforeRetry)
            ==> self.attempt < CONNECT_ATTEMPTS
    }

    /// A state machine, not yet started, for a connection to the desk with
    /// address `target`, or to the first desk seen when `target` is `None`.
    pub fn new(target: Option<String>) -> (r: Connector)
        ensures
            r.wf(),
            r == initial(target),
    {
        Connector {
            target,
            phase: Phase::Idle,
            attempt: 0,
            scan_round: 0,
            chosen: 0,
            last_error: None,
            retryable: true,
        }
    }

    fn scan_secs(&self) -> (r: u64)
        ensures
            r == scan_secs_of(*self),
    {
        if self.target.is_some() {
            TARGETED_SCAN_SECS
        } else {
            OPEN_SCAN_SECS
        }
    }

    fn scan_rounds(&self) -> (r: u32)
        ensures
            r == scan_rounds_of(*self),
    {
        if self.target.is_some() {
            TARGETED_SCAN_ROUNDS
        } else {
            1
        }
    }

    fn fail_round(&mut self, err: ConnectError, retryable: bool) -> (a: ConnectAction)
        requires
            old(self).wf(),
            old(self).phase != Phase::Idle,
        ensures
            (*final(self), a) == on_failure(*old(self), err, retryable),
    {
        self.phase = Phase::CheckingAfterFailure;
        self.last_error = Some(err);
        self.retryable = retryable;
        ConnectAction::QueryLink { timeout_ms: LINK_STATUS_TIMEOUT_MS }
    }

    fn finish_cleanup(&mut self, pause_ms: u64, next: Phase) -> (a: ConnectAction)
        requires
            old(self).last_error is Some,
        ensures
            (*final(self), a) == after_cleanup(*old(self), pause_ms, next),
    {
        if !self.retryable || self.attempt >= CONNECT_ATTEMPTS {
            self.phase = Phase::Failed;
            match self.last_error.take() {
                Some(e) => ConnectAction::Fail(e),
                None => ConnectAction::Ignore,
            }
        } else {
            self.phase = next;
            ConnectAction::Sleep { ms: pause_ms }
        }
    }

    /// Advance the state machine by one event and say what to do next.
    pub fn step(&mut self, event: ConnectEvent) -> (a: ConnectAction)
        requires
            old(self).wf(),
        ensures
            final(self).wf(),
            (*final(self), a) == transition(*old(self), event),
    {
        match event {
            ConnectEvent::Start => {
                if self.phase == Phase::Idle {
                    self.phase = Phase::Scanning;
                    self.attempt = 1;
                    self.scan_round = 1;
                    ConnectAction::Scan { secs: self.scan_secs() }
                } else {
                    ConnectAction::Ignore
                }
            },
            ConnectEvent::Scanned(devs) => {
                if self.phase != Phase::Scanning {
                    return ConnectAction::Ignore;
                }
                match select_candidate(&devs, &self.target) {
                    Some(i) => {
                        self.phase = Phase::Settling;
                        self.chosen = i;
                        ConnectAction::Sleep { ms: SETTLE_MS }
                    },
                    None => {
                        if self.scan_round < self.scan_rounds() {
                            self.phase = Phase::PausingBeforeRescan;
                            ConnectAction::Sleep { ms: RESCAN_PAUSE_MS }
                        } else {
                            self.phase = Phase::Failed;
                            if self.target.is_some() && select_candidate(&devs, &None).is_some() {
                                ConnectAction::Fail(ConnectError::DeviceNotFound)
                            } else {
                                ConnectAction::Fail(ConnectError::NoCandidatesFound)
                            }
                        }
                    },
                }
            },
            ConnectEvent::ScanFailed(err) => {
                if self.phase != Phase::Scanning {
                    return ConnectAction::Ignore;
                }
                self.phase = Phase::Failed;
                match err {
                    ScanError::NoAdapter => ConnectAction::Fail(ConnectError::NoAdapter),
                    ScanError::Transport(m) => ConnectAction::Fail(ConnectError::ScanFailure(m)),
                }
            },
            ConnectEvent::Slept => {
                if self.phase == Phase::PausingBeforeRescan {
                    self.phase = Phase::Scanning;
                    self.scan_round = self.scan_round + 1;
                    ConnectAction::Scan { secs: self.scan_secs() }
                } else if self.phase == Phase::Settling {
                    self.phase = Phase::CheckingLink;
                    ConnectAction::QueryLink { timeout_ms: LINK_STATUS_TIMEOUT_MS }
                } else if self.phase == Phase::PausingAfterRelease {
                    self.phase = Phase::PausingBeforeRetry;
                    ConnectAction::Sleep { ms: RETRY_PAUSE_MS }
                } else if self.phase == Phase::PausingBeforeRetry {
                    self.phase = Phase::Scanning;
                    self.attempt = self.attempt + 1;
                    self.scan_round = 1;
                    self.last_error = None;
                    ConnectAction::Scan { secs: self.scan_secs() }
                } else {
                    ConnectAction::Ignore
                }
            },
            ConnectEvent::LinkStatus(status) => {
                if self.phase == Phase::CheckingLink {
                    match status {
                        Ok(true) => {
                            self.phase = Phase::DiscoveringServices;
                            ConnectAction::DiscoverServices { timeout_ms: DISCOVERY_TIMEOUT_MS }
                        },
                        Ok(false) => {
                            self.phase = Phase::Linking;
                            ConnectAction::Link { timeout_ms: LINK_TIMEOUT_MS }
                        },
                        Err(t) => self.fail_round(link_failure(t), true),
                    }
                } else if self.phase == Phase::CheckingAfterFailure {
                    match status {
                        Ok(true) => {
                            self.phase = Phase::Releasing;
                            ConnectAction::Release
                        },
                        _ => self.finish_cleanup(RETRY_PAUSE_MS, Phase::PausingBeforeRetry),
                    }
                } else {
                    ConnectAction::Ignore
                }
            },
            ConnectEvent::LinkDone(result) => {
                if self.phase != Phase::Linking {
                    return ConnectAction::Ignore;
                }
                match result {
                    Ok(()) => {
                        self.phase = Phase::DiscoveringServices;
                        ConnectAction::DiscoverServices { timeout_ms: DISCOVERY_TIMEOUT_MS }
                    },
                    Err(t) => self.fail_round(link_failure(t), true),
                }
            },
            ConnectEvent::ServicesFound(result) => {
                if self.phase != Phase::DiscoveringServices {
                    return ConnectAction::Ignore;
                }
                match result {
                    Ok(ids) => match resolve_endpoints(&ids) {
                        Ok(pair) => {
                            self.phase = Phase::Ready;
                            ConnectAction::Ready { device: self.chosen, endpoints: pair }
                        },
                        Err(kind) => self.fail_round(ConnectError::MissingEndpoint(kind), false),
                    },
                    Err(t) => self.fail_round(ConnectError::ServiceDiscoveryFailure(t), false),
                }
            },
            ConnectEvent::Released => {
                if self.phase != Phase::Releasing {
                    return ConnectAction::Ignore;
                }
                self.finish_cleanup(RELEASE_PAUSE_MS, Phase::PausingAfterRelease)
            },
        }
    }
}

/// How a simulated transport answers an action: every scan sees `devs`, the
/// device is not linked until a link request succeeds, link request number `n`
/// (from 0) ends with `links[n]`, and service discovery finds `ids`.
pub open spec fn simulated_reply(
    devs: Vec<ObservedDevice>,
    ids: Vec<u128>,
    links: Seq<Result<(), TransportError>>,
    made: nat,
    a: ConnectAction,
) -> ConnectEvent {
    match a {
        ConnectAction::Scan { .. } => ConnectEvent::Scanned(devs),
        ConnectAction::Sleep { .. } => ConnectEvent::Slept,
        ConnectAction::QueryLink { .. } => ConnectEvent::LinkStatus(Ok(false)),
        ConnectAction::Link { .. } => ConnectEvent::LinkDone(links[made as int]),
        ConnectAction::DiscoverServices { .. } => ConnectEvent::ServicesFound(Ok(ids)),
        _ => ConnectEvent::Released,
    }
}

/// Run the state machine against the simulated transport for at most `fuel`
/// steps, from state `c` with pending action `a`, after `made` link requests.
/// Gives the last state, the last action, and the number of link requests made.
pub open spec fn simulate(
    c: Connector,
    a: ConnectAction,
    devs: Vec<ObservedDevice>,
    ids: Vec<u128>,
    links: Seq<Result<(), TransportError>>,
    made: nat,
    fuel: nat,
) -> (Connector, ConnectAction, nat)
    decreases fuel,
{
    if fuel == 0 || a is Ready || a is Fail || a is Ignore {
        (c, a, made)
    } else {
        let next = transition(c, simulated_reply(devs, ids, links, made, a));
        let made2 = if a is Link {
            made + 1
        } else {
            made
        };
        simulate(next.0, next.1, devs, ids, links, made2, (fuel - 1) as nat)
    }
}

/// A whole connection to `target` against the simulated transport, within
/// `fuel` steps.
pub open spec fn simulated_connect(
    target: Option<String>,
    devs: Vec<ObservedDevice>,
    ids: Vec<u128>,
    links: Seq<Result<(), TransportError>>,
    fuel: nat,
) -> (Connector, ConnectAction, nat) {
    let start = transition(initial(target), ConnectEvent::Start);
    simulate(start.0, start.1, devs, ids, links, 0, fuel)
}

/// One round whose link request fails, with rounds left: the machine scans
/// again in the next round after exactly one link request.
proof fn lemma_failed_round(
    c: Connector,
    devs: Vec<ObservedDevice>,
    ids: Vec<u128>,
    links: Seq<Result<(), TransportError>>,
    made: nat,
    fuel: nat,
)
    requires
        c.phase == Phase::Scanning,
        1 <= c.attempt < CONNECT_ATTEMPTS,
        selected(devs@, target_view(c.target)) is Some,
        made < links.len(),
        links[made as int] is Err,
        fuel >= 6,
    ensures
        simulate(c, ConnectAction::Scan { secs: scan_secs_of(c) }, devs, ids, links, made, fuel)
            == simulate(
            Connector {
                phase: Phase::Scanning,
                attempt: (c.attempt + 1) as u32,
                scan_round: 1,
                chosen: selected(devs@, target_view(c.target))->Some_0 as usize,
                last_error: None,
                retryable: true,
                ..c
            },
            ConnectAction::Scan { secs: scan_secs_of(c) },
            devs,
            ids,
            links,
            made + 1,
            (fuel - 6) as nat,
        ),
{
    let a0 = ConnectAction::Scan { secs: scan_secs_of(c) };
    let t1 = transition(c, simulated_reply(devs, ids, links, made, a0));
    let t2 = transition(t1.0, simulated_reply(devs, ids, links, made, t1.1));
    let t3 = transition(t2.0, simulated_reply(devs, ids, links, made, t2.1));
    let t4 = transition(t3.0, simulated_reply(devs, ids, links, made, t3.1));
    let t5 = transition(t4.0, simulated_reply(devs, ids, links, made + 1, t4.1));
    let t6 = transition(t5.0, simulated_reply(devs, ids, links, made + 1, t5.1));
    assert(t1.1 is Sleep && t1.0.phase == Phase::Settling);
    assert(t2.1 is QueryLink && t2.0.phase == Phase::CheckingLink);
    assert(t3.1 is Link && t3.0.phase == Phase::Linking);
    assert(t4.1 is QueryLink && t4.0.phase == Phase::CheckingAfterFailure);
    assert(t5.1 is Sleep && t5.0.phase == Phase::PausingBeforeRetry);
    assert(t6.1 == a0);
    assert(simulate(c, a0, devs, ids, links, made, fuel) == simulate(
        t1.0,
        t1.1,
        devs,
        ids,
        links,
        made,
        (fuel - 1) as nat,
    ));
    assert(simulate(t1.0, t1.1, devs, ids, links, made, (fuel - 1) as nat) == simulate(
        t2.0,
        t2.1,
        devs,
        ids,
        links,
        made,
        (fuel - 2) as nat,
    ));
    assert(simulate(t2.0, t2.1, devs, ids, links, made, (fuel - 2) as nat) == simulate(
        t3.0,
        t3.1,
        devs,
        ids,
        links,
        made,
        (fuel - 3) as nat,
    ));
    assert(simulate(t3.0, t3.1, devs, ids, links, made, (fuel - 3) as nat) == simulate(
        t4.0,
        t4.1,
        devs,
        ids,
        links,
        made + 1,
        (fuel - 4) as nat,
    ));
    assert(simulate(t4.0, t4.1, devs, ids, links, made + 1, (fuel - 4) as nat) == simulate(
        t5.0,
        t5.1,
        devs,
        ids,
        links,
        made + 1,
        (fuel - 5) as nat,
    ));
    assert(simulate(t5.0, t5.1, devs, ids, links, made + 1, (fuel - 5) as nat) == simulate(
        t6.0,
        t6.1,
        devs,
        ids,
        links,
        made + 1,
        (fuel - 6) as nat,
    ));
}

/// A round whose link request succeeds on a device with both endpoints ends
/// the connection, ready, after exactly one link request.
proof fn lemma_linked_round(
    c: Connector,
    devs: Vec<ObservedDevice>,
    ids: Vec<u128>,
    links: Seq<Result<(), TransportError>>,
    made: nat,
    fuel: nat,
)
    requires
        c.phase == Phase::Scanning,
        selected(devs@, target_view(c.target)) is Some,
        endpoints_of(ids@) is Ok,
        made < links.len(),
        links[made as int] is Ok,
        fuel >= 5,
    ensures
        ({
            let r = simulate(
                c,
                ConnectAction::Scan { secs: scan_secs_of(c) },
                devs,
                ids,
                links,
                made,
                fuel,
            );
            &&& r.0.phase == Phase::Ready
            &&& r.0.attempt == c.attempt
            &&& r.1 == ConnectAction::Ready {
                device: selected(devs@, target_view(c.target))->Some_0 as usize,
                endpoints: endpoints_of(ids@)->Ok_0,
            }
            &&& r.2 == made + 1
        }),
{
    let a0 = ConnectAction::Scan { secs: scan_secs_of(c) };
    let t1 = transition(c, simulated_reply(devs, ids, links, made, a0));
    let t2 = transition(t1.0, simulated_reply(devs, ids, links, made, t1.1));
    let t3 = transition(t2.0, simulated_reply(devs, ids, links, made, t2.1));
    let t4 = transition(t3.0, simulated_reply(devs, ids, links, made, t3.1));
    let t5 = transition(t4.0, simulated_reply(devs, ids, links, made + 1, t4.1));
    assert(t1.1 is Sleep && t1.0.phase == Phase::Settling);
    assert(t2.1 is QueryLink && t2.0.phase == Phase::CheckingLink);
    assert(t3.1 is Link && t3.0.phase == Phase::Linking);
    assert(t4.1 is DiscoverServices && t4.0.phase == Phase::DiscoveringServices);
    assert(t5.1 is Ready && t5.0.phase == Phase::Ready);
    assert(simulate(c, a0, devs, ids, links, made, fuel) == simulate(
        t1.0,
        t1.1,
        devs,
        ids,
        links,
        made,
        (fuel - 1) as nat,
    ));
    assert(simulate(t1.0, t1.1, devs, ids, links, made, (fuel - 1) as nat) == simulate(
        t2.0,
        t2.1,
        devs,
        ids,
        links,
        made,
        (fuel - 2) as nat,
    ));
    assert(simulate(t2.0, t2.1, devs, ids, links, made, (fuel - 2) as nat) == simulate(
        t3.0,
        t3.1,
        devs,
        ids,
        links,
        made,
        (fuel - 3) as nat,
    ));
    assert(simulate(t3.0, t3.1, devs, ids, links, made, (fuel - 3) as nat) == simulate(
        t4.0,
        t4.1,
        devs,
        ids,
        links,
        made + 1,
        (fuel - 4) as nat,
    ));
    assert(simulate(t4.0, t4.1, devs, ids, links, made + 1, (fuel - 4) as nat) == simulate(
        t5.0,
        t5.1,
        devs,
        ids,
        links,
        made + 1,
        (fuel - 5) as nat,
    ));
}

/// The last round, whose link request fails: the connection fails with that
/// request's error after exactly one more link request.
proof fn lemma_last_failed_round(
    c: Connector,
    devs: Vec<ObservedDevice>,
    ids: Vec<u128>,
    links: Seq<Result<(), TransportError>>,
    made: nat,
    fuel: nat,
)
    requires
        c.phase == Phase::Scanning,
        c.attempt == CONNECT_ATTEMPTS,
        selected(devs@, target_view(c.target)) is Some,
        made < links.len(),
        links[made as int] is Err,
        fuel >= 5,
    ensures
        ({
            let r = simulate(
                c,
                ConnectAction::Scan { secs: scan_secs_of(c) },
                devs,
                ids,
                links,
                made,
                fuel,
            );
            &&& r.0.phase == Phase::Failed
            &&& r.1 == ConnectAction::Fail(link_error(links[made as int]->Err_0))
            &&& r.2 == made + 1
        }),
{
    let a0 = ConnectAction::Scan { secs: scan_secs_of(c) };
    let t1 = transition(c, simulated_reply(devs, ids, links, made, a0));
    let t2 = transition(t1.0, simulated_reply(devs, ids, links, made, t1.1));
    let t3 = transition(t2.0, simulated_reply(devs, ids, links, made, t2.1));
    let t4 = transition(t3.0, simulated_reply(devs, ids, links, made, t3.1));
    let t5 = transition(t4.0, simulated_reply(devs, ids, links, made + 1, t4.1));
    assert(t1.1 is Sleep && t1.0.phase == Phase::Settling);
    assert(t2.1 is QueryLink && t2.0.phase == Phase::CheckingLink);
    assert(t3.1 is Link && t3.0.phase == Phase::Linking);
    assert(t4.1 is QueryLink && t4.0.phase == Phase::CheckingAfterFailure);
    assert(t5.1 is Fail && t5.0.phase == Phase::Failed);
    assert(simulate(c, a0, devs, ids, links, made, fuel) == simulate(
        t1.0,
        t1.1,
        devs,
        ids,
        links,
        made,
        (fuel - 1) as nat,
    ));
    assert(simulate(t1.0, t1.1, devs, ids, links, made, (fuel - 1) as nat) == simulate(
        t2.0,
        t2.1,
        devs,
        ids,
        links,
        made,
        (fuel - 2) as nat,
    ));
    assert(simulate(t2.0, t2.1, devs, ids, links, made, (fuel - 2) as nat) == simulate(
        t3.0,
        t3.1,
        devs,
        ids,
        links,
        made,
        (fuel - 3) as nat,
    ));
    assert(simulate(t3.0, t3.1, devs, ids, links, made, (fuel - 3) as nat) == simulate(
        t4.0,
        t4.1,
        devs,
        ids,
        links,
        made + 1,
        (fuel - 4) as nat,
    ));
    assert(simulate(t4.0, t4.1, devs, ids, links, made + 1, (fuel - 4) as nat) == simulate(
        t5.0,
        t5.1,
        devs,
        ids,
        links,
        made + 1,
        (fuel - 5) as nat,
    ));
}

/// A transport whose first two link requests fail and whose third succeeds:
/// the connection ends ready, to the selected device with its endpoints,
/// after exactly three link requests.
pub proof fn lemma_ready_after_third_link(
    target: Option<String>,
    devs: Vec<ObservedDevice>,
    ids: Vec<u128>,
    links: Seq<Result<(), TransportError>>,
)
    requires
        selected(devs@, target_view(target)) is Some,
        endpoints_of(ids@) is Ok,
        links.len() == 3,
        links[0] is Err,
        links[1] is Err,
        links[2] is Ok,
    ensures
        ({
            let r = simulated_connect(target, devs, ids, links, 20);
            &&& r.0.phase == Phase::Ready
            &&& r.1 == ConnectAction::Ready {
                device: selected(devs@, target_view(target))->Some_0 as usize,
                endpoints: endpoints_of(ids@)->Ok_0,
            }
            &&& r.2 == 3
        }),
{
    let start = transition(initial(target), ConnectEvent::Start);
    let c1 = start.0;
    let a = start.1;
    assert(c1.phase == Phase::Scanning && c1.attempt == 1);
    assert(a == ConnectAction::Scan { secs: scan_secs_of(c1) });
    lemma_failed_round(c1, devs, ids, links, 0, 20);
    let c2 = Connector {
        phase: Phase::Scanning,
        attempt: 2,
        scan_round: 1,
        chosen: selected(devs@, target_view(target))->Some_0 as usize,
        last_error: None,
        retryable: true,
        ..c1
    };
    assert(scan_secs_of(c2) == scan_secs_of(c1));
    lemma_failed_round(c2, devs, ids, links, 1, 14);
    let c3 = Connector { attempt: 3, ..c2 };
    assert(scan_secs_of(c3) == scan_secs_of(c1));
    lemma_linked_round(c3, devs, ids, links, 2, 8);
}

/// A transport whose link requests all fail: the connection fails with the
/// error of the last link request, after exactly three link requests.
pub proof fn lemma_fails_after_three_links(
    target: Option<String>,
    devs: Vec<ObservedDevice>,
    ids: Vec<u128>,
    links: Seq<Result<(), TransportError>>,
)
    requires
        selected(devs@, target_view(target)) is Some,
        links.len() == 3,
        forall|i: int| 0 <= i < 3 ==> links[i] is Err,
    ensures
        ({
            let r = simulated_connect(target, devs, ids, links, 20);
            &&& r.0.phase == Phase::Failed
            &&& r.1 == ConnectAction::Fail(link_error(links[2]->Err_0))
            &&& r.2 == 3
        }),
{
    let start = transition(initial(target), ConnectEvent::Start);
    let c1 = start.0;
    let a = start.1;
    assert(c1.phase == Phase::Scanning && c1.attempt == 1);
    assert(a == ConnectAction::Scan { secs: scan_secs_of(c1) });
    assert(links[0] is Err);
    lemma_failed_round(c1, devs, ids, links, 0, 20);
    let c2 = Connector {
        phase: Phase::Scanning,
        attempt: 2,
        scan_round: 1,
        chosen: selected(devs@, target_view(target))->Some_0 as usize,
        last_error: None,
        retryable: true,
        ..c1
    };
    assert(scan_secs_of(c2) == scan_secs_of(c1));
    assert(links[1] is Err);
    lemma_failed_round(c2, devs, ids, links, 1, 14);
    let c3 = Connector { attempt: 3, ..c2 };
    assert(scan_secs_of(c3) == scan_secs_of(c1));
    assert(links[2] is Err);
    lemma_last_failed_round(c3, devs, ids, links, 2, 8);
}

} // verus!
