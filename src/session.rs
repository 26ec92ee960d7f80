use vstd::prelude::*;

use crate::connection::TransportError;
use crate::protocol::{
    command_bytes, height_of_reading, mm_of_units, mm_to_desk_units, parse_height,
    desk_units_to_mm, units_of_mm, MovementCommand, MAX_HEIGHT_MM,
};

verus! {

/// A move counts as done once the height is this close to the target (mm).
pub const TOLERANCE_MM: u16 = 5;

/// A move fails once this much time has passed since polling began (ms).
pub const MAX_WAIT_MS: u64 = 30000;

/// Pause between two height reads while moving (ms).
pub const POLL_INTERVAL_MS: u64 = 200;

/// Pause after the move command, before the first height read (ms).
pub const START_DELAY_MS: u64 = 100;

/// Consecutive failed height reads that a move tolerates; one more fails it.
pub const MAX_READ_FAILURES: u32 = 5;

/// Why an operation on a connected desk failed.
#[derive(Debug, Clone)]
pub enum MoveError {
    /// The session lacks a resolved endpoint.
    EndpointUnavailable,
    /// A height reading was too short to hold a height.
    DecodeFailure,
    /// The desk did not reach the target height in time.
    ConvergenceTimeout,
    /// The transport failed.
    Transport(TransportError),
}

/// The height, in millimetres, that a read of the height endpoint gives.
pub open spec fn height_read(reading: Result<Vec<u8>, TransportError>) -> Result<u16, MoveError> {
    match reading {
        Ok(data) => match height_of_reading(data@) {
            Some(units) => Ok(mm_of_units(units as nat) as u16),
            None => Err(MoveError::DecodeFailure),
        },
        Err(t) => Err(MoveError::Transport(t)),
    }
}

/// The distance between two heights.
pub open spec fn distance(a: u16, b: u16) -> nat {
    if a >= b {
        (a - b) as nat
    } else {
        (b - a) as nat
    }
}

/// A height is close enough to the target for a move to be done.
pub open spec fn within_tolerance(height_mm: u16, target_mm: u16) -> bool {
    distance(height_mm, target_mm) <= TOLERANCE_MM
}

/// The height in millimetres carried by the payload of the height endpoint.
pub fn height_mm_of_reading(data: &[u8]) -> (r: Result<u16, MoveError>)
    ensures
        r == (match height_of_reading(data@) {
            Some(units) => Ok::<u16, MoveError>(mm_of_units(units as nat) as u16),
            None => Err(MoveError::DecodeFailure),
        }),
{
    match parse_height(data) {
        Some(units) => Ok(desk_units_to_mm(units)),
        None => Err(MoveError::DecodeFailure),
    }
}

/// The height in millimetres that a read of the height endpoint gives, or why
/// there is none.
pub fn height_from_read(reading: Result<Vec<u8>, TransportError>) -> (r: Result<u16, MoveError>)
    ensures
        r == height_read(reading),
{
    match reading {
        Ok(data) => height_mm_of_reading(data.as_slice()),
        Err(t) => Err(MoveError::Transport(t)),
    }
}

/// Check a resolved endpoint position against the number of endpoints the
/// session holds.
pub fn check_endpoint(position: usize, available: usize) -> (r: Result<usize, MoveError>)
    ensures
        position < available ==> r == Ok::<usize, MoveError>(position),
        position >= available ==> r is Err && r->Err_0 is EndpointUnavailable,
{
    if position < available {
        Ok(position)
    } else {
        Err(MoveError::EndpointUnavailable)
    }
}

/// The bytes that stop the desk.
pub fn stop_command() -> (bytes: Vec<u8>)
    ensures
        bytes@ == command_bytes(MovementCommand::Stop),
{
    MovementCommand::Stop.to_bytes()
}

/// What a move asks of its caller next.
#[derive(Debug)]
pub enum PollStep {
    /// Read the height endpoint and report the reading.
    Read,
    /// Pause this long, then check the deadline again.
    Wait { ms: u64 },
    /// Done: the desk is at `height_mm`, within tolerance of the target.
    Reached { height_mm: u16 },
    /// Done: the move failed.
    Fail(MoveError),
}

/// The closed-loop part of a move: polls the height until it is within
/// tolerance of the target.
#[derive(Debug, Clone, Copy, PartialEq, Eq, Structural)]
pub struct HeightPoll {
    /// The target height, in millimetres.
    pub target_mm: u16,
    /// Failed reads since the last good one.
    pub failures: u32,
}

/// The poll after one read, and what follows it.
pub open spec fn poll_next(p: HeightPoll, read: Result<u16, MoveError>) -> (HeightPoll, PollStep) {
    match read {
        Ok(h) => if within_tolerance(h, p.target_mm) {
            (HeightPoll { failures: 0, ..p }, PollStep::Reached { height_mm: h })
        } else {
            (HeightPoll { failures: 0, ..p }, PollStep::Wait { ms: POLL_INTERVAL_MS })
        },
        Err(e) => if p.failures >= MAX_READ_FAILURES {
            (p, PollStep::Fail(e))
        } else {
            (HeightPoll { failures: (p.failures + 1) as u32, ..p }, PollStep::Wait { ms: POLL_INTERVAL_MS })
        },
    }
}

/// What the deadline check before each read decides.
pub open spec fn deadline_step(elapsed_ms: u64) -> PollStep {
    if elapsed_ms > MAX_WAIT_MS {
        PollStep::Fail(MoveError::ConvergenceTimeout)
    } else {
        PollStep::Read
    }
}

/// Start a move to `target_mm`: the command to send and the poll that follows
/// it (after a pause of `START_DELAY_MS`).
pub fn begin_move(target_mm: u16) -> (r: (Vec<u8>, HeightPoll))
    requires
        target_mm <= MAX_HEIGHT_MM,
    ensures
        r.0@ == command_bytes(MovementCommand::MoveToHeight(units_of_mm(target_mm as nat) as u16)),
        r.1 == (HeightPoll { target_mm, failures: 0 }),
{
    let units = mm_to_desk_units(target_mm);
    let bytes = MovementCommand::MoveToHeight(units).to_bytes();
    (bytes, HeightPoll { target_mm, failures: 0 })
}

impl HeightPoll {
    /// The state invariant.
    pub open spec fn wf(&self) -> bool {
        self.failures <= MAX_READ_FAILURES
    }

    /// Before each read: fail once more than `MAX_WAIT_MS` has passed since
    /// polling began, else read.
    pub fn check_deadline(&self, elapsed_ms: u64) -> (r: PollStep)
        ensures
            r == deadline_step(elapsed_ms),
    {
        if elapsed_ms > MAX_WAIT_MS {
            PollStep::Fail(MoveError::ConvergenceTimeout)
        } else {
            PollStep::Read
        }
    }

    /// After each read: done once the height is within tolerance of the
    /// target; a failed read is tolerated up to `MAX_READ_FAILURES` in a row.
    pub fn on_reading(&mut self, reading: Result<Vec<u8>, TransportError>) -> (r: PollStep)
        requires
            old(self).wf(),
        ensures
            final(self).wf(),
            (*final(self), r) == poll_next(*old(self), height_read(reading)),
    {
        match height_from_read(reading) {
            Ok(h) => {
                self.failures = 0;
                let d = if h >= self.target_mm {
                    h - self.target_mm
                } else {
                    self.target_mm - h
                };
                if d <= TOLERANCE_MM {
                    PollStep::Reached { height_mm: h }
                } else {
                    PollStep::Wait { ms: POLL_INTERVAL_MS }
                }
            },
            Err(e) => {
                if self.failures >= MAX_READ_FAILURES {
                    PollStep::Fail(e)
                } else {
                    self.failures = self.failures + 1;
                    PollStep::Wait { ms: POLL_INTERVAL_MS }
                }
            },
        }
    }
}

/// Successful reads of these heights (mm), fed to the poll in turn until it
/// stops asking for more: how many were consumed, and the last step (a pause
/// when every read was consumed).
pub open spec fn poll_run(p: HeightPoll, heights: Seq<u16>) -> (nat, PollStep)
    decreases heights.len(),
{
    if heights.len() == 0 {
        (0, PollStep::Wait { ms: POLL_INTERVAL_MS })
    } else {
        let next = poll_next(p, Ok(heights[0]));
        if next.1 is Wait {
            let rest = poll_run(next.0, heights.drop_first());
            (rest.0 + 1, rest.1)
        } else {
            (1, next.1)
        }
    }
}

/// A move stops with success at the first read within tolerance of the
/// target, and not before it.
pub proof fn lemma_stops_at_first_close_read(p: HeightPoll, heights: Seq<u16>, k: int)
    requires
        0 <= k < heights.len(),
        within_tolerance(heights[k], p.target_mm),
        forall|j: int| 0 <= j < k ==> !within_tolerance(#[trigger] heights[j], p.target_mm),
    ensures
        poll_run(p, heights) == ((k + 1) as nat, PollStep::Reached { height_mm: heights[k] }),
    decreases k,
{
    if k > 0 {
        let next = poll_next(p, Ok(heights[0]));
        assert(!within_tolerance(heights[0], p.target_mm));
        let rest = heights.drop_first();
        assert forall|j: int| 0 <= j < k - 1 implies !within_tolerance(
            #[trigger] rest[j],
            next.0.target_mm,
        ) by {
            assert(rest[j] == heights[j + 1]);
        }
        assert(rest[k - 1] == heights[k]);
        lemma_stops_at_first_close_read(next.0, rest, k - 1);
    }
}

/// A desk that never comes within tolerance keeps the move polling: every
/// read is followed by a pause, so only the deadline ends the move.
pub proof fn lemma_polls_while_far(p: HeightPoll, heights: Seq<u16>)
    requires
        forall|j: int| 0 <= j < heights.len() ==> !within_tolerance(#[trigger] heights[j], p.target_mm),
    ensures
        poll_run(p, heights) == (heights.len(), PollStep::Wait { ms: POLL_INTERVAL_MS }),
    decreases heights.len(),
{
    if heights.len() > 0 {
        let next = poll_next(p, Ok(heights[0]));
        assert(!within_tolerance(heights[0], p.target_mm));
        let rest = heights.drop_first();
        assert forall|j: int| 0 <= j < rest.len() implies !within_tolerance(
            #[trigger] rest[j],
            next.0.target_mm,
        ) by {
            assert(rest[j] == heights[j + 1]);
        }
        lemma_polls_while_far(next.0, rest);
    }
}

/// A move against a simulated clock that reads `elapsed` ms at the first
/// deadline check and advances by each pause: deadline checks and successful
/// reads of `heights` alternate until the move stops or the reads run out.
/// Gives the reads consumed, the last step, and the clock at the end.
pub open spec fn timed_run(p: HeightPoll, heights: Seq<u16>, elapsed: nat) -> (nat, PollStep, nat)
    decreases heights.len(),
{
    if elapsed > u64::MAX || deadline_step(elapsed as u64) is Fail {
        (0, deadline_step(elapsed as u64), elapsed)
    } else if heights.len() == 0 {
        (0, PollStep::Read, elapsed)
    } else {
        let next = poll_next(p, Ok(heights[0]));
        match next.1 {
            PollStep::Wait { ms } => {
                let rest = timed_run(next.0, heights.drop_first(), (elapsed + ms) as nat);
                (rest.0 + 1, rest.1, rest.2)
            },
            _ => (1, next.1, elapsed),
        }
    }
}

/// The number of reads a move makes before its deadline passes, when every
/// pause is one poll interval.
pub open spec fn reads_before_deadline() -> nat {
    (MAX_WAIT_MS / POLL_INTERVAL_MS + 1) as nat
}

proof fn lemma_timed_run_far_from(p: HeightPoll, heights: Seq<u16>, k: nat)
    requires
        k <= reads_before_deadline(),
        heights.len() + k >= reads_before_deadline(),
        forall|j: int| 0 <= j < heights.len() ==> !within_tolerance(#[trigger] heights[j], p.target_mm),
    ensures
        timed_run(p, heights, (k * POLL_INTERVAL_MS) as nat) == (
            (reads_before_deadline() - k) as nat,
            PollStep::Fail(MoveError::ConvergenceTimeout),
            (reads_before_deadline() * POLL_INTERVAL_MS) as nat,
        ),
    decreases reads_before_deadline() - k,
{
    if k < reads_before_deadline() {
        let next = poll_next(p, Ok(heights[0]));
        assert(!within_tolerance(heights[0], p.target_mm));
        let rest = heights.drop_first();
        assert forall|j: int| 0 <= j < rest.len() implies !within_tolerance(
            #[trigger] rest[j],
            next.0.target_mm,
        ) by {
            assert(rest[j] == heights[j + 1]);
        }
        lemma_timed_run_far_from(next.0, rest, k + 1);
        assert(k * POLL_INTERVAL_MS + POLL_INTERVAL_MS == (k + 1) * POLL_INTERVAL_MS);
    }
}

/// A desk that never comes within tolerance: the move fails with a
/// convergence timeout at the first deadline check past `MAX_WAIT_MS`, after
/// one read per poll interval up to then, and neither earlier nor later.
pub proof fn lemma_times_out_when_far(p: HeightPoll, heights: Seq<u16>)
    requires
        heights.len() >= reads_before_deadline(),
        forall|j: int| 0 <= j < heights.len() ==> !within_tolerance(#[trigger] heights[j], p.target_mm),
    ensures
        timed_run(p, heights, 0) == (
            reads_before_deadline(),
            PollStep::Fail(MoveError::ConvergenceTimeout),
            (reads_before_deadline() * POLL_INTERVAL_MS) as nat,
        ),
        MAX_WAIT_MS < reads_before_deadline() * POLL_INTERVAL_MS <= MAX_WAIT_MS + POLL_INTERVAL_MS,
{
    lemma_timed_run_far_from(p, heights, 0);
}

/// What a disconnect does next, once the link state is known.
#[derive(Debug)]
pub enum DisconnectStep {
    /// The link is active: release it and report the outcome.
    Release,
    /// Done, with this outcome.
    Done(Result<(), MoveError>),
}

/// The step after learning the link state.
pub open spec fn disconnect_after_status(status: Result<bool, TransportError>) -> DisconnectStep {
    match status {
        Ok(true) => DisconnectStep::Release,
        Ok(false) => DisconnectStep::Done(Ok(())),
        Err(t) => DisconnectStep::Done(Err(MoveError::Transport(t))),
    }
}

/// The outcome of a disconnect after a release.
pub open spec fn release_outcome(result: Result<(), TransportError>) -> Result<(), MoveError> {
    match result {
        Ok(()) => Ok(()),
        Err(t) => Err(MoveError::Transport(t)),
    }
}

/// Disconnect, given the link state: release an active link; when the link
/// is not active there is nothing to do and no error.
pub fn on_disconnect_status(status: Result<bool, TransportError>) -> (r: DisconnectStep)
    ensures
        r == disconnect_after_status(status),
{
    match status {
        Ok(true) => DisconnectStep::Release,
        Ok(false) => DisconnectStep::Done(Ok(())),
        Err(t) => DisconnectStep::Done(Err(MoveError::Transport(t))),
    }
}

/// Disconnect, given the outcome of the release.
pub fn on_released(result: Result<(), TransportError>) -> (r: Result<(), MoveError>)
    ensures
        r == release_outcome(result),
{
    match result {
        Ok(()) => Ok(()),
        Err(t) => Err(MoveError::Transport(t)),
    }
}

/// A disconnect against a simulated link that is `active` or not and whose
/// release succeeds: whether the link is active afterwards, whether a release
/// was requested, and the outcome.
pub open spec fn simulated_disconnect(active: bool) -> (bool, bool, Result<(), MoveError>) {
    match disconnect_after_status(Ok(active)) {
        DisconnectStep::Release => (false, true, release_outcome(Ok(()))),
        DisconnectStep::Done(r) => (active, false, r),
    }
}

/// Disconnecting twice in a row: the second disconnect requests no release
/// and ends without error.
pub proof fn lemma_disconnect_twice(active: bool)
    ensures
        ({
            let first = simulated_disconnect(active);
            let second = simulated_disconnect(first.0);
            &&& first.2 is Ok
            &&& !second.1
            &&& second.2 is Ok
        }),
{
}

/// How to get a session before a move.
#[derive(Debug, Clone, Copy, PartialEq, Eq, Structural)]
pub enum SessionPlan {
    /// A session is open: use it.
    UseExisting,
    /// No session, but a desk address is configured: connect to it.
    Connect,
    /// No session and no desk configured: fail.
    NotConfigured,
}

/// Decide how to get a session before a move, from whether one is open and
/// the configured desk address.
pub fn plan_connection(has_session: bool, desk_address: &Option<String>) -> (r: SessionPlan)
    ensures
        r == (if has_session {
            SessionPlan::UseExisting
        } else if desk_address is None {
            SessionPlan::NotConfigured
        } else {
            SessionPlan::Connect
        }),
{
    if has_session {
        SessionPlan::UseExisting
    } else if desk_address.is_none() {
        SessionPlan::NotConfigured
    } else {
        SessionPlan::Connect
    }
}

} // verus!
