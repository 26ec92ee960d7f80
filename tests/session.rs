use desk_control::connection::TransportError;
use desk_control::session::{
    begin_move, check_endpoint, height_from_read, height_mm_of_reading, on_disconnect_status,
    on_released, plan_connection, DisconnectStep, HeightPoll, MoveError, PollStep, SessionPlan,
    MAX_WAIT_MS, POLL_INTERVAL_MS, START_DELAY_MS,
};

fn reading_of_mm(mm: u16) -> Vec<u8> {
    let units = mm * 10;
    vec![(units % 256) as u8, (units / 256) as u8]
}

/// Run a move against simulated readings with a simulated clock. Returns the
/// final step and the number of reads made.
fn run_move(
    target_mm: u16,
    mut read: impl FnMut(usize) -> Result<Vec<u8>, TransportError>,
) -> (PollStep, usize) {
    let (_, mut poll) = begin_move(target_mm);
    let mut elapsed: u64 = 0;
    let mut reads = 0;
    loop {
        match poll.check_deadline(elapsed) {
            PollStep::Read => {}
            other => return (other, reads),
        }
        let r = read(reads);
        reads += 1;
        match poll.on_reading(r) {
            PollStep::Wait { ms } => elapsed += ms,
            other => return (other, reads),
        }
    }
}

#[test]
fn converges_when_within_tolerance_and_not_before() {
    // from 900 mm upward by 20 mm per poll: 900, 920, ..., 1040 (10 mm off), 1060 (10 mm off)...
    // with a step of 7 mm: 1000, 1007, ..., 1042 (8 off), 1049 (1 off)
    let (step, reads) = run_move(1050, |k| Ok(reading_of_mm(1000 + 7 * k as u16)));
    assert!(matches!(step, PollStep::Reached { height_mm: 1049 }));
    assert_eq!(reads, 8);
}

#[test]
fn converges_from_above() {
    let (step, reads) = run_move(1050, |k| Ok(reading_of_mm(1100 - 5 * k as u16)));
    assert!(matches!(step, PollStep::Reached { height_mm: 1055 }));
    assert_eq!(reads, 10);
}

#[test]
fn tolerance_bound_is_five_mm() {
    let mut p = HeightPoll { target_mm: 1050, failures: 0 };
    assert!(matches!(p.on_reading(Ok(reading_of_mm(1056))), PollStep::Wait { .. }));
    assert!(matches!(p.on_reading(Ok(reading_of_mm(1044))), PollStep::Wait { .. }));
    assert!(matches!(p.on_reading(Ok(reading_of_mm(1045))), PollStep::Reached { height_mm: 1045 }));
    assert!(matches!(p.on_reading(Ok(reading_of_mm(1055))), PollStep::Reached { height_mm: 1055 }));
}

#[test]
fn times_out_when_desk_never_moves() {
    let (step, reads) = run_move(1050, |_| Ok(reading_of_mm(700)));
    assert!(matches!(step, PollStep::Fail(MoveError::ConvergenceTimeout)));
    // reads at 0, 200, ..., 30000 ms; the check at 30200 ms fails
    assert_eq!(reads as u64, MAX_WAIT_MS / POLL_INTERVAL_MS + 1);
}

#[test]
fn deadline_is_exceeded_only_past_the_ceiling() {
    let p = HeightPoll { target_mm: 0, failures: 0 };
    assert!(matches!(p.check_deadline(0), PollStep::Read));
    assert!(matches!(p.check_deadline(30000), PollStep::Read));
    assert!(matches!(p.check_deadline(30001), PollStep::Fail(MoveError::ConvergenceTimeout)));
    assert_eq!(START_DELAY_MS, 100);
}

#[test]
fn five_failed_reads_in_a_row_are_tolerated() {
    let (step, reads) = run_move(1050, |k| {
        if k % 6 < 5 {
            Err(TransportError::Failed("busy".to_string()))
        } else if k < 20 {
            Ok(reading_of_mm(500))
        } else {
            Ok(reading_of_mm(1050))
        }
    });
    assert!(matches!(step, PollStep::Reached { height_mm: 1050 }));
    assert_eq!(reads, 24);
}

#[test]
fn sixth_failed_read_in_a_row_ends_the_move() {
    let (step, reads) = run_move(1050, |_| Err(TransportError::Failed("gone".to_string())));
    assert!(matches!(step, PollStep::Fail(MoveError::Transport(TransportError::Failed(ref m))) if m == "gone"));
    assert_eq!(reads, 6);
}

#[test]
fn short_readings_count_as_failures() {
    let (step, reads) = run_move(1050, |_| Ok(vec![0x01]));
    assert!(matches!(step, PollStep::Fail(MoveError::DecodeFailure)));
    assert_eq!(reads, 6);
}

#[test]
fn height_of_a_reading() {
    assert!(matches!(height_mm_of_reading(&[0x04, 0x29]), Ok(1050)));
    assert!(matches!(height_mm_of_reading(&[0x0D, 0x29, 0x77]), Ok(1050)));
    assert!(matches!(height_mm_of_reading(&[0x04]), Err(MoveError::DecodeFailure)));
    assert!(matches!(height_from_read(Ok(vec![0x04, 0x29])), Ok(1050)));
    assert!(matches!(
        height_from_read(Err(TransportError::Timeout)),
        Err(MoveError::Transport(TransportError::Timeout))
    ));
}

#[test]
fn second_disconnect_is_a_no_op() {
    assert!(matches!(on_disconnect_status(Ok(true)), DisconnectStep::Release));
    assert!(matches!(on_released(Ok(())), Ok(())));
    assert!(matches!(on_disconnect_status(Ok(false)), DisconnectStep::Done(Ok(()))));
    assert!(matches!(
        on_disconnect_status(Err(TransportError::Timeout)),
        DisconnectStep::Done(Err(MoveError::Transport(TransportError::Timeout)))
    ));
    assert!(matches!(
        on_released(Err(TransportError::Timeout)),
        Err(MoveError::Transport(TransportError::Timeout))
    ));
}

#[test]
fn endpoint_positions_are_checked() {
    assert!(matches!(check_endpoint(1, 2), Ok(1)));
    assert!(matches!(check_endpoint(2, 2), Err(MoveError::EndpointUnavailable)));
}

#[test]
fn session_plan_before_a_move() {
    assert_eq!(plan_connection(true, &None), SessionPlan::UseExisting);
    assert_eq!(plan_connection(false, &None), SessionPlan::NotConfigured);
    assert_eq!(plan_connection(false, &Some("AA".to_string())), SessionPlan::Connect);
}
