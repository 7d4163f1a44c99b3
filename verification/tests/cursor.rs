use crossterm::cursor::PositionAction::{
    BeginRequest, DisableRawMode, EnableRawMode, EndRequest, Finish, Poll, Read, SendRequest,
};
use crossterm::cursor::PositionEvent as E;
use crossterm::cursor::{
    position, position_query_bytes, position_request_in_flight, PositionAction, PositionEvent,
    PositionFailure, PositionRequests, POSITION_TIMEOUT,
};

/// Drives a round trip with the given outcomes, returning every action asked
/// for, the first one included.
fn drive(raw_mode_enabled: bool, events: &[PositionEvent]) -> Vec<PositionAction> {
    let (mut trip, first) = position(raw_mode_enabled);
    let mut actions = vec![first];
    for event in events {
        actions.push(trip.step(*event));
    }
    actions
}

#[test]
fn a_round_trip_in_raw_mode_drains_asks_and_reads() {
    let actions = drive(
        true,
        &[
            E::Done,         // counted
            E::Ready,        // a stale reply is waiting
            E::Cursor(1, 1), // ... and is discarded
            E::NotReady,     // nothing more to drain
            E::Done,         // request sent
            E::Ready,
            E::Other, // not a cursor report: keep waiting
            E::PollFailed,
            E::Ready,
            E::Cursor(7, 3),
            E::Done, // released
        ],
    );
    assert_eq!(
        actions,
        vec![
            BeginRequest,
            Poll { timeout: 0 },
            Read,
            Poll { timeout: 0 },
            SendRequest,
            Poll { timeout: POSITION_TIMEOUT },
            Read,
            Poll { timeout: POSITION_TIMEOUT },
            Poll { timeout: POSITION_TIMEOUT },
            Read,
            EndRequest,
            Finish(Ok((7, 3))),
        ]
    );
}

#[test]
fn a_round_trip_outside_raw_mode_switches_it_on_and_off() {
    let actions = drive(
        false,
        &[E::Done, E::Done, E::PollFailed, E::Done, E::Ready, E::Cursor(0, 0), E::Done, E::Done],
    );
    assert_eq!(
        actions,
        vec![
            EnableRawMode,
            BeginRequest,
            Poll { timeout: 0 },
            SendRequest,
            Poll { timeout: POSITION_TIMEOUT },
            Read,
            EndRequest,
            DisableRawMode,
            Finish(Ok((0, 0))),
        ]
    );
}

#[test]
fn a_terminal_that_does_not_answer_times_out() {
    let actions = drive(false, &[E::Done, E::Done, E::NotReady, E::Done, E::NotReady, E::Done, E::Done]);
    assert_eq!(
        actions.last(),
        Some(&PositionAction::Finish(Err(PositionFailure::TimedOut)))
    );
    assert!(actions.contains(&PositionAction::DisableRawMode));
}

#[test]
fn failures_are_reported_in_the_order_they_happen() {
    // Raw mode could not be switched on: nothing else happens.
    assert_eq!(
        drive(false, &[E::Failed]),
        vec![
            PositionAction::EnableRawMode,
            PositionAction::Finish(Err(PositionFailure::EnableRawMode))
        ]
    );
    // The request could not be written: the request is released and raw
    // mode switched back off before the failure is reported.
    let actions = drive(false, &[E::Done, E::Done, E::NotReady, E::Failed, E::Done, E::Done]);
    assert_eq!(
        actions[4..].to_vec(),
        vec![
            PositionAction::EndRequest,
            PositionAction::DisableRawMode,
            PositionAction::Finish(Err(PositionFailure::Write))
        ]
    );
    // Raw mode could not be switched back off: that failure wins.
    let actions = drive(
        false,
        &[E::Done, E::Done, E::NotReady, E::Done, E::Ready, E::Cursor(2, 2), E::Done, E::Failed],
    );
    assert_eq!(
        actions.last(),
        Some(&PositionAction::Finish(Err(PositionFailure::DisableRawMode)))
    );
}

#[test]
fn an_event_that_answers_nothing_asked_changes_nothing() {
    let (mut trip, first) = position(true);
    assert_eq!(first, PositionAction::BeginRequest);
    assert_eq!(trip.step(PositionEvent::Ready), PositionAction::BeginRequest);
    assert_eq!(trip.step(PositionEvent::Cursor(1, 2)), PositionAction::BeginRequest);
    assert_eq!(trip.action(), PositionAction::BeginRequest);
}

#[test]
fn requests_in_flight_are_counted() {
    let mut requests = PositionRequests::new();
    assert!(!position_request_in_flight(&requests));
    requests.begin();
    requests.begin();
    assert!(position_request_in_flight(&requests));
    requests.end();
    assert!(position_request_in_flight(&requests));
    requests.end();
    assert!(!position_request_in_flight(&requests));
}

#[test]
fn the_request_is_csi_6_n() {
    assert_eq!(position_query_bytes(), b"\x1b[6n".to_vec());
    assert_eq!(POSITION_TIMEOUT, 2_000_000_000);
}
