use crossterm::event::internal::{poll_after_lock, PollAfterLock, PollTimeout};
use crossterm::event::probe::{SizeProbe, PROBE_INTERVAL, TEXT_AREA_ATTEMPTS};
use crossterm::event::probe::Question;
use crossterm::event::source::{
    begin_read, readiness, shorter, BurstError, EventSourceState, ParsedEvent, Readiness, Routed,
    SizeReport, SourceAction, SourceEvent, SourceOutcome, ESCAPE_TIME, STDIN_TOKEN, WAKE_TOKEN,
};
use crossterm::terminal::ProbedSize;
use crossterm::time::NANOS_PER_MILLI;

const T0: u64 = 5_000 * NANOS_PER_MILLI;

#[test]
fn the_nearer_deadline_wins() {
    assert_eq!(shorter(Some(3), Some(5)), Some(3));
    assert_eq!(shorter(Some(5), Some(3)), Some(3));
    assert_eq!(shorter(Some(5), None), Some(5));
    assert_eq!(shorter(None, Some(5)), Some(5));
    assert_eq!(shorter(None, None), None);
}

#[test]
fn readiness_reads_on_data_hangup_or_error() {
    assert_eq!(readiness(WAKE_TOKEN, 0), Readiness::Woken);
    assert_eq!(readiness(STDIN_TOKEN, 1), Readiness::Input);
    assert_eq!(readiness(STDIN_TOKEN, 4), Readiness::Input);
    assert_eq!(readiness(STDIN_TOKEN, 16), Readiness::Input);
    assert_eq!(readiness(STDIN_TOKEN, 4 | 16), Readiness::Input);
    // Writable or write-closed alone is nothing to read.
    assert_eq!(readiness(STDIN_TOKEN, 2), Readiness::Spurious);
    assert_eq!(readiness(STDIN_TOKEN, 8), Readiness::Spurious);
    assert_eq!(readiness(STDIN_TOKEN, 0), Readiness::Spurious);
}

#[test]
fn an_empty_read_is_a_hangup() {
    let mut state = EventSourceState::new(true);
    let mut nothing: Vec<u8> = Vec::new();
    assert_eq!(state.accept_burst(&mut nothing), Err(BurstError::Hangup));
    let mut burst = b"x\r\n".to_vec();
    assert_eq!(state.accept_burst(&mut burst), Ok(2));
    assert_eq!(&burst[..2], b"x\r");
}

#[test]
fn the_escape_timer_runs_from_the_first_hold() {
    let mut state = EventSourceState::new(false);
    assert_eq!(state.escape_time_left(T0), None);
    assert!(!state.escape_time_is_up(T0));
    state.parsed(true, T0);
    state.parsed(true, T0 + 20 * NANOS_PER_MILLI);
    assert_eq!(state.escape_time_left(T0 + 20 * NANOS_PER_MILLI), Some(30 * NANOS_PER_MILLI));
    assert!(!state.escape_time_is_up(T0 + 49 * NANOS_PER_MILLI));
    assert!(state.escape_time_is_up(T0 + ESCAPE_TIME));
    state.escape_flushed();
    assert_eq!(state.escape_time_left(T0 + ESCAPE_TIME), None);
    state.parsed(true, T0);
    state.parsed(false, T0);
    assert_eq!(state.escape_time_left(T0), None);
}

#[test]
fn a_wait_ends_at_the_nearest_deadline() {
    let mut state = EventSourceState::new(true);
    // A probe that was never sent is due now.
    assert_eq!(state.wait_deadline(None, T0), Some(0));
    assert_eq!(state.probe.probe(T0, false).is_some(), true);
    // Escalation after the first `CSI 18 t`.
    assert_eq!(state.wait_deadline(None, T0), Some(250 * NANOS_PER_MILLI));
    state.parsed(true, T0);
    assert_eq!(state.wait_deadline(None, T0), Some(ESCAPE_TIME));
    assert_eq!(state.wait_deadline(Some(NANOS_PER_MILLI), T0), Some(NANOS_PER_MILLI));
    // Without a terminal and with nothing held, only the caller limits it.
    let idle = EventSourceState::new(false);
    assert_eq!(idle.wait_deadline(None, T0), None);
    assert_eq!(idle.wait_deadline(Some(7), T0), Some(7));
}

#[test]
fn size_reports_are_arbitrated() {
    let mut state = EventSourceState::new(true);
    let mut probed = ProbedSize::new();
    // A cursor report nobody asked the probe for is the application's.
    assert_eq!(
        state.route(SizeReport::CursorPosition(4, 9), false, &mut probed),
        Routed::CursorPosition(4, 9)
    );
    // The probe's own cursor question is answered with the size.
    state.probe = SizeProbe {
        enabled: true,
        sent: Some(T0),
        awaiting_reply: true,
        unanswered: 1,
        resize_mode_supported: false,
        text_area_supported: false,
        text_area_unanswered: TEXT_AREA_ATTEMPTS,
    };
    assert_eq!(
        state.route(SizeReport::CursorPosition(79, 23), true, &mut probed),
        Routed::CursorPosition(79, 23)
    );
    assert_eq!(
        state.route(SizeReport::CursorPosition(79, 23), false, &mut probed),
        Routed::Resize(80, 24)
    );
    assert_eq!(probed.reported(), Some((80, 24)));
    // The same size from the other question is not news.
    assert_eq!(state.route(SizeReport::TextAreaSize(80, 24), false, &mut probed), Routed::Absorbed);
    assert_eq!(
        state.route(SizeReport::TextAreaSize(100, 30), false, &mut probed),
        Routed::Resize(100, 30)
    );
    // An unsupported mode status changes nothing; a supported one ends polling.
    assert_eq!(state.route(SizeReport::ResizeModeStatus(0), false, &mut probed), Routed::Absorbed);
    assert_eq!(state.probe.next_probe_in(T0), Some(T0 + PROBE_INTERVAL - T0));
    assert_eq!(state.route(SizeReport::ResizeModeStatus(2), false, &mut probed), Routed::Absorbed);
    assert_eq!(state.probe.next_probe_in(T0), None);
    assert_eq!(
        state.route(SizeReport::ResizeModeReport(100, 30), false, &mut probed),
        Routed::Absorbed
    );
    assert_eq!(
        state.route(SizeReport::ResizeModeReport(120, 40), false, &mut probed),
        Routed::Resize(120, 40)
    );
}

#[test]
fn a_poll_waits_for_the_lock_no_longer_than_its_timeout() {
    let second = 1_000 * NANOS_PER_MILLI;
    assert_eq!(poll_after_lock(None, T0, true, T0 + second), PollAfterLock::Poll(None));
    assert_eq!(poll_after_lock(Some(second), T0, false, T0 + second), PollAfterLock::GiveUp);
    assert_eq!(
        poll_after_lock(Some(second), T0, true, T0 + 300 * NANOS_PER_MILLI),
        PollAfterLock::Poll(Some(700 * NANOS_PER_MILLI))
    );
    assert_eq!(
        poll_after_lock(Some(second), T0, true, T0 + 2 * second),
        PollAfterLock::Poll(Some(0))
    );
    let timeout = PollTimeout::new(Some(second), T0);
    assert!(!timeout.elapsed(T0));
    assert!(timeout.elapsed(T0 + second));
    assert!(!PollTimeout::new(None, T0).elapsed(u64::MAX));
    assert_eq!(timeout.leftover(T0 - 1), Some(second));
}

#[test]
fn a_read_returns_the_parsers_own_events_at_once() {
    let mut state = EventSourceState::new(true);
    let mut probed = ProbedSize::new();
    let (mut read, action) = begin_read(None, T0);
    assert_eq!(action, SourceAction::NextParsed);
    let action = state.step(
        &mut read,
        SourceEvent::Parsed { event: Some(ParsedEvent::Other), now: T0, position_request_in_flight: false },
        &mut probed,
    );
    assert_eq!(action, SourceAction::Return(SourceOutcome::Parsed));
    // Over is over.
    assert_eq!(
        state.step(&mut read, SourceEvent::Flushed, &mut probed),
        SourceAction::Return(SourceOutcome::Parsed)
    );
}

#[test]
fn a_read_asks_for_the_size_then_waits_then_reads_input() {
    let mut state = EventSourceState::new(true);
    let mut probed = ProbedSize::new();
    let (mut read, _) = begin_read(Some(NANOS_PER_MILLI * 100), T0);
    let no_event = SourceEvent::Parsed { event: None, now: T0, position_request_in_flight: false };
    assert_eq!(state.step(&mut read, no_event, &mut probed), SourceAction::Ask(Question::TextArea));
    assert_eq!(
        state.step(&mut read, SourceEvent::Asked { sent: true, now: T0 }, &mut probed),
        SourceAction::Wait(Some(NANOS_PER_MILLI * 100))
    );
    assert_eq!(
        state.step(&mut read, SourceEvent::Ready { token: STDIN_TOKEN, events: 1 }, &mut probed),
        SourceAction::ReadBurst
    );
    let mut burst = b"\x1b".to_vec();
    assert_eq!(state.burst_read(&mut read, &mut burst), SourceAction::Parse(1));
    assert_eq!(
        state.step(&mut read, SourceEvent::Fed { mid_sequence: true, now: T0 }, &mut probed),
        SourceAction::NextParsed
    );
    // The escape time now caps the wait.
    let no_event = SourceEvent::Parsed {
        event: None,
        now: T0 + NANOS_PER_MILLI,
        position_request_in_flight: false,
    };
    assert_eq!(
        state.step(&mut read, no_event, &mut probed),
        SourceAction::Wait(Some(ESCAPE_TIME - NANOS_PER_MILLI))
    );
    // Nothing followed: flush, then go round.
    assert_eq!(
        state.step(&mut read, SourceEvent::WaitTimedOut { now: T0 + ESCAPE_TIME }, &mut probed),
        SourceAction::NextParsed
    );
    let no_event =
        SourceEvent::Parsed { event: None, now: T0 + ESCAPE_TIME, position_request_in_flight: false };
    assert_eq!(state.step(&mut read, no_event, &mut probed), SourceAction::FlushParser);
    assert!(matches!(
        state.step(&mut read, SourceEvent::Flushed, &mut probed),
        SourceAction::NextParsed
    ));
    // The caller's timeout runs out.
    let late = T0 + NANOS_PER_MILLI * 100;
    let no_event = SourceEvent::Parsed { event: None, now: late, position_request_in_flight: false };
    assert_eq!(
        state.step(&mut read, no_event, &mut probed),
        SourceAction::Wait(Some(0))
    );
    assert_eq!(
        state.step(&mut read, SourceEvent::WaitTimedOut { now: late }, &mut probed),
        SourceAction::Return(SourceOutcome::NoEvent)
    );
}

#[test]
fn a_read_reports_a_wake_hangup_or_failure() {
    let mut probed = ProbedSize::new();
    let mut state = EventSourceState::new(false);
    let no_event = SourceEvent::Parsed { event: None, now: T0, position_request_in_flight: false };

    let (mut read, _) = begin_read(None, T0);
    assert_eq!(state.step(&mut read, no_event, &mut probed), SourceAction::Wait(None));
    assert_eq!(
        state.step(&mut read, SourceEvent::Ready { token: WAKE_TOKEN, events: 1 }, &mut probed),
        SourceAction::TakeCtrlC
    );
    assert_eq!(
        state.step(&mut read, SourceEvent::CtrlCTaken(true), &mut probed),
        SourceAction::Return(SourceOutcome::CtrlC)
    );

    let (mut read, _) = begin_read(None, T0);
    state.step(&mut read, no_event, &mut probed);
    state.step(&mut read, SourceEvent::Ready { token: WAKE_TOKEN, events: 0 }, &mut probed);
    assert_eq!(
        state.step(&mut read, SourceEvent::CtrlCTaken(false), &mut probed),
        SourceAction::Return(SourceOutcome::Interrupted)
    );

    let (mut read, _) = begin_read(None, T0);
    state.step(&mut read, no_event, &mut probed);
    assert_eq!(
        state.step(&mut read, SourceEvent::Ready { token: STDIN_TOKEN, events: 2 }, &mut probed),
        SourceAction::NextParsed
    );
    state.step(&mut read, no_event, &mut probed);
    state.step(&mut read, SourceEvent::Ready { token: STDIN_TOKEN, events: 4 }, &mut probed);
    let mut nothing: Vec<u8> = Vec::new();
    assert_eq!(
        state.burst_read(&mut read, &mut nothing),
        SourceAction::Return(SourceOutcome::Hangup)
    );

    let (mut read, _) = begin_read(None, T0);
    state.step(&mut read, no_event, &mut probed);
    assert_eq!(
        state.step(&mut read, SourceEvent::WaitFailed, &mut probed),
        SourceAction::Return(SourceOutcome::Failed)
    );
}

#[test]
fn a_read_returns_a_resize_and_absorbs_what_is_not_news() {
    let mut probed = ProbedSize::new();
    let mut state = EventSourceState::new(true);
    let (mut read, _) = begin_read(None, T0);
    let report = |r| SourceEvent::Parsed {
        event: Some(ParsedEvent::Size(r)),
        now: T0,
        position_request_in_flight: false,
    };
    assert_eq!(
        state.step(&mut read, report(SizeReport::ResizeModeReport(90, 30)), &mut probed),
        SourceAction::Return(SourceOutcome::Resize(90, 30))
    );
    let (mut read, _) = begin_read(None, T0);
    assert_eq!(
        state.step(&mut read, report(SizeReport::ResizeModeReport(90, 30)), &mut probed),
        SourceAction::NextParsed
    );
    // With mode 2048 on, no probe is ever asked and nothing but the caller
    // limits the wait.
    let no_event = SourceEvent::Parsed { event: None, now: T0, position_request_in_flight: false };
    assert_eq!(state.step(&mut read, no_event, &mut probed), SourceAction::Wait(None));
}
