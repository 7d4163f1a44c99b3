use crossterm::cursor::{position_request_in_flight, PositionRequests};
use crossterm::event::probe::{
    Question, Reply, SizeProbe, ESCALATION_INTERVAL, PROBE_INTERVAL, QUIET_AFTER, QUIET_INTERVAL,
    TEXT_AREA_ATTEMPTS,
};
use crossterm::terminal::{forget_probed_size, ProbedSize};
use crossterm::time::NANOS_PER_SECOND;

/// A point on the monotonic clock, in nanoseconds from its origin.
fn instant_now() -> u64 {
    1_000 * NANOS_PER_SECOND
}

/// Whether a position request is in flight when nobody has made one.
fn no_request_in_flight() -> bool {
    position_request_in_flight(&PositionRequests::new())
}

/// A probe that has just sent a *cursor* probe and is waiting for the
/// reply. Assembled rather than taken a turn, so that it is also a probe
/// under a test that holds a cursor request in flight.
///
/// Reaching the cursor probe at all means `CSI 18 t` was tried and never
/// answered, so the text-area attempts are spent.
fn awaiting(now: u64) -> SizeProbe {
    SizeProbe {
        enabled: true,
        sent: Some(now),
        awaiting_reply: true,
        unanswered: 1,
        resize_mode_supported: false,
        text_area_supported: false,
        text_area_unanswered: TEXT_AREA_ATTEMPTS,
    }
}

/// A probe that has given up on `CSI 18 t` but sent nothing yet.
fn cursor_style() -> SizeProbe {
    let mut probe = SizeProbe::new(true);
    probe.text_area_unanswered = TEXT_AREA_ATTEMPTS;
    probe
}

#[test]
fn test_a_probe_is_due_once_and_then_on_the_interval() {
    let start = instant_now();
    let mut probed = ProbedSize::new();
    let mut probe = awaiting(start);

    assert!(!probe.due(start + PROBE_INTERVAL / 2));
    assert!(probe.due(start + PROBE_INTERVAL));

    // An answer keeps it there.
    forget_probed_size(&mut probed);
    probe.reply(79, 23, no_request_in_flight(), &mut probed);
    assert!(probe.take_turn(start + PROBE_INTERVAL, no_request_in_flight()));
    assert!(probe.due(start + PROBE_INTERVAL * 2));
    forget_probed_size(&mut probed);
}

#[test]
fn test_the_cursor_is_left_alone_until_the_terminal_will_not_say() {
    // The cursor probe is *seen* on a slow terminal -- it jumps to the
    // corner and back -- so `CSI 18 t`, which moves nothing, is asked
    // first and the corner is a last resort.
    let start = instant_now();
    let mut probe = SizeProbe::new(true);
    assert!(
        probe.asks_text_area(),
        "the first question moves the cursor"
    );

    // Silence is the only evidence, so it takes a few attempts, and they
    // come quickly: nothing paints at the right size until one lands.
    for attempt in 0..TEXT_AREA_ATTEMPTS {
        let at = start + ESCALATION_INTERVAL * attempt as u64;
        assert!(probe.take_turn(at, no_request_in_flight()));
        assert!(
            probe.next_probe_in(at).unwrap() <= ESCALATION_INTERVAL,
            "escalation waited a whole probe interval"
        );
    }
    assert!(
        !probe.asks_text_area(),
        "a terminal that never answered is still not asked the other way"
    );

    // The cursor probe that follows comes just as quickly -- the point of
    // giving up is to get an answer, not to wait ten seconds for one.
    let gave_up = start + ESCALATION_INTERVAL * TEXT_AREA_ATTEMPTS as u64;
    assert!(probe.take_turn(gave_up, no_request_in_flight()));
    // And once something has been asked the visible way, the cadence is
    // the ordinary one again.
    assert_eq!(probe.next_probe_in(gave_up), Some(PROBE_INTERVAL));
}

#[test]
fn test_an_answered_text_area_query_retires_the_cursor_probe() {
    let mut probed = ProbedSize::new();
    forget_probed_size(&mut probed);
    let now = instant_now();
    let mut probe = SizeProbe::new(true);
    assert!(probe.take_turn(now, no_request_in_flight()));

    assert!(probe.text_area_reply(80, 24, &mut probed));
    assert!(
        probe.asks_text_area(),
        "the cursor was moved after an answer"
    );
    // The same size next time is not news, and polling continues either
    // way: `CSI 18 t` is a question, not a subscription.
    assert!(!probe.text_area_reply(80, 24, &mut probed));
    assert!(probe.next_probe_in(now).is_some());
    forget_probed_size(&mut probed);
}

#[test]
fn test_a_text_area_answer_gives_up_any_claim_on_a_cursor_report() {
    // A cursor probe may be outstanding when the terminal finally answers
    // the other question. Its claim has to be dropped, or the next report
    // -- which by then can only be the application's own -- is taken from
    // it, which is the mistake `position_request_in_flight` exists to
    // prevent.
    let mut probed = ProbedSize::new();
    forget_probed_size(&mut probed);
    let now = instant_now();
    let mut probe = awaiting(now);
    probe.text_area_reply(80, 24, &mut probed);
    assert_eq!(
        probe.reply(120, 40, no_request_in_flight(), &mut probed),
        Reply::NotMine
    );
    forget_probed_size(&mut probed);
}

#[test]
fn test_the_console_is_not_asked_every_second() {
    // The probe polls for somebody dragging a window, and mode 2048 has taken
    // the job wherever the terminal can push at all -- so a cadence in the
    // low seconds buys latency nobody can perceive and charges every
    // program's output for it.
    assert!(PROBE_INTERVAL >= 10 * NANOS_PER_SECOND);

    let start = instant_now();
    let mut probe = cursor_style();
    assert!(probe.take_turn(start, no_request_in_flight()));
    assert!(!probe.due(start + NANOS_PER_SECOND));
    assert!(probe.due(start + PROBE_INTERVAL));
}

#[test]
fn test_a_console_that_stops_answering_is_asked_less_often() {
    let start = instant_now();
    let mut probed = ProbedSize::new();
    let mut probe = cursor_style();

    // A slow console is still a console: nothing gives up before
    // `QUIET_AFTER` questions have gone unanswered.
    for turn in 0..QUIET_AFTER {
        assert!(probe.take_turn(start + PROBE_INTERVAL * turn as u64, no_request_in_flight()));
    }
    let quiet_from = start + PROBE_INTERVAL * (QUIET_AFTER - 1) as u64;
    assert!(!probe.due(quiet_from + PROBE_INTERVAL));
    assert!(probe.due(quiet_from + QUIET_INTERVAL));

    // One answer, however late, and it is a working console again.
    forget_probed_size(&mut probed);
    probe.reply(79, 23, no_request_in_flight(), &mut probed);
    assert!(probe.due(quiet_from + PROBE_INTERVAL));
    forget_probed_size(&mut probed);
}

#[test]
fn test_a_probe_is_never_due_without_a_terminal() {
    let probe = SizeProbe::new(false);
    assert!(!probe.due(instant_now()));
    assert!(!probe.due(instant_now() + PROBE_INTERVAL * 10));
    // And nothing waits on a probe that will never be sent.
    assert_eq!(probe.next_probe_in(instant_now()), None);
}

#[test]
fn test_a_wait_is_capped_at_the_next_probe() {
    let start = instant_now();
    let mut probe = cursor_style();

    // Never asked: ask before waiting on anything.
    assert_eq!(probe.next_probe_in(start), Some(0));

    assert!(probe.take_turn(start, no_request_in_flight()));
    assert_eq!(
        probe.next_probe_in(start + PROBE_INTERVAL / 2),
        Some(PROBE_INTERVAL / 2)
    );
    // Overdue is zero, not a negative wait.
    assert_eq!(probe.next_probe_in(start + PROBE_INTERVAL * 2), Some(0));
}

#[test]
fn test_the_probe_stands_down_while_the_application_asks() {
    let now = instant_now();
    let mut probe = cursor_style();
    assert!(probe.due(now));

    let mut requests = PositionRequests::new();
    requests.begin();
    let mut probed = ProbedSize::new();
    // Neither ask...
    assert!(!probe.take_turn(now, position_request_in_flight(&requests)));
    // ...nor claim the answer to somebody else's question.
    assert_eq!(
        awaiting(now).reply(120, 40, position_request_in_flight(&requests), &mut probed),
        Reply::NotMine
    );
    // Standing down still spends the turn, so the event source waits on the
    // application rather than spinning on a probe that stays due. It comes
    // back on the escalation cadence rather than the full one: no size has
    // been learned yet, and the application's own request will not be in
    // flight for long.
    assert!(!probe.due(now));
    assert_eq!(probe.next_probe_in(now), Some(ESCALATION_INTERVAL));

    // Once a probe has actually gone out, the ordinary cadence applies.
    requests.end();
    assert!(probe.take_turn(now + ESCALATION_INTERVAL, position_request_in_flight(&requests)));
    assert_eq!(
        probe.next_probe_in(now + ESCALATION_INTERVAL),
        Some(PROBE_INTERVAL)
    );
}

#[test]
fn test_a_reply_is_the_size_the_cursor_was_clamped_to() {
    let mut probed = ProbedSize::new();
    forget_probed_size(&mut probed);
    let now = instant_now();

    // `ESC[41;121R` reaches us as the zero-based (120, 40).
    assert_eq!(
        awaiting(now).reply(120, 40, no_request_in_flight(), &mut probed),
        Reply::Resized(121, 41)
    );
    // Same answer next time round: nothing to tell the application.
    assert_eq!(
        awaiting(now).reply(120, 40, no_request_in_flight(), &mut probed),
        Reply::SameSize
    );
    assert_eq!(
        awaiting(now).reply(79, 23, no_request_in_flight(), &mut probed),
        Reply::Resized(80, 24)
    );
    forget_probed_size(&mut probed);
}

#[test]
fn test_a_reply_is_owed_for_as_long_as_it_takes() {
    let mut probed = ProbedSize::new();
    forget_probed_size(&mut probed);
    let start = instant_now();

    // The question went out, an age passed, and the console finally answered
    // it. That answer is this probe's, whenever it turns up.
    let mut probe = awaiting(start);
    assert!(!probe.due(start + PROBE_INTERVAL / 2));
    assert_eq!(
        probe.reply(120, 40, no_request_in_flight(), &mut probed),
        Reply::Resized(121, 41)
    );
    forget_probed_size(&mut probed);
}

#[test]
fn test_a_report_nobody_asked_for_is_passed_on() {
    let now = instant_now();
    let mut probed = ProbedSize::new();

    // No probe outstanding.
    assert_eq!(
        SizeProbe::new(true).reply(120, 40, no_request_in_flight(), &mut probed),
        Reply::NotMine
    );

    // One reply per probe.
    forget_probed_size(&mut probed);
    let mut probe = awaiting(now);
    assert!(matches!(
        probe.reply(120, 40, no_request_in_flight(), &mut probed),
        Reply::Resized(..)
    ));
    assert_eq!(
        probe.reply(120, 40, no_request_in_flight(), &mut probed),
        Reply::NotMine
    );
    forget_probed_size(&mut probed);
}

#[test]
fn test_only_supported_resize_mode_status_stops_probing() {
    let now = instant_now();
    for status in [0, 4, 5] {
        let mut probe = SizeProbe::new(true);
        probe.resize_mode_status(status);
        assert_eq!(probe.next_probe_in(now), Some(0));
    }
    for status in 1..=3 {
        let mut probe = SizeProbe::new(true);
        probe.resize_mode_status(status);
        assert_eq!(probe.next_probe_in(now), None);
    }
}

#[test]
fn test_a_resize_report_confirms_support_without_decrpm() {
    let mut probed = ProbedSize::new();
    forget_probed_size(&mut probed);
    let now = instant_now();
    let mut probe = SizeProbe::new(true);
    assert!(probe.resize_mode_report(120, 40, &mut probed));
    assert_eq!(probe.next_probe_in(now), None);
    assert!(!probe.resize_mode_report(120, 40, &mut probed));
    forget_probed_size(&mut probed);
}

#[test]
fn the_question_asked_follows_the_escalation() {
    let now = instant_now();
    let mut probe = SizeProbe::new(true);
    assert_eq!(probe.probe(now, false), Some(Question::TextArea));
    assert_eq!(probe.probe(now, false), None);
    assert_eq!(probe.probe(now + ESCALATION_INTERVAL, false), Some(Question::TextArea));
    let later = now + 2 * ESCALATION_INTERVAL;
    assert_eq!(probe.probe(later, true), None);
    assert!(!probe.due(later));
    assert_eq!(probe.probe(later + ESCALATION_INTERVAL, false), Some(Question::Cursor));
    assert!(probe.awaits_reply(false));
    probe.question_not_sent();
    assert!(!probe.awaits_reply(false));
}

#[test]
fn the_questions_are_the_expected_escape_sequences() {
    assert_eq!(Question::TextArea.bytes(), b"\x1b[18t".to_vec());
    assert_eq!(Question::Cursor.bytes(), b"\x1b7\x1b[9999;9999H\x1b[6n\x1b8".to_vec());
}

#[test]
fn a_reply_at_the_far_corner_saturates() {
    let mut probed = ProbedSize::new();
    assert_eq!(
        awaiting(instant_now()).reply(u16::MAX, u16::MAX, false, &mut probed),
        Reply::Resized(u16::MAX, u16::MAX)
    );
    assert_eq!(probed.reported(), Some((u16::MAX, u16::MAX)));
}

#[test]
fn the_quiet_cadence_is_thirty_seconds_and_escalation_a_quarter_second() {
    assert_eq!(QUIET_INTERVAL, 30 * NANOS_PER_SECOND);
    assert_eq!(ESCALATION_INTERVAL, NANOS_PER_SECOND / 4);
    assert_eq!(PROBE_INTERVAL, 10 * NANOS_PER_SECOND);
}

#[test]
fn a_probe_without_a_terminal_stays_silent_whatever_happens() {
    let now = instant_now();
    let mut probed = ProbedSize::new();
    let mut probe = SizeProbe::new(false);
    assert_eq!(probe.probe(now, false), None);
    probe.resize_mode_status(0);
    probe.text_area_reply(80, 24, &mut probed);
    probe.reply(10, 10, false, &mut probed);
    probe.question_not_sent();
    assert!(!probe.due(now + QUIET_INTERVAL));
    assert_eq!(probe.next_probe_in(now), None);
    assert_eq!(probe.probe(now + QUIET_INTERVAL, false), None);
}

#[test]
fn confirmed_resize_mode_support_is_never_undone() {
    let now = instant_now();
    let mut probed = ProbedSize::new();
    let mut probe = SizeProbe::new(true);
    probe.resize_mode_status(3);
    probe.resize_mode_status(0);
    probe.text_area_reply(80, 24, &mut probed);
    assert_eq!(probe.probe(now, false), None);
    assert!(!probe.due(now + QUIET_INTERVAL));
    assert_eq!(probe.next_probe_in(now), None);
}

#[test]
fn after_a_text_area_answer_only_the_text_area_is_asked() {
    let mut now = instant_now();
    let mut probed = ProbedSize::new();
    let mut probe = cursor_style();
    probe.text_area_reply(100, 30, &mut probed);
    for _ in 0..5 {
        now += QUIET_INTERVAL;
        assert_eq!(probe.probe(now, false), Some(Question::TextArea));
    }
}
