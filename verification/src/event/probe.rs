//! Fallback polling for a Motor OS terminal's size.
//!
//! Mode 2048 supplies push notifications when the terminal supports it. Until
//! support is confirmed, the event source polls, asking less often once nothing
//! appears to be listening.
//!
//! There are two ways to ask, and the order matters to whoever is watching the
//! screen. `CSI 18 t` is answered without the cursor going anywhere, so it is
//! tried first. The fallback parks the cursor in the bottom right corner and
//! asks where it ended up, which is visible: on a slow terminal the cursor is
//! seen to jump to the corner and back on every probe.

use vstd::prelude::*;
use crate::terminal::{is_news, set_probed_size, ProbedSize};
use crate::time::{clamp_u64, until, NANOS_PER_MILLI, NANOS_PER_SECOND};

verus! {

/// How often the terminal is asked.
///
/// This is the fallback for a terminal that does not implement mode 2048, and
/// only that: one that does is never asked at all. Ten seconds bounds how long
/// a resize goes unnoticed.
pub const PROBE_INTERVAL: u64 = 10 * NANOS_PER_SECOND;

/// How often it is asked once it has stopped answering.
pub const QUIET_INTERVAL: u64 = 30 * NANOS_PER_SECOND;

/// How many probes may go unanswered before [`QUIET_INTERVAL`] takes over.
///
/// More than one, because a console that is merely slow must not be mistaken
/// for one that cannot answer at all. Any answer puts the probe straight back
/// on the ordinary cadence.
pub const QUIET_AFTER: u32 = 3;

/// How many `CSI 18 t` queries go unanswered before the cursor probe takes over.
pub const TEXT_AREA_ATTEMPTS: u32 = 2;

/// How long to wait before giving up on an unanswered `CSI 18 t`.
///
/// Much shorter than [`PROBE_INTERVAL`]: escalation is a startup cost, paid
/// once, and it should not be measured in tens of seconds.
pub const ESCALATION_INTERVAL: u64 = 250 * NANOS_PER_MILLI;

/// What a cursor position report turned out to be.
#[derive(Debug, PartialEq, Eq, Structural)]
pub enum Reply {
    /// Not this probe's reply; the caller must pass the report on.
    NotMine,
    /// This probe's reply, and the terminal is the size it already was.
    SameSize,
    /// This probe's reply, and the terminal has a new size (columns, rows).
    Resized(u16, u16),
}

/// Which question a probe puts to the terminal.
#[derive(Debug, Clone, Copy, PartialEq, Eq, Structural)]
pub enum Question {
    /// `CSI 18 t`: the size of the text area; nothing on screen moves.
    TextArea,
    /// Save the cursor, move it far past the bottom right corner, ask where
    /// it ended up, put it back. The move is clamped to the last cell, so the
    /// reply is the size.
    Cursor,
}

/// `CSI 18 t`.
pub open spec fn text_area_probe() -> Seq<u8> {
    seq![0x1bu8, 0x5b, 0x31, 0x38, 0x74]
}

/// `ESC 7`, `CSI 9999 ; 9999 H`, `CSI 6 n`, `ESC 8`.
pub open spec fn cursor_probe() -> Seq<u8> {
    seq![
        0x1bu8, 0x37,
        0x1b, 0x5b, 0x39, 0x39, 0x39, 0x39, 0x3b, 0x39, 0x39, 0x39, 0x39, 0x48,
        0x1b, 0x5b, 0x36, 0x6e,
        0x1b, 0x38,
    ]
}

impl Question {
    /// The bytes that put this question.
    pub open spec fn spec_bytes(self) -> Seq<u8> {
        match self {
            Question::TextArea => text_area_probe(),
            Question::Cursor => cursor_probe(),
        }
    }

    /// The bytes that put this question to the terminal.
    pub fn bytes(&self) -> (bytes: Vec<u8>)
        ensures
            bytes@ == self.spec_bytes(),
    {
        match self {
            Question::TextArea => {
                let bytes: Vec<u8> = vec![0x1bu8, 0x5b, 0x31, 0x38, 0x74];
                assert(bytes@ == text_area_probe());
                bytes
            },
            Question::Cursor => {
                let bytes: Vec<u8> = vec![
                    0x1bu8, 0x37,
                    0x1b, 0x5b, 0x39, 0x39, 0x39, 0x39, 0x3b, 0x39, 0x39, 0x39, 0x39, 0x48,
                    0x1b, 0x5b, 0x36, 0x6e,
                    0x1b, 0x38,
                ];
                assert(bytes@ == cursor_probe());
                bytes
            },
        }
    }
}

/// Something that happens to a probe: the moments at which the event source
/// gives it a turn, and the answers the terminal sends.
pub enum ProbeEvent {
    /// The event source offers the probe a turn at time `now`.
    Turn { now: u64, position_request_in_flight: bool },
    /// A cursor position report arrived.
    CursorReport { position_request_in_flight: bool },
    /// The answer to `CSI 18 t` arrived.
    TextAreaReport,
    /// A DECRPM reply for mode 2048 arrived.
    ResizeModeStatus { status: u8 },
    /// A mode 2048 size report arrived.
    ResizeModeReport,
    /// The question of the last turn could not be written.
    QuestionNotSent,
}

/// The state of the size probe.
#[derive(Debug)]
pub struct SizeProbe {
    /// Whether there is a terminal on stdout to ask at all.
    pub enabled: bool,
    /// When the last probe went out.
    pub sent: Option<u64>,
    /// Whether that probe's reply is still owed.
    pub awaiting_reply: bool,
    /// How many cursor probes in a row have gone unanswered.
    pub unanswered: u32,
    /// Whether mode 2048 has made the polling fallback unnecessary.
    pub resize_mode_supported: bool,
    /// Whether `CSI 18 t` has ever been answered. Once it has, the cursor is
    /// never moved to measure the terminal again.
    pub text_area_supported: bool,
    /// How many `CSI 18 t` queries have gone unanswered.
    pub text_area_unanswered: u32,
}

/// The columns and rows that a cursor report at (`column`, `row`) stands
/// for: the cursor was asked to go far past the last cell and was clamped to
/// it, so where it ended up, counted from one, is the size.
pub open spec fn reply_size(column: u16, row: u16) -> (u16, u16) {
    (column.saturating_add(1), row.saturating_add(1))
}

impl SizeProbe {
    /// Whether the next question is the one that leaves the cursor alone.
    pub open spec fn spec_asks_text_area(&self) -> bool {
        self.text_area_supported || self.text_area_unanswered < TEXT_AREA_ATTEMPTS
    }

    /// Whether the terminal has been asked something and has answered
    /// nothing, so how to ask it is still being worked out.
    pub open spec fn spec_escalating(&self) -> bool {
        !self.text_area_supported && self.text_area_unanswered > 0 && self.unanswered == 0
    }

    /// How long between probes, given how the terminal has been answering.
    pub open spec fn spec_interval(&self) -> u64 {
        if self.spec_escalating() {
            ESCALATION_INTERVAL
        } else if self.unanswered >= QUIET_AFTER {
            QUIET_INTERVAL
        } else {
            PROBE_INTERVAL
        }
    }

    /// Whether it is time to ask again: never once mode 2048 is confirmed or
    /// without a terminal; at once if nothing was ever asked; otherwise once
    /// the interval has passed since the last question.
    pub open spec fn spec_due(&self, now: u64) -> bool {
        &&& !self.resize_mode_supported
        &&& self.enabled
        &&& match self.sent {
            None => true,
            Some(sent) => now - sent >= self.spec_interval(),
        }
    }

    /// How long until the next probe is due, or `None` if none ever will be.
    pub open spec fn spec_next_probe_in(&self, now: u64) -> Option<u64> {
        if !self.enabled || self.resize_mode_supported {
            None
        } else {
            Some(
                match self.sent {
                    None => 0,
                    Some(sent) => clamp_u64(sent + self.spec_interval() - now),
                },
            )
        }
    }

    /// Whether this probe may claim a cursor position report: only while its
    /// own question is outstanding, and never while the application has a
    /// position request of its own in flight.
    pub open spec fn spec_awaits_reply(&self, position_request_in_flight: bool) -> bool {
        self.awaiting_reply && !position_request_in_flight
    }

    /// The question a turn at `now` puts, if any.
    pub open spec fn spec_question(&self, now: u64, position_request_in_flight: bool) -> Option<
        Question,
    > {
        if !self.spec_due(now) {
            None
        } else if self.spec_asks_text_area() {
            Some(Question::TextArea)
        } else if position_request_in_flight {
            None
        } else {
            Some(Question::Cursor)
        }
    }

    /// The state with mode 2048 support confirmed.
    pub open spec fn confirmed(self) -> SizeProbe {
        SizeProbe { resize_mode_supported: true, awaiting_reply: false, ..self }
    }

    /// The state after `event`.
    pub open spec fn after(self, event: ProbeEvent) -> SizeProbe {
        match event {
            ProbeEvent::Turn { now, position_request_in_flight } => {
                if !self.spec_due(now) {
                    self
                } else if self.spec_asks_text_area() {
                    SizeProbe {
                        sent: Some(now),
                        text_area_unanswered: self.text_area_unanswered.saturating_add(1),
                        ..self
                    }
                } else if position_request_in_flight {
                    SizeProbe { sent: Some(now), awaiting_reply: false, ..self }
                } else {
                    SizeProbe {
                        sent: Some(now),
                        awaiting_reply: true,
                        unanswered: self.unanswered.saturating_add(1),
                        ..self
                    }
                }
            },
            ProbeEvent::CursorReport { position_request_in_flight } => {
                if self.spec_awaits_reply(position_request_in_flight) {
                    SizeProbe { awaiting_reply: false, unanswered: 0, ..self }
                } else {
                    self
                }
            },
            ProbeEvent::TextAreaReport => SizeProbe {
                text_area_supported: true,
                text_area_unanswered: 0,
                unanswered: 0,
                awaiting_reply: false,
                ..self
            },
            ProbeEvent::ResizeModeStatus { status } => {
                if 1 <= status <= 3 {
                    self.confirmed()
                } else {
                    self
                }
            },
            ProbeEvent::ResizeModeReport => self.confirmed(),
            ProbeEvent::QuestionNotSent => SizeProbe { awaiting_reply: false, ..self },
        }
    }

    /// The state after each of `events` in turn.
    pub open spec fn run(self, events: Seq<ProbeEvent>) -> SizeProbe
        decreases events.len(),
    {
        if events.len() == 0 {
            self
        } else {
            self.after(events[0]).run(events.drop_first())
        }
    }

    /// A probe that has asked nothing yet.
    pub open spec fn new_spec(enabled: bool) -> SizeProbe {
        SizeProbe {
            enabled,
            sent: None,
            awaiting_reply: false,
            unanswered: 0,
            resize_mode_supported: false,
            text_area_supported: false,
            text_area_unanswered: 0,
        }
    }

    /// A probe that has asked nothing yet; `enabled` says whether there is a
    /// terminal on stdout to ask.
    pub fn new(enabled: bool) -> (probe: Self)
        ensures
            probe == Self::new_spec(enabled),
    {
        SizeProbe {
            enabled,
            sent: None,
            awaiting_reply: false,
            unanswered: 0,
            resize_mode_supported: false,
            text_area_supported: false,
            text_area_unanswered: 0,
        }
    }

    /// Whether the next question is the one that leaves the cursor alone.
    pub fn asks_text_area(&self) -> (asks: bool)
        ensures
            asks == self.spec_asks_text_area(),
    {
        self.text_area_supported || self.text_area_unanswered < TEXT_AREA_ATTEMPTS
    }

    /// Whether the terminal has been asked something and has answered
    /// nothing. This covers the step after the last `CSI 18 t` as well as the
    /// ones between: giving up on the cursor-free question and then waiting a
    /// full [`PROBE_INTERVAL`] to try the other one would put the whole
    /// escalation budget back into the startup path it exists to keep short.
    fn escalating(&self) -> (escalating: bool)
        ensures
            escalating == self.spec_escalating(),
    {
        !self.text_area_supported && self.text_area_unanswered > 0 && self.unanswered == 0
    }

    /// How long between probes, given how the terminal has been answering.
    fn interval(&self) -> (interval: u64)
        ensures
            interval == self.spec_interval(),
    {
        if self.escalating() {
            ESCALATION_INTERVAL
        } else if self.unanswered >= QUIET_AFTER {
            QUIET_INTERVAL
        } else {
            PROBE_INTERVAL
        }
    }

    /// Whether it is time to ask again.
    pub fn due(&self, now: u64) -> (due: bool)
        ensures
            due == self.spec_due(now),
    {
        if self.resize_mode_supported {
            return false;
        }
        match (self.enabled, self.sent) {
            (false, _) => false,
            // Never asked: one probe is worth it whatever is out there.
            (true, None) => true,
            (true, Some(sent)) => now.saturating_sub(sent) >= self.interval(),
        }
    }

    /// How long until the next probe is due, or `None` if none ever will be.
    ///
    /// The event source waits no longer than this, so that a terminal that
    /// changed shape while nothing was being typed is still noticed.
    pub fn next_probe_in(&self, now: u64) -> (wait: Option<u64>)
        ensures
            wait == self.spec_next_probe_in(now),
    {
        if !self.enabled || self.resize_mode_supported {
            return None;
        }
        Some(
            match self.sent {
                None => 0,
                Some(sent) => until(sent, self.interval(), now),
            },
        )
    }

    /// Decides whether to ask now, and records that it did; the caller does
    /// the writing.
    ///
    /// The cursor probe parks the cursor in the corner on its way past, so it
    /// stands down while the application is waiting to be told where its own
    /// cursor is. Standing down still counts as this interval's turn: a probe
    /// that stayed due would spin the event loop for as long as the
    /// application waited.
    pub fn take_turn(&mut self, now: u64, position_request_in_flight: bool) -> (asked: bool)
        ensures
            *final(self) == old(self).after(ProbeEvent::Turn { now, position_request_in_flight }),
            asked == old(self).spec_question(now, position_request_in_flight).is_some(),
    {
        if !self.due(now) {
            return false;
        }
        self.sent = Some(now);
        // `CSI 18 t` moves nothing and is answered with a report no
        // application asks for, so there is nobody to collide with.
        if self.asks_text_area() {
            self.text_area_unanswered = self.text_area_unanswered.saturating_add(1);
            return true;
        }
        if position_request_in_flight {
            self.awaiting_reply = false;
            return false;
        }
        self.awaiting_reply = true;
        self.unanswered = self.unanswered.saturating_add(1);
        true
    }

    /// Asks the terminal for its size, if it is time to ask: takes the turn
    /// and says which question to write. When the question could not be
    /// written, the caller reports it with [`SizeProbe::question_not_sent`].
    pub fn probe(&mut self, now: u64, position_request_in_flight: bool) -> (question: Option<
        Question,
    >)
        ensures
            *final(self) == old(self).after(ProbeEvent::Turn { now, position_request_in_flight }),
            question == old(self).spec_question(now, position_request_in_flight),
    {
        // Sampled before the turn is taken, which is what spends the attempt.
        let text_area = self.asks_text_area();
        if !self.take_turn(now, position_request_in_flight) {
            return None;
        }
        if text_area {
            Some(Question::TextArea)
        } else {
            Some(Question::Cursor)
        }
    }

    /// Records that the question of the last turn did not go out: nothing
    /// went out, so nothing is owed.
    pub fn question_not_sent(&mut self)
        ensures
            *final(self) == old(self).after(ProbeEvent::QuestionNotSent),
    {
        self.awaiting_reply = false;
    }

    /// Whether this probe may still claim a cursor position report.
    ///
    /// There is no clock on this on purpose: a reply is owed from the moment
    /// the question goes out until the next question replaces it, however long
    /// the terminal takes. A terminal answers `ESC[6n` once per request and in
    /// order, so while the application has a request of its own outstanding
    /// the next report is far more likely to be the one it is waiting for.
    pub fn awaits_reply(&self, position_request_in_flight: bool) -> (awaits: bool)
        ensures
            awaits == self.spec_awaits_reply(position_request_in_flight),
    {
        self.awaiting_reply && !position_request_in_flight
    }

    /// Offers a cursor position report, as the parser produces it: zero-based
    /// column and row. A claimed report is recorded in `probed`.
    pub fn reply(
        &mut self,
        column: u16,
        row: u16,
        position_request_in_flight: bool,
        probed: &mut ProbedSize,
    ) -> (reply: Reply)
        ensures
            *final(self) == old(self).after(ProbeEvent::CursorReport { position_request_in_flight }),
            !old(self).spec_awaits_reply(position_request_in_flight) ==> reply == Reply::NotMine
                && final(probed)@ == old(probed)@,
            old(self).spec_awaits_reply(position_request_in_flight) ==> final(probed)@ == Some(
                reply_size(column, row),
            ) && reply == if is_news(
                old(probed)@,
                reply_size(column, row).0,
                reply_size(column, row).1,
            ) {
                Reply::Resized(reply_size(column, row).0, reply_size(column, row).1)
            } else {
                Reply::SameSize
            },
    {
        if !self.awaits_reply(position_request_in_flight) {
            return Reply::NotMine;
        }
        self.awaiting_reply = false;
        self.unanswered = 0;
        let columns = column.saturating_add(1);
        let rows = row.saturating_add(1);
        if set_probed_size(probed, columns, rows) {
            Reply::Resized(columns, rows)
        } else {
            Reply::SameSize
        }
    }

    /// Records the answer to `CSI 18 t` in `probed`, says whether it is news,
    /// and stops the cursor ever being moved to measure the terminal again.
    ///
    /// No application asks a window operation, so a report that arrives is
    /// this probe's by construction. Any cursor probe still outstanding is
    /// abandoned, or its answer would be claimed from the application later.
    pub fn text_area_reply(&mut self, columns: u16, rows: u16, probed: &mut ProbedSize) -> (news:
        bool)
        ensures
            *final(self) == old(self).after(ProbeEvent::TextAreaReport),
            final(probed)@ == Some((columns, rows)),
            news == is_news(old(probed)@, columns, rows),
    {
        self.text_area_supported = true;
        self.text_area_unanswered = 0;
        self.unanswered = 0;
        self.awaiting_reply = false;
        set_probed_size(probed, columns, rows)
    }

    /// Applies a DECRPM reply. States 1 to 3 confirm support; 0 and 4 do not.
    pub fn resize_mode_status(&mut self, status: u8)
        ensures
            *final(self) == old(self).after(ProbeEvent::ResizeModeStatus { status }),
    {
        if 1 <= status && status <= 3 {
            self.confirm_resize_mode();
        }
    }

    /// Records a validated in-band resize report in `probed`, says whether it
    /// is news, and stops fallback probing.
    pub fn resize_mode_report(&mut self, columns: u16, rows: u16, probed: &mut ProbedSize) -> (news:
        bool)
        ensures
            *final(self) == old(self).after(ProbeEvent::ResizeModeReport),
            final(probed)@ == Some((columns, rows)),
            news == is_news(old(probed)@, columns, rows),
    {
        self.confirm_resize_mode();
        set_probed_size(probed, columns, rows)
    }

    fn confirm_resize_mode(&mut self)
        ensures
            *final(self) == old(self).confirmed(),
    {
        self.resize_mode_supported = true;
        self.awaiting_reply = false;
    }
}

/// A probe without a terminal is never due and never waited on, whatever
/// happens to it: no event changes whether there is a terminal to ask.
pub proof fn lemma_never_due_without_a_terminal(
    probe: SizeProbe,
    events: Seq<ProbeEvent>,
    now: u64,
)
    requires
        !probe.enabled,
    ensures
        !probe.run(events).enabled,
        !probe.run(events).spec_due(now),
        probe.run(events).spec_next_probe_in(now) == None::<u64>,
    decreases events.len(),
{
    if events.len() > 0 {
        lemma_never_due_without_a_terminal(probe.after(events[0]), events.drop_first(), now);
    }
}

/// Once mode 2048 is confirmed the polling fallback is over for good: the
/// probe is never due again and nothing waits on it.
pub proof fn lemma_resize_mode_support_is_permanent(
    probe: SizeProbe,
    events: Seq<ProbeEvent>,
    now: u64,
)
    requires
        probe.resize_mode_supported,
    ensures
        probe.run(events).resize_mode_supported,
        !probe.run(events).spec_due(now),
        probe.run(events).spec_next_probe_in(now) == None::<u64>,
    decreases events.len(),
{
    if events.len() > 0 {
        lemma_resize_mode_support_is_permanent(probe.after(events[0]), events.drop_first(), now);
    }
}

/// Once `CSI 18 t` has been answered, the cursor is never moved to measure the
/// terminal again: whatever happens next, no turn asks the cursor question.
pub proof fn lemma_text_area_answer_retires_the_cursor_probe(
    probe: SizeProbe,
    events: Seq<ProbeEvent>,
    now: u64,
    position_request_in_flight: bool,
)
    requires
        probe.text_area_supported,
    ensures
        probe.run(events).text_area_supported,
        probe.run(events).spec_asks_text_area(),
        probe.run(events).spec_question(now, position_request_in_flight) != Some(
            Question::Cursor,
        ),
    decreases events.len(),
{
    if events.len() > 0 {
        lemma_text_area_answer_retires_the_cursor_probe(
            probe.after(events[0]),
            events.drop_first(),
            now,
            position_request_in_flight,
        );
    }
}

/// A probe is due exactly when the wait until the next probe is zero.
pub proof fn lemma_due_exactly_when_no_wait_is_left(probe: SizeProbe, now: u64)
    ensures
        probe.spec_due(now) <==> probe.spec_next_probe_in(now) == Some(0u64),
{
}

/// A reply is owed for as long as it takes: a turn that is not due changes
/// nothing, so the question stays outstanding, and the reply stays this
/// probe's, until the next question replaces it.
pub proof fn lemma_a_reply_is_owed_until_the_next_question(
    probe: SizeProbe,
    now: u64,
    position_request_in_flight: bool,
)
    requires
        !probe.spec_due(now),
    ensures
        probe.after(ProbeEvent::Turn { now, position_request_in_flight }) == probe,
        probe.spec_question(now, position_request_in_flight) is None,
{
}

/// A turn that finds the probe due is spent, whether it asks or stands down:
/// the probe is not due again at the same moment, and the next wait is a whole
/// interval.
pub proof fn lemma_a_turn_is_spent(probe: SizeProbe, now: u64, position_request_in_flight: bool)
    requires
        probe.spec_due(now),
    ensures
        !probe.after(ProbeEvent::Turn { now, position_request_in_flight }).spec_due(now),
        probe.after(ProbeEvent::Turn { now, position_request_in_flight }).spec_next_probe_in(now)
            == Some(
            probe.after(ProbeEvent::Turn { now, position_request_in_flight }).spec_interval(),
        ),
{
}

/// One reply per question: a report the probe claims settles its question, so
/// the next report is not its own until another question goes out; and a
/// report that arrives while the application has a position request of its
/// own in flight is never claimed and changes nothing.
pub proof fn lemma_one_reply_per_question(
    probe: SizeProbe,
    position_request_in_flight: bool,
    next_in_flight: bool,
)
    ensures
        probe.spec_awaits_reply(position_request_in_flight) ==> !probe.after(
            ProbeEvent::CursorReport { position_request_in_flight },
        ).spec_awaits_reply(next_in_flight),
        !probe.spec_awaits_reply(true),
        probe.after(ProbeEvent::CursorReport { position_request_in_flight: true }) == probe,
{
}

/// Any answer, however late, makes it a working console again: after a
/// claimed cursor report or a text-area answer the probe is on the ordinary
/// cadence (or the quicker escalation one), never the quiet one.
pub proof fn lemma_an_answer_restores_the_cadence(probe: SizeProbe, position_request_in_flight: bool)
    ensures
        probe.spec_awaits_reply(position_request_in_flight) ==> probe.after(
            ProbeEvent::CursorReport { position_request_in_flight },
        ).spec_interval() <= PROBE_INTERVAL,
        probe.after(ProbeEvent::TextAreaReport).spec_interval() == PROBE_INTERVAL,
{
}

/// A slow console is still a console: the probe falls back to the quiet
/// cadence only after [`QUIET_AFTER`] cursor questions in a row have gone
/// unanswered, and the gaps between questions never exceed it.
pub proof fn lemma_quiet_only_after_silence(probe: SizeProbe)
    ensures
        probe.spec_interval() == QUIET_INTERVAL ==> probe.unanswered >= QUIET_AFTER,
        probe.unanswered < QUIET_AFTER ==> probe.spec_interval() <= PROBE_INTERVAL,
        probe.spec_interval() <= QUIET_INTERVAL,
        probe.spec_interval() > 0,
{
}

/// The cadence in plain terms: while `CSI 18 t` has gone unanswered and no
/// cursor question is outstanding unanswered, the next question comes after
/// [`ESCALATION_INTERVAL`]; after [`QUIET_AFTER`] unanswered cursor questions,
/// after [`QUIET_INTERVAL`]; otherwise after [`PROBE_INTERVAL`]. A probe that
/// has asked before is due exactly when that long has passed since it last
/// asked, and one that never asked is due at once.
pub proof fn lemma_the_cadence(probe: SizeProbe, now: u64)
    ensures
        !probe.text_area_supported && probe.text_area_unanswered > 0 && probe.unanswered == 0
            ==> probe.spec_interval() == ESCALATION_INTERVAL,
        probe.unanswered >= QUIET_AFTER ==> probe.spec_interval() == QUIET_INTERVAL,
        (probe.text_area_supported || probe.text_area_unanswered == 0) && probe.unanswered
            < QUIET_AFTER ==> probe.spec_interval() == PROBE_INTERVAL,
        probe.unanswered > 0 && probe.unanswered < QUIET_AFTER ==> probe.spec_interval()
            == PROBE_INTERVAL,
        probe.enabled && !probe.resize_mode_supported && probe.sent is None ==> probe.spec_due(
            now,
        ),
        probe.enabled && !probe.resize_mode_supported && probe.sent is Some ==> (probe.spec_due(now)
            <==> now >= probe.sent.unwrap() + probe.spec_interval()),
{
}

/// What a turn that finds the probe due does: it records the time; while the
/// cursor-free question is still to be tried (`CSI 18 t` answered before, or
/// tried fewer than [`TEXT_AREA_ATTEMPTS`] times) it asks that and counts the
/// attempt; otherwise it asks the cursor question and counts it as
/// unanswered, unless the application's position request is in flight, in
/// which case it asks nothing and owes no reply. A turn never changes whether
/// there is a terminal, mode 2048 support, or a text-area answer.
pub proof fn lemma_what_a_turn_asks(probe: SizeProbe, now: u64, position_request_in_flight: bool)
    requires
        probe.spec_due(now),
    ensures
        ({
            let next = probe.after(ProbeEvent::Turn { now, position_request_in_flight });
            let question = probe.spec_question(now, position_request_in_flight);
            &&& next.sent == Some(now)
            &&& next.enabled == probe.enabled
            &&& next.resize_mode_supported == probe.resize_mode_supported
            &&& next.text_area_supported == probe.text_area_supported
            &&& (probe.text_area_supported || probe.text_area_unanswered < TEXT_AREA_ATTEMPTS) ==> {
                &&& question == Some(Question::TextArea)
                &&& next.text_area_unanswered == if probe.text_area_unanswered == u32::MAX {
                    u32::MAX
                } else {
                    (probe.text_area_unanswered + 1) as u32
                }
                &&& next.awaiting_reply == probe.awaiting_reply
                &&& next.unanswered == probe.unanswered
            }
            &&& (!probe.text_area_supported && probe.text_area_unanswered >= TEXT_AREA_ATTEMPTS
                && position_request_in_flight) ==> {
                &&& question is None
                &&& !next.awaiting_reply
                &&& next.unanswered == probe.unanswered
            }
            &&& (!probe.text_area_supported && probe.text_area_unanswered >= TEXT_AREA_ATTEMPTS
                && !position_request_in_flight) ==> {
                &&& question == Some(Question::Cursor)
                &&& next.awaiting_reply
                &&& next.unanswered == if probe.unanswered == u32::MAX {
                    u32::MAX
                } else {
                    (probe.unanswered + 1) as u32
                }
                &&& next.text_area_unanswered == probe.text_area_unanswered
            }
        }),
{
}

/// What the answers do: a claimed cursor reply settles the question and
/// clears the count of unanswered questions; a text-area answer marks the
/// cursor-free question as working and settles every count; a supported mode
/// 2048 status (1 to 3) or any mode 2048 report ends the polling, while other
/// statuses change nothing. None of them changes when the last question went
/// out.
pub proof fn lemma_what_the_answers_do(probe: SizeProbe, status: u8, position_request_in_flight: bool)
    ensures
        probe.awaiting_reply && !position_request_in_flight ==> {
            let next = probe.after(ProbeEvent::CursorReport { position_request_in_flight });
            &&& !next.awaiting_reply && next.unanswered == 0
            &&& next.sent == probe.sent && next.text_area_unanswered == probe.text_area_unanswered
        },
        ({
            let next = probe.after(ProbeEvent::TextAreaReport);
            &&& next.text_area_supported && next.text_area_unanswered == 0 && next.unanswered == 0
            &&& !next.awaiting_reply && next.sent == probe.sent
        }),
        1 <= status <= 3 ==> probe.after(ProbeEvent::ResizeModeStatus { status })
            .resize_mode_supported && !probe.after(
            ProbeEvent::ResizeModeStatus { status },
        ).awaiting_reply,
        !(1 <= status <= 3) ==> probe.after(ProbeEvent::ResizeModeStatus { status }) == probe,
        probe.after(ProbeEvent::ResizeModeReport).resize_mode_supported,
        !probe.after(ProbeEvent::QuestionNotSent).awaiting_reply,
        probe.after(ProbeEvent::QuestionNotSent).sent == probe.sent,
{
}

} // verus!
