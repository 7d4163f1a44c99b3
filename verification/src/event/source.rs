//! The decisions of the Motor OS event source.
//!
//! Motor OS has no `/dev/tty`: a program's terminal, when it has one, is its
//! own stdin, and a poll registry is the only way to ask whether a byte is
//! waiting there. The event source waits on that registry, reads bursts of
//! input, cleans them up for the ANSI parser, arbitrates size reports between
//! the size probe and the application, and decides how long each wait may
//! last. The waiting, reading and parsing are the caller's; the decisions are
//! here.

use vstd::prelude::*;
use crate::event::input::{coalesce, CrLfCoalescer};
use crate::event::internal::PollTimeout;
use crate::event::probe::{reply_size, ProbeEvent, Question, Reply, SizeProbe};
use crate::terminal::{is_news, ProbedSize};
use crate::time::{clamp_u64, until, NANOS_PER_MILLI};

verus! {

/// Registry token for stdin.
pub const STDIN_TOKEN: u64 = 0;

/// Registry token for the waker's registry.
pub const WAKE_TOKEN: u64 = 1;

/// How long a half-arrived escape sequence is held before it is taken to be
/// as finished as it will ever be.
///
/// The serial console delivers input one byte per read, so `ESC [ A` arrives
/// as three of them. A decoder that never waited would report every arrow key
/// as `Esc` `[` `A`; one that never gave up would swallow the Escape key.
pub const ESCAPE_TIME: u64 = 50 * NANOS_PER_MILLI;

/// `moto_rt::poll::POLL_READABLE`, the readiness bit that says input is
/// waiting; the crate defines it as 1.
#[verifier::external_body]
fn poll_readable() -> (bit: u64)
    ensures
        bit == 1,
{
    moto_rt::poll::POLL_READABLE
}

/// `moto_rt::poll::POLL_READ_CLOSED`, the readiness bit that says the far end
/// of the input is gone; the crate defines it as 4.
#[verifier::external_body]
fn poll_read_closed() -> (bit: u64)
    ensures
        bit == 4,
{
    moto_rt::poll::POLL_READ_CLOSED
}

/// `moto_rt::poll::POLL_ERROR`, the readiness bit that reports an error; the
/// crate defines it as 16.
#[verifier::external_body]
fn poll_error() -> (bit: u64)
    ensures
        bit == 16,
{
    moto_rt::poll::POLL_ERROR
}

/// The readiness bits on which the input is worth reading: readable, closed,
/// or in error.
pub open spec fn input_readiness() -> u64 {
    1u64 | 4u64 | 16u64
}

/// The nearer of two optional deadlines, where `None` means "no deadline".
pub open spec fn nearer(left: Option<u64>, right: Option<u64>) -> Option<u64> {
    match (left, right) {
        (Some(l), Some(r)) => Some(if l <= r { l } else { r }),
        (l, None) => l,
        (None, r) => r,
    }
}

/// The nearer of two optional deadlines, where `None` means "no deadline".
pub fn shorter(left: Option<u64>, right: Option<u64>) -> (nearest: Option<u64>)
    ensures
        nearest == nearer(left, right),
{
    match (left, right) {
        (Some(left), Some(right)) => Some(if left <= right { left } else { right }),
        (left, None) => left,
        (None, right) => right,
    }
}

/// The nearer deadline is no later than either, is one of them, and is
/// missing only when both are; which one is given first does not matter.
pub proof fn lemma_nearer_deadline(left: Option<u64>, right: Option<u64>)
    ensures
        nearer(left, right) == nearer(right, left),
        nearer(left, right) is None <==> left is None && right is None,
        left is Some ==> nearer(left, right) is Some && nearer(left, right).unwrap() <= left.unwrap(),
        right is Some ==> nearer(left, right) is Some && nearer(left, right).unwrap()
            <= right.unwrap(),
        nearer(left, right) == left || nearer(left, right) == right,
{
}

/// What a ready registry entry calls for.
#[derive(Debug, Clone, Copy, PartialEq, Eq, Structural)]
pub enum Readiness {
    /// The waker's registry: somebody woke the source.
    Woken,
    /// Input is waiting, or its far end is gone: read it.
    Input,
    /// Nothing worth reading; wait again.
    Spurious,
}

/// What a ready registry entry with `token` and readiness `events` calls for.
///
/// A hangup does not mean there is nothing left to read: a peer that writes
/// and closes in one breath leaves its last bytes in the pipe, and the hangup
/// readiness arrives with no readable bit beside it. So input is read on any
/// of them, and a read of nothing is the end.
pub open spec fn readiness_of(token: u64, events: u64) -> Readiness {
    if token == WAKE_TOKEN {
        Readiness::Woken
    } else if events & input_readiness() == 0 {
        Readiness::Spurious
    } else {
        Readiness::Input
    }
}

/// Classifies a ready registry entry.
pub fn readiness(token: u64, events: u64) -> (ready: Readiness)
    ensures
        ready == readiness_of(token, events),
{
    if token == WAKE_TOKEN {
        return Readiness::Woken;
    }
    let mask = poll_readable() | poll_read_closed() | poll_error();
    assert(1u64 | 4u64 | 16u64 == 21u64) by (bit_vector);
    if events & mask == 0 {
        Readiness::Spurious
    } else {
        Readiness::Input
    }
}

/// A report about the terminal's size that the parser produced.
#[derive(Debug, Clone, Copy, PartialEq, Eq, Structural)]
pub enum SizeReport {
    /// DEC private mode 2048's current state.
    ResizeModeStatus(u8),
    /// A mode 2048 size report (columns, rows).
    ResizeModeReport(u16, u16),
    /// The answer to `CSI 18 t` (columns, rows).
    TextAreaSize(u16, u16),
    /// A cursor position report (column, row), zero-based.
    CursorPosition(u16, u16),
}

/// What becomes of a size report.
#[derive(Debug, Clone, Copy, PartialEq, Eq, Structural)]
pub enum Routed {
    /// The source keeps it; nothing is reported.
    Absorbed,
    /// Report a resize to the application (columns, rows).
    Resize(u16, u16),
    /// Pass the cursor position report on (column, row).
    CursorPosition(u16, u16),
}

/// The probe event a size report amounts to.
pub open spec fn probe_event_of(report: SizeReport, position_request_in_flight: bool) -> ProbeEvent {
    match report {
        SizeReport::ResizeModeStatus(status) => ProbeEvent::ResizeModeStatus { status },
        SizeReport::ResizeModeReport(_, _) => ProbeEvent::ResizeModeReport,
        SizeReport::TextAreaSize(_, _) => ProbeEvent::TextAreaReport,
        SizeReport::CursorPosition(_, _) => ProbeEvent::CursorReport { position_request_in_flight },
    }
}

/// The size a report records, if it records one.
pub open spec fn recorded_size(
    probe: SizeProbe,
    report: SizeReport,
    position_request_in_flight: bool,
) -> Option<(u16, u16)> {
    match report {
        SizeReport::ResizeModeStatus(_) => None,
        SizeReport::ResizeModeReport(columns, rows) => Some((columns, rows)),
        SizeReport::TextAreaSize(columns, rows) => Some((columns, rows)),
        SizeReport::CursorPosition(column, row) => if probe.spec_awaits_reply(
            position_request_in_flight,
        ) {
            Some(reply_size(column, row))
        } else {
            None
        },
    }
}

/// What becomes of `report`, given the probe and the last size recorded.
pub open spec fn routing(
    probe: SizeProbe,
    probed: Option<(u16, u16)>,
    report: SizeReport,
    position_request_in_flight: bool,
) -> Routed {
    match report {
        SizeReport::CursorPosition(column, row) => if !probe.spec_awaits_reply(
            position_request_in_flight,
        ) {
            Routed::CursorPosition(column, row)
        } else {
            let (columns, rows) = reply_size(column, row);
            if is_news(probed, columns, rows) {
                Routed::Resize(columns, rows)
            } else {
                Routed::Absorbed
            }
        },
        _ => match recorded_size(probe, report, position_request_in_flight) {
            Some((columns, rows)) => if is_news(probed, columns, rows) {
                Routed::Resize(columns, rows)
            } else {
                Routed::Absorbed
            },
            None => Routed::Absorbed,
        },
    }
}

/// A size report becomes a resize event only when it is news: the size it
/// records differs from the last one recorded. The same mode 2048 report or
/// text-area answer a second time is absorbed.
pub proof fn lemma_resize_only_on_news(
    probe: SizeProbe,
    probed: Option<(u16, u16)>,
    report: SizeReport,
    position_request_in_flight: bool,
)
    ensures
        routing(probe, probed, report, position_request_in_flight) is Resize ==> recorded_size(
            probe,
            report,
            position_request_in_flight,
        ) == Some(
            (
                routing(probe, probed, report, position_request_in_flight)->Resize_0,
                routing(probe, probed, report, position_request_in_flight)->Resize_1,
            ),
        ) && is_news(
            probed,
            routing(probe, probed, report, position_request_in_flight)->Resize_0,
            routing(probe, probed, report, position_request_in_flight)->Resize_1,
        ),
        !(report is CursorPosition) ==> routing(
            probe.after(probe_event_of(report, position_request_in_flight)),
            match recorded_size(probe, report, position_request_in_flight) {
                Some(size) => Some(size),
                None => probed,
            },
            report,
            position_request_in_flight,
        ) == Routed::Absorbed,
{
}

/// While the application has a position request of its own in flight, a
/// cursor position report is always passed on, and neither the probe nor the
/// recorded size changes.
pub proof fn lemma_application_reports_pass_through(
    probe: SizeProbe,
    probed: Option<(u16, u16)>,
    column: u16,
    row: u16,
)
    ensures
        routing(probe, probed, SizeReport::CursorPosition(column, row), true)
            == Routed::CursorPosition(column, row),
        recorded_size(probe, SizeReport::CursorPosition(column, row), true) == None::<(u16, u16)>,
        probe.after(probe_event_of(SizeReport::CursorPosition(column, row), true)) == probe,
{
}

/// The escape time is up exactly when [`ESCAPE_TIME`] has passed since the
/// parser first held the sequence; with nothing held it is never up.
pub proof fn lemma_escape_time_is_measured_from_the_first_hold(holding_since: Option<u64>, now: u64)
    ensures
        match holding_since {
            Some(since) => (EventSourceState::escape_left(holding_since, now) == Some(0u64)) <==> now
                >= since + ESCAPE_TIME,
            None => EventSourceState::escape_left(holding_since, now) is None,
        },
{
}

/// A wait never outlasts any of its three deadlines, and is unlimited only
/// when none of them is set.
pub proof fn lemma_a_wait_never_outlasts_a_deadline(
    caller_left: Option<u64>,
    escape_left: Option<u64>,
    probe_next: Option<u64>,
)
    ensures
        caller_left is Some ==> nearer(caller_left, nearer(escape_left, probe_next)) is Some
            && nearer(caller_left, nearer(escape_left, probe_next)).unwrap()
            <= caller_left.unwrap(),
        escape_left is Some ==> nearer(caller_left, nearer(escape_left, probe_next)) is Some
            && nearer(caller_left, nearer(escape_left, probe_next)).unwrap()
            <= escape_left.unwrap(),
        probe_next is Some ==> nearer(caller_left, nearer(escape_left, probe_next)) is Some
            && nearer(caller_left, nearer(escape_left, probe_next)).unwrap() <= probe_next.unwrap(),
        nearer(caller_left, nearer(escape_left, probe_next)) is None <==> caller_left is None
            && escape_left is None && probe_next is None,
{
}

/// The state the event source keeps besides its file descriptors and parser.
#[derive(Debug)]
pub struct EventSourceState {
    /// Drops the LF of each CR LF pair before the parser sees it.
    pub coalescer: CrLfCoalescer,
    /// Polls for the terminal's size until mode 2048 takes over.
    pub probe: SizeProbe,
    /// When the parser first had a half-arrived sequence in hand, so that
    /// [`ESCAPE_TIME`] is measured against a clock rather than against however
    /// many times a wait happened to return.
    pub holding_since: Option<u64>,
}

/// Why a burst could not be taken.
#[derive(Debug, Clone, Copy, PartialEq, Eq, Structural)]
pub enum BurstError {
    /// A read of nothing: the terminal on the other end of stdin is gone.
    Hangup,
}

impl EventSourceState {
    /// The state of a new source; `is_terminal` says whether stdout is a
    /// terminal, which is only worth asking for its size when it is one.
    pub fn new(is_terminal: bool) -> (state: Self)
        ensures
            !state.coalescer.pending_cr(),
            state.probe == SizeProbe::new_spec(is_terminal),
            state.holding_since == None::<u64>,
    {
        EventSourceState {
            coalescer: CrLfCoalescer::default(),
            probe: SizeProbe::new(is_terminal),
            holding_since: None,
        }
    }

    /// How much longer the half-arrived sequence in the parser may be held,
    /// or `None` if the parser is not holding one.
    pub open spec fn spec_escape_time_left(&self, now: u64) -> Option<u64> {
        Self::escape_left(self.holding_since, now)
    }

    /// How much longer a sequence held since `holding_since` may be held.
    pub open spec fn escape_left(holding_since: Option<u64>, now: u64) -> Option<u64> {
        match holding_since {
            Some(since) => Some(clamp_u64(since + ESCAPE_TIME - now)),
            None => None,
        }
    }

    /// How much longer the half-arrived sequence in the parser may be held,
    /// or `None` if the parser is not holding one.
    pub fn escape_time_left(&self, now: u64) -> (left: Option<u64>)
        ensures
            left == self.spec_escape_time_left(now),
    {
        match self.holding_since {
            Some(since) => Some(until(since, ESCAPE_TIME, now)),
            None => None,
        }
    }

    /// Whether the held sequence has waited long enough: nothing followed
    /// within [`ESCAPE_TIME`], so that `ESC` was the Escape key, or that
    /// sequence is never going to finish. The caller then flushes the parser
    /// and calls [`EventSourceState::escape_flushed`].
    pub fn escape_time_is_up(&self, now: u64) -> (up: bool)
        ensures
            up == (self.spec_escape_time_left(now) == Some(0u64)),
    {
        match self.escape_time_left(now) {
            Some(left) => left == 0,
            None => false,
        }
    }

    /// Records that the parser was flushed: it holds nothing now.
    pub fn escape_flushed(&mut self)
        ensures
            final(self).holding_since == None::<u64>,
            final(self).coalescer == old(self).coalescer,
            final(self).probe == old(self).probe,
    {
        self.holding_since = None;
    }

    /// Takes one burst read from the terminal: drops the LF of each CR LF pair
    /// in place and returns the length of what is left for the parser. An
    /// empty burst is a read of nothing, which means the far end is gone.
    pub fn accept_burst(&mut self, burst: &mut [u8]) -> (kept: Result<usize, BurstError>)
        ensures
            old(burst)@.len() == 0 ==> kept == Err::<usize, BurstError>(BurstError::Hangup)
                && final(burst)@ == old(burst)@ && final(self).coalescer == old(self).coalescer,
            old(burst)@.len() > 0 ==> kept is Ok && final(burst)@.len() == old(burst)@.len()
                && final(burst)@.subrange(0, kept.unwrap() as int) == coalesce(
                old(self).coalescer.pending_cr(),
                old(burst)@,
            ).0 && final(self).coalescer.pending_cr() == coalesce(
                old(self).coalescer.pending_cr(),
                old(burst)@,
            ).1,
            final(self).probe == old(self).probe,
            final(self).holding_since == old(self).holding_since,
    {
        if burst.len() == 0 {
            return Err(BurstError::Hangup);
        }
        let kept = self.coalescer.retain(burst);
        Ok(kept)
    }

    /// Records whether the parser is left in the middle of a sequence after a
    /// burst (taken at time `now`): the escape timer starts when a sequence is
    /// first held and keeps running while it stays held, and stops once the
    /// parser holds nothing.
    pub fn parsed(&mut self, mid_sequence: bool, now: u64)
        ensures
            final(self).holding_since == if !mid_sequence {
                None
            } else if old(self).holding_since is Some {
                old(self).holding_since
            } else {
                Some(now)
            },
            final(self).coalescer == old(self).coalescer,
            final(self).probe == old(self).probe,
    {
        if !mid_sequence {
            self.holding_since = None;
        } else if self.holding_since.is_none() {
            self.holding_since = Some(now);
        }
    }

    /// How long the next wait may last: until the caller's deadline, the end
    /// of the escape time, or the next probe, whichever comes first (`None`
    /// for no limit).
    ///
    /// A wait can end on any of three deadlines; only the caller's ends the
    /// call. The probe's is what makes a terminal that changed shape while
    /// nothing was being typed noticeable at all.
    pub fn wait_deadline(&self, caller_left: Option<u64>, now: u64) -> (deadline: Option<u64>)
        ensures
            deadline == nearer(
                caller_left,
                nearer(self.spec_escape_time_left(now), self.probe.spec_next_probe_in(now)),
            ),
    {
        shorter(caller_left, shorter(self.escape_time_left(now), self.probe.next_probe_in(now)))
    }

    /// Routes a size report: a mode 2048 status or report, or a text-area
    /// answer, updates the probe and is reported as a resize when its size is
    /// news; a cursor position report may be the answer to the probe rather
    /// than to anything the application asked for. There is one stdin, so
    /// somebody has to arbitrate: the probe claims it if it may
    /// ([`SizeProbe::reply`]), and otherwise it is passed on.
    pub fn route(
        &mut self,
        report: SizeReport,
        position_request_in_flight: bool,
        probed: &mut ProbedSize,
    ) -> (routed: Routed)
        ensures
            final(self).probe == old(self).probe.after(
                probe_event_of(report, position_request_in_flight),
            ),
            final(self).coalescer == old(self).coalescer,
            final(self).holding_since == old(self).holding_since,
            final(probed)@ == match recorded_size(
                old(self).probe,
                report,
                position_request_in_flight,
            ) {
                Some(size) => Some(size),
                None => old(probed)@,
            },
            routed == routing(old(self).probe, old(probed)@, report, position_request_in_flight),
    {
        match report {
            SizeReport::ResizeModeStatus(status) => {
                self.probe.resize_mode_status(status);
                Routed::Absorbed
            },
            SizeReport::ResizeModeReport(columns, rows) => {
                if self.probe.resize_mode_report(columns, rows, probed) {
                    Routed::Resize(columns, rows)
                } else {
                    Routed::Absorbed
                }
            },
            SizeReport::TextAreaSize(columns, rows) => {
                if self.probe.text_area_reply(columns, rows, probed) {
                    Routed::Resize(columns, rows)
                } else {
                    Routed::Absorbed
                }
            },
            SizeReport::CursorPosition(column, row) => {
                match self.probe.reply(column, row, position_request_in_flight, probed) {
                    Reply::NotMine => Routed::CursorPosition(column, row),
                    Reply::SameSize => Routed::Absorbed,
                    Reply::Resized(columns, rows) => Routed::Resize(columns, rows),
                }
            },
        }
    }
}

/// An event the parser produced.
#[derive(Debug, Clone, Copy, PartialEq, Eq, Structural)]
pub enum ParsedEvent {
    /// A report about the terminal's size.
    Size(SizeReport),
    /// Anything else: returned to the caller as it is.
    Other,
}

/// How a read of the event source ends.
#[derive(Debug, Clone, Copy, PartialEq, Eq, Structural)]
pub enum SourceOutcome {
    /// The terminal has a new size (columns, rows).
    Resize(u16, u16),
    /// A cursor position report (column, row) that is the application's.
    CursorPosition(u16, u16),
    /// The parser's own event.
    Parsed,
    /// The caller's timeout ran out with no event.
    NoEvent,
    /// A Ctrl+C arrived: report it as a key press.
    CtrlC,
    /// Somebody else woke the source: the wait is interrupted.
    Interrupted,
    /// The terminal on the other end of stdin is gone.
    Hangup,
    /// Waiting or reading failed.
    Failed,
}

/// What the caller of a read is to do next.
#[derive(Debug, Clone, Copy, PartialEq, Eq)]
pub enum SourceAction {
    /// Take the parser's next event, if it has one, and hand it back with the
    /// clock and whether a position request is in flight.
    NextParsed,
    /// Write this question to the terminal; hand back whether it went out,
    /// with the clock.
    Ask(Question),
    /// Flush the parser: the sequence it holds is as finished as it will ever
    /// be.
    FlushParser,
    /// Wait for readiness, at most this long (`None`: indefinitely).
    Wait(Option<u64>),
    /// Take one pending Ctrl+C, and hand back whether there was one.
    TakeCtrlC,
    /// Read one burst of input and hand it to [`EventSourceState::burst_read`].
    ReadBurst,
    /// Hand this many bytes from the front of the burst to the parser, as
    /// input with more to come; hand back whether it is left in the middle of
    /// a sequence, with the clock.
    Parse(usize),
    /// The read is over.
    Return(SourceOutcome),
}

/// What came of the last action of a read.
#[derive(Debug, Clone, Copy, PartialEq, Eq)]
pub enum SourceEvent {
    /// The parser's next event, or `None` if it has none.
    Parsed { event: Option<ParsedEvent>, now: u64, position_request_in_flight: bool },
    /// Whether the question went out.
    Asked { sent: bool, now: u64 },
    /// The parser was flushed.
    Flushed,
    /// The wait ended with nothing ready.
    WaitTimedOut { now: u64 },
    /// The wait ended with a registry entry ready.
    Ready { token: u64, events: u64 },
    /// The wait failed.
    WaitFailed,
    /// Whether a pending Ctrl+C was taken.
    CtrlCTaken(bool),
    /// Reading the burst failed.
    ReadFailed,
    /// The parser took the burst.
    Fed { mid_sequence: bool, now: u64 },
}

/// Where a read stands.
#[derive(Debug, Clone, Copy, PartialEq, Eq)]
pub enum SourcePhase {
    /// Asking the parser for its next event.
    NextEvent,
    /// Waiting for a size question to be written.
    Asking { question: Question },
    /// Waiting for the parser to be flushed.
    Flushing,
    /// Waiting for readiness.
    Waiting { deadline: Option<u64> },
    /// Waiting to hear whether a Ctrl+C is pending.
    TakingCtrlC,
    /// Waiting for a burst of input.
    Reading,
    /// Waiting for the parser to take `kept` bytes.
    Feeding { kept: usize },
    /// Over, with this outcome.
    Over { outcome: SourceOutcome },
}

/// One read of the event source in progress: the caller's timeout and where
/// the read stands.
#[derive(Debug, Clone, Copy)]
pub struct TryRead {
    /// The caller's timeout, started when the read began.
    pub timeout: PollTimeout,
    /// Where the read stands.
    pub phase: SourcePhase,
}

/// The action a phase waits on.
pub open spec fn source_action(phase: SourcePhase) -> SourceAction {
    match phase {
        SourcePhase::NextEvent => SourceAction::NextParsed,
        SourcePhase::Asking { question } => SourceAction::Ask(question),
        SourcePhase::Flushing => SourceAction::FlushParser,
        SourcePhase::Waiting { deadline } => SourceAction::Wait(deadline),
        SourcePhase::TakingCtrlC => SourceAction::TakeCtrlC,
        SourcePhase::Reading => SourceAction::ReadBurst,
        SourcePhase::Feeding { kept } => SourceAction::Parse(kept),
        SourcePhase::Over { outcome } => SourceAction::Return(outcome),
    }
}

/// Once nothing else is to be done at `now`: flush a held sequence whose
/// escape time is up, or else wait until the nearest deadline.
pub open spec fn escape_or_wait(
    probe: SizeProbe,
    holding_since: Option<u64>,
    timeout: PollTimeout,
    now: u64,
) -> SourcePhase {
    if EventSourceState::escape_left(holding_since, now) == Some(0u64) {
        SourcePhase::Flushing
    } else {
        SourcePhase::Waiting {
            deadline: nearer(
                timeout.spec_leftover(now),
                nearer(EventSourceState::escape_left(holding_since, now), probe.spec_next_probe_in(now)),
            ),
        }
    }
}

/// The probe, the escape timer, the phase and the recorded size after
/// `event`, for a read in `read` of a source with `probe` and `holding_since`,
/// with `probed` the size recorded so far. An event that does not answer the
/// phase's action changes nothing.
pub open spec fn source_step(
    probe: SizeProbe,
    holding_since: Option<u64>,
    read: TryRead,
    probed: Option<(u16, u16)>,
    event: SourceEvent,
) -> (SizeProbe, Option<u64>, SourcePhase, Option<(u16, u16)>) {
    match (read.phase, event) {
        (
            SourcePhase::NextEvent,
            SourceEvent::Parsed { event: Some(ParsedEvent::Size(report)), now: _, position_request_in_flight },
        ) => {
            let routed = routing(probe, probed, report, position_request_in_flight);
            (
                probe.after(probe_event_of(report, position_request_in_flight)),
                holding_since,
                match routed {
                    Routed::Absorbed => SourcePhase::NextEvent,
                    Routed::Resize(columns, rows) => SourcePhase::Over {
                        outcome: SourceOutcome::Resize(columns, rows),
                    },
                    Routed::CursorPosition(column, row) => SourcePhase::Over {
                        outcome: SourceOutcome::CursorPosition(column, row),
                    },
                },
                match recorded_size(probe, report, position_request_in_flight) {
                    Some(size) => Some(size),
                    None => probed,
                },
            )
        },
        (SourcePhase::NextEvent, SourceEvent::Parsed { event: Some(ParsedEvent::Other), .. }) => (
            probe,
            holding_since,
            SourcePhase::Over { outcome: SourceOutcome::Parsed },
            probed,
        ),
        (SourcePhase::NextEvent, SourceEvent::Parsed { event: None, now, position_request_in_flight }) => {
            let turned = probe.after(ProbeEvent::Turn { now, position_request_in_flight });
            match probe.spec_question(now, position_request_in_flight) {
                Some(question) => (turned, holding_since, SourcePhase::Asking { question }, probed),
                None => (
                    turned,
                    holding_since,
                    escape_or_wait(turned, holding_since, read.timeout, now),
                    probed,
                ),
            }
        },
        (SourcePhase::Asking { .. }, SourceEvent::Asked { sent, now }) => {
            let asked = if sent {
                probe
            } else {
                probe.after(ProbeEvent::QuestionNotSent)
            };
            (asked, holding_since, escape_or_wait(asked, holding_since, read.timeout, now), probed)
        },
        (SourcePhase::Flushing, SourceEvent::Flushed) => (
            probe,
            None,
            SourcePhase::NextEvent,
            probed,
        ),
        (SourcePhase::Waiting { .. }, SourceEvent::WaitTimedOut { now }) => (
            probe,
            holding_since,
            if read.timeout.spec_elapsed(now) {
                SourcePhase::Over { outcome: SourceOutcome::NoEvent }
            } else {
                SourcePhase::NextEvent
            },
            probed,
        ),
        (SourcePhase::Waiting { .. }, SourceEvent::Ready { token, events }) => (
            probe,
            holding_since,
            match readiness_of(token, events) {
                Readiness::Woken => SourcePhase::TakingCtrlC,
                Readiness::Spurious => SourcePhase::NextEvent,
                Readiness::Input => SourcePhase::Reading,
            },
            probed,
        ),
        (SourcePhase::Waiting { .. }, SourceEvent::WaitFailed) => (
            probe,
            holding_since,
            SourcePhase::Over { outcome: SourceOutcome::Failed },
            probed,
        ),
        (SourcePhase::TakingCtrlC, SourceEvent::CtrlCTaken(taken)) => (
            probe,
            holding_since,
            SourcePhase::Over {
                outcome: if taken {
                    SourceOutcome::CtrlC
                } else {
                    SourceOutcome::Interrupted
                },
            },
            probed,
        ),
        (SourcePhase::Reading, SourceEvent::ReadFailed) => (
            probe,
            holding_since,
            SourcePhase::Over { outcome: SourceOutcome::Failed },
            probed,
        ),
        (SourcePhase::Feeding { .. }, SourceEvent::Fed { mid_sequence, now }) => (
            probe,
            if !mid_sequence {
                None
            } else if holding_since is Some {
                holding_since
            } else {
                Some(now)
            },
            SourcePhase::NextEvent,
            probed,
        ),
        _ => (probe, holding_since, read.phase, probed),
    }
}

/// A read ends with no event only when the caller's timeout has run out: the
/// wait ended with nothing ready after the timeout had elapsed. Other waits
/// that end early, on the escape time or the next probe, go round again. And
/// a read that is over stays over.
pub proof fn lemma_no_event_only_after_the_timeout(
    probe: SizeProbe,
    holding_since: Option<u64>,
    read: TryRead,
    probed: Option<(u16, u16)>,
    event: SourceEvent,
)
    ensures
        source_step(probe, holding_since, read, probed, event).2 == (SourcePhase::Over {
            outcome: SourceOutcome::NoEvent,
        }) && !(read.phase is Over) ==> read.phase is Waiting && event is WaitTimedOut
            && read.timeout.spec_elapsed(event->WaitTimedOut_now),
        read.phase is Over ==> source_step(probe, holding_since, read, probed, event) == (
            probe,
            holding_since,
            read.phase,
            probed,
        ),
{
}

/// A read waits only once the parser has nothing more to give: a wait begins
/// only right after the parser reported no event (and any size question that
/// turn called for was written). No wait is ever longer than the caller's
/// timeout.
pub proof fn lemma_waits_only_when_the_parser_is_empty(
    probe: SizeProbe,
    holding_since: Option<u64>,
    read: TryRead,
    probed: Option<(u16, u16)>,
    event: SourceEvent,
)
    ensures
        source_step(probe, holding_since, read, probed, event).2 is Waiting && !(
        read.phase is Waiting) ==> (read.phase is NextEvent && event is Parsed
            && event->Parsed_event is None) || (read.phase is Asking && event is Asked),
        source_step(probe, holding_since, read, probed, event).2 is Waiting && !(
        read.phase is Waiting) && read.timeout.timeout is Some ==> source_step(
            probe,
            holding_since,
            read,
            probed,
            event,
        ).2->deadline is Some && source_step(
            probe,
            holding_since,
            read,
            probed,
            event,
        ).2->deadline.unwrap() <= read.timeout.timeout.unwrap(),
{
}

/// A cursor position report that the probe may not claim (none of its
/// questions is outstanding, or the application has a position request of its
/// own in flight) ends the read and goes to the application with the very
/// column and row the terminal reported; and whatever routing passes on, a
/// resize or a cursor report, is what the read returns, with the same numbers.
pub proof fn lemma_reports_reach_the_application_unchanged(
    probe: SizeProbe,
    holding_since: Option<u64>,
    read: TryRead,
    probed: Option<(u16, u16)>,
    report: SizeReport,
    now: u64,
    position_request_in_flight: bool,
    column: u16,
    row: u16,
)
    requires
        read.phase == SourcePhase::NextEvent,
    ensures
        report == SizeReport::CursorPosition(column, row) && !(probe.awaiting_reply
            && !position_request_in_flight) ==> source_step(
            probe,
            holding_since,
            read,
            probed,
            SourceEvent::Parsed {
                event: Some(ParsedEvent::Size(report)),
                now,
                position_request_in_flight,
            },
        ).2 == (SourcePhase::Over { outcome: SourceOutcome::CursorPosition(column, row) }),
        routing(probe, probed, report, position_request_in_flight) == Routed::CursorPosition(
            column,
            row,
        ) ==> source_step(
            probe,
            holding_since,
            read,
            probed,
            SourceEvent::Parsed {
                event: Some(ParsedEvent::Size(report)),
                now,
                position_request_in_flight,
            },
        ).2 == (SourcePhase::Over { outcome: SourceOutcome::CursorPosition(column, row) }),
        routing(probe, probed, report, position_request_in_flight) == Routed::Resize(column, row)
            ==> source_step(
            probe,
            holding_since,
            read,
            probed,
            SourceEvent::Parsed {
                event: Some(ParsedEvent::Size(report)),
                now,
                position_request_in_flight,
            },
        ).2 == (SourcePhase::Over { outcome: SourceOutcome::Resize(column, row) }),
        routing(probe, probed, report, position_request_in_flight) == Routed::Absorbed
            ==> source_step(
            probe,
            holding_since,
            read,
            probed,
            SourceEvent::Parsed {
                event: Some(ParsedEvent::Size(report)),
                now,
                position_request_in_flight,
            },
        ).2 == SourcePhase::NextEvent,
{
}

/// Every size report that records a size different from the last one
/// recorded is reported as a resize to exactly that size: a mode 2048 report
/// or a text-area answer of `columns` by `rows` whenever the record is not
/// already that size (the first answer included), and a claimed cursor reply
/// whenever the size it stands for is new. A resize is reported only for a
/// size that is new and that the report records.
pub proof fn lemma_news_is_always_reported(
    probe: SizeProbe,
    probed: Option<(u16, u16)>,
    report: SizeReport,
    position_request_in_flight: bool,
    columns: u16,
    rows: u16,
)
    ensures
        report == SizeReport::TextAreaSize(columns, rows) && probed != Some((columns, rows))
            ==> routing(probe, probed, report, position_request_in_flight) == Routed::Resize(
            columns,
            rows,
        ),
        report == SizeReport::ResizeModeReport(columns, rows) && probed != Some((columns, rows))
            ==> routing(probe, probed, report, position_request_in_flight) == Routed::Resize(
            columns,
            rows,
        ),
        report == SizeReport::CursorPosition(columns, rows) && probe.awaiting_reply
            && !position_request_in_flight && probed != Some(
            (columns.saturating_add(1), rows.saturating_add(1)),
        ) ==> routing(probe, probed, report, position_request_in_flight) == Routed::Resize(
            columns.saturating_add(1),
            rows.saturating_add(1),
        ),
        recorded_size(probe, report, position_request_in_flight) == Some((columns, rows))
            && probed != Some((columns, rows)) ==> routing(
            probe,
            probed,
            report,
            position_request_in_flight,
        ) == Routed::Resize(columns, rows),
        routing(probe, probed, report, position_request_in_flight) == Routed::Resize(
            columns,
            rows,
        ) ==> probed != Some((columns, rows)) && recorded_size(
            probe,
            report,
            position_request_in_flight,
        ) == Some((columns, rows)),
        report is ResizeModeStatus ==> routing(probe, probed, report, position_request_in_flight)
            == Routed::Absorbed,
{
}

/// What routing does, in plain terms, for the reports the probe does not
/// claim and for the sizes it records: an unclaimed cursor report is passed
/// on with its column and row; a mode 2048 report or text-area answer records
/// its own size; a claimed cursor reply records the size one past the
/// reported cell (saturating); a mode status records nothing. A report whose
/// size is already the one recorded is absorbed.
pub proof fn lemma_what_routing_records(
    probe: SizeProbe,
    probed: Option<(u16, u16)>,
    report: SizeReport,
    position_request_in_flight: bool,
    columns: u16,
    rows: u16,
    status: u8,
)
    ensures
        report == SizeReport::CursorPosition(columns, rows) && !(probe.awaiting_reply
            && !position_request_in_flight) ==> routing(
            probe,
            probed,
            report,
            position_request_in_flight,
        ) == Routed::CursorPosition(columns, rows) && recorded_size(
            probe,
            report,
            position_request_in_flight,
        ) is None,
        report == SizeReport::CursorPosition(columns, rows) && probe.awaiting_reply
            && !position_request_in_flight ==> recorded_size(
            probe,
            report,
            position_request_in_flight,
        ) == Some((columns.saturating_add(1), rows.saturating_add(1))),
        report == SizeReport::TextAreaSize(columns, rows) ==> recorded_size(
            probe,
            report,
            position_request_in_flight,
        ) == Some((columns, rows)),
        report == SizeReport::ResizeModeReport(columns, rows) ==> recorded_size(
            probe,
            report,
            position_request_in_flight,
        ) == Some((columns, rows)),
        report == SizeReport::ResizeModeStatus(status) ==> recorded_size(
            probe,
            report,
            position_request_in_flight,
        ) is None,
        recorded_size(probe, report, position_request_in_flight) == Some((columns, rows)) && probed
            == Some((columns, rows)) ==> routing(probe, probed, report, position_request_in_flight)
            == Routed::Absorbed,
        report == SizeReport::TextAreaSize(columns, rows) ==> probe.after(
            probe_event_of(report, position_request_in_flight),
        ).text_area_supported,
        report == SizeReport::ResizeModeReport(columns, rows) ==> probe.after(
            probe_event_of(report, position_request_in_flight),
        ).resize_mode_supported,
        report == SizeReport::ResizeModeStatus(status) ==> probe.after(
            probe_event_of(report, position_request_in_flight),
        ) == probe.after(ProbeEvent::ResizeModeStatus { status }),
        report is CursorPosition ==> probe.after(
            probe_event_of(report, position_request_in_flight),
        ) == probe.after(ProbeEvent::CursorReport { position_request_in_flight }),
{
}

/// The rest of a read's steps in plain terms: a wait that ends with nothing
/// ready goes round again unless the caller's timeout has run out; a wake of
/// the waker's registry asks for a pending Ctrl+C, which ends the read as a
/// Ctrl+C if there was one and as an interruption if not; input that is
/// readable, closed or in error is read, and other readiness goes round
/// again; a failed wait or read ends the read as a failure; a flushed parser
/// holds nothing; and a parsed burst starts the escape timer at `now` when it
/// leaves a sequence held, keeps it running while it stays held, and stops it
/// otherwise. None of these touch the probe or the recorded size.
pub proof fn lemma_the_steps_of_a_read(
    probe: SizeProbe,
    holding_since: Option<u64>,
    read: TryRead,
    probed: Option<(u16, u16)>,
    now: u64,
    token: u64,
    events: u64,
    taken: bool,
    mid_sequence: bool,
)
    ensures
        read.phase is Waiting && !read.timeout.spec_elapsed(now) ==> source_step(
            probe,
            holding_since,
            read,
            probed,
            SourceEvent::WaitTimedOut { now },
        ) == (probe, holding_since, SourcePhase::NextEvent, probed),
        read.phase is Waiting && token == WAKE_TOKEN ==> source_step(
            probe,
            holding_since,
            read,
            probed,
            SourceEvent::Ready { token, events },
        ).2 == SourcePhase::TakingCtrlC,
        read.phase is Waiting && token != WAKE_TOKEN && (events & 1 != 0 || events & 4 != 0
            || events & 16 != 0) ==> source_step(
            probe,
            holding_since,
            read,
            probed,
            SourceEvent::Ready { token, events },
        ).2 == SourcePhase::Reading,
        read.phase is Waiting && token != WAKE_TOKEN && events & 21 == 0 ==> source_step(
            probe,
            holding_since,
            read,
            probed,
            SourceEvent::Ready { token, events },
        ).2 == SourcePhase::NextEvent,
        read.phase is Waiting ==> source_step(
            probe,
            holding_since,
            read,
            probed,
            SourceEvent::WaitFailed,
        ).2 == (SourcePhase::Over { outcome: SourceOutcome::Failed }),
        read.phase is Reading ==> source_step(
            probe,
            holding_since,
            read,
            probed,
            SourceEvent::ReadFailed,
        ).2 == (SourcePhase::Over { outcome: SourceOutcome::Failed }),
        read.phase is TakingCtrlC ==> source_step(
            probe,
            holding_since,
            read,
            probed,
            SourceEvent::CtrlCTaken(taken),
        ).2 == (SourcePhase::Over {
            outcome: if taken {
                SourceOutcome::CtrlC
            } else {
                SourceOutcome::Interrupted
            },
        }),
        read.phase is Flushing ==> source_step(
            probe,
            holding_since,
            read,
            probed,
            SourceEvent::Flushed,
        ) == (probe, None::<u64>, SourcePhase::NextEvent, probed),
        read.phase is Feeding ==> source_step(
            probe,
            holding_since,
            read,
            probed,
            SourceEvent::Fed { mid_sequence, now },
        ) == (
            probe,
            if !mid_sequence {
                None
            } else if holding_since is None {
                Some(now)
            } else {
                holding_since
            },
            SourcePhase::NextEvent,
            probed,
        ),
{
    assert(events & 21u64 == 0u64 <==> (events & 1u64 == 0u64 && events & 4u64 == 0u64 && events
        & 16u64 == 0u64)) by (bit_vector);
    assert(1u64 | 4u64 | 16u64 == 21u64) by (bit_vector);
}

/// The wait a read enters is the nearest of its three deadlines: it never
/// outlasts what is left of the caller's timeout, the escape time of a held
/// sequence, or the time until the probe (as it stands after this turn) is
/// next due; it is one of them; and it is unlimited only when none of them is
/// set.
pub proof fn lemma_a_wait_ends_at_the_nearest_deadline(
    probe: SizeProbe,
    holding_since: Option<u64>,
    read: TryRead,
    probed: Option<(u16, u16)>,
    event: SourceEvent,
    now: u64,
)
    requires
        event == (SourceEvent::Parsed { event: None, now, position_request_in_flight: false })
            || event == (SourceEvent::Parsed {
            event: None,
            now,
            position_request_in_flight: true,
        }) || event == (SourceEvent::Asked { sent: true, now }) || event == (
        SourceEvent::Asked { sent: false, now }),
        source_step(probe, holding_since, read, probed, event).2 is Waiting,
        !(read.phase is Waiting),
    ensures
        ({
            let (next_probe, next_holding, phase, _) = source_step(
                probe,
                holding_since,
                read,
                probed,
                event,
            );
            let deadline = phase->deadline;
            &&& next_holding == holding_since
            &&& next_probe.spec_next_probe_in(now) matches Some(p) ==> deadline is Some
                && deadline.unwrap() <= p
            &&& holding_since matches Some(since) ==> deadline is Some && deadline.unwrap() <= (
            if now >= since + ESCAPE_TIME {
                0
            } else {
                since + ESCAPE_TIME - now
            })
            &&& read.timeout.timeout matches Some(t) ==> deadline is Some && deadline.unwrap() <= t
                && (now >= read.timeout.start + t ==> deadline.unwrap() == 0)
            &&& deadline is None <==> read.timeout.timeout is None && holding_since is None
                && next_probe.spec_next_probe_in(now) is None
            &&& deadline matches Some(d) ==> next_probe.spec_next_probe_in(now) == Some(d)
                || read.timeout.spec_leftover(now) == Some(d) || EventSourceState::escape_left(
                holding_since,
                now,
            ) == Some(d)
        }),
{
}

/// Starts a read with the caller's `timeout` (`None`: wait indefinitely) at
/// time `now`; the first thing to do is to ask the parser for an event.
pub fn begin_read(timeout: Option<u64>, now: u64) -> (started: (TryRead, SourceAction))
    ensures
        started.0.timeout == (PollTimeout { start: now, timeout }),
        started.0.phase == SourcePhase::NextEvent,
        started.1 == SourceAction::NextParsed,
{
    (TryRead { timeout: PollTimeout::new(timeout, now), phase: SourcePhase::NextEvent }, SourceAction::NextParsed)
}

/// The action a phase waits on.
pub fn action_of(phase: &SourcePhase) -> (action: SourceAction)
    ensures
        action == source_action(*phase),
{
    match phase {
        SourcePhase::NextEvent => SourceAction::NextParsed,
        SourcePhase::Asking { question } => SourceAction::Ask(*question),
        SourcePhase::Flushing => SourceAction::FlushParser,
        SourcePhase::Waiting { deadline } => SourceAction::Wait(*deadline),
        SourcePhase::TakingCtrlC => SourceAction::TakeCtrlC,
        SourcePhase::Reading => SourceAction::ReadBurst,
        SourcePhase::Feeding { kept } => SourceAction::Parse(*kept),
        SourcePhase::Over { outcome } => SourceAction::Return(*outcome),
    }
}

impl EventSourceState {
    fn escape_or_wait(&self, timeout: &PollTimeout, now: u64) -> (phase: SourcePhase)
        ensures
            phase == escape_or_wait(self.probe, self.holding_since, *timeout, now),
    {
        if self.escape_time_is_up(now) {
            SourcePhase::Flushing
        } else {
            SourcePhase::Waiting {
                deadline: self.wait_deadline(timeout.leftover(now), now),
            }
        }
    }

    /// Hands back what came of the last action of `read`; returns the next
    /// one. A burst that was read goes to [`EventSourceState::burst_read`]
    /// instead.
    pub fn step(&mut self, read: &mut TryRead, event: SourceEvent, probed: &mut ProbedSize) -> (
        action: SourceAction)
        ensures
            (final(self).probe, final(self).holding_since, final(read).phase, final(probed)@)
                == source_step(
                old(self).probe,
                old(self).holding_since,
                *old(read),
                old(probed)@,
                event,
            ),
            final(self).coalescer == old(self).coalescer,
            final(read).timeout == old(read).timeout,
            action == source_action(final(read).phase),
    {
        let next = match (read.phase, event) {
            (
                SourcePhase::NextEvent,
                SourceEvent::Parsed { event: Some(ParsedEvent::Size(report)), now: _, position_request_in_flight },
            ) => {
                match self.route(report, position_request_in_flight, probed) {
                    Routed::Absorbed => SourcePhase::NextEvent,
                    Routed::Resize(columns, rows) => SourcePhase::Over {
                        outcome: SourceOutcome::Resize(columns, rows),
                    },
                    Routed::CursorPosition(column, row) => SourcePhase::Over {
                        outcome: SourceOutcome::CursorPosition(column, row),
                    },
                }
            },
            (SourcePhase::NextEvent, SourceEvent::Parsed { event: Some(ParsedEvent::Other), .. }) => {
                SourcePhase::Over { outcome: SourceOutcome::Parsed }
            },
            (SourcePhase::NextEvent, SourceEvent::Parsed { event: None, now, position_request_in_flight }) => {
                match self.probe.probe(now, position_request_in_flight) {
                    Some(question) => SourcePhase::Asking { question },
                    None => self.escape_or_wait(&read.timeout, now),
                }
            },
            (SourcePhase::Asking { .. }, SourceEvent::Asked { sent, now }) => {
                if !sent {
                    // Nothing went out, so nothing is owed.
                    self.probe.question_not_sent();
                }
                self.escape_or_wait(&read.timeout, now)
            },
            (SourcePhase::Flushing, SourceEvent::Flushed) => {
                self.escape_flushed();
                SourcePhase::NextEvent
            },
            (SourcePhase::Waiting { .. }, SourceEvent::WaitTimedOut { now }) => {
                if read.timeout.elapsed(now) {
                    SourcePhase::Over { outcome: SourceOutcome::NoEvent }
                } else {
                    SourcePhase::NextEvent
                }
            },
            (SourcePhase::Waiting { .. }, SourceEvent::Ready { token, events }) => {
                match readiness(token, events) {
                    Readiness::Woken => SourcePhase::TakingCtrlC,
                    Readiness::Spurious => SourcePhase::NextEvent,
                    Readiness::Input => SourcePhase::Reading,
                }
            },
            (SourcePhase::Waiting { .. }, SourceEvent::WaitFailed) => {
                SourcePhase::Over { outcome: SourceOutcome::Failed }
            },
            (SourcePhase::TakingCtrlC, SourceEvent::CtrlCTaken(taken)) => SourcePhase::Over {
                outcome: if taken {
                    SourceOutcome::CtrlC
                } else {
                    SourceOutcome::Interrupted
                },
            },
            (SourcePhase::Reading, SourceEvent::ReadFailed) => {
                SourcePhase::Over { outcome: SourceOutcome::Failed }
            },
            (SourcePhase::Feeding { .. }, SourceEvent::Fed { mid_sequence, now }) => {
                self.parsed(mid_sequence, now);
                SourcePhase::NextEvent
            },
            (phase, _) => phase,
        };
        read.phase = next;
        action_of(&read.phase)
    }

    /// Takes the burst that a [`SourceAction::ReadBurst`] read: drops the LF
    /// of each CR LF pair in place and asks for the bytes that are left to be
    /// parsed; a read of nothing ends the read with a hangup. Outside that
    /// phase nothing changes.
    pub fn burst_read(&mut self, read: &mut TryRead, burst: &mut [u8]) -> (action: SourceAction)
        ensures
            !(old(read).phase is Reading) ==> final(read).phase == old(read).phase && final(burst)@
                == old(burst)@ && final(self).coalescer == old(self).coalescer,
            old(read).phase is Reading && old(burst)@.len() == 0 ==> final(read).phase == (
            SourcePhase::Over { outcome: SourceOutcome::Hangup }) && final(self).coalescer == old(
                self,
            ).coalescer,
            old(read).phase is Reading && old(burst)@.len() > 0 ==> final(read).phase is Feeding
                && final(burst)@.len() == old(burst)@.len() && final(burst)@.subrange(
                0,
                final(read).phase->kept as int,
            ) == coalesce(old(self).coalescer.pending_cr(), old(burst)@).0
                && final(self).coalescer.pending_cr() == coalesce(
                old(self).coalescer.pending_cr(),
                old(burst)@,
            ).1,
            final(self).probe == old(self).probe,
            final(self).holding_since == old(self).holding_since,
            final(read).timeout == old(read).timeout,
            action == source_action(final(read).phase),
    {
        if let SourcePhase::Reading = read.phase {
            read.phase = match self.accept_burst(burst) {
                Ok(kept) => SourcePhase::Feeding { kept },
                Err(BurstError::Hangup) => SourcePhase::Over { outcome: SourceOutcome::Hangup },
            };
        }
        action_of(&read.phase)
    }
}

} // verus!
