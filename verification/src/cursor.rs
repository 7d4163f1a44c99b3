//! The cursor position round trip.
//!
//! `position()` is an `ESC[6n` round trip through the event reader: the
//! request is written to the terminal and the answer comes back as a cursor
//! position report among the input events. The decisions of that round trip
//! are a state machine here; the caller performs each action it asks for and
//! hands back what came of it.

use vstd::prelude::*;
use crate::time::NANOS_PER_MILLI;

verus! {

/// How many position requests are waiting for a reply.
///
/// A terminal answers `ESC[6n` once per request and in order, so a backend that
/// sends requests of its own (to discover the terminal size, say) has to know
/// not to claim a reply that a position request is waiting for. Counting
/// wraps around at the ends of `usize`, as an atomic counter does.
#[derive(Debug)]
pub struct PositionRequests {
    in_flight: usize,
}

impl View for PositionRequests {
    type V = usize;

    closed spec fn view(&self) -> usize {
        self.in_flight
    }
}

/// The count after one more request.
pub open spec fn count_after_begin(count: usize) -> usize {
    if count == usize::MAX {
        0
    } else {
        (count + 1) as usize
    }
}

/// The count after one request ends.
pub open spec fn count_after_end(count: usize) -> usize {
    if count == 0 {
        usize::MAX
    } else {
        (count - 1) as usize
    }
}

impl PositionRequests {
    /// No request under way.
    pub fn new() -> (requests: Self)
        ensures
            requests@ == 0,
    {
        PositionRequests { in_flight: 0 }
    }

    /// Counts a request for as long as it is outstanding.
    pub fn begin(&mut self)
        ensures
            final(self)@ == count_after_begin(old(self)@),
    {
        self.in_flight = self.in_flight.wrapping_add(1);
    }

    /// Ends a request that [`PositionRequests::begin`] counted.
    pub fn end(&mut self)
        ensures
            final(self)@ == count_after_end(old(self)@),
    {
        self.in_flight = self.in_flight.wrapping_sub(1);
    }
}

/// Whether a position request is currently waiting for a cursor position
/// report.
pub fn position_request_in_flight(requests: &PositionRequests) -> (in_flight: bool)
    ensures
        in_flight == (requests@ > 0),
{
    requests.in_flight > 0
}

/// A request that begins and then ends leaves the count as it was; while it is
/// outstanding a position request is in flight (short of a count that has
/// already reached the end of `usize`).
pub proof fn lemma_request_counting_balances(count: usize)
    ensures
        count_after_end(count_after_begin(count)) == count,
        count < usize::MAX ==> count_after_begin(count) > 0,
{
}

/// How long the round trip waits for the reply before giving up.
pub const POSITION_TIMEOUT: u64 = 2000 * NANOS_PER_MILLI;

/// `CSI 6 n`: asks the terminal where the cursor is.
pub open spec fn position_query() -> Seq<u8> {
    seq![0x1bu8, 0x5b, 0x36, 0x6e]
}

/// The bytes that ask the terminal where the cursor is.
pub fn position_query_bytes() -> (bytes: Vec<u8>)
    ensures
        bytes@ == position_query(),
{
    let bytes: Vec<u8> = vec![0x1bu8, 0x5b, 0x36, 0x6e];
    assert(bytes@ == position_query());
    bytes
}

/// Why the round trip failed.
#[derive(Debug, Clone, Copy, PartialEq, Eq, Structural)]
pub enum PositionFailure {
    /// Raw mode could not be switched on for the round trip.
    EnableRawMode,
    /// Raw mode could not be switched back off afterwards.
    DisableRawMode,
    /// The request could not be written or flushed.
    Write,
    /// The cursor position could not be read within a normal duration.
    TimedOut,
}

/// What the caller is to do next.
#[derive(Debug, Clone, Copy, PartialEq, Eq)]
pub enum PositionAction {
    /// Ask for raw mode, and report whether that worked.
    EnableRawMode,
    /// Leave raw mode, and report whether that worked.
    DisableRawMode,
    /// Count a position request as in flight ([`PositionRequests::begin`]).
    BeginRequest,
    /// Stop counting it ([`PositionRequests::end`]).
    EndRequest,
    /// Poll for a cursor position report for at most `timeout` nanoseconds.
    Poll { timeout: u64 },
    /// Read the next cursor position event.
    Read,
    /// Write [`position_query`] to the terminal and flush it.
    SendRequest,
    /// The round trip is over, with this result (column, row).
    Finish(Result<(u16, u16), PositionFailure>),
}

/// What came of the last action.
#[derive(Debug, Clone, Copy, PartialEq, Eq, Structural)]
pub enum PositionEvent {
    /// The action succeeded.
    Done,
    /// Raw mode could not be changed, or the request not written.
    Failed,
    /// The poll found an event waiting.
    Ready,
    /// The poll timed out.
    NotReady,
    /// The poll failed.
    PollFailed,
    /// The read produced a cursor position report (column, row).
    Cursor(u16, u16),
    /// The read produced something else, or failed.
    Other,
}

/// Where the round trip stands; `bracketed` says whether it switched raw mode
/// on itself and so has to switch it off again.
#[derive(Debug, Clone, Copy, PartialEq, Eq)]
pub enum PositionPhase {
    /// Waiting to hear whether raw mode could be switched on.
    EnableRaw,
    /// Waiting for the request to be counted.
    Count { bracketed: bool },
    /// Draining replies to earlier requests: polling without waiting.
    Drain { bracketed: bool },
    /// Draining: reading a stale reply, which is discarded.
    Discard { bracketed: bool },
    /// Waiting for the request to go out.
    Send { bracketed: bool },
    /// Waiting for the reply.
    Wait { bracketed: bool },
    /// Reading what arrived.
    Read { bracketed: bool },
    /// Waiting for the request to stop being counted, with the outcome.
    Release { bracketed: bool, outcome: Result<(u16, u16), PositionFailure> },
    /// Waiting to hear whether raw mode could be switched off, with the
    /// outcome so far.
    DisableRaw { outcome: Result<(u16, u16), PositionFailure> },
    /// Over.
    Finished { outcome: Result<(u16, u16), PositionFailure> },
}

/// The action a phase waits on.
pub open spec fn phase_action(phase: PositionPhase) -> PositionAction {
    match phase {
        PositionPhase::EnableRaw => PositionAction::EnableRawMode,
        PositionPhase::Count { .. } => PositionAction::BeginRequest,
        PositionPhase::Drain { .. } => PositionAction::Poll { timeout: 0 },
        PositionPhase::Discard { .. } => PositionAction::Read,
        PositionPhase::Send { .. } => PositionAction::SendRequest,
        PositionPhase::Wait { .. } => PositionAction::Poll { timeout: POSITION_TIMEOUT },
        PositionPhase::Read { .. } => PositionAction::Read,
        PositionPhase::Release { .. } => PositionAction::EndRequest,
        PositionPhase::DisableRaw { .. } => PositionAction::DisableRawMode,
        PositionPhase::Finished { outcome } => PositionAction::Finish(outcome),
    }
}

/// The phase after `event`. An event that does not answer the phase's action
/// changes nothing, so the action is asked for again.
pub open spec fn phase_after(phase: PositionPhase, event: PositionEvent) -> PositionPhase {
    match (phase, event) {
        (PositionPhase::EnableRaw, PositionEvent::Done) => PositionPhase::Count { bracketed: true },
        (PositionPhase::EnableRaw, PositionEvent::Failed) => PositionPhase::Finished {
            outcome: Err(PositionFailure::EnableRawMode),
        },
        (PositionPhase::Count { bracketed }, PositionEvent::Done) => PositionPhase::Drain {
            bracketed,
        },
        (PositionPhase::Drain { bracketed }, PositionEvent::Ready) => PositionPhase::Discard {
            bracketed,
        },
        (PositionPhase::Drain { bracketed }, PositionEvent::NotReady) => PositionPhase::Send {
            bracketed,
        },
        (PositionPhase::Drain { bracketed }, PositionEvent::PollFailed) => PositionPhase::Send {
            bracketed,
        },
        (PositionPhase::Discard { bracketed }, PositionEvent::Cursor(_, _)) => PositionPhase::Drain {
            bracketed,
        },
        (PositionPhase::Discard { bracketed }, PositionEvent::Other) => PositionPhase::Drain {
            bracketed,
        },
        (PositionPhase::Send { bracketed }, PositionEvent::Done) => PositionPhase::Wait {
            bracketed,
        },
        (PositionPhase::Send { bracketed }, PositionEvent::Failed) => PositionPhase::Release {
            bracketed,
            outcome: Err(PositionFailure::Write),
        },
        (PositionPhase::Wait { bracketed }, PositionEvent::Ready) => PositionPhase::Read {
            bracketed,
        },
        (PositionPhase::Wait { bracketed }, PositionEvent::NotReady) => PositionPhase::Release {
            bracketed,
            outcome: Err(PositionFailure::TimedOut),
        },
        (PositionPhase::Wait { bracketed }, PositionEvent::PollFailed) => PositionPhase::Wait {
            bracketed,
        },
        (PositionPhase::Read { bracketed }, PositionEvent::Cursor(column, row)) => {
            PositionPhase::Release { bracketed, outcome: Ok((column, row)) }
        },
        (PositionPhase::Read { bracketed }, PositionEvent::Other) => PositionPhase::Wait {
            bracketed,
        },
        (PositionPhase::Release { bracketed, outcome }, PositionEvent::Done) => {
            if bracketed {
                PositionPhase::DisableRaw { outcome }
            } else {
                PositionPhase::Finished { outcome }
            }
        },
        (PositionPhase::DisableRaw { outcome }, PositionEvent::Done) => PositionPhase::Finished {
            outcome,
        },
        (PositionPhase::DisableRaw { outcome }, PositionEvent::Failed) => PositionPhase::Finished {
            outcome: Err(PositionFailure::DisableRawMode),
        },
        _ => phase,
    }
}

/// The phase a round trip starts in: with raw mode already on it goes straight
/// to the request; otherwise it switches raw mode on first.
pub open spec fn first_phase(raw_mode_enabled: bool) -> PositionPhase {
    if raw_mode_enabled {
        PositionPhase::Count { bracketed: false }
    } else {
        PositionPhase::EnableRaw
    }
}

/// The phase after each of `events` in turn.
pub open spec fn phase_after_all(phase: PositionPhase, events: Seq<PositionEvent>) -> PositionPhase
    decreases events.len(),
{
    if events.len() == 0 {
        phase
    } else {
        phase_after(phase_after_all(phase, events.drop_last()), events.last())
    }
}

/// The outcome a phase holds, if it holds one.
pub open spec fn outcome_of(phase: PositionPhase) -> Option<Result<(u16, u16), PositionFailure>> {
    match phase {
        PositionPhase::Release { outcome, .. } => Some(outcome),
        PositionPhase::DisableRaw { outcome } => Some(outcome),
        PositionPhase::Finished { outcome } => Some(outcome),
        _ => None,
    }
}

/// Whether the position request is being counted as in flight in this phase.
pub open spec fn request_counted(phase: PositionPhase) -> bool {
    match phase {
        PositionPhase::Drain { .. } | PositionPhase::Discard { .. } | PositionPhase::Send { .. }
        | PositionPhase::Wait { .. } | PositionPhase::Read { .. } | PositionPhase::Release {
            ..
        } => true,
        _ => false,
    }
}

/// Whether the round trip has switched raw mode on and not yet tried to switch
/// it back off in this phase.
pub open spec fn raw_mode_owed(phase: PositionPhase) -> bool {
    match phase {
        PositionPhase::Count { bracketed } => bracketed,
        PositionPhase::Drain { bracketed } => bracketed,
        PositionPhase::Discard { bracketed } => bracketed,
        PositionPhase::Send { bracketed } => bracketed,
        PositionPhase::Wait { bracketed } => bracketed,
        PositionPhase::Read { bracketed } => bracketed,
        PositionPhase::Release { bracketed, .. } => bracketed,
        PositionPhase::DisableRaw { .. } => true,
        _ => false,
    }
}

/// How many times `action` was performed over `events`, counting the events
/// in `answers` that acknowledge it.
pub open spec fn times_performed(
    phase: PositionPhase,
    events: Seq<PositionEvent>,
    action: PositionAction,
    answers: spec_fn(PositionEvent) -> bool,
) -> nat
    decreases events.len(),
{
    if events.len() == 0 {
        0
    } else {
        times_performed(phase, events.drop_last(), action, answers) + if phase_action(
            phase_after_all(phase, events.drop_last()),
        ) == action && answers(events.last()) {
            1nat
        } else {
            0nat
        }
    }
}

/// The events that acknowledge a completed action.
pub open spec fn is_done(event: PositionEvent) -> bool {
    event == PositionEvent::Done
}

/// The events that answer an attempt to switch raw mode.
pub open spec fn is_done_or_failed(event: PositionEvent) -> bool {
    event == PositionEvent::Done || event == PositionEvent::Failed
}

/// Over any run from any phase, the requests counted less the requests
/// released is how far the count stands raised; and raw mode switched on less
/// the attempts to switch it back off is how far raw mode is still owed.
pub proof fn lemma_counts_follow_the_phase(phase: PositionPhase, events: Seq<PositionEvent>)
    ensures
        times_performed(phase, events, PositionAction::BeginRequest, |e: PositionEvent| is_done(e))
            - times_performed(
            phase,
            events,
            PositionAction::EndRequest,
            |e: PositionEvent| is_done(e),
        ) == (if request_counted(phase_after_all(phase, events)) {
            1int
        } else {
            0int
        }) - (if request_counted(phase) {
            1int
        } else {
            0int
        }),
        times_performed(phase, events, PositionAction::EnableRawMode, |e: PositionEvent| is_done(e))
            - times_performed(
            phase,
            events,
            PositionAction::DisableRawMode,
            |e: PositionEvent| is_done_or_failed(e),
        ) == (if raw_mode_owed(phase_after_all(phase, events)) {
            1int
        } else {
            0int
        }) - (if raw_mode_owed(phase) {
            1int
        } else {
            0int
        }),
    decreases events.len(),
{
    if events.len() > 0 {
        lemma_counts_follow_the_phase(phase, events.drop_last());
    }
}

/// A round trip that is over has released every request it counted, and, if
/// it switched raw mode on, has tried to switch it back off exactly once; a
/// round trip that started outside raw mode never sends its request before
/// raw mode is on.
pub proof fn lemma_round_trip_cleans_up(raw_mode_enabled: bool, events: Seq<PositionEvent>)
    ensures
        phase_after_all(first_phase(raw_mode_enabled), events) is Finished ==> times_performed(
            first_phase(raw_mode_enabled),
            events,
            PositionAction::BeginRequest,
            |e: PositionEvent| is_done(e),
        ) == times_performed(
            first_phase(raw_mode_enabled),
            events,
            PositionAction::EndRequest,
            |e: PositionEvent| is_done(e),
        ),
        phase_after_all(first_phase(raw_mode_enabled), events) is Finished ==> times_performed(
            first_phase(raw_mode_enabled),
            events,
            PositionAction::EnableRawMode,
            |e: PositionEvent| is_done(e),
        ) == times_performed(
            first_phase(raw_mode_enabled),
            events,
            PositionAction::DisableRawMode,
            |e: PositionEvent| is_done_or_failed(e),
        ),
        raw_mode_enabled ==> times_performed(
            first_phase(raw_mode_enabled),
            events,
            PositionAction::EnableRawMode,
            |e: PositionEvent| is_done(e),
        ) == 0,
        !raw_mode_enabled && phase_after_all(first_phase(raw_mode_enabled), events) is Send
            ==> raw_mode_owed(phase_after_all(first_phase(raw_mode_enabled), events)),
    decreases events.len(),
{
    lemma_counts_follow_the_phase(first_phase(raw_mode_enabled), events);
    lemma_bracket_is_kept(raw_mode_enabled, events);
    if raw_mode_enabled {
        lemma_raw_mode_never_switched(events);
    }
}

/// Every phase of a round trip that started outside raw mode, from the
/// request on, remembers that raw mode is to be switched back off.
proof fn lemma_bracket_is_kept(raw_mode_enabled: bool, events: Seq<PositionEvent>)
    ensures
        !raw_mode_enabled ==> match phase_after_all(first_phase(raw_mode_enabled), events) {
            PositionPhase::Count { bracketed } => bracketed,
            PositionPhase::Drain { bracketed } => bracketed,
            PositionPhase::Discard { bracketed } => bracketed,
            PositionPhase::Send { bracketed } => bracketed,
            PositionPhase::Wait { bracketed } => bracketed,
            PositionPhase::Read { bracketed } => bracketed,
            PositionPhase::Release { bracketed, .. } => bracketed,
            _ => true,
        },
    decreases events.len(),
{
    if events.len() > 0 {
        lemma_bracket_is_kept(raw_mode_enabled, events.drop_last());
    }
}

/// A round trip that started in raw mode never asks for raw mode.
proof fn lemma_raw_mode_never_switched(events: Seq<PositionEvent>)
    ensures
        phase_after_all(first_phase(true), events) != PositionPhase::EnableRaw,
        !raw_mode_owed(phase_after_all(first_phase(true), events)),
        times_performed(
            first_phase(true),
            events,
            PositionAction::EnableRawMode,
            |e: PositionEvent| is_done(e),
        ) == 0,
    decreases events.len(),
{
    if events.len() > 0 {
        lemma_raw_mode_never_switched(events.drop_last());
    }
}

/// The round trip waits for, or reads, a reply only after its request went
/// out: some earlier event acknowledged the request being sent.
pub proof fn lemma_waiting_follows_the_request(raw_mode_enabled: bool, events: Seq<PositionEvent>)
    requires
        phase_after_all(first_phase(raw_mode_enabled), events) is Wait
            || phase_after_all(first_phase(raw_mode_enabled), events) is Read,
    ensures
        exists|i: int|
            0 <= i < events.len() && (#[trigger] phase_after_all(
                first_phase(raw_mode_enabled),
                events.take(i),
            )) is Send && events[i] == PositionEvent::Done,
    decreases events.len(),
{
    let first = first_phase(raw_mode_enabled);
    let last = (events.len() - 1) as int;
    let before = phase_after_all(first, events.drop_last());
    assert(events.take(last) == events.drop_last());
    if before is Send && events.last() == PositionEvent::Done {
        assert(phase_after_all(first, events.take(last)) is Send && events[last]
            == PositionEvent::Done);
    } else {
        lemma_waiting_follows_the_request(raw_mode_enabled, events.drop_last());
        let i = choose|i: int|
            0 <= i < events.drop_last().len() && (#[trigger] phase_after_all(
                first,
                events.drop_last().take(i),
            )) is Send && events.drop_last()[i] == PositionEvent::Done;
        assert(events.drop_last().take(i) == events.take(i));
        assert(phase_after_all(first, events.take(i)) is Send && events[i] == PositionEvent::Done);
    }
}

/// The position a round trip returns is the answer to its own request: a
/// cursor position report read while waiting for the reply, after the request
/// went out. Reports drained before the request are never returned.
pub proof fn lemma_position_answers_its_own_request(
    raw_mode_enabled: bool,
    events: Seq<PositionEvent>,
    column: u16,
    row: u16,
)
    requires
        outcome_of(phase_after_all(first_phase(raw_mode_enabled), events)) == Some(
            Ok::<(u16, u16), PositionFailure>((column, row)),
        ),
    ensures
        exists|i: int, j: int|
            0 <= i < j < events.len() && (#[trigger] phase_after_all(
                first_phase(raw_mode_enabled),
                events.take(i),
            )) is Send && events[i] == PositionEvent::Done && (#[trigger] phase_after_all(
                first_phase(raw_mode_enabled),
                events.take(j),
            )) is Read && events[j] == PositionEvent::Cursor(column, row),
    decreases events.len(),
{
    let first = first_phase(raw_mode_enabled);
    let last = (events.len() - 1) as int;
    let before = phase_after_all(first, events.drop_last());
    assert(events.take(last) == events.drop_last());
    if outcome_of(before) == Some(Ok::<(u16, u16), PositionFailure>((column, row))) {
        lemma_position_answers_its_own_request(raw_mode_enabled, events.drop_last(), column, row);
        let (i, j) = choose|i: int, j: int|
            0 <= i < j < events.drop_last().len() && (#[trigger] phase_after_all(
                first,
                events.drop_last().take(i),
            )) is Send && events.drop_last()[i] == PositionEvent::Done && (
            #[trigger] phase_after_all(first, events.drop_last().take(j))) is Read
                && events.drop_last()[j] == PositionEvent::Cursor(column, row);
        assert(events.drop_last().take(i) == events.take(i));
        assert(events.drop_last().take(j) == events.take(j));
        assert(phase_after_all(first, events.take(i)) is Send && events[i] == PositionEvent::Done
            && phase_after_all(first, events.take(j)) is Read && events[j]
            == PositionEvent::Cursor(column, row));
    } else {
        assert(before is Read && events.last() == PositionEvent::Cursor(column, row));
        lemma_waiting_follows_the_request(raw_mode_enabled, events.drop_last());
        let i = choose|i: int|
            0 <= i < events.drop_last().len() && (#[trigger] phase_after_all(
                first,
                events.drop_last().take(i),
            )) is Send && events.drop_last()[i] == PositionEvent::Done;
        assert(events.drop_last().take(i) == events.take(i));
        assert(phase_after_all(first, events.take(i)) is Send && events[i] == PositionEvent::Done
            && phase_after_all(first, events.take(last)) is Read && events[last]
            == PositionEvent::Cursor(column, row));
    }
}

/// One cursor position round trip in progress.
#[derive(Debug)]
pub struct PositionRoundTrip {
    phase: PositionPhase,
}

impl PositionRoundTrip {
    /// Where the round trip stands.
    pub closed spec fn phase(&self) -> PositionPhase {
        self.phase
    }

    /// Hands back what came of the last action; returns the next one.
    pub fn step(&mut self, event: PositionEvent) -> (action: PositionAction)
        ensures
            final(self).phase() == phase_after(old(self).phase(), event),
            action == phase_action(final(self).phase()),
    {
        let next = match (self.phase, event) {
            (PositionPhase::EnableRaw, PositionEvent::Done) => PositionPhase::Count {
                bracketed: true,
            },
            (PositionPhase::EnableRaw, PositionEvent::Failed) => PositionPhase::Finished {
                outcome: Err(PositionFailure::EnableRawMode),
            },
            (PositionPhase::Count { bracketed }, PositionEvent::Done) => PositionPhase::Drain {
                bracketed,
            },
            (PositionPhase::Drain { bracketed }, PositionEvent::Ready) => PositionPhase::Discard {
                bracketed,
            },
            (PositionPhase::Drain { bracketed }, PositionEvent::NotReady) => PositionPhase::Send {
                bracketed,
            },
            (PositionPhase::Drain { bracketed }, PositionEvent::PollFailed) => PositionPhase::Send {
                bracketed,
            },
            (PositionPhase::Discard { bracketed }, PositionEvent::Cursor(_, _)) => {
                PositionPhase::Drain { bracketed }
            },
            (PositionPhase::Discard { bracketed }, PositionEvent::Other) => PositionPhase::Drain {
                bracketed,
            },
            (PositionPhase::Send { bracketed }, PositionEvent::Done) => PositionPhase::Wait {
                bracketed,
            },
            (PositionPhase::Send { bracketed }, PositionEvent::Failed) => PositionPhase::Release {
                bracketed,
                outcome: Err(PositionFailure::Write),
            },
            (PositionPhase::Wait { bracketed }, PositionEvent::Ready) => PositionPhase::Read {
                bracketed,
            },
            (PositionPhase::Wait { bracketed }, PositionEvent::NotReady) => PositionPhase::Release {
                bracketed,
                outcome: Err(PositionFailure::TimedOut),
            },
            (PositionPhase::Wait { bracketed }, PositionEvent::PollFailed) => PositionPhase::Wait {
                bracketed,
            },
            (PositionPhase::Read { bracketed }, PositionEvent::Cursor(column, row)) => {
                PositionPhase::Release { bracketed, outcome: Ok((column, row)) }
            },
            (PositionPhase::Read { bracketed }, PositionEvent::Other) => PositionPhase::Wait {
                bracketed,
            },
            (PositionPhase::Release { bracketed, outcome }, PositionEvent::Done) => {
                if bracketed {
                    PositionPhase::DisableRaw { outcome }
                } else {
                    PositionPhase::Finished { outcome }
                }
            },
            (PositionPhase::DisableRaw { outcome }, PositionEvent::Done) => {
                PositionPhase::Finished { outcome }
            },
            (PositionPhase::DisableRaw { outcome: _ }, PositionEvent::Failed) => {
                PositionPhase::Finished { outcome: Err(PositionFailure::DisableRawMode) }
            },
            (phase, _) => phase,
        };
        self.phase = next;
        self.action()
    }

    /// The action the round trip is waiting on.
    pub fn action(&self) -> (action: PositionAction)
        ensures
            action == phase_action(self.phase()),
    {
        match self.phase {
            PositionPhase::EnableRaw => PositionAction::EnableRawMode,
            PositionPhase::Count { .. } => PositionAction::BeginRequest,
            PositionPhase::Drain { .. } => PositionAction::Poll { timeout: 0 },
            PositionPhase::Discard { .. } => PositionAction::Read,
            PositionPhase::Send { .. } => PositionAction::SendRequest,
            PositionPhase::Wait { .. } => PositionAction::Poll { timeout: POSITION_TIMEOUT },
            PositionPhase::Read { .. } => PositionAction::Read,
            PositionPhase::Release { .. } => PositionAction::EndRequest,
            PositionPhase::DisableRaw { .. } => PositionAction::DisableRawMode,
            PositionPhase::Finished { outcome } => PositionAction::Finish(outcome),
        }
    }
}

/// Starts a round trip that returns the cursor position (column, row); the
/// top left cell is (0, 0). `raw_mode_enabled` says whether the application
/// is in raw mode already; if it is not, raw mode is switched on for the round
/// trip and off again afterwards.
///
/// The round trip first discards any cursor position reports that earlier
/// requests left behind, so that the position it returns answers the request
/// it is about to send; then it sends the request and waits up to
/// [`POSITION_TIMEOUT`] at a time for the reply.
pub fn position(raw_mode_enabled: bool) -> (started: (PositionRoundTrip, PositionAction))
    ensures
        started.0.phase() == first_phase(raw_mode_enabled),
        started.1 == phase_action(first_phase(raw_mode_enabled)),
{
    let trip = PositionRoundTrip {
        phase: if raw_mode_enabled {
            PositionPhase::Count { bracketed: false }
        } else {
            PositionPhase::EnableRaw
        },
    };
    let action = trip.action();
    (trip, action)
}

} // verus!
