//! The timing decisions around the shared event reader.
//!
//! There can be one event reader, so it sits behind a lock. A poll with a
//! timeout waits for the lock no longer than the timeout, and then polls for
//! whatever is left of it.

use vstd::prelude::*;

verus! {

/// A timeout started at a point in time: `None` waits indefinitely.
#[derive(Debug, Clone, Copy, PartialEq, Eq, Structural)]
pub struct PollTimeout {
    /// When the timeout started.
    pub start: u64,
    /// How long it lasts, if it ends at all.
    pub timeout: Option<u64>,
}

/// The time that has passed from `start` to `now`; none if `now` comes
/// first, as the monotonic clock's `elapsed` saturates.
pub open spec fn elapsed_between(start: u64, now: u64) -> int {
    if now >= start {
        now - start
    } else {
        0
    }
}

impl PollTimeout {
    /// A timeout of `timeout` starting at `start`.
    pub fn new(timeout: Option<u64>, start: u64) -> (poll_timeout: Self)
        ensures
            poll_timeout == (PollTimeout { start, timeout }),
    {
        PollTimeout { start, timeout }
    }

    /// What is left of the timeout at `now`: nothing once it has run out.
    pub open spec fn spec_leftover(&self, now: u64) -> Option<u64> {
        match self.timeout {
            Some(timeout) => Some(
                if elapsed_between(self.start, now) >= timeout {
                    0
                } else {
                    (timeout - elapsed_between(self.start, now)) as u64
                },
            ),
            None => None,
        }
    }

    /// What is left of the timeout at `now`: nothing once it has run out.
    pub fn leftover(&self, now: u64) -> (left: Option<u64>)
        ensures
            left == self.spec_leftover(now),
    {
        match self.timeout {
            Some(timeout) => {
                let elapsed = now.saturating_sub(self.start);
                Some(
                    if elapsed >= timeout {
                        0
                    } else {
                        timeout - elapsed
                    },
                )
            },
            None => None,
        }
    }

    /// Whether the timeout has run out at `now`; one that waits
    /// indefinitely never does.
    pub open spec fn spec_elapsed(&self, now: u64) -> bool {
        match self.timeout {
            Some(timeout) => elapsed_between(self.start, now) >= timeout,
            None => false,
        }
    }

    /// Whether the timeout has run out at `now`; one that waits
    /// indefinitely never does.
    pub fn elapsed(&self, now: u64) -> (elapsed: bool)
        ensures
            elapsed == self.spec_elapsed(now),
    {
        match self.timeout {
            Some(timeout) => now.saturating_sub(self.start) >= timeout,
            None => false,
        }
    }
}

/// What a poll does once it has waited for the event reader's lock.
#[derive(Debug, Clone, Copy, PartialEq, Eq, Structural)]
pub enum PollAfterLock {
    /// The lock could not be had within the timeout: there is no event.
    GiveUp,
    /// Poll the reader for at most this long (`None`: indefinitely).
    Poll(Option<u64>),
}

/// Decides what a poll does after waiting for the lock. With a timeout, the
/// lock is waited for no longer than the timeout (started at `start`); if
/// it was not `acquired` the answer is that there is no event, and if it was,
/// the reader is polled for what is left of the timeout at `now`. Without a
/// timeout the lock is waited for as long as it takes.
pub fn poll_after_lock(timeout: Option<u64>, start: u64, acquired: bool, now: u64) -> (next:
    PollAfterLock)
    ensures
        timeout is None ==> next == PollAfterLock::Poll(None),
        timeout is Some && !acquired ==> next == PollAfterLock::GiveUp,
        timeout is Some && acquired ==> next == PollAfterLock::Poll(
            (PollTimeout { start, timeout }).spec_leftover(now),
        ),
{
    match timeout {
        None => PollAfterLock::Poll(None),
        Some(_) => {
            let poll_timeout = PollTimeout::new(timeout, start);
            if !acquired {
                PollAfterLock::GiveUp
            } else {
                PollAfterLock::Poll(poll_timeout.leftover(now))
            }
        },
    }
}

/// A timeout of `t` started at `start` has run out at `now` exactly when `t`
/// has passed since `start`; in particular a zero timeout ("look, don't
/// wait") has run out at once, whenever it is asked. One that waits
/// indefinitely never runs out, and once run out a timeout stays run out.
pub proof fn lemma_a_timeout_runs_out_when_its_time_has_passed(
    start: u64,
    timeout: Option<u64>,
    now: u64,
    later: u64,
)
    ensures
        timeout matches Some(t) ==> ((PollTimeout { start, timeout }).spec_elapsed(now) <==> (t
            == 0 || (now >= start && now - start >= t))),
        timeout == Some(0u64) ==> (PollTimeout { start, timeout }).spec_elapsed(now),
        timeout is None ==> !(PollTimeout { start, timeout }).spec_elapsed(now),
        now <= later && (PollTimeout { start, timeout }).spec_elapsed(now) ==> (PollTimeout {
            start,
            timeout,
        }).spec_elapsed(later),
{
}

/// A poll never waits longer in total than its timeout: what is left is
/// never more than the timeout, and it is all of it only when no time has
/// passed.
pub proof fn lemma_leftover_never_exceeds_the_timeout(poll_timeout: PollTimeout, now: u64)
    ensures
        poll_timeout.timeout is Some ==> poll_timeout.spec_leftover(now) is Some
            && poll_timeout.spec_leftover(now).unwrap() <= poll_timeout.timeout.unwrap(),
        poll_timeout.timeout is Some && now >= poll_timeout.start ==> poll_timeout.spec_leftover(
            now,
        ).unwrap() == if now - poll_timeout.start >= poll_timeout.timeout.unwrap() {
            0
        } else {
            poll_timeout.timeout.unwrap() - (now - poll_timeout.start)
        },
        poll_timeout.timeout is None ==> poll_timeout.spec_leftover(now) is None,
        poll_timeout.timeout is Some && now < poll_timeout.start ==> poll_timeout.spec_leftover(
            now,
        ) == poll_timeout.timeout,
{
}

} // verus!
