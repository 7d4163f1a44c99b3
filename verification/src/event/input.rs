//! What sits between a Motor OS console and the ANSI parser.
//!
//! One Enter keypress reaches a program as CR LF on Motor OS, from the serial
//! console and from a terminal multiplexer pane alike. Left alone the LF
//! becomes a key event of its own, so every Enter would be reported twice.
//! A lone CR passes through untouched.

use vstd::prelude::*;

verus! {

/// The carriage return byte.
pub const CR: u8 = 13;

/// The line feed byte.
pub const LF: u8 = 10;

/// What is left of `bytes` after every LF that immediately follows a CR is
/// dropped, with `after_cr` saying whether the byte before `bytes` was a CR;
/// and whether the last byte seen (of `bytes`, or before them when `bytes` is
/// empty) is a CR.
pub open spec fn coalesce(after_cr: bool, bytes: Seq<u8>) -> (Seq<u8>, bool)
    decreases bytes.len(),
{
    if bytes.len() == 0 {
        (Seq::empty(), after_cr)
    } else {
        let before = coalesce(after_cr, bytes.drop_last());
        let byte = bytes.last();
        (
            if byte == LF && before.1 {
                before.0
            } else {
                before.0.push(byte)
            },
            byte == CR,
        )
    }
}

/// Drops the LF of a CR LF pair.
///
/// The one bit of state carries across calls, so a CR LF split between two
/// reads, the normal case on a console that delivers a byte at a time, is
/// still one Enter.
#[derive(Debug)]
pub struct CrLfCoalescer {
    after_cr: bool,
}

impl Default for CrLfCoalescer {
    /// A coalescer that has seen nothing yet.
    fn default() -> (coalescer: Self)
        ensures
            !coalescer.pending_cr(),
    {
        CrLfCoalescer { after_cr: false }
    }
}

impl CrLfCoalescer {
    /// Whether the last byte this coalescer was handed is a CR.
    pub closed spec fn pending_cr(&self) -> bool {
        self.after_cr
    }

    /// Removes, in place, every LF that immediately follows a CR, and
    /// returns the length of what is left. The bytes from that length on are
    /// left as they were.
    pub fn retain(&mut self, buffer: &mut [u8]) -> (kept: usize)
        ensures
            kept <= old(buffer)@.len(),
            final(buffer)@.len() == old(buffer)@.len(),
            final(buffer)@.subrange(0, kept as int) == coalesce(
                old(self).pending_cr(),
                old(buffer)@,
            ).0,
            final(buffer)@.subrange(kept as int, old(buffer)@.len() as int) == old(
                buffer,
            )@.subrange(kept as int, old(buffer)@.len() as int),
            final(self).pending_cr() == coalesce(old(self).pending_cr(), old(buffer)@).1,
    {
        let ghost start = self.after_cr;
        let ghost incoming = buffer@;
        let n = buffer.len();
        let mut kept: usize = 0;
        let mut read: usize = 0;
        while read < n
            invariant
                n == incoming.len(),
                buffer@.len() == n,
                kept <= read <= n,
                buffer@.subrange(0, kept as int) == coalesce(
                    start,
                    incoming.subrange(0, read as int),
                ).0,
                self.after_cr == coalesce(start, incoming.subrange(0, read as int)).1,
                forall|i: int| kept <= i < n ==> buffer@[i] == incoming[i],
            decreases n - read,
        {
            let byte = buffer[read];
            let after_cr = self.after_cr;
            self.after_cr = byte == CR;
            proof {
                assert(incoming.subrange(0, read + 1).drop_last() == incoming.subrange(
                    0,
                    read as int,
                ));
            }
            if byte == LF && after_cr {
                read = read + 1;
            } else {
                let ghost before = buffer@;
                buffer[kept] = byte;
                proof {
                    assert(buffer@.subrange(0, kept + 1) == before.subrange(0, kept as int).push(
                        byte,
                    ));
                }
                kept = kept + 1;
                read = read + 1;
            }
        }
        proof {
            assert(incoming.subrange(0, n as int) == incoming);
            assert(buffer@.subrange(kept as int, n as int) == incoming.subrange(
                kept as int,
                n as int,
            ));
        }
        kept
    }
}

/// Handing a stream over in two bursts gives the same bytes, and leaves the
/// same state, as handing it over in one: a CR LF split between two reads is
/// still one Enter.
pub proof fn lemma_coalesce_split(after_cr: bool, first: Seq<u8>, second: Seq<u8>)
    ensures
        coalesce(after_cr, first + second).0 == coalesce(after_cr, first).0 + coalesce(
            coalesce(after_cr, first).1,
            second,
        ).0,
        coalesce(after_cr, first + second).1 == coalesce(coalesce(after_cr, first).1, second).1,
    decreases second.len(),
{
    if second.len() == 0 {
        assert(first + second == first);
        assert(coalesce(after_cr, first).0 + Seq::<u8>::empty() == coalesce(after_cr, first).0);
    } else {
        lemma_coalesce_split(after_cr, first, second.drop_last());
        assert((first + second).drop_last() == first + second.drop_last());
        let mid = coalesce(after_cr, first);
        let rest = coalesce(mid.1, second.drop_last());
        assert((mid.0 + rest.0).push(second.last()) == mid.0 + rest.0.push(second.last()));
    }
}

/// What `coalesce` says about the CR flag, in plain terms: the last byte seen
/// was a CR exactly when the burst ends in one (or, for an empty burst, when
/// the byte before it was).
pub proof fn lemma_pending_cr_is_the_last_byte(after_cr: bool, bytes: Seq<u8>)
    ensures
        coalesce(after_cr, bytes).1 == if bytes.len() == 0 {
            after_cr
        } else {
            bytes.last() == CR
        },
{
}

/// One byte more: an LF is dropped exactly when the byte before it (before
/// the burst, for the first one) is a CR; every other byte, CRs included, is
/// kept, in order, after what was kept before it.
pub proof fn lemma_lf_is_dropped_exactly_after_cr(after_cr: bool, bytes: Seq<u8>, byte: u8)
    ensures
        coalesce(after_cr, bytes.push(byte)).0 == if byte == LF && (if bytes.len() == 0 {
            after_cr
        } else {
            bytes.last() == CR
        }) {
            coalesce(after_cr, bytes).0
        } else {
            coalesce(after_cr, bytes).0.push(byte)
        },
{
    lemma_pending_cr_is_the_last_byte(after_cr, bytes);
    assert(bytes.push(byte).drop_last() == bytes);
}

/// Bytes in which no CR occurs pass through untouched, provided the first of
/// them does not complete a CR LF pair begun before them.
pub proof fn lemma_coalesce_without_cr(after_cr: bool, bytes: Seq<u8>)
    requires
        forall|i: int| 0 <= i < bytes.len() ==> bytes[i] != CR,
        after_cr && bytes.len() > 0 ==> bytes[0] != LF,
    ensures
        coalesce(after_cr, bytes).0 == bytes,
    decreases bytes.len(),
{
    if bytes.len() > 0 {
        lemma_coalesce_without_cr(after_cr, bytes.drop_last());
        assert(bytes.drop_last().push(bytes.last()) == bytes);
    }
}

/// Nothing is ever added: what is left is never longer than what came in,
/// and an empty burst leaves the pending CR as it was.
pub proof fn lemma_coalesce_never_grows(after_cr: bool, bytes: Seq<u8>)
    ensures
        coalesce(after_cr, bytes).0.len() <= bytes.len(),
        bytes.len() == 0 ==> coalesce(after_cr, bytes).1 == after_cr,
    decreases bytes.len(),
{
    if bytes.len() > 0 {
        lemma_coalesce_never_grows(after_cr, bytes.drop_last());
    }
}

} // verus!
