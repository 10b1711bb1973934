//! The per-account borrow counter: a single signed 8-bit cell implementing
//! the single-writer / multi-reader protocol. A zero count is free, a
//! positive count is that many readers, and a negative count is a writer.

use vstd::prelude::*;
use crate::errors::InstructionError;

verus! {

/// The signed cell mediating host-side access to one account: `0` is free,
/// a positive value counts outstanding readers (at most 127), and a negative
/// value marks an exclusive writer (only `-1` is ever produced, but every
/// negative value is treated as a writer).
#[derive(Debug)]
pub struct BorrowCounter {
    counter: i8,
}

impl Default for BorrowCounter {
    /// A fresh counter is free.
    fn default() -> (r: BorrowCounter)
        ensures
            r.spec_count() == 0,
    {
        BorrowCounter { counter: 0 }
    }
}

/// One step of the borrow protocol, as recorded in a trace.
#[derive(Clone, Copy, Debug, PartialEq, Eq, Structural)]
pub enum CounterEvent {
    /// A successful immutable borrow.
    Borrow,
    /// The release of an immutable borrow.
    Release,
    /// A successful exclusive borrow.
    BorrowMut,
    /// The release of an exclusive borrow.
    ReleaseMut,
}

/// Whether the protocol permits event `e` on a counter holding `c`: a borrow
/// needs no writer and fewer than 127 readers, an exclusive borrow needs a
/// free counter, and a release needs a matching outstanding lease.
pub open spec fn event_allowed(c: int, e: CounterEvent) -> bool {
    match e {
        CounterEvent::Borrow => 0 <= c < 127,
        CounterEvent::Release => c > 0,
        CounterEvent::BorrowMut => c == 0,
        CounterEvent::ReleaseMut => c < 0,
    }
}

/// The counter value after event `e` steps a counter holding `c`.
pub open spec fn event_step(c: int, e: CounterEvent) -> int {
    match e {
        CounterEvent::Borrow => c + 1,
        CounterEvent::Release => c - 1,
        CounterEvent::BorrowMut => c - 1,
        CounterEvent::ReleaseMut => c + 1,
    }
}

/// The counter value after a whole trace of events, starting from `c0`.
pub open spec fn trace_result(c0: int, tr: Seq<CounterEvent>) -> int
    decreases tr.len(),
{
    if tr.len() == 0 {
        c0
    } else {
        event_step(trace_result(c0, tr.drop_last()), tr.last())
    }
}

/// Whether every event of the trace was permitted at the point it happened.
pub open spec fn trace_valid(c0: int, tr: Seq<CounterEvent>) -> bool
    decreases tr.len(),
{
    tr.len() == 0 || (trace_valid(c0, tr.drop_last()) && event_allowed(
        trace_result(c0, tr.drop_last()),
        tr.last(),
    ))
}

/// How many times event `e` occurs in the trace.
pub open spec fn count_events(tr: Seq<CounterEvent>, e: CounterEvent) -> int
    decreases tr.len(),
{
    if tr.len() == 0 {
        0
    } else {
        count_events(tr.drop_last(), e) + if tr.last() == e {
            1int
        } else {
            0int
        }
    }
}

/// A trace's final counter is its starting value plus borrows minus releases
/// minus exclusive borrows plus exclusive releases.
pub proof fn lemma_trace_result_counts(c0: int, tr: Seq<CounterEvent>)
    ensures
        trace_result(c0, tr) == c0 + count_events(tr, CounterEvent::Borrow) - count_events(
            tr,
            CounterEvent::Release,
        ) - count_events(tr, CounterEvent::BorrowMut) + count_events(tr, CounterEvent::ReleaseMut),
    decreases tr.len(),
{
    if tr.len() > 0 {
        lemma_trace_result_counts(c0, tr.drop_last());
    }
}

/// Any sequence of borrows and releases that is balanced — each release
/// matches a prior lease, and a writer is never interleaved with any other
/// lease, which is what validity of the trace encodes — leaves the counter
/// free again.
pub proof fn lemma_balanced_trace_returns_to_free(tr: Seq<CounterEvent>)
    requires
        trace_valid(0, tr),
        count_events(tr, CounterEvent::Borrow) == count_events(tr, CounterEvent::Release),
        count_events(tr, CounterEvent::BorrowMut) == count_events(tr, CounterEvent::ReleaseMut),
    ensures
        trace_result(0, tr) == 0,
{
    lemma_trace_result_counts(0, tr);
}

/// From a free counter, a run of 128 consecutive successful borrows is
/// impossible: a valid all-borrow trace holds at most 127 events, and each
/// one raises the reader count by exactly one.
pub proof fn lemma_reader_cap(tr: Seq<CounterEvent>)
    requires
        trace_valid(0, tr),
        forall|k: int| 0 <= k < tr.len() ==> tr[k] == CounterEvent::Borrow,
    ensures
        tr.len() <= 127,
        trace_result(0, tr) == tr.len(),
    decreases tr.len(),
{
    if tr.len() > 0 {
        lemma_reader_cap(tr.drop_last());
    }
}

impl BorrowCounter {
    /// The signed count this cell holds.
    pub closed spec fn spec_count(self) -> int {
        self.counter as int
    }

    /// Whether a writer currently holds this account.
    pub fn is_writing(&self) -> (r: bool)
        ensures
            r == (self.spec_count() < 0),
    {
        self.counter < 0
    }

    /// Whether at least one reader currently holds this account.
    pub fn is_reading(&self) -> (r: bool)
        ensures
            r == (self.spec_count() > 0),
    {
        self.counter > 0
    }

    /// Takes an immutable lease: succeeds exactly when no writer holds the
    /// account and the reader count is below 127, and then increments the
    /// count; otherwise fails with `AccountBorrowFailed` and changes nothing.
    pub fn try_borrow(&mut self) -> (r: Result<(), InstructionError>)
        ensures
            r is Ok <==> event_allowed(old(self).spec_count(), CounterEvent::Borrow),
            r is Ok ==> final(self).spec_count() == event_step(
                old(self).spec_count(),
                CounterEvent::Borrow,
            ),
            r is Err ==> final(self).spec_count() == old(self).spec_count() && r == Err::<
                (),
                InstructionError,
            >(InstructionError::AccountBorrowFailed),
    {
        if self.counter < 0 {
            return Err(InstructionError::AccountBorrowFailed);
        }
        match self.counter.checked_add(1) {
            Some(counter) => {
                self.counter = counter;
                Ok(())
            },
            None => Err(InstructionError::AccountBorrowFailed),
        }
    }

    /// Takes the exclusive lease: succeeds exactly when the counter is free,
    /// and then marks the writer; otherwise fails with `AccountBorrowFailed`
    /// and changes nothing.
    pub fn try_borrow_mut(&mut self) -> (r: Result<(), InstructionError>)
        ensures
            r is Ok <==> event_allowed(old(self).spec_count(), CounterEvent::BorrowMut),
            r is Ok ==> final(self).spec_count() == event_step(
                old(self).spec_count(),
                CounterEvent::BorrowMut,
            ),
            r is Err ==> final(self).spec_count() == old(self).spec_count() && r == Err::<
                (),
                InstructionError,
            >(InstructionError::AccountBorrowFailed),
    {
        if self.counter < 0 || self.counter > 0 {
            return Err(InstructionError::AccountBorrowFailed);
        }
        self.counter = self.counter - 1;
        Ok(())
    }

    /// Returns an immutable lease: decrements a positive reader count.
    pub fn release_borrow(&mut self)
        requires
            event_allowed(old(self).spec_count(), CounterEvent::Release),
        ensures
            final(self).spec_count() == event_step(old(self).spec_count(), CounterEvent::Release),
    {
        self.counter = self.counter - 1;
    }

    /// Returns the exclusive lease: steps a negative count back toward free.
    pub fn release_borrow_mut(&mut self)
        requires
            event_allowed(old(self).spec_count(), CounterEvent::ReleaseMut),
        ensures
            final(self).spec_count() == event_step(
                old(self).spec_count(),
                CounterEvent::ReleaseMut,
            ),
    {
        self.counter = self.counter + 1;
    }
}

} // verus!
