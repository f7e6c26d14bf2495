//! A counting semaphore as a state machine.
//!
//! The counter lives behind one lock and is paired with one condition that is
//! signalled whenever the count grows. This module holds every decision that
//! is taken while the lock is held: whether a consumer may take a unit or has
//! to wait, what an interruption does, and how a producer's units are added.
//! Waiting itself is the caller's business: a step that answers
//! [`Step::Block`] asks the caller to wait on the condition and to come back
//! with the way the wait ended.

use vstd::prelude::*;

use crate::error::Error;

verus! {

/// The mathematical state of a semaphore.
pub struct SemaphoreView {
    /// Units that consumers may still take.
    pub count: nat,
    /// The largest value that `count` has held.
    pub max_seen: nat,
}

/// One operation on a semaphore, as it appears in a history.
pub enum SemaphoreOp {
    /// A producer adds this many units.
    Produce(usize),
    /// A consumer asks for one unit and is not interrupted.
    Consume,
}

/// How the caller arrives at a consume step.
#[derive(Clone, Copy, Debug, PartialEq, Eq, Structural)]
pub enum Wake {
    /// On entry, or after a wait that ended with a wake-up, which may be
    /// spurious.
    Clear,
    /// After a wait that an outside signal cut short.
    Interrupted,
}

/// What a step that may have to wait tells its caller.
#[derive(Debug, PartialEq, Eq, Structural)]
pub enum Step<T> {
    /// The operation is over, with this result.
    Done(T),
    /// Nothing was taken: wait on the condition, then take the step again.
    Block,
}

impl SemaphoreView {
    /// The state of a semaphore that nobody has used.
    pub open spec fn initial() -> SemaphoreView {
        SemaphoreView { count: 0, max_seen: 0 }
    }

    /// The high-water mark is at least the count, and both are numbers that
    /// the machine can represent.
    pub open spec fn inv(self) -> bool {
        self.count <= self.max_seen <= usize::MAX
    }

    /// The count after `n` units are added: the sum, held at the largest
    /// count that the machine can represent.
    pub open spec fn saturating_sum(self, n: nat) -> nat {
        if self.count + n > usize::MAX as nat {
            usize::MAX as nat
        } else {
            self.count + n
        }
    }

    /// The state after a producer has added `n` units.
    pub open spec fn produce(self, n: nat) -> SemaphoreView {
        let count = self.saturating_sum(n);
        SemaphoreView {
            count,
            max_seen: if count > self.max_seen { count } else { self.max_seen },
        }
    }

    /// Whether a consumer finds a unit to take.
    pub open spec fn available(self) -> bool {
        self.count > 0
    }

    /// The state after a consumer has tried to take one unit: one less where
    /// there was one, unchanged where there was none.
    pub open spec fn consume(self) -> SemaphoreView {
        if self.count > 0 {
            SemaphoreView { count: (self.count - 1) as nat, max_seen: self.max_seen }
        } else {
            self
        }
    }

    /// The state after one operation of a history.
    pub open spec fn apply(self, op: SemaphoreOp) -> SemaphoreView {
        match op {
            SemaphoreOp::Produce(n) => self.produce(n as nat),
            SemaphoreOp::Consume => self.consume(),
        }
    }

    /// The state after a whole history, taken in order.
    pub open spec fn run(self, ops: Seq<SemaphoreOp>) -> SemaphoreView
        decreases ops.len(),
    {
        if ops.len() == 0 {
            self
        } else {
            self.run(ops.drop_last()).apply(ops.last())
        }
    }

    /// What a consume step answers in this state.
    pub open spec fn consume_step_result(self, wake: Wake) -> Step<Result<(), Error>> {
        match wake {
            Wake::Interrupted => Step::Done(Err(Error::Interrupted)),
            Wake::Clear => if self.count > 0 {
                Step::Done(Ok(()))
            } else {
                Step::Block
            },
        }
    }

    /// The state that a consume step leaves.
    pub open spec fn consume_step_state(self, wake: Wake) -> SemaphoreView {
        match wake {
            Wake::Interrupted => self,
            Wake::Clear => self.consume(),
        }
    }
}

/// The number of units that the producers of a history add.
pub open spec fn produced_total(ops: Seq<SemaphoreOp>) -> nat
    decreases ops.len(),
{
    if ops.len() == 0 {
        0
    } else {
        produced_total(ops.drop_last()) + match ops.last() {
            SemaphoreOp::Produce(n) => n as nat,
            SemaphoreOp::Consume => 0,
        }
    }
}

/// The number of consumers of a history, run from `start`, that found a unit.
pub open spec fn successful_consumes(start: SemaphoreView, ops: Seq<SemaphoreOp>) -> nat
    decreases ops.len(),
{
    if ops.len() == 0 {
        0
    } else {
        successful_consumes(start, ops.drop_last()) + match ops.last() {
            SemaphoreOp::Produce(_) => 0nat,
            SemaphoreOp::Consume => if start.run(ops.drop_last()).available() {
                1nat
            } else {
                0nat
            },
        }
    }
}

/// The largest count that the semaphore holds at any point of a history run
/// from `start`, the start itself included.
pub open spec fn peak_count(start: SemaphoreView, ops: Seq<SemaphoreOp>) -> nat
    decreases ops.len(),
{
    if ops.len() == 0 {
        start.count
    } else {
        let before = peak_count(start, ops.drop_last());
        let now = start.run(ops).count;
        if now > before {
            now
        } else {
            before
        }
    }
}

/// The counter and its high-water mark. A value of this type is meant to be
/// read and written only by the holder of the semaphore's lock.
#[derive(Debug)]
pub struct SemaphoreInner {
    count: usize,
    max_seen: usize,
}

impl View for SemaphoreInner {
    type V = SemaphoreView;

    closed spec fn view(&self) -> SemaphoreView {
        SemaphoreView { count: self.count as nat, max_seen: self.max_seen as nat }
    }
}

impl SemaphoreInner {
    #[verifier::type_invariant]
    spec fn well_formed(self) -> bool {
        self.count <= self.max_seen
    }

    /// A semaphore with no units.
    pub fn new() -> (s: SemaphoreInner)
        ensures
            s@ == SemaphoreView::initial(),
            s@.inv(),
    {
        SemaphoreInner { count: 0, max_seen: 0 }
    }

    /// The units that may be taken now.
    pub fn count(&self) -> (n: usize)
        ensures
            n == self@.count,
            self@.inv(),
    {
        proof {
            use_type_invariant(self);
        }
        self.count
    }

    /// The largest count seen so far.
    pub fn max_seen(&self) -> (n: usize)
        ensures
            n == self@.max_seen,
            self@.inv(),
    {
        proof {
            use_type_invariant(self);
        }
        self.max_seen
    }

    /// Adds `n` units, holding the count at the largest representable value
    /// instead of wrapping, and raises the high-water mark to the new count.
    /// The caller then wakes every waiter, not one: several may go on after
    /// one large addition.
    pub fn produce(&mut self, n: usize)
        ensures
            final(self)@ == old(self)@.produce(n as nat),
            old(self)@.inv(),
            final(self)@.inv(),
    {
        proof {
            use_type_invariant(&*self);
        }
        let count = self.count.saturating_add(n);
        let max_seen = if count > self.max_seen { count } else { self.max_seen };
        *self = SemaphoreInner { count, max_seen };
    }

    /// Takes one unit if there is one, and says whether it did.
    pub fn try_consume(&mut self) -> (taken: bool)
        ensures
            taken == old(self)@.available(),
            final(self)@ == old(self)@.consume(),
            old(self)@.inv(),
            final(self)@.inv(),
    {
        proof {
            use_type_invariant(&*self);
        }
        if self.count == 0 {
            false
        } else {
            *self = SemaphoreInner { count: self.count - 1, max_seen: self.max_seen };
            true
        }
    }

    /// One step of a blocking consume, taken with the lock held.
    ///
    /// After an interrupted wait the step ends with [`Error::Interrupted`]
    /// and takes nothing, whatever the count. Otherwise it takes one unit
    /// where there is one, and asks the caller to wait where there is none;
    /// the count is looked at afresh on every step, so a spurious wake-up
    /// only leads to another wait.
    pub fn consume_step(&mut self, wake: Wake) -> (step: Step<Result<(), Error>>)
        ensures
            step == old(self)@.consume_step_result(wake),
            final(self)@ == old(self)@.consume_step_state(wake),
            old(self)@.inv(),
            final(self)@.inv(),
    {
        proof {
            use_type_invariant(&*self);
        }
        match wake {
            Wake::Interrupted => Step::Done(Err(Error::Interrupted)),
            Wake::Clear => {
                if self.try_consume() {
                    Step::Done(Ok(()))
                } else {
                    Step::Block
                }
            },
        }
    }
}

/// A history of `k` consumers and nothing else.
pub open spec fn consumers(k: nat) -> Seq<SemaphoreOp> {
    Seq::new(k, |i: int| SemaphoreOp::Consume)
}

/// The high-water mark never falls, and a state that keeps it at or above
/// the count still does so after any operation.
pub proof fn lemma_apply_keeps_inv(s: SemaphoreView, op: SemaphoreOp)
    requires
        s.inv(),
    ensures
        s.apply(op).inv(),
        s.apply(op).max_seen >= s.max_seen,
{
}

/// Where the producers of a history never push the count past the largest
/// representable value, the count at its end is the count at its start, plus
/// all that was produced, minus one for every consumer that found a unit. It
/// is never negative: no more consumers succeed than there were units.
pub proof fn lemma_history_count(start: SemaphoreView, ops: Seq<SemaphoreOp>)
    requires
        start.count + produced_total(ops) <= usize::MAX,
    ensures
        successful_consumes(start, ops) <= start.count + produced_total(ops),
        start.run(ops).count == start.count + produced_total(ops) - successful_consumes(
            start,
            ops,
        ),
    decreases ops.len(),
{
    if ops.len() > 0 {
        lemma_history_count(start, ops.drop_last());
    }
}

/// At the end of a history the high-water mark is the larger of the mark at
/// its start and the largest count that was reached on the way. For a
/// semaphore that starts unused it is that largest count.
pub proof fn lemma_history_max_seen(start: SemaphoreView, ops: Seq<SemaphoreOp>)
    requires
        start.inv(),
    ensures
        start.run(ops).inv(),
        start.run(ops).max_seen == if peak_count(start, ops) > start.max_seen {
            peak_count(start, ops)
        } else {
            start.max_seen
        },
        start == SemaphoreView::initial() ==> start.run(ops).max_seen == peak_count(start, ops),
    decreases ops.len(),
{
    if ops.len() > 0 {
        lemma_history_max_seen(start, ops.drop_last());
    }
}

/// The high-water mark at the end of a history is at least every value that
/// the count held during it: the count after any prefix of the history.
pub proof fn lemma_max_seen_bounds_history(start: SemaphoreView, ops: Seq<SemaphoreOp>, k: int)
    requires
        start.inv(),
        0 <= k <= ops.len(),
    ensures
        start.run(ops.take(k)).count <= start.run(ops).max_seen,
    decreases ops.len(),
{
    lemma_history_max_seen(start, ops);
    if k == ops.len() {
        assert(ops.take(k) =~= ops);
    } else {
        let shorter = ops.drop_last();
        lemma_max_seen_bounds_history(start, shorter, k);
        lemma_history_max_seen(start, shorter);
        lemma_apply_keeps_inv(start.run(shorter), ops.last());
        assert(shorter.take(k) =~= ops.take(k));
    }
}

/// A consumer that finds no unit is told to wait and changes nothing, however
/// often it is woken, until a producer adds at least one unit; its next step
/// then succeeds and takes exactly one.
pub proof fn lemma_consume_waits_for_produce(s: SemaphoreView, n: usize)
    requires
        s.count == 0,
        n >= 1,
    ensures
        s.consume_step_result(Wake::Clear) == Step::<Result<(), Error>>::Block,
        s.consume_step_state(Wake::Clear) == s,
        s.produce(n as nat).consume_step_result(Wake::Clear) == Step::Done(
            Ok::<(), Error>(()),
        ),
        s.produce(n as nat).consume_step_state(Wake::Clear).count == s.produce(
            n as nat,
        ).count - 1,
{
}

/// From a state with `s.count` units, the first `k` consumers all find one,
/// as long as `k` does not exceed the count, and leave `s.count - k`.
pub proof fn lemma_consumers_drain(s: SemaphoreView, k: nat)
    requires
        k <= s.count,
    ensures
        successful_consumes(s, consumers(k)) == k,
        s.run(consumers(k)).count == s.count - k,
        s.run(consumers(k)).max_seen == s.max_seen,
    decreases k,
{
    if k > 0 {
        lemma_consumers_drain(s, (k - 1) as nat);
        assert(consumers(k).drop_last() =~= consumers((k - 1) as nat));
    }
}

/// Producing `k` units into a semaphore that holds none and then consuming
/// `k` times succeeds exactly `k` times, one unit each, and leaves none: a
/// further consumer is told to wait.
pub proof fn lemma_round_trip(s: SemaphoreView, k: usize)
    requires
        s.count == 0,
    ensures
        successful_consumes(s.produce(k as nat), consumers(k as nat)) == k,
        s.produce(k as nat).run(consumers(k as nat)).count == 0,
        s.produce(k as nat).run(consumers(k as nat)).consume_step_result(Wake::Clear)
            == Step::<Result<(), Error>>::Block,
{
    lemma_consumers_drain(s.produce(k as nat), k as nat);
}

} // verus!
