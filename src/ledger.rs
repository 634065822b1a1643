//! The nonce ledger: which single-use nonces have been consumed, and when.
use vstd::prelude::*;
use std::collections::HashMap;

verus! {

broadcast use vstd::std_specs::hash::group_hash_axioms;

#[derive(PartialEq, Eq, Structural, Clone, Copy, Debug)]
pub enum ConsumeOutcome {
    Consumed,
    AlreadyConsumed,
}

/// What one consumption attempt returns, given the nonces consumed before it.
pub open spec fn consume_outcome(consumed: Set<u128>, nonce: u128) -> ConsumeOutcome {
    if consumed.contains(nonce) {
        ConsumeOutcome::AlreadyConsumed
    } else {
        ConsumeOutcome::Consumed
    }
}

/// The ledger after one attempt to consume `nonce` at time `now`.
pub open spec fn consume_step(ledger: Map<u128, i64>, nonce: u128, now: i64) -> Map<u128, i64> {
    if ledger.contains_key(nonce) {
        ledger
    } else {
        ledger.insert(nonce, now)
    }
}

/// The outcomes of consecutive attempts to consume `nonce`, one at each of `times`.
pub open spec fn consume_outcomes(ledger: Map<u128, i64>, nonce: u128, times: Seq<i64>) -> Seq<
    ConsumeOutcome,
>
    decreases times.len(),
{
    if times.len() == 0 {
        Seq::empty()
    } else {
        seq![consume_outcome(ledger.dom(), nonce)] + consume_outcomes(
            consume_step(ledger, nonce, times[0]),
            nonce,
            times.drop_first(),
        )
    }
}

/// The ledger after consecutive attempts to consume `nonce`, one at each of `times`.
pub open spec fn ledger_after(ledger: Map<u128, i64>, nonce: u128, times: Seq<i64>) -> Map<u128, i64>
    decreases times.len(),
{
    if times.len() == 0 {
        ledger
    } else {
        ledger_after(consume_step(ledger, nonce, times[0]), nonce, times.drop_first())
    }
}

/// However many attempts to consume one nonce are made, in whatever order the
/// ledger serialises them, only the first can return `Consumed`, and it does
/// exactly when the nonce was not consumed before; the ledger then holds one
/// entry for the nonce, written by that first attempt and never overwritten.
pub proof fn lemma_consumed_at_most_once(ledger: Map<u128, i64>, nonce: u128, times: Seq<i64>)
    requires
        times.len() >= 1,
    ensures
        consume_outcomes(ledger, nonce, times).len() == times.len(),
        consume_outcomes(ledger, nonce, times)[0] == consume_outcome(ledger.dom(), nonce),
        forall|i: int|
            1 <= i < times.len() ==> #[trigger] consume_outcomes(ledger, nonce, times)[i]
                == ConsumeOutcome::AlreadyConsumed,
        ledger_after(ledger, nonce, times) == consume_step(ledger, nonce, times[0]),
    decreases times.len(),
{
    let next = consume_step(ledger, nonce, times[0]);
    let s = consume_outcomes(ledger, nonce, times);
    let rest = consume_outcomes(next, nonce, times.drop_first());
    assert(next.contains_key(nonce));
    if times.len() > 1 {
        lemma_consumed_at_most_once(next, nonce, times.drop_first());
        assert(consume_step(next, nonce, times.drop_first()[0]) == next);
        assert(ledger_after(ledger, nonce, times) == ledger_after(next, nonce, times.drop_first()));
        assert forall|i: int| 1 <= i < times.len() implies #[trigger] s[i] == ConsumeOutcome::AlreadyConsumed by {
            assert(s[i] == rest[i - 1]);
            if i == 1 {
                assert(rest[0] == consume_outcome(next.dom(), nonce));
            }
        }
    } else {
        assert(times.drop_first().len() == 0);
        assert(rest.len() == 0);
        assert(ledger_after(next, nonce, times.drop_first()) == next);
    }
}

/// The consumed nonces, each with the time it was consumed. Checking and
/// recording happen in one call on exclusive access, so no second caller can
/// observe the gap between them.
pub struct NonceLedger {
    consumed: HashMap<u128, i64>,
}

impl View for NonceLedger {
    type V = Map<u128, i64>;

    closed spec fn view(&self) -> Map<u128, i64> {
        self.consumed@
    }
}

impl NonceLedger {
    pub fn new() -> (r: NonceLedger)
        ensures
            r@ == Map::<u128, i64>::empty(),
    {
        NonceLedger { consumed: HashMap::new() }
    }

    /// Whether `nonce` has been consumed.
    pub fn is_consumed(&self, nonce: u128) -> (r: bool)
        ensures
            r == self@.contains_key(nonce),
    {
        self.consumed.contains_key(&nonce)
    }

    /// Consumes `nonce` at time `now` unless it was consumed before.
    pub fn try_consume(&mut self, nonce: u128, now: i64) -> (r: ConsumeOutcome)
        ensures
            r == consume_outcome(old(self)@.dom(), nonce),
            final(self)@ == consume_step(old(self)@, nonce, now),
            final(self)@.dom() == old(self)@.dom().insert(nonce),
    {
        if self.consumed.contains_key(&nonce) {
            assert(self@.dom().insert(nonce) =~= self@.dom());
            ConsumeOutcome::AlreadyConsumed
        } else {
            self.consumed.insert(nonce, now);
            ConsumeOutcome::Consumed
        }
    }

    /// The number of recorded nonces.
    pub fn len(&self) -> (r: usize)
        ensures
            r == self@.len(),
    {
        self.consumed.len()
    }
}

} // verus!
