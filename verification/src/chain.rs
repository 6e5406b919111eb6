use vstd::prelude::*;

use crate::errors::ParseError;
use crate::models::VideoParseInfo;

verus! {

/// What one fallback tier produced: a record, or the failure (transport or
/// business) that sends the chain on to the next tier.
pub type TierOutcome = Result<VideoParseInfo, ParseError>;

/// The result of a strict in-series fallback chain over the given tier
/// outcomes, paired with the number of tiers consulted: the first success
/// short-circuits, and when every tier fails the last tier's error is the
/// one surfaced.
pub open spec fn spec_chain(outcomes: Seq<TierOutcome>) -> (TierOutcome, int)
    decreases outcomes.len(),
{
    if outcomes.len() == 0 {
        (Err(ParseError::NoMediaFound), 0)
    } else if outcomes[0] is Ok || outcomes.len() == 1 {
        (outcomes[0], 1)
    } else {
        let rest = spec_chain(outcomes.drop_first());
        (rest.0, rest.1 + 1)
    }
}

proof fn lemma_chain_at(outcomes: Seq<TierOutcome>, k: int)
    requires
        0 <= k < outcomes.len(),
        forall|j: int| 0 <= j < k ==> outcomes[j] is Err,
        outcomes[k] is Ok || k == outcomes.len() - 1,
    ensures
        spec_chain(outcomes) == (outcomes[k], k + 1),
    decreases k,
{
    if k > 0 {
        let rest = outcomes.drop_first();
        assert forall|j: int| 0 <= j < k - 1 implies rest[j] is Err by {
            assert(rest[j] == outcomes[j + 1]);
        }
        assert(rest[k - 1] == outcomes[k]);
        lemma_chain_at(rest, k - 1);
    }
}

/// Runs a fallback chain over tier outcomes already in hand, strictly in
/// order: the returned pair is the chain's result and how many tiers were
/// consulted.
pub fn run_fallback_tiers(outcomes: Vec<TierOutcome>) -> (r: (TierOutcome, usize))
    requires
        outcomes@.len() > 0,
    ensures
        r.0 == spec_chain(outcomes@).0,
        r.1 as int == spec_chain(outcomes@).1,
{
    let ghost all = outcomes@;
    let n = outcomes.len();
    let mut k: usize = 0;
    loop
        invariant
            outcomes@ == all,
            n == all.len(),
            0 < n,
            k < n,
            forall|j: int| 0 <= j < k ==> all[j] is Err,
        decreases n - k,
    {
        let is_ok = match &outcomes[k] {
            Ok(_) => true,
            Err(_) => false,
        };
        if is_ok || k == n - 1 {
            proof {
                lemma_chain_at(all, k as int);
            }
            let mut v = outcomes;
            let item = v.remove(k);
            return (item, k + 1);
        }
        k += 1;
    }
}

/// The per-tier decision a strategy driver takes after one tier has run:
/// accept a success at once; on failure move on while tiers remain, else
/// surface this (last) tier's error.
#[derive(Debug)]
pub enum ChainDecision {
    Accept(VideoParseInfo),
    NextTier,
    Fail(ParseError),
}

pub fn chain_step(outcome: TierOutcome, tiers_left: usize) -> (r: ChainDecision)
    ensures
        outcome matches Ok(v) ==> r == ChainDecision::Accept(v),
        (outcome is Err && tiers_left > 0) ==> r == ChainDecision::NextTier,
        outcome matches Err(e) ==> (tiers_left == 0 ==> r == ChainDecision::Fail(e)),
{
    match outcome {
        Ok(v) => ChainDecision::Accept(v),
        Err(e) => {
            if tiers_left > 0 {
                ChainDecision::NextTier
            } else {
                ChainDecision::Fail(e)
            }
        },
    }
}

/// The fallback-chain law: where the first tier fails (for instance with an
/// upstream business rejection) and the second tier succeeds, the chain's
/// result is exactly the second tier's record, and only two tiers are ever
/// consulted — a third tier is never invoked.
pub proof fn lemma_fallback_stops_after_success(outcomes: Seq<TierOutcome>)
    requires
        outcomes.len() >= 2,
        outcomes[0] is Err,
        outcomes[1] is Ok,
    ensures
        spec_chain(outcomes).0 == outcomes[1],
        spec_chain(outcomes).1 == 2,
{
    let rest = outcomes.drop_first();
    assert(rest[0] == outcomes[1]);
    assert(spec_chain(rest) == (outcomes[1], 1int));
    assert(spec_chain(outcomes) == (spec_chain(rest).0, spec_chain(rest).1 + 1));
}

} // verus!
