//! What every plan of the distribution engine satisfies.
use vstd::prelude::*;

use crate::engine::{
    creator_payout, creator_remainder, distribution, floor_sum, lemma_floor_sum_le,
    lemma_mul_nonneg, lemma_paid_exact, lemma_payout_total, paid_upto, payout_total,
    payouts_upto, PlanSpec,
};
use crate::model::{Creator, FeePolicy};

verus! {

/// Every entry of the payout list names a creator with a nonzero share and
/// carries that creator's positive payout.
pub proof fn lemma_payout_entries(fee: int, rem: int, cs: Seq<Creator>, n: int)
    requires
        n >= 0,
    ensures
        forall|k: int|
            #![trigger payouts_upto(fee, rem, cs, n)[k]]
            0 <= k < payouts_upto(fee, rem, cs, n).len() ==> {
                let e = payouts_upto(fee, rem, cs, n)[k];
                &&& 0 <= e.0 < n
                &&& cs[e.0].share != 0
                &&& e.1 == creator_payout(fee, rem, cs, e.0)
                &&& e.1 > 0
            },
    decreases n,
{
    if n > 0 {
        lemma_payout_entries(fee, rem, cs, n - 1);
        let prev = payouts_upto(fee, rem, cs, n - 1);
        let x = creator_payout(fee, rem, cs, n - 1);
        if x > 0 {
            let s = prev.push((n - 1, x));
            assert forall|k: int| 0 <= k < s.len() implies {
                let e = #[trigger] s[k];
                &&& 0 <= e.0 < n
                &&& cs[e.0].share != 0
                &&& e.1 == creator_payout(fee, rem, cs, e.0)
                &&& e.1 > 0
            } by {
                if k < prev.len() {
                    assert(s[k] == prev[k]);
                }
            }
        }
    }
}

/// The total of a plan: creator payouts, the rebate when it is paid, the fee
/// collector's residue and the target's amount.
pub open spec fn plan_outflow(p: PlanSpec) -> int {
    payout_total(p.payouts) + (if p.buy_side_paid { p.buy_side_fee } else { 0 })
        + p.fee_collector + p.target
}

/// Conservation: whenever the engine produces a plan, everything it pays out
/// adds up to exactly the payment amount plus the taker fee.
pub proof fn law_conservation(
    amount: u64,
    policy: FeePolicy,
    royalty: Option<(u16, Seq<Creator>)>,
    buy_side_paid: bool,
)
    requires
        distribution(amount as int, policy, royalty, buy_side_paid) is Ok,
    ensures
        ({
            let p = distribution(amount as int, policy, royalty, buy_side_paid)->Ok_0;
            plan_outflow(p) == amount + p.taker_fee
        }),
{
    match royalty {
        None => {
            assert(payout_total(Seq::<(int, int)>::empty()) == 0);
        },
        Some((seller_bps, cs)) => {
            let p = distribution(amount as int, policy, royalty, buy_side_paid)->Ok_0;
            lemma_payout_total(p.total_creator_fee, creator_remainder(p.total_creator_fee, cs), cs, cs.len() as int);
        },
    }
}

/// Remainder correction: with royalty terms, each paid creator gets its
/// truncated share plus at most one unit, creators with a zero share get
/// nothing, and the units added in total are no more than the aggregate
/// remainder, itself no more than what per-creator truncation left over.
pub proof fn law_remainder_bounded(
    amount: u64,
    policy: FeePolicy,
    seller_fee_bps: u16,
    cs: Seq<Creator>,
    buy_side_paid: bool,
)
    requires
        distribution(amount as int, policy, Some((seller_fee_bps, cs)), buy_side_paid) is Ok,
    ensures
        ({
            let p = distribution(amount as int, policy, Some((seller_fee_bps, cs)), buy_side_paid)->Ok_0;
            let fee = p.total_creator_fee;
            let n = cs.len() as int;
            &&& forall|k: int|
                #![trigger p.payouts[k]]
                0 <= k < p.payouts.len() ==> {
                    let (i, a) = p.payouts[k];
                    &&& 0 <= i < n
                    &&& cs[i].share != 0
                    &&& fee * cs[i].share / 100 <= a <= fee * cs[i].share / 100 + 1
                }
            &&& 0 <= payout_total(p.payouts) - floor_sum(fee, cs, n) <= creator_remainder(fee, cs)
            &&& creator_remainder(fee, cs) <= fee - floor_sum(fee, cs, n)
        }),
{
    let p = distribution(amount as int, policy, Some((seller_fee_bps, cs)), buy_side_paid)->Ok_0;
    let fee = p.total_creator_fee;
    let n = cs.len() as int;
    let rem = creator_remainder(fee, cs);
    lemma_payout_entries(fee, rem, cs, n);
    lemma_payout_total(fee, rem, cs, n);
    lemma_paid_exact(fee, rem, cs, n);
    lemma_floor_sum_le(fee, cs, n);
}

/// Zero-share creators: with royalty terms, no creator whose share is zero
/// appears among the payouts.
pub proof fn law_zero_share_unpaid(
    amount: u64,
    policy: FeePolicy,
    seller_fee_bps: u16,
    cs: Seq<Creator>,
    buy_side_paid: bool,
    k: int,
)
    requires
        distribution(amount as int, policy, Some((seller_fee_bps, cs)), buy_side_paid) is Ok,
        0 <= k < distribution(amount as int, policy, Some((seller_fee_bps, cs)), buy_side_paid)->Ok_0.payouts.len(),
    ensures
        ({
            let p = distribution(amount as int, policy, Some((seller_fee_bps, cs)), buy_side_paid)->Ok_0;
            cs[p.payouts[k].0].share != 0
        }),
{
    let p = distribution(amount as int, policy, Some((seller_fee_bps, cs)), buy_side_paid)->Ok_0;
    lemma_payout_entries(p.total_creator_fee, creator_remainder(p.total_creator_fee, cs), cs, cs.len() as int);
}

/// Soft-fail redirection: when the rebate is not paid to its own recipient,
/// the plan still succeeds, and the fee collector receives the rebate on top
/// of what it would otherwise get; nothing else changes.
pub proof fn law_soft_fail_redirects(
    amount: u64,
    policy: FeePolicy,
    royalty: Option<(u16, Seq<Creator>)>,
)
    requires
        distribution(amount as int, policy, royalty, true) is Ok,
    ensures
        distribution(amount as int, policy, royalty, false) is Ok,
        ({
            let p = distribution(amount as int, policy, royalty, true)->Ok_0;
            let q = distribution(amount as int, policy, royalty, false)->Ok_0;
            &&& q.fee_collector == p.fee_collector + p.buy_side_fee
            &&& q.target == p.target
            &&& q.payouts == p.payouts
            &&& q.total_fees == p.total_fees
            &&& q.buy_side_fee == p.buy_side_fee
            &&& !q.buy_side_paid
        }),
{
}

/// No royalty terms: the creator fee is zero and nobody is paid as a creator.
pub proof fn law_no_royalty(amount: u64, policy: FeePolicy, buy_side_paid: bool)
    requires
        distribution(amount as int, policy, None, buy_side_paid) is Ok,
    ensures
        distribution(amount as int, policy, None, buy_side_paid)->Ok_0.total_creator_fee == 0,
        distribution(amount as int, policy, None, buy_side_paid)->Ok_0.payouts.len() == 0,
{
}

} // verus!
