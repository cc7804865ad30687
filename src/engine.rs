//! The distribution engine: from a payment amount, a fee policy and optional
//! royalty terms to an itemised plan, in checked 64-bit integer arithmetic.
use vstd::prelude::*;

use crate::config::{
    BASIS_POINTS_DIVISOR, DEFAULT_BUY_SIDE_FEE_SHARE_BPS, DEFAULT_ROYALTY_FEE_SHARE_BPS,
    SHARE_DIVISOR,
};
use crate::model::{Creator, CreatorPayout, DistributionPlan, FeePolicy, PaymentError, RoyaltyInfo};

verus! {

/// The plan as mathematical values.
pub struct PlanSpec {
    pub maker_fee: int,
    pub taker_fee: int,
    pub total_fees: int,
    pub total_creator_fee: int,
    /// (creator index, amount) of each creator paid, in list order.
    pub payouts: Seq<(int, int)>,
    pub buy_side_fee: int,
    pub buy_side_paid: bool,
    pub fee_collector: int,
    pub target: int,
}

pub open spec fn fits_u64(x: int) -> bool {
    0 <= x <= u64::MAX
}

/// The royalty share of the marketplace fees under a policy.
pub open spec fn royalty_share(policy: FeePolicy) -> int {
    match policy.royalty_fee_share_bps {
        Some(s) => s as int,
        None => DEFAULT_ROYALTY_FEE_SHARE_BPS as int,
    }
}

/// `fee * share` summed over the first `n` creators.
pub open spec fn weighted_sum(fee: int, cs: Seq<Creator>, n: int) -> int
    decreases n,
{
    if n <= 0 {
        0
    } else {
        weighted_sum(fee, cs, n - 1) + fee * cs[n - 1].share
    }
}

/// `floor(fee * share / 100)` summed over the first `n` creators.
pub open spec fn floor_sum(fee: int, cs: Seq<Creator>, n: int) -> int
    decreases n,
{
    if n <= 0 {
        0
    } else {
        floor_sum(fee, cs, n - 1) + fee * cs[n - 1].share / 100
    }
}

/// How many of the first `n` creators have a nonzero share.
pub open spec fn nonzero_count(cs: Seq<Creator>, n: int) -> int
    decreases n,
{
    if n <= 0 {
        0
    } else {
        nonzero_count(cs, n - 1) + if cs[n - 1].share != 0 { 1int } else { 0int }
    }
}

/// The aggregate truncation estimate handed out one unit at a time.
pub open spec fn creator_remainder(fee: int, cs: Seq<Creator>) -> int {
    fee - weighted_sum(fee, cs, cs.len() as int) / 100
}

/// What creator `i` receives: its truncated share, plus one unit while the
/// remainder lasts, counted over the creators with a nonzero share before it.
pub open spec fn creator_payout(fee: int, rem: int, cs: Seq<Creator>, i: int) -> int {
    if cs[i].share == 0 {
        0
    } else {
        fee * cs[i].share / 100 + if nonzero_count(cs, i) < rem { 1int } else { 0int }
    }
}

/// The sum of the payouts of the first `n` creators.
pub open spec fn paid_upto(fee: int, rem: int, cs: Seq<Creator>, n: int) -> int
    decreases n,
{
    if n <= 0 {
        0
    } else {
        paid_upto(fee, rem, cs, n - 1) + creator_payout(fee, rem, cs, n - 1)
    }
}

/// The nonzero payouts of the first `n` creators, in list order.
pub open spec fn payouts_upto(fee: int, rem: int, cs: Seq<Creator>, n: int) -> Seq<(int, int)>
    decreases n,
{
    if n <= 0 {
        Seq::empty()
    } else if creator_payout(fee, rem, cs, n - 1) > 0 {
        payouts_upto(fee, rem, cs, n - 1).push((n - 1, creator_payout(fee, rem, cs, n - 1)))
    } else {
        payouts_upto(fee, rem, cs, n - 1)
    }
}

/// The sum of the amounts of a payout list.
pub open spec fn payout_total(s: Seq<(int, int)>) -> int
    decreases s.len(),
{
    if s.len() == 0 {
        0
    } else {
        payout_total(s.drop_last()) + s.last().1
    }
}

pub open spec fn payouts_view(v: Seq<CreatorPayout>) -> Seq<(int, int)> {
    v.map_values(|p: CreatorPayout| (p.index as int, p.amount as int))
}

/// The royalty terms as mathematical values: seller fee and creator list.
pub open spec fn royalty_view(royalty: Option<&RoyaltyInfo>) -> Option<(u16, Seq<Creator>)> {
    match royalty {
        Some(r) => Some((r.seller_fee_bps, r.creators@)),
        None => None,
    }
}

/// The last three steps, once the fees and creator payouts are known:
/// rebate, fee collector residue and target amount.
pub open spec fn settle_residue(
    amount: int,
    maker_fee: int,
    taker_fee: int,
    total_fees: int,
    creator_fee: int,
    payouts: Seq<(int, int)>,
    paid: int,
    buy_side_paid: bool,
) -> Result<PlanSpec, PaymentError> {
    let b = amount * DEFAULT_BUY_SIDE_FEE_SHARE_BPS;
    let buy = b / 10000;
    let fc0 = total_fees + buy - paid;
    let fc = if buy_side_paid { fc0 - buy } else { fc0 };
    let gross = amount + taker_fee;
    if !fits_u64(b) {
        Err(PaymentError::ArithmeticOverflow)
    } else if fc0 < 0 || fc < 0 {
        Err(PaymentError::ArithmeticUnderflow)
    } else if !fits_u64(gross) {
        Err(PaymentError::ArithmeticOverflow)
    } else if gross - total_fees - buy < 0 {
        Err(PaymentError::ArithmeticUnderflow)
    } else {
        Ok(
            PlanSpec {
                maker_fee,
                taker_fee,
                total_fees,
                total_creator_fee: creator_fee,
                payouts,
                buy_side_fee: buy,
                buy_side_paid,
                fee_collector: fc,
                target: gross - total_fees - buy,
            },
        )
    }
}

/// The outcome of the distribution engine, failures included.
pub open spec fn distribution(
    amount: int,
    policy: FeePolicy,
    royalty: Option<(u16, Seq<Creator>)>,
    buy_side_paid: bool,
) -> Result<PlanSpec, PaymentError> {
    let m = amount * policy.maker_fee_bps;
    let t = amount * policy.taker_fee_bps;
    if !fits_u64(m) || !fits_u64(t) {
        Err(PaymentError::ArithmeticOverflow)
    } else {
        let maker_fee = m / 10000;
        let taker_fee = t / 10000;
        let base = maker_fee + taker_fee;
        match royalty {
            None => settle_residue(
                amount, maker_fee, taker_fee, base, 0, Seq::empty(), 0, buy_side_paid),
            Some((seller_bps, cs)) => {
                let s = if policy.include_seller_fee { amount * seller_bps } else { 0 };
                let w = base * royalty_share(policy);
                let seller_fee = s / 10000;
                let creator_fee = w / 10000 + seller_fee;
                let sum = weighted_sum(creator_fee, cs, cs.len() as int);
                let rem = creator_fee - sum / 100;
                if !fits_u64(s) || !fits_u64(w) || !fits_u64(sum) {
                    Err(PaymentError::ArithmeticOverflow)
                } else if rem < 0 {
                    Err(PaymentError::ArithmeticUnderflow)
                } else {
                    settle_residue(
                        amount,
                        maker_fee,
                        taker_fee,
                        base + seller_fee,
                        creator_fee,
                        payouts_upto(creator_fee, rem, cs, cs.len() as int),
                        paid_upto(creator_fee, rem, cs, cs.len() as int),
                        buy_side_paid,
                    )
                }
            },
        }
    }
}

/// Whether an executable plan carries the values of a mathematical one.
pub open spec fn plan_matches(p: DistributionPlan, s: PlanSpec) -> bool {
    &&& p.maker_fee as int == s.maker_fee
    &&& p.taker_fee as int == s.taker_fee
    &&& p.total_fees as int == s.total_fees
    &&& p.total_creator_fee as int == s.total_creator_fee
    &&& payouts_view(p.creator_payouts@) == s.payouts
    &&& p.buy_side_fee_amount as int == s.buy_side_fee
    &&& p.buy_side_paid == s.buy_side_paid
    &&& p.fee_collector_amount as int == s.fee_collector
    &&& p.target_amount as int == s.target
}

pub(crate) proof fn lemma_mul_nonneg(a: int, b: int)
    requires
        a >= 0,
        b >= 0,
    ensures
        a * b >= 0,
{
    assert(a * b >= 0) by (nonlinear_arith)
        requires
            a >= 0,
            b >= 0,
    ;
}

/// The weighted sum grows with the prefix, and each term is below it.
proof fn lemma_weighted_sum_monotone(fee: int, cs: Seq<Creator>, n: int, m: int)
    requires
        fee >= 0,
        0 <= n <= m,
    ensures
        0 <= weighted_sum(fee, cs, n) <= weighted_sum(fee, cs, m),
        n < m ==> fee * cs[n].share <= weighted_sum(fee, cs, m),
    decreases m,
{
    if m > 0 {
        lemma_mul_nonneg(fee, cs[m - 1].share as int);
        if n < m {
            lemma_weighted_sum_monotone(fee, cs, n, m - 1);
        } else {
            lemma_weighted_sum_monotone(fee, cs, m - 1, m - 1);
        }
    }
}

/// Truncating each term loses at least as much as truncating the sum.
pub(crate) proof fn lemma_floor_sum_le(fee: int, cs: Seq<Creator>, n: int)
    requires
        fee >= 0,
        n >= 0,
    ensures
        0 <= floor_sum(fee, cs, n) <= weighted_sum(fee, cs, n) / 100,
    decreases n,
{
    if n > 0 {
        lemma_floor_sum_le(fee, cs, n - 1);
        lemma_weighted_sum_monotone(fee, cs, n - 1, n - 1);
        let a = weighted_sum(fee, cs, n - 1);
        let b = fee * cs[n - 1].share;
        lemma_mul_nonneg(fee, cs[n - 1].share as int);
        assert(a / 100 + b / 100 <= (a + b) / 100) by (nonlinear_arith)
            requires
                a >= 0,
                b >= 0,
        ;
    }
}

/// At most `n` of the first `n` creators have a nonzero share.
pub(crate) proof fn lemma_nonzero_count_bounds(cs: Seq<Creator>, n: int)
    requires
        n >= 0,
    ensures
        0 <= nonzero_count(cs, n) <= n,
    decreases n,
{
    if n > 0 {
        lemma_nonzero_count_bounds(cs, n - 1);
    }
}

/// Creators are paid their truncated shares plus one unit for each of the
/// first `rem` creators with a nonzero share.
pub(crate) proof fn lemma_paid_exact(fee: int, rem: int, cs: Seq<Creator>, n: int)
    requires
        fee >= 0,
        rem >= 0,
        n >= 0,
    ensures
        paid_upto(fee, rem, cs, n) == floor_sum(fee, cs, n) + if nonzero_count(cs, n) < rem {
            nonzero_count(cs, n)
        } else {
            rem
        },
        0 <= nonzero_count(cs, n) <= n,
    decreases n,
{
    lemma_nonzero_count_bounds(cs, n);
    if n > 0 {
        lemma_paid_exact(fee, rem, cs, n - 1);
        if cs[n - 1].share == 0 {
            assert(fee * cs[n - 1].share == 0);
        }
    }
}

/// The payout list sums to what was paid.
pub(crate) proof fn lemma_payout_total(fee: int, rem: int, cs: Seq<Creator>, n: int)
    requires
        fee >= 0,
        n >= 0,
    ensures
        payout_total(payouts_upto(fee, rem, cs, n)) == paid_upto(fee, rem, cs, n),
    decreases n,
{
    if n > 0 {
        lemma_payout_total(fee, rem, cs, n - 1);
        let prev = payouts_upto(fee, rem, cs, n - 1);
        let x = creator_payout(fee, rem, cs, n - 1);
        if x > 0 {
            assert(prev.push((n - 1, x)).drop_last() =~= prev);
        } else {
            lemma_mul_nonneg(fee, cs[n - 1].share as int);
        }
    }
}

/// No single payout exceeds the sum of the payouts it is part of.
pub(crate) proof fn lemma_payout_within_paid(fee: int, rem: int, cs: Seq<Creator>, i: int, n: int)
    requires
        fee >= 0,
        0 <= i < n,
    ensures
        0 <= creator_payout(fee, rem, cs, i) <= paid_upto(fee, rem, cs, n),
    decreases n,
{
    lemma_mul_nonneg(fee, cs[n - 1].share as int);
    lemma_mul_nonneg(fee, cs[i].share as int);
    if i < n - 1 {
        lemma_payout_within_paid(fee, rem, cs, i, n - 1);
    } else if n > 1 {
        lemma_payout_within_paid(fee, rem, cs, 0, n - 1);
    }
}

/// Whatever the creators are paid in total stays within the creator fee.
pub(crate) proof fn lemma_paid_within_fee(fee: int, cs: Seq<Creator>, n: int)
    requires
        fee >= 0,
        creator_remainder(fee, cs) >= 0,
        0 <= n <= cs.len(),
    ensures
        0 <= paid_upto(fee, creator_remainder(fee, cs), cs, n) <= fee,
{
    let rem = creator_remainder(fee, cs);
    lemma_paid_exact(fee, rem, cs, n);
    lemma_floor_sum_le(fee, cs, n);
    lemma_weighted_sum_monotone(fee, cs, n, cs.len() as int);
}

/// Splits `fee` among the creators: truncated shares, with the aggregate
/// remainder handed out one unit at a time in list order.
fn apportion_creators(fee: u64, creators: &Vec<Creator>) -> (r: Result<
    (Vec<CreatorPayout>, u64),
    PaymentError,
>)
    ensures
        ({
            let cs = creators@;
            let sum = weighted_sum(fee as int, cs, cs.len() as int);
            let rem = creator_remainder(fee as int, cs);
            match r {
                Ok((payouts, paid)) => fits_u64(sum) && rem >= 0 && payouts_view(payouts@)
                    == payouts_upto(fee as int, rem, cs, cs.len() as int) && paid as int
                    == paid_upto(fee as int, rem, cs, cs.len() as int),
                Err(e) => (!fits_u64(sum) && e == PaymentError::ArithmeticOverflow) || (fits_u64(
                    sum,
                ) && rem < 0 && e == PaymentError::ArithmeticUnderflow),
            }
        }),
{
    let ghost cs = creators@;
    let n = creators.len();
    let mut sum: u64 = 0;
    let mut i: usize = 0;
    while i < n
        invariant
            n == cs.len(),
            cs == creators@,
            i <= n,
            sum as int == weighted_sum(fee as int, cs, i as int),
        decreases n - i,
    {
        proof {
            lemma_weighted_sum_monotone(fee as int, cs, i as int, n as int);
            lemma_weighted_sum_monotone(fee as int, cs, i as int + 1, n as int);
        }
        let term = match fee.checked_mul(creators[i].share as u64) {
            Some(t) => t,
            None => return Err(PaymentError::ArithmeticOverflow),
        };
        sum = match sum.checked_add(term) {
            Some(s) => s,
            None => return Err(PaymentError::ArithmeticOverflow),
        };
        i = i + 1;
    }
    let estimate = sum / SHARE_DIVISOR;
    if estimate > fee {
        return Err(PaymentError::ArithmeticUnderflow);
    }
    let ghost rem0 = creator_remainder(fee as int, cs);
    let mut remainder: u64 = fee - estimate;
    let mut paid: u64 = 0;
    let mut payouts: Vec<CreatorPayout> = Vec::new();
    let mut i: usize = 0;
    while i < n
        invariant
            n == cs.len(),
            cs == creators@,
            i <= n,
            rem0 >= 0,
            rem0 == creator_remainder(fee as int, cs),
            sum as int == weighted_sum(fee as int, cs, n as int),
            remainder as int == if nonzero_count(cs, i as int) < rem0 {
                rem0 - nonzero_count(cs, i as int)
            } else {
                0
            },
            paid as int == paid_upto(fee as int, rem0, cs, i as int),
            payouts_view(payouts@) == payouts_upto(fee as int, rem0, cs, i as int),
        decreases n - i,
    {
        proof {
            lemma_paid_within_fee(fee as int, cs, i as int + 1);
            lemma_paid_within_fee(fee as int, cs, i as int);
            lemma_weighted_sum_monotone(fee as int, cs, i as int, n as int);
        }
        let share = creators[i].share;
        if share != 0 {
            let bonus: u64 = if remainder > 0 { 1 } else { 0 };
            let amount = fee * (share as u64) / SHARE_DIVISOR + bonus;
            remainder = remainder - bonus;
            if amount > 0 {
                paid = paid + amount;
                let ghost before = payouts@;
                payouts.push(CreatorPayout { index: i, amount });
                proof {
                    assert(payouts_view(payouts@) =~= payouts_view(before).push(
                        (i as int, amount as int),
                    ));
                }
            }
        }
        i = i + 1;
    }
    Ok((payouts, paid))
}

/// Rebate amount, fee collector residue and target amount, once fees and
/// creator payouts are known.
fn compute_residue(
    amount: u64,
    maker_fee: u64,
    taker_fee: u64,
    total_fees: u64,
    creator_fee: u64,
    payouts: Vec<CreatorPayout>,
    paid: u64,
    buy_side_paid: bool,
) -> (r: Result<DistributionPlan, PaymentError>)
    requires
        total_fees <= u64::MAX / 2,
        paid <= u64::MAX / 2,
    ensures
        match settle_residue(
            amount as int,
            maker_fee as int,
            taker_fee as int,
            total_fees as int,
            creator_fee as int,
            payouts_view(payouts@),
            paid as int,
            buy_side_paid,
        ) {
            Ok(s) => r matches Ok(p) && plan_matches(p, s),
            Err(e) => r == Err::<DistributionPlan, PaymentError>(e),
        },
{
    let b = match amount.checked_mul(DEFAULT_BUY_SIDE_FEE_SHARE_BPS) {
        Some(b) => b,
        None => return Err(PaymentError::ArithmeticOverflow),
    };
    let buy_side_fee = b / BASIS_POINTS_DIVISOR;
    let with_rebate = total_fees + buy_side_fee;
    if paid > with_rebate {
        return Err(PaymentError::ArithmeticUnderflow);
    }
    let mut fee_collector_amount = with_rebate - paid;
    if buy_side_paid {
        if buy_side_fee > fee_collector_amount {
            return Err(PaymentError::ArithmeticUnderflow);
        }
        fee_collector_amount = fee_collector_amount - buy_side_fee;
    }
    let gross = match amount.checked_add(taker_fee) {
        Some(g) => g,
        None => return Err(PaymentError::ArithmeticOverflow),
    };
    if total_fees > gross || buy_side_fee > gross - total_fees {
        return Err(PaymentError::ArithmeticUnderflow);
    }
    Ok(
        DistributionPlan {
            maker_fee,
            taker_fee,
            total_fees,
            total_creator_fee: creator_fee,
            creator_payouts: payouts,
            buy_side_fee_amount: buy_side_fee,
            buy_side_paid,
            fee_collector_amount,
            target_amount: gross - total_fees - buy_side_fee,
        },
    )
}

/// Computes the distribution plan of a payment: maker and taker fees, the
/// creators' royalty when royalty terms are given, the buy-side rebate, the
/// fee collector's residue and the target's amount. `buy_side_paid` says
/// whether the rebate goes to its own recipient; otherwise it stays with the
/// fee collector. Any overflow or underflow abandons the whole plan.
pub fn compute_distribution(
    amount: u64,
    policy: &FeePolicy,
    royalty: Option<&RoyaltyInfo>,
    buy_side_paid: bool,
) -> (r: Result<DistributionPlan, PaymentError>)
    ensures
        match distribution(amount as int, *policy, royalty_view(royalty), buy_side_paid) {
            Ok(s) => r matches Ok(p) && plan_matches(p, s),
            Err(e) => r == Err::<DistributionPlan, PaymentError>(e),
        },
{
    let m = amount.checked_mul(policy.maker_fee_bps as u64);
    let t = amount.checked_mul(policy.taker_fee_bps as u64);
    let (m, t) = match (m, t) {
        (Some(m), Some(t)) => (m, t),
        _ => return Err(PaymentError::ArithmeticOverflow),
    };
    let maker_fee = m / BASIS_POINTS_DIVISOR;
    let taker_fee = t / BASIS_POINTS_DIVISOR;
    let base = maker_fee + taker_fee;
    match royalty {
        None => {
            let none: Vec<CreatorPayout> = Vec::new();
            assert(payouts_view(none@) =~= Seq::empty());
            compute_residue(amount, maker_fee, taker_fee, base, 0, none, 0, buy_side_paid)
        },
        Some(info) => {
            let s = if policy.include_seller_fee {
                amount.checked_mul(info.seller_fee_bps as u64)
            } else {
                Some(0)
            };
            let share: u16 = match policy.royalty_fee_share_bps {
                Some(share) => share,
                None => DEFAULT_ROYALTY_FEE_SHARE_BPS,
            };
            let w = base.checked_mul(share as u64);
            let (s, w) = match (s, w) {
                (Some(s), Some(w)) => (s, w),
                _ => return Err(PaymentError::ArithmeticOverflow),
            };
            let seller_fee = s / BASIS_POINTS_DIVISOR;
            let creator_fee = w / BASIS_POINTS_DIVISOR + seller_fee;
            let (payouts, paid) = match apportion_creators(creator_fee, &info.creators) {
                Ok(x) => x,
                Err(e) => return Err(e),
            };
            let ghost cs = info.creators@;
            assert(royalty_view(royalty) == Some((info.seller_fee_bps, cs)));
            assert(royalty_share(*policy) == share as int);
            proof {
                lemma_paid_within_fee(creator_fee as int, cs, cs.len() as int);
            }
            compute_residue(
                amount,
                maker_fee,
                taker_fee,
                base + seller_fee,
                creator_fee,
                payouts,
                paid,
                buy_side_paid,
            )
        },
    }
}

} // verus!
