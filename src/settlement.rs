//! The settlement executor's decisions: which recipient candidate serves
//! which creator, whether the buy-side rebate is paid, and the ordered list
//! of transfers that carries out a plan.
use vstd::prelude::*;

use crate::engine::{
    compute_distribution, distribution, nonzero_count, plan_matches, royalty_view, PlanSpec,
};
use crate::guarantees::lemma_payout_entries;
use crate::model::{
    Creator, DistributionPlan, FeePolicy, Identity, PaymentError, RoyaltyInfo, RoyaltyRecord,
    TokenAccountInfo,
};

verus! {

/// Who a transfer goes to. A `slot` is a position in the list of recipient
/// candidates supplied with the payment.
#[derive(Clone, Copy, Debug, PartialEq, Eq, Structural)]
pub enum Payee {
    Creator { creator_index: usize, slot: usize },
    BuySide { slot: usize },
    FeeCollector,
    Target,
}

/// One value transfer from the payer.
#[derive(Clone, Copy, Debug, PartialEq, Eq, Structural)]
pub struct TransferOrder {
    pub payee: Payee,
    pub amount: u64,
}

/// A computed plan and the transfers that carry it out, in order.
#[derive(Clone, Debug)]
pub struct Settlement {
    pub plan: DistributionPlan,
    pub transfers: Vec<TransferOrder>,
}

pub open spec fn same_identity(a: Identity, b: Identity) -> bool {
    a.bytes@ == b.bytes@
}

/// Whether a candidate account can receive a payment in `asset` on behalf of
/// `holder`.
pub open spec fn recipient_fits(c: Option<TokenAccountInfo>, holder: Identity, asset: Identity) -> bool {
    match c {
        Some(a) => same_identity(a.holder, holder) && same_identity(a.asset, asset),
        None => false,
    }
}

/// Why creator `i` cannot be paid, if it cannot. Creators with a zero share
/// need no recipient; the others take the candidates in turn.
pub open spec fn creator_recipient_error(
    cs: Seq<Creator>,
    cands: Seq<Option<TokenAccountInfo>>,
    asset: Identity,
    i: int,
) -> Option<PaymentError> {
    let slot = nonzero_count(cs, i);
    if cs[i].share == 0 {
        None
    } else if slot >= cands.len() {
        Some(PaymentError::MissingRecipient)
    } else if !recipient_fits(cands[slot], cs[i].address, asset) {
        Some(PaymentError::InvalidRecipient)
    } else {
        None
    }
}

/// The first recipient failure among the first `n` creators.
pub open spec fn first_recipient_error(
    cs: Seq<Creator>,
    cands: Seq<Option<TokenAccountInfo>>,
    asset: Identity,
    n: int,
) -> Option<PaymentError>
    decreases n,
{
    if n <= 0 {
        None
    } else {
        match first_recipient_error(cs, cands, asset, n - 1) {
            Some(e) => Some(e),
            None => creator_recipient_error(cs, cands, asset, n - 1),
        }
    }
}

/// Whether the rebate candidate at `slot` is present and holds `asset`.
pub open spec fn rebate_accepted(cands: Seq<Option<TokenAccountInfo>>, slot: int, asset: Identity) -> bool {
    &&& 0 <= slot < cands.len()
    &&& cands[slot] is Some
    &&& same_identity(cands[slot]->Some_0.asset, asset)
}

pub open spec fn creator_order(cs: Seq<Creator>, e: (int, int)) -> TransferOrder {
    TransferOrder {
        payee: Payee::Creator { creator_index: e.0 as usize, slot: nonzero_count(cs, e.0) as usize },
        amount: e.1 as u64,
    }
}

pub open spec fn optional_order(present: bool, payee: Payee, amount: int) -> Seq<TransferOrder> {
    if present {
        seq![TransferOrder { payee, amount: amount as u64 }]
    } else {
        Seq::empty()
    }
}

/// The transfers of a plan: creators in list order, then the rebate, the
/// fee collector and the target, each left out when its amount is zero.
pub open spec fn transfer_orders(p: PlanSpec, cs: Seq<Creator>, rebate_slot: int) -> Seq<TransferOrder> {
    p.payouts.map_values(|e: (int, int)| creator_order(cs, e))
        + optional_order(
        p.buy_side_paid && p.buy_side_fee > 0,
        Payee::BuySide { slot: rebate_slot as usize },
        p.buy_side_fee,
    ) + optional_order(p.fee_collector > 0, Payee::FeeCollector, p.fee_collector)
        + optional_order(p.target > 0, Payee::Target, p.target)
}

/// The royalty record as mathematical values: asset, seller fee, creators.
pub open spec fn record_view(record: Option<&RoyaltyRecord>) -> Option<(Identity, u16, Seq<Creator>)> {
    match record {
        Some(r) => Some((r.asset, r.royalty.seller_fee_bps, r.royalty.creators@)),
        None => None,
    }
}

/// The outcome of a settlement: the plan and its transfers, or the failure
/// that abandons it.
pub open spec fn settlement(
    amount: int,
    policy: FeePolicy,
    paid_asset: Identity,
    payment_asset: Identity,
    record: Option<(Identity, u16, Seq<Creator>)>,
    cands: Seq<Option<TokenAccountInfo>>,
) -> Result<(PlanSpec, Seq<TransferOrder>), PaymentError> {
    let cs = match record {
        Some((_, _, cs)) => cs,
        None => Seq::empty(),
    };
    let royalty = match record {
        Some((_, b, cs)) => Some((b, cs)),
        None => None,
    };
    let rebate_slot = nonzero_count(cs, cs.len() as int);
    if record is Some && !same_identity(record->Some_0.0, paid_asset) {
        Err(PaymentError::InvalidMintMetadata)
    } else if first_recipient_error(cs, cands, payment_asset, cs.len() as int) is Some {
        Err(first_recipient_error(cs, cands, payment_asset, cs.len() as int)->Some_0)
    } else {
        match distribution(amount, policy, royalty, rebate_accepted(cands, rebate_slot, payment_asset)) {
            Ok(p) => Ok((p, transfer_orders(p, cs, rebate_slot))),
            Err(e) => Err(e),
        }
    }
}

/// Whether an executable settlement result is the given outcome.
pub open spec fn settled_as(
    r: Result<Settlement, PaymentError>,
    o: Result<(PlanSpec, Seq<TransferOrder>), PaymentError>,
) -> bool {
    match o {
        Ok((p, t)) => r matches Ok(st) && plan_matches(st.plan, p) && st.transfers@ == t,
        Err(e) => r == Err::<Settlement, PaymentError>(e),
    }
}

/// Once a recipient failure is found, later creators do not change it.
proof fn lemma_first_error_sticks(
    cs: Seq<Creator>,
    cands: Seq<Option<TokenAccountInfo>>,
    asset: Identity,
    n: int,
    m: int,
)
    requires
        0 <= n <= m,
        first_recipient_error(cs, cands, asset, n) is Some,
    ensures
        first_recipient_error(cs, cands, asset, m) == first_recipient_error(cs, cands, asset, n),
    decreases m,
{
    if n < m {
        lemma_first_error_sticks(cs, cands, asset, n, m - 1);
    }
}

/// Matches the creators with a nonzero share, in list order, to the
/// candidates in turn. On success returns each creator's slot (the number of
/// creators with a nonzero share before it) and the slot after the last one
/// used, where a rebate candidate may follow.
pub fn resolve_creator_recipients(
    creators: &Vec<Creator>,
    candidates: &Vec<Option<TokenAccountInfo>>,
    payment_asset: &Identity,
) -> (r: Result<(Vec<usize>, usize), PaymentError>)
    ensures
        match first_recipient_error(creators@, candidates@, *payment_asset, creators@.len() as int) {
            Some(e) => r == Err::<(Vec<usize>, usize), PaymentError>(e),
            None => r matches Ok((slots, next)) && slots@.len() == creators@.len() && next as int
                == nonzero_count(creators@, creators@.len() as int) && forall|i: int|
                0 <= i < slots@.len() ==> #[trigger] slots@[i] as int == nonzero_count(creators@, i),
        },
{
    let ghost cs = creators@;
    let mut slots: Vec<usize> = Vec::new();
    let mut slot: usize = 0;
    let mut i: usize = 0;
    while i < creators.len()
        invariant
            cs == creators@,
            i <= cs.len(),
            slot as int == nonzero_count(cs, i as int),
            slot <= i,
            first_recipient_error(cs, candidates@, *payment_asset, i as int) is None,
            slots@.len() == i,
            forall|j: int| 0 <= j < i ==> #[trigger] slots@[j] as int == nonzero_count(cs, j),
        ensures
            i == cs.len(),
        decreases cs.len() - i,
    {
        proof {
            crate::engine::lemma_nonzero_count_bounds(cs, i as int);
        }
        slots.push(slot);
        let c = &creators[i];
        if c.share != 0 {
            if slot >= candidates.len() {
                proof {
                    lemma_first_error_sticks(cs, candidates@, *payment_asset, i as int + 1, cs.len() as int);
                }
                return Err(PaymentError::MissingRecipient);
            }
            let fits = match &candidates[slot] {
                Some(a) => a.holder.same_as(&c.address) && a.asset.same_as(payment_asset),
                None => false,
            };
            if !fits {
                proof {
                    lemma_first_error_sticks(cs, candidates@, *payment_asset, i as int + 1, cs.len() as int);
                }
                return Err(PaymentError::InvalidRecipient);
            }
            slot = slot + 1;
        }
        i = i + 1;
    }
    Ok((slots, slot))
}

/// Whether the rebate candidate at `slot` was supplied and holds the payment
/// asset.
pub fn rebate_recipient_accepted(
    candidates: &Vec<Option<TokenAccountInfo>>,
    slot: usize,
    payment_asset: &Identity,
) -> (r: bool)
    ensures
        r == rebate_accepted(candidates@, slot as int, *payment_asset),
{
    if slot < candidates.len() {
        match &candidates[slot] {
            Some(a) => a.asset.same_as(payment_asset),
            None => false,
        }
    } else {
        false
    }
}

/// Lays out the transfers of a plan in their fixed order.
fn order_transfers(
    plan: &DistributionPlan,
    slots: &Vec<usize>,
    rebate_slot: usize,
    Ghost(cs): Ghost<Seq<Creator>>,
    Ghost(s): Ghost<PlanSpec>,
) -> (r: Vec<TransferOrder>)
    requires
        plan_matches(*plan, s),
        slots@.len() == cs.len(),
        forall|i: int| 0 <= i < slots@.len() ==> #[trigger] slots@[i] as int == nonzero_count(cs, i),
        forall|k: int|
            #![trigger s.payouts[k]]
            0 <= k < s.payouts.len() ==> 0 <= s.payouts[k].0 < cs.len(),
    ensures
        r@ == transfer_orders(s, cs, rebate_slot as int),
{
    let ghost pv = s.payouts;
    let mut out: Vec<TransferOrder> = Vec::new();
    let mut k: usize = 0;
    let n = plan.creator_payouts.len();
    assert(pv.len() == n);
    while k < n
        invariant
            n == plan.creator_payouts@.len(),
            pv == crate::engine::payouts_view(plan.creator_payouts@),
            pv.len() == n,
            k <= n,
            slots@.len() == cs.len(),
            forall|i: int| 0 <= i < slots@.len() ==> #[trigger] slots@[i] as int == nonzero_count(cs, i),
            forall|j: int|
                #![trigger pv[j]]
                0 <= j < pv.len() ==> 0 <= pv[j].0 < cs.len(),
            out@ =~= pv.take(k as int).map_values(|e: (int, int)| creator_order(cs, e)),
        decreases n - k,
    {
        let p = plan.creator_payouts[k];
        assert(pv[k as int] == (p.index as int, p.amount as int));
        let slot = slots[p.index];
        out.push(TransferOrder { payee: Payee::Creator { creator_index: p.index, slot }, amount: p.amount });
        assert(pv.take(k as int + 1) =~= pv.take(k as int).push(pv[k as int]));
        k = k + 1;
    }
    assert(pv.take(n as int) =~= pv);
    let ghost creators_part = out@;
    if plan.buy_side_paid && plan.buy_side_fee_amount > 0 {
        out.push(TransferOrder { payee: Payee::BuySide { slot: rebate_slot }, amount: plan.buy_side_fee_amount });
    }
    let ghost rebate_part = out@;
    if plan.fee_collector_amount > 0 {
        out.push(TransferOrder { payee: Payee::FeeCollector, amount: plan.fee_collector_amount });
    }
    let ghost collector_part = out@;
    if plan.target_amount > 0 {
        out.push(TransferOrder { payee: Payee::Target, amount: plan.target_amount });
    }
    proof {
        let a = optional_order(s.buy_side_paid && s.buy_side_fee > 0, Payee::BuySide { slot: rebate_slot }, s.buy_side_fee);
        let b = optional_order(s.fee_collector > 0, Payee::FeeCollector, s.fee_collector);
        let c = optional_order(s.target > 0, Payee::Target, s.target);
        assert(rebate_part =~= creators_part + a);
        assert(collector_part =~= creators_part + a + b);
        assert(out@ =~= creators_part + a + b + c);
    }
    out
}

/// Settles a payment: checks that the royalty record belongs to the asset
/// paid for, matches the creators to their recipient candidates, decides
/// whether the rebate candidate that follows them is accepted, computes the
/// distribution plan and lays out its transfers. The candidate list holds,
/// for each supplied account, its holder and asset, or `None` where the
/// account is no token account.
pub fn plan_settlement(
    amount: u64,
    policy: &FeePolicy,
    paid_asset: &Identity,
    payment_asset: &Identity,
    record: Option<&RoyaltyRecord>,
    candidates: &Vec<Option<TokenAccountInfo>>,
) -> (r: Result<Settlement, PaymentError>)
    ensures
        settled_as(
            r,
            settlement(amount as int, *policy, *paid_asset, *payment_asset, record_view(record), candidates@),
        ),
{
    let no_creators: Vec<Creator> = Vec::new();
    let (creators, royalty): (&Vec<Creator>, Option<&RoyaltyInfo>) = match record {
        Some(rec) => {
            if !rec.asset.same_as(paid_asset) {
                return Err(PaymentError::InvalidMintMetadata);
            }
            (&rec.royalty.creators, Some(&rec.royalty))
        },
        None => (&no_creators, None),
    };
    let ghost cs = creators@;
    assert(cs =~= match record_view(record) {
        Some((_, _, cs)) => cs,
        None => Seq::<Creator>::empty(),
    });
    let (slots, rebate_slot) = match resolve_creator_recipients(creators, candidates, payment_asset) {
        Ok(x) => x,
        Err(e) => return Err(e),
    };
    let rebate = rebate_recipient_accepted(candidates, rebate_slot, payment_asset);
    let plan = match compute_distribution(amount, policy, royalty, rebate) {
        Ok(p) => p,
        Err(e) => return Err(e),
    };
    let ghost s = distribution(amount as int, *policy, royalty_view(royalty), rebate)->Ok_0;
    proof {
        if royalty is Some {
            let rem = crate::engine::creator_remainder(s.total_creator_fee, cs);
            lemma_payout_entries(s.total_creator_fee, rem, cs, cs.len() as int);
        }
    }
    let transfers = order_transfers(&plan, &slots, rebate_slot, Ghost(cs), Ghost(s));
    Ok(Settlement { plan, transfers })
}

/// Zero-share creators take no recipient slot: such a creator needs no
/// candidate, and the creator after it is served by the same slot it would
/// have had without it.
pub proof fn law_zero_share_takes_no_slot(
    cs: Seq<Creator>,
    cands: Seq<Option<TokenAccountInfo>>,
    asset: Identity,
    i: int,
)
    requires
        0 <= i < cs.len(),
        cs[i].share == 0,
    ensures
        creator_recipient_error(cs, cands, asset, i) is None,
        nonzero_count(cs, i + 1) == nonzero_count(cs, i),
{
}

/// The sum of the amounts of a list of transfers.
pub open spec fn orders_total(t: Seq<TransferOrder>) -> int
    decreases t.len(),
{
    if t.len() == 0 {
        0
    } else {
        orders_total(t.drop_last()) + t.last().amount
    }
}

proof fn lemma_orders_total_concat(a: Seq<TransferOrder>, b: Seq<TransferOrder>)
    ensures
        orders_total(a + b) == orders_total(a) + orders_total(b),
    decreases b.len(),
{
    if b.len() == 0 {
        assert(a + b =~= a);
    } else {
        lemma_orders_total_concat(a, b.drop_last());
        assert((a + b).drop_last() =~= a + b.drop_last());
    }
}

proof fn lemma_creator_orders_total(cs: Seq<Creator>, s: Seq<(int, int)>)
    requires
        forall|k: int| 0 <= k < s.len() ==> 0 <= #[trigger] s[k].1 <= u64::MAX,
    ensures
        orders_total(s.map_values(|e: (int, int)| creator_order(cs, e)))
            == crate::engine::payout_total(s),
    decreases s.len(),
{
    if s.len() > 0 {
        let f = |e: (int, int)| creator_order(cs, e);
        let t = s.drop_last();
        assert forall|k: int| 0 <= k < t.len() implies 0 <= #[trigger] t[k].1 <= u64::MAX by {
            assert(t[k] == s[k]);
        }
        lemma_creator_orders_total(cs, t);
        assert(s.map_values(f).drop_last() =~= t.map_values(f));
        assert(s[s.len() - 1].1 <= u64::MAX);
    }
}

/// Conservation of the transfers: whenever a settlement succeeds, the
/// amounts of its transfers add up to exactly the payment amount plus the
/// taker fee.
pub proof fn law_transfers_conserve(
    amount: u64,
    policy: FeePolicy,
    paid_asset: Identity,
    payment_asset: Identity,
    record: Option<(Identity, u16, Seq<Creator>)>,
    cands: Seq<Option<TokenAccountInfo>>,
)
    requires
        settlement(amount as int, policy, paid_asset, payment_asset, record, cands) is Ok,
    ensures
        ({
            let (p, t) = settlement(amount as int, policy, paid_asset, payment_asset, record, cands)->Ok_0;
            orders_total(t) == amount + p.taker_fee
        }),
{
    let cs = match record {
        Some((_, _, cs)) => cs,
        None => Seq::empty(),
    };
    let royalty = match record {
        Some((_, b, cs)) => Some((b, cs)),
        None => None,
    };
    let slot = nonzero_count(cs, cs.len() as int);
    let paid = rebate_accepted(cands, slot, payment_asset);
    let p = distribution(amount as int, policy, royalty, paid)->Ok_0;
    crate::guarantees::law_conservation(amount, policy, royalty, paid);
    if royalty is Some {
        let fee = p.total_creator_fee;
        let rem = crate::engine::creator_remainder(fee, cs);
        lemma_payout_entries(fee, rem, cs, cs.len() as int);
        crate::engine::lemma_paid_within_fee(fee, cs, cs.len() as int);
        assert forall|k: int| 0 <= k < p.payouts.len() implies 0 <= #[trigger] p.payouts[k].1 <= u64::MAX by {
            crate::engine::lemma_payout_within_paid(fee, rem, cs, p.payouts[k].0, cs.len() as int);
        }
    }
    assert(0 <= p.buy_side_fee <= amount);
    assert(0 <= p.total_fees <= u64::MAX / 2);
    assert(0 <= p.fee_collector <= u64::MAX);
    let c = p.payouts.map_values(|e: (int, int)| creator_order(cs, e));
    let a = optional_order(p.buy_side_paid && p.buy_side_fee > 0, Payee::BuySide { slot: slot as usize }, p.buy_side_fee);
    let b = optional_order(p.fee_collector > 0, Payee::FeeCollector, p.fee_collector);
    let d = optional_order(p.target > 0, Payee::Target, p.target);
    lemma_creator_orders_total(cs, p.payouts);
    lemma_orders_total_concat(c, a);
    lemma_orders_total_concat(c + a, b);
    lemma_orders_total_concat(c + a + b, d);
    assert(orders_total(a) == if p.buy_side_paid && p.buy_side_fee > 0 { p.buy_side_fee } else { 0 }) by {
        assert(orders_total(Seq::<TransferOrder>::empty()) == 0);
        if p.buy_side_paid && p.buy_side_fee > 0 {
            assert(a.drop_last() =~= Seq::<TransferOrder>::empty());
            assert(a.last().amount == p.buy_side_fee);
        }
    }
    assert(orders_total(b) == if p.fee_collector > 0 { p.fee_collector } else { 0 }) by {
        assert(orders_total(Seq::<TransferOrder>::empty()) == 0);
        if p.fee_collector > 0 {
            assert(b.drop_last() =~= Seq::<TransferOrder>::empty());
            assert(b.last().amount == p.fee_collector);
        }
    }
    assert(orders_total(d) == if p.target > 0 { p.target } else { 0 }) by {
        assert(orders_total(Seq::<TransferOrder>::empty()) == 0);
        if p.target > 0 {
            assert(d.drop_last() =~= Seq::<TransferOrder>::empty());
            assert(d.last().amount == p.target);
        }
    }
}

} // verus!
