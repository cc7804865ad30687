use payment_manager::engine::compute_distribution;
use payment_manager::model::{Creator, DistributionPlan, FeePolicy, Identity, PaymentError, RoyaltyInfo};

fn id(b: u8) -> Identity {
    Identity { bytes: [b; 32] }
}

fn policy(maker: u16, taker: u16, share: Option<u16>, include_seller_fee: bool) -> FeePolicy {
    FeePolicy {
        maker_fee_bps: maker,
        taker_fee_bps: taker,
        royalty_fee_share_bps: share,
        include_seller_fee,
        fee_collector: id(9),
    }
}

fn outflow(p: &DistributionPlan) -> u128 {
    let creators: u128 = p.creator_payouts.iter().map(|c| c.amount as u128).sum();
    let rebate = if p.buy_side_paid { p.buy_side_fee_amount as u128 } else { 0 };
    creators + rebate + p.fee_collector_amount as u128 + p.target_amount as u128
}

#[test]
fn scenario_without_royalty() {
    let p = compute_distribution(1_000_000, &policy(50, 100, None, false), None, false).unwrap();
    assert_eq!(p.maker_fee, 5_000);
    assert_eq!(p.taker_fee, 10_000);
    assert_eq!(p.total_fees, 15_000);
    assert_eq!(p.total_creator_fee, 0);
    assert!(p.creator_payouts.is_empty());
    assert_eq!(p.buy_side_fee_amount, 10_000);
    assert_eq!(p.fee_collector_amount, 25_000);
    assert_eq!(p.target_amount, 985_000);
    assert_eq!(outflow(&p), 1_010_000);
}

#[test]
fn scenario_with_royalty() {
    let royalty = RoyaltyInfo {
        seller_fee_bps: 500,
        creators: vec![Creator { address: id(1), share: 60 }, Creator { address: id(2), share: 40 }],
    };
    let p = compute_distribution(1_000_000, &policy(50, 100, Some(5000), true), Some(&royalty), false).unwrap();
    assert_eq!(p.total_creator_fee, 57_500);
    assert_eq!(p.total_fees, 65_000);
    assert_eq!(p.creator_payouts.len(), 2);
    assert_eq!((p.creator_payouts[0].index, p.creator_payouts[0].amount), (0, 34_500));
    assert_eq!((p.creator_payouts[1].index, p.creator_payouts[1].amount), (1, 23_000));
    assert_eq!(p.fee_collector_amount, 17_500);
    assert_eq!(p.target_amount, 935_000);
    assert_eq!(outflow(&p), 1_010_000);
}

#[test]
fn royalty_share_above_whole_underflows() {
    let royalty = RoyaltyInfo { seller_fee_bps: 0, creators: vec![Creator { address: id(1), share: 100 }] };
    let r = compute_distribution(10_000, &policy(10_000, 0, Some(30_000), false), Some(&royalty), false);
    assert_eq!(r.unwrap_err(), PaymentError::ArithmeticUnderflow);
}

#[test]
fn conservation_with_rebate_paid() {
    let royalty = RoyaltyInfo {
        seller_fee_bps: 750,
        creators: vec![
            Creator { address: id(1), share: 33 },
            Creator { address: id(2), share: 0 },
            Creator { address: id(3), share: 67 },
        ],
    };
    let p = compute_distribution(123_457, &policy(37, 211, Some(4_321), true), Some(&royalty), true).unwrap();
    assert!(p.buy_side_paid);
    assert_eq!(outflow(&p), 123_457 + p.taker_fee as u128);
}

#[test]
fn remainder_goes_to_first_creators() {
    let royalty = RoyaltyInfo {
        seller_fee_bps: 0,
        creators: vec![Creator { address: id(1), share: 50 }, Creator { address: id(2), share: 49 }],
    };
    let p = compute_distribution(10_000, &policy(100, 0, Some(10_000), false), Some(&royalty), false).unwrap();
    assert_eq!(p.total_creator_fee, 100);
    assert_eq!(p.creator_payouts[0].amount, 51);
    assert_eq!(p.creator_payouts[1].amount, 49);
    assert_eq!(p.buy_side_fee_amount, 100);
    assert_eq!(p.fee_collector_amount, 100);
    assert_eq!(p.target_amount, 9_800);
    assert_eq!(outflow(&p), 10_000);
}

#[test]
fn zero_share_creator_is_not_paid() {
    let royalty = RoyaltyInfo {
        seller_fee_bps: 1_000,
        creators: vec![Creator { address: id(1), share: 0 }, Creator { address: id(2), share: 100 }],
    };
    let p = compute_distribution(50_000, &policy(0, 0, None, true), Some(&royalty), false).unwrap();
    assert_eq!(p.creator_payouts.len(), 1);
    assert_eq!(p.creator_payouts[0].index, 1);
    assert_eq!(p.creator_payouts[0].amount, 5_000);
}

#[test]
fn rebate_not_paid_stays_with_fee_collector() {
    let pol = policy(50, 100, None, false);
    let paid = compute_distribution(1_000_000, &pol, None, true).unwrap();
    let kept = compute_distribution(1_000_000, &pol, None, false).unwrap();
    assert_eq!(paid.fee_collector_amount, 15_000);
    assert_eq!(kept.fee_collector_amount, paid.fee_collector_amount + paid.buy_side_fee_amount);
    assert_eq!(kept.target_amount, paid.target_amount);
}

#[test]
fn default_royalty_share_applies() {
    let royalty = RoyaltyInfo { seller_fee_bps: 0, creators: vec![Creator { address: id(1), share: 100 }] };
    let p = compute_distribution(1_000_000, &policy(50, 100, None, true), Some(&royalty), false).unwrap();
    assert_eq!(p.total_creator_fee, 7_500);
    assert_eq!(p.creator_payouts[0].amount, 7_500);
}

#[test]
fn seller_fee_left_out_when_not_included() {
    let royalty = RoyaltyInfo { seller_fee_bps: 500, creators: vec![Creator { address: id(1), share: 100 }] };
    let p = compute_distribution(1_000_000, &policy(50, 100, Some(5000), false), Some(&royalty), false).unwrap();
    assert_eq!(p.total_creator_fee, 7_500);
    assert_eq!(p.total_fees, 15_000);
}

#[test]
fn royalty_without_creators_keeps_seller_fee_with_collector() {
    let royalty = RoyaltyInfo { seller_fee_bps: 500, creators: vec![] };
    let p = compute_distribution(1_000_000, &policy(50, 100, Some(5000), true), Some(&royalty), false).unwrap();
    assert!(p.creator_payouts.is_empty());
    assert_eq!(p.fee_collector_amount, 75_000);
    assert_eq!(p.target_amount, 935_000);
}

#[test]
fn maker_fee_overflow() {
    let r = compute_distribution(u64::MAX, &policy(2, 0, None, false), None, false);
    assert_eq!(r.unwrap_err(), PaymentError::ArithmeticOverflow);
}

#[test]
fn rebate_overflow() {
    let r = compute_distribution(u64::MAX / 50, &policy(0, 0, None, false), None, false);
    assert_eq!(r.unwrap_err(), PaymentError::ArithmeticOverflow);
}

#[test]
fn creator_weights_overflow() {
    let creators = (0..40).map(|i| Creator { address: id(i), share: 255 }).collect();
    let royalty = RoyaltyInfo { seller_fee_bps: 10_000, creators };
    let r = compute_distribution(u64::MAX / 10_000, &policy(0, 0, None, true), Some(&royalty), false);
    assert_eq!(r.unwrap_err(), PaymentError::ArithmeticOverflow);
}

#[test]
fn shares_above_whole_underflow() {
    let royalty = RoyaltyInfo {
        seller_fee_bps: 1_000,
        creators: vec![Creator { address: id(1), share: 100 }, Creator { address: id(2), share: 100 }],
    };
    let r = compute_distribution(10_000, &policy(0, 0, None, true), Some(&royalty), false);
    assert_eq!(r.unwrap_err(), PaymentError::ArithmeticUnderflow);
}

#[test]
fn zero_amount_pays_nothing() {
    let p = compute_distribution(0, &policy(50, 100, None, false), None, false).unwrap();
    assert_eq!(outflow(&p), 0);
}

#[test]
fn identities_compare_by_bytes() {
    let mut b = [7u8; 32];
    assert!(id(7).same_as(&Identity { bytes: b }));
    b[31] = 8;
    assert!(!id(7).same_as(&Identity { bytes: b }));
}
