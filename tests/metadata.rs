use payment_manager::metadata::plan_settlement_from_metadata;
use payment_manager::model::{FeePolicy, Identity, PaymentError, TokenAccountInfo};
use payment_manager::settlement::{Payee, TransferOrder};

fn id(b: u8) -> Identity {
    Identity { bytes: [b; 32] }
}

fn policy() -> FeePolicy {
    FeePolicy {
        maker_fee_bps: 50,
        taker_fee_bps: 100,
        royalty_fee_share_bps: Some(5000),
        include_seller_fee: true,
        fee_collector: id(9),
    }
}

fn borsh_string(out: &mut Vec<u8>, s: &str) {
    out.extend_from_slice(&(s.len() as u32).to_le_bytes());
    out.extend_from_slice(s.as_bytes());
}

/// The bytes of a metadata account for `mint`, with the given seller fee
/// and creators (address byte, share).
fn metadata_bytes(mint: u8, seller_fee_bps: u16, creators: Option<&[(u8, u8)]>) -> Vec<u8> {
    let mut out = vec![4u8];
    out.extend_from_slice(&[7u8; 32]);
    out.extend_from_slice(&[mint; 32]);
    borsh_string(&mut out, "Name");
    borsh_string(&mut out, "SYM");
    borsh_string(&mut out, "https://example.org/a.json");
    out.extend_from_slice(&seller_fee_bps.to_le_bytes());
    match creators {
        None => out.push(0),
        Some(cs) => {
            out.push(1);
            out.extend_from_slice(&(cs.len() as u32).to_le_bytes());
            for (addr, share) in cs {
                out.extend_from_slice(&[*addr; 32]);
                out.push(1);
                out.push(*share);
            }
        }
    }
    // primary sale, mutable, then the optional trailing fields, all absent
    out.extend_from_slice(&[0, 1, 0, 0, 0, 0, 0, 0]);
    out
}

fn account(holder: u8) -> Option<TokenAccountInfo> {
    Some(TokenAccountInfo { holder: id(holder), asset: id(200) })
}

#[test]
fn metadata_royalty_is_paid_to_creators() {
    let data = metadata_bytes(100, 500, Some(&[(1, 60), (2, 40)]));
    let cands = vec![account(1), account(2)];
    let s = plan_settlement_from_metadata(1_000_000, &policy(), &id(100), &id(200), Some(&data), &cands).unwrap();
    assert_eq!(s.plan.total_creator_fee, 57_500);
    assert_eq!(
        s.transfers[..2],
        [
            TransferOrder { payee: Payee::Creator { creator_index: 0, slot: 0 }, amount: 34_500 },
            TransferOrder { payee: Payee::Creator { creator_index: 1, slot: 1 }, amount: 23_000 },
        ]
    );
    assert_eq!(s.plan.fee_collector_amount, 17_500);
    assert_eq!(s.plan.target_amount, 935_000);
}

#[test]
fn metadata_without_creators_pays_no_creator() {
    let data = metadata_bytes(100, 500, None);
    let s = plan_settlement_from_metadata(1_000_000, &policy(), &id(100), &id(200), Some(&data), &vec![]).unwrap();
    assert!(s.plan.creator_payouts.is_empty());
    assert_eq!(s.plan.total_fees, 65_000);
    assert_eq!(s.plan.fee_collector_amount, 75_000);
}

#[test]
fn metadata_of_other_mint_is_refused() {
    let data = metadata_bytes(101, 500, None);
    let r = plan_settlement_from_metadata(1_000_000, &policy(), &id(100), &id(200), Some(&data), &vec![]);
    assert_eq!(r.unwrap_err(), PaymentError::InvalidMintMetadata);
}

#[test]
fn undecodable_metadata_is_refused() {
    let data = metadata_bytes(100, 500, None);
    let r = plan_settlement_from_metadata(1_000_000, &policy(), &id(100), &id(200), Some(&data[..40]), &vec![]);
    assert_eq!(r.unwrap_err(), PaymentError::InvalidMintMetadata);
}

#[test]
fn absent_metadata_means_no_royalty() {
    let s = plan_settlement_from_metadata(1_000_000, &policy(), &id(100), &id(200), None, &vec![]).unwrap();
    assert_eq!(s.plan.total_creator_fee, 0);
    assert_eq!(s.plan.fee_collector_amount, 25_000);
}
