//! Royalty terms read from a token metadata account.
use vstd::prelude::*;

use crate::model::{
    Creator, FeePolicy, Identity, PaymentError, RoyaltyInfo, RoyaltyRecord, TokenAccountInfo,
};
use crate::settlement::{plan_settlement, record_view, settled_as, settlement, Settlement};

verus! {

/// Mint, seller fee and creators (address, share) of the metadata account
/// whose data is `data`, or `None` where the data does not decode.
pub uninterp spec fn decoded_royalty(data: Seq<u8>) -> Option<(Seq<u8>, u16, Seq<(Seq<u8>, u8)>)>;

/// A royalty record as plain values, in the shape of `decoded_royalty`.
pub open spec fn record_model(r: RoyaltyRecord) -> (Seq<u8>, u16, Seq<(Seq<u8>, u8)>) {
    (
        r.asset.bytes@,
        r.royalty.seller_fee_bps,
        r.royalty.creators@.map_values(|c: Creator| (c.address.bytes@, c.share)),
    )
}

/// Relies on mpl_token_metadata's `Metadata::from_bytes`, the Borsh decoding
/// of a metadata account: its mint, seller fee and creator list are kept,
/// an absent creator list read as an empty one.
#[verifier::external_body]
fn decode_metadata(data: &[u8]) -> (r: Option<RoyaltyRecord>)
    ensures
        match r {
            Some(rec) => decoded_royalty(data@) == Some(record_model(rec)),
            None => decoded_royalty(data@) is None,
        },
{
    let m = mpl_token_metadata::accounts::Metadata::from_bytes(data).ok()?;
    let creators = m.creators.unwrap_or_default().iter().map(
        |c| Creator { address: Identity { bytes: c.address.to_bytes() }, share: c.share },
    ).collect();
    Some(RoyaltyRecord {
        asset: Identity { bytes: m.mint.to_bytes() },
        royalty: RoyaltyInfo { seller_fee_bps: m.seller_fee_basis_points, creators },
    })
}

/// Settles a payment whose royalty terms, if any, are the data of the asset's
/// metadata account (`None` where that account is empty). Data that does not
/// decode abandons the settlement as invalid metadata; otherwise the outcome
/// is that of `plan_settlement` on the decoded record.
pub fn plan_settlement_from_metadata(
    amount: u64,
    policy: &FeePolicy,
    paid_asset: &Identity,
    payment_asset: &Identity,
    metadata: Option<&[u8]>,
    candidates: &Vec<Option<TokenAccountInfo>>,
) -> (r: Result<Settlement, PaymentError>)
    ensures
        match metadata {
            None => settled_as(
                r,
                settlement(amount as int, *policy, *paid_asset, *payment_asset, None, candidates@),
            ),
            Some(data) => match decoded_royalty(data@) {
                None => r == Err::<Settlement, PaymentError>(PaymentError::InvalidMintMetadata),
                Some(m) => exists|rec: RoyaltyRecord|
                    #[trigger] record_model(rec) == m && settled_as(
                        r,
                        settlement(
                            amount as int,
                            *policy,
                            *paid_asset,
                            *payment_asset,
                            record_view(Some(&rec)),
                            candidates@,
                        ),
                    ),
            },
        },
{
    match metadata {
        None => plan_settlement(amount, policy, paid_asset, payment_asset, None, candidates),
        Some(data) => match decode_metadata(data) {
            None => Err(PaymentError::InvalidMintMetadata),
            Some(rec) => {
                let r = plan_settlement(amount, policy, paid_asset, payment_asset, Some(&rec), candidates);
                assert(record_model(rec) == decoded_royalty(data@)->Some_0);
                r
            },
        },
    }
}

} // verus!
