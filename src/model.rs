//! The values a settlement works on.
use vstd::prelude::*;

verus! {

/// A ledger identity (an account holder or an asset identifier).
#[derive(Clone, Copy, Debug)]
pub struct Identity {
    pub bytes: [u8; 32],
}

impl Identity {
    /// Whether two identities are the same, byte for byte.
    pub fn same_as(&self, other: &Identity) -> (r: bool)
        ensures
            r == (self.bytes@ == other.bytes@),
    {
        let mut i: usize = 0;
        while i < 32
            invariant
                i <= 32,
                self.bytes@.len() == 32,
                other.bytes@.len() == 32,
                forall|j: int| 0 <= j < i ==> self.bytes@[j] == other.bytes@[j],
            decreases 32 - i,
        {
            if self.bytes[i] != other.bytes[i] {
                return false;
            }
            i = i + 1;
        }
        assert(self.bytes@ =~= other.bytes@);
        true
    }
}

/// Marketplace configuration in force for one settlement.
#[derive(Clone, Copy, Debug)]
pub struct FeePolicy {
    pub maker_fee_bps: u16,
    pub taker_fee_bps: u16,
    /// Share of the marketplace fees that goes to creators; the protocol
    /// default applies when it is `None`.
    pub royalty_fee_share_bps: Option<u16>,
    pub include_seller_fee: bool,
    pub fee_collector: Identity,
}

/// One royalty-entitled creator and its whole-percentage share.
#[derive(Clone, Copy, Debug)]
pub struct Creator {
    pub address: Identity,
    pub share: u8,
}

/// Royalty terms of the asset being paid for.
#[derive(Clone, Debug)]
pub struct RoyaltyInfo {
    pub seller_fee_bps: u16,
    pub creators: Vec<Creator>,
}

/// The royalty record as read for an asset: the asset it claims to belong to
/// and its terms.
#[derive(Clone, Debug)]
pub struct RoyaltyRecord {
    pub asset: Identity,
    pub royalty: RoyaltyInfo,
}

/// A token account offered as a recipient: who holds it and which asset it
/// holds.
#[derive(Clone, Copy, Debug)]
pub struct TokenAccountInfo {
    pub holder: Identity,
    pub asset: Identity,
}

/// The amount owed to the creator at `index` of the royalty creator list.
#[derive(Clone, Copy, Debug)]
pub struct CreatorPayout {
    pub index: usize,
    pub amount: u64,
}

/// The itemised outcome of the distribution engine.
#[derive(Clone, Debug)]
pub struct DistributionPlan {
    pub maker_fee: u64,
    pub taker_fee: u64,
    /// Marketplace fees plus the seller fee, when royalties apply.
    pub total_fees: u64,
    pub total_creator_fee: u64,
    pub creator_payouts: Vec<CreatorPayout>,
    /// The rebate amount, whether or not it is paid.
    pub buy_side_fee_amount: u64,
    pub buy_side_paid: bool,
    pub fee_collector_amount: u64,
    pub target_amount: u64,
}

/// Why a settlement is abandoned.
#[derive(Clone, Copy, Debug, PartialEq, Eq, Structural)]
pub enum PaymentError {
    ArithmeticOverflow,
    ArithmeticUnderflow,
    InvalidRecipient,
    MissingRecipient,
    InvalidMintMetadata,
    InvalidMintMetadataOwner,
}

} // verus!
