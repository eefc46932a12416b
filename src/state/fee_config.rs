use vstd::prelude::*;

use crate::pubkey::Pubkey;

verus! {

/// The fee schedule of one token: its fee, split three ways.
#[derive(Clone, Copy, Debug)]
pub struct FeeConfig {
    /// Treasury wallet address.
    pub treasury: Pubkey,
    /// Staking wallet address.
    pub staking: Pubkey,
    /// Marketing wallet address.
    pub marketing: Pubkey,
    /// Treasury share, in basis points.
    pub treasury_bps: u16,
    /// Staking share, in basis points.
    pub staking_bps: u16,
    /// Marketing share, in basis points.
    pub marketing_bps: u16,
    /// The whole token fee, in basis points: the sum of the three shares.
    pub total_fee_bps: u16,
    /// The authority who may update this schedule.
    pub authority: Pubkey,
    /// The mint this schedule belongs to.
    pub mint: Pubkey,
    /// The bump seed of the record's address.
    pub bump: u8,
}

/// Largest token fee, in basis points: 10%.
pub const MAX_TOKEN_FEE_BPS: u16 = 1000;

/// The sum of three shares, as a mathematical integer.
pub open spec fn bps_sum(treasury_bps: u16, staking_bps: u16, marketing_bps: u16) -> int {
    treasury_bps + staking_bps + marketing_bps
}

/// The sum of three shares when it is at most the token fee cap, else `None`.
pub fn checked_fee_total(treasury_bps: u16, staking_bps: u16, marketing_bps: u16) -> (r: Option<
    u16,
>)
    ensures
        r is Some <==> bps_sum(treasury_bps, staking_bps, marketing_bps) <= MAX_TOKEN_FEE_BPS,
        r matches Some(t) ==> t == bps_sum(treasury_bps, staking_bps, marketing_bps),
{
    let total: u32 = treasury_bps as u32 + staking_bps as u32 + marketing_bps as u32;
    if total <= MAX_TOKEN_FEE_BPS as u32 {
        Some(total as u16)
    } else {
        None
    }
}

impl FeeConfig {
    /// Size of the stored record: discriminator, then the fields in order.
    pub const LEN: usize = 8 + 32 + 32 + 32 + 2 + 2 + 2 + 2 + 32 + 32 + 1;

    /// The total is the sum of the shares, and within the cap.
    pub open spec fn wf(&self) -> bool {
        &&& self.total_fee_bps == bps_sum(self.treasury_bps, self.staking_bps, self.marketing_bps)
        &&& self.total_fee_bps <= MAX_TOKEN_FEE_BPS
    }
}

} // verus!
