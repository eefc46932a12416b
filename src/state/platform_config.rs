use vstd::prelude::*;

use crate::pubkey::Pubkey;

verus! {

/// The platform-wide configuration: one record for the whole platform.
#[derive(Clone, Copy, Debug)]
pub struct PlatformConfig {
    /// The platform authority, who alone may update this record.
    pub authority: Pubkey,
    /// The wallet that receives the platform's fees.
    pub treasury: Pubkey,
    /// The fee for creating a token, in native units.
    pub creation_fee_lamports: u64,
    /// The platform's transfer fee, in basis points.
    pub transfer_fee_bps: u16,
    /// Whether the platform charges its fees at all.
    pub fees_enabled: bool,
    /// The sum of all creation fees collected.
    pub total_creation_fees_collected: u64,
    /// The number of tokens created while a creation fee was charged.
    pub tokens_created: u64,
    /// The bump seed of the record's address.
    pub bump: u8,
}

impl PlatformConfig {
    /// Size of the stored record: discriminator, then the fields in order.
    pub const LEN: usize = 8 + 32 + 32 + 8 + 2 + 1 + 8 + 8 + 1;

    /// Creation fee of a new platform: 0.1 of the native currency.
    pub const DEFAULT_CREATION_FEE: u64 = 100_000_000;

    /// Transfer fee of a new platform: 0.1%.
    pub const DEFAULT_TRANSFER_FEE_BPS: u16 = 10;

    /// Largest creation fee that can be set: 10 of the native currency.
    pub const MAX_CREATION_FEE: u64 = 10_000_000_000;

    /// Largest platform transfer fee that can be set: 1%.
    pub const MAX_TRANSFER_FEE_BPS: u16 = 100;

    /// The caps on both fees hold.
    pub open spec fn wf(&self) -> bool {
        &&& self.creation_fee_lamports <= Self::MAX_CREATION_FEE
        &&& self.transfer_fee_bps <= Self::MAX_TRANSFER_FEE_BPS
    }

    /// The record of a newly initialized platform.
    pub open spec fn initial(authority: Pubkey, treasury: Pubkey, bump: u8) -> PlatformConfig {
        PlatformConfig {
            authority,
            treasury,
            creation_fee_lamports: Self::DEFAULT_CREATION_FEE,
            transfer_fee_bps: Self::DEFAULT_TRANSFER_FEE_BPS,
            fees_enabled: true,
            total_creation_fees_collected: 0,
            tokens_created: 0,
            bump,
        }
    }

    /// The record of a newly initialized platform.
    pub fn new(authority: Pubkey, treasury: Pubkey, bump: u8) -> (r: PlatformConfig)
        ensures
            r == Self::initial(authority, treasury, bump),
            r.wf(),
    {
        PlatformConfig {
            authority,
            treasury,
            creation_fee_lamports: Self::DEFAULT_CREATION_FEE,
            transfer_fee_bps: Self::DEFAULT_TRANSFER_FEE_BPS,
            fees_enabled: true,
            total_creation_fees_collected: 0,
            tokens_created: 0,
            bump,
        }
    }

    /// Whether creating a token costs the creation fee.
    pub open spec fn charges_creation_fee(&self) -> bool {
        self.fees_enabled && self.creation_fee_lamports > 0
    }
}

} // verus!
