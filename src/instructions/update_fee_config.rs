use vstd::prelude::*;

use crate::errors::TokenFactoryError;
use crate::instructions::update_platform_config::or_keep;
use crate::pubkey::Pubkey;
use crate::state::fee_config::{bps_sum, checked_fee_total, FeeConfig, MAX_TOKEN_FEE_BPS};

verus! {

/// A partial update of a token's fee schedule: each field that is `None` keeps its value.
#[derive(Clone, Copy, Debug)]
pub struct UpdateFeeConfigParams {
    pub treasury: Option<Pubkey>,
    pub staking: Option<Pubkey>,
    pub marketing: Option<Pubkey>,
    pub treasury_bps: Option<u16>,
    pub staking_bps: Option<u16>,
    pub marketing_bps: Option<u16>,
}

/// What updating a fee schedule reads and writes.
#[derive(Clone, Copy, Debug)]
pub struct UpdateFeeConfig {
    /// The caller.
    pub authority: Pubkey,
    /// The token's fee schedule.
    pub fee_config: FeeConfig,
    /// The token's mint.
    pub mint: Pubkey,
}

/// The sum of the three shares once `params` is applied.
pub open spec fn merged_total(c: FeeConfig, params: UpdateFeeConfigParams) -> int {
    bps_sum(
        or_keep(params.treasury_bps, c.treasury_bps),
        or_keep(params.staking_bps, c.staking_bps),
        or_keep(params.marketing_bps, c.marketing_bps),
    )
}

/// The schedule with every given field of `params` in place and the total recomputed.
pub open spec fn merged_fee_config(c: FeeConfig, params: UpdateFeeConfigParams) -> FeeConfig {
    FeeConfig {
        treasury: or_keep(params.treasury, c.treasury),
        staking: or_keep(params.staking, c.staking),
        marketing: or_keep(params.marketing, c.marketing),
        treasury_bps: or_keep(params.treasury_bps, c.treasury_bps),
        staking_bps: or_keep(params.staking_bps, c.staking_bps),
        marketing_bps: or_keep(params.marketing_bps, c.marketing_bps),
        total_fee_bps: merged_total(c, params) as u16,
        ..c
    }
}

/// The schedule after the update, or why the update fails: a schedule of another mint,
/// a caller that is not its authority, or shares that add up to more than the cap.
pub open spec fn fee_update_outcome(ctx: UpdateFeeConfig, params: UpdateFeeConfigParams) -> Result<
    FeeConfig,
    TokenFactoryError,
> {
    if ctx.fee_config.mint != ctx.mint {
        Err(TokenFactoryError::InvalidMint)
    } else if ctx.fee_config.authority != ctx.authority {
        Err(TokenFactoryError::Unauthorized)
    } else if merged_total(ctx.fee_config, params) > MAX_TOKEN_FEE_BPS {
        Err(TokenFactoryError::FeeExceedsMaximum)
    } else {
        Ok(merged_fee_config(ctx.fee_config, params))
    }
}

/// Applies `params` to the fee schedule when the caller is its authority and the shares
/// of the merged schedule add up to at most 1000 bps; otherwise fails and changes nothing.
pub fn handler(ctx: &mut UpdateFeeConfig, params: UpdateFeeConfigParams) -> (r: Result<
    (),
    TokenFactoryError,
>)
    ensures
        match fee_update_outcome(*old(ctx), params) {
            Ok(c) => r is Ok && final(ctx).fee_config == c
                && final(ctx).authority == old(ctx).authority && final(ctx).mint == old(ctx).mint,
            Err(e) => r == Err::<(), TokenFactoryError>(e) && *final(ctx) == *old(ctx),
        },
        r is Ok ==> final(ctx).fee_config.wf(),
{
    if !ctx.fee_config.mint.same(&ctx.mint) {
        return Err(TokenFactoryError::InvalidMint);
    }
    if !ctx.fee_config.authority.same(&ctx.authority) {
        return Err(TokenFactoryError::Unauthorized);
    }
    let mut c = ctx.fee_config;
    if let Some(treasury) = params.treasury {
        c.treasury = treasury;
    }
    if let Some(staking) = params.staking {
        c.staking = staking;
    }
    if let Some(marketing) = params.marketing {
        c.marketing = marketing;
    }
    if let Some(treasury_bps) = params.treasury_bps {
        c.treasury_bps = treasury_bps;
    }
    if let Some(staking_bps) = params.staking_bps {
        c.staking_bps = staking_bps;
    }
    if let Some(marketing_bps) = params.marketing_bps {
        c.marketing_bps = marketing_bps;
    }
    match checked_fee_total(c.treasury_bps, c.staking_bps, c.marketing_bps) {
        Some(total) => c.total_fee_bps = total,
        None => return Err(TokenFactoryError::FeeExceedsMaximum),
    }
    ctx.fee_config = c;
    Ok(())
}

} // verus!
