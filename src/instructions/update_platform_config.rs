use vstd::prelude::*;

use crate::errors::TokenFactoryError;
use crate::pubkey::Pubkey;
use crate::state::platform_config::PlatformConfig;

verus! {

/// A partial update of the platform's record: each field that is `None` keeps its value.
#[derive(Clone, Copy, Debug)]
pub struct UpdatePlatformConfigParams {
    pub new_authority: Option<Pubkey>,
    pub new_treasury: Option<Pubkey>,
    pub creation_fee_lamports: Option<u64>,
    pub transfer_fee_bps: Option<u16>,
    pub fees_enabled: Option<bool>,
}

/// What updating the platform reads and writes.
#[derive(Clone, Copy, Debug)]
pub struct UpdatePlatformConfig {
    /// The caller.
    pub authority: Pubkey,
    /// The platform's record, if it exists.
    pub platform_config: Option<PlatformConfig>,
}

/// The value in `o`, or `v` when there is none.
pub open spec fn or_keep<T>(o: Option<T>, v: T) -> T {
    match o {
        Some(x) => x,
        None => v,
    }
}

/// The record with every given field of `params` in place.
pub open spec fn merged_platform(
    c: PlatformConfig,
    params: UpdatePlatformConfigParams,
) -> PlatformConfig {
    PlatformConfig {
        authority: or_keep(params.new_authority, c.authority),
        treasury: or_keep(params.new_treasury, c.treasury),
        creation_fee_lamports: or_keep(params.creation_fee_lamports, c.creation_fee_lamports),
        transfer_fee_bps: or_keep(params.transfer_fee_bps, c.transfer_fee_bps),
        fees_enabled: or_keep(params.fees_enabled, c.fees_enabled),
        ..c
    }
}

/// The platform's record after the update, or why the update fails: no record, a
/// caller that is not its authority, or a given fee above its cap.
pub open spec fn platform_update_outcome(
    ctx: UpdatePlatformConfig,
    params: UpdatePlatformConfigParams,
) -> Result<PlatformConfig, TokenFactoryError> {
    match ctx.platform_config {
        None => Err(TokenFactoryError::PlatformNotInitialized),
        Some(c) => if c.authority != ctx.authority {
            Err(TokenFactoryError::UnauthorizedPlatform)
        } else if params.creation_fee_lamports matches Some(f) && f
            > PlatformConfig::MAX_CREATION_FEE {
            Err(TokenFactoryError::FeeExceedsMaximum)
        } else if params.transfer_fee_bps matches Some(b) && b
            > PlatformConfig::MAX_TRANSFER_FEE_BPS {
            Err(TokenFactoryError::FeeExceedsMaximum)
        } else {
            Ok(merged_platform(c, params))
        },
    }
}

/// Applies `params` to the platform's record when the caller is its authority and each
/// given fee is within its cap; otherwise fails and changes nothing.
pub fn handler(ctx: &mut UpdatePlatformConfig, params: UpdatePlatformConfigParams) -> (r: Result<
    (),
    TokenFactoryError,
>)
    ensures
        match platform_update_outcome(*old(ctx), params) {
            Ok(c) => r is Ok && final(ctx).platform_config == Some(c) && final(ctx).authority
                == old(ctx).authority,
            Err(e) => r == Err::<(), TokenFactoryError>(e) && *final(ctx) == *old(ctx),
        },
        old(ctx).platform_config matches Some(c) && c.wf() ==> (final(ctx).platform_config matches Some(n) && n.wf()),
{
    let mut c = match ctx.platform_config {
        Some(c) => c,
        None => return Err(TokenFactoryError::PlatformNotInitialized),
    };
    if !c.authority.same(&ctx.authority) {
        return Err(TokenFactoryError::UnauthorizedPlatform);
    }
    if let Some(creation_fee) = params.creation_fee_lamports {
        if creation_fee > PlatformConfig::MAX_CREATION_FEE {
            return Err(TokenFactoryError::FeeExceedsMaximum);
        }
    }
    if let Some(transfer_fee) = params.transfer_fee_bps {
        if transfer_fee > PlatformConfig::MAX_TRANSFER_FEE_BPS {
            return Err(TokenFactoryError::FeeExceedsMaximum);
        }
    }
    if let Some(new_authority) = params.new_authority {
        c.authority = new_authority;
    }
    if let Some(new_treasury) = params.new_treasury {
        c.treasury = new_treasury;
    }
    if let Some(creation_fee) = params.creation_fee_lamports {
        c.creation_fee_lamports = creation_fee;
    }
    if let Some(transfer_fee) = params.transfer_fee_bps {
        c.transfer_fee_bps = transfer_fee;
    }
    if let Some(enabled) = params.fees_enabled {
        c.fees_enabled = enabled;
    }
    ctx.platform_config = Some(c);
    Ok(())
}

} // verus!
