use vstd::prelude::*;

use crate::errors::TokenFactoryError;
use crate::pubkey::Pubkey;
use crate::state::platform_config::PlatformConfig;

verus! {

/// What initializing the platform reads and writes.
#[derive(Clone, Copy, Debug)]
pub struct InitializePlatform {
    /// The caller, who becomes the platform authority.
    pub authority: Pubkey,
    /// The platform's record, if it exists.
    pub platform_config: Option<PlatformConfig>,
    /// The bump seed of the record's address.
    pub platform_config_bump: u8,
}

/// Creates the platform's record with the default fees, the caller as authority and
/// `treasury` as the wallet for fees; fails when the record already exists.
pub fn handler(ctx: &mut InitializePlatform, treasury: Pubkey) -> (r: Result<
    (),
    TokenFactoryError,
>)
    ensures
        old(ctx).platform_config is Some ==> r == Err::<(), TokenFactoryError>(
            TokenFactoryError::PlatformAlreadyInitialized,
        ) && *final(ctx) == *old(ctx),
        old(ctx).platform_config is None ==> r is Ok && final(ctx).platform_config == Some(
            PlatformConfig::initial(old(ctx).authority, treasury, old(ctx).platform_config_bump),
        ) && final(ctx).authority == old(ctx).authority && final(ctx).platform_config_bump
            == old(ctx).platform_config_bump,
        r is Ok ==> (final(ctx).platform_config matches Some(c) && c.wf()),
{
    if ctx.platform_config.is_some() {
        return Err(TokenFactoryError::PlatformAlreadyInitialized);
    }
    ctx.platform_config = Some(PlatformConfig::new(ctx.authority, treasury, ctx.platform_config_bump));
    Ok(())
}

} // verus!
