use vstd::prelude::*;

use crate::errors::TokenFactoryError;
use crate::pubkey::Pubkey;
use crate::state::fee_config::{bps_sum, checked_fee_total, FeeConfig, MAX_TOKEN_FEE_BPS};
use crate::state::fee_exempt_list::FeeExemptList;
use crate::state::platform_config::PlatformConfig;
use crate::state::token_config::{TokenConfig, MAX_NAME_LEN, MAX_SYMBOL_LEN};

verus! {

/// What a new token is made from.
#[derive(Clone, Debug)]
pub struct InitializeTokenParams {
    pub name: String,
    pub symbol: String,
    pub decimals: u8,
    pub initial_supply: u64,
    pub treasury: Pubkey,
    pub staking: Pubkey,
    pub marketing: Pubkey,
    pub treasury_bps: u16,
    pub staking_bps: u16,
    pub marketing_bps: u16,
}

/// The bump seeds of the addresses of a token's three records.
#[derive(Clone, Copy, Debug)]
pub struct InitializeTokenBumps {
    pub token_config: u8,
    pub fee_config: u8,
    pub fee_exempt_list: u8,
}

/// What creating a token reads and writes.
#[derive(Clone, Debug)]
pub struct InitializeToken {
    /// The caller, who becomes the token's authority.
    pub authority: Pubkey,
    /// The new token's mint.
    pub mint: Pubkey,
    /// The token's record, if it exists.
    pub token_config: Option<TokenConfig>,
    /// The token's fee schedule, if it exists.
    pub fee_config: Option<FeeConfig>,
    /// The token's exemption list, if it exists.
    pub fee_exempt_list: Option<FeeExemptList>,
    /// The platform's record, if it exists.
    pub platform_config: Option<PlatformConfig>,
    /// The account named as the platform treasury.
    pub platform_treasury: Pubkey,
    /// The time now, in seconds since the Unix epoch.
    pub created_at: i64,
    /// The bump seeds of the new records' addresses.
    pub bumps: InitializeTokenBumps,
}

/// Why creating the token fails, if it does: no platform record; records of the token
/// that already exist; when a creation fee is due, a wrong treasury or a counter that
/// would overflow; or fee shares that add up to more than the cap.
pub open spec fn genesis_error(ctx: InitializeToken, params: InitializeTokenParams) -> Option<
    TokenFactoryError,
> {
    match ctx.platform_config {
        None => Some(TokenFactoryError::PlatformNotInitialized),
        Some(p) => if ctx.token_config is Some || ctx.fee_config is Some
            || ctx.fee_exempt_list is Some {
            Some(TokenFactoryError::TokenAlreadyInitialized)
        } else if p.charges_creation_fee() && ctx.platform_treasury != p.treasury {
            Some(TokenFactoryError::InvalidPlatformTreasury)
        } else if p.charges_creation_fee() && (p.total_creation_fees_collected
            + p.creation_fee_lamports > u64::MAX || p.tokens_created + 1 > u64::MAX) {
            Some(TokenFactoryError::ArithmeticOverflow)
        } else if bps_sum(params.treasury_bps, params.staking_bps, params.marketing_bps)
            > MAX_TOKEN_FEE_BPS {
            Some(TokenFactoryError::FeeExceedsMaximum)
        } else {
            None
        },
    }
}

/// The creation fee that creating a token costs under `p`.
pub open spec fn creation_fee_due(p: PlatformConfig) -> u64 {
    if p.charges_creation_fee() {
        p.creation_fee_lamports
    } else {
        0
    }
}

/// The platform's record after a token is created: when a creation fee is due, the fee
/// is added to the collected total and the token to the count.
pub open spec fn platform_after_genesis(p: PlatformConfig) -> PlatformConfig {
    if p.charges_creation_fee() {
        PlatformConfig {
            total_creation_fees_collected: (p.total_creation_fees_collected
                + p.creation_fee_lamports) as u64,
            tokens_created: (p.tokens_created + 1) as u64,
            ..p
        }
    } else {
        p
    }
}

/// The new token's fee schedule.
pub open spec fn fee_config_at_genesis(
    ctx: InitializeToken,
    params: InitializeTokenParams,
) -> FeeConfig {
    FeeConfig {
        treasury: params.treasury,
        staking: params.staking,
        marketing: params.marketing,
        treasury_bps: params.treasury_bps,
        staking_bps: params.staking_bps,
        marketing_bps: params.marketing_bps,
        total_fee_bps: bps_sum(params.treasury_bps, params.staking_bps, params.marketing_bps) as u16,
        authority: ctx.authority,
        mint: ctx.mint,
        bump: ctx.bumps.fee_config,
    }
}

/// The new token's record.
pub open spec fn token_config_at_genesis(
    ctx: InitializeToken,
    params: InitializeTokenParams,
) -> TokenConfig {
    TokenConfig {
        mint: ctx.mint,
        name: params.name,
        symbol: params.symbol,
        authority: ctx.authority,
        fees_enabled: true,
        created_at: ctx.created_at,
        bump: ctx.bumps.token_config,
    }
}

/// The new token's exemption list holds its creator alone.
pub open spec fn is_exempt_list_at_genesis(l: FeeExemptList, ctx: InitializeToken) -> bool {
    &&& l@ == seq![ctx.authority]
    &&& l.authority == ctx.authority
    &&& l.mint == ctx.mint
    &&& l.bump == ctx.bumps.fee_exempt_list
}

/// Creates a token's three records and charges the platform's creation fee, all or
/// nothing. Returns the creation fee that the caller owes the platform treasury (0 when
/// none is due); moving it, and making the mint itself, is up to the caller.
pub fn handler(ctx: &mut InitializeToken, params: InitializeTokenParams) -> (r: Result<
    u64,
    TokenFactoryError,
>)
    requires
        params.name@.len() <= MAX_NAME_LEN,
        params.symbol@.len() <= MAX_SYMBOL_LEN,
    ensures
        match genesis_error(*old(ctx), params) {
            Some(e) => r == Err::<u64, TokenFactoryError>(e) && *final(ctx) == *old(ctx),
            None => {
                let p = old(ctx).platform_config->Some_0;
                &&& r == Ok::<u64, TokenFactoryError>(creation_fee_due(p))
                &&& final(ctx).platform_config == Some(platform_after_genesis(p))
                &&& final(ctx).token_config == Some(token_config_at_genesis(*old(ctx), params))
                &&& final(ctx).fee_config == Some(fee_config_at_genesis(*old(ctx), params))
                &&& final(ctx).fee_exempt_list matches Some(l) && is_exempt_list_at_genesis(
                    l,
                    *old(ctx),
                )
                &&& final(ctx).authority == old(ctx).authority
                &&& final(ctx).mint == old(ctx).mint
                &&& final(ctx).platform_treasury == old(ctx).platform_treasury
                &&& final(ctx).created_at == old(ctx).created_at
            },
        },
        r is Ok ==> final(ctx).token_config->Some_0.wf() && final(ctx).fee_config->Some_0.wf()
            && final(ctx).fee_exempt_list->Some_0.wf(),
{
    let mut platform_config = match ctx.platform_config {
        Some(p) => p,
        None => return Err(TokenFactoryError::PlatformNotInitialized),
    };
    if ctx.token_config.is_some() || ctx.fee_config.is_some() || ctx.fee_exempt_list.is_some() {
        return Err(TokenFactoryError::TokenAlreadyInitialized);
    }
    let mut creation_fee: u64 = 0;
    if platform_config.fees_enabled && platform_config.creation_fee_lamports > 0 {
        if !ctx.platform_treasury.same(&platform_config.treasury) {
            return Err(TokenFactoryError::InvalidPlatformTreasury);
        }
        creation_fee = platform_config.creation_fee_lamports;
        platform_config.total_creation_fees_collected =
            match platform_config.total_creation_fees_collected.checked_add(creation_fee) {
            Some(t) => t,
            None => return Err(TokenFactoryError::ArithmeticOverflow),
        };
        platform_config.tokens_created = match platform_config.tokens_created.checked_add(1) {
            Some(n) => n,
            None => return Err(TokenFactoryError::ArithmeticOverflow),
        };
    }
    let total_fee_bps = match checked_fee_total(
        params.treasury_bps,
        params.staking_bps,
        params.marketing_bps,
    ) {
        Some(t) => t,
        None => return Err(TokenFactoryError::FeeExceedsMaximum),
    };
    let fee_config = FeeConfig {
        treasury: params.treasury,
        staking: params.staking,
        marketing: params.marketing,
        treasury_bps: params.treasury_bps,
        staking_bps: params.staking_bps,
        marketing_bps: params.marketing_bps,
        total_fee_bps,
        authority: ctx.authority,
        mint: ctx.mint,
        bump: ctx.bumps.fee_config,
    };
    let mut exempt_addresses: Vec<Pubkey> = Vec::new();
    exempt_addresses.push(ctx.authority);
    let fee_exempt_list = FeeExemptList {
        exempt_addresses,
        authority: ctx.authority,
        mint: ctx.mint,
        bump: ctx.bumps.fee_exempt_list,
    };
    let token_config = TokenConfig {
        mint: ctx.mint,
        name: params.name,
        symbol: params.symbol,
        authority: ctx.authority,
        fees_enabled: true,
        created_at: ctx.created_at,
        bump: ctx.bumps.token_config,
    };
    proof {
        assert(fee_exempt_list@ =~= seq![ctx.authority]);
    }
    ctx.platform_config = Some(platform_config);
    ctx.token_config = Some(token_config);
    ctx.fee_config = Some(fee_config);
    ctx.fee_exempt_list = Some(fee_exempt_list);
    Ok(creation_fee)
}

} // verus!
