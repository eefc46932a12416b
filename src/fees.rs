//! The fee engine: how a transfer amount splits into what the recipient gets, the
//! platform's fee and the token's fee.
use vstd::prelude::*;

use crate::errors::TokenFactoryError;
use crate::state::fee_config::FeeConfig;
use crate::state::platform_config::PlatformConfig;

verus! {

/// Basis points in a whole: 10000 bps is 100%.
pub const BPS_DENOMINATOR: u64 = 10_000;

/// How one transfer splits.
#[derive(Clone, Copy, Debug, PartialEq, Eq, Structural)]
pub struct FeeSplit {
    /// What reaches the recipient.
    pub net_amount: u64,
    /// What goes to the platform treasury.
    pub platform_fee: u64,
    /// What the token's fee schedule keeps.
    pub token_fee: u64,
}

/// `bps` basis points of `amount`, rounded down.
pub open spec fn bps_of(amount: int, bps: int) -> int {
    amount * bps / BPS_DENOMINATOR as int
}

/// The platform's fee on a transfer of `amount`: none when the sender is the platform
/// treasury or the platform charges nothing, else its rate of the amount, rounded down.
pub open spec fn platform_fee_of(
    amount: u64,
    is_from_platform_treasury: bool,
    platform: PlatformConfig,
) -> int {
    if is_from_platform_treasury || !platform.fees_enabled || platform.transfer_fee_bps == 0 {
        0
    } else {
        bps_of(amount as int, platform.transfer_fee_bps as int)
    }
}

/// The token's fee on a transfer of `amount`: none when a party is exempt or the
/// schedule is empty, else its total rate of the amount, rounded down.
pub open spec fn token_fee_of(amount: u64, is_exempt: bool, fee_config: FeeConfig) -> int {
    if is_exempt || fee_config.total_fee_bps == 0 {
        0
    } else {
        bps_of(amount as int, fee_config.total_fee_bps as int)
    }
}

/// The split of a transfer of `amount`, or why there is none: a fee or their sum
/// beyond `u64`, or fees beyond the amount.
pub open spec fn split_of(
    amount: u64,
    is_from_platform_treasury: bool,
    is_exempt: bool,
    platform: PlatformConfig,
    fee_config: FeeConfig,
) -> Result<FeeSplit, TokenFactoryError> {
    let platform_fee = platform_fee_of(amount, is_from_platform_treasury, platform);
    let token_fee = token_fee_of(amount, is_exempt, fee_config);
    if platform_fee > u64::MAX || token_fee > u64::MAX || platform_fee + token_fee > u64::MAX {
        Err(TokenFactoryError::ArithmeticOverflow)
    } else if platform_fee + token_fee > amount {
        Err(TokenFactoryError::InsufficientBalance)
    } else {
        Ok(
            FeeSplit {
                net_amount: (amount - platform_fee - token_fee) as u64,
                platform_fee: platform_fee as u64,
                token_fee: token_fee as u64,
            },
        )
    }
}

/// `bps` basis points of `amount`, rounded down, computed in 128 bits; `None` when it
/// does not fit in `u64`.
pub fn fee_in_bps(amount: u64, bps: u16) -> (r: Option<u64>)
    ensures
        r is None <==> bps_of(amount as int, bps as int) > u64::MAX,
        r matches Some(f) ==> f == bps_of(amount as int, bps as int),
{
    proof {
        assert(amount as int * bps as int <= u64::MAX as int * u16::MAX as int) by (nonlinear_arith);
    }
    let wide: u128 = amount as u128 * bps as u128 / BPS_DENOMINATOR as u128;
    if wide <= u64::MAX as u128 {
        Some(wide as u64)
    } else {
        None
    }
}

/// Splits a transfer of `amount` between the recipient, the platform and the token.
pub fn compute_split(
    amount: u64,
    is_from_platform_treasury: bool,
    is_exempt: bool,
    platform: &PlatformConfig,
    fee_config: &FeeConfig,
) -> (r: Result<FeeSplit, TokenFactoryError>)
    ensures
        r == split_of(amount, is_from_platform_treasury, is_exempt, *platform, *fee_config),
{
    let mut platform_fee: u64 = 0;
    if platform.fees_enabled && platform.transfer_fee_bps > 0 && !is_from_platform_treasury {
        match fee_in_bps(amount, platform.transfer_fee_bps) {
            Some(f) => platform_fee = f,
            None => return Err(TokenFactoryError::ArithmeticOverflow),
        }
    }
    let mut token_fee: u64 = 0;
    if !is_exempt && fee_config.total_fee_bps > 0 {
        match fee_in_bps(amount, fee_config.total_fee_bps) {
            Some(f) => token_fee = f,
            None => return Err(TokenFactoryError::ArithmeticOverflow),
        }
    }
    let total_fees = match platform_fee.checked_add(token_fee) {
        Some(t) => t,
        None => return Err(TokenFactoryError::ArithmeticOverflow),
    };
    let net_amount = match amount.checked_sub(total_fees) {
        Some(n) => n,
        None => return Err(TokenFactoryError::InsufficientBalance),
    };
    Ok(FeeSplit { net_amount, platform_fee, token_fee })
}

/// The token fee divided among the three recipients of a fee schedule.
#[derive(Clone, Copy, Debug, PartialEq, Eq, Structural)]
pub struct TokenFeeShares {
    pub treasury: u64,
    pub staking: u64,
    pub marketing: u64,
}

/// A recipient's part of `token_fee`: its share of the schedule's total, rounded down;
/// nothing when the total is 0.
pub open spec fn share_of(token_fee: int, share_bps: int, total_bps: int) -> int {
    if total_bps == 0 {
        0
    } else {
        token_fee * share_bps / total_bps
    }
}

/// The parts of `token_fee` for the three recipients of `fee_config`, or
/// `ArithmeticOverflow` when a part does not fit in `u64` (only possible when the shares
/// add up to more than the total).
pub open spec fn token_fee_shares_of(token_fee: u64, fee_config: FeeConfig) -> Result<
    TokenFeeShares,
    TokenFactoryError,
> {
    let total = fee_config.total_fee_bps as int;
    let t = share_of(token_fee as int, fee_config.treasury_bps as int, total);
    let s = share_of(token_fee as int, fee_config.staking_bps as int, total);
    let m = share_of(token_fee as int, fee_config.marketing_bps as int, total);
    if t > u64::MAX || s > u64::MAX || m > u64::MAX {
        Err(TokenFactoryError::ArithmeticOverflow)
    } else {
        Ok(TokenFeeShares { treasury: t as u64, staking: s as u64, marketing: m as u64 })
    }
}

/// One recipient's part of `token_fee`, computed in 128 bits; `None` when it does not fit
/// in `u64`.
fn share_in_bps(token_fee: u64, share_bps: u16, total_bps: u16) -> (r: Option<u64>)
    ensures
        r is None <==> share_of(token_fee as int, share_bps as int, total_bps as int) > u64::MAX,
        r matches Some(x) ==> x == share_of(token_fee as int, share_bps as int, total_bps as int),
{
    if total_bps == 0 {
        return Some(0);
    }
    proof {
        assert(token_fee as int * share_bps as int <= u64::MAX as int * u16::MAX as int)
            by (nonlinear_arith);
    }
    let wide: u128 = token_fee as u128 * share_bps as u128 / total_bps as u128;
    if wide <= u64::MAX as u128 {
        Some(wide as u64)
    } else {
        None
    }
}

/// Divides a token fee among the treasury, staking and marketing recipients in
/// proportion to their shares, each part rounded down.
pub fn token_fee_shares(token_fee: u64, fee_config: &FeeConfig) -> (r: Result<
    TokenFeeShares,
    TokenFactoryError,
>)
    ensures
        r == token_fee_shares_of(token_fee, *fee_config),
{
    let total = fee_config.total_fee_bps;
    let treasury = match share_in_bps(token_fee, fee_config.treasury_bps, total) {
        Some(x) => x,
        None => return Err(TokenFactoryError::ArithmeticOverflow),
    };
    let staking = match share_in_bps(token_fee, fee_config.staking_bps, total) {
        Some(x) => x,
        None => return Err(TokenFactoryError::ArithmeticOverflow),
    };
    let marketing = match share_in_bps(token_fee, fee_config.marketing_bps, total) {
        Some(x) => x,
        None => return Err(TokenFactoryError::ArithmeticOverflow),
    };
    Ok(TokenFeeShares { treasury, staking, marketing })
}

} // verus!
