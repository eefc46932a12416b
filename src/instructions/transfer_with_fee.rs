use vstd::prelude::*;

use crate::errors::TokenFactoryError;
use crate::fees::{compute_split, split_of, FeeSplit};
use crate::mint::{is_initialized_mint, unpack_mint_decimals, DECIMALS_OFFSET};
use crate::pubkey::Pubkey;
use crate::state::fee_config::FeeConfig;
use crate::state::fee_exempt_list::FeeExemptList;
use crate::state::platform_config::PlatformConfig;

verus! {

/// What a transfer with fees reads.
#[derive(Clone, Debug)]
pub struct TransferWithFee {
    /// The sender.
    pub from: Pubkey,
    /// The recipient.
    pub to: Pubkey,
    /// The token's mint.
    pub mint: Pubkey,
    /// The data of the mint's account.
    pub mint_data: Vec<u8>,
    /// The token's fee schedule.
    pub fee_config: FeeConfig,
    /// The token's exemption list.
    pub fee_exempt_list: FeeExemptList,
    /// The platform's record, if it exists.
    pub platform_config: Option<PlatformConfig>,
}

/// What to move for a transfer: the split, and the mint's decimals that each movement
/// of tokens states.
#[derive(Clone, Copy, Debug, PartialEq, Eq, Structural)]
pub struct TransferPlan {
    pub split: FeeSplit,
    pub decimals: u8,
}

/// Whether the sender or the recipient is exempt from the token's fee.
pub open spec fn is_exempt_transfer(ctx: TransferWithFee) -> bool {
    ctx.fee_exempt_list@.contains(ctx.from) || ctx.fee_exempt_list@.contains(ctx.to)
}

/// The plan of a transfer of `amount`, or why there is none: no platform record, a
/// schedule, list or account data of another mint, or no split.
pub open spec fn transfer_outcome(ctx: TransferWithFee, amount: u64) -> Result<
    TransferPlan,
    TokenFactoryError,
> {
    match ctx.platform_config {
        None => Err(TokenFactoryError::PlatformNotInitialized),
        Some(p) => if ctx.fee_config.mint != ctx.mint || ctx.fee_exempt_list.mint != ctx.mint
            || !is_initialized_mint(ctx.mint_data@) {
            Err(TokenFactoryError::InvalidMint)
        } else {
            match split_of(amount, ctx.from == p.treasury, is_exempt_transfer(ctx), p, ctx.fee_config) {
                Ok(split) => Ok(
                    TransferPlan { split, decimals: ctx.mint_data@[DECIMALS_OFFSET as int] },
                ),
                Err(e) => Err(e),
            }
        },
    }
}

/// Works out a transfer of `amount` from `from` to `to`: the platform takes its fee
/// unless the sender is the platform treasury, and the token takes its fee unless the
/// sender or the recipient is exempt.
pub fn handler(ctx: &TransferWithFee, amount: u64) -> (r: Result<TransferPlan, TokenFactoryError>)
    ensures
        r == transfer_outcome(*ctx, amount),
{
    let platform_config = match &ctx.platform_config {
        Some(p) => p,
        None => return Err(TokenFactoryError::PlatformNotInitialized),
    };
    if !ctx.fee_config.mint.same(&ctx.mint) || !ctx.fee_exempt_list.mint.same(&ctx.mint) {
        return Err(TokenFactoryError::InvalidMint);
    }
    let decimals = match unpack_mint_decimals(ctx.mint_data.as_slice()) {
        Some(d) => d,
        None => return Err(TokenFactoryError::InvalidMint),
    };
    let is_exempt_from_token_fees = ctx.fee_exempt_list.is_exempt(&ctx.from)
        || ctx.fee_exempt_list.is_exempt(&ctx.to);
    let is_from_platform_treasury = ctx.from.same(&platform_config.treasury);
    let split = compute_split(
        amount,
        is_from_platform_treasury,
        is_exempt_from_token_fees,
        platform_config,
        &ctx.fee_config,
    )?;
    Ok(TransferPlan { split, decimals })
}

} // verus!
