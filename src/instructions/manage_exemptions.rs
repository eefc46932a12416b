use vstd::prelude::*;

use crate::errors::TokenFactoryError;
use crate::pubkey::Pubkey;
use crate::state::fee_exempt_list::{added, removed, FeeExemptList};

verus! {

/// What changing a token's exemption list reads and writes.
#[derive(Clone, Debug)]
pub struct ManageExemption {
    /// The caller.
    pub authority: Pubkey,
    /// The token's exemption list.
    pub fee_exempt_list: FeeExemptList,
    /// The token's mint.
    pub mint: Pubkey,
}

/// Why the caller may not change the list, if so: a list of another mint, or a caller
/// that is not its authority.
pub open spec fn exemption_guard(ctx: ManageExemption) -> Option<TokenFactoryError> {
    if ctx.fee_exempt_list.mint != ctx.mint {
        Some(TokenFactoryError::InvalidMint)
    } else if ctx.fee_exempt_list.authority != ctx.authority {
        Some(TokenFactoryError::Unauthorized)
    } else {
        None
    }
}

/// The addresses after adding `a`, or why that fails.
pub open spec fn add_outcome(ctx: ManageExemption, a: Pubkey) -> Result<
    Seq<Pubkey>,
    TokenFactoryError,
> {
    match exemption_guard(ctx) {
        Some(e) => Err(e),
        None => added(ctx.fee_exempt_list@, a),
    }
}

/// The addresses after removing `a`, or why that fails.
pub open spec fn remove_outcome(ctx: ManageExemption, a: Pubkey) -> Result<
    Seq<Pubkey>,
    TokenFactoryError,
> {
    match exemption_guard(ctx) {
        Some(e) => Err(e),
        None => removed(ctx.fee_exempt_list@, a),
    }
}

/// Everything but the list's addresses is as it was.
pub open spec fn same_but_addresses(a: ManageExemption, b: ManageExemption) -> bool {
    &&& a.authority == b.authority
    &&& a.mint == b.mint
    &&& a.fee_exempt_list.authority == b.fee_exempt_list.authority
    &&& a.fee_exempt_list.mint == b.fee_exempt_list.mint
    &&& a.fee_exempt_list.bump == b.fee_exempt_list.bump
}

/// Exempts `address_to_exempt` from the token's fee; the caller must be the list's
/// authority. Adding an address already there changes nothing; a new address fails on a
/// full list.
pub fn add_fee_exempt_address(ctx: &mut ManageExemption, address_to_exempt: Pubkey) -> (r: Result<
    (),
    TokenFactoryError,
>)
    requires
        old(ctx).fee_exempt_list.wf(),
    ensures
        final(ctx).fee_exempt_list.wf(),
        same_but_addresses(*final(ctx), *old(ctx)),
        match add_outcome(*old(ctx), address_to_exempt) {
            Ok(s) => r is Ok && final(ctx).fee_exempt_list@ == s,
            Err(e) => r == Err::<(), TokenFactoryError>(e) && final(ctx).fee_exempt_list@ == old(
                ctx,
            ).fee_exempt_list@,
        },
{
    if !ctx.fee_exempt_list.mint.same(&ctx.mint) {
        return Err(TokenFactoryError::InvalidMint);
    }
    if !ctx.fee_exempt_list.authority.same(&ctx.authority) {
        return Err(TokenFactoryError::Unauthorized);
    }
    ctx.fee_exempt_list.add_exempt(address_to_exempt)
}

/// Ends the exemption of `address_to_remove`, keeping the order of the other addresses;
/// the caller must be the list's authority, and the address must be in the list.
pub fn remove_fee_exempt_address(
    ctx: &mut ManageExemption,
    address_to_remove: Pubkey,
) -> (r: Result<(), TokenFactoryError>)
    requires
        old(ctx).fee_exempt_list.wf(),
    ensures
        final(ctx).fee_exempt_list.wf(),
        same_but_addresses(*final(ctx), *old(ctx)),
        match remove_outcome(*old(ctx), address_to_remove) {
            Ok(s) => r is Ok && final(ctx).fee_exempt_list@ == s,
            Err(e) => r == Err::<(), TokenFactoryError>(e) && final(ctx).fee_exempt_list@ == old(
                ctx,
            ).fee_exempt_list@,
        },
{
    if !ctx.fee_exempt_list.mint.same(&ctx.mint) {
        return Err(TokenFactoryError::InvalidMint);
    }
    if !ctx.fee_exempt_list.authority.same(&ctx.authority) {
        return Err(TokenFactoryError::Unauthorized);
    }
    ctx.fee_exempt_list.remove_exempt(&address_to_remove)
}

} // verus!
