//! What holds of the instructions for all inputs, proved over the spec functions that
//! their contracts use.
use vstd::prelude::*;

use crate::errors::TokenFactoryError;
use crate::fees::{
    bps_of, platform_fee_of, share_of, split_of, token_fee_of, token_fee_shares_of,
    BPS_DENOMINATOR,
};
use crate::instructions::manage_exemptions::{add_outcome, remove_outcome, ManageExemption};
use crate::instructions::transfer_with_fee::{transfer_outcome, TransferWithFee};
use crate::instructions::update_fee_config::{
    fee_update_outcome, UpdateFeeConfig, UpdateFeeConfigParams,
};
use crate::instructions::update_platform_config::{
    platform_update_outcome, UpdatePlatformConfig, UpdatePlatformConfigParams,
};
use crate::pubkey::Pubkey;
use crate::state::fee_config::{FeeConfig, MAX_TOKEN_FEE_BPS};
use crate::state::fee_exempt_list::{added, other_than, removed, MAX_EXEMPT_ADDRESSES};
use crate::state::platform_config::PlatformConfig;

verus! {

/// Setting the three shares of a fee schedule, by its authority, succeeds exactly when
/// they add up to at most 1000 bps, and the new total is their sum; when they add up to
/// more, the update fails with `FeeExceedsMaximum` (and the schedule stays as it was).
pub proof fn fee_update_accepts_exactly_bounded_shares(
    ctx: UpdateFeeConfig,
    params: UpdateFeeConfigParams,
    treasury_bps: u16,
    staking_bps: u16,
    marketing_bps: u16,
)
    requires
        ctx.fee_config.mint == ctx.mint,
        ctx.fee_config.authority == ctx.authority,
        params.treasury_bps == Some(treasury_bps),
        params.staking_bps == Some(staking_bps),
        params.marketing_bps == Some(marketing_bps),
    ensures
        treasury_bps + staking_bps + marketing_bps <= MAX_TOKEN_FEE_BPS ==> (fee_update_outcome(
            ctx,
            params,
        ) matches Ok(c) && c.wf() && c.treasury_bps == treasury_bps && c.staking_bps == staking_bps
            && c.marketing_bps == marketing_bps),
        treasury_bps + staking_bps + marketing_bps > MAX_TOKEN_FEE_BPS ==> fee_update_outcome(
            ctx,
            params,
        ) == Err::<FeeConfig, TokenFactoryError>(TokenFactoryError::FeeExceedsMaximum),
{
}

/// `bps` basis points of an amount, rounded down, are never more than `cap` basis points
/// of it.
proof fn lemma_bps_of_bounded(amount: int, bps: int, cap: int)
    requires
        0 <= amount,
        0 <= bps <= cap,
    ensures
        0 <= bps_of(amount, bps),
        bps_of(amount, bps) * BPS_DENOMINATOR <= amount * cap,
{
    let d = BPS_DENOMINATOR as int;
    assert(0 <= amount * bps <= amount * cap) by (nonlinear_arith)
        requires
            0 <= amount,
            0 <= bps <= cap,
    ;
    vstd::arithmetic::div_mod::lemma_fundamental_div_mod(amount * bps, d);
    vstd::arithmetic::div_mod::lemma_mod_bound(amount * bps, d);
    vstd::arithmetic::div_mod::lemma_div_pos_is_pos(amount * bps, d);
}

/// With the platform rate at most 100 bps and the token rate at most 1000 bps, every
/// transfer splits: the two fees together are at most the amount, and the recipient gets
/// the amount less both fees.
pub proof fn fees_never_exceed_amount(
    amount: u64,
    is_from_platform_treasury: bool,
    is_exempt: bool,
    platform: PlatformConfig,
    fee_config: FeeConfig,
)
    requires
        platform.transfer_fee_bps <= PlatformConfig::MAX_TRANSFER_FEE_BPS,
        fee_config.total_fee_bps <= MAX_TOKEN_FEE_BPS,
    ensures
        split_of(amount, is_from_platform_treasury, is_exempt, platform, fee_config) matches Ok(s)
            && s.platform_fee + s.token_fee <= amount && s.net_amount == amount - s.platform_fee
            - s.token_fee,
{
    let pf = platform_fee_of(amount, is_from_platform_treasury, platform);
    let tf = token_fee_of(amount, is_exempt, fee_config);
    lemma_bps_of_bounded(amount as int, platform.transfer_fee_bps as int, 100);
    lemma_bps_of_bounded(amount as int, fee_config.total_fee_bps as int, 1000);
    assert(0 <= pf && pf * 10000 <= amount * 100);
    assert(0 <= tf && tf * 10000 <= amount * 1000);
    assert(pf + tf <= amount);
}

/// A part of a fee, rounded down, times the total it is a part of, is at most the fee
/// times the share.
proof fn lemma_share_scaled(token_fee: int, share_bps: int, total_bps: int)
    requires
        0 <= token_fee,
        0 <= share_bps,
        0 < total_bps,
    ensures
        0 <= share_of(token_fee, share_bps, total_bps),
        share_of(token_fee, share_bps, total_bps) * total_bps <= token_fee * share_bps,
{
    assert(0 <= token_fee * share_bps) by (nonlinear_arith)
        requires
            0 <= token_fee,
            0 <= share_bps,
    ;
    vstd::arithmetic::div_mod::lemma_fundamental_div_mod(token_fee * share_bps, total_bps);
    vstd::arithmetic::div_mod::lemma_mod_bound(token_fee * share_bps, total_bps);
    vstd::arithmetic::div_mod::lemma_div_pos_is_pos(token_fee * share_bps, total_bps);
    vstd::arithmetic::mul::lemma_mul_is_commutative(
        (token_fee * share_bps) / total_bps,
        total_bps,
    );
}

/// For a well-formed schedule, dividing a token fee among its three recipients always
/// succeeds and hands out at most the fee.
pub proof fn token_fee_shares_within_fee(token_fee: u64, fee_config: FeeConfig)
    requires
        fee_config.wf(),
    ensures
        token_fee_shares_of(token_fee, fee_config) matches Ok(s) && s.treasury + s.staking
            + s.marketing <= token_fee,
{
    let total = fee_config.total_fee_bps as int;
    let f = token_fee as int;
    if total > 0 {
        let tb = fee_config.treasury_bps as int;
        let sb = fee_config.staking_bps as int;
        let mb = fee_config.marketing_bps as int;
        lemma_share_scaled(f, tb, total);
        lemma_share_scaled(f, sb, total);
        lemma_share_scaled(f, mb, total);
        let t = share_of(f, tb, total);
        let s = share_of(f, sb, total);
        let m = share_of(f, mb, total);
        assert((t + s + m) * total <= f * total) by (nonlinear_arith)
            requires
                t * total <= f * tb,
                s * total <= f * sb,
                m * total <= f * mb,
                tb + sb + mb == total,
        ;
        assert(t + s + m <= f) by (nonlinear_arith)
            requires
                (t + s + m) * total <= f * total,
                total > 0,
        ;
    }
}

/// The list after an add, whether it succeeds or fails.
pub open spec fn after_add(s: Seq<Pubkey>, a: Pubkey) -> Seq<Pubkey> {
    match added(s, a) {
        Ok(t) => t,
        Err(_) => s,
    }
}

/// Adding an address twice leaves the list as adding it once, and the second add
/// succeeds whenever the first did.
pub proof fn add_is_idempotent(s: Seq<Pubkey>, a: Pubkey)
    ensures
        after_add(after_add(s, a), a) == after_add(s, a),
        added(s, a) is Ok ==> added(after_add(s, a), a) == added(s, a),
{
    if !s.contains(a) && s.len() < MAX_EXEMPT_ADDRESSES {
        assert(s.push(a)[s.len() as int] == a);
    }
}

/// Filtering out an address that a list does not hold leaves the list as it is.
proof fn lemma_filter_out_absent(s: Seq<Pubkey>, a: Pubkey)
    requires
        !s.contains(a),
    ensures
        s.filter(other_than(a)) == s,
    decreases s.len(),
{
    reveal(Seq::filter);
    if s.len() > 0 {
        let rest = s.drop_last();
        assert(!rest.contains(a)) by {
            if rest.contains(a) {
                let k = choose|k: int| 0 <= k < rest.len() && rest[k] == a;
                assert(s[k] == a);
            }
        }
        lemma_filter_out_absent(rest, a);
        assert(s.last() != a) by {
            assert(s[s.len() - 1] == s.last());
        }
        assert(rest.push(s.last()) =~= s);
    }
}

/// Removing an address just added to a list that did not hold it gives the list back as
/// it was; when the add fails, so does the removal, and the list is unchanged throughout.
pub proof fn remove_undoes_add(s: Seq<Pubkey>, a: Pubkey)
    requires
        !s.contains(a),
    ensures
        added(s, a) matches Ok(t) ==> removed(t, a) == Ok::<Seq<Pubkey>, TokenFactoryError>(s),
        added(s, a) is Err ==> removed(s, a) == Err::<Seq<Pubkey>, TokenFactoryError>(
            TokenFactoryError::AddressNotExempt,
        ),
{
    if s.len() < MAX_EXEMPT_ADDRESSES {
        let t = s.push(a);
        assert(t[s.len() as int] == a);
        reveal(Seq::filter);
        assert(t.drop_last() =~= s);
        lemma_filter_out_absent(s, a);
    }
}

/// A list of at most 100 distinct addresses stays so after any add or removal; when it
/// holds 100, adding a new address fails with `ExemptListFull`.
pub proof fn exemption_list_stays_bounded(s: Seq<Pubkey>, a: Pubkey)
    requires
        s.len() <= MAX_EXEMPT_ADDRESSES,
        s.no_duplicates(),
    ensures
        added(s, a) matches Ok(t) ==> t.len() <= MAX_EXEMPT_ADDRESSES && t.no_duplicates(),
        removed(s, a) matches Ok(t) ==> t.len() <= MAX_EXEMPT_ADDRESSES && t.no_duplicates(),
        s.len() == MAX_EXEMPT_ADDRESSES && !s.contains(a) ==> added(s, a) == Err::<
            Seq<Pubkey>,
            TokenFactoryError,
        >(TokenFactoryError::ExemptListFull),
{
    if !s.contains(a) && s.len() < MAX_EXEMPT_ADDRESSES {
        let t = s.push(a);
        assert forall|i: int, j: int| 0 <= i < j < t.len() implies t[i] != t[j] by {
            if j == s.len() as int {
                assert(s.contains(s[i]));
            } else {
                assert(s[i] != s[j]);
            }
        }
    }
    if s.contains(a) {
        crate::state::fee_exempt_list::lemma_filter_keeps_bound_and_uniqueness(s, a);
    }
}

/// An update of the platform's record by anyone but its authority fails with
/// `UnauthorizedPlatform` (and the record stays as it was).
pub proof fn only_platform_authority_updates(
    ctx: UpdatePlatformConfig,
    params: UpdatePlatformConfigParams,
)
    requires
        ctx.platform_config matches Some(c) && c.authority != ctx.authority,
    ensures
        platform_update_outcome(ctx, params) == Err::<PlatformConfig, TokenFactoryError>(
            TokenFactoryError::UnauthorizedPlatform,
        ),
{
}

/// An update of a token's fee schedule by anyone but its authority fails with
/// `Unauthorized` (and the schedule stays as it was).
pub proof fn only_fee_authority_updates(ctx: UpdateFeeConfig, params: UpdateFeeConfigParams)
    requires
        ctx.fee_config.mint == ctx.mint,
        ctx.fee_config.authority != ctx.authority,
    ensures
        fee_update_outcome(ctx, params) == Err::<FeeConfig, TokenFactoryError>(
            TokenFactoryError::Unauthorized,
        ),
{
}

/// An add to or a removal from a token's exemption list by anyone but its authority fails
/// with `Unauthorized` (and the list stays as it was).
pub proof fn only_list_authority_changes_exemptions(ctx: ManageExemption, a: Pubkey)
    requires
        ctx.fee_exempt_list.mint == ctx.mint,
        ctx.fee_exempt_list.authority != ctx.authority,
    ensures
        add_outcome(ctx, a) == Err::<Seq<Pubkey>, TokenFactoryError>(
            TokenFactoryError::Unauthorized,
        ),
        remove_outcome(ctx, a) == Err::<Seq<Pubkey>, TokenFactoryError>(
            TokenFactoryError::Unauthorized,
        ),
{
}

/// When the sender is the platform treasury, the platform takes no fee from the
/// transfer, whatever its rate.
pub proof fn treasury_sender_pays_no_platform_fee(ctx: TransferWithFee, amount: u64)
    requires
        ctx.platform_config matches Some(p) && ctx.from == p.treasury,
    ensures
        transfer_outcome(ctx, amount) matches Ok(plan) ==> plan.split.platform_fee == 0,
{
}

} // verus!
