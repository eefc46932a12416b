use spl_token_2022::solana_program::program_option::COption;
use spl_token_2022::solana_program::program_pack::Pack;
use token_factory::fees::{fee_in_bps, token_fee_shares, TokenFeeShares};
use token_factory::state::fee_config::checked_fee_total;
use token_factory::{
    add_fee_exempt_address, compute_split, initialize_platform, initialize_token,
    remove_fee_exempt_address, transfer_with_fee, update_fee_config, update_platform_config,
    FeeConfig, FeeExemptList, FeeSplit, InitializePlatform, InitializeToken, InitializeTokenBumps,
    InitializeTokenParams, ManageExemption, PlatformConfig, Pubkey, TokenConfig, TokenConfigV2,
    TokenFactoryError, TransferWithFee, UpdateFeeConfig, UpdateFeeConfigParams,
    UpdatePlatformConfig, UpdatePlatformConfigParams,
};

fn key(b: u8) -> Pubkey {
    Pubkey::new_from_array([b; 32])
}

fn platform(treasury: Pubkey) -> PlatformConfig {
    let mut ctx = InitializePlatform {
        authority: key(1),
        platform_config: None,
        platform_config_bump: 255,
    };
    initialize_platform(&mut ctx, treasury).unwrap();
    ctx.platform_config.unwrap()
}

fn fee_config(total_bps: u16) -> FeeConfig {
    FeeConfig {
        treasury: key(20),
        staking: key(21),
        marketing: key(22),
        treasury_bps: total_bps,
        staking_bps: 0,
        marketing_bps: 0,
        total_fee_bps: total_bps,
        authority: key(2),
        mint: key(9),
        bump: 254,
    }
}

fn exempt_list(addresses: Vec<Pubkey>) -> FeeExemptList {
    FeeExemptList {
        exempt_addresses: addresses,
        authority: key(2),
        mint: key(9),
        bump: 253,
    }
}

fn mint_data(decimals: u8) -> Vec<u8> {
    let mut data = vec![0u8; 82];
    data[0] = 1;
    for b in data.iter_mut().take(36).skip(4) {
        *b = 7;
    }
    data[44] = decimals;
    data[45] = 1;
    data
}

fn genesis_params(t: u16, s: u16, m: u16) -> InitializeTokenParams {
    InitializeTokenParams {
        name: "Foo".to_string(),
        symbol: "FOO".to_string(),
        decimals: 9,
        initial_supply: 0,
        treasury: key(20),
        staking: key(21),
        marketing: key(22),
        treasury_bps: t,
        staking_bps: s,
        marketing_bps: m,
    }
}

fn genesis_ctx(platform_config: Option<PlatformConfig>, platform_treasury: Pubkey) -> InitializeToken {
    InitializeToken {
        authority: key(2),
        mint: key(9),
        token_config: None,
        fee_config: None,
        fee_exempt_list: None,
        platform_config,
        platform_treasury,
        created_at: 1_700_000_000,
        bumps: InitializeTokenBumps { token_config: 250, fee_config: 251, fee_exempt_list: 252 },
    }
}

fn transfer_ctx(from: Pubkey, to: Pubkey, p: PlatformConfig, total_bps: u16, exempt: Vec<Pubkey>) -> TransferWithFee {
    TransferWithFee {
        from,
        to,
        mint: key(9),
        mint_data: mint_data(6),
        fee_config: fee_config(total_bps),
        fee_exempt_list: exempt_list(exempt),
        platform_config: Some(p),
    }
}

fn manage(addresses: Vec<Pubkey>, caller: Pubkey) -> ManageExemption {
    ManageExemption { authority: caller, fee_exempt_list: exempt_list(addresses), mint: key(9) }
}

fn no_fee_update() -> UpdateFeeConfigParams {
    UpdateFeeConfigParams {
        treasury: None,
        staking: None,
        marketing: None,
        treasury_bps: None,
        staking_bps: None,
        marketing_bps: None,
    }
}

fn no_platform_update() -> UpdatePlatformConfigParams {
    UpdatePlatformConfigParams {
        new_authority: None,
        new_treasury: None,
        creation_fee_lamports: None,
        transfer_fee_bps: None,
        fees_enabled: None,
    }
}

#[test]
fn pubkey_equality_is_bytewise() {
    let mut bytes = [3u8; 32];
    assert!(key(3) == Pubkey::new_from_array(bytes));
    bytes[31] = 4;
    assert!(key(3) != Pubkey::new_from_array(bytes));
    assert_eq!(Pubkey::new_from_array(bytes).to_bytes(), bytes);
}

#[test]
fn initialize_platform_sets_defaults() {
    let p = platform(key(5));
    assert!(p.authority == key(1));
    assert!(p.treasury == key(5));
    assert_eq!(p.creation_fee_lamports, 100_000_000);
    assert_eq!(p.transfer_fee_bps, 10);
    assert!(p.fees_enabled);
    assert_eq!(p.total_creation_fees_collected, 0);
    assert_eq!(p.tokens_created, 0);
    assert_eq!(p.bump, 255);
}

#[test]
fn initialize_platform_twice_fails() {
    let mut ctx = InitializePlatform { authority: key(1), platform_config: None, platform_config_bump: 1 };
    initialize_platform(&mut ctx, key(5)).unwrap();
    let r = initialize_platform(&mut ctx, key(6));
    assert_eq!(r, Err(TokenFactoryError::PlatformAlreadyInitialized));
    assert!(ctx.platform_config.unwrap().treasury == key(5));
}

#[test]
fn platform_then_token_genesis_scenario() {
    let treasury_x = key(5);
    let p = platform(treasury_x);
    let before = p.total_creation_fees_collected;
    let mut ctx = genesis_ctx(Some(p), treasury_x);
    let fee = initialize_token(&mut ctx, genesis_params(300, 200, 100)).unwrap();
    assert_eq!(fee, 100_000_000);
    let p = ctx.platform_config.unwrap();
    assert_eq!(p.tokens_created, 1);
    assert_eq!(p.total_creation_fees_collected - before, 100_000_000);
    let list = ctx.fee_exempt_list.unwrap();
    assert_eq!(list.exempt_addresses.len(), 1);
    assert!(list.exempt_addresses[0] == key(2));
    assert!(list.authority == key(2));
    let fc = ctx.fee_config.unwrap();
    assert_eq!(fc.total_fee_bps, 600);
    assert_eq!((fc.treasury_bps, fc.staking_bps, fc.marketing_bps), (300, 200, 100));
    assert!(fc.mint == key(9) && fc.authority == key(2));
    assert_eq!(fc.bump, 251);
    let tc = ctx.token_config.unwrap();
    assert_eq!(tc.name, "Foo");
    assert_eq!(tc.symbol, "FOO");
    assert!(tc.fees_enabled);
    assert_eq!(tc.created_at, 1_700_000_000);
    assert_eq!(tc.bump, 250);
}

#[test]
fn genesis_without_creation_fee_keeps_counters() {
    let mut p = platform(key(5));
    p.fees_enabled = false;
    let mut ctx = genesis_ctx(Some(p), key(77));
    let fee = initialize_token(&mut ctx, genesis_params(0, 0, 0)).unwrap();
    assert_eq!(fee, 0);
    let p = ctx.platform_config.unwrap();
    assert_eq!(p.tokens_created, 0);
    assert_eq!(p.total_creation_fees_collected, 0);
    assert_eq!(ctx.fee_config.unwrap().total_fee_bps, 0);
}

#[test]
fn genesis_wrong_treasury_fails() {
    let mut ctx = genesis_ctx(Some(platform(key(5))), key(6));
    let r = initialize_token(&mut ctx, genesis_params(300, 200, 100));
    assert_eq!(r, Err(TokenFactoryError::InvalidPlatformTreasury));
    assert!(ctx.token_config.is_none() && ctx.fee_config.is_none() && ctx.fee_exempt_list.is_none());
    assert_eq!(ctx.platform_config.unwrap().tokens_created, 0);
}

#[test]
fn genesis_split_over_cap_fails_without_charging() {
    let mut ctx = genesis_ctx(Some(platform(key(5))), key(5));
    let r = initialize_token(&mut ctx, genesis_params(500, 300, 201));
    assert_eq!(r, Err(TokenFactoryError::FeeExceedsMaximum));
    let p = ctx.platform_config.unwrap();
    assert_eq!(p.tokens_created, 0);
    assert_eq!(p.total_creation_fees_collected, 0);
    assert!(ctx.fee_config.is_none());
}

#[test]
fn genesis_split_at_cap_succeeds() {
    let mut ctx = genesis_ctx(Some(platform(key(5))), key(5));
    initialize_token(&mut ctx, genesis_params(500, 300, 200)).unwrap();
    assert_eq!(ctx.fee_config.unwrap().total_fee_bps, 1000);
}

#[test]
fn genesis_huge_shares_are_rejected_not_wrapped() {
    let mut ctx = genesis_ctx(Some(platform(key(5))), key(5));
    let r = initialize_token(&mut ctx, genesis_params(u16::MAX, u16::MAX, 2));
    assert_eq!(r, Err(TokenFactoryError::FeeExceedsMaximum));
}

#[test]
fn genesis_without_platform_fails() {
    let mut ctx = genesis_ctx(None, key(5));
    let r = initialize_token(&mut ctx, genesis_params(1, 1, 1));
    assert_eq!(r, Err(TokenFactoryError::PlatformNotInitialized));
}

#[test]
fn genesis_twice_fails() {
    let mut ctx = genesis_ctx(Some(platform(key(5))), key(5));
    initialize_token(&mut ctx, genesis_params(1, 1, 1)).unwrap();
    let r = initialize_token(&mut ctx, genesis_params(1, 1, 1));
    assert_eq!(r, Err(TokenFactoryError::TokenAlreadyInitialized));
    assert_eq!(ctx.platform_config.unwrap().tokens_created, 1);
}

#[test]
fn genesis_counter_overflow_fails() {
    let mut p = platform(key(5));
    p.total_creation_fees_collected = u64::MAX - 5;
    let mut ctx = genesis_ctx(Some(p), key(5));
    let r = initialize_token(&mut ctx, genesis_params(1, 1, 1));
    assert_eq!(r, Err(TokenFactoryError::ArithmeticOverflow));
    let mut p = platform(key(5));
    p.tokens_created = u64::MAX;
    let mut ctx = genesis_ctx(Some(p), key(5));
    let r = initialize_token(&mut ctx, genesis_params(1, 1, 1));
    assert_eq!(r, Err(TokenFactoryError::ArithmeticOverflow));
    assert_eq!(ctx.platform_config.unwrap().tokens_created, u64::MAX);
}

#[test]
fn transfer_split_scenario() {
    let p = platform(key(5));
    let ctx = transfer_ctx(key(30), key(31), p, 600, vec![key(2)]);
    let plan = transfer_with_fee(&ctx, 10_000).unwrap();
    assert_eq!(plan.split, FeeSplit { net_amount: 9390, platform_fee: 10, token_fee: 600 });
    assert_eq!(plan.decimals, 6);
}

#[test]
fn transfer_from_platform_treasury_pays_no_platform_fee() {
    for bps in [1u16, 10, 100] {
        let mut p = platform(key(5));
        p.transfer_fee_bps = bps;
        let ctx = transfer_ctx(key(5), key(31), p, 600, vec![]);
        let plan = transfer_with_fee(&ctx, 10_000).unwrap();
        assert_eq!(plan.split.platform_fee, 0);
        assert_eq!(plan.split.token_fee, 600);
        assert_eq!(plan.split.net_amount, 9400);
    }
}

#[test]
fn transfer_exempt_sender_or_recipient_pays_no_token_fee() {
    let p = platform(key(5));
    let ctx = transfer_ctx(key(30), key(31), p, 600, vec![key(30)]);
    let plan = transfer_with_fee(&ctx, 10_000).unwrap();
    assert_eq!(plan.split, FeeSplit { net_amount: 9990, platform_fee: 10, token_fee: 0 });
    let ctx = transfer_ctx(key(30), key(31), p, 600, vec![key(31)]);
    let plan = transfer_with_fee(&ctx, 10_000).unwrap();
    assert_eq!(plan.split, FeeSplit { net_amount: 9990, platform_fee: 10, token_fee: 0 });
}

#[test]
fn transfer_exemption_does_not_waive_platform_fee() {
    let p = platform(key(5));
    let ctx = transfer_ctx(key(30), key(31), p, 0, vec![key(30), key(31)]);
    let plan = transfer_with_fee(&ctx, 1_000_000).unwrap();
    assert_eq!(plan.split.platform_fee, 1000);
}

#[test]
fn transfer_fees_round_down() {
    let p = platform(key(5));
    let ctx = transfer_ctx(key(30), key(31), p, 600, vec![]);
    let plan = transfer_with_fee(&ctx, 999).unwrap();
    assert_eq!(plan.split, FeeSplit { net_amount: 940, platform_fee: 0, token_fee: 59 });
    let plan = transfer_with_fee(&ctx, 0).unwrap();
    assert_eq!(plan.split, FeeSplit { net_amount: 0, platform_fee: 0, token_fee: 0 });
}

#[test]
fn transfer_of_largest_amount_does_not_overflow() {
    let mut p = platform(key(5));
    p.transfer_fee_bps = 100;
    let ctx = transfer_ctx(key(30), key(31), p, 1000, vec![]);
    let plan = transfer_with_fee(&ctx, u64::MAX).unwrap();
    let pf = (u64::MAX as u128 * 100 / 10_000) as u64;
    let tf = (u64::MAX as u128 * 1000 / 10_000) as u64;
    assert_eq!(plan.split, FeeSplit { net_amount: u64::MAX - pf - tf, platform_fee: pf, token_fee: tf });
}

#[test]
fn transfer_without_platform_fails() {
    let mut ctx = transfer_ctx(key(30), key(31), platform(key(5)), 600, vec![]);
    ctx.platform_config = None;
    assert_eq!(transfer_with_fee(&ctx, 100), Err(TokenFactoryError::PlatformNotInitialized));
}

#[test]
fn transfer_with_records_of_another_mint_fails() {
    let mut ctx = transfer_ctx(key(30), key(31), platform(key(5)), 600, vec![]);
    ctx.mint = key(10);
    assert_eq!(transfer_with_fee(&ctx, 100), Err(TokenFactoryError::InvalidMint));
}

#[test]
fn transfer_with_bad_mint_data_fails() {
    let p = platform(key(5));
    let mut ctx = transfer_ctx(key(30), key(31), p, 600, vec![]);
    ctx.mint_data[45] = 0;
    assert_eq!(transfer_with_fee(&ctx, 100), Err(TokenFactoryError::InvalidMint));
    ctx.mint_data[45] = 1;
    ctx.mint_data[0] = 2;
    assert_eq!(transfer_with_fee(&ctx, 100), Err(TokenFactoryError::InvalidMint));
    ctx.mint_data[0] = 0;
    ctx.mint_data.push(0);
    assert_eq!(transfer_with_fee(&ctx, 100), Err(TokenFactoryError::InvalidMint));
    ctx.mint_data.pop();
    ctx.mint_data[44] = 18;
    assert_eq!(transfer_with_fee(&ctx, 100).unwrap().decimals, 18);
}

#[test]
fn transfer_reads_decimals_of_packed_mint() {
    let mint = spl_token_2022::state::Mint {
        mint_authority: COption::None,
        supply: 5,
        decimals: 3,
        is_initialized: true,
        freeze_authority: COption::None,
    };
    let mut data = vec![0u8; 82];
    spl_token_2022::state::Mint::pack(mint, &mut data).unwrap();
    let mut ctx = transfer_ctx(key(30), key(31), platform(key(5)), 600, vec![]);
    ctx.mint_data = data;
    assert_eq!(transfer_with_fee(&ctx, 100).unwrap().decimals, 3);
}

#[test]
fn compute_split_formula_values() {
    let mut p = platform(key(5));
    let f = fee_config(250);
    assert_eq!(
        compute_split(12_345, false, false, &p, &f),
        Ok(FeeSplit { net_amount: 12_345 - 12 - 308, platform_fee: 12, token_fee: 308 })
    );
    p.fees_enabled = false;
    assert_eq!(
        compute_split(12_345, false, false, &p, &f),
        Ok(FeeSplit { net_amount: 12_345 - 308, platform_fee: 0, token_fee: 308 })
    );
}

#[test]
fn compute_split_errors_on_out_of_range_rates() {
    let mut p = platform(key(5));
    p.transfer_fee_bps = 10_000;
    let f = fee_config(1);
    assert_eq!(compute_split(10_000, false, false, &p, &f), Err(TokenFactoryError::InsufficientBalance));
    p.transfer_fee_bps = u16::MAX;
    assert_eq!(compute_split(u64::MAX, false, true, &p, &f), Err(TokenFactoryError::ArithmeticOverflow));
    p.transfer_fee_bps = 6000;
    let f = fee_config(6000);
    assert_eq!(compute_split(u64::MAX, false, false, &p, &f), Err(TokenFactoryError::ArithmeticOverflow));
}

#[test]
fn compute_split_never_exceeds_amount_within_caps() {
    let amounts = [0u64, 1, 9, 10, 99, 100, 9_999, 10_000, 123_456_789, u64::MAX - 1, u64::MAX];
    for &amount in amounts.iter() {
        for pbps in [0u16, 1, 10, 99, 100] {
            for tbps in [0u16, 1, 333, 999, 1000] {
                let mut p = platform(key(5));
                p.transfer_fee_bps = pbps;
                let s = compute_split(amount, false, false, &p, &fee_config(tbps)).unwrap();
                assert!(s.platform_fee as u128 + s.token_fee as u128 <= amount as u128);
                assert_eq!(s.net_amount, amount - s.platform_fee - s.token_fee);
            }
        }
    }
}

#[test]
fn fee_in_bps_values() {
    assert_eq!(fee_in_bps(10_000, 10), Some(10));
    assert_eq!(fee_in_bps(9_999, 1), Some(0));
    assert_eq!(fee_in_bps(u64::MAX, 10_000), Some(u64::MAX));
    assert_eq!(fee_in_bps(u64::MAX, 10_001), None);
}

#[test]
fn checked_fee_total_values() {
    assert_eq!(checked_fee_total(300, 200, 100), Some(600));
    assert_eq!(checked_fee_total(1000, 0, 0), Some(1000));
    assert_eq!(checked_fee_total(1000, 0, 1), None);
    assert_eq!(checked_fee_total(u16::MAX, u16::MAX, u16::MAX), None);
}

#[test]
fn update_fee_config_accepts_bounded_triples() {
    for (t, s, m) in [(0u16, 0u16, 0u16), (1000, 0, 0), (0, 0, 1000), (333, 333, 334), (400, 300, 200)] {
        let mut ctx = UpdateFeeConfig { authority: key(2), fee_config: fee_config(5), mint: key(9) };
        let params = UpdateFeeConfigParams {
            treasury_bps: Some(t),
            staking_bps: Some(s),
            marketing_bps: Some(m),
            ..no_fee_update()
        };
        update_fee_config(&mut ctx, params).unwrap();
        assert_eq!(ctx.fee_config.total_fee_bps, t + s + m);
        assert_eq!((ctx.fee_config.treasury_bps, ctx.fee_config.staking_bps, ctx.fee_config.marketing_bps), (t, s, m));
    }
}

#[test]
fn update_fee_config_rejects_triples_over_cap() {
    for (t, s, m) in [(1001u16, 0u16, 0u16), (334, 334, 334), (u16::MAX, u16::MAX, u16::MAX), (0, 0, 1001)] {
        let mut ctx = UpdateFeeConfig { authority: key(2), fee_config: fee_config(5), mint: key(9) };
        let params = UpdateFeeConfigParams {
            treasury: Some(key(40)),
            treasury_bps: Some(t),
            staking_bps: Some(s),
            marketing_bps: Some(m),
            ..no_fee_update()
        };
        assert_eq!(update_fee_config(&mut ctx, params), Err(TokenFactoryError::FeeExceedsMaximum));
        assert_eq!(ctx.fee_config.total_fee_bps, 5);
        assert_eq!(ctx.fee_config.treasury_bps, 5);
        assert!(ctx.fee_config.treasury == key(20));
    }
}

#[test]
fn update_fee_config_partial_keeps_other_fields() {
    let mut ctx = UpdateFeeConfig { authority: key(2), fee_config: fee_config(300), mint: key(9) };
    let params = UpdateFeeConfigParams { staking: Some(key(41)), staking_bps: Some(200), ..no_fee_update() };
    update_fee_config(&mut ctx, params).unwrap();
    assert_eq!(ctx.fee_config.treasury_bps, 300);
    assert_eq!(ctx.fee_config.staking_bps, 200);
    assert_eq!(ctx.fee_config.total_fee_bps, 500);
    assert!(ctx.fee_config.staking == key(41));
    assert!(ctx.fee_config.treasury == key(20));
    // merged candidate over the cap is rejected even though the given field alone is small
    let params = UpdateFeeConfigParams { marketing_bps: Some(501), ..no_fee_update() };
    assert_eq!(update_fee_config(&mut ctx, params), Err(TokenFactoryError::FeeExceedsMaximum));
    assert_eq!(ctx.fee_config.total_fee_bps, 500);
}

#[test]
fn update_fee_config_by_other_caller_fails() {
    let mut ctx = UpdateFeeConfig { authority: key(3), fee_config: fee_config(5), mint: key(9) };
    let params = UpdateFeeConfigParams { treasury_bps: Some(1), ..no_fee_update() };
    assert_eq!(update_fee_config(&mut ctx, params), Err(TokenFactoryError::Unauthorized));
    assert_eq!(ctx.fee_config.treasury_bps, 5);
}

#[test]
fn update_fee_config_of_other_mint_fails() {
    let mut ctx = UpdateFeeConfig { authority: key(2), fee_config: fee_config(5), mint: key(8) };
    assert_eq!(update_fee_config(&mut ctx, no_fee_update()), Err(TokenFactoryError::InvalidMint));
}

#[test]
fn update_platform_config_partial_update() {
    let mut ctx = UpdatePlatformConfig { authority: key(1), platform_config: Some(platform(key(5))) };
    let params = UpdatePlatformConfigParams {
        creation_fee_lamports: Some(10_000_000_000),
        transfer_fee_bps: Some(100),
        ..no_platform_update()
    };
    update_platform_config(&mut ctx, params).unwrap();
    let p = ctx.platform_config.unwrap();
    assert_eq!(p.creation_fee_lamports, 10_000_000_000);
    assert_eq!(p.transfer_fee_bps, 100);
    assert!(p.fees_enabled);
    assert!(p.treasury == key(5) && p.authority == key(1));
    let params = UpdatePlatformConfigParams {
        new_authority: Some(key(11)),
        new_treasury: Some(key(12)),
        fees_enabled: Some(false),
        ..no_platform_update()
    };
    update_platform_config(&mut ctx, params).unwrap();
    let p = ctx.platform_config.unwrap();
    assert!(p.authority == key(11) && p.treasury == key(12));
    assert!(!p.fees_enabled);
    assert_eq!(p.transfer_fee_bps, 100);
    // the old authority has lost its rights
    let r = update_platform_config(&mut ctx, no_platform_update());
    assert_eq!(r, Err(TokenFactoryError::UnauthorizedPlatform));
}

#[test]
fn update_platform_config_over_caps_changes_nothing() {
    let mut ctx = UpdatePlatformConfig { authority: key(1), platform_config: Some(platform(key(5))) };
    let params = UpdatePlatformConfigParams {
        new_treasury: Some(key(12)),
        creation_fee_lamports: Some(10_000_000_001),
        ..no_platform_update()
    };
    assert_eq!(update_platform_config(&mut ctx, params), Err(TokenFactoryError::FeeExceedsMaximum));
    let params = UpdatePlatformConfigParams {
        new_authority: Some(key(12)),
        transfer_fee_bps: Some(101),
        ..no_platform_update()
    };
    assert_eq!(update_platform_config(&mut ctx, params), Err(TokenFactoryError::FeeExceedsMaximum));
    let p = ctx.platform_config.unwrap();
    assert!(p.treasury == key(5) && p.authority == key(1));
    assert_eq!(p.creation_fee_lamports, 100_000_000);
    assert_eq!(p.transfer_fee_bps, 10);
}

#[test]
fn update_platform_config_by_other_caller_fails() {
    let mut ctx = UpdatePlatformConfig { authority: key(4), platform_config: Some(platform(key(5))) };
    let params = UpdatePlatformConfigParams { transfer_fee_bps: Some(0), ..no_platform_update() };
    assert_eq!(update_platform_config(&mut ctx, params), Err(TokenFactoryError::UnauthorizedPlatform));
    assert_eq!(ctx.platform_config.unwrap().transfer_fee_bps, 10);
}

#[test]
fn update_platform_config_without_platform_fails() {
    let mut ctx = UpdatePlatformConfig { authority: key(1), platform_config: None };
    assert_eq!(update_platform_config(&mut ctx, no_platform_update()), Err(TokenFactoryError::PlatformNotInitialized));
}

#[test]
fn add_exempt_twice_equals_once() {
    let mut ctx = manage(vec![key(2)], key(2));
    add_fee_exempt_address(&mut ctx, key(40)).unwrap();
    let once = ctx.fee_exempt_list.exempt_addresses.clone();
    add_fee_exempt_address(&mut ctx, key(40)).unwrap();
    assert!(ctx.fee_exempt_list.exempt_addresses == once);
    assert_eq!(once.len(), 2);
}

#[test]
fn remove_after_add_restores_list() {
    let original = vec![key(2), key(41), key(42)];
    let mut ctx = manage(original.clone(), key(2));
    add_fee_exempt_address(&mut ctx, key(40)).unwrap();
    assert!(ctx.fee_exempt_list.exempt_addresses == vec![key(2), key(41), key(42), key(40)]);
    remove_fee_exempt_address(&mut ctx, key(40)).unwrap();
    assert!(ctx.fee_exempt_list.exempt_addresses == original);
}

#[test]
fn remove_keeps_order_of_others() {
    let mut ctx = manage(vec![key(2), key(41), key(42), key(43)], key(2));
    remove_fee_exempt_address(&mut ctx, key(41)).unwrap();
    assert!(ctx.fee_exempt_list.exempt_addresses == vec![key(2), key(42), key(43)]);
}

#[test]
fn remove_absent_address_fails() {
    let mut ctx = manage(vec![key(2)], key(2));
    assert_eq!(remove_fee_exempt_address(&mut ctx, key(40)), Err(TokenFactoryError::AddressNotExempt));
    assert_eq!(ctx.fee_exempt_list.exempt_addresses.len(), 1);
}

#[test]
fn full_list_rejects_new_address() {
    let mut ctx = manage(vec![key(2)], key(2));
    for i in 0..99u8 {
        add_fee_exempt_address(&mut ctx, Pubkey::new_from_array([i + 100; 32])).unwrap();
    }
    assert_eq!(ctx.fee_exempt_list.exempt_addresses.len(), 100);
    let before = ctx.fee_exempt_list.exempt_addresses.clone();
    let r = add_fee_exempt_address(&mut ctx, key(3));
    assert_eq!(r, Err(TokenFactoryError::ExemptListFull));
    assert!(ctx.fee_exempt_list.exempt_addresses == before);
    // an address already in a full list is a successful no-op
    add_fee_exempt_address(&mut ctx, key(2)).unwrap();
    assert!(ctx.fee_exempt_list.exempt_addresses == before);
    // after a removal there is room again
    remove_fee_exempt_address(&mut ctx, key(2)).unwrap();
    add_fee_exempt_address(&mut ctx, key(3)).unwrap();
    assert_eq!(ctx.fee_exempt_list.exempt_addresses.len(), 100);
}

#[test]
fn exemption_changes_by_other_caller_fail() {
    let mut ctx = manage(vec![key(2)], key(3));
    assert_eq!(add_fee_exempt_address(&mut ctx, key(40)), Err(TokenFactoryError::Unauthorized));
    assert_eq!(remove_fee_exempt_address(&mut ctx, key(2)), Err(TokenFactoryError::Unauthorized));
    assert!(ctx.fee_exempt_list.exempt_addresses == vec![key(2)]);
}

#[test]
fn exemption_changes_on_other_mint_fail() {
    let mut ctx = manage(vec![key(2)], key(2));
    ctx.mint = key(8);
    assert_eq!(add_fee_exempt_address(&mut ctx, key(40)), Err(TokenFactoryError::InvalidMint));
    assert_eq!(remove_fee_exempt_address(&mut ctx, key(2)), Err(TokenFactoryError::InvalidMint));
}

#[test]
fn exempt_list_methods() {
    let mut list = exempt_list(vec![key(2)]);
    assert!(list.is_exempt(&key(2)));
    assert!(!list.is_exempt(&key(3)));
    list.add_exempt(key(3)).unwrap();
    assert!(list.is_exempt(&key(3)));
    list.remove_exempt(&key(2)).unwrap();
    assert!(!list.is_exempt(&key(2)));
    assert_eq!(list.remove_exempt(&key(2)), Err(TokenFactoryError::AddressNotExempt));
}

#[test]
fn record_sizes() {
    assert_eq!(PlatformConfig::LEN, 100);
    assert_eq!(FeeConfig::LEN, 177);
    assert_eq!(FeeExemptList::calculate_len(100), 3277);
    assert_eq!(FeeExemptList::calculate_len(0), 77);
    assert_eq!(TokenConfig::calculate_len(3, 3), 96);
    assert_eq!(TokenConfigV2::calculate_len(3, 3, 10), 110);
}

#[test]
fn metadata_template_is_fungible() {
    let t = TokenConfigV2::metadata_standard();
    assert!(t.contains("\"category\": \"fungible\""));
    assert!(t.trim_start().starts_with('{'));
}

#[test]
fn check_wf_detects_duplicates_and_overflow() {
    assert!(exempt_list(vec![key(2), key(3)]).check_wf());
    assert!(exempt_list(vec![]).check_wf());
    assert!(!exempt_list(vec![key(2), key(3), key(2)]).check_wf());
    let full: Vec<Pubkey> = (0..100u8).map(|i| Pubkey::new_from_array([i; 32])).collect();
    assert!(exempt_list(full.clone()).check_wf());
    let mut over = full;
    over.push(Pubkey::new_from_array([200; 32]));
    assert!(!exempt_list(over).check_wf());
}

#[test]
fn token_fee_shares_are_pro_rata_and_round_down() {
    let mut f = fee_config(600);
    f.treasury_bps = 300;
    f.staking_bps = 200;
    f.marketing_bps = 100;
    assert_eq!(token_fee_shares(600, &f), Ok(TokenFeeShares { treasury: 300, staking: 200, marketing: 100 }));
    // 601 * 300 / 600 = 300.5, 601 * 200 / 600 = 200.33.., 601 * 100 / 600 = 100.16..
    assert_eq!(token_fee_shares(601, &f), Ok(TokenFeeShares { treasury: 300, staking: 200, marketing: 100 }));
    assert_eq!(token_fee_shares(7, &f), Ok(TokenFeeShares { treasury: 3, staking: 2, marketing: 1 }));
    assert_eq!(token_fee_shares(u64::MAX, &f).unwrap().treasury, u64::MAX / 2);
}

#[test]
fn token_fee_shares_of_empty_schedule_are_zero() {
    let mut f = fee_config(0);
    f.treasury_bps = 0;
    assert_eq!(token_fee_shares(1_000, &f), Ok(TokenFeeShares { treasury: 0, staking: 0, marketing: 0 }));
}

#[test]
fn token_fee_shares_overflow_on_inconsistent_schedule() {
    let mut f = fee_config(1);
    f.treasury_bps = 1000;
    assert_eq!(token_fee_shares(u64::MAX, &f), Err(TokenFactoryError::ArithmeticOverflow));
}
