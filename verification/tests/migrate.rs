use anchor_lang::prelude::Pubkey as LedgerKey;
use pump::accounts::Mint;
use pump::errors::{LifecycleError, PumpError, ReleaseReservesError};
use pump::instructions::{Migrate, MigrationCompleted, WrappedNative};
use pump::migrate;
use pump::pubkey::Pubkey;
use pump::raydium_adapter::{create_pool, CreatePool};
use pump::states::{BondingCurve, Config, FeePercent};

fn fresh_key() -> Pubkey {
    Pubkey::new_from_array(LedgerKey::new_unique().to_bytes())
}

fn open_config(authority: Pubkey) -> Config {
    Config {
        authority,
        fee_recipient: fresh_key(),
        curve_limit: 85_000_000_000,
        initial_virtual_token_reserves: 1_073_000_000_000_000,
        initial_virtual_sol_reserves: 30_000_000_000,
        initial_real_token_reserves: 793_100_000_000_000,
        total_token_supply: 1_000_000_000_000_000,
        buy_fee_percent: FeePercent { bits: 1.0f64.to_bits() },
        sell_fee_percent: FeePercent { bits: 1.0f64.to_bits() },
        migration_fee_percent: FeePercent { bits: 0.5f64.to_bits() },
        paused: false,
        is_completed: false,
        pause_launch: false,
        pause_swap: false,
        expected_raydium_program: Pubkey::default(),
        expected_meteora_program: Pubkey::default(),
    }
}

fn completed_curve() -> BondingCurve {
    BondingCurve {
        virtual_token_reserves: 279_900_000_000_000,
        virtual_sol_reserves: 115_000_000_000,
        real_token_reserves: 206_900_000_000_000,
        real_sol_reserves: 85_000_000_000,
        token_total_supply: 1_000_000_000_000_000,
        is_completed: true,
        migration_completed: false,
    }
}

fn ready() -> Migrate {
    let payer = fresh_key();
    Migrate {
        global_config: open_config(payer),
        payer,
        token_mint: Mint { key: fresh_key(), decimals: 6 },
        bonding_curve: completed_curve(),
        curve_pda: fresh_key(),
        curve_token_account: fresh_key(),
        curve_lamports: 85_000_890_880,
        rent_exempt_minimum: 890_880,
        wrapped_native: Some(WrappedNative { lamports: 2_039_280, amount: 0 }),
        raydium_program: fresh_key(),
        meteora_program: fresh_key(),
        system_program: Pubkey::default(),
        token_program: fresh_key(),
    }
}

#[test]
fn builds_without_raydium_cpi_feature() {
    let mut ctx = ready();
    let before = ctx;
    let event = ctx.process(255).unwrap();
    assert_eq!(
        event,
        MigrationCompleted { mint: before.token_mint.key, adapter_program: before.raydium_program }
    );
    assert!(true);
}

#[test]
fn builds_with_raydium_cpi_feature() {
    let mut ctx = ready();
    let before = ctx;
    assert_eq!(ctx.check(), Ok(()));
    let request = ctx.create_pool_request();
    assert_eq!(
        request,
        CreatePool {
            payer: before.payer,
            token_mint: before.token_mint.key,
            curve_pda: before.curve_pda,
            curve_token_account: before.curve_token_account,
            system_program: before.system_program,
            token_program: before.token_program,
        }
    );
    assert_eq!(ctx, before);
    assert_eq!(create_pool(&request), Ok(()));
    let event = ctx.commit();
    assert_eq!(event.mint, before.token_mint.key);
    assert_eq!(event.adapter_program, before.raydium_program);
    let mut direct = before;
    assert_eq!(direct.process(3), Ok(event));
    assert_eq!(direct, ctx);
    assert!(true);
}

#[test]
fn migrate_sets_both_flags_and_wraps_the_spendable_balance() {
    let mut ctx = ready();
    let before = ctx;
    let event = migrate(&mut ctx, 254).unwrap();
    assert_eq!(event.mint, before.token_mint.key);
    assert!(ctx.bonding_curve.migration_completed);
    assert!(ctx.global_config.is_completed);
    assert_eq!(ctx.curve_lamports, 890_880);
    assert_eq!(
        ctx.wrapped_native,
        Some(WrappedNative { lamports: 2_039_280 + 85_000_000_000, amount: 85_002_039_280 })
    );
    let mut expected = before;
    expected.bonding_curve.migration_completed = true;
    expected.global_config.is_completed = true;
    expected.curve_lamports = 890_880;
    expected.wrapped_native = ctx.wrapped_native;
    assert_eq!(ctx, expected);
}

#[test]
fn migrate_without_a_wrapped_account_moves_nothing() {
    let mut ctx = ready();
    ctx.wrapped_native = None;
    ctx.process(0).unwrap();
    assert_eq!(ctx.curve_lamports, 85_000_890_880);
    assert_eq!(ctx.wrapped_native, None);
    assert!(ctx.bonding_curve.migration_completed);
}

#[test]
fn migrate_never_wraps_below_the_rent_minimum() {
    let mut ctx = ready();
    ctx.curve_lamports = 800_000;
    ctx.wrapped_native = Some(WrappedNative { lamports: 10, amount: 3 });
    ctx.process(0).unwrap();
    assert_eq!(ctx.curve_lamports, 800_000);
    assert_eq!(ctx.wrapped_native, Some(WrappedNative { lamports: 10, amount: 10 }));
}

#[test]
fn migrate_while_paused_fails_and_changes_nothing() {
    let mut ctx = ready();
    ctx.global_config.paused = true;
    ctx.global_config.is_completed = true;
    ctx.payer = fresh_key();
    let before = ctx;
    assert_eq!(ctx.process(1), Err(LifecycleError::Guard(PumpError::ProgramPaused)));
    assert_eq!(ctx, before);
}

#[test]
fn migrate_after_completion_fails() {
    let mut ctx = ready();
    ctx.global_config.is_completed = true;
    ctx.payer = fresh_key();
    let before = ctx;
    assert_eq!(ctx.process(1), Err(LifecycleError::from(PumpError::ProgramCompleted)));
    assert_eq!(ctx, before);
}

#[test]
fn migrate_by_a_stranger_fails() {
    let mut ctx = ready();
    ctx.payer = fresh_key();
    ctx.bonding_curve.is_completed = false;
    let before = ctx;
    assert_eq!(ctx.process(1), Err(LifecycleError::Guard(PumpError::NotAuthorized)));
    assert_eq!(ctx, before);
}

#[test]
fn migrate_of_an_uncompleted_curve_fails() {
    let mut ctx = ready();
    ctx.bonding_curve.is_completed = false;
    ctx.bonding_curve.migration_completed = true;
    let before = ctx;
    assert_eq!(
        ctx.process(1),
        Err(LifecycleError::Curve(ReleaseReservesError::CurveNotCompleted))
    );
    assert_eq!(ctx, before);
}

#[test]
fn migrate_of_a_migrated_curve_fails() {
    let mut ctx = ready();
    ctx.bonding_curve.migration_completed = true;
    ctx.global_config.expected_raydium_program = fresh_key();
    let before = ctx;
    assert_eq!(ctx.process(1), Err(LifecycleError::Guard(PumpError::CurveAlreadyCompleted)));
    assert_eq!(ctx, before);
}

#[test]
fn migrate_checks_the_allow_listed_programs() {
    let mut ctx = ready();
    ctx.global_config.expected_raydium_program = fresh_key();
    let before = ctx;
    assert_eq!(ctx.process(1), Err(LifecycleError::Guard(PumpError::UnexpectedProgramId)));
    assert_eq!(ctx, before);

    ctx.raydium_program = ctx.global_config.expected_raydium_program;
    ctx.global_config.expected_meteora_program = fresh_key();
    let before = ctx;
    assert_eq!(ctx.process(1), Err(LifecycleError::Guard(PumpError::UnexpectedProgramId)));
    assert_eq!(ctx, before);

    ctx.meteora_program = ctx.global_config.expected_meteora_program;
    let event = ctx.process(1).unwrap();
    assert_eq!(event.adapter_program, before.raydium_program);
}

#[test]
fn migrate_twice_fails_the_second_time() {
    let mut ctx = ready();
    assert!(ctx.process(9).is_ok());
    let after_first = ctx;
    assert_eq!(ctx.process(9), Err(LifecycleError::Guard(PumpError::ProgramCompleted)));
    assert_eq!(ctx, after_first);
    assert_eq!(ctx.check(), Err(LifecycleError::Guard(PumpError::ProgramCompleted)));

    ctx.global_config.is_completed = false;
    let reopened = ctx;
    assert_eq!(ctx.process(9), Err(LifecycleError::Guard(PumpError::CurveAlreadyCompleted)));
    assert_eq!(ctx, reopened);
}

#[test]
fn migrate_wrap_amount_and_range() {
    let mut ctx = ready();
    assert_eq!(ctx.wrap_amount(), 85_000_000_000);
    assert!(ctx.balances_in_range());
    ctx.wrapped_native = Some(WrappedNative { lamports: u64::MAX - 85_000_000_000, amount: 0 });
    assert!(ctx.balances_in_range());
    ctx.wrapped_native = Some(WrappedNative { lamports: u64::MAX - 84_999_999_999, amount: 0 });
    assert!(!ctx.balances_in_range());
    ctx.curve_lamports = 890_880;
    assert_eq!(ctx.wrap_amount(), 0);
    assert!(ctx.balances_in_range());
    ctx.curve_lamports = 85_000_890_880;
    ctx.wrapped_native = None;
    assert_eq!(ctx.wrap_amount(), 0);
    assert!(ctx.balances_in_range());
}
