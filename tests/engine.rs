use stablecoin::{
    burn_and_redeem_handler, calc_health_factor, calc_health_factor_when_burn_tokens_and_redeem_collateral,
    calc_health_factor_when_deposit_collateral_and_mint_new_tokens, calc_health_factor_when_liquidate,
    calc_liquidatable_collateral, calc_mintable_amount, calc_redeemable_amount,
    check_health_factor_when_burn_tokens_and_redeem_collateral,
    check_health_factor_when_deposit_collateral_and_mint_new_tokens, deposit_collateral_and_mint_tokens_handler,
    get_collateral_in_usd, get_collateral_value, health_factor_meets, init_config_handler, liquidator_handler,
    process_burn_and_redeem, process_deposit_and_mint, process_liquidate, same_key, update_config_handler, Address,
    Collateral, Config, ErrorCode, HealthFactor, PositionKeys, PriceFeed, PriceSample, LAMPORTS_PER_SOL,
};

fn addr(b: u8) -> Address {
    Address { bytes: [b; 32] }
}

fn config(max_ltv: u64, threshold: u64, bonus: u64, min_hf: u64) -> Config {
    init_config_handler(addr(1), addr(2), 1_700_000_000, max_ltv, threshold, bonus, min_hf, 254, 253).unwrap()
}

fn keys(depositor: u8) -> PositionKeys {
    PositionKeys {
        depositor: addr(depositor),
        deposited_asset_account: addr(depositor.wrapping_add(100)),
        receive_stablecoin_account: addr(depositor.wrapping_add(200)),
        self_bump: 250,
        deposited_asset_account_bump: 251,
    }
}

fn position(depositor: u8, collateral: u64, debt: u64) -> Collateral {
    let k = keys(depositor);
    Collateral {
        depositor: k.depositor,
        deposited_asset_account: k.deposited_asset_account,
        receive_stablecoin_account: k.receive_stablecoin_account,
        deposited_asset_lamports: collateral,
        stablecoin_minted_amount: debt,
        self_bump: k.self_bump,
        deposited_asset_account_bump: k.deposited_asset_account_bump,
        is_initialized: true,
        init_time: 10,
        last_update_time: 10,
    }
}

fn same_position(a: &Collateral, b: &Collateral) -> bool {
    format!("{:?}", a) == format!("{:?}", b)
}

fn same_config(a: &Config, b: &Config) -> bool {
    format!("{:?}", a) == format!("{:?}", b)
}

const FEED: [u8; 32] = [7u8; 32];

fn sample(price: i64, publish_time: i64) -> PriceSample {
    PriceSample { feed_id: FEED, price, publish_time, fully_verified: true }
}

fn feed() -> PriceFeed {
    PriceFeed { feed_id: FEED, max_age: 100 }
}

#[test]
fn scenario_a_mintable_amount() {
    assert_eq!(calc_mintable_amount(1_000_000_000, 150, 50), Ok(75));
}

#[test]
fn scenario_b_healthy_position_cannot_be_liquidated() {
    let cfg = config(50, 80, 10, 100);
    assert_eq!(calc_health_factor_when_liquidate(150, 1_000_000_000, 75, 80), Ok(HealthFactor::Scaled(16000)));
    let before = position(5, 1_000_000_000, 75);
    let mut pos = before;
    assert_eq!(
        liquidator_handler(&cfg, &mut pos, 150, 75, 99),
        Err(ErrorCode::HealthFactorGreaterThanMinHealthFactor)
    );
    assert!(same_position(&pos, &before));
}

#[test]
fn scenario_c_oversized_liquidation_is_refused() {
    let cfg = config(50, 80, 10, 100);
    assert_eq!(calc_health_factor_when_liquidate(60, 1_000_000_000, 75, 80), Ok(HealthFactor::Scaled(6400)));
    assert_eq!(calc_liquidatable_collateral(75, 60, 10), Ok(1_100_000_000));
    let before = position(5, 1_000_000_000, 75);
    let mut pos = before;
    assert_eq!(liquidator_handler(&cfg, &mut pos, 60, 75, 99), Err(ErrorCode::Underflow));
    assert!(same_position(&pos, &before));
}

#[test]
fn scenario_d_update_by_stranger_is_refused() {
    let before = config(50, 80, 10, 100);
    let mut cfg = before;
    assert_eq!(
        update_config_handler(&mut cfg, &addr(9), 2_000, Some(70), Some(5), Some(120)),
        Err(ErrorCode::Unauthorized)
    );
    assert!(same_config(&cfg, &before));
}

#[test]
fn usd_value_truncates_to_whole_units_first() {
    assert_eq!(get_collateral_value(1_999_999_999, 150), Ok(150));
    assert_eq!(get_collateral_value(999_999_999, 150), Ok(0));
    assert_eq!(get_collateral_value(3 * LAMPORTS_PER_SOL, 7), Ok(21));
    assert_eq!(get_collateral_value(u64::MAX, u64::MAX), Err(ErrorCode::ArithmeticOverflow));
}

#[test]
fn mintable_amount_rounds_down_and_refuses_worthless_deposits() {
    assert_eq!(calc_mintable_amount(1_000_000_000, 151, 50), Ok(75));
    assert_eq!(calc_mintable_amount(2_500_000_000, 33, 33), Ok(21));
    assert_eq!(calc_mintable_amount(999_999_999, 150, 50), Err(ErrorCode::Undefined));
    assert_eq!(calc_mintable_amount(1_000_000_000, 0, 50), Err(ErrorCode::Undefined));
    assert_eq!(calc_mintable_amount(1_000_000_000, u64::MAX, 200), Err(ErrorCode::ArithmeticOverflow));
    assert_eq!(calc_mintable_amount(u64::MAX, u64::MAX, 50), Err(ErrorCode::ArithmeticOverflow));
}

#[test]
fn redeemable_amount_buys_whole_units() {
    assert_eq!(calc_redeemable_amount(75, 60), Ok(1_000_000_000));
    assert_eq!(calc_redeemable_amount(59, 60), Ok(0));
    assert_eq!(calc_redeemable_amount(300, 150), Ok(2_000_000_000));
    assert_eq!(calc_redeemable_amount(75, 0), Err(ErrorCode::DivisionByZero));
    assert_eq!(calc_redeemable_amount(u64::MAX, 1), Err(ErrorCode::ArithmeticOverflow));
}

#[test]
fn liquidatable_collateral_adds_the_bonus() {
    assert_eq!(calc_liquidatable_collateral(120, 60, 0), Ok(2_000_000_000));
    assert_eq!(calc_liquidatable_collateral(120, 60, 5), Ok(2_100_000_000));
    assert_eq!(calc_liquidatable_collateral(120, 0, 5), Err(ErrorCode::DivisionByZero));
    assert_eq!(calc_liquidatable_collateral(18_000_000_000, 1, 10), Err(ErrorCode::ArithmeticOverflow));
}

#[test]
fn health_factor_rounds_half_up_to_four_decimals() {
    assert_eq!(calc_health_factor(1_000_000_000, 3, 1, 100), Ok(HealthFactor::Scaled(3333)));
    assert_eq!(calc_health_factor(1_000_000_000, 3, 2, 100), Ok(HealthFactor::Scaled(6667)));
    assert_eq!(calc_health_factor(1_000_000_000, 8, 1, 1), Ok(HealthFactor::Scaled(13)));
    assert_eq!(calc_health_factor(1_000_000_000, 16, 1, 1), Ok(HealthFactor::Scaled(6)));
    assert_eq!(calc_health_factor(0, 16, 150, 80), Ok(HealthFactor::Scaled(0)));
}

#[test]
fn health_factor_without_debt_is_infinite() {
    assert_eq!(calc_health_factor(1_000_000_000, 0, 150, 80), Ok(HealthFactor::Infinite));
    assert_eq!(calc_health_factor(0, 0, 0, 0), Ok(HealthFactor::Infinite));
    assert!(health_factor_meets(HealthFactor::Infinite, u64::MAX));
    assert!(health_factor_meets(HealthFactor::Scaled(10000), 100));
    assert!(!health_factor_meets(HealthFactor::Scaled(9999), 100));
}

#[test]
fn health_factor_overflow_is_reported() {
    assert_eq!(calc_health_factor(u64::MAX, 1, u64::MAX, 1), Err(ErrorCode::ArithmeticOverflow));
    assert_eq!(
        calc_health_factor(1_000_000_000, 1, u64::MAX, u64::MAX),
        Err(ErrorCode::ArithmeticOverflow)
    );
}

#[test]
fn prospective_health_factors() {
    assert_eq!(
        calc_health_factor_when_deposit_collateral_and_mint_new_tokens(150, 1_000_000_000, 75, 1_000_000_000, 75, 80),
        Ok(HealthFactor::Scaled(16000))
    );
    assert_eq!(
        calc_health_factor_when_deposit_collateral_and_mint_new_tokens(150, u64::MAX, 0, 1, 0, 80),
        Err(ErrorCode::ArithmeticOverflow)
    );
    assert_eq!(
        calc_health_factor_when_burn_tokens_and_redeem_collateral(150, 2_000_000_000, 150, 1_000_000_000, 75, 80),
        Ok(HealthFactor::Scaled(16000))
    );
    assert_eq!(
        calc_health_factor_when_burn_tokens_and_redeem_collateral(150, 2_000_000_000, 150, 3_000_000_000, 0, 80),
        Err(ErrorCode::Underflow)
    );
    assert_eq!(
        calc_health_factor_when_burn_tokens_and_redeem_collateral(150, 2_000_000_000, 150, 0, 151, 80),
        Err(ErrorCode::Underflow)
    );
}

#[test]
fn health_checks_compare_with_the_configured_minimum() {
    assert_eq!(
        check_health_factor_when_deposit_collateral_and_mint_new_tokens(150, 0, 0, 1_000_000_000, 75, 80, 160),
        Ok(())
    );
    assert_eq!(
        check_health_factor_when_deposit_collateral_and_mint_new_tokens(150, 0, 0, 1_000_000_000, 75, 80, 161),
        Err(ErrorCode::HealthFactorLessThanOne)
    );
    assert_eq!(
        check_health_factor_when_burn_tokens_and_redeem_collateral(150, 2_000_000_000, 150, 1_000_000_000, 75, 40, 100),
        Err(ErrorCode::HealthFactorLessThanOne)
    );
    assert_eq!(
        check_health_factor_when_burn_tokens_and_redeem_collateral(150, 2_000_000_000, 150, 2_000_000_000, 150, 40, 100),
        Ok(())
    );
}

#[test]
fn first_deposit_opens_the_position() {
    let cfg = config(50, 80, 10, 100);
    let mut pos = Collateral::unopened();
    assert_eq!(deposit_collateral_and_mint_tokens_handler(&cfg, &mut pos, &keys(5), 150, 2_000_000_000, 42), Ok(150));
    let expected = Collateral {
        deposited_asset_lamports: 2_000_000_000,
        stablecoin_minted_amount: 150,
        init_time: 42,
        last_update_time: 42,
        ..position(5, 0, 0)
    };
    assert!(same_position(&pos, &expected));
    assert_eq!(deposit_collateral_and_mint_tokens_handler(&cfg, &mut pos, &keys(5), 150, 1_000_000_000, 43), Ok(75));
    assert_eq!(pos.deposited_asset_lamports, 3_000_000_000);
    assert_eq!(pos.stablecoin_minted_amount, 225);
    assert_eq!(pos.init_time, 42);
    assert_eq!(pos.last_update_time, 43);
}

#[test]
fn deposit_that_breaks_the_minimum_is_refused() {
    let cfg = config(50, 40, 10, 100);
    let before = position(5, 0, 0);
    let mut pos = before;
    assert_eq!(
        deposit_collateral_and_mint_tokens_handler(&cfg, &mut pos, &keys(5), 150, 1_000_000_000, 42),
        Err(ErrorCode::HealthFactorLessThanOne)
    );
    assert!(same_position(&pos, &before));
}

#[test]
fn deposit_into_another_position_is_refused() {
    let cfg = config(50, 80, 10, 100);
    let before = position(5, 1_000_000_000, 75);
    let mut pos = before;
    assert_eq!(
        deposit_collateral_and_mint_tokens_handler(&cfg, &mut pos, &keys(6), 150, 1_000_000_000, 42),
        Err(ErrorCode::Unauthorized)
    );
    assert!(same_position(&pos, &before));
}

#[test]
fn worthless_deposit_is_refused() {
    let cfg = config(50, 80, 10, 100);
    let mut pos = Collateral::unopened();
    assert_eq!(
        deposit_collateral_and_mint_tokens_handler(&cfg, &mut pos, &keys(5), 150, 500_000_000, 42),
        Err(ErrorCode::Undefined)
    );
    assert!(!pos.is_initialized);
}

#[test]
fn burn_and_redeem_shrinks_the_position() {
    let cfg = config(50, 80, 10, 100);
    let mut pos = position(5, 3_000_000_000, 300);
    assert_eq!(burn_and_redeem_handler(&cfg, &mut pos, &addr(5), 150, 150, 50), Ok(1_000_000_000));
    assert_eq!(pos.deposited_asset_lamports, 2_000_000_000);
    assert_eq!(pos.stablecoin_minted_amount, 150);
    assert_eq!(pos.last_update_time, 50);
    assert_eq!(burn_and_redeem_handler(&cfg, &mut pos, &addr(5), 150, 75, 51), Ok(0));
    assert_eq!(pos.deposited_asset_lamports, 2_000_000_000);
    assert_eq!(pos.stablecoin_minted_amount, 75);
    assert_eq!(burn_and_redeem_handler(&cfg, &mut pos, &addr(5), 75, 75, 52), Ok(1_000_000_000));
    assert_eq!(pos.deposited_asset_lamports, 1_000_000_000);
    assert_eq!(pos.stablecoin_minted_amount, 0);
}

#[test]
fn burn_and_redeem_refusals_leave_the_position() {
    let cfg = config(50, 80, 10, 100);
    let before = position(5, 2_000_000_000, 150);
    let mut pos = before;
    assert_eq!(burn_and_redeem_handler(&cfg, &mut pos, &addr(5), 150, 151, 50), Err(ErrorCode::Underflow));
    assert_eq!(burn_and_redeem_handler(&cfg, &mut pos, &addr(5), 1, 150, 50), Err(ErrorCode::Underflow));
    assert_eq!(burn_and_redeem_handler(&cfg, &mut pos, &addr(6), 150, 75, 50), Err(ErrorCode::Unauthorized));
    assert_eq!(burn_and_redeem_handler(&cfg, &mut pos, &addr(5), 0, 75, 50), Err(ErrorCode::DivisionByZero));
    assert_eq!(burn_and_redeem_handler(&cfg, &mut pos, &addr(5), 20, 20, 50), Err(ErrorCode::HealthFactorLessThanOne));
    assert!(same_position(&pos, &before));
    let mut fresh = Collateral::unopened();
    assert_eq!(burn_and_redeem_handler(&cfg, &mut fresh, &addr(5), 150, 75, 50), Err(ErrorCode::NotFound));
}

#[test]
fn liquidation_of_unhealthy_position_seizes_collateral() {
    let cfg = config(50, 80, 10, 100);
    let mut pos = position(5, 2_000_000_000, 150);
    assert_eq!(liquidator_handler(&cfg, &mut pos, 60, 60, 77), Ok(1_100_000_000));
    assert_eq!(pos.deposited_asset_lamports, 900_000_000);
    assert_eq!(pos.stablecoin_minted_amount, 90);
    assert_eq!(pos.last_update_time, 77);
}

#[test]
fn liquidation_refusals_leave_the_position() {
    let cfg = config(50, 80, 10, 100);
    let before = position(5, 2_000_000_000, 150);
    let mut pos = before;
    assert_eq!(liquidator_handler(&cfg, &mut pos, 60, 151, 77), Err(ErrorCode::Underflow));
    let no_debt = position(5, 2_000_000_000, 0);
    let mut pos2 = no_debt;
    assert_eq!(
        liquidator_handler(&cfg, &mut pos2, 1, 0, 77),
        Err(ErrorCode::HealthFactorGreaterThanMinHealthFactor)
    );
    assert!(same_position(&pos, &before));
    assert!(same_position(&pos2, &no_debt));
    let mut fresh = Collateral::unopened();
    assert_eq!(liquidator_handler(&cfg, &mut fresh, 60, 60, 77), Err(ErrorCode::NotFound));
}

#[test]
fn oracle_sample_acceptance() {
    assert_eq!(get_collateral_in_usd(&sample(150, 1_000), &FEED, 1_100, 100), Ok(150));
    assert_eq!(get_collateral_in_usd(&sample(150, 1_000), &FEED, 1_101, 100), Err(ErrorCode::StalePrice));
    assert_eq!(get_collateral_in_usd(&sample(150, 1_000), &[8u8; 32], 1_000, 100), Err(ErrorCode::FeedMismatch));
    assert_eq!(get_collateral_in_usd(&sample(-1, 1_000), &FEED, 1_000, 100), Err(ErrorCode::InvalidPrice));
    let mut partial = sample(150, 1_000);
    partial.fully_verified = false;
    assert_eq!(get_collateral_in_usd(&partial, &FEED, 1_000, 100), Err(ErrorCode::InvalidPrice));
    assert_eq!(get_collateral_in_usd(&sample(150, i64::MAX), &FEED, i64::MIN, u64::MAX), Ok(150));
    assert_eq!(get_collateral_in_usd(&sample(150, i64::MIN), &FEED, i64::MAX, u64::MAX), Ok(150));
    assert_eq!(get_collateral_in_usd(&sample(150, i64::MIN), &FEED, i64::MAX, u64::MAX - 1), Err(ErrorCode::StalePrice));
}

#[test]
fn operations_read_a_fresh_price() {
    let cfg = config(50, 80, 10, 100);
    let mut pos = Collateral::unopened();
    assert_eq!(process_deposit_and_mint(&cfg, &mut pos, &keys(5), &feed(), &sample(150, 900), 1_100, 1_000_000_000), Err(ErrorCode::StalePrice));
    assert!(!pos.is_initialized);
    assert_eq!(process_deposit_and_mint(&cfg, &mut pos, &keys(5), &feed(), &sample(150, 1_000), 1_100, 1_000_000_000), Ok(75));
    assert_eq!(process_liquidate(&cfg, &mut pos, &feed(), &sample(150, 1_000), 1_100, 75), Err(ErrorCode::HealthFactorGreaterThanMinHealthFactor));
    assert_eq!(process_burn_and_redeem(&cfg, &mut pos, &addr(5), &feed(), &sample(150, 1_000), 1_100, 75), Ok(0));
    assert_eq!(pos.stablecoin_minted_amount, 0);
    let mut pos2 = position(5, 1_000_000_000, 75);
    assert_eq!(process_liquidate(&cfg, &mut pos2, &feed(), &sample(60, 1_000), 1_100, 60), Err(ErrorCode::Underflow));
    assert_eq!(pos2.deposited_asset_lamports, 1_000_000_000);
}

#[test]
fn init_config_validates_parameters() {
    assert_eq!(init_config_handler(addr(1), addr(2), 5, 0, 80, 10, 100, 1, 2).err(), Some(ErrorCode::ValidationError));
    assert_eq!(init_config_handler(addr(1), addr(2), 5, 101, 80, 10, 100, 1, 2).err(), Some(ErrorCode::ValidationError));
    assert_eq!(init_config_handler(addr(1), addr(2), 5, 50, 101, 10, 100, 1, 2).err(), Some(ErrorCode::ValidationError));
    let cfg = init_config_handler(addr(1), addr(2), 5, 100, 100, 10, 100, 1, 2).unwrap();
    assert_eq!(cfg.max_ltv, 100);
    assert_eq!(cfg.liquidation_threshold, 100);
    assert_eq!(cfg.liquidation_bonus, 10);
    assert_eq!(cfg.min_health_factor, 100);
    assert_eq!(cfg.init_time, 5);
    assert_eq!(cfg.last_update_time, 5);
    assert!(cfg.authority.same_as(&addr(1)));
    assert!(cfg.mint_account.same_as(&addr(2)));
}

#[test]
fn update_config_patches_given_fields() {
    let mut cfg = config(50, 80, 10, 100);
    assert_eq!(update_config_handler(&mut cfg, &addr(1), 2_000, Some(70), None, Some(120)), Ok(()));
    assert_eq!(cfg.liquidation_threshold, 70);
    assert_eq!(cfg.liquidation_bonus, 10);
    assert_eq!(cfg.min_health_factor, 120);
    assert_eq!(cfg.max_ltv, 50);
    assert_eq!(cfg.last_update_time, 2_000);
    let before = cfg;
    assert_eq!(update_config_handler(&mut cfg, &addr(1), 3_000, Some(101), Some(3), None), Err(ErrorCode::ValidationError));
    assert!(same_config(&cfg, &before));
}

#[test]
fn key_comparison() {
    assert!(same_key(&[3u8; 32], &[3u8; 32]));
    let mut other = [3u8; 32];
    other[31] = 4;
    assert!(!same_key(&[3u8; 32], &other));
    assert!(!addr(1).same_as(&addr(2)));
}
