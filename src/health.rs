use vstd::prelude::*;

use crate::errors::ErrorCode;
use crate::states::{same_key, HealthFactor, PriceSample};

verus! {

/// Native units of the collateral asset in one whole unit.
pub const LAMPORTS_PER_SOL: u64 = 1_000_000_000;

/// USD value of `native` units at `price` USD per whole unit. The amount is
/// truncated to whole units before it is priced.
pub open spec fn usd_value(native: int, price: int) -> int {
    price * (native / LAMPORTS_PER_SOL as int)
}

/// USD value of a native amount of collateral at `collateral_in_usd` USD per
/// whole unit; fails only when the value does not fit in a `u64`.
pub fn get_collateral_value(native_amount: u64, collateral_in_usd: u64) -> (r: Result<u64, ErrorCode>)
    ensures
        usd_value(native_amount as int, collateral_in_usd as int) <= u64::MAX ==> r == Ok::<u64, ErrorCode>(
            usd_value(native_amount as int, collateral_in_usd as int) as u64,
        ),
        usd_value(native_amount as int, collateral_in_usd as int) > u64::MAX ==> r == Err::<u64, ErrorCode>(
            ErrorCode::ArithmeticOverflow,
        ),
{
    let whole: u64 = native_amount / LAMPORTS_PER_SOL;
    match collateral_in_usd.checked_mul(whole) {
        Some(v) => Ok(v),
        None => Err(ErrorCode::ArithmeticOverflow),
    }
}

/// Debt tokens that may be minted against a deposit: the deposit's USD value
/// times `max_ltv` percent, rounded down.
pub open spec fn max_mintable(deposit: int, price: int, max_ltv: int) -> int {
    usd_value(deposit, price) * max_ltv / 100
}

/// Outcome of pricing a deposit for minting.
pub open spec fn mintable_result(deposit: u64, price: u64, max_ltv: u64) -> Result<u64, ErrorCode> {
    if usd_value(deposit as int, price as int) > u64::MAX {
        Err(ErrorCode::ArithmeticOverflow)
    } else if usd_value(deposit as int, price as int) == 0 {
        Err(ErrorCode::Undefined)
    } else if max_mintable(deposit as int, price as int, max_ltv as int) > u64::MAX {
        Err(ErrorCode::ArithmeticOverflow)
    } else {
        Ok(max_mintable(deposit as int, price as int, max_ltv as int) as u64)
    }
}

/// Native collateral units given back for burning `burn` debt tokens: whole
/// units bought at `price`, rounded down.
pub open spec fn redeemable(burn: int, price: int) -> int {
    (burn / price) * LAMPORTS_PER_SOL as int
}

/// Outcome of converting burnt debt tokens back to collateral.
pub open spec fn redeemable_result(burn: u64, price: u64) -> Result<u64, ErrorCode> {
    if price == 0 {
        Err(ErrorCode::DivisionByZero)
    } else if redeemable(burn as int, price as int) > u64::MAX {
        Err(ErrorCode::ArithmeticOverflow)
    } else {
        Ok(redeemable(burn as int, price as int) as u64)
    }
}

/// Collateral a liquidator seizes for burning `burn` debt tokens: the
/// redeemable amount raised by `bonus` percent, rounded down.
pub open spec fn liquidatable(burn: int, price: int, bonus: int) -> int {
    redeemable(burn, price) * (100 + bonus) / 100
}

/// Outcome of pricing a liquidation.
pub open spec fn liquidatable_result(burn: u64, price: u64, bonus: u64) -> Result<u64, ErrorCode> {
    match redeemable_result(burn, price) {
        Err(e) => Err(e),
        Ok(_) => if liquidatable(burn as int, price as int, bonus as int) > u64::MAX {
            Err(ErrorCode::ArithmeticOverflow)
        } else {
            Ok(liquidatable(burn as int, price as int, bonus as int) as u64)
        },
    }
}

/// Converts a deposit into the debt tokens it may mint. Fails when the
/// deposit is worth nothing at this price (`Undefined`) or a value overflows.
pub fn calc_mintable_amount(deposit_collateral_amount: u64, collateral_in_usd: u64, max_ltv: u64) -> (r:
    Result<u64, ErrorCode>)
    ensures
        r == mintable_result(deposit_collateral_amount, collateral_in_usd, max_ltv),
{
    let collateral_value = match get_collateral_value(deposit_collateral_amount, collateral_in_usd) {
        Ok(v) => v,
        Err(e) => return Err(e),
    };
    if collateral_value == 0 {
        return Err(ErrorCode::Undefined);
    }
    assert((collateral_value as u128) * (max_ltv as u128) <= u128::MAX) by (nonlinear_arith)
        requires
            collateral_value <= u64::MAX,
            max_ltv <= u64::MAX,
    ;
    let value: u128 = (collateral_value as u128) * (max_ltv as u128) / 100;
    if value > u64::MAX as u128 {
        Err(ErrorCode::ArithmeticOverflow)
    } else {
        Ok(value as u64)
    }
}

/// Converts burnt debt tokens back into native collateral units.
pub fn calc_redeemable_amount(amount_to_burn: u64, collateral_in_usd: u64) -> (r: Result<u64, ErrorCode>)
    ensures
        r == redeemable_result(amount_to_burn, collateral_in_usd),
{
    if collateral_in_usd == 0 {
        return Err(ErrorCode::DivisionByZero);
    }
    let whole: u64 = amount_to_burn / collateral_in_usd;
    match whole.checked_mul(LAMPORTS_PER_SOL) {
        Some(v) => Ok(v),
        None => Err(ErrorCode::ArithmeticOverflow),
    }
}

/// Collateral seized for burning `amount_to_burn` debt tokens, bonus included.
pub fn calc_liquidatable_collateral(amount_to_burn: u64, collateral_in_usd: u64, liquidation_bonus: u64) -> (r:
    Result<u64, ErrorCode>)
    ensures
        r == liquidatable_result(amount_to_burn, collateral_in_usd, liquidation_bonus),
{
    let base = match calc_redeemable_amount(amount_to_burn, collateral_in_usd) {
        Ok(v) => v,
        Err(e) => return Err(e),
    };
    let factor: u128 = 100u128 + liquidation_bonus as u128;
    match (base as u128).checked_mul(factor) {
        Some(p) => {
            let seized: u128 = p / 100;
            if seized > u64::MAX as u128 {
                Err(ErrorCode::ArithmeticOverflow)
            } else {
                Ok(seized as u64)
            }
        },
        None => {
            assert(liquidatable(amount_to_burn as int, collateral_in_usd as int, liquidation_bonus as int)
                > u64::MAX) by (nonlinear_arith)
                requires
                    base * factor > u128::MAX,
                    factor >= 100,
                    liquidatable(amount_to_burn as int, collateral_in_usd as int, liquidation_bonus as int)
                        == base * factor / 100,
            ;
            Err(ErrorCode::ArithmeticOverflow)
        },
    }
}

/// Ten thousand times `value * threshold / 100 / debt`, rounded half up:
/// the health factor to four decimals.
pub open spec fn health_factor_scaled(value: int, threshold: int, debt: int) -> int {
    (200 * value * threshold + debt) / (2 * debt)
}

/// Health factor of a position holding `collateral` native units and owing
/// `debt`, with collateral valued at `price` and discounted to `threshold`
/// percent.
pub open spec fn health_factor_result(collateral: u64, debt: u64, price: u64, threshold: u64) -> Result<
    HealthFactor,
    ErrorCode,
> {
    let value = usd_value(collateral as int, price as int);
    if value > u64::MAX {
        Err(ErrorCode::ArithmeticOverflow)
    } else if debt == 0 {
        Ok(HealthFactor::Infinite)
    } else if 200 * value * threshold + debt > u128::MAX {
        Err(ErrorCode::ArithmeticOverflow)
    } else {
        Ok(HealthFactor::Scaled(health_factor_scaled(value, threshold as int, debt as int) as u128))
    }
}

/// Whether a health factor reaches `min_health_factor / 100`.
pub open spec fn meets_minimum(hf: HealthFactor, min_health_factor: u64) -> bool {
    match hf {
        HealthFactor::Infinite => true,
        HealthFactor::Scaled(s) => s >= min_health_factor * 100,
    }
}

/// Whether a position may stand: its health factor can be computed and
/// reaches the minimum.
pub open spec fn is_healthy(collateral: u64, debt: u64, price: u64, threshold: u64, min_health_factor: u64) -> bool {
    match health_factor_result(collateral, debt, price, threshold) {
        Ok(hf) => meets_minimum(hf, min_health_factor),
        Err(_) => false,
    }
}

/// Outcome of checking a position against the minimum health factor.
pub open spec fn health_check_result(
    collateral: u64,
    debt: u64,
    price: u64,
    threshold: u64,
    min_health_factor: u64,
) -> Result<(), ErrorCode> {
    match health_factor_result(collateral, debt, price, threshold) {
        Err(e) => Err(e),
        Ok(hf) => if meets_minimum(hf, min_health_factor) {
            Ok(())
        } else {
            Err(ErrorCode::HealthFactorLessThanOne)
        },
    }
}

/// Balances of a position after a deposit and a mint, if both fit.
pub open spec fn grown(deposited: u64, minted: u64, to_deposit: u64, to_mint: u64) -> Result<(u64, u64), ErrorCode> {
    if deposited + to_deposit > u64::MAX || minted + to_mint > u64::MAX {
        Err(ErrorCode::ArithmeticOverflow)
    } else {
        Ok(((deposited + to_deposit) as u64, (minted + to_mint) as u64))
    }
}

/// Balances of a position after a burn and a redemption, if neither goes
/// below zero.
pub open spec fn shrunk(deposited: u64, minted: u64, to_redeem: u64, to_burn: u64) -> Result<(u64, u64), ErrorCode> {
    if to_redeem > deposited || to_burn > minted {
        Err(ErrorCode::Underflow)
    } else {
        Ok(((deposited - to_redeem) as u64, (minted - to_burn) as u64))
    }
}

/// Health factor of a position with `collateral` native units owing `debt`.
/// A position without debt is infinitely healthy.
pub fn calc_health_factor(collateral: u64, debt: u64, collateral_in_usd: u64, liquidation_threshold: u64) -> (r:
    Result<HealthFactor, ErrorCode>)
    ensures
        r == health_factor_result(collateral, debt, collateral_in_usd, liquidation_threshold),
{
    let value = match get_collateral_value(collateral, collateral_in_usd) {
        Ok(v) => v,
        Err(e) => return Err(e),
    };
    if debt == 0 {
        return Ok(HealthFactor::Infinite);
    }
    assert((value as u128) * (liquidation_threshold as u128) <= u128::MAX) by (nonlinear_arith)
        requires
            value <= u64::MAX,
            liquidation_threshold <= u64::MAX,
    ;
    let product: u128 = (value as u128) * (liquidation_threshold as u128);
    assert(200 * value * liquidation_threshold == 200 * product) by (nonlinear_arith)
        requires
            product == value * liquidation_threshold,
    ;
    let doubled = match product.checked_mul(200) {
        Some(p) => p,
        None => return Err(ErrorCode::ArithmeticOverflow),
    };
    let numerator = match doubled.checked_add(debt as u128) {
        Some(n) => n,
        None => return Err(ErrorCode::ArithmeticOverflow),
    };
    let denominator: u128 = 2 * (debt as u128);
    Ok(HealthFactor::Scaled(numerator / denominator))
}

/// Whether a health factor reaches `min_health_factor / 100`.
pub fn health_factor_meets(hf: HealthFactor, min_health_factor: u64) -> (r: bool)
    ensures
        r == meets_minimum(hf, min_health_factor),
{
    match hf {
        HealthFactor::Infinite => true,
        HealthFactor::Scaled(s) => s >= (min_health_factor as u128) * 100,
    }
}

/// Health factor of a position after `amount_to_deposit` more collateral is
/// locked and `amount_to_mint` more debt is minted.
pub fn calc_health_factor_when_deposit_collateral_and_mint_new_tokens(
    collateral_in_usd: u64,
    amount_deposited: u64,
    amount_minted: u64,
    amount_to_deposit: u64,
    amount_to_mint: u64,
    liquidation_threshold: u64,
) -> (r: Result<HealthFactor, ErrorCode>)
    ensures
        r == (match grown(amount_deposited, amount_minted, amount_to_deposit, amount_to_mint) {
            Err(e) => Err(e),
            Ok((c, d)) => health_factor_result(c, d, collateral_in_usd, liquidation_threshold),
        }),
{
    let collateral = match amount_deposited.checked_add(amount_to_deposit) {
        Some(c) => c,
        None => return Err(ErrorCode::ArithmeticOverflow),
    };
    let debt = match amount_minted.checked_add(amount_to_mint) {
        Some(d) => d,
        None => return Err(ErrorCode::ArithmeticOverflow),
    };
    calc_health_factor(collateral, debt, collateral_in_usd, liquidation_threshold)
}

/// Health factor of a position after `amount_to_redeem` collateral leaves
/// and `amount_to_burn` debt is burnt.
pub fn calc_health_factor_when_burn_tokens_and_redeem_collateral(
    collateral_in_usd: u64,
    amount_deposited: u64,
    amount_minted: u64,
    amount_to_redeem: u64,
    amount_to_burn: u64,
    liquidation_threshold: u64,
) -> (r: Result<HealthFactor, ErrorCode>)
    ensures
        r == (match shrunk(amount_deposited, amount_minted, amount_to_redeem, amount_to_burn) {
            Err(e) => Err(e),
            Ok((c, d)) => health_factor_result(c, d, collateral_in_usd, liquidation_threshold),
        }),
{
    if amount_to_redeem > amount_deposited || amount_to_burn > amount_minted {
        return Err(ErrorCode::Underflow);
    }
    calc_health_factor(
        amount_deposited - amount_to_redeem,
        amount_minted - amount_to_burn,
        collateral_in_usd,
        liquidation_threshold,
    )
}

/// Health factor of a position as it stands, before it is liquidated.
pub fn calc_health_factor_when_liquidate(
    collateral_in_usd: u64,
    collateral_total_amount: u64,
    stablecoin_total_minted: u64,
    liquidation_threshold: u64,
) -> (r: Result<HealthFactor, ErrorCode>)
    ensures
        r == health_factor_result(
            collateral_total_amount,
            stablecoin_total_minted,
            collateral_in_usd,
            liquidation_threshold,
        ),
{
    calc_health_factor(collateral_total_amount, stablecoin_total_minted, collateral_in_usd, liquidation_threshold)
}

/// Refuses a deposit and mint that would leave the position under the
/// minimum health factor.
pub fn check_health_factor_when_deposit_collateral_and_mint_new_tokens(
    collateral_in_usd: u64,
    amount_deposited: u64,
    amount_minted: u64,
    amount_to_deposit: u64,
    amount_to_mint: u64,
    liquidation_threshold: u64,
    configured_min_health_factor: u64,
) -> (r: Result<(), ErrorCode>)
    ensures
        r == (match grown(amount_deposited, amount_minted, amount_to_deposit, amount_to_mint) {
            Err(e) => Err(e),
            Ok((c, d)) => health_check_result(c, d, collateral_in_usd, liquidation_threshold, configured_min_health_factor),
        }),
{
    let hf = match calc_health_factor_when_deposit_collateral_and_mint_new_tokens(
        collateral_in_usd,
        amount_deposited,
        amount_minted,
        amount_to_deposit,
        amount_to_mint,
        liquidation_threshold,
    ) {
        Ok(hf) => hf,
        Err(e) => return Err(e),
    };
    if !health_factor_meets(hf, configured_min_health_factor) {
        return Err(ErrorCode::HealthFactorLessThanOne);
    }
    Ok(())
}

/// Refuses a burn and redemption that would leave the position under the
/// minimum health factor or below zero.
pub fn check_health_factor_when_burn_tokens_and_redeem_collateral(
    collateral_in_usd: u64,
    amount_deposited: u64,
    amount_minted: u64,
    amount_to_redeem: u64,
    amount_to_burn: u64,
    liquidation_threshold: u64,
    configured_min_health_factor: u64,
) -> (r: Result<(), ErrorCode>)
    ensures
        r == (match shrunk(amount_deposited, amount_minted, amount_to_redeem, amount_to_burn) {
            Err(e) => Err(e),
            Ok((c, d)) => health_check_result(c, d, collateral_in_usd, liquidation_threshold, configured_min_health_factor),
        }),
{
    let hf = match calc_health_factor_when_burn_tokens_and_redeem_collateral(
        collateral_in_usd,
        amount_deposited,
        amount_minted,
        amount_to_redeem,
        amount_to_burn,
        liquidation_threshold,
    ) {
        Ok(hf) => hf,
        Err(e) => return Err(e),
    };
    if !health_factor_meets(hf, configured_min_health_factor) {
        return Err(ErrorCode::HealthFactorLessThanOne);
    }
    Ok(())
}

/// Outcome of accepting an oracle sample: it must be fully verified, belong
/// to `feed_id`, be at most `max_age` seconds older than `now`, and carry a
/// price that is not negative.
pub open spec fn price_result(sample: PriceSample, feed_id: Seq<u8>, now: i64, max_age: u64) -> Result<u64, ErrorCode> {
    if !sample.fully_verified {
        Err(ErrorCode::InvalidPrice)
    } else if sample.feed_id@ != feed_id {
        Err(ErrorCode::FeedMismatch)
    } else if now - sample.publish_time > max_age {
        Err(ErrorCode::StalePrice)
    } else if sample.price < 0 {
        Err(ErrorCode::InvalidPrice)
    } else {
        Ok(sample.price as u64)
    }
}

/// Reads the collateral's USD price per whole unit from an oracle sample,
/// trusting it only for the expected feed and within the freshness window.
pub fn get_collateral_in_usd(price_update: &PriceSample, feed_id: &[u8; 32], now: i64, max_age: u64) -> (r: Result<
    u64,
    ErrorCode,
>)
    ensures
        r == price_result(*price_update, feed_id@, now, max_age),
{
    if !price_update.fully_verified {
        return Err(ErrorCode::InvalidPrice);
    }
    if !same_key(&price_update.feed_id, feed_id) {
        return Err(ErrorCode::FeedMismatch);
    }
    if (now as i128) - (price_update.publish_time as i128) > max_age as i128 {
        return Err(ErrorCode::StalePrice);
    }
    if price_update.price < 0 {
        return Err(ErrorCode::InvalidPrice);
    }
    Ok(price_update.price as u64)
}

} // verus!
