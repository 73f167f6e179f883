use vstd::prelude::*;

use crate::errors::ErrorCode;
use crate::health::{
    health_factor_result, health_factor_scaled, liquidatable, liquidatable_result, max_mintable, meets_minimum,
    redeemable, redeemable_result, usd_value, LAMPORTS_PER_SOL,
};
use crate::instructions::{burn_result, liquidate_result};
use crate::states::{Address, Collateral, Config};

verus! {

proof fn lemma_floor_div(a: int, b: int)
    requires
        a >= 0,
        b > 0,
    ensures
        (a / b) * b <= a < (a / b) * b + b,
        a / b >= 0,
{
    vstd::arithmetic::div_mod::lemma_fundamental_div_mod(a, b);
    assert(0 <= a % b < b) by {
        vstd::arithmetic::div_mod::lemma_mod_bound(a, b);
    }
    assert((a / b) * b == b * (a / b)) by (nonlinear_arith);
    vstd::arithmetic::div_mod::lemma_div_pos_is_pos(a, b);
}

/// Every conversion of the engine rounds the same way on the same inputs:
/// the USD value, the mintable amount, the redeemable amount and the seized
/// collateral are rounded down, and the health factor is rounded half up.
pub proof fn lemma_truncation_direction(native: u64, price: u64, max_ltv: u64, burn: u64, bonus: u64, threshold: u64, debt: u64)
    ensures
        usd_value(native as int, price as int) * LAMPORTS_PER_SOL <= price * native,
        price * native < (usd_value(native as int, price as int) + price) * LAMPORTS_PER_SOL || price == 0,
        max_mintable(native as int, price as int, max_ltv as int) * 100 <= usd_value(native as int, price as int)
            * max_ltv,
        usd_value(native as int, price as int) * max_ltv < max_mintable(native as int, price as int, max_ltv as int)
            * 100 + 100,
        price > 0 ==> redeemable(burn as int, price as int) * price <= burn * LAMPORTS_PER_SOL,
        price > 0 ==> burn * LAMPORTS_PER_SOL < (redeemable(burn as int, price as int) + LAMPORTS_PER_SOL) * price,
        price > 0 ==> liquidatable(burn as int, price as int, bonus as int) * 100 <= redeemable(burn as int, price as int)
            * (100 + bonus),
        price > 0 ==> redeemable(burn as int, price as int) * (100 + bonus) < liquidatable(
            burn as int,
            price as int,
            bonus as int,
        ) * 100 + 100,
        debt > 0 ==> health_factor_scaled(usd_value(native as int, price as int), threshold as int, debt as int) * (2
            * debt) <= 200 * usd_value(native as int, price as int) * threshold + debt,
        debt > 0 ==> 200 * usd_value(native as int, price as int) * threshold + debt < (health_factor_scaled(
            usd_value(native as int, price as int),
            threshold as int,
            debt as int,
        ) + 1) * (2 * debt),
{
    let l = LAMPORTS_PER_SOL as int;
    let w = native as int / l;
    lemma_floor_div(native as int, l);
    assert(usd_value(native as int, price as int) == price * w);
    assert(price * w * l <= price * native) by (nonlinear_arith)
        requires
            w * l <= native,
            price >= 0,
    ;
    assert(price * native < (price * w + price) * l || price == 0) by (nonlinear_arith)
        requires
            native < w * l + l,
            price >= 0,
    ;
    assert(usd_value(native as int, price as int) >= 0) by (nonlinear_arith)
        requires
            w >= 0,
            price >= 0,
            usd_value(native as int, price as int) == price * w,
    ;
    assert(usd_value(native as int, price as int) * max_ltv >= 0) by (nonlinear_arith)
        requires
            usd_value(native as int, price as int) >= 0,
    ;
    lemma_floor_div(usd_value(native as int, price as int) * max_ltv, 100);
    if price > 0 {
        let q = burn as int / price as int;
        lemma_floor_div(burn as int, price as int);
        assert(q * l * price <= burn * l) by (nonlinear_arith)
            requires
                q * price <= burn,
                l > 0,
        ;
        assert(burn * l < (q * l + l) * price) by (nonlinear_arith)
            requires
                burn < q * price + price,
                l > 0,
        ;
        assert(q * l * (100 + bonus) >= 0) by (nonlinear_arith)
            requires
                q >= 0,
                l > 0,
                bonus >= 0,
        ;
        lemma_floor_div(redeemable(burn as int, price as int) * (100 + bonus), 100);
    }
    if debt > 0 {
        let v = usd_value(native as int, price as int);
        assert(200 * v * threshold + debt >= 0) by (nonlinear_arith)
            requires
                v >= 0,
                threshold >= 0,
                debt > 0,
        ;
        let n = 200 * v * threshold + debt;
        lemma_floor_div(n, 2 * debt);
        let h = health_factor_scaled(v, threshold as int, debt as int);
        assert(h == n / (2 * debt));
        assert((h + 1) * (2 * debt) == h * (2 * debt) + 2 * debt) by (nonlinear_arith);
    }
}

/// No balance of a position ever goes below zero: a redemption or a
/// liquidation that would take more collateral or debt than the position
/// holds is refused with `Underflow` instead.
pub proof fn lemma_overdraw_fails(config: Config, position: Collateral, caller: Address, price: u64, amount: u64)
    ensures
        position.is_initialized && position.depositor@ == caller@ && redeemable_result(amount, price) is Ok && (
        redeemable_result(amount, price)->Ok_0 > position.deposited_asset_lamports || amount
            > position.stablecoin_minted_amount) ==> burn_result(config, position, caller, price, amount) == Err::<
            u64,
            ErrorCode,
        >(ErrorCode::Underflow),
        position.is_initialized && health_factor_result(
            position.deposited_asset_lamports,
            position.stablecoin_minted_amount,
            price,
            config.liquidation_threshold,
        ) is Ok && !meets_minimum(
            health_factor_result(
                position.deposited_asset_lamports,
                position.stablecoin_minted_amount,
                price,
                config.liquidation_threshold,
            )->Ok_0,
            config.min_health_factor,
        ) && liquidatable_result(amount, price, config.liquidation_bonus) is Ok && (liquidatable_result(
            amount,
            price,
            config.liquidation_bonus,
        )->Ok_0 > position.deposited_asset_lamports || amount > position.stablecoin_minted_amount)
            ==> liquidate_result(config, position, price, amount) == Err::<u64, ErrorCode>(ErrorCode::Underflow),
{
}

} // verus!
