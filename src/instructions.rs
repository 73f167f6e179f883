use vstd::prelude::*;

use crate::errors::ErrorCode;
use crate::health::{
    calc_health_factor_when_liquidate, calc_liquidatable_collateral, calc_mintable_amount, calc_redeemable_amount,
    check_health_factor_when_burn_tokens_and_redeem_collateral,
    check_health_factor_when_deposit_collateral_and_mint_new_tokens, grown, health_check_result,
    health_factor_meets, health_factor_result, is_healthy, liquidatable_result, meets_minimum, mintable_result,
    redeemable_result, shrunk,
};
use crate::states::{Address, Collateral, Config, PositionKeys};

verus! {

/// Whether risk parameters are acceptable: a loan-to-value in `1..=100` and a
/// liquidation threshold of at most 100 percent.
pub open spec fn valid_risk_parameters(max_ltv: u64, liquidation_threshold: u64) -> bool {
    0 < max_ltv <= 100 && liquidation_threshold <= 100
}

/// The configuration after an update by its authority: each given parameter
/// replaces the stored one.
pub open spec fn patched_config(
    config: Config,
    liquidation_threshold: Option<u64>,
    liquidation_bonus: Option<u64>,
    min_health_factor: Option<u64>,
    now: i64,
) -> Config {
    Config {
        liquidation_threshold: match liquidation_threshold {
            Some(t) => t,
            None => config.liquidation_threshold,
        },
        liquidation_bonus: match liquidation_bonus {
            Some(b) => b,
            None => config.liquidation_bonus,
        },
        min_health_factor: match min_health_factor {
            Some(m) => m,
            None => config.min_health_factor,
        },
        last_update_time: now,
        ..config
    }
}

/// Outcome of an update of the configuration by `caller`.
pub open spec fn update_result(config: Config, caller: Address, liquidation_threshold: Option<u64>) -> Result<
    (),
    ErrorCode,
> {
    if caller@ != config.authority@ {
        Err(ErrorCode::Unauthorized)
    } else if liquidation_threshold is Some && liquidation_threshold->Some_0 > 100 {
        Err(ErrorCode::ValidationError)
    } else {
        Ok(())
    }
}

/// Whether `keys` name the owner and custody account recorded in `position`.
pub open spec fn owned_by(position: Collateral, keys: PositionKeys) -> bool {
    position.depositor@ == keys.depositor@ && position.deposited_asset_account@ == keys.deposited_asset_account@
}

/// The position as a deposit finds it: unchanged if it was opened before,
/// else opened now for `keys` with empty balances.
pub open spec fn opened(position: Collateral, keys: PositionKeys, now: i64) -> Collateral {
    if position.is_initialized {
        position
    } else {
        Collateral {
            depositor: keys.depositor,
            deposited_asset_account: keys.deposited_asset_account,
            receive_stablecoin_account: keys.receive_stablecoin_account,
            deposited_asset_lamports: 0,
            stablecoin_minted_amount: 0,
            self_bump: keys.self_bump,
            deposited_asset_account_bump: keys.deposited_asset_account_bump,
            is_initialized: true,
            init_time: now,
            last_update_time: now,
        }
    }
}

/// The position with new balances, stamped at `now`.
pub open spec fn with_balances(position: Collateral, collateral: u64, debt: u64, now: i64) -> Collateral {
    Collateral {
        deposited_asset_lamports: collateral,
        stablecoin_minted_amount: debt,
        last_update_time: now,
        ..position
    }
}

/// Outcome of depositing `amount` and minting against it: the amount minted.
pub open spec fn deposit_result(
    config: Config,
    position: Collateral,
    keys: PositionKeys,
    price: u64,
    amount: u64,
) -> Result<u64, ErrorCode> {
    let start = opened(position, keys, 0);
    if position.is_initialized && !owned_by(position, keys) {
        Err(ErrorCode::Unauthorized)
    } else {
        match mintable_result(amount, price, config.max_ltv) {
            Err(e) => Err(e),
            Ok(m) => match grown(start.deposited_asset_lamports, start.stablecoin_minted_amount, amount, m) {
                Err(e) => Err(e),
                Ok((c, d)) => match health_check_result(
                    c,
                    d,
                    price,
                    config.liquidation_threshold,
                    config.min_health_factor,
                ) {
                    Err(e) => Err(e),
                    Ok(_) => Ok(m),
                },
            },
        }
    }
}

/// Outcome of burning `amount` debt tokens of a position and redeeming its
/// collateral: the collateral given back.
pub open spec fn burn_result(config: Config, position: Collateral, caller: Address, price: u64, amount: u64) -> Result<
    u64,
    ErrorCode,
> {
    if !position.is_initialized {
        Err(ErrorCode::NotFound)
    } else if position.depositor@ != caller@ {
        Err(ErrorCode::Unauthorized)
    } else {
        match redeemable_result(amount, price) {
            Err(e) => Err(e),
            Ok(r) => match shrunk(position.deposited_asset_lamports, position.stablecoin_minted_amount, r, amount) {
                Err(e) => Err(e),
                Ok((c, d)) => match health_check_result(
                    c,
                    d,
                    price,
                    config.liquidation_threshold,
                    config.min_health_factor,
                ) {
                    Err(e) => Err(e),
                    Ok(_) => Ok(r),
                },
            },
        }
    }
}

/// Outcome of a liquidation that burns `amount` debt tokens of the
/// liquidator: the collateral seized.
pub open spec fn liquidate_result(config: Config, position: Collateral, price: u64, amount: u64) -> Result<
    u64,
    ErrorCode,
> {
    if !position.is_initialized {
        Err(ErrorCode::NotFound)
    } else {
        match health_factor_result(
            position.deposited_asset_lamports,
            position.stablecoin_minted_amount,
            price,
            config.liquidation_threshold,
        ) {
            Err(e) => Err(e),
            Ok(hf) => if meets_minimum(hf, config.min_health_factor) {
                Err(ErrorCode::HealthFactorGreaterThanMinHealthFactor)
            } else {
                match liquidatable_result(amount, price, config.liquidation_bonus) {
                    Err(e) => Err(e),
                    Ok(s) => match shrunk(
                        position.deposited_asset_lamports,
                        position.stablecoin_minted_amount,
                        s,
                        amount,
                    ) {
                        Err(e) => Err(e),
                        Ok(_) => Ok(s),
                    },
                }
            },
        }
    }
}

/// Creates the configuration of a stablecoin instance created at
/// `timestamp`. Fails with `ValidationError` when the risk parameters are
/// out of range.
pub fn init_config_handler(
    authority: Address,
    mint_account: Address,
    timestamp: i64,
    max_ltv: u64,
    liquidation_threshold: u64,
    liquidation_bonus: u64,
    min_health_factor: u64,
    self_bump: u8,
    mint_account_bump: u8,
) -> (r: Result<Config, ErrorCode>)
    ensures
        r is Ok <==> valid_risk_parameters(max_ltv, liquidation_threshold),
        r is Err ==> r == Err::<Config, ErrorCode>(ErrorCode::ValidationError),
        r is Ok ==> r->Ok_0 == (Config {
            authority,
            mint_account,
            max_ltv,
            liquidation_threshold,
            liquidation_bonus,
            min_health_factor,
            self_bump,
            mint_account_bump,
            init_time: timestamp,
            last_update_time: timestamp,
        }),
{
    if max_ltv == 0 || max_ltv > 100 || liquidation_threshold > 100 {
        return Err(ErrorCode::ValidationError);
    }
    Ok(Config {
        authority,
        mint_account,
        max_ltv,
        liquidation_threshold,
        liquidation_bonus,
        min_health_factor,
        self_bump,
        mint_account_bump,
        init_time: timestamp,
        last_update_time: timestamp,
    })
}

/// Lets the configuration's authority replace any of the liquidation
/// threshold, the liquidation bonus and the minimum health factor. Anyone
/// else is refused with `Unauthorized`; a refused update changes nothing.
pub fn update_config_handler(
    config_account: &mut Config,
    authority: &Address,
    now: i64,
    liquidation_threshold: Option<u64>,
    liquidation_bonus: Option<u64>,
    min_health_factor: Option<u64>,
) -> (r: Result<(), ErrorCode>)
    ensures
        r == update_result(*old(config_account), *authority, liquidation_threshold),
        r is Ok ==> *final(config_account) == patched_config(
            *old(config_account),
            liquidation_threshold,
            liquidation_bonus,
            min_health_factor,
            now,
        ),
        r is Err ==> *final(config_account) == *old(config_account),
{
    if !authority.same_as(&config_account.authority) {
        return Err(ErrorCode::Unauthorized);
    }
    if let Some(threshold) = liquidation_threshold {
        if threshold > 100 {
            return Err(ErrorCode::ValidationError);
        }
        config_account.liquidation_threshold = threshold;
    }
    if let Some(bonus) = liquidation_bonus {
        config_account.liquidation_bonus = bonus;
    }
    if let Some(factor) = min_health_factor {
        config_account.min_health_factor = factor;
    }
    config_account.last_update_time = now;
    Ok(())
}

/// Locks `amount_to_deposit` more collateral in the position and mints the
/// most debt the loan-to-value allows against it, opening the position on
/// first use. Returns the amount minted. Refused when the position belongs to
/// others, the deposit is worth nothing, a value overflows, or the grown
/// position would fall under the minimum health factor.
pub fn deposit_collateral_and_mint_tokens_handler(
    config_account: &Config,
    collateral_account: &mut Collateral,
    keys: &PositionKeys,
    collateral_in_usd: u64,
    amount_to_deposit: u64,
    now: i64,
) -> (r: Result<u64, ErrorCode>)
    ensures
        r == deposit_result(*config_account, *old(collateral_account), *keys, collateral_in_usd, amount_to_deposit),
        r is Ok ==> *final(collateral_account) == with_balances(
            opened(*old(collateral_account), *keys, now),
            (opened(*old(collateral_account), *keys, now).deposited_asset_lamports + amount_to_deposit) as u64,
            (opened(*old(collateral_account), *keys, now).stablecoin_minted_amount + r->Ok_0) as u64,
            now,
        ),
        r is Ok ==> is_healthy(
            final(collateral_account).deposited_asset_lamports,
            final(collateral_account).stablecoin_minted_amount,
            collateral_in_usd,
            config_account.liquidation_threshold,
            config_account.min_health_factor,
        ),
        r is Err ==> *final(collateral_account) == *old(collateral_account),
{
    let mut position = *collateral_account;
    if position.is_initialized {
        if !position.depositor.same_as(&keys.depositor) || !position.deposited_asset_account.same_as(
            &keys.deposited_asset_account,
        ) {
            return Err(ErrorCode::Unauthorized);
        }
    } else {
        position = Collateral {
            depositor: keys.depositor,
            deposited_asset_account: keys.deposited_asset_account,
            receive_stablecoin_account: keys.receive_stablecoin_account,
            deposited_asset_lamports: 0,
            stablecoin_minted_amount: 0,
            self_bump: keys.self_bump,
            deposited_asset_account_bump: keys.deposited_asset_account_bump,
            is_initialized: true,
            init_time: now,
            last_update_time: now,
        };
    }
    let mintable_amount = match calc_mintable_amount(amount_to_deposit, collateral_in_usd, config_account.max_ltv) {
        Ok(m) => m,
        Err(e) => return Err(e),
    };
    match check_health_factor_when_deposit_collateral_and_mint_new_tokens(
        collateral_in_usd,
        position.deposited_asset_lamports,
        position.stablecoin_minted_amount,
        amount_to_deposit,
        mintable_amount,
        config_account.liquidation_threshold,
        config_account.min_health_factor,
    ) {
        Ok(()) => {},
        Err(e) => return Err(e),
    }
    position.deposited_asset_lamports = position.deposited_asset_lamports + amount_to_deposit;
    position.stablecoin_minted_amount = position.stablecoin_minted_amount + mintable_amount;
    position.last_update_time = now;
    *collateral_account = position;
    Ok(mintable_amount)
}

/// Burns `amount_to_burn` of the depositor's debt tokens and gives back the
/// collateral they buy at the current price. Returns the collateral
/// redeemed. Refused when the position is unknown or belongs to another,
/// the price is zero, a balance would go below zero, or the shrunk position
/// would fall under the minimum health factor.
pub fn burn_and_redeem_handler(
    config_account: &Config,
    collateral_account: &mut Collateral,
    depositor: &Address,
    collateral_in_usd: u64,
    amount_to_burn: u64,
    now: i64,
) -> (r: Result<u64, ErrorCode>)
    ensures
        r == burn_result(*config_account, *old(collateral_account), *depositor, collateral_in_usd, amount_to_burn),
        r is Ok ==> *final(collateral_account) == with_balances(
            *old(collateral_account),
            (old(collateral_account).deposited_asset_lamports - r->Ok_0) as u64,
            (old(collateral_account).stablecoin_minted_amount - amount_to_burn) as u64,
            now,
        ),
        r is Ok ==> is_healthy(
            final(collateral_account).deposited_asset_lamports,
            final(collateral_account).stablecoin_minted_amount,
            collateral_in_usd,
            config_account.liquidation_threshold,
            config_account.min_health_factor,
        ),
        r is Err ==> *final(collateral_account) == *old(collateral_account),
{
    if !collateral_account.is_initialized {
        return Err(ErrorCode::NotFound);
    }
    if !collateral_account.depositor.same_as(depositor) {
        return Err(ErrorCode::Unauthorized);
    }
    let redeemable_amount = match calc_redeemable_amount(amount_to_burn, collateral_in_usd) {
        Ok(v) => v,
        Err(e) => return Err(e),
    };
    match check_health_factor_when_burn_tokens_and_redeem_collateral(
        collateral_in_usd,
        collateral_account.deposited_asset_lamports,
        collateral_account.stablecoin_minted_amount,
        redeemable_amount,
        amount_to_burn,
        config_account.liquidation_threshold,
        config_account.min_health_factor,
    ) {
        Ok(()) => {},
        Err(e) => return Err(e),
    }
    collateral_account.deposited_asset_lamports = collateral_account.deposited_asset_lamports - redeemable_amount;
    collateral_account.stablecoin_minted_amount = collateral_account.stablecoin_minted_amount - amount_to_burn;
    collateral_account.last_update_time = now;
    Ok(redeemable_amount)
}

/// Lets a third party burn `amount_to_burn` of its own debt tokens against
/// an unhealthy position and seize the collateral they buy, bonus included.
/// Returns the collateral seized. Refused when the position is unknown or
/// healthy, a value overflows, or the position holds less collateral or debt
/// than the liquidation takes.
pub fn liquidator_handler(
    config_account: &Config,
    collateral_account: &mut Collateral,
    collateral_in_usd: u64,
    amount_to_burn: u64,
    now: i64,
) -> (r: Result<u64, ErrorCode>)
    ensures
        r == liquidate_result(*config_account, *old(collateral_account), collateral_in_usd, amount_to_burn),
        r is Ok ==> !is_healthy(
            old(collateral_account).deposited_asset_lamports,
            old(collateral_account).stablecoin_minted_amount,
            collateral_in_usd,
            config_account.liquidation_threshold,
            config_account.min_health_factor,
        ),
        old(collateral_account).is_initialized && is_healthy(
            old(collateral_account).deposited_asset_lamports,
            old(collateral_account).stablecoin_minted_amount,
            collateral_in_usd,
            config_account.liquidation_threshold,
            config_account.min_health_factor,
        ) ==> r == Err::<u64, ErrorCode>(ErrorCode::HealthFactorGreaterThanMinHealthFactor),
        r is Ok ==> *final(collateral_account) == with_balances(
            *old(collateral_account),
            (old(collateral_account).deposited_asset_lamports - r->Ok_0) as u64,
            (old(collateral_account).stablecoin_minted_amount - amount_to_burn) as u64,
            now,
        ),
        r is Err ==> *final(collateral_account) == *old(collateral_account),
{
    if !collateral_account.is_initialized {
        return Err(ErrorCode::NotFound);
    }
    let health_factor = match calc_health_factor_when_liquidate(
        collateral_in_usd,
        collateral_account.deposited_asset_lamports,
        collateral_account.stablecoin_minted_amount,
        config_account.liquidation_threshold,
    ) {
        Ok(hf) => hf,
        Err(e) => return Err(e),
    };
    if health_factor_meets(health_factor, config_account.min_health_factor) {
        return Err(ErrorCode::HealthFactorGreaterThanMinHealthFactor);
    }
    let liquidatable_amount = match calc_liquidatable_collateral(
        amount_to_burn,
        collateral_in_usd,
        config_account.liquidation_bonus,
    ) {
        Ok(v) => v,
        Err(e) => return Err(e),
    };
    if liquidatable_amount > collateral_account.deposited_asset_lamports || amount_to_burn
        > collateral_account.stablecoin_minted_amount {
        return Err(ErrorCode::Underflow);
    }
    collateral_account.deposited_asset_lamports = collateral_account.deposited_asset_lamports - liquidatable_amount;
    collateral_account.stablecoin_minted_amount = collateral_account.stablecoin_minted_amount - amount_to_burn;
    collateral_account.last_update_time = now;
    Ok(liquidatable_amount)
}

} // verus!
