use vstd::prelude::*;

use crate::errors::ErrorCode;
use crate::health::{get_collateral_in_usd, is_healthy, price_result};
use crate::instructions::{
    burn_and_redeem_handler, burn_result, deposit_collateral_and_mint_tokens_handler, deposit_result,
    liquidate_result, liquidator_handler, opened, with_balances,
};
use crate::states::{Address, Collateral, Config, PositionKeys, PriceSample};

verus! {

/// Where the engine reads its price: the oracle feed of the collateral and
/// the oldest sample it accepts, in seconds.
#[derive(Debug, Clone, Copy)]
pub struct PriceFeed {
    pub feed_id: [u8; 32],
    pub max_age: u64,
}

/// Deposit and mint at the price of a fresh oracle sample; see
/// `deposit_collateral_and_mint_tokens_handler`. Returns the amount minted.
pub fn process_deposit_and_mint(
    config_account: &Config,
    collateral_account: &mut Collateral,
    keys: &PositionKeys,
    feed: &PriceFeed,
    price_update: &PriceSample,
    now: i64,
    amount_to_deposit: u64,
) -> (r: Result<u64, ErrorCode>)
    ensures
        r == (match price_result(*price_update, feed.feed_id@, now, feed.max_age) {
            Err(e) => Err(e),
            Ok(p) => deposit_result(*config_account, *old(collateral_account), *keys, p, amount_to_deposit),
        }),
        r is Ok ==> *final(collateral_account) == with_balances(
            opened(*old(collateral_account), *keys, now),
            (opened(*old(collateral_account), *keys, now).deposited_asset_lamports + amount_to_deposit) as u64,
            (opened(*old(collateral_account), *keys, now).stablecoin_minted_amount + r->Ok_0) as u64,
            now,
        ),
        r is Ok ==> is_healthy(
            final(collateral_account).deposited_asset_lamports,
            final(collateral_account).stablecoin_minted_amount,
            price_result(*price_update, feed.feed_id@, now, feed.max_age)->Ok_0,
            config_account.liquidation_threshold,
            config_account.min_health_factor,
        ),
        r is Err ==> *final(collateral_account) == *old(collateral_account),
{
    let collateral_in_usd = match get_collateral_in_usd(price_update, &feed.feed_id, now, feed.max_age) {
        Ok(p) => p,
        Err(e) => return Err(e),
    };
    deposit_collateral_and_mint_tokens_handler(
        config_account,
        collateral_account,
        keys,
        collateral_in_usd,
        amount_to_deposit,
        now,
    )
}

/// Burn and redeem at the price of a fresh oracle sample; see
/// `burn_and_redeem_handler`. Returns the collateral redeemed.
pub fn process_burn_and_redeem(
    config_account: &Config,
    collateral_account: &mut Collateral,
    depositor: &Address,
    feed: &PriceFeed,
    price_update: &PriceSample,
    now: i64,
    amount_to_burn: u64,
) -> (r: Result<u64, ErrorCode>)
    ensures
        r == (match price_result(*price_update, feed.feed_id@, now, feed.max_age) {
            Err(e) => Err(e),
            Ok(p) => burn_result(*config_account, *old(collateral_account), *depositor, p, amount_to_burn),
        }),
        r is Ok ==> *final(collateral_account) == with_balances(
            *old(collateral_account),
            (old(collateral_account).deposited_asset_lamports - r->Ok_0) as u64,
            (old(collateral_account).stablecoin_minted_amount - amount_to_burn) as u64,
            now,
        ),
        r is Ok ==> is_healthy(
            final(collateral_account).deposited_asset_lamports,
            final(collateral_account).stablecoin_minted_amount,
            price_result(*price_update, feed.feed_id@, now, feed.max_age)->Ok_0,
            config_account.liquidation_threshold,
            config_account.min_health_factor,
        ),
        r is Err ==> *final(collateral_account) == *old(collateral_account),
{
    let collateral_in_usd = match get_collateral_in_usd(price_update, &feed.feed_id, now, feed.max_age) {
        Ok(p) => p,
        Err(e) => return Err(e),
    };
    burn_and_redeem_handler(config_account, collateral_account, depositor, collateral_in_usd, amount_to_burn, now)
}

/// Liquidate at the price of a fresh oracle sample; see
/// `liquidator_handler`. Returns the collateral seized.
pub fn process_liquidate(
    config_account: &Config,
    collateral_account: &mut Collateral,
    feed: &PriceFeed,
    price_update: &PriceSample,
    now: i64,
    amount_to_burn: u64,
) -> (r: Result<u64, ErrorCode>)
    ensures
        r == (match price_result(*price_update, feed.feed_id@, now, feed.max_age) {
            Err(e) => Err(e),
            Ok(p) => liquidate_result(*config_account, *old(collateral_account), p, amount_to_burn),
        }),
        r is Ok ==> !is_healthy(
            old(collateral_account).deposited_asset_lamports,
            old(collateral_account).stablecoin_minted_amount,
            price_result(*price_update, feed.feed_id@, now, feed.max_age)->Ok_0,
            config_account.liquidation_threshold,
            config_account.min_health_factor,
        ),
        r is Ok ==> *final(collateral_account) == with_balances(
            *old(collateral_account),
            (old(collateral_account).deposited_asset_lamports - r->Ok_0) as u64,
            (old(collateral_account).stablecoin_minted_amount - amount_to_burn) as u64,
            now,
        ),
        r is Err ==> *final(collateral_account) == *old(collateral_account),
{
    let collateral_in_usd = match get_collateral_in_usd(price_update, &feed.feed_id, now, feed.max_age) {
        Ok(p) => p,
        Err(e) => return Err(e),
    };
    liquidator_handler(config_account, collateral_account, collateral_in_usd, amount_to_burn, now)
}

} // verus!
