//! Risk engine of a single-collateral stablecoin: the numeric health model
//! that turns an oracle price into mintable, redeemable and seizable
//! amounts, and the state transitions of configurations and positions.

mod errors;
mod health;
mod instructions;
mod laws;
mod program;
mod states;

pub use errors::ErrorCode;
pub use health::{
    calc_health_factor, calc_health_factor_when_burn_tokens_and_redeem_collateral,
    calc_health_factor_when_deposit_collateral_and_mint_new_tokens, calc_health_factor_when_liquidate,
    calc_liquidatable_collateral, calc_mintable_amount, calc_redeemable_amount,
    check_health_factor_when_burn_tokens_and_redeem_collateral,
    check_health_factor_when_deposit_collateral_and_mint_new_tokens, get_collateral_in_usd, get_collateral_value,
    health_factor_meets, LAMPORTS_PER_SOL,
};
pub use instructions::{
    burn_and_redeem_handler, deposit_collateral_and_mint_tokens_handler, init_config_handler, liquidator_handler,
    update_config_handler,
};
pub use laws::{lemma_overdraw_fails, lemma_truncation_direction};
pub use program::{process_burn_and_redeem, process_deposit_and_mint, process_liquidate, PriceFeed};
pub use states::{same_key, Address, Collateral, Config, HealthFactor, PositionKeys, PriceSample};
