use vstd::prelude::*;

verus! {

/// A 32-byte account identity.
#[derive(Debug, Clone, Copy)]
pub struct Address {
    pub bytes: [u8; 32],
}

impl View for Address {
    type V = Seq<u8>;

    open spec fn view(&self) -> Seq<u8> {
        self.bytes@
    }
}

/// Byte-wise equality of two 32-byte keys.
pub fn same_key(a: &[u8; 32], b: &[u8; 32]) -> (r: bool)
    ensures
        r == (a@ == b@),
{
    let mut i: usize = 0;
    while i < 32
        invariant
            0 <= i <= 32,
            a@.len() == 32,
            b@.len() == 32,
            forall|j: int| 0 <= j < i ==> a@[j] == b@[j],
        decreases 32 - i,
    {
        if a[i] != b[i] {
            return false;
        }
        i = i + 1;
    }
    assert(a@ =~= b@);
    true
}

impl Address {
    /// Whether two identities are the same account.
    pub fn same_as(&self, other: &Address) -> (r: bool)
        ensures
            r == (self@ == other@),
    {
        same_key(&self.bytes, &other.bytes)
    }
}

/// Oracle reading handed to the engine: the feed it belongs to, the price in
/// USD per whole unit of collateral, when it was published, and whether the
/// oracle fully verified it.
#[derive(Debug, Clone, Copy)]
pub struct PriceSample {
    pub feed_id: [u8; 32],
    pub price: i64,
    pub publish_time: i64,
    pub fully_verified: bool,
}

/// Risk parameters of one stablecoin instance.
#[derive(Debug, Clone, Copy)]
pub struct Config {
    /// The only identity allowed to change the parameters.
    pub authority: Address,
    /// The debt token's issuance point.
    pub mint_account: Address,
    /// Percentage of a deposit's USD value that may be minted.
    pub max_ltv: u64,
    /// Percentage of collateral value counted by the health factor.
    pub liquidation_threshold: u64,
    /// Percentage paid to liquidators on top of the collateral they buy.
    pub liquidation_bonus: u64,
    /// Minimum health factor, scaled by 100.
    pub min_health_factor: u64,
    pub self_bump: u8,
    pub mint_account_bump: u8,
    pub init_time: i64,
    pub last_update_time: i64,
}

/// One depositor's position: locked collateral and minted debt.
#[derive(Debug, Clone, Copy)]
pub struct Collateral {
    pub depositor: Address,
    /// Custody account holding the collateral.
    pub deposited_asset_account: Address,
    /// Token account receiving the minted debt token.
    pub receive_stablecoin_account: Address,
    /// Native units of collateral held.
    pub deposited_asset_lamports: u64,
    /// Debt tokens minted against the collateral.
    pub stablecoin_minted_amount: u64,
    pub self_bump: u8,
    pub deposited_asset_account_bump: u8,
    /// Set once, when the position is opened.
    pub is_initialized: bool,
    pub init_time: i64,
    pub last_update_time: i64,
}

/// The identities recorded when a position is opened.
#[derive(Debug, Clone, Copy)]
pub struct PositionKeys {
    pub depositor: Address,
    pub deposited_asset_account: Address,
    pub receive_stablecoin_account: Address,
    pub self_bump: u8,
    pub deposited_asset_account_bump: u8,
}

/// Health factor of a position, in units of 1/10000.
#[derive(Debug, Clone, Copy, PartialEq, Eq, Structural)]
pub enum HealthFactor {
    /// The position owes nothing.
    Infinite,
    /// Ten thousand times the health factor, rounded half up.
    Scaled(u128),
}

impl Collateral {
    /// A position that has not been opened yet.
    pub fn unopened() -> (r: Collateral)
        ensures
            !r.is_initialized,
            r.deposited_asset_lamports == 0,
            r.stablecoin_minted_amount == 0,
    {
        let none = Address { bytes: [0u8; 32] };
        Collateral {
            depositor: none,
            deposited_asset_account: none,
            receive_stablecoin_account: none,
            deposited_asset_lamports: 0,
            stablecoin_minted_amount: 0,
            self_bump: 0,
            deposited_asset_account_bump: 0,
            is_initialized: false,
            init_time: 0,
            last_update_time: 0,
        }
    }
}

} // verus!
