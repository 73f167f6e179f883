use vstd::prelude::*;

verus! {

/// Every way an operation of the engine can be refused. A refused operation
/// changes no state.
#[derive(Debug, Clone, Copy, PartialEq, Eq, Structural)]
pub enum ErrorCode {
    /// A risk parameter lies outside its allowed range.
    ValidationError,
    /// The caller may not act on this record.
    Unauthorized,
    /// The oracle's sample is older than the accepted age.
    StalePrice,
    /// The oracle's sample belongs to another feed.
    FeedMismatch,
    /// The oracle's sample is not fully verified or its price is negative.
    InvalidPrice,
    /// A product or sum does not fit its integer type.
    ArithmeticOverflow,
    /// A division by a zero price was asked for.
    DivisionByZero,
    /// The collateral is worth nothing at this price, so nothing can be minted.
    Undefined,
    /// A balance would fall below zero.
    Underflow,
    /// Minting or redeeming would leave the position under the minimum health factor.
    HealthFactorLessThanOne,
    /// The position is healthy, so it cannot be liquidated.
    HealthFactorGreaterThanMinHealthFactor,
    /// The position has never been opened.
    NotFound,
}

} // verus!
