use vstd::prelude::*;

verus! {

/// Failure modes of the minting core.
///
/// Every fallible operation reports one of these synchronously; no failure
/// leaves a partial state change behind.
#[derive(Clone, Copy, Debug, PartialEq, Eq, Structural)]
pub enum MintingError {
    /// The requested mint would push `last_token_id` above `max_supply`.
    SupplyExceeded,
    /// The transferred value does not equal `price_per_mint` times the
    /// requested quantity.
    InsufficientPayment,
    /// The token counter or the expected-payment product would overflow its
    /// integer domain.
    ArithmeticOverflow,
    /// A nested mutating mint was attempted while an outer one holds the
    /// reentrancy lock.
    ReentrancyDetected,
    /// A URI was requested for a token that has no recorded owner.
    TokenNotFound,
    /// No metadata entry exists and no collection-level base URI is set.
    MissingBaseUri,
}

} // verus!
