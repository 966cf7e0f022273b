use vstd::prelude::*;

verus! {

/// Account identifier of the host environment, reduced to its numeric form.
pub type AccountId = u128;

/// Currency amount used for mint payments.
pub type Balance = u128;

/// Token identifier.  Identifiers are issued sequentially starting at 1;
/// 0 is reserved and means "no token".
pub type Id = u64;

} // verus!
