use vstd::prelude::*;
use crate::decimal::spec_decimal;
use crate::errors::MintingError;
use crate::types::{AccountId, Balance, Id};

verus! {

/// The abstract state of the minting core: the supply counter and cap, the
/// pricing policy, the metadata records, the ownership records, the
/// collection-level base URI, and the reentrancy lock.
#[verifier::ext_equal]
pub struct MintingState {
    /// The identifier issued last; 0 before any mint.
    pub last_token_id: u64,
    /// The hard ceiling on issued identifiers.
    pub max_supply: u64,
    /// The fixed price of one token on the payable paths.
    pub price_per_mint: Balance,
    /// Explicit per-token URIs.
    pub nft_metadata: Map<u64, Seq<char>>,
    /// Owner of each issued identifier.
    pub owners: Map<u64, AccountId>,
    /// The collection-level attribute a display URI is derived from when a
    /// token has no explicit metadata entry.
    pub base_uri: Option<Seq<char>>,
    /// Whether a quantity-validating mint is in progress.
    pub locked: bool,
}

/// The state invariant: the counter never passes the cap, and exactly the
/// identifiers 1 ..= `last_token_id` have an owner.
pub open spec fn state_inv(s: MintingState) -> bool {
    &&& s.last_token_id <= s.max_supply
    &&& forall|id: u64| s.owners.contains_key(id) <==> 1 <= id && id <= s.last_token_id
}

/// The state right after construction.
pub open spec fn initial_state(max_supply: u64, price_per_mint: Balance) -> MintingState {
    MintingState {
        last_token_id: 0,
        max_supply,
        price_per_mint,
        nft_metadata: Map::empty(),
        owners: Map::empty(),
        base_uri: None,
        locked: false,
    }
}

/// One single mint: advances the counter by one and records `to` as the
/// owner of the new identifier, or fails without any change.
pub open spec fn spec_mint(s: MintingState, to: AccountId) -> (MintingState, Result<
    Id,
    MintingError,
>) {
    if s.last_token_id + 1 > u64::MAX {
        (s, Err(MintingError::ArithmeticOverflow))
    } else if s.last_token_id + 1 > s.max_supply {
        (s, Err(MintingError::SupplyExceeded))
    } else {
        let id = (s.last_token_id + 1) as u64;
        (
            MintingState { last_token_id: id, owners: s.owners.insert(id, to), ..s },
            Ok(id),
        )
    }
}

/// A batch mint with the reentrancy check already passed: one supply check
/// up front, then `mint_amount` consecutive identifiers for `to`, or no
/// change at all.
pub open spec fn spec_mint_many_unlocked(
    s: MintingState,
    to: AccountId,
    mint_amount: u64,
) -> (MintingState, Result<(Id, Id), MintingError>) {
    if s.last_token_id + mint_amount > u64::MAX {
        (s, Err(MintingError::ArithmeticOverflow))
    } else if s.last_token_id + mint_amount > s.max_supply {
        (s, Err(MintingError::SupplyExceeded))
    } else {
        let first = (s.last_token_id + 1) as u64;
        let last = (s.last_token_id + mint_amount) as u64;
        (
            MintingState {
                last_token_id: last,
                owners: Map::new(
                    |id: u64| 1 <= id && id <= last,
                    |id: u64| if id <= s.last_token_id { s.owners[id] } else { to },
                ),
                ..s
            },
            Ok((first, last)),
        )
    }
}

/// The owner-privileged batch mint: rejected outright while the lock is
/// held.
pub open spec fn spec_mint_many(s: MintingState, to: AccountId, mint_amount: u64) -> (
    MintingState,
    Result<(Id, Id), MintingError>,
) {
    if s.locked {
        (s, Err(MintingError::ReentrancyDetected))
    } else {
        spec_mint_many_unlocked(s, to, mint_amount)
    }
}

/// The payable single mint: the transferred value must equal the price of
/// one token exactly, then the mint proceeds as `spec_mint`.
pub open spec fn spec_mint_to_caller(
    s: MintingState,
    caller: AccountId,
    transferred_value: Balance,
) -> (MintingState, Result<(), MintingError>) {
    if transferred_value != s.price_per_mint {
        (s, Err(MintingError::InsufficientPayment))
    } else {
        let t = spec_mint(s, caller);
        (
            t.0,
            match t.1 {
                Ok(_) => Ok(()),
                Err(e) => Err(e),
            },
        )
    }
}

/// The payable batch mint: reentrancy check, then the transferred value
/// must equal `price_per_mint * mint_amount` exactly (computed without
/// wrapping), then the batch proceeds as `spec_mint_many_unlocked`.
pub open spec fn spec_mint_many_to_caller(
    s: MintingState,
    caller: AccountId,
    transferred_value: Balance,
    mint_amount: u64,
) -> (MintingState, Result<(), MintingError>) {
    if s.locked {
        (s, Err(MintingError::ReentrancyDetected))
    } else if s.price_per_mint * mint_amount > u128::MAX {
        (s, Err(MintingError::ArithmeticOverflow))
    } else if transferred_value != s.price_per_mint * mint_amount {
        (s, Err(MintingError::InsufficientPayment))
    } else {
        let t = spec_mint_many_unlocked(s, caller, mint_amount);
        (
            t.0,
            match t.1 {
                Ok(_) => Ok(()),
                Err(e) => Err(e),
            },
        )
    }
}

/// Creates or overwrites the metadata entry for `token_id`; never fails and
/// touches nothing else.  No existence check is made: like the storage
/// record it models, the core accepts metadata for not-yet-minted tokens.
pub open spec fn spec_assign_metadata(s: MintingState, token_id: Id, uri: Seq<char>) -> MintingState {
    MintingState { nft_metadata: s.nft_metadata.insert(token_id, uri), ..s }
}

/// The display URI of `token_id`: its explicit metadata entry verbatim if
/// one exists, otherwise `base_uri + decimal(token_id) + ".json"`; an error
/// for unowned tokens and for tokens with neither entry nor base URI.
pub open spec fn spec_token_uri(s: MintingState, token_id: u64) -> Result<
    Seq<char>,
    MintingError,
> {
    if !s.owners.contains_key(token_id) {
        Err(MintingError::TokenNotFound)
    } else if s.nft_metadata.contains_key(token_id) {
        Ok(s.nft_metadata[token_id])
    } else {
        match s.base_uri {
            None => Err(MintingError::MissingBaseUri),
            Some(b) => Ok(b + spec_decimal(token_id as nat) + ".json"@),
        }
    }
}

} // verus!
