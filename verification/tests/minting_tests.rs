use rmrk_minting::decimal::u64_to_decimal;
use rmrk_minting::errors::MintingError;
use rmrk_minting::metadata_map::MetadataMap;
use rmrk_minting::minting::{Minting, MintingLazy, RmrkContract};

const OWNER: u128 = 1;
const ALICE: u128 = 2;
const BOB: u128 = 3;

#[test]
fn sequential_ids_strictly_increasing() {
    let mut c = RmrkContract::new(100, 0);
    let a = c.mint(ALICE).unwrap();
    let b = c.mint(BOB).unwrap();
    let d = c.mint(ALICE).unwrap();
    assert_eq!(a, 1);
    assert_eq!(b, 2);
    assert_eq!(d, 3);
    let (first, last) = c.mint_many(BOB, 3).unwrap();
    assert_eq!((first, last), (4, 6));
    assert!(a < b && b < d && d < first && first < last);
    assert_eq!(c.minting.last_token_id, 6);
}

#[test]
fn mint_batch_all_or_nothing() {
    let mut c = RmrkContract::new(5, 0);
    let (first, last) = c.mint_many(ALICE, 3).unwrap();
    assert_eq!((first, last), (1, 3));
    assert_eq!(c.minting.last_token_id, 3);
    for id in 1..=3 {
        assert_eq!(c.tokens.owner_of(id), Some(ALICE));
    }
    // 3 + 4 > 5: the whole batch is refused and nothing changes.
    assert_eq!(c.mint_many(BOB, 4), Err(MintingError::SupplyExceeded));
    assert_eq!(c.minting.last_token_id, 3);
    assert_eq!(c.tokens.owner_of(4), None);
    // A batch that still fits goes through afterwards.
    assert_eq!(c.mint_many(BOB, 2), Ok((4, 5)));
    assert_eq!(c.tokens.owner_of(4), Some(BOB));
}

#[test]
fn supply_cap_is_a_hard_ceiling() {
    let mut c = RmrkContract::new(3, 0);
    for expected in 1..=3 {
        assert_eq!(c.mint(OWNER), Ok(expected));
    }
    assert_eq!(c.minting.last_token_id, 3);
    assert_eq!(c.mint(OWNER), Err(MintingError::SupplyExceeded));
    assert_eq!(c.mint_many(OWNER, 1), Err(MintingError::SupplyExceeded));
    assert_eq!(c.minting.last_token_id, 3);
}

#[test]
fn supply_cap_zero_refuses_everything() {
    let mut c = RmrkContract::new(0, 0);
    assert_eq!(c.mint(OWNER), Err(MintingError::SupplyExceeded));
    assert_eq!(c.mint_many(OWNER, 1), Err(MintingError::SupplyExceeded));
    assert_eq!(c.minting.last_token_id, 0);
}

#[test]
fn resolve_uri_idempotent() {
    let mut c = RmrkContract::new(100, 0);
    c.mint(ALICE).unwrap();
    c.mint(BOB).unwrap();
    c.set_base_uri(String::from("ipfs://base/"));
    c.assign_metadata(1, String::from("ipfs://special")).unwrap();
    // Explicit metadata path.
    let u1 = c.token_uri(1);
    let u2 = c.token_uri(1);
    assert_eq!(u1, u2);
    // Derived path.
    let v1 = c.token_uri(2);
    let v2 = c.token_uri(2);
    assert_eq!(v1, v2);
}

#[test]
fn assign_then_resolve_round_trip() {
    let mut c = RmrkContract::new(100, 0);
    c.mint(ALICE).unwrap();
    assert_eq!(c.assign_metadata(1, String::from("X")), Ok(()));
    assert_eq!(c.token_uri(1).unwrap(), "X");
}

#[test]
fn assign_metadata_overwrites() {
    let mut c = RmrkContract::new(100, 0);
    c.mint(ALICE).unwrap();
    c.assign_metadata(1, String::from("first")).unwrap();
    c.assign_metadata(1, String::from("second")).unwrap();
    assert_eq!(c.token_uri(1).unwrap(), "second");
}

#[test]
fn assign_metadata_accepts_unminted_tokens() {
    // Like the storage record it models, the core allows pre-assigning
    // metadata before the token exists; resolution still requires an owner.
    let mut c = RmrkContract::new(100, 0);
    assert_eq!(c.assign_metadata(7, String::from("early")), Ok(()));
    assert_eq!(c.token_uri(7), Err(MintingError::TokenNotFound));
    for _ in 0..7 {
        c.mint(ALICE).unwrap();
    }
    assert_eq!(c.token_uri(7).unwrap(), "early");
}

#[test]
fn derived_uri_scenario() {
    let mut c = RmrkContract::new(100, 0);
    for _ in 0..7 {
        c.mint(ALICE).unwrap();
    }
    c.set_base_uri(String::from("https://x/"));
    assert_eq!(c.token_uri(7).unwrap(), "https://x/7.json");
}

#[test]
fn decimal_rendering_exact() {
    assert_eq!(u64_to_decimal(0), "0");
    assert_eq!(u64_to_decimal(7), "7");
    assert_eq!(u64_to_decimal(10), "10");
    assert_eq!(u64_to_decimal(905), "905");
    assert_eq!(u64_to_decimal(u64::MAX), "18446744073709551615");
}

#[test]
fn payment_scenario() {
    let mut c = RmrkContract::new(100, 10);
    assert_eq!(c.mint_many_to_caller(ALICE, 30, 3), Ok(()));
    assert_eq!(c.minting.last_token_id, 3);
    for id in 1..=3 {
        assert_eq!(c.tokens.owner_of(id), Some(ALICE));
    }
    let mut c2 = RmrkContract::new(100, 10);
    assert_eq!(
        c2.mint_many_to_caller(ALICE, 29, 3),
        Err(MintingError::InsufficientPayment)
    );
    assert_eq!(c2.minting.last_token_id, 0);
    assert_eq!(c2.tokens.owner_of(1), None);
}

#[test]
fn payment_must_be_exact() {
    let mut c = RmrkContract::new(100, 10);
    assert_eq!(
        c.mint_to_caller(ALICE, 9),
        Err(MintingError::InsufficientPayment)
    );
    assert_eq!(
        c.mint_to_caller(ALICE, 11),
        Err(MintingError::InsufficientPayment)
    );
    assert_eq!(c.mint_to_caller(ALICE, 10), Ok(()));
    assert_eq!(c.tokens.owner_of(1), Some(ALICE));
    assert_eq!(
        c.mint_many_to_caller(BOB, 31, 3),
        Err(MintingError::InsufficientPayment)
    );
}

#[test]
fn payment_product_overflow_detected() {
    let mut c = RmrkContract::new(100, u128::MAX);
    assert_eq!(
        c.mint_many_to_caller(ALICE, u128::MAX, 2),
        Err(MintingError::ArithmeticOverflow)
    );
    assert_eq!(c.minting.last_token_id, 0);
}

#[test]
fn reentrancy_scenario() {
    let mut c = RmrkContract::new(100, 10);
    // An external-store callback re-entering while the outer batch holds
    // the lock is turned away with no state change ...
    c.locked = true;
    assert_eq!(
        c.mint_many_to_caller(ALICE, 30, 3),
        Err(MintingError::ReentrancyDetected)
    );
    assert_eq!(c.mint_many(ALICE, 3), Err(MintingError::ReentrancyDetected));
    assert_eq!(c.minting.last_token_id, 0);
    // ... and the outer call, its state intact, completes normally.
    c.locked = false;
    assert_eq!(c.mint_many_to_caller(ALICE, 30, 3), Ok(()));
    assert_eq!(c.minting.last_token_id, 3);
}

#[test]
fn token_uri_error_cases() {
    let mut c = RmrkContract::new(100, 0);
    assert_eq!(c.token_uri(0), Err(MintingError::TokenNotFound));
    assert_eq!(c.token_uri(1), Err(MintingError::TokenNotFound));
    c.mint(ALICE).unwrap();
    // Owned, but neither metadata nor a base URI.
    assert_eq!(c.token_uri(1), Err(MintingError::MissingBaseUri));
}

#[test]
fn accessors() {
    let c = RmrkContract::new(42, 99);
    assert_eq!(c.max_supply(), 42);
    assert_eq!(c.price(), 99);
    assert_eq!(c.minting.last_token_id, 0);
}

#[test]
fn batch_to_exact_capacity() {
    let mut c = RmrkContract::new(5, 0);
    assert_eq!(c.mint_many(ALICE, 5), Ok((1, 5)));
    assert_eq!(c.minting.last_token_id, 5);
    assert_eq!(c.mint(ALICE), Err(MintingError::SupplyExceeded));
    assert_eq!(c.mint_many(ALICE, 1), Err(MintingError::SupplyExceeded));
}

#[test]
fn metadata_map_direct() {
    let mut m = MetadataMap::new();
    assert!(m.get(1).is_none());
    m.insert(1, String::from("a"));
    m.insert(2, String::from("b"));
    assert_eq!(m.get(1), Some(&String::from("a")));
    assert_eq!(m.get(2), Some(&String::from("b")));
    assert!(m.get(3).is_none());
    m.insert(1, String::from("c"));
    assert_eq!(m.get(1), Some(&String::from("c")));
    // Overwriting does not duplicate the entry.
    assert_eq!(m.entries.len(), 2);
}

#[test]
fn ownership_records() {
    let mut c = RmrkContract::new(10, 0);
    assert!(!c.tokens.token_exists(1));
    c.mint(ALICE).unwrap();
    c.mint(BOB).unwrap();
    assert!(c.tokens.token_exists(1));
    assert!(c.tokens.token_exists(2));
    assert!(!c.tokens.token_exists(3));
    assert!(!c.tokens.token_exists(0));
    assert_eq!(c.tokens.owner_of(1), Some(ALICE));
    assert_eq!(c.tokens.owner_of(2), Some(BOB));
    assert_eq!(c.tokens.owner_of(3), None);
}
