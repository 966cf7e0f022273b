use vstd::prelude::*;
use crate::errors::MintingError;
use crate::state::{
    spec_assign_metadata, spec_mint, spec_mint_many, spec_mint_many_to_caller, spec_token_uri,
    state_inv, MintingState,
};
use crate::types::{AccountId, Balance};

verus! {

/// The counter never decreases.  A successful single mint advances it by
/// exactly one and issues exactly that new identifier, which is at least 1;
/// a failed one changes nothing.
pub proof fn lemma_mint_monotonic(s: MintingState, to: AccountId)
    ensures
        spec_mint(s, to).0.last_token_id >= s.last_token_id,
        spec_mint(s, to).1 is Ok ==> spec_mint(s, to).0.last_token_id == s.last_token_id + 1,
        spec_mint(s, to).1 is Ok ==> spec_mint(s, to).1->Ok_0 == s.last_token_id + 1
            && spec_mint(s, to).1->Ok_0 >= 1,
        spec_mint(s, to).1 is Err ==> spec_mint(s, to).0 == s,
        spec_mint(s, to).1 is Ok <==> s.last_token_id + 1 <= s.max_supply,
{
}

/// A batch mint issues exactly `mint_amount` consecutive identifiers, all
/// above the old counter value and none above the new one, and advances the
/// counter by `mint_amount` — or it issues none and leaves the state
/// untouched.  Together with `lemma_mint_monotonic` and
/// `lemma_issued_ids_distinct` this makes every identifier ever issued
/// distinct and at least 1 over any sequence of mints.
pub proof fn lemma_mint_many_all_or_nothing(s: MintingState, to: AccountId, mint_amount: u64)
    requires
        mint_amount >= 1,
    ensures
        spec_mint_many(s, to, mint_amount).0.last_token_id >= s.last_token_id,
        spec_mint_many(s, to, mint_amount).1 is Ok ==> {
            let t = spec_mint_many(s, to, mint_amount);
            let first = t.1->Ok_0.0;
            let last = t.1->Ok_0.1;
            &&& first == s.last_token_id + 1
            &&& last == s.last_token_id + mint_amount
            &&& t.0.last_token_id == s.last_token_id + mint_amount
            &&& last - first + 1 == mint_amount
            &&& forall|id: u64|
                first <= id <= last ==> t.0.owners.contains_key(id) && t.0.owners[id] == to
            &&& forall|id: u64|
                1 <= id <= s.last_token_id ==> t.0.owners.contains_key(id) && t.0.owners[id]
                    == s.owners[id]
            &&& t.0.nft_metadata == s.nft_metadata
        },
        spec_mint_many(s, to, mint_amount).1 is Err ==> spec_mint_many(s, to, mint_amount).0
            == s,
        spec_mint_many(s, to, mint_amount).1 is Ok <==> !s.locked && s.last_token_id
            + mint_amount <= s.max_supply,
{
}

/// Identifiers issued by two successful batches never collide: every
/// identifier of the later batch (run from a state whose counter is at
/// least the earlier batch's final counter) is strictly greater than every
/// identifier of the earlier one.
pub proof fn lemma_issued_ids_distinct(
    s1: MintingState,
    to1: AccountId,
    q1: u64,
    s2: MintingState,
    to2: AccountId,
    q2: u64,
    a: u64,
    b: u64,
)
    requires
        q1 >= 1,
        q2 >= 1,
        spec_mint_many(s1, to1, q1).1 is Ok,
        spec_mint_many(s2, to2, q2).1 is Ok,
        s2.last_token_id >= spec_mint_many(s1, to1, q1).0.last_token_id,
        spec_mint_many(s1, to1, q1).1->Ok_0.0 <= a <= spec_mint_many(s1, to1, q1).1->Ok_0.1,
        spec_mint_many(s2, to2, q2).1->Ok_0.0 <= b <= spec_mint_many(s2, to2, q2).1->Ok_0.1,
    ensures
        1 <= a < b,
{
}

/// `max_supply` is a hard ceiling: the invariant is preserved by every
/// batch transition, a mint that would push the counter past the cap fails
/// — with `SupplyExceeded` whenever the attempt is not itself rejected for
/// reentrancy or for leaving the integer domain — and from a full
/// collection (`last_token_id == max_supply`) an unlocked mint fails with
/// exactly `SupplyExceeded` and changes nothing.
pub proof fn lemma_supply_cap(s: MintingState, to: AccountId, mint_amount: u64)
    requires
        state_inv(s),
        mint_amount >= 1,
    ensures
        state_inv(spec_mint_many(s, to, mint_amount).0),
        spec_mint_many(s, to, mint_amount).0.last_token_id <= s.max_supply,
        s.last_token_id + mint_amount > s.max_supply ==> spec_mint_many(s, to, mint_amount).1
            is Err && spec_mint_many(s, to, mint_amount).0 == s,
        !s.locked && s.last_token_id + mint_amount <= u64::MAX && s.last_token_id + mint_amount
            > s.max_supply ==> spec_mint_many(s, to, mint_amount) == (
            s,
            Err::<(u64, u64), MintingError>(MintingError::SupplyExceeded),
        ),
        !s.locked && s.last_token_id == s.max_supply ==> spec_mint_many(s, to, mint_amount).1
            == Err::<(u64, u64), MintingError>(MintingError::SupplyExceeded)
            || spec_mint_many(s, to, mint_amount).1 == Err::<(u64, u64), MintingError>(
            MintingError::ArithmeticOverflow,
        ),
{
    let t = spec_mint_many(s, to, mint_amount);
    if t.1 is Ok {
        assert forall|id: u64| t.0.owners.contains_key(id) <==> 1 <= id
            <= t.0.last_token_id by {}
    }
}

/// The state after the first `i` batches of `ops` (each a beneficiary and a
/// quantity) have run, failed ones included.
pub open spec fn state_after(s: MintingState, ops: Seq<(AccountId, u64)>, i: int) -> MintingState
    decreases i,
{
    if i <= 0 {
        s
    } else {
        spec_mint_many(state_after(s, ops, i - 1), ops[i - 1].0, ops[i - 1].1).0
    }
}

/// The identifiers the `i`-th batch of `ops` issues; empty if it fails.
pub open spec fn ids_of_step(s: MintingState, ops: Seq<(AccountId, u64)>, i: int) -> Set<u64> {
    let t = spec_mint_many(state_after(s, ops, i), ops[i].0, ops[i].1);
    match t.1 {
        Ok(p) => Set::new(|id: u64| p.0 <= id <= p.1),
        Err(_) => Set::empty(),
    }
}

/// Over any sequence of batches the counter never decreases.
pub proof fn lemma_counter_monotonic_over_run(
    s: MintingState,
    ops: Seq<(AccountId, u64)>,
    i: int,
    j: int,
)
    requires
        0 <= i <= j,
    ensures
        state_after(s, ops, j).last_token_id >= state_after(s, ops, i).last_token_id,
    decreases j - i,
{
    if i < j {
        lemma_counter_monotonic_over_run(s, ops, i, j - 1);
    }
}

/// Every identifier a step issues is at least 1 and lies strictly between
/// the counter before that step and the counter after it.
pub proof fn lemma_step_ids_window(s: MintingState, ops: Seq<(AccountId, u64)>, i: int)
    requires
        0 <= i < ops.len(),
        ops[i].1 >= 1,
    ensures
        forall|id: u64| #[trigger] ids_of_step(s, ops, i).contains(id) ==> 1 <= id
            && state_after(s, ops, i).last_token_id < id
            && id <= state_after(s, ops, i + 1).last_token_id,
{
    let t = spec_mint_many(state_after(s, ops, i), ops[i].0, ops[i].1);
    assert(state_after(s, ops, i + 1) == t.0);
    assert forall|id: u64| #[trigger] ids_of_step(s, ops, i).contains(id) implies 1 <= id
        && state_after(s, ops, i).last_token_id < id && id <= state_after(
        s,
        ops,
        i + 1,
    ).last_token_id by {
        if t.1 is Ok {
            assert(t.1->Ok_0.0 <= id <= t.1->Ok_0.1);
        }
    }
}

/// For all sequences of mints, each issued identifier is issued by at most
/// one step: the ranges two distinct steps issue never intersect.
pub proof fn lemma_ids_issued_once(
    s: MintingState,
    ops: Seq<(AccountId, u64)>,
    i: int,
    j: int,
    id: u64,
)
    requires
        0 <= i < j < ops.len(),
        ops[i].1 >= 1,
        ops[j].1 >= 1,
        ids_of_step(s, ops, i).contains(id),
    ensures
        !ids_of_step(s, ops, j).contains(id),
{
    lemma_step_ids_window(s, ops, i);
    lemma_step_ids_window(s, ops, j);
    lemma_counter_monotonic_over_run(s, ops, i + 1, j);
}

/// The single-mint transition preserves the invariant as well.
pub proof fn lemma_mint_preserves_inv(s: MintingState, to: AccountId)
    requires
        state_inv(s),
    ensures
        state_inv(spec_mint(s, to).0),
        spec_mint(s, to).0.last_token_id <= s.max_supply,
{
    let t = spec_mint(s, to);
    if t.1 is Ok {
        assert forall|id: u64| t.0.owners.contains_key(id) <==> 1 <= id
            <= t.0.last_token_id by {}
    }
}

/// Resolving a URI is idempotent: with no intervening state change, any two
/// results that the resolution relation admits for the same token are the
/// same.
pub proof fn lemma_token_uri_idempotent(
    s: MintingState,
    token_id: u64,
    r1: Result<Seq<char>, MintingError>,
    r2: Result<Seq<char>, MintingError>,
)
    requires
        r1 == spec_token_uri(s, token_id),
        r2 == spec_token_uri(s, token_id),
    ensures
        r1 == r2,
{
}

/// Round trip: after recording `uri` for an owned token, resolving that
/// token returns exactly `uri`.
pub proof fn lemma_assign_then_resolve(s: MintingState, token_id: u64, uri: Seq<char>)
    requires
        s.owners.contains_key(token_id),
    ensures
        spec_token_uri(spec_assign_metadata(s, token_id, uri), token_id) == Ok::<
            Seq<char>,
            MintingError,
        >(uri),
{
}

/// While the reentrancy lock is held, a nested payable batch mint fails
/// with exactly `ReentrancyDetected` and changes nothing — so the outer
/// call finds its state intact and, once it releases the lock, a retry of
/// the same mint succeeds exactly when payment and supply allow it.
pub proof fn lemma_reentrancy_guard(
    s: MintingState,
    caller: AccountId,
    transferred_value: Balance,
    mint_amount: u64,
    to: AccountId,
)
    requires
        s.locked,
    ensures
        spec_mint_many_to_caller(s, caller, transferred_value, mint_amount) == (
            s,
            Err::<(), MintingError>(MintingError::ReentrancyDetected),
        ),
        spec_mint_many(s, to, mint_amount) == (
            s,
            Err::<(u64, u64), MintingError>(MintingError::ReentrancyDetected),
        ),
{
}

/// When a payable batch mint is owed success: exactly when no lock is held,
/// the expected payment fits the currency domain and was transferred
/// exactly, and the supply allows the batch.
pub proof fn lemma_mint_many_to_caller_cases(
    s: MintingState,
    caller: AccountId,
    transferred_value: Balance,
    mint_amount: u64,
)
    requires
        mint_amount >= 1,
    ensures
        spec_mint_many_to_caller(s, caller, transferred_value, mint_amount).1 is Ok <==> {
            &&& !s.locked
            &&& s.price_per_mint * mint_amount <= u128::MAX
            &&& transferred_value == s.price_per_mint * mint_amount
            &&& s.last_token_id + mint_amount <= s.max_supply
        },
        spec_mint_many_to_caller(s, caller, transferred_value, mint_amount).1 is Err
            ==> spec_mint_many_to_caller(s, caller, transferred_value, mint_amount).0 == s,
{
}

} // verus!
