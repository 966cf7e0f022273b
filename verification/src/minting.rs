use vstd::prelude::*;
use vstd::string::StringExecFns;
use crate::data::MintingData;
use crate::decimal::u64_to_decimal;
use crate::errors::MintingError;
use crate::internal::{check_amount, check_value};
use crate::ownership::OwnerLedger;
use crate::state::{
    initial_state, spec_assign_metadata, spec_mint, spec_mint_many, spec_mint_many_to_caller,
    spec_mint_to_caller, spec_token_uri, state_inv, MintingState,
};
use crate::types::{AccountId, Balance, Id};

verus! {

/// The owner-privileged minting surface.
///
/// Authorization itself (who may call these) is the host's concern and a
/// precondition of the caller, not part of this core.  Each method's
/// behaviour is pinned to the corresponding transition on the abstract
/// state `sv()`.
pub trait Minting {
    /// The abstract state the contracts speak about.
    spec fn sv(&self) -> MintingState;

    /// Well-formedness of the representation.
    spec fn inv(&self) -> bool;

    /// Mint one token to `to`.
    fn mint(&mut self, to: AccountId) -> (r: Result<Id, MintingError>)
        requires
            old(self).inv(),
        ensures
            final(self).inv(),
            (final(self).sv(), r) == spec_mint(old(self).sv(), to),
    ;

    /// Mint `mint_amount` tokens to `to`: all of them, or none.
    fn mint_many(&mut self, to: AccountId, mint_amount: u64) -> (r: Result<
        (Id, Id),
        MintingError,
    >)
        requires
            old(self).inv(),
            mint_amount >= 1,
        ensures
            final(self).inv(),
            (final(self).sv(), r) == spec_mint_many(old(self).sv(), to, mint_amount),
    ;

    /// Record `metadata` as the URI of `token_id`.
    fn assign_metadata(&mut self, token_id: Id, metadata: String) -> (r: Result<
        (),
        MintingError,
    >)
        requires
            old(self).inv(),
        ensures
            final(self).inv(),
            final(self).sv() == spec_assign_metadata(old(self).sv(), token_id, metadata@),
            r == Ok::<(), MintingError>(()),
    ;

    /// The supply cap.
    fn max_supply(&self) -> (r: u64)
        ensures
            r == self.sv().max_supply,
    ;

    /// The display URI of `token_id`.
    fn token_uri(&self, token_id: u64) -> (r: Result<String, MintingError>)
        requires
            self.inv(),
        ensures
            (match r {
                Ok(uri) => spec_token_uri(self.sv(), token_id) == Ok::<Seq<char>, MintingError>(
                    uri@,
                ),
                Err(e) => spec_token_uri(self.sv(), token_id) == Err::<Seq<char>, MintingError>(
                    e,
                ),
            }),
    ;
}

/// The payable minting surface: anyone may mint by transferring the exact
/// price.  The caller's identity and the transferred value come from the
/// host environment and are handed in as plain values.
pub trait MintingLazy: Minting {
    /// Mint one token to the caller against payment of `price()`.
    fn mint_to_caller(&mut self, caller: AccountId, transferred_value: Balance) -> (r: Result<
        (),
        MintingError,
    >)
        requires
            old(self).inv(),
        ensures
            final(self).inv(),
            (final(self).sv(), r) == spec_mint_to_caller(
                old(self).sv(),
                caller,
                transferred_value,
            ),
    ;

    /// Mint `mint_amount` tokens to the caller against payment of
    /// `price() * mint_amount`.
    fn mint_many_to_caller(
        &mut self,
        caller: AccountId,
        transferred_value: Balance,
        mint_amount: u64,
    ) -> (r: Result<(), MintingError>)
        requires
            old(self).inv(),
            mint_amount >= 1,
        ensures
            final(self).inv(),
            (final(self).sv(), r) == spec_mint_many_to_caller(
                old(self).sv(),
                caller,
                transferred_value,
                mint_amount,
            ),
    ;

    /// The price of one token.
    fn price(&self) -> (r: Balance)
        ensures
            r == self.sv().price_per_mint,
    ;
}

/// The minting core with its collaborators: the storage record, the
/// ownership records, the collection-level base URI, and the reentrancy
/// lock.
pub struct RmrkContract {
    /// Supply counter, cap, price and metadata records.
    pub minting: MintingData,
    /// Owner of each issued identifier.
    pub tokens: OwnerLedger,
    /// The collection-level `baseUri` attribute, if set.
    pub base_uri: Option<String>,
    /// Held while a quantity-validating mint is in progress.
    pub locked: bool,
}

impl RmrkContract {
    /// A fresh collection: nothing issued, no metadata, no base URI.
    pub fn new(max_supply: u64, price_per_mint: Balance) -> (c: RmrkContract)
        ensures
            c.inv(),
            c.sv() == initial_state(max_supply, price_per_mint),
    {
        let c = RmrkContract {
            minting: MintingData::new(max_supply, price_per_mint),
            tokens: OwnerLedger::new(),
            base_uri: None,
            locked: false,
        };
        proof {
            assert(c.sv() =~~= initial_state(max_supply, price_per_mint));
        }
        c
    }

    /// Sets the collection-level base URI that derived display URIs start
    /// with.
    pub fn set_base_uri(&mut self, uri: String)
        requires
            old(self).inv(),
        ensures
            final(self).inv(),
            final(self).sv() == (MintingState { base_uri: Some(uri@), ..old(self).sv() }),
    {
        let ghost u = uri@;
        self.base_uri = Some(uri);
        proof {
            assert(self.sv() =~~= (MintingState { base_uri: Some(u), ..old(self).sv() }));
        }
    }
}

/// The representation invariant of `RmrkContract` places its abstract state
/// within the invariant the laws assume.
pub proof fn lemma_contract_inv_implies_state_inv(c: &RmrkContract)
    requires
        c.inv(),
    ensures
        state_inv(c.sv()),
{
}

impl Minting for RmrkContract {
    open spec fn sv(&self) -> MintingState {
        MintingState {
            last_token_id: self.minting.last_token_id,
            max_supply: self.minting.max_supply,
            price_per_mint: self.minting.price_per_mint,
            nft_metadata: self.minting.nft_metadata@,
            owners: self.tokens@,
            base_uri: match self.base_uri {
                Some(b) => Some(b@),
                None => None,
            },
            locked: self.locked,
        }
    }

    open spec fn inv(&self) -> bool {
        &&& self.minting.nft_metadata.wf()
        &&& self.tokens.spec_len() == self.minting.last_token_id
        &&& self.minting.last_token_id <= self.minting.max_supply
    }

    fn mint(&mut self, to: AccountId) -> (r: Result<Id, MintingError>) {
        match check_amount(self.minting.last_token_id, self.minting.max_supply, 1) {
            Err(e) => Err(e),
            Ok(_) => {
                let id = self.minting.last_token_id + 1;
                self.tokens.mint(to, id);
                self.minting.last_token_id = id;
                proof {
                    assert(self.sv() =~~= spec_mint(old(self).sv(), to).0);
                }
                Ok(id)
            },
        }
    }

    fn mint_many(&mut self, to: AccountId, mint_amount: u64) -> (r: Result<
        (Id, Id),
        MintingError,
    >) {
        if self.locked {
            return Err(MintingError::ReentrancyDetected);
        }
        self.locked = true;
        match check_amount(self.minting.last_token_id, self.minting.max_supply, mint_amount) {
            Err(e) => {
                self.locked = false;
                Err(e)
            },
            Ok(_) => {
                let base = self.minting.last_token_id;
                    let first = base + 1;
                    let last = base + mint_amount;
                    let mut k: u64 = 0;
                    while k < mint_amount
                        invariant
                            k <= mint_amount,
                            base + mint_amount <= u64::MAX,
                            self.minting == old(self).minting,
                            self.base_uri == old(self).base_uri,
                            self.locked,
                            base == self.minting.last_token_id,
                            old(self).inv(),
                            self.tokens.spec_len() == base + k,
                            forall|id: u64|
                                1 <= id && id <= base ==> self.tokens@.contains_key(id)
                                    && self.tokens@[id] == old(self).tokens@[id],
                            forall|id: u64|
                                base < id && id <= base + k ==> self.tokens@.contains_key(id)
                                    && self.tokens@[id] == to,
                        decreases mint_amount - k,
                    {
                        self.tokens.mint(to, base + 1 + k);
                        k += 1;
                    }
                    self.minting.last_token_id = last;
                    self.locked = false;
                    proof {
                        let s2 = spec_mint_many(old(self).sv(), to, mint_amount).0;
                        assert forall|id: u64| #[trigger] self.tokens@.contains_key(id) implies
                            s2.owners.contains_key(id) && self.tokens@[id] == s2.owners[id] by {
                            if id <= base {
                                assert(old(self).tokens@.contains_key(id));
                            }
                        }
                        assert(self.tokens@ =~= s2.owners);
                        assert(self.sv() =~~= s2);
                    }
                    Ok((first, last))
            },
        }
    }

    fn assign_metadata(&mut self, token_id: Id, metadata: String) -> (r: Result<
        (),
        MintingError,
    >) {
        let ghost m = metadata@;
        self.minting.nft_metadata.insert(token_id, metadata);
        proof {
            assert(self.sv() =~~= spec_assign_metadata(old(self).sv(), token_id, m));
        }
        Ok(())
    }

    fn max_supply(&self) -> (r: u64) {
        self.minting.max_supply
    }

    fn token_uri(&self, token_id: u64) -> (r: Result<String, MintingError>) {
        if !self.tokens.token_exists(token_id) {
            return Err(MintingError::TokenNotFound);
        }
        match self.minting.nft_metadata.get(token_id) {
            Some(uri) => Ok(uri.clone()),
            None => match &self.base_uri {
                None => Err(MintingError::MissingBaseUri),
                Some(b) => {
                    let d = u64_to_decimal(token_id);
                    let uri = b.clone().concat(d.as_str()).concat(".json");
                    Ok(uri)
                },
            },
        }
    }
}

impl MintingLazy for RmrkContract {
    fn mint_to_caller(&mut self, caller: AccountId, transferred_value: Balance) -> (r: Result<
        (),
        MintingError,
    >) {
        match check_value(self.minting.price_per_mint, transferred_value, 1) {
            Err(e) => Err(e),
            Ok(_) => match self.mint(caller) {
                Ok(_) => Ok(()),
                Err(e) => Err(e),
            },
        }
    }

    fn mint_many_to_caller(
        &mut self,
        caller: AccountId,
        transferred_value: Balance,
        mint_amount: u64,
    ) -> (r: Result<(), MintingError>) {
        if self.locked {
            return Err(MintingError::ReentrancyDetected);
        }
        match check_value(self.minting.price_per_mint, transferred_value, mint_amount) {
            Err(e) => Err(e),
            Ok(_) => match self.mint_many(caller, mint_amount) {
                Ok(_) => Ok(()),
                Err(e) => Err(e),
            },
        }
    }

    fn price(&self) -> (r: Balance) {
        self.minting.price_per_mint
    }
}

} // verus!
