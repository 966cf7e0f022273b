use vstd::prelude::*;
use crate::types::AccountId;

verus! {

/// The token-ownership records: the owner of token `id` (identifiers are
/// issued consecutively from 1) sits at index `id - 1`.
///
/// This is the narrow surface the minting core needs from an ownership
/// store: create a record for a freshly issued identifier, test existence,
/// and look an owner up.  Transfer, approval and enumeration are out of its
/// scope.
pub struct OwnerLedger {
    pub owners: Vec<AccountId>,
}

impl OwnerLedger {
    /// The mapping from issued identifier to owner.
    pub open spec fn view(&self) -> Map<u64, AccountId> {
        Map::new(
            |id: u64| 1 <= id && id <= self.owners@.len(),
            |id: u64| self.owners@[id - 1],
        )
    }

    /// How many identifiers have a record.
    pub open spec fn spec_len(&self) -> nat {
        self.owners@.len()
    }

    /// A ledger with no records.
    pub fn new() -> (l: OwnerLedger)
        ensures
            l.spec_len() == 0,
            l@ == Map::<u64, AccountId>::empty(),
    {
        let l = OwnerLedger { owners: Vec::new() };
        proof {
            assert(l@ =~= Map::<u64, AccountId>::empty());
        }
        l
    }

    /// Records `to` as the owner of the freshly issued identifier `id`,
    /// which must be the next consecutive one.
    pub fn mint(&mut self, to: AccountId, id: u64)
        requires
            id == old(self).spec_len() + 1,
        ensures
            final(self).spec_len() == old(self).spec_len() + 1,
            final(self)@ == old(self)@.insert(id, to),
    {
        self.owners.push(to);
        proof {
            assert(self@ =~= old(self)@.insert(id, to));
        }
    }

    /// Whether `id` has a recorded owner.
    pub fn token_exists(&self, id: u64) -> (b: bool)
        ensures
            b == self@.contains_key(id),
    {
        1 <= id && id <= (self.owners.len() as u64)
    }

    /// The recorded owner of `id`, if any.
    pub fn owner_of(&self, id: u64) -> (r: Option<AccountId>)
        ensures
            (match r {
                Some(a) => self@.contains_key(id) && self@[id] == a,
                None => !self@.contains_key(id),
            }),
    {
        if 1 <= id && id <= (self.owners.len() as u64) {
            Some(self.owners[(id - 1) as usize])
        } else {
            None
        }
    }
}

} // verus!
