use vstd::prelude::*;
use crate::metadata_map::MetadataMap;
use crate::types::Balance;

verus! {

/// The storage record of the minting core: the supply counter, the supply
/// cap, the pricing policy, and the per-token metadata records.
pub struct MintingData {
    /// The identifier issued last; 0 before any mint.
    pub last_token_id: u64,
    /// The hard ceiling on issued identifiers.
    pub max_supply: u64,
    /// The fixed price of one token on the payable paths; set once at
    /// construction.
    pub price_per_mint: Balance,
    /// Explicit per-token URIs.
    pub nft_metadata: MetadataMap,
}

impl MintingData {
    /// A fresh record: nothing issued yet, no metadata.
    pub fn new(max_supply: u64, price_per_mint: Balance) -> (d: MintingData)
        ensures
            d.last_token_id == 0,
            d.max_supply == max_supply,
            d.price_per_mint == price_per_mint,
            d.nft_metadata.wf(),
            d.nft_metadata@ == Map::<u64, Seq<char>>::empty(),
    {
        MintingData {
            last_token_id: 0,
            max_supply,
            price_per_mint,
            nft_metadata: MetadataMap::new(),
        }
    }
}

} // verus!
