//! The token-facing contract surface the engine's host exposes.
//!
//! Roster assembly and token ownership are external collaborators: tokens
//! are plain integer identifiers here, and the durable token ledger stays
//! with the ownership layer.

use vstd::prelude::*;

verus! {

/// The host contract holding the token-facing entry points.
#[derive(Clone, Copy, PartialEq, Eq, Structural, Debug)]
pub struct Contract {
    /// How many tokens of the enumerated kind are outstanding.
    pub nft_supply_for_type: u64,
}

impl Contract {
    pub fn new(nft_supply_for_type: u64) -> (r: Contract)
        ensures
            r == (Contract { nft_supply_for_type }),
    {
        Contract { nft_supply_for_type }
    }

    /// The owner may burn a locked token for a given user. The token ledger
    /// itself belongs to the ownership layer, which has not wired burning
    /// through yet, so the call accepts the request and commits no change.
    pub fn nft_burn(&mut self, token_id: Option<u64>)
        ensures
            *final(self) == *old(self),
    {
        let _ = token_id;
    }
}

} // verus!
