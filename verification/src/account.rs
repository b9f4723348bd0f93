use vstd::prelude::*;

verus! {

/// An opaque on-ledger identity: an organizer, a bidder, an event record, an
/// escrow vault, or a collectible handle. The ledger only ever compares
/// identities for equality, so a single numeric value models one fully.
#[derive(Clone, Copy, Debug, PartialEq, Eq, Structural)]
pub struct AccountId {
    pub id: u128,
}

impl AccountId {
    pub fn new(id: u128) -> (r: AccountId)
        ensures
            r.id == id,
    {
        AccountId { id }
    }

    /// The all-zero identity, used as the placeholder collectible handle
    /// recorded before the external registry has assigned a real one.
    pub fn zero() -> (r: AccountId)
        ensures
            r.id == 0,
    {
        AccountId { id: 0 }
    }
}

} // verus!
