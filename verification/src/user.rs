use vstd::prelude::*;
use crate::account::AccountId;

verus! {

/// Per-user bookkeeping record; kept alongside the auction ledgers but not
/// touched by the auction operations themselves.
#[derive(Clone, Copy, Debug, PartialEq, Eq, Structural)]
pub struct User {
    /// The identity this record belongs to.
    pub authority: AccountId,
    /// Number of tickets this user has purchased.
    pub tickets_purchased: u32,
    /// Number of events this user has created.
    pub events_created: u32,
}

} // verus!
