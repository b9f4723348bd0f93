use vstd::prelude::*;
use crate::account::AccountId;

verus! {

/// Bid status: funds escrowed, awaiting award or refund.
pub const BID_STATUS_PENDING: u8 = 0;
/// Bid status: a ticket was awarded for this bid.
pub const BID_STATUS_AWARDED: u8 = 1;
/// Bid status: the escrowed amount was returned in full.
pub const BID_STATUS_REFUNDED: u8 = 2;

/// One bid per (event, bidder) pair: the amount escrowed at placement time
/// and its disposition.
#[derive(Clone, Copy, Debug, PartialEq, Eq, Structural)]
pub struct Bid {
    /// The bidder who escrowed the funds.
    pub bidder: AccountId,
    /// The event the bid was placed on.
    pub event: AccountId,
    /// The escrowed amount; equals the clearing price at placement time.
    pub amount: u64,
    /// One of the `BID_STATUS_*` values.
    pub status: u8,
    /// Address-derivation nonce of this bid record.
    pub bump: u8,
}

} // verus!
