use vstd::prelude::*;
use crate::account::AccountId;

verus! {

/// Ticket status: held by the winning bidder.
pub const TICKET_STATUS_OWNED: u8 = 0;
/// Ticket status: redeemed at the event.
pub const TICKET_STATUS_CLAIMED: u8 = 1;
/// Ticket status: given back for a refund.
pub const TICKET_STATUS_REFUNDED: u8 = 2;

/// One ticket per awarded bid, linking the winner to the collectible handle
/// that was transferred to them.
#[derive(Clone, Debug)]
pub struct Ticket {
    /// The ticket holder; the bidder of the awarded bid.
    pub owner: AccountId,
    /// The event the ticket belongs to.
    pub event: AccountId,
    /// One of the `TICKET_STATUS_*` values.
    pub status: u8,
    /// Off-chain reference, empty until set by a later bookkeeping step.
    pub offchain_ref: String,
    /// Address-derivation nonce of this ticket record.
    pub bump: u8,
    /// The collectible handle transferred to the winner.
    pub cnft_asset_id: AccountId,
}

impl Ticket {
    /// Longest accepted off-chain reference.
    pub const MAX_OFFCHAIN_REF_LEN: usize = 200;
}

} // verus!
