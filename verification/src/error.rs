use vstd::prelude::*;

verus! {

/// Every way an auction operation can be rejected. Each operation is a single
/// atomic unit: whenever one of these is returned, no state has changed.
#[derive(Clone, Copy, Debug, PartialEq, Eq, Structural)]
pub enum ErrorCode {
    /// The event is not in its active status.
    AuctionNotActive,
    /// Bidding before `auction_start_time`.
    AuctionNotStarted,
    /// Bidding after `auction_end_time`.
    AuctionEnded,
    /// The submitted amount differs from the current clearing price.
    BidNotAtCurrentPrice,
    /// The bidder already holds a bid on this event.
    BidAlreadyExists,
    /// The caller is not the event's organizer.
    Unauthorized,
    /// The bid is not in its pending status.
    BidNotPending,
    /// Every ticket of the supply has been awarded.
    TicketsSoldOut,
    /// A counter would overflow its storage width.
    ArithmeticOverflow,
    /// The bid was refunded before; refunds are paid at most once.
    AlreadyRefunded,
    /// The bid's status byte is outside the known range.
    InvalidBidStatus,
    /// The underlying balance ledger rejected the debit or the credit.
    TransferFailed,
    /// A record field would exceed its bounded storage (ticket supply over
    /// the registry maximum, or an oversized metadata reference).
    CapacityExceeded,
}

} // verus!
