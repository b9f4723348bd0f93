use vstd::prelude::*;
use crate::account::AccountId;
use crate::bid::{Bid, BID_STATUS_AWARDED, BID_STATUS_PENDING, BID_STATUS_REFUNDED};
use crate::error::ErrorCode;
use crate::event::{price_at, Event, EVENT_STATUS_ACTIVE, EVENT_STATUS_CREATED};
use crate::ticket::{Ticket, TICKET_STATUS_OWNED};

verus! {

/// One auction and everything it owns: the event record, the bid and ticket
/// ledgers, and the escrow vault's balance. Each operation below is one
/// atomic unit: it either applies all of its effects or returns an error and
/// leaves every record and balance as it was.
#[derive(Clone, Debug)]
pub struct Auction {
    /// The event record's own on-ledger identity; bids reference it.
    pub event_id: AccountId,
    /// The event record.
    pub event: Event,
    /// One bid per bidder, in order of placement.
    pub bids: Vec<Bid>,
    /// One ticket per awarded bid, in order of award.
    pub tickets: Vec<Ticket>,
    /// Funds currently held by the event's escrow vault.
    pub vault_balance: u64,
}

/// What a pending bid contributes to the vault's obligations: its escrowed
/// amount while pending, nothing once awarded or refunded.
pub open spec fn bid_pending_amount(b: Bid) -> int {
    if b.status == BID_STATUS_PENDING {
        b.amount as int
    } else {
        0
    }
}

/// Total amount the vault owes to pending bids.
pub open spec fn pending_total(bids: Seq<Bid>) -> int
    decreases bids.len(),
{
    if bids.len() == 0 {
        0
    } else {
        pending_total(bids.drop_last()) + bid_pending_amount(bids.last())
    }
}

/// Number of bids that have been awarded a ticket.
pub open spec fn awarded_count(bids: Seq<Bid>) -> int
    decreases bids.len(),
{
    if bids.len() == 0 {
        0
    } else {
        awarded_count(bids.drop_last()) + (if bids.last().status == BID_STATUS_AWARDED {
            1int
        } else {
            0int
        })
    }
}

/// Whether `bidder` already holds a bid in `bids`.
pub open spec fn has_bid_from(bids: Seq<Bid>, bidder: AccountId) -> bool {
    exists|i: int| 0 <= i < bids.len() && (#[trigger] bids[i]).bidder == bidder
}

/// At most one bid per bidder.
pub open spec fn bids_unique(bids: Seq<Bid>) -> bool {
    forall|i: int, j: int|
        0 <= i < j < bids.len() ==> (#[trigger] bids[i]).bidder != (#[trigger] bids[j]).bidder
}

/// A bid record is valid for the auction it sits in: it references the
/// auction's event and carries a known status.
pub open spec fn valid_bid(b: Bid, event_id: AccountId) -> bool {
    b.event == event_id && b.status <= BID_STATUS_REFUNDED
}

/// Well-formedness of an auction's records: the capacity counter never
/// exceeds the supply and counts exactly the awarded bids, each of which has
/// exactly one ticket; bidders hold at most one bid each; every record
/// references this auction's event; and the bounded fields respect their
/// bounds.
pub open spec fn wf(a: Auction) -> bool {
    &&& a.event.tickets_awarded <= a.event.ticket_supply
    &&& a.tickets@.len() == a.event.tickets_awarded as int
    &&& awarded_count(a.bids@) == a.event.tickets_awarded as int
    &&& bids_unique(a.bids@)
    &&& forall|i: int| 0 <= i < a.bids@.len() ==> valid_bid(#[trigger] a.bids@[i], a.event_id)
    &&& forall|k: int| 0 <= k < a.tickets@.len() ==> (#[trigger] a.tickets@[k]).event == a.event_id
    &&& a.event.cnft_asset_ids@.len() <= Event::MAX_TICKETS as int
    &&& a.event.metadata_url@.len() <= Event::MAX_METADATA_URL_LEN as int
}

/// The escrow invariant: the vault holds exactly what the pending bids
/// escrowed. It is established at creation and preserved by placing bids, by
/// awarding tickets and by refunding pending bids; a positive partial refund
/// of an awarded bid pays out of it instead (see `refund_bid`).
pub open spec fn escrow_consistent(a: Auction) -> bool {
    a.vault_balance as int == pending_total(a.bids@)
}

proof fn lemma_pending_total_push(bids: Seq<Bid>, b: Bid)
    ensures
        pending_total(bids.push(b)) == pending_total(bids) + bid_pending_amount(b),
{
    assert(bids.push(b).drop_last() =~= bids);
}

proof fn lemma_awarded_count_push(bids: Seq<Bid>, b: Bid)
    ensures
        awarded_count(bids.push(b)) == awarded_count(bids) + (if b.status == BID_STATUS_AWARDED {
            1int
        } else {
            0int
        }),
{
    assert(bids.push(b).drop_last() =~= bids);
}

proof fn lemma_pending_total_update(bids: Seq<Bid>, i: int, b: Bid)
    requires
        0 <= i < bids.len(),
    ensures
        pending_total(bids.update(i, b)) == pending_total(bids) - bid_pending_amount(bids[i])
            + bid_pending_amount(b),
    decreases bids.len(),
{
    let s2 = bids.update(i, b);
    if i == bids.len() - 1 {
        assert(s2.drop_last() =~= bids.drop_last());
    } else {
        assert(s2.drop_last() =~= bids.drop_last().update(i, b));
        lemma_pending_total_update(bids.drop_last(), i, b);
    }
}

proof fn lemma_awarded_count_update(bids: Seq<Bid>, i: int, b: Bid)
    requires
        0 <= i < bids.len(),
    ensures
        awarded_count(bids.update(i, b)) == awarded_count(bids) - (if bids[i].status
            == BID_STATUS_AWARDED {
            1int
        } else {
            0int
        }) + (if b.status == BID_STATUS_AWARDED {
            1int
        } else {
            0int
        }),
    decreases bids.len(),
{
    let s2 = bids.update(i, b);
    if i == bids.len() - 1 {
        assert(s2.drop_last() =~= bids.drop_last());
    } else {
        assert(s2.drop_last() =~= bids.drop_last().update(i, b));
        lemma_awarded_count_update(bids.drop_last(), i, b);
    }
}

/// The pending obligations are never negative.
pub proof fn lemma_pending_total_nonneg(bids: Seq<Bid>)
    ensures
        pending_total(bids) >= 0,
    decreases bids.len(),
{
    if bids.len() > 0 {
        lemma_pending_total_nonneg(bids.drop_last());
    }
}

/// Each single pending bid is covered by the pending obligations.
pub proof fn lemma_pending_total_covers(bids: Seq<Bid>, i: int)
    requires
        0 <= i < bids.len(),
        bids[i].status == BID_STATUS_PENDING,
    ensures
        bids[i].amount as int <= pending_total(bids),
    decreases bids.len(),
{
    if i == bids.len() - 1 {
        lemma_pending_total_nonneg(bids.drop_last());
    } else {
        lemma_pending_total_covers(bids.drop_last(), i);
    }
}

/// Escrow adequacy: while the escrow invariant holds, the vault covers every
/// pending bid, so awarding it or refunding it in full never fails for lack
/// of vault funds.
pub proof fn lemma_escrow_covers_pending(a: Auction, i: int)
    requires
        escrow_consistent(a),
        0 <= i < a.bids@.len(),
        a.bids@[i].status == BID_STATUS_PENDING,
    ensures
        a.bids@[i].amount <= a.vault_balance,
{
    lemma_pending_total_covers(a.bids@, i);
}

/// Opens a new auction: the event record with empty counters, an empty bid
/// and ticket ledger, and an empty escrow vault. One placeholder collectible
/// handle per ticket of the supply is recorded; the external registry
/// replaces them when it mints the real ones. Parameters are stored as given:
/// price and time ordering are deliberately not validated, only the bounded
/// fields are, since the record could not hold them otherwise.
pub fn create_event(
    event_id: AccountId,
    organizer: AccountId,
    merkle_tree: AccountId,
    metadata_url: String,
    ticket_supply: u32,
    start_price: u64,
    end_price: u64,
    auction_start_time: i64,
    auction_end_time: i64,
) -> (r: Result<Auction, ErrorCode>)
    ensures
        r is Ok <==> (ticket_supply as int <= Event::MAX_TICKETS as int && metadata_url@.len()
            <= Event::MAX_METADATA_URL_LEN as int),
        r is Err ==> r == Err::<Auction, ErrorCode>(ErrorCode::CapacityExceeded),
        r matches Ok(a) ==> {
            &&& a.event_id == event_id
            &&& a.event.organizer == organizer
            &&& a.event.metadata_url == metadata_url
            &&& a.event.ticket_supply == ticket_supply
            &&& a.event.tickets_awarded == 0
            &&& a.event.start_price == start_price
            &&& a.event.end_price == end_price
            &&& a.event.auction_start_time == auction_start_time
            &&& a.event.auction_end_time == auction_end_time
            &&& a.event.auction_close_price == 0
            &&& a.event.status == EVENT_STATUS_CREATED
            &&& a.event.bump == 0
            &&& a.event.merkle_tree == merkle_tree
            &&& a.event.cnft_asset_ids@.len() == ticket_supply as int
            &&& (forall|k: int|
                0 <= k < a.event.cnft_asset_ids@.len() ==> (
                #[trigger] a.event.cnft_asset_ids@[k]).id == 0)
            &&& a.bids@.len() == 0
            &&& a.tickets@.len() == 0
            &&& a.vault_balance == 0
            &&& wf(a)
            &&& escrow_consistent(a)
        },
{
    if ticket_supply as usize > Event::MAX_TICKETS {
        return Err(ErrorCode::CapacityExceeded);
    }
    if metadata_url.as_str().unicode_len() > Event::MAX_METADATA_URL_LEN {
        return Err(ErrorCode::CapacityExceeded);
    }
    let mut cnft_asset_ids: Vec<AccountId> = Vec::new();
    let mut minted: u32 = 0;
    while minted < ticket_supply
        invariant
            minted <= ticket_supply,
            cnft_asset_ids@.len() == minted as int,
            forall|k: int|
                0 <= k < cnft_asset_ids@.len() ==> (#[trigger] cnft_asset_ids@[k]).id == 0,
        decreases ticket_supply - minted,
    {
        cnft_asset_ids.push(AccountId::zero());
        minted = minted + 1;
    }
    let event = Event {
        organizer,
        metadata_url,
        ticket_supply,
        tickets_awarded: 0,
        start_price,
        end_price,
        auction_start_time,
        auction_end_time,
        auction_close_price: 0,
        status: EVENT_STATUS_CREATED,
        bump: 0,
        merkle_tree,
        cnft_asset_ids,
    };
    Ok(Auction { event_id, event, bids: Vec::new(), tickets: Vec::new(), vault_balance: 0 })
}

/// The outcome `place_bid` owes for the given pre-state, with the earliest
/// failing check deciding the error: a bidder holds at most one bid (the bid
/// record's address is derived from event and bidder, so a second one cannot
/// be allocated), the event must be active, `now` must lie inside the auction
/// window, the amount must equal the clearing price exactly, and the balance
/// ledger must accept the debit and the vault credit.
pub open spec fn place_bid_outcome(
    a: Auction,
    bidder: AccountId,
    balance: u64,
    amount: u64,
    now: int,
) -> Result<(), ErrorCode> {
    if has_bid_from(a.bids@, bidder) {
        Err(ErrorCode::BidAlreadyExists)
    } else if a.event.status != EVENT_STATUS_ACTIVE {
        Err(ErrorCode::AuctionNotActive)
    } else if now < a.event.auction_start_time {
        Err(ErrorCode::AuctionNotStarted)
    } else if now > a.event.auction_end_time {
        Err(ErrorCode::AuctionEnded)
    } else if amount != price_at(a.event, now) {
        Err(ErrorCode::BidNotAtCurrentPrice)
    } else if balance < amount || a.vault_balance as int + amount as int > u64::MAX as int {
        Err(ErrorCode::TransferFailed)
    } else {
        Ok(())
    }
}

fn bidder_has_bid(bids: &Vec<Bid>, bidder: AccountId) -> (r: bool)
    ensures
        r == has_bid_from(bids@, bidder),
{
    let mut i: usize = 0;
    while i < bids.len()
        invariant
            i <= bids@.len(),
            forall|k: int| 0 <= k < i ==> (#[trigger] bids@[k]).bidder != bidder,
        decreases bids@.len() - i,
    {
        if bids[i].bidder == bidder {
            return true;
        }
        i = i + 1;
    }
    false
}

/// Places a bid: atomically moves `amount` from the bidder's balance into the
/// escrow vault and records a pending bid, or changes nothing and reports the
/// first failing check. The amount must equal the clearing price at `now`
/// exactly; over- and underpaying are rejected, not clamped.
pub fn place_bid(
    auction: &mut Auction,
    bidder: AccountId,
    bidder_balance: &mut u64,
    amount: u64,
    now: i64,
) -> (r: Result<(), ErrorCode>)
    ensures
        r == place_bid_outcome(
            *old(auction),
            bidder,
            *old(bidder_balance),
            amount,
            now as int,
        ),
        r is Err ==> *final(auction) == *old(auction) && *final(bidder_balance) == *old(
            bidder_balance,
        ),
        r is Ok ==> {
            &&& final(auction).bids@ == old(auction).bids@.push(
                (Bid {
                    bidder,
                    event: old(auction).event_id,
                    amount,
                    status: BID_STATUS_PENDING,
                    bump: 0,
                }),
            )
            &&& final(auction).event == old(auction).event
            &&& final(auction).event_id == old(auction).event_id
            &&& final(auction).tickets@ == old(auction).tickets@
            &&& final(auction).vault_balance == old(auction).vault_balance + amount
            &&& *final(bidder_balance) == *old(bidder_balance) - amount
        },
        *final(bidder_balance) as int + final(auction).vault_balance as int == *old(
            bidder_balance,
        ) as int + old(auction).vault_balance as int,
        wf(*old(auction)) ==> wf(*final(auction)),
        escrow_consistent(*old(auction)) ==> escrow_consistent(*final(auction)),
{
    if bidder_has_bid(&auction.bids, bidder) {
        return Err(ErrorCode::BidAlreadyExists);
    }
    if auction.event.status != EVENT_STATUS_ACTIVE {
        return Err(ErrorCode::AuctionNotActive);
    }
    if now < auction.event.auction_start_time {
        return Err(ErrorCode::AuctionNotStarted);
    }
    if now > auction.event.auction_end_time {
        return Err(ErrorCode::AuctionEnded);
    }
    let current_price = auction.event.get_current_auction_price(now);
    if amount != current_price {
        return Err(ErrorCode::BidNotAtCurrentPrice);
    }
    if *bidder_balance < amount {
        return Err(ErrorCode::TransferFailed);
    }
    if auction.vault_balance > u64::MAX - amount {
        return Err(ErrorCode::TransferFailed);
    }
    *bidder_balance = *bidder_balance - amount;
    auction.vault_balance = auction.vault_balance + amount;
    let bid = Bid {
        bidder,
        event: auction.event_id,
        amount,
        status: BID_STATUS_PENDING,
        bump: 0,
    };
    auction.bids.push(bid);
    proof {
        let prior = old(auction).bids@;
        lemma_pending_total_push(prior, bid);
        lemma_awarded_count_push(prior, bid);
        if wf(*old(auction)) {
            assert forall|i: int, j: int| 0 <= i < j < auction.bids@.len() implies (
            #[trigger] auction.bids@[i]).bidder != (#[trigger] auction.bids@[j]).bidder by {
                if j == prior.len() as int {
                    assert(!(prior[i].bidder == bidder));
                }
            }
        }
    }
    Ok(())
}

/// The outcome `award_ticket` owes for the given pre-state, with the earliest
/// failing check deciding the error: only the organizer may award, the event
/// must be active, the bid must still be pending, the supply must not be
/// exhausted, and the balance ledger must accept moving the escrowed amount
/// from the vault to the organizer.
pub open spec fn award_ticket_outcome(
    a: Auction,
    caller: AccountId,
    bid: Bid,
    organizer_balance: u64,
) -> Result<(), ErrorCode> {
    if caller != a.event.organizer {
        Err(ErrorCode::Unauthorized)
    } else if a.event.status != EVENT_STATUS_ACTIVE {
        Err(ErrorCode::AuctionNotActive)
    } else if bid.status != BID_STATUS_PENDING {
        Err(ErrorCode::BidNotPending)
    } else if a.event.tickets_awarded >= a.event.ticket_supply {
        Err(ErrorCode::TicketsSoldOut)
    } else if a.vault_balance < bid.amount || organizer_balance as int + bid.amount as int
        > u64::MAX as int {
        Err(ErrorCode::TransferFailed)
    } else {
        Ok(())
    }
}

/// Whether `e1` is `e0` with exactly one more ticket awarded and every other
/// field untouched.
pub open spec fn event_after_award(e0: Event, e1: Event) -> bool {
    &&& e1.organizer == e0.organizer
    &&& e1.metadata_url == e0.metadata_url
    &&& e1.ticket_supply == e0.ticket_supply
    &&& e1.tickets_awarded == e0.tickets_awarded + 1
    &&& e1.start_price == e0.start_price
    &&& e1.end_price == e0.end_price
    &&& e1.auction_start_time == e0.auction_start_time
    &&& e1.auction_end_time == e0.auction_end_time
    &&& e1.auction_close_price == e0.auction_close_price
    &&& e1.status == e0.status
    &&& e1.bump == e0.bump
    &&& e1.merkle_tree == e0.merkle_tree
    &&& e1.cnft_asset_ids == e0.cnft_asset_ids
}

/// Awards a ticket to the pending bid at `bid_index`, atomically: the
/// collectible handle `cnft_asset_id` is recorded on a fresh ticket bound to
/// the bidder (its ownership transfer in the external registry accompanies
/// this record), the bid becomes awarded, the award counter grows by one —
/// the counter addition is checked, and the prior capacity check makes the
/// overflow branch provably dead — and the escrowed amount moves from the
/// vault to the organizer. On any error nothing changes, so a call by anyone
/// but the organizer, or past the supply, leaves bids, tickets and funds as
/// they were. While the escrow invariant holds the vault always covers the
/// pending bid, so the transfer can only fail by overflowing the organizer's
/// balance.
pub fn award_ticket(
    auction: &mut Auction,
    caller: AccountId,
    bid_index: usize,
    cnft_asset_id: AccountId,
    organizer_balance: &mut u64,
) -> (r: Result<(), ErrorCode>)
    requires
        bid_index < old(auction).bids@.len(),
    ensures
        r == award_ticket_outcome(
            *old(auction),
            caller,
            old(auction).bids@[bid_index as int],
            *old(organizer_balance),
        ),
        r is Err ==> *final(auction) == *old(auction) && *final(organizer_balance) == *old(
            organizer_balance,
        ),
        r is Ok ==> {
            let awarded = old(auction).bids@[bid_index as int];
            &&& final(auction).bids@ == old(auction).bids@.update(
                bid_index as int,
                (Bid {
                    bidder: awarded.bidder,
                    event: awarded.event,
                    amount: awarded.amount,
                    status: BID_STATUS_AWARDED,
                    bump: awarded.bump,
                }),
            )
            &&& event_after_award(old(auction).event, final(auction).event)
            &&& final(auction).event_id == old(auction).event_id
            &&& final(auction).tickets@.len() == old(auction).tickets@.len() + 1
            &&& (forall|k: int|
                0 <= k < old(auction).tickets@.len() ==> final(auction).tickets@[k] == old(
                    auction,
                ).tickets@[k])
            &&& final(auction).tickets@.last().owner == awarded.bidder
            &&& final(auction).tickets@.last().event == old(auction).event_id
            &&& final(auction).tickets@.last().status == TICKET_STATUS_OWNED
            &&& final(auction).tickets@.last().offchain_ref@.len() == 0
            &&& final(auction).tickets@.last().bump == 0
            &&& final(auction).tickets@.last().cnft_asset_id == cnft_asset_id
            &&& final(auction).vault_balance == old(auction).vault_balance - awarded.amount
            &&& *final(organizer_balance) == *old(organizer_balance) + awarded.amount
        },
        *final(organizer_balance) as int + final(auction).vault_balance as int == *old(
            organizer_balance,
        ) as int + old(auction).vault_balance as int,
        wf(*old(auction)) ==> wf(*final(auction)),
        escrow_consistent(*old(auction)) ==> escrow_consistent(*final(auction)),
        r != Err::<(), ErrorCode>(ErrorCode::ArithmeticOverflow),
        escrow_consistent(*old(auction)) && r == Err::<(), ErrorCode>(ErrorCode::TransferFailed)
            ==> *old(organizer_balance) as int + old(
            auction,
        ).bids@[bid_index as int].amount as int > u64::MAX as int,
{
    if caller != auction.event.organizer {
        return Err(ErrorCode::Unauthorized);
    }
    if auction.event.status != EVENT_STATUS_ACTIVE {
        return Err(ErrorCode::AuctionNotActive);
    }
    let amount = auction.bids[bid_index].amount;
    if auction.bids[bid_index].status != BID_STATUS_PENDING {
        return Err(ErrorCode::BidNotPending);
    }
    if auction.event.tickets_awarded >= auction.event.ticket_supply {
        return Err(ErrorCode::TicketsSoldOut);
    }
    if auction.vault_balance < amount {
        proof {
            if escrow_consistent(*auction) {
                lemma_escrow_covers_pending(*auction, bid_index as int);
            }
        }
        return Err(ErrorCode::TransferFailed);
    }
    if *organizer_balance > u64::MAX - amount {
        return Err(ErrorCode::TransferFailed);
    }
    let new_awarded = match auction.event.tickets_awarded.checked_add(1) {
        Some(v) => v,
        None => {
            return Err(ErrorCode::ArithmeticOverflow);
        },
    };
    let bidder = auction.bids[bid_index].bidder;
    let prior_bid = auction.bids[bid_index];
    let awarded_bid = Bid {
        bidder: prior_bid.bidder,
        event: prior_bid.event,
        amount: prior_bid.amount,
        status: BID_STATUS_AWARDED,
        bump: prior_bid.bump,
    };
    auction.bids.set(bid_index, awarded_bid);
    auction.event.tickets_awarded = new_awarded;
    let ticket = Ticket {
        owner: bidder,
        event: auction.event_id,
        status: TICKET_STATUS_OWNED,
        offchain_ref: String::new(),
        bump: 0,
        cnft_asset_id,
    };
    auction.tickets.push(ticket);
    auction.vault_balance = auction.vault_balance - amount;
    *organizer_balance = *organizer_balance + amount;
    proof {
        let prior = old(auction).bids@;
        let i = bid_index as int;
        lemma_pending_total_update(prior, i, awarded_bid);
        lemma_awarded_count_update(prior, i, awarded_bid);
        if wf(*old(auction)) {
            assert forall|p: int, q: int| 0 <= p < q < auction.bids@.len() implies (
            #[trigger] auction.bids@[p]).bidder != (#[trigger] auction.bids@[q]).bidder by {
                assert(prior[p].bidder != prior[q].bidder);
            }
        }
    }
    Ok(())
}

/// What a winning (awarded) bid is owed back: the part of its escrowed amount
/// above the recorded closing price, or nothing if it did not overpay.
pub open spec fn partial_refund_amount(amount: u64, close_price: u64) -> int {
    if amount > close_price {
        amount - close_price
    } else {
        0
    }
}

/// The outcome `refund_bid` owes for the given pre-state. A refunded bid is
/// never paid twice; a pending bid is refunded in full at any time, there is
/// deliberately no time-window check; an awarded bid keeps its ticket and is
/// owed only the overpayment above the recorded closing price, with a zero
/// overpayment accepted as a no-op; any unknown status byte is rejected.
pub open spec fn refund_bid_outcome(a: Auction, bid: Bid, balance: u64) -> Result<
    (),
    ErrorCode,
> {
    if bid.status == BID_STATUS_REFUNDED {
        Err(ErrorCode::AlreadyRefunded)
    } else if bid.status == BID_STATUS_PENDING {
        if a.vault_balance < bid.amount || balance as int + bid.amount as int > u64::MAX as int {
            Err(ErrorCode::TransferFailed)
        } else {
            Ok(())
        }
    } else if bid.status == BID_STATUS_AWARDED {
        let refund = partial_refund_amount(bid.amount, a.event.auction_close_price);
        if refund == 0 {
            Ok(())
        } else if (a.vault_balance as int) < refund || balance as int + refund > u64::MAX as int {
            Err(ErrorCode::TransferFailed)
        } else {
            Ok(())
        }
    } else {
        Err(ErrorCode::InvalidBidStatus)
    }
}

/// Refunds the bid at `bid_index` to the bidder's balance, atomically: a
/// pending bid is paid back in full from the vault and marked refunded; an
/// awarded bid is paid only its overpayment above the recorded closing price
/// and keeps its status, so the ticket stays valid. Since no operation here
/// ever sets a closing price, the awarded branch pays the full amount until a
/// finalization step records one. On any error nothing changes; in
/// particular, a second refund of an already refunded bid is always rejected.
pub fn refund_bid(
    auction: &mut Auction,
    bid_index: usize,
    bidder_balance: &mut u64,
) -> (r: Result<(), ErrorCode>)
    requires
        bid_index < old(auction).bids@.len(),
    ensures
        r == refund_bid_outcome(
            *old(auction),
            old(auction).bids@[bid_index as int],
            *old(bidder_balance),
        ),
        r is Err ==> *final(auction) == *old(auction) && *final(bidder_balance) == *old(
            bidder_balance,
        ),
        r is Ok && old(auction).bids@[bid_index as int].status == BID_STATUS_PENDING ==> {
            let refunded = old(auction).bids@[bid_index as int];
            &&& final(auction).bids@ == old(auction).bids@.update(
                bid_index as int,
                (Bid {
                    bidder: refunded.bidder,
                    event: refunded.event,
                    amount: refunded.amount,
                    status: BID_STATUS_REFUNDED,
                    bump: refunded.bump,
                }),
            )
            &&& final(auction).event == old(auction).event
            &&& final(auction).event_id == old(auction).event_id
            &&& final(auction).tickets@ == old(auction).tickets@
            &&& final(auction).vault_balance == old(auction).vault_balance - refunded.amount
            &&& *final(bidder_balance) == *old(bidder_balance) + refunded.amount
        },
        r is Ok && old(auction).bids@[bid_index as int].status == BID_STATUS_AWARDED ==> {
            let refund = partial_refund_amount(
                old(auction).bids@[bid_index as int].amount,
                old(auction).event.auction_close_price,
            );
            &&& final(auction).bids@ == old(auction).bids@
            &&& final(auction).event == old(auction).event
            &&& final(auction).event_id == old(auction).event_id
            &&& final(auction).tickets@ == old(auction).tickets@
            &&& final(auction).vault_balance as int == old(auction).vault_balance as int - refund
            &&& *final(bidder_balance) as int == *old(bidder_balance) as int + refund
        },
        *final(bidder_balance) as int + final(auction).vault_balance as int == *old(
            bidder_balance,
        ) as int + old(auction).vault_balance as int,
        wf(*old(auction)) ==> wf(*final(auction)),
        escrow_consistent(*old(auction)) && (r is Err || old(
            auction,
        ).bids@[bid_index as int].status == BID_STATUS_PENDING || partial_refund_amount(
            old(auction).bids@[bid_index as int].amount,
            old(auction).event.auction_close_price,
        ) == 0) ==> escrow_consistent(*final(auction)),
        escrow_consistent(*old(auction)) && old(auction).bids@[bid_index as int].status
            == BID_STATUS_PENDING && r == Err::<(), ErrorCode>(ErrorCode::TransferFailed) ==> *old(
            bidder_balance,
        ) as int + old(auction).bids@[bid_index as int].amount as int > u64::MAX as int,
{
    let status = auction.bids[bid_index].status;
    let amount = auction.bids[bid_index].amount;
    if status == BID_STATUS_REFUNDED {
        return Err(ErrorCode::AlreadyRefunded);
    }
    if status == BID_STATUS_PENDING {
        if auction.vault_balance < amount {
            proof {
                if escrow_consistent(*auction) {
                    lemma_escrow_covers_pending(*auction, bid_index as int);
                }
            }
            return Err(ErrorCode::TransferFailed);
        }
        if *bidder_balance > u64::MAX - amount {
            return Err(ErrorCode::TransferFailed);
        }
        let prior_bid = auction.bids[bid_index];
        let refunded_bid = Bid {
            bidder: prior_bid.bidder,
            event: prior_bid.event,
            amount: prior_bid.amount,
            status: BID_STATUS_REFUNDED,
            bump: prior_bid.bump,
        };
        auction.bids.set(bid_index, refunded_bid);
        auction.vault_balance = auction.vault_balance - amount;
        *bidder_balance = *bidder_balance + amount;
        proof {
            let prior = old(auction).bids@;
            let i = bid_index as int;
            lemma_pending_total_update(prior, i, refunded_bid);
            lemma_awarded_count_update(prior, i, refunded_bid);
            if wf(*old(auction)) {
                assert forall|p: int, q: int| 0 <= p < q < auction.bids@.len() implies (
                #[trigger] auction.bids@[p]).bidder != (#[trigger] auction.bids@[q]).bidder by {
                    assert(prior[p].bidder != prior[q].bidder);
                }
            }
        }
        return Ok(());
    }
    if status == BID_STATUS_AWARDED {
        let close_price = auction.event.auction_close_price;
        let refund = if amount > close_price {
            amount - close_price
        } else {
            0
        };
        if refund == 0 {
            return Ok(());
        }
        if auction.vault_balance < refund {
            return Err(ErrorCode::TransferFailed);
        }
        if *bidder_balance > u64::MAX - refund {
            return Err(ErrorCode::TransferFailed);
        }
        auction.vault_balance = auction.vault_balance - refund;
        *bidder_balance = *bidder_balance + refund;
        return Ok(());
    }
    Err(ErrorCode::InvalidBidStatus)
}

} // verus!

