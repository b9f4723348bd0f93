use vstd::prelude::*;
use vstd::arithmetic::div_mod::{
    lemma_div_is_ordered, lemma_div_multiples_vanish, lemma_div_pos_is_pos,
};
use vstd::arithmetic::mul::{lemma_mul_inequality, lemma_mul_nonnegative, lemma_mul_upper_bound};
use crate::account::AccountId;

verus! {

/// Event status: freshly created, not yet opened for bidding.
pub const EVENT_STATUS_CREATED: u8 = 0;
/// Event status: open; bids and awards are accepted.
pub const EVENT_STATUS_ACTIVE: u8 = 1;
/// Event status: closed with a recorded clearing price.
pub const EVENT_STATUS_FINALIZED: u8 = 2;
/// Event status: called off by the organizer.
pub const EVENT_STATUS_CANCELLED: u8 = 3;

/// One organizer-run Dutch auction: its parameters, capacity counters and
/// lifecycle status. The record is append-only; only `tickets_awarded` and
/// `status` are meant to move after creation.
#[derive(Clone, Debug)]
pub struct Event {
    /// The event organizer.
    pub organizer: AccountId,
    /// Off-chain metadata reference, at most `MAX_METADATA_URL_LEN` long.
    pub metadata_url: String,
    /// Total number of tickets available.
    pub ticket_supply: u32,
    /// Number of tickets awarded so far; never exceeds `ticket_supply`.
    pub tickets_awarded: u32,
    /// Price at which the Dutch auction opens.
    pub start_price: u64,
    /// Price at which the Dutch auction ends.
    pub end_price: u64,
    /// Auction start time (seconds).
    pub auction_start_time: i64,
    /// Auction end time (seconds).
    pub auction_end_time: i64,
    /// The price at which the auction closed; stays 0 until a finalization
    /// step records it, so the partial-refund branch pays nothing meaningful
    /// before then.
    pub auction_close_price: u64,
    /// One of the `EVENT_STATUS_*` values.
    pub status: u8,
    /// Address-derivation nonce of the escrow vault bound to this event.
    pub bump: u8,
    /// Root handle of the external collectible registry tree.
    pub merkle_tree: AccountId,
    /// Collectible handles minted for this event, at most `MAX_TICKETS`.
    pub cnft_asset_ids: Vec<AccountId>,
}

/// The clearing price of `ev` at time `now`: `start_price` until the window
/// opens, `end_price` once it closes, and in between `start_price` lowered by
/// the elapsed share of the (saturated) price difference, rounding down.
pub open spec fn price_at(ev: Event, now: int) -> int {
    if now <= ev.auction_start_time {
        ev.start_price as int
    } else if now >= ev.auction_end_time {
        ev.end_price as int
    } else {
        let diff = if ev.start_price >= ev.end_price {
            ev.start_price - ev.end_price
        } else {
            0
        };
        ev.start_price - diff * (now - ev.auction_start_time) / (ev.auction_end_time
            - ev.auction_start_time)
    }
}

impl Event {
    /// Longest accepted metadata reference.
    pub const MAX_METADATA_URL_LEN: usize = 200;

    /// Most collectible handles the registry tracks for one event.
    pub const MAX_TICKETS: usize = 1000;

    /// The current clearing price of this auction at time `now`.
    pub fn get_current_auction_price(&self, now: i64) -> (r: u64)
        ensures
            r == price_at(*self, now as int),
    {
        if now <= self.auction_start_time {
            self.start_price
        } else if now >= self.auction_end_time {
            self.end_price
        } else {
            let elapsed: i128 = now as i128 - self.auction_start_time as i128;
            let duration: i128 = self.auction_end_time as i128 - self.auction_start_time as i128;
            let diff: u64 = if self.start_price >= self.end_price {
                self.start_price - self.end_price
            } else {
                0
            };
            proof {
                lemma_mul_upper_bound(
                    diff as int,
                    u64::MAX as int,
                    elapsed as int,
                    0xffff_ffff_ffff_ffff,
                );
                lemma_cut_below_diff(
                    diff as int,
                    elapsed as int,
                    duration as int,
                );
            }
            let cut: u128 = diff as u128 * elapsed as u128 / duration as u128;
            self.start_price - cut as u64
        }
    }
}

/// With `0 <= diff`, `0 <= elapsed <= duration` and `0 < duration`, the
/// pro-rata cut `diff * elapsed / duration` lies between 0 and `diff`.
proof fn lemma_cut_below_diff(diff: int, elapsed: int, duration: int)
    requires
        0 <= diff,
        0 <= elapsed <= duration,
        0 < duration,
    ensures
        0 <= diff * elapsed / duration <= diff,
{
    lemma_mul_nonnegative(diff, elapsed);
    lemma_div_pos_is_pos(diff * elapsed, duration);
    lemma_mul_inequality(elapsed, duration, diff);
    assert(diff * elapsed == elapsed * diff) by (nonlinear_arith);
    assert(diff * duration == duration * diff) by (nonlinear_arith);
    lemma_div_is_ordered(diff * elapsed, diff * duration, duration);
    lemma_div_multiples_vanish(diff, duration);
}

/// Before the window opens the clearing price is the start price.
pub proof fn lemma_price_before_start(ev: Event, now: int)
    requires
        now <= ev.auction_start_time,
    ensures
        price_at(ev, now) == ev.start_price,
{
}

/// Once the window has closed the clearing price is the end price. A window
/// is a span `auction_start_time < auction_end_time`; with an inverted pair
/// of bounds the start price takes precedence, so that case is left out.
pub proof fn lemma_price_after_end(ev: Event, now: int)
    requires
        now >= ev.auction_end_time,
        ev.auction_start_time < ev.auction_end_time,
    ensures
        price_at(ev, now) == ev.end_price,
{
}

/// Whenever the start price is at least the end price, the clearing price
/// stays between the two.
pub proof fn lemma_price_bounds(ev: Event, now: int)
    requires
        ev.start_price >= ev.end_price,
    ensures
        ev.end_price <= price_at(ev, now) <= ev.start_price,
{
    if ev.auction_start_time < now < ev.auction_end_time {
        lemma_cut_below_diff(
            ev.start_price - ev.end_price,
            now - ev.auction_start_time,
            ev.auction_end_time - ev.auction_start_time,
        );
    }
}

/// Whenever the start price is at least the end price, the clearing price is
/// a non-increasing function of time.
pub proof fn lemma_price_non_increasing(ev: Event, t1: int, t2: int)
    requires
        ev.start_price >= ev.end_price,
        t1 <= t2,
    ensures
        price_at(ev, t1) >= price_at(ev, t2),
{
    lemma_price_bounds(ev, t1);
    lemma_price_bounds(ev, t2);
    if ev.auction_start_time < t1 && t2 < ev.auction_end_time {
        let st = ev.auction_start_time as int;
        let dur = ev.auction_end_time - ev.auction_start_time;
        let diff = ev.start_price - ev.end_price;
        lemma_mul_inequality(t1 - st, t2 - st, diff);
        assert(diff * (t1 - st) == (t1 - st) * diff) by (nonlinear_arith);
        assert(diff * (t2 - st) == (t2 - st) * diff) by (nonlinear_arith);
        lemma_div_is_ordered(diff * (t1 - st), diff * (t2 - st), dur);
    }
}

} // verus!
