//! Dutch-auction escrow for event tickets.
//!
//! An organizer lists a fixed supply of tickets whose price decays linearly
//! over a fixed time window. Bidders commit funds at the instantaneous
//! clearing price; the organizer awards tickets to committed bids up to the
//! supply; losing or over-paying bids receive refunds. The ledger records
//! (events, bids, tickets) and the escrow vault are modeled as plain data, so
//! every operation and its invariants are checked here; moving real funds and
//! collectible handles is left to whatever runtime hosts the ledger.

pub mod account;
pub mod auction;
pub mod bid;
pub mod error;
pub mod event;
pub mod ticket;
pub mod user;

pub use account::AccountId;
pub use auction::Auction;
pub use bid::Bid;
pub use error::ErrorCode;
pub use event::Event;
pub use ticket::Ticket;
pub use user::User;
