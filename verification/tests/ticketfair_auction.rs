use ticketfair::AccountId;
use ticketfair::Bid;
use ticketfair::Event;
use ticketfair::Ticket;

// Helper: generate a test identity
fn test_pubkey(seed: u8) -> AccountId {
    AccountId::new(seed as u128)
}

// Helper: get a test clock time
fn test_time() -> i64 {
    1_700_000_000 // Fixed timestamp for deterministic tests
}

#[test]
fn test_event_creation() {
    // Simulate event creation with valid parameters
    let organizer = test_pubkey(1);
    let merkle_tree = test_pubkey(2);
    let metadata_url = "https://example.com/event.json".to_string();
    let ticket_supply = 10u32;
    let start_price = 1_000_000;
    let end_price = 100_000;
    let auction_start_time = test_time();
    let auction_end_time = auction_start_time + 3600;

    // Simulate event record
    let event = Event {
        organizer,
        metadata_url: metadata_url.clone(),
        ticket_supply,
        tickets_awarded: 0,
        start_price,
        end_price,
        auction_start_time,
        auction_end_time,
        auction_close_price: 0,
        status: 0,
        bump: 255,
        merkle_tree,
        cnft_asset_ids: vec![],
    };

    // Assert event fields
    assert_eq!(event.organizer, organizer);
    assert_eq!(event.metadata_url, metadata_url);
    assert_eq!(event.ticket_supply, ticket_supply);
    assert_eq!(event.tickets_awarded, 0);
    assert_eq!(event.start_price, start_price);
    assert_eq!(event.end_price, end_price);
    assert_eq!(event.auction_start_time, auction_start_time);
    assert_eq!(event.auction_end_time, auction_end_time);
    assert_eq!(event.status, 0);
    assert_eq!(event.merkle_tree, merkle_tree);
    // Asset IDs should be empty at creation
    assert!(event.cnft_asset_ids.is_empty());
}

#[test]
fn test_bid_placement() {
    // Simulate placing a valid bid
    let bidder = test_pubkey(3);
    let event = test_pubkey(4);
    let amount = 1_000_000u64;
    let bid = Bid {
        bidder,
        event,
        amount,
        status: 0,
        bump: 254,
    };
    // Assert bid fields
    assert_eq!(bid.bidder, bidder);
    assert_eq!(bid.event, event);
    assert_eq!(bid.amount, amount);
    assert_eq!(bid.status, 0); // Pending
}

#[test]
fn test_ticket_awarding() {
    // Simulate awarding a ticket
    let owner = test_pubkey(5);
    let event = test_pubkey(6);
    let cnft_asset_id = test_pubkey(7);
    let ticket = Ticket {
        owner,
        event,
        status: 0,
        offchain_ref: String::new(),
        bump: 253,
        cnft_asset_id,
    };
    // Assert ticket fields
    assert_eq!(ticket.owner, owner);
    assert_eq!(ticket.event, event);
    assert_eq!(ticket.status, 0); // Owned
    assert_eq!(ticket.cnft_asset_id, cnft_asset_id);
}

#[test]
fn test_refunds() {
    // Simulate a full refund for a losing bid
    let mut bid = Bid {
        bidder: test_pubkey(8),
        event: test_pubkey(9),
        amount: 2_000_000,
        status: 0, // Pending
        bump: 252,
    };
    // Refund logic: losing bid
    bid.status = 2; // Refunded
    assert_eq!(bid.status, 2);

    // Simulate a partial refund for a winning bid (overbid)
    let bid2 = Bid {
        bidder: test_pubkey(10),
        event: test_pubkey(11),
        amount: 2_000_000,
        status: 1, // Awarded
        bump: 251,
    };
    let auction_close_price = 1_500_000u64;
    let refund_amount = if bid2.amount > auction_close_price {
        bid2.amount - auction_close_price
    } else {
        0
    };
    assert_eq!(refund_amount, 500_000);
}

#[test]
fn test_bubblegum_cnft_logic() {
    // Simulate collectible minting, transfer, and burn logic
    let mut event = Event {
        organizer: test_pubkey(12),
        metadata_url: "https://example.com/event.json".to_string(),
        ticket_supply: 2,
        tickets_awarded: 0,
        start_price: 1_000_000,
        end_price: 100_000,
        auction_start_time: test_time(),
        auction_end_time: test_time() + 3600,
        auction_close_price: 0,
        status: 0,
        bump: 250,
        merkle_tree: test_pubkey(13),
        cnft_asset_ids: vec![],
    };
    // Mint collectibles (simulate by pushing asset IDs)
    let asset_id1 = test_pubkey(14);
    let asset_id2 = test_pubkey(15);
    event.cnft_asset_ids.push(asset_id1);
    event.cnft_asset_ids.push(asset_id2);
    assert_eq!(event.cnft_asset_ids.len(), 2);
    // Transfer a collectible (simulate by assigning it to a ticket)
    let ticket = Ticket {
        owner: test_pubkey(16),
        event: event.merkle_tree,
        status: 0,
        offchain_ref: String::new(),
        bump: 249,
        cnft_asset_id: asset_id1,
    };
    assert_eq!(ticket.cnft_asset_id, asset_id1);
    // Burn the unsold collectible (simulate by removing it from the event)
    event.cnft_asset_ids.retain(|&id| id != asset_id2);
    assert_eq!(event.cnft_asset_ids.len(), 1);
}
