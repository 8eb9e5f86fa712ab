//! Tests of the auction lifecycle and the bid pipeline.

use dutch_auction::bids::BidDecision;
use dutch_auction::events::AuctionEvent;
use dutch_auction::state::AuctionState;
use dutch_auction::types::{AuctionError, AuctionParams, AuctionStatus, RejectReason};

const MINUTE: u64 = 60_000_000;
const HOUR: u64 = 60 * MINUTE;

const CREATOR: u64 = 1;
const ALICE: u64 = 10;
const BOB: u64 = 11;
const CAROL: u64 = 12;

/// An auction opening at `start_time`: start price 100, floor 10, one
/// unit of price lost per minute, one hour long.
fn base_params(start_time: u64, total_supply: u128) -> AuctionParams {
    AuctionParams {
        item_name: String::from("genesis batch"),
        image: String::from("ipfs://genesis"),
        max_bid_amount: 1_000_000,
        total_supply,
        start_price: 100,
        floor_price: 10,
        price_decay_interval: MINUTE,
        price_decay_amount: 1,
        start_time,
        end_time: start_time + HOUR,
        creator: CREATOR,
        payment_token_app: 77,
        auction_token_app: 78,
    }
}

/// Drives both phases of a bid, acting as a host whose payment
/// collection always succeeds. Panics if the bid is rejected.
fn place_bid(
    state: &mut AuctionState,
    auction_id: u64,
    quantity: u128,
    bidder: u64,
    now: u64,
) -> dutch_auction::types::BidRecord {
    match state.prepare_bid(auction_id, quantity, bidder, now).unwrap() {
        BidDecision::PaymentDue { pending } => state.record_bid(pending, now).unwrap(),
        BidDecision::Rejected { reason } => panic!("bid unexpectedly rejected: {:?}", reason),
    }
}

#[test]
fn create_assigns_sequential_identifiers() {
    let mut state = AuctionState::new();
    let a = state.create_auction(base_params(1_000, 50), 500).unwrap();
    let b = state.create_auction(base_params(2_000, 60), 500).unwrap();
    assert_eq!(a, 0);
    assert_eq!(b, 1);
    assert_eq!(state.auction_count(), 2);
    assert_eq!(state.auction(0).unwrap().total_supply, 50);
    assert_eq!(state.auction(1).unwrap().total_supply, 60);
}

#[test]
fn create_rejects_zero_decay_interval() {
    let mut state = AuctionState::new();
    let mut params = base_params(1_000, 50);
    params.price_decay_interval = 0;
    assert_eq!(
        state.create_auction(params, 500),
        Err(AuctionError::InvalidDecayInterval)
    );
    assert_eq!(state.auction_count(), 0);
    assert!(state.take_events().is_empty());
}

#[test]
fn create_before_start_is_scheduled_and_after_is_active() {
    let mut state = AuctionState::new();
    let early = state.create_auction(base_params(1_000_000, 50), 500).unwrap();
    let late = state.create_auction(base_params(1_000_000, 50), 2_000_000).unwrap();
    assert_eq!(state.auction(early).unwrap().status, AuctionStatus::Scheduled);
    assert_eq!(state.auction(late).unwrap().status, AuctionStatus::Active);
}

#[test]
fn scenario_capped_bid_settles_auction_immediately() {
    // Start price 100, floor 10, one unit lost per minute, supply 50.
    // A bid for 60 units one minute in is capped at 50 units, pays
    // price 99 each, and settles the auction at clearing price 99.
    let start = 1_000_000;
    let mut state = AuctionState::new();
    let id = state.create_auction(base_params(start, 50), start).unwrap();

    let decision = state.prepare_bid(id, 60, ALICE, start + MINUTE).unwrap();
    let pending = match decision {
        BidDecision::PaymentDue { pending } => pending,
        BidDecision::Rejected { reason } => panic!("rejected: {:?}", reason),
    };
    assert_eq!(pending.accepted_quantity, 50);
    assert_eq!(pending.current_price, 99);
    assert_eq!(pending.amount_paid, 4950);
    assert!(pending.should_settle);

    let bid = state.record_bid(pending, start + MINUTE).unwrap();
    assert_eq!(bid.quantity, 50);
    assert_eq!(bid.amount_paid, 4950);
    assert!(!bid.claimed);

    let auction = state.auction(id).unwrap();
    assert_eq!(auction.status, AuctionStatus::Settled);
    assert_eq!(auction.clearing_price, Some(99));
    assert_eq!(auction.sold, 50);
    assert_eq!(auction.settled_at, Some(start + MINUTE));
}

#[test]
fn scenario_bid_before_start_is_rejected_without_transition() {
    // A bid against a scheduled auction whose start time lies ahead is
    // rejected as not started, and the auction stays scheduled.
    let start = 10_000_000;
    let mut state = AuctionState::new();
    let id = state.create_auction(base_params(start, 50), 1_000).unwrap();
    assert_eq!(state.auction(id).unwrap().status, AuctionStatus::Scheduled);

    let decision = state.prepare_bid(id, 5, ALICE, start - 1).unwrap();
    assert_eq!(
        decision,
        BidDecision::Rejected { reason: RejectReason::NotStarted }
    );
    assert_eq!(state.auction(id).unwrap().status, AuctionStatus::Scheduled);

    let events = state.take_events();
    assert_eq!(
        events.last().unwrap(),
        &AuctionEvent::BidRejected {
            auction_id: id,
            user_account: ALICE,
            reason: RejectReason::NotStarted,
        }
    );
}

#[test]
fn scenario_expired_bid_settles_at_rejection_price() {
    // A bid evaluated after the end time against an active auction is
    // rejected AND settles the auction at the price computed at that
    // instant (one hour = 60 intervals, so price 100 - 60 = 40).
    let start = 1_000_000;
    let mut state = AuctionState::new();
    let id = state.create_auction(base_params(start, 50), start).unwrap();
    assert_eq!(state.auction(id).unwrap().status, AuctionStatus::Active);

    let now = start + HOUR + 1;
    let decision = state.prepare_bid(id, 5, ALICE, now).unwrap();
    assert_eq!(
        decision,
        BidDecision::Rejected { reason: RejectReason::Expired }
    );

    let auction = state.auction(id).unwrap();
    assert_eq!(auction.status, AuctionStatus::Settled);
    assert_eq!(auction.clearing_price, Some(40));
    assert_eq!(auction.settled_at, Some(now));
    assert_eq!(auction.sold, 0);

    let events = state.take_events();
    let n = events.len();
    assert!(matches!(
        events[n - 2],
        AuctionEvent::AuctionSettled { clearing_price: 40, total_sold: 0, .. }
    ));
    assert!(matches!(
        events[n - 1],
        AuctionEvent::BidRejected { reason: RejectReason::Expired, .. }
    ));
}

#[test]
fn first_bid_activates_scheduled_auction() {
    let start = 1_000_000;
    let mut state = AuctionState::new();
    let id = state.create_auction(base_params(start, 50), 500).unwrap();
    assert_eq!(state.auction(id).unwrap().status, AuctionStatus::Scheduled);

    let bid = place_bid(&mut state, id, 5, ALICE, start);
    assert_eq!(bid.quantity, 5);
    assert_eq!(bid.amount_paid, 500); // price still 100 at the start
    assert_eq!(state.auction(id).unwrap().status, AuctionStatus::Active);
    assert_eq!(state.auction(id).unwrap().sold, 5);
}

#[test]
fn scheduled_auction_past_end_activates_on_first_bid() {
    // Lazy expiry settlement applies only to an auction that is already
    // active: a scheduled auction whose whole window passed unnoticed is
    // activated by its first bid, which is then accepted at the decayed
    // (floor-clamped) price. Only the next bid triggers the expiry
    // settlement.
    let start = 1_000_000;
    let mut state = AuctionState::new();
    let id = state.create_auction(base_params(start, 50), 500).unwrap();
    assert_eq!(state.auction(id).unwrap().status, AuctionStatus::Scheduled);

    let late = start + 3 * HOUR;
    let bid = place_bid(&mut state, id, 5, ALICE, late);
    assert_eq!(bid.amount_paid, 50); // price clamped to the floor of 10
    assert_eq!(state.auction(id).unwrap().status, AuctionStatus::Active);

    let decision = state.prepare_bid(id, 5, BOB, late + 1).unwrap();
    assert_eq!(
        decision,
        BidDecision::Rejected { reason: RejectReason::Expired }
    );
    assert_eq!(state.auction(id).unwrap().status, AuctionStatus::Settled);
    assert_eq!(state.auction(id).unwrap().clearing_price, Some(10));
}

#[test]
fn bids_on_missing_auction_are_fatal() {
    let mut state = AuctionState::new();
    assert_eq!(
        state.prepare_bid(3, 5, ALICE, 1_000),
        Err(AuctionError::AuctionNotFound)
    );
}

#[test]
fn bid_on_cancelled_auction_is_rejected_as_not_active() {
    let start = 10_000_000;
    let mut state = AuctionState::new();
    let id = state.create_auction(base_params(start, 50), 1_000).unwrap();
    state.cancel_auction(id, CREATOR).unwrap();

    let decision = state.prepare_bid(id, 5, ALICE, start + 1).unwrap();
    assert_eq!(
        decision,
        BidDecision::Rejected { reason: RejectReason::NotActive }
    );
    assert_eq!(state.auction(id).unwrap().status, AuctionStatus::Cancelled);
}

#[test]
fn exhausted_supply_rejects_further_bids() {
    let start = 1_000_000;
    let mut state = AuctionState::new();
    let id = state.create_auction(base_params(start, 20), start).unwrap();
    place_bid(&mut state, id, 20, ALICE, start);
    assert_eq!(state.auction(id).unwrap().status, AuctionStatus::Settled);

    // The auction settled on exhaustion, so a later bid sees "not
    // active" rather than "supply exhausted".
    let decision = state.prepare_bid(id, 1, BOB, start + 1).unwrap();
    assert_eq!(
        decision,
        BidDecision::Rejected { reason: RejectReason::NotActive }
    );
}

#[test]
fn payment_failure_records_rejection_and_no_bid() {
    let start = 1_000_000;
    let mut state = AuctionState::new();
    let id = state.create_auction(base_params(start, 50), start).unwrap();

    let decision = state.prepare_bid(id, 5, ALICE, start).unwrap();
    let pending = match decision {
        BidDecision::PaymentDue { pending } => pending,
        BidDecision::Rejected { reason } => panic!("rejected: {:?}", reason),
    };
    // The host fails to collect the payment and reports that instead of
    // recording the bid.
    state.record_payment_failure(pending.auction_id, pending.bidder);

    assert!(state.bids.is_empty());
    assert_eq!(state.auction(id).unwrap().sold, 0);
    let events = state.take_events();
    assert_eq!(
        events.last().unwrap(),
        &AuctionEvent::BidRejected {
            auction_id: id,
            user_account: ALICE,
            reason: RejectReason::PaymentFailed,
        }
    );
}

#[test]
fn stale_pending_bid_is_refused() {
    let start = 1_000_000;
    let mut state = AuctionState::new();
    let id = state.create_auction(base_params(start, 20), start).unwrap();

    let decision = state.prepare_bid(id, 15, ALICE, start).unwrap();
    let pending = match decision {
        BidDecision::PaymentDue { pending } => pending,
        BidDecision::Rejected { reason } => panic!("rejected: {:?}", reason),
    };
    // Another bid exhausts the supply first; the auction settles, so
    // the stale pending bid can no longer be recorded.
    place_bid(&mut state, id, 20, BOB, start);
    assert_eq!(
        state.record_bid(pending, start + 1),
        Err(AuctionError::StalePendingBid)
    );
}

#[test]
fn bid_counters_track_bids_and_distinct_bidders() {
    let start = 1_000_000;
    let mut state = AuctionState::new();
    let id = state.create_auction(base_params(start, 100), start).unwrap();
    place_bid(&mut state, id, 5, ALICE, start);
    place_bid(&mut state, id, 5, ALICE, start + 1);
    place_bid(&mut state, id, 5, BOB, start + 2);

    let auction = state.auction(id).unwrap();
    assert_eq!(auction.total_bids, 3);
    assert_eq!(auction.total_bidders, 2);
    assert_eq!(auction.sold, 15);
    assert_eq!(state.user_total(id, ALICE), 10);
    assert_eq!(state.user_total(id, BOB), 5);
    assert_eq!(state.user_total(id, CAROL), 0);

    let alice_bids = state.user_bids(ALICE, id);
    assert_eq!(alice_bids.len(), 2);
    assert_eq!(alice_bids[0].bid_id, 0);
    assert_eq!(alice_bids[1].bid_id, 1);
}

#[test]
fn zero_quantity_bid_is_accepted_with_zero_payment() {
    let start = 1_000_000;
    let mut state = AuctionState::new();
    let id = state.create_auction(base_params(start, 50), start).unwrap();
    let bid = place_bid(&mut state, id, 0, ALICE, start);
    assert_eq!(bid.quantity, 0);
    assert_eq!(bid.amount_paid, 0);
    assert_eq!(state.auction(id).unwrap().sold, 0);
}

#[test]
fn cancel_requires_creator_and_scheduled_status() {
    let start = 10_000_000;
    let mut state = AuctionState::new();
    let id = state.create_auction(base_params(start, 50), 1_000).unwrap();

    assert_eq!(state.cancel_auction(9, CREATOR), Err(AuctionError::AuctionNotFound));
    assert_eq!(state.cancel_auction(id, ALICE), Err(AuctionError::NotCreator));
    assert_eq!(state.cancel_auction(id, CREATOR), Ok(()));
    assert_eq!(state.auction(id).unwrap().status, AuctionStatus::Cancelled);
    // A cancelled auction is no longer scheduled, so a second cancel
    // fails.
    assert_eq!(state.cancel_auction(id, CREATOR), Err(AuctionError::NotScheduled));
}

#[test]
fn events_are_emitted_in_commit_order() {
    let start = 1_000_000;
    let mut state = AuctionState::new();
    state.initialize(42);
    let id = state.create_auction(base_params(start, 10), start).unwrap();
    let bid = place_bid(&mut state, id, 10, ALICE, start);

    let events = state.take_events();
    assert_eq!(events.len(), 5);
    assert!(matches!(events[0], AuctionEvent::ApplicationInitialized { aac_chain: 42 }));
    assert!(matches!(events[1], AuctionEvent::AuctionCreated { auction_id: 0, .. }));
    assert_eq!(
        events[2],
        AuctionEvent::PaymentReceived {
            auction_id: id,
            user_account: ALICE,
            amount: 1000,
            bid_id: bid.bid_id,
        }
    );
    assert_eq!(
        events[3],
        AuctionEvent::BidAccepted {
            auction_id: id,
            bid_id: bid.bid_id,
            user_account: ALICE,
            quantity: 10,
            amount_paid: 1000,
            total_sold: 10,
            remaining: 0,
        }
    );
    assert_eq!(
        events[4],
        AuctionEvent::AuctionSettled {
            auction_id: id,
            clearing_price: 100,
            total_bidders: 1,
            total_sold: 10,
        }
    );
    // The outbox is drained: nothing is ever handed out twice.
    assert!(state.take_events().is_empty());
}
