//! Tests of settlement claims: uniform clearing price, proportional
//! refunds, and idempotence.

use dutch_auction::bids::BidDecision;
use dutch_auction::events::AuctionEvent;
use dutch_auction::settlement::{calculate_settlement, ClaimOutcome};
use dutch_auction::state::AuctionState;
use dutch_auction::types::{AuctionError, AuctionParams, BidRecord};

const MINUTE: u64 = 60_000_000;
const HOUR: u64 = 60 * MINUTE;

const CREATOR: u64 = 1;
const ALICE: u64 = 10;
const BOB: u64 = 11;
const CAROL: u64 = 12;

fn decaying_params(start_time: u64, total_supply: u128) -> AuctionParams {
    AuctionParams {
        item_name: String::from("genesis batch"),
        image: String::from("ipfs://genesis"),
        max_bid_amount: 1_000_000,
        total_supply,
        start_price: 100,
        floor_price: 10,
        price_decay_interval: MINUTE,
        price_decay_amount: 1,
        start_time,
        end_time: start_time + HOUR,
        creator: CREATOR,
        payment_token_app: 77,
        auction_token_app: 78,
    }
}

fn place_bid(state: &mut AuctionState, auction_id: u64, quantity: u128, bidder: u64, now: u64) {
    match state.prepare_bid(auction_id, quantity, bidder, now).unwrap() {
        BidDecision::PaymentDue { pending } => {
            state.record_bid(pending, now).unwrap();
        },
        BidDecision::Rejected { reason } => panic!("bid unexpectedly rejected: {:?}", reason),
    }
}

#[test]
fn scenario_early_bidders_get_uniform_price_refund() {
    // Two bidders pay 10 units each at price 100; the supply of 30 is
    // exhausted twenty minutes later at price 80, which becomes the
    // clearing price. Each early bidder's claim refunds
    // (100 - 80) x 10 = 200.
    let start = 1_000_000;
    let mut state = AuctionState::new();
    let id = state.create_auction(decaying_params(start, 30), start).unwrap();

    place_bid(&mut state, id, 10, ALICE, start);
    place_bid(&mut state, id, 10, BOB, start);
    place_bid(&mut state, id, 10, CAROL, start + 20 * MINUTE);

    let auction = state.auction(id).unwrap();
    assert_eq!(auction.clearing_price, Some(80));

    let alice = state.claim_settlement(id, ALICE).unwrap();
    assert_eq!(
        alice,
        ClaimOutcome::Paid {
            allocated_quantity: 10,
            clearing_price: 80,
            total_cost: 800,
            refund: 200,
        }
    );
    let bob = state.claim_settlement(id, BOB).unwrap();
    assert_eq!(
        bob,
        ClaimOutcome::Paid {
            allocated_quantity: 10,
            clearing_price: 80,
            total_cost: 800,
            refund: 200,
        }
    );
    // The exhausting bidder paid the clearing price exactly: no refund.
    let carol = state.claim_settlement(id, CAROL).unwrap();
    assert_eq!(
        carol,
        ClaimOutcome::Paid {
            allocated_quantity: 10,
            clearing_price: 80,
            total_cost: 800,
            refund: 0,
        }
    );
}

#[test]
fn claim_is_idempotent() {
    let start = 1_000_000;
    let mut state = AuctionState::new();
    let id = state.create_auction(decaying_params(start, 20), start).unwrap();
    place_bid(&mut state, id, 5, ALICE, start);
    place_bid(&mut state, id, 15, BOB, start + 10 * MINUTE);

    let first = state.claim_settlement(id, ALICE).unwrap();
    assert_eq!(
        first,
        ClaimOutcome::Paid {
            allocated_quantity: 5,
            clearing_price: 90,
            total_cost: 450,
            refund: 50,
        }
    );
    // The second claim finds zero unclaimed records: no additional
    // quantity, no additional refund, no state change, no event.
    let before = state.bids.clone();
    let events_before = state.events.len();
    let second = state.claim_settlement(id, ALICE).unwrap();
    assert_eq!(second, ClaimOutcome::Nothing);
    assert_eq!(state.bids, before);
    assert_eq!(state.events.len(), events_before);
}

#[test]
fn claim_marks_only_the_claimants_records() {
    let start = 1_000_000;
    let mut state = AuctionState::new();
    let id = state.create_auction(decaying_params(start, 20), start).unwrap();
    place_bid(&mut state, id, 5, ALICE, start);
    place_bid(&mut state, id, 15, BOB, start);

    state.claim_settlement(id, ALICE).unwrap();
    let alice_bids = state.user_bids(ALICE, id);
    let bob_bids = state.user_bids(BOB, id);
    assert!(alice_bids.iter().all(|b| b.claimed));
    assert!(bob_bids.iter().all(|b| !b.claimed));
}

#[test]
fn claim_on_unsettled_auction_is_a_noop() {
    let start = 1_000_000;
    let mut state = AuctionState::new();
    let id = state.create_auction(decaying_params(start, 50), start).unwrap();
    place_bid(&mut state, id, 5, ALICE, start);

    assert_eq!(state.claim_settlement(id, ALICE), Ok(ClaimOutcome::Nothing));
    assert!(state.user_bids(ALICE, id).iter().all(|b| !b.claimed));
    assert_eq!(
        state.claim_settlement(9, ALICE),
        Err(AuctionError::AuctionNotFound)
    );
}

#[test]
fn claim_without_bids_is_a_noop() {
    let start = 1_000_000;
    let mut state = AuctionState::new();
    let id = state.create_auction(decaying_params(start, 20), start).unwrap();
    place_bid(&mut state, id, 20, ALICE, start);

    assert_eq!(state.claim_settlement(id, BOB), Ok(ClaimOutcome::Nothing));
}

#[test]
fn claim_sums_multiple_bids_of_one_claimant() {
    let start = 1_000_000;
    let mut state = AuctionState::new();
    let id = state.create_auction(decaying_params(start, 30), start).unwrap();
    place_bid(&mut state, id, 10, ALICE, start); // pays 1000 at price 100
    place_bid(&mut state, id, 10, ALICE, start + 10 * MINUTE); // pays 900 at price 90
    place_bid(&mut state, id, 10, BOB, start + 20 * MINUTE); // exhausts at price 80

    let outcome = state.claim_settlement(id, ALICE).unwrap();
    // 20 units at clearing price 80 cost 1600; Alice paid 1900.
    assert_eq!(
        outcome,
        ClaimOutcome::Paid {
            allocated_quantity: 20,
            clearing_price: 80,
            total_cost: 1600,
            refund: 300,
        }
    );
}

#[test]
fn claim_emits_refund_and_claim_events() {
    let start = 1_000_000;
    let mut state = AuctionState::new();
    let id = state.create_auction(decaying_params(start, 20), start).unwrap();
    place_bid(&mut state, id, 5, ALICE, start);
    place_bid(&mut state, id, 15, BOB, start + 10 * MINUTE);
    state.take_events();

    state.claim_settlement(id, ALICE).unwrap();
    let events = state.take_events();
    assert_eq!(
        events,
        vec![
            AuctionEvent::RefundIssued { auction_id: id, user_account: ALICE, refund_amount: 50 },
            AuctionEvent::SettlementClaimed {
                auction_id: id,
                user_account: ALICE,
                allocated_quantity: 5,
                clearing_price: 90,
                total_cost: 450,
                refund: 50,
            },
        ]
    );

    // A claim with no overpayment emits no refund event.
    state.claim_settlement(id, BOB).unwrap();
    let events = state.take_events();
    assert_eq!(
        events,
        vec![AuctionEvent::SettlementClaimed {
            auction_id: id,
            user_account: BOB,
            allocated_quantity: 15,
            clearing_price: 90,
            total_cost: 1350,
            refund: 0,
        }]
    );
}

#[test]
fn claimable_settlement_previews_without_marking() {
    let start = 1_000_000;
    let mut state = AuctionState::new();
    let id = state.create_auction(decaying_params(start, 20), start).unwrap();
    place_bid(&mut state, id, 5, ALICE, start);

    // Not settled yet: nothing claimable.
    assert_eq!(state.claimable_settlement(id, ALICE), Ok(None));
    place_bid(&mut state, id, 15, BOB, start + 10 * MINUTE);

    let preview = state.claimable_settlement(id, ALICE).unwrap().unwrap();
    assert_eq!(preview.total_quantity, 5);
    assert_eq!(preview.total_cost, 450);
    assert_eq!(preview.refund, 50);
    // Previewing marks nothing: the claim still pays out in full.
    assert!(state.user_bids(ALICE, id).iter().all(|b| !b.claimed));
    let outcome = state.claim_settlement(id, ALICE).unwrap();
    assert_eq!(
        outcome,
        ClaimOutcome::Paid {
            allocated_quantity: 5,
            clearing_price: 90,
            total_cost: 450,
            refund: 50,
        }
    );
    // After the claim, nothing is claimable any more.
    assert_eq!(state.claimable_settlement(id, ALICE), Ok(None));
    assert_eq!(
        state.claimable_settlement(9, ALICE),
        Err(AuctionError::AuctionNotFound)
    );
}

#[test]
fn calculate_settlement_decomposes_payment_exactly() {
    let records = vec![
        BidRecord {
            bid_id: 0,
            auction_id: 0,
            user_account: ALICE,
            quantity: 10,
            amount_paid: 1000,
            timestamp: 0,
            claimed: false,
        },
        BidRecord {
            bid_id: 1,
            auction_id: 0,
            user_account: ALICE,
            quantity: 10,
            amount_paid: 900,
            timestamp: 1,
            claimed: false,
        },
    ];
    let settlement = calculate_settlement(&records, 80);
    assert_eq!(settlement.total_quantity, 20);
    assert_eq!(settlement.total_cost, 1600);
    assert_eq!(settlement.refund, 300);
    // total paid equals total cost plus refund, exactly.
    assert_eq!(1000 + 900, settlement.total_cost + settlement.refund);
}

#[test]
fn calculate_settlement_saturates_instead_of_wrapping() {
    let records = vec![
        BidRecord {
            bid_id: 0,
            auction_id: 0,
            user_account: ALICE,
            quantity: u128::MAX,
            amount_paid: u128::MAX,
            timestamp: 0,
            claimed: false,
        },
        BidRecord {
            bid_id: 1,
            auction_id: 0,
            user_account: ALICE,
            quantity: 5,
            amount_paid: 5,
            timestamp: 1,
            claimed: false,
        },
    ];
    let settlement = calculate_settlement(&records, 2);
    assert_eq!(settlement.total_quantity, u128::MAX);
    assert_eq!(settlement.total_cost, u128::MAX);
    assert_eq!(settlement.refund, 0);
}
