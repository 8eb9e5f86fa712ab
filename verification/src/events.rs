//! Events emitted on the auction stream.
//!
//! Events are the only channel by which external consumers (such as an
//! indexer replaying the stream into a materialized view) learn of state
//! changes. Every operation appends the events it produces to the
//! aggregate's outbox in commit order; the host publishes them exactly
//! once, in that order.

use vstd::prelude::*;

use crate::types::{AuctionParams, RejectReason};

verus! {

/// One event on the auction stream.
#[derive(Clone, Debug, PartialEq, Eq)]
pub enum AuctionEvent {
    /// The application was deployed; the stream now exists.
    ApplicationInitialized { aac_chain: u64 },
    /// An auction was created, with a full snapshot of its parameters.
    AuctionCreated { auction_id: u64, params: AuctionParams },
    /// A bid was accepted.
    BidAccepted {
        auction_id: u64,
        bid_id: u64,
        user_account: u64,
        quantity: u128,
        amount_paid: u128,
        total_sold: u128,
        remaining: u128,
    },
    /// A bid was turned down; the auction state is otherwise unchanged
    /// except for any lifecycle transition the attempt triggered.
    BidRejected { auction_id: u64, user_account: u64, reason: RejectReason },
    /// The auction settled and its uniform clearing price is fixed.
    AuctionSettled {
        auction_id: u64,
        clearing_price: u128,
        total_bidders: u64,
        total_sold: u128,
    },
    /// A bidder claimed allocation and refund for their unclaimed bids.
    SettlementClaimed {
        auction_id: u64,
        user_account: u64,
        allocated_quantity: u128,
        clearing_price: u128,
        total_cost: u128,
        refund: u128,
    },
    /// The creator cancelled the auction before it started.
    AuctionCancelled { auction_id: u64 },
    /// A bid's payment arrived in the escrow account.
    PaymentReceived { auction_id: u64, user_account: u64, amount: u128, bid_id: u64 },
    /// An overpayment was returned from escrow to the bidder.
    RefundIssued { auction_id: u64, user_account: u64, refund_amount: u128 },
}

} // verus!
