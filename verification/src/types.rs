//! The data model: auction parameters, per-auction state, bid records,
//! per-user totals, and the error and rejection vocabularies.
//!
//! Token amounts and quantities are `u128` values in the asset's smallest
//! unit; timestamps and durations are microseconds in a `u64`. Account
//! owners and token applications are identified by plain `u64` handles,
//! assigned by the host environment.

use vstd::prelude::*;

use crate::price::price_at;

verus! {

/// The lifecycle status of one auction.
///
/// `Pruned` is kept for interface compatibility with stream consumers but
/// is never assigned as a status: pruning is recorded in the orthogonal
/// `bids_pruned` flag of a `Settled` auction.
#[derive(Clone, Copy, Debug, PartialEq, Eq, Structural)]
pub enum AuctionStatus {
    /// Created but not yet started.
    Scheduled,
    /// Accepting bids: started and neither exhausted nor expired.
    Active,
    /// Clearing price fixed; claims may be processed.
    Settled,
    /// Kept for stream consumers; never assigned by the engine.
    Pruned,
    /// Cancelled by the creator while still `Scheduled`.
    Cancelled,
}

/// Why an auction stopped accepting bids, as reported to stream consumers.
#[derive(Clone, Copy, Debug, PartialEq, Eq, Structural)]
pub enum ClearReason {
    SupplyExhausted,
    TimeExpired,
}

/// Why a bid was turned down. Rejections are soft: the operation itself
/// succeeds and the reason travels in a [`crate::events::AuctionEvent`].
#[derive(Clone, Copy, Debug, PartialEq, Eq, Structural)]
pub enum RejectReason {
    /// The auction is still `Scheduled` and its start time lies ahead.
    NotStarted,
    /// The auction's end time has passed.
    Expired,
    /// The auction is settled or cancelled.
    NotActive,
    /// Every unit has already been sold.
    SupplyExhausted,
    /// Collecting the payment from the bidder failed.
    PaymentFailed,
}

/// A fatal condition: the operation must be aborted with no effect.
#[derive(Clone, Copy, Debug, PartialEq, Eq, Structural)]
pub enum AuctionError {
    /// No auction exists under the given identifier.
    AuctionNotFound,
    /// Only the creator may cancel an auction.
    NotCreator,
    /// Only a `Scheduled` auction may be cancelled.
    NotScheduled,
    /// The auction has not settled, so there is nothing to prune.
    NotSettled,
    /// Less than the retention delay has elapsed since settlement.
    RetentionDelayNotElapsed,
    /// A zero price-decay interval would make the price undefined.
    InvalidDecayInterval,
    /// A pending bid does not match the auction's current state.
    StalePendingBid,
}

/// The immutable configuration of one auction, fixed at creation.
#[derive(Clone, Debug, PartialEq, Eq)]
pub struct AuctionParams {
    /// Display name of the item on sale.
    pub item_name: String,
    /// Display image reference for the item on sale.
    pub image: String,
    /// Upper bound on a single payment, kept for interface compatibility.
    pub max_bid_amount: u128,
    /// Total quantity for sale.
    pub total_supply: u128,
    /// Price of one unit when the auction opens.
    pub start_price: u128,
    /// Lowest price one unit may reach.
    pub floor_price: u128,
    /// Microseconds between price drops; always positive once validated.
    pub price_decay_interval: u64,
    /// Amount the unit price drops per elapsed interval.
    pub price_decay_amount: u128,
    /// When bidding opens, in microseconds.
    pub start_time: u64,
    /// When bidding closes, in microseconds.
    pub end_time: u64,
    /// Account of the creator, who alone may cancel.
    pub creator: u64,
    /// Handle of the token application payments are made in.
    pub payment_token_app: u64,
    /// Handle of the token application the sold asset lives in.
    pub auction_token_app: u64,
}

impl AuctionParams {
    /// An exact copy of the parameters, taken for event payloads.
    pub fn snapshot(&self) -> (copy: AuctionParams)
        ensures
            copy == *self,
    {
        AuctionParams {
            item_name: self.item_name.clone(),
            image: self.image.clone(),
            max_bid_amount: self.max_bid_amount,
            total_supply: self.total_supply,
            start_price: self.start_price,
            floor_price: self.floor_price,
            price_decay_interval: self.price_decay_interval,
            price_decay_amount: self.price_decay_amount,
            start_time: self.start_time,
            end_time: self.end_time,
            creator: self.creator,
            payment_token_app: self.payment_token_app,
            auction_token_app: self.auction_token_app,
        }
    }
}

/// One accepted bid. `claimed` is the only field ever mutated after
/// creation, and only by a settlement claim.
#[derive(Clone, Copy, Debug, PartialEq, Eq, Structural)]
pub struct BidRecord {
    /// Globally unique, auto-incremented identifier.
    pub bid_id: u64,
    /// The auction this bid belongs to.
    pub auction_id: u64,
    /// The bidder's account.
    pub user_account: u64,
    /// Quantity accepted, after capping at the remaining supply.
    pub quantity: u128,
    /// `quantity` times the unit price at acceptance (saturating).
    pub amount_paid: u128,
    /// When the bid was accepted, in microseconds.
    pub timestamp: u64,
    /// Whether a settlement claim has already covered this bid.
    pub claimed: bool,
}

/// Cumulative accepted quantity for one (auction, bidder) pair: a
/// write-only accumulator kept for reporting, never decremented.
#[derive(Clone, Copy, Debug, PartialEq, Eq, Structural)]
pub struct UserTotal {
    pub auction_id: u64,
    pub user_account: u64,
    pub total_quantity: u128,
}

/// The mutable state of one auction, alongside its immutable parameters.
pub struct AuctionData {
    /// The configuration fixed at creation.
    pub params: AuctionParams,
    /// Snapshot of the unit price; the authoritative price is always
    /// recomputed on demand from the parameters.
    pub current_price: u128,
    /// When `current_price` was last written, in microseconds.
    pub last_price_update: u64,
    /// Total quantity for sale, mirrored from the parameters.
    pub total_supply: u128,
    /// Cumulative quantity sold; never exceeds `total_supply`.
    pub sold: u128,
    /// The uniform settlement price; `None` until settled, then immutable.
    pub clearing_price: Option<u128>,
    /// Lifecycle status.
    pub status: AuctionStatus,
    /// When the auction settled, in microseconds.
    pub settled_at: Option<u64>,
    /// Whether tier-two pruning has cleared this auction's bid history.
    pub bids_pruned: bool,
    /// Cumulative number of accepted bids.
    pub total_bids: u64,
    /// Cumulative number of distinct bidders.
    pub total_bidders: u64,
}

impl AuctionData {
    /// An exact copy of this auction's state, taken for query results.
    pub fn snapshot(&self) -> (copy: AuctionData)
        ensures
            copy == *self,
    {
        AuctionData {
            params: self.params.snapshot(),
            current_price: self.current_price,
            last_price_update: self.last_price_update,
            total_supply: self.total_supply,
            sold: self.sold,
            clearing_price: self.clearing_price,
            status: self.status,
            settled_at: self.settled_at,
            bids_pruned: self.bids_pruned,
            total_bids: self.total_bids,
            total_bidders: self.total_bidders,
        }
    }

    /// Internal consistency of one auction's state.
    pub open spec fn wf(self) -> bool {
        &&& self.sold <= self.total_supply
        &&& self.total_supply == self.params.total_supply
        &&& self.params.price_decay_interval > 0
        &&& (self.status == AuctionStatus::Settled <==> self.clearing_price is Some)
        &&& (self.status == AuctionStatus::Settled <==> self.settled_at is Some)
        &&& (self.bids_pruned ==> self.status == AuctionStatus::Settled)
        &&& self.status != AuctionStatus::Pruned
    }

    /// The unit price of this auction at time `now`.
    pub open spec fn price_now(self, now: u64) -> int {
        price_at(
            self.params.start_price,
            self.params.floor_price,
            self.params.price_decay_amount,
            self.params.price_decay_interval,
            self.params.start_time,
            now,
        )
    }

    /// The quantity still available for sale.
    pub open spec fn remaining(self) -> int {
        self.total_supply - self.sold
    }

    /// Builds the state of a freshly created auction: scheduled if its
    /// start time lies ahead of `current_time`, otherwise immediately
    /// active; nothing sold, no clearing price, counters at zero.
    pub fn new(params: AuctionParams, current_time: u64) -> (auction: AuctionData)
        requires
            params.price_decay_interval > 0,
        ensures
            auction.wf(),
            auction.params == params,
            auction.current_price == params.start_price,
            auction.last_price_update == params.start_time,
            auction.total_supply == params.total_supply,
            auction.sold == 0,
            auction.clearing_price is None,
            auction.status == (if current_time < params.start_time {
                AuctionStatus::Scheduled
            } else {
                AuctionStatus::Active
            }),
            auction.settled_at is None,
            !auction.bids_pruned,
            auction.total_bids == 0,
            auction.total_bidders == 0,
    {
        let status = if current_time < params.start_time {
            AuctionStatus::Scheduled
        } else {
            AuctionStatus::Active
        };
        let current_price = params.start_price;
        let last_price_update = params.start_time;
        let total_supply = params.total_supply;
        AuctionData {
            params,
            current_price,
            last_price_update,
            total_supply,
            sold: 0,
            clearing_price: None,
            status,
            settled_at: None,
            bids_pruned: false,
            total_bids: 0,
            total_bidders: 0,
        }
    }
}

} // verus!
