//! A verified Dutch-auction clearing and settlement engine.
//!
//! The engine accepts bids against a price that decays linearly over time,
//! enforces a fixed supply cap, fixes a uniform clearing price at settlement,
//! and lets winning bidders claim their allocation and refund. Bid history is
//! pruned by a two-tier, time-gated retention policy.
//!
//! All state lives in [`state::AuctionState`], an explicit aggregate: the host
//! environment (persistence, authentication, clocks, token transfers, event
//! transport) stays outside the crate and interacts with the engine through
//! plain values. Each operation appends the events it produces to an ordered
//! outbox, which the host drains and publishes in commit order.

pub mod abi;
pub mod arith;
pub mod bids;
pub mod events;
pub mod price;
pub mod queries;
pub mod retention;
pub mod settlement;
pub mod state;
pub mod types;

pub use bids::{BidDecision, PendingBid};
pub use events::AuctionEvent;
pub use price::calculate_current_price;
pub use settlement::{ClaimOutcome, Settlement};
pub use state::AuctionState;
pub use types::{AuctionData, AuctionError, AuctionParams, AuctionStatus, BidRecord, RejectReason};
