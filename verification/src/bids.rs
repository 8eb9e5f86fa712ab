//! The bid processor: validation against lifecycle, time, and supply
//! constraints, and the recording of accepted bids.
//!
//! Processing a bid is a two-phase exchange with the host, because the
//! payment is collected by the external token ledger between the phases:
//!
//! 1. [`AuctionState::prepare_bid`] performs every check and any lifecycle
//!    transition the attempt triggers (activation of a scheduled auction,
//!    lazy settlement of an expired one), and either rejects the bid or
//!    returns a [`PendingBid`] stating what the bidder owes.
//! 2. The host collects the payment into escrow. On success it calls
//!    [`AuctionState::record_bid`], which appends the bid record, updates
//!    the auction and the bidder's total, and settles the auction when the
//!    supply is exhausted. On failure it calls
//!    [`AuctionState::record_payment_failure`], leaving all records as
//!    phase one left them.

use vstd::prelude::*;

use crate::arith::{sat_add, sat_mul, saturating_mul};
use crate::events::AuctionEvent;
use crate::state::AuctionState;
use crate::types::{AuctionData, AuctionError, AuctionStatus, BidRecord, RejectReason, UserTotal};

verus! {

/// A validated bid awaiting payment: phase one's statement of what the
/// bidder owes and what recording the bid will do.
#[derive(Clone, Copy, Debug, PartialEq, Eq, Structural)]
pub struct PendingBid {
    /// The auction the bid targets.
    pub auction_id: u64,
    /// The bidder's account.
    pub bidder: u64,
    /// Quantity accepted, after capping at the remaining supply.
    pub accepted_quantity: u128,
    /// What the bidder owes: `accepted_quantity` times the current unit
    /// price, saturating.
    pub amount_paid: u128,
    /// The unit price at validation time.
    pub current_price: u128,
    /// Whether recording this bid will exhaust the supply and settle the
    /// auction.
    pub should_settle: bool,
    /// Handle of the token application the payment is collected in.
    pub payment_token_app: u64,
}

/// The outcome of phase one of bid processing.
#[derive(Clone, Copy, Debug, PartialEq, Eq, Structural)]
pub enum BidDecision {
    /// The bid was turned down; the reason has been emitted as an event.
    Rejected { reason: RejectReason },
    /// The bid is acceptable; the host must now collect `amount_paid`
    /// into escrow and report back.
    PaymentDue { pending: PendingBid },
}

/// The retained bid records of one (bidder, auction) pair, in
/// acceptance order.
pub open spec fn bids_for(bids: Seq<BidRecord>, auction_id: u64, user_account: u64) -> Seq<
    BidRecord,
> {
    bids.filter(|b: BidRecord| b.auction_id == auction_id && b.user_account == user_account)
}

/// True when no retained bid of `user_account` targets `auction_id`, so
/// an accepted bid would be this bidder's first on the auction.
pub open spec fn is_first_bid(bids: Seq<BidRecord>, auction_id: u64, user_account: u64) -> bool {
    forall|i: int|
        0 <= i < bids.len() ==> !((#[trigger] bids[i]).auction_id == auction_id
            && bids[i].user_account == user_account)
}

/// True when some totals entry already exists for this (auction, bidder)
/// pair.
pub open spec fn has_total(totals: Seq<UserTotal>, auction_id: u64, user_account: u64) -> bool {
    exists|j: int|
        0 <= j < totals.len() && (#[trigger] totals[j]).auction_id == auction_id
            && totals[j].user_account == user_account
}

impl AuctionState {
    /// Fixes the clearing price and settles an auction: the status
    /// becomes `Settled`, the settlement time is recorded, and the
    /// settlement event carrying the aggregate totals is emitted.
    fn settle(&mut self, auction_id: u64, clearing_price: u128, now: u64)
        requires
            old(self).wf(),
            auction_id < old(self).auctions@.len(),
            old(self).auctions@[auction_id as int].status == AuctionStatus::Active,
        ensures
            final(self).wf(),
            final(self).auctions@ == old(self).auctions@.update(
                auction_id as int,
                AuctionData {
                    status: AuctionStatus::Settled,
                    clearing_price: Some(clearing_price),
                    settled_at: Some(now),
                    ..old(self).auctions@[auction_id as int]
                },
            ),
            final(self).bids@ == old(self).bids@,
            final(self).user_totals@ == old(self).user_totals@,
            final(self).next_bid_id == old(self).next_bid_id,
            final(self).events@ == old(self).events@.push(
                AuctionEvent::AuctionSettled {
                    auction_id,
                    clearing_price,
                    total_bidders: old(self).auctions@[auction_id as int].total_bidders,
                    total_sold: old(self).auctions@[auction_id as int].sold,
                },
            ),
    {
        proof {
            vstd::std_specs::vec::axiom_spec_len(&self.auctions);
        }
        let idx = auction_id as usize;
        let total_bidders = self.auctions[idx].total_bidders;
        let total_sold = self.auctions[idx].sold;
        let auction = &mut self.auctions[idx];
        auction.status = AuctionStatus::Settled;
        auction.clearing_price = Some(clearing_price);
        auction.settled_at = Some(now);
        self.events.push(
            AuctionEvent::AuctionSettled {
                auction_id,
                clearing_price,
                total_bidders,
                total_sold,
            },
        );
    }

    /// Phase one of bid processing: validates a bid for `quantity` units
    /// against the auction's lifecycle, time window, and remaining
    /// supply, at the price the decay model gives for `now`.
    ///
    /// Every rejection is soft — it is recorded as a `BidRejected` event
    /// and reported in the decision — but an attempt can still move the
    /// lifecycle: a scheduled auction whose start time has arrived is
    /// activated before validation continues, and a bid against an
    /// active auction whose end time has passed settles the auction on
    /// the spot at the current price, with no bid recorded. Only a
    /// missing auction is a fatal error.
    pub fn prepare_bid(&mut self, auction_id: u64, quantity: u128, bidder: u64, now: u64) -> (result:
        Result<BidDecision, AuctionError>)
        requires
            old(self).wf(),
        ensures
            final(self).wf(),
            final(self).bids@ == old(self).bids@,
            final(self).user_totals@ == old(self).user_totals@,
            final(self).next_bid_id == old(self).next_bid_id,
            auction_id >= old(self).auctions@.len() ==> result == Err::<BidDecision, AuctionError>(
                AuctionError::AuctionNotFound,
            ) && final(self).same_state(*old(self)),
            auction_id < old(self).auctions@.len() ==> {
                let auction = old(self).auctions@[auction_id as int];
                let price = auction.price_now(now) as u128;
                &&& (auction.status == AuctionStatus::Active && now > auction.params.end_time)
                    ==> {
                    &&& result == Ok::<BidDecision, AuctionError>(
                        BidDecision::Rejected { reason: RejectReason::Expired },
                    )
                    &&& final(self).auctions@ == old(self).auctions@.update(
                        auction_id as int,
                        AuctionData {
                            status: AuctionStatus::Settled,
                            clearing_price: Some(price),
                            settled_at: Some(now),
                            ..auction
                        },
                    )
                    &&& final(self).events@ == old(self).events@.push(
                        AuctionEvent::AuctionSettled {
                            auction_id,
                            clearing_price: price,
                            total_bidders: auction.total_bidders,
                            total_sold: auction.sold,
                        },
                    ).push(
                        AuctionEvent::BidRejected {
                            auction_id,
                            user_account: bidder,
                            reason: RejectReason::Expired,
                        },
                    )
                }
                &&& (auction.status == AuctionStatus::Scheduled && now < auction.params.start_time)
                    ==> {
                    &&& result == Ok::<BidDecision, AuctionError>(
                        BidDecision::Rejected { reason: RejectReason::NotStarted },
                    )
                    &&& final(self).auctions@ == old(self).auctions@
                    &&& final(self).events@ == old(self).events@.push(
                        AuctionEvent::BidRejected {
                            auction_id,
                            user_account: bidder,
                            reason: RejectReason::NotStarted,
                        },
                    )
                }
                &&& (auction.status == AuctionStatus::Settled || auction.status
                    == AuctionStatus::Cancelled) ==> {
                    &&& result == Ok::<BidDecision, AuctionError>(
                        BidDecision::Rejected { reason: RejectReason::NotActive },
                    )
                    &&& final(self).auctions@ == old(self).auctions@
                    &&& final(self).events@ == old(self).events@.push(
                        AuctionEvent::BidRejected {
                            auction_id,
                            user_account: bidder,
                            reason: RejectReason::NotActive,
                        },
                    )
                }
                &&& ((auction.status == AuctionStatus::Active && now <= auction.params.end_time)
                    || (auction.status == AuctionStatus::Scheduled && now
                    >= auction.params.start_time)) ==> {
                    let activated = AuctionData { status: AuctionStatus::Active, ..auction };
                    &&& final(self).auctions@ == old(self).auctions@.update(
                        auction_id as int,
                        activated,
                    )
                    &&& auction.remaining() == 0 ==> {
                        &&& result == Ok::<BidDecision, AuctionError>(
                            BidDecision::Rejected { reason: RejectReason::SupplyExhausted },
                        )
                        &&& final(self).events@ == old(self).events@.push(
                            AuctionEvent::BidRejected {
                                auction_id,
                                user_account: bidder,
                                reason: RejectReason::SupplyExhausted,
                            },
                        )
                    }
                    &&& auction.remaining() > 0 ==> {
                        let accepted: int = if quantity <= auction.remaining() {
                            quantity as int
                        } else {
                            auction.remaining()
                        };
                        &&& result == Ok::<BidDecision, AuctionError>(
                            BidDecision::PaymentDue {
                                pending: PendingBid {
                                    auction_id,
                                    bidder,
                                    accepted_quantity: accepted as u128,
                                    amount_paid: sat_mul(price as int, accepted) as u128,
                                    current_price: price,
                                    should_settle: auction.sold + accepted
                                        >= auction.total_supply,
                                    payment_token_app: auction.params.payment_token_app,
                                },
                            },
                        )
                        &&& final(self).events@ == old(self).events@
                    }
                }
            },
    {
        if auction_id >= self.auctions.len() as u64 {
            return Err(AuctionError::AuctionNotFound);
        }
        let idx = auction_id as usize;
        let price = crate::price::calculate_current_price(
            self.auctions[idx].params.start_price,
            self.auctions[idx].params.floor_price,
            self.auctions[idx].params.price_decay_amount,
            self.auctions[idx].params.price_decay_interval,
            self.auctions[idx].params.start_time,
            now,
        );
        let status = self.auctions[idx].status;
        let start_time = self.auctions[idx].params.start_time;
        let end_time = self.auctions[idx].params.end_time;

        // Lazy expiry settlement: the first interaction after the end
        // time settles the auction at the price computed right now.
        if matches!(status, AuctionStatus::Active) && now > end_time {
            self.settle(auction_id, price, now);
            self.events.push(
                AuctionEvent::BidRejected {
                    auction_id,
                    user_account: bidder,
                    reason: RejectReason::Expired,
                },
            );
            return Ok(BidDecision::Rejected { reason: RejectReason::Expired });
        }

        if matches!(status, AuctionStatus::Scheduled) {
            if now < start_time {
                self.events.push(
                    AuctionEvent::BidRejected {
                        auction_id,
                        user_account: bidder,
                        reason: RejectReason::NotStarted,
                    },
                );
                return Ok(BidDecision::Rejected { reason: RejectReason::NotStarted });
            }
        } else if !matches!(status, AuctionStatus::Active) {
            self.events.push(
                AuctionEvent::BidRejected {
                    auction_id,
                    user_account: bidder,
                    reason: RejectReason::NotActive,
                },
            );
            return Ok(BidDecision::Rejected { reason: RejectReason::NotActive });
        }

        // Persist the Scheduled -> Active transition (a no-op when the
        // auction was already active).
        let auction = &mut self.auctions[idx];
        auction.status = AuctionStatus::Active;

        let sold = self.auctions[idx].sold;
        let total_supply = self.auctions[idx].total_supply;
        let remaining = total_supply - sold;
        if remaining == 0 {
            self.events.push(
                AuctionEvent::BidRejected {
                    auction_id,
                    user_account: bidder,
                    reason: RejectReason::SupplyExhausted,
                },
            );
            return Ok(BidDecision::Rejected { reason: RejectReason::SupplyExhausted });
        }

        let accepted_quantity = if quantity <= remaining {
            quantity
        } else {
            remaining
        };
        let amount_paid = saturating_mul(price, accepted_quantity);
        let should_settle = sold + accepted_quantity >= total_supply;
        let payment_token_app = self.auctions[idx].params.payment_token_app;

        Ok(
            BidDecision::PaymentDue {
                pending: PendingBid {
                    auction_id,
                    bidder,
                    accepted_quantity,
                    amount_paid,
                    current_price: price,
                    should_settle,
                    payment_token_app,
                },
            },
        )
    }

    /// Phase two, on payment failure: records the soft rejection. The
    /// records keep any lifecycle transition phase one made, but no bid
    /// is stored and nothing is sold.
    pub fn record_payment_failure(&mut self, auction_id: u64, bidder: u64)
        requires
            old(self).wf(),
        ensures
            final(self).wf(),
            final(self).same_records(*old(self)),
            final(self).events@ == old(self).events@.push(
                AuctionEvent::BidRejected {
                    auction_id,
                    user_account: bidder,
                    reason: RejectReason::PaymentFailed,
                },
            ),
    {
        self.events.push(
            AuctionEvent::BidRejected {
                auction_id,
                user_account: bidder,
                reason: RejectReason::PaymentFailed,
            },
        );
    }

    /// True when the bidder has no retained bid record on this auction.
    fn no_prior_bid(&self, auction_id: u64, user_account: u64) -> (first: bool)
        ensures
            first == is_first_bid(self.bids@, auction_id, user_account),
    {
        let mut i: usize = 0;
        while i < self.bids.len()
            invariant
                i <= self.bids@.len(),
                forall|k: int|
                    0 <= k < i ==> !((#[trigger] self.bids@[k]).auction_id == auction_id
                        && self.bids@[k].user_account == user_account),
            decreases self.bids@.len() - i,
        {
            if self.bids[i].auction_id == auction_id && self.bids[i].user_account
                == user_account {
                return false;
            }
            i = i + 1;
        }
        true
    }

    /// Adds `quantity` to the bidder's cumulative total for this
    /// auction, creating the entry on their first accepted bid.
    fn bump_user_total(&mut self, auction_id: u64, user_account: u64, quantity: u128)
        requires
            old(self).wf(),
        ensures
            final(self).auctions@ == old(self).auctions@,
            final(self).bids@ == old(self).bids@,
            final(self).next_bid_id == old(self).next_bid_id,
            final(self).events@ == old(self).events@,
            if has_total(old(self).user_totals@, auction_id, user_account) {
                exists|j: int|
                    0 <= j < old(self).user_totals@.len()
                        && (#[trigger] old(self).user_totals@[j]).auction_id == auction_id
                        && old(self).user_totals@[j].user_account == user_account
                        && final(self).user_totals@ == old(self).user_totals@.update(
                        j,
                        UserTotal {
                            auction_id,
                            user_account,
                            total_quantity: sat_add(
                                old(self).user_totals@[j].total_quantity as int,
                                quantity as int,
                            ) as u128,
                        },
                    )
            } else {
                final(self).user_totals@ == old(self).user_totals@.push(
                    UserTotal { auction_id, user_account, total_quantity: quantity },
                )
            },
            final(self).wf(),
    {
        let mut j: usize = 0;
        while j < self.user_totals.len()
            invariant
                old(self).wf(),
                j <= self.user_totals@.len(),
                self.same_state(*old(self)),
                forall|k: int|
                    0 <= k < j ==> !((#[trigger] self.user_totals@[k]).auction_id == auction_id
                        && self.user_totals@[k].user_account == user_account),
            decreases self.user_totals@.len() - j,
        {
            if self.user_totals[j].auction_id == auction_id && self.user_totals[j].user_account
                == user_account {
                let prior = self.user_totals[j].total_quantity;
                let entry = &mut self.user_totals[j];
                entry.total_quantity = crate::arith::saturating_add(prior, quantity);
                return ;
            }
            j = j + 1;
        }
        self.user_totals.push(UserTotal { auction_id, user_account, total_quantity: quantity });
    }

    /// Phase two, after the payment reached escrow: appends the bid
    /// record under a fresh identifier, adds the accepted quantity to
    /// `sold` and to the bidder's total, counts the bid (and the bidder,
    /// on their first bid here), and emits the payment and acceptance
    /// events. If the bid exhausts the supply, the auction settles at
    /// once at the pending bid's price.
    ///
    /// The pending bid must still match the auction — the auction active
    /// and the accepted quantity within the remaining supply — otherwise
    /// nothing changes and a fatal error is returned; phase one
    /// guarantees both when no other operation ran in between.
    pub fn record_bid(&mut self, pending: PendingBid, now: u64) -> (result: Result<
        BidRecord,
        AuctionError,
    >)
        requires
            old(self).wf(),
            old(self).next_bid_id < u64::MAX,
        ensures
            final(self).wf(),
            // Across any sequence of accepted bids, `sold` never
            // decreases and never exceeds the total supply.
            pending.auction_id < old(self).auctions@.len() ==> {
                let sold_after = final(self).auctions@[pending.auction_id as int].sold;
                &&& sold_after >= old(self).auctions@[pending.auction_id as int].sold
                &&& sold_after <= final(self).auctions@[pending.auction_id as int].total_supply
            },
            pending.auction_id >= old(self).auctions@.len() ==> result == Err::<
                BidRecord,
                AuctionError,
            >(AuctionError::AuctionNotFound) && final(self).same_state(*old(self)),
            pending.auction_id < old(self).auctions@.len() ==> {
                let auction = old(self).auctions@[pending.auction_id as int];
                &&& (auction.status != AuctionStatus::Active || pending.accepted_quantity
                    > auction.remaining()) ==> result == Err::<BidRecord, AuctionError>(
                    AuctionError::StalePendingBid,
                ) && final(self).same_state(*old(self))
                &&& (auction.status == AuctionStatus::Active && pending.accepted_quantity
                    <= auction.remaining()) ==> {
                    let bid = BidRecord {
                        bid_id: old(self).next_bid_id,
                        auction_id: pending.auction_id,
                        user_account: pending.bidder,
                        quantity: pending.accepted_quantity,
                        amount_paid: pending.amount_paid,
                        timestamp: now,
                        claimed: false,
                    };
                    let new_sold = auction.sold + pending.accepted_quantity;
                    let exhausted = new_sold >= auction.total_supply;
                    let counted = AuctionData {
                        sold: new_sold as u128,
                        total_bids: (auction.total_bids + 1) as u64,
                        total_bidders: if is_first_bid(
                            old(self).bids@,
                            pending.auction_id,
                            pending.bidder,
                        ) {
                            (auction.total_bidders + 1) as u64
                        } else {
                            auction.total_bidders
                        },
                        ..auction
                    };
                    let settled = AuctionData {
                        status: AuctionStatus::Settled,
                        clearing_price: Some(pending.current_price),
                        settled_at: Some(now),
                        ..counted
                    };
                    &&& result == Ok::<BidRecord, AuctionError>(bid)
                    &&& final(self).bids@ == old(self).bids@.push(bid)
                    &&& final(self).next_bid_id == old(self).next_bid_id + 1
                    &&& final(self).auctions@ == old(self).auctions@.update(
                        pending.auction_id as int,
                        if exhausted {
                            settled
                        } else {
                            counted
                        },
                    )
                    &&& if has_total(old(self).user_totals@, pending.auction_id, pending.bidder) {
                        exists|j: int|
                            0 <= j < old(self).user_totals@.len()
                                && (#[trigger] old(self).user_totals@[j]).auction_id
                                == pending.auction_id
                                && old(self).user_totals@[j].user_account == pending.bidder
                                && final(self).user_totals@ == old(self).user_totals@.update(
                                j,
                                UserTotal {
                                    auction_id: pending.auction_id,
                                    user_account: pending.bidder,
                                    total_quantity: sat_add(
                                        old(self).user_totals@[j].total_quantity as int,
                                        pending.accepted_quantity as int,
                                    ) as u128,
                                },
                            )
                    } else {
                        final(self).user_totals@ == old(self).user_totals@.push(
                            UserTotal {
                                auction_id: pending.auction_id,
                                user_account: pending.bidder,
                                total_quantity: pending.accepted_quantity,
                            },
                        )
                    }
                    &&& {
                        let accepted_events = old(self).events@.push(
                            AuctionEvent::PaymentReceived {
                                auction_id: pending.auction_id,
                                user_account: pending.bidder,
                                amount: pending.amount_paid,
                                bid_id: bid.bid_id,
                            },
                        ).push(
                            AuctionEvent::BidAccepted {
                                auction_id: pending.auction_id,
                                bid_id: bid.bid_id,
                                user_account: pending.bidder,
                                quantity: pending.accepted_quantity,
                                amount_paid: pending.amount_paid,
                                total_sold: new_sold as u128,
                                remaining: (auction.total_supply - new_sold) as u128,
                            },
                        );
                        final(self).events@ == if exhausted {
                            accepted_events.push(
                                AuctionEvent::AuctionSettled {
                                    auction_id: pending.auction_id,
                                    clearing_price: pending.current_price,
                                    total_bidders: counted.total_bidders,
                                    total_sold: new_sold as u128,
                                },
                            )
                        } else {
                            accepted_events
                        }
                    }
                }
            },
    {
        let auction_id = pending.auction_id;
        if auction_id >= self.auctions.len() as u64 {
            return Err(AuctionError::AuctionNotFound);
        }
        let idx = auction_id as usize;
        if !matches!(self.auctions[idx].status, AuctionStatus::Active) {
            return Err(AuctionError::StalePendingBid);
        }
        let sold = self.auctions[idx].sold;
        let total_supply = self.auctions[idx].total_supply;
        if pending.accepted_quantity > total_supply - sold {
            return Err(AuctionError::StalePendingBid);
        }

        // Allocate the bid identifier and append the record.
        let bid_id = self.next_bid_id;
        self.next_bid_id = bid_id + 1;
        let bid = BidRecord {
            bid_id,
            auction_id,
            user_account: pending.bidder,
            quantity: pending.accepted_quantity,
            amount_paid: pending.amount_paid,
            timestamp: now,
            claimed: false,
        };

        // A first bid is one from a bidder with no retained record here.
        let first_bid = self.no_prior_bid(auction_id, pending.bidder);

        self.bids.push(bid);

        // Update the auction's derived state.
        let new_sold = sold + pending.accepted_quantity;
        let auction = &mut self.auctions[idx];
        auction.sold = new_sold;
        auction.total_bids = auction.total_bids + 1;
        if first_bid {
            auction.total_bidders = auction.total_bidders + 1;
        }

        // Update the bidder's cumulative total for this auction.
        self.bump_user_total(auction_id, pending.bidder, pending.accepted_quantity);

        // Emit the payment and acceptance events.
        self.events.push(
            AuctionEvent::PaymentReceived {
                auction_id,
                user_account: pending.bidder,
                amount: pending.amount_paid,
                bid_id,
            },
        );
        self.events.push(
            AuctionEvent::BidAccepted {
                auction_id,
                bid_id,
                user_account: pending.bidder,
                quantity: pending.accepted_quantity,
                amount_paid: pending.amount_paid,
                total_sold: new_sold,
                remaining: total_supply - new_sold,
            },
        );

        // Settlement on exhaustion happens synchronously with the bid
        // that exhausted the supply, at that bid's price.
        if new_sold >= total_supply {
            self.settle(auction_id, pending.current_price, now);
        }

        Ok(bid)
    }
}

} // verus!
