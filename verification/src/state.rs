//! The auction aggregate: every auction, every bid record, the per-user
//! totals, the bid-identifier counter, and the ordered event outbox.
//!
//! The aggregate is explicit state owned by the caller; the host
//! environment persists it between operations and serializes all
//! operations on it, so each operation below is atomic from the point of
//! view of any observer.

use vstd::prelude::*;

use crate::events::AuctionEvent;
use crate::types::{AuctionData, AuctionError, AuctionParams, AuctionStatus, BidRecord, UserTotal};

verus! {

/// The complete state of the auction application.
///
/// Auction identifiers are auto-incremented from zero, so the auction
/// with identifier `i` lives at index `i` of `auctions` and the count of
/// auctions ever created equals `auctions.len()`. Bid records are held in
/// one append-only list ordered by bid identifier; the records of a given
/// (bidder, auction) pair therefore keep their acceptance order.
pub struct AuctionState {
    /// Every auction ever created, indexed by its identifier.
    pub auctions: Vec<AuctionData>,
    /// Every accepted bid still retained, in increasing bid-identifier
    /// order; entries leave only through pruning.
    pub bids: Vec<BidRecord>,
    /// Cumulative accepted quantity per (auction, bidder) pair.
    pub user_totals: Vec<UserTotal>,
    /// Monotonic register: the identifier the next accepted bid receives.
    pub next_bid_id: u64,
    /// Events produced and not yet handed to the host, in commit order.
    pub events: Vec<AuctionEvent>,
}

impl AuctionState {
    /// Internal consistency of the aggregate: every auction is well
    /// formed, every bid points at an existing auction, bid identifiers
    /// are strictly increasing and below the counter, and each
    /// (auction, bidder) pair has at most one totals entry.
    pub open spec fn wf(self) -> bool {
        &&& forall|i: int|
            0 <= i < self.auctions@.len() ==> (#[trigger] self.auctions@[i]).wf()
        &&& forall|i: int|
            0 <= i < self.bids@.len() ==> (#[trigger] self.bids@[i]).auction_id
                < self.auctions@.len()
        &&& forall|i: int|
            0 <= i < self.bids@.len() ==> (#[trigger] self.bids@[i]).bid_id < self.next_bid_id
        &&& forall|i: int, j: int|
            0 <= i < j < self.bids@.len() ==> (#[trigger] self.bids@[i]).bid_id
                < (#[trigger] self.bids@[j]).bid_id
        &&& forall|i: int, j: int|
            0 <= i < j < self.user_totals@.len() ==> !((#[trigger] self.user_totals@[i]).auction_id
                == (#[trigger] self.user_totals@[j]).auction_id
                && self.user_totals@[i].user_account == self.user_totals@[j].user_account)
        &&& forall|i: int|
            0 <= i < self.auctions@.len() ==> (#[trigger] self.auctions@[i]).total_bids
                <= self.next_bid_id && self.auctions@[i].total_bidders <= self.next_bid_id
    }

    /// True when both states hold the same auctions, bids, totals, and
    /// counter, and the same emitted events.
    pub open spec fn same_state(self, other: AuctionState) -> bool {
        &&& self.auctions@ == other.auctions@
        &&& self.bids@ == other.bids@
        &&& self.user_totals@ == other.user_totals@
        &&& self.next_bid_id == other.next_bid_id
        &&& self.events@ == other.events@
    }

    /// True when everything but the event outbox is the same.
    pub open spec fn same_records(self, other: AuctionState) -> bool {
        &&& self.auctions@ == other.auctions@
        &&& self.bids@ == other.bids@
        &&& self.user_totals@ == other.user_totals@
        &&& self.next_bid_id == other.next_bid_id
    }

    /// An empty aggregate: no auctions, no bids, no events.
    pub fn new() -> (state: AuctionState)
        ensures
            state.wf(),
            state.auctions@ == Seq::<AuctionData>::empty(),
            state.bids@ == Seq::<BidRecord>::empty(),
            state.user_totals@ == Seq::<UserTotal>::empty(),
            state.next_bid_id == 0,
            state.events@ == Seq::<AuctionEvent>::empty(),
    {
        AuctionState {
            auctions: Vec::new(),
            bids: Vec::new(),
            user_totals: Vec::new(),
            next_bid_id: 0,
            events: Vec::new(),
        }
    }

    /// Records the deployment of the application, announcing the stream
    /// to every consumer.
    pub fn initialize(&mut self, aac_chain: u64)
        requires
            old(self).wf(),
        ensures
            final(self).wf(),
            final(self).same_records(*old(self)),
            final(self).events@ == old(self).events@.push(
                AuctionEvent::ApplicationInitialized { aac_chain },
            ),
    {
        self.events.push(AuctionEvent::ApplicationInitialized { aac_chain });
    }

    /// Hands the pending events to the host for publication, in commit
    /// order, and empties the outbox.
    pub fn take_events(&mut self) -> (out: Vec<AuctionEvent>)
        requires
            old(self).wf(),
        ensures
            final(self).wf(),
            final(self).same_records(*old(self)),
            out@ == old(self).events@,
            final(self).events@ == Seq::<AuctionEvent>::empty(),
    {
        let mut out: Vec<AuctionEvent> = Vec::new();
        core::mem::swap(&mut out, &mut self.events);
        out
    }

    /// Creates an auction under the next free identifier.
    ///
    /// The parameters must carry a positive price-decay interval — with a
    /// zero interval the decay model would be undefined — otherwise the
    /// creation is rejected and nothing changes. The new auction starts
    /// `Scheduled` when its start time lies ahead, else `Active`, and an
    /// event carrying the full parameter snapshot is emitted.
    pub fn create_auction(&mut self, params: AuctionParams, now: u64) -> (result: Result<
        u64,
        AuctionError,
    >)
        requires
            old(self).wf(),
            old(self).auctions@.len() < u64::MAX,
        ensures
            final(self).wf(),
            params.price_decay_interval == 0 ==> result == Err::<u64, AuctionError>(
                AuctionError::InvalidDecayInterval,
            ) && final(self).same_state(*old(self)),
            params.price_decay_interval > 0 ==> {
                &&& result == Ok::<u64, AuctionError>(old(self).auctions@.len() as u64)
                &&& final(self).auctions@.len() == old(self).auctions@.len() + 1
                &&& final(self).auctions@.subrange(0, old(self).auctions@.len() as int) == old(
                    self,
                ).auctions@
                &&& final(self).auctions@.last().params == params
                &&& final(self).auctions@.last().sold == 0
                &&& final(self).auctions@.last().clearing_price is None
                &&& final(self).auctions@.last().status == (if now < params.start_time {
                    AuctionStatus::Scheduled
                } else {
                    AuctionStatus::Active
                })
                &&& final(self).bids@ == old(self).bids@
                &&& final(self).user_totals@ == old(self).user_totals@
                &&& final(self).next_bid_id == old(self).next_bid_id
                &&& final(self).events@ == old(self).events@.push(
                    AuctionEvent::AuctionCreated {
                        auction_id: old(self).auctions@.len() as u64,
                        params,
                    },
                )
            },
    {
        if params.price_decay_interval == 0 {
            return Err(AuctionError::InvalidDecayInterval);
        }
        let auction_id: u64 = self.auctions.len() as u64;
        let snapshot = params.snapshot();
        let auction = AuctionData::new(params, now);
        self.auctions.push(auction);
        self.events.push(AuctionEvent::AuctionCreated { auction_id, params: snapshot });
        Ok(auction_id)
    }

    /// Cancels a `Scheduled` auction on behalf of its creator.
    ///
    /// Anyone other than the creator is turned away, as is any attempt
    /// once the auction has left the `Scheduled` state; both failures are
    /// fatal to the enclosing operation and change nothing.
    pub fn cancel_auction(&mut self, auction_id: u64, caller: u64) -> (result: Result<
        (),
        AuctionError,
    >)
        requires
            old(self).wf(),
        ensures
            final(self).wf(),
            auction_id >= old(self).auctions@.len() ==> result == Err::<(), AuctionError>(
                AuctionError::AuctionNotFound,
            ) && final(self).same_state(*old(self)),
            auction_id < old(self).auctions@.len() ==> {
                let auction = old(self).auctions@[auction_id as int];
                &&& caller != auction.params.creator ==> result == Err::<(), AuctionError>(
                    AuctionError::NotCreator,
                ) && final(self).same_state(*old(self))
                &&& caller == auction.params.creator && auction.status
                    != AuctionStatus::Scheduled ==> result == Err::<(), AuctionError>(
                    AuctionError::NotScheduled,
                ) && final(self).same_state(*old(self))
                &&& caller == auction.params.creator && auction.status
                    == AuctionStatus::Scheduled ==> {
                    &&& result == Ok::<(), AuctionError>(())
                    &&& final(self).auctions@ == old(self).auctions@.update(
                        auction_id as int,
                        AuctionData { status: AuctionStatus::Cancelled, ..auction },
                    )
                    &&& final(self).bids@ == old(self).bids@
                    &&& final(self).user_totals@ == old(self).user_totals@
                    &&& final(self).next_bid_id == old(self).next_bid_id
                    &&& final(self).events@ == old(self).events@.push(
                        AuctionEvent::AuctionCancelled { auction_id },
                    )
                }
            },
    {
        if auction_id >= self.auctions.len() as u64 {
            return Err(AuctionError::AuctionNotFound);
        }
        let idx = auction_id as usize;
        if caller != self.auctions[idx].params.creator {
            return Err(AuctionError::NotCreator);
        }
        if !matches!(self.auctions[idx].status, AuctionStatus::Scheduled) {
            return Err(AuctionError::NotScheduled);
        }
        let auction = &mut self.auctions[idx];
        auction.status = AuctionStatus::Cancelled;
        self.events.push(AuctionEvent::AuctionCancelled { auction_id });
        Ok(())
    }

    /// The number of auctions ever created, which is also the identifier
    /// the next auction will receive.
    pub fn auction_count(&self) -> (count: u64)
        ensures
            count == self.auctions@.len(),
    {
        self.auctions.len() as u64
    }

    /// A read-only view of one auction's state.
    pub fn auction(&self, auction_id: u64) -> (result: Result<&AuctionData, AuctionError>)
        ensures
            auction_id < self.auctions@.len() ==> (result matches Ok(auction) && *auction
                == self.auctions@[auction_id as int]),
            auction_id >= self.auctions@.len() ==> (result matches Err(e) && e
                == AuctionError::AuctionNotFound),
    {
        if auction_id >= self.auctions.len() as u64 {
            return Err(AuctionError::AuctionNotFound);
        }
        Ok(&self.auctions[auction_id as usize])
    }

    /// A bidder's retained bid records for one auction, in acceptance
    /// order.
    pub fn user_bids(&self, user_account: u64, auction_id: u64) -> (out: Vec<BidRecord>)
        ensures
            out@ == crate::bids::bids_for(self.bids@, auction_id, user_account),
    {
        let mut out: Vec<BidRecord> = Vec::new();
        let mut i: usize = 0;
        while i < self.bids.len()
            invariant
                i <= self.bids@.len(),
                out@ == crate::bids::bids_for(self.bids@.take(i as int), auction_id, user_account),
            decreases self.bids@.len() - i,
        {
            let b = self.bids[i];
            if b.auction_id == auction_id && b.user_account == user_account {
                out.push(b);
            }
            proof {
                reveal(Seq::filter);
                assert(self.bids@.take(i + 1).drop_last() == self.bids@.take(i as int));
                assert(self.bids@.take(i + 1).last() == self.bids@[i as int]);
            }
            i = i + 1;
        }
        proof {
            assert(self.bids@.take(self.bids@.len() as int) == self.bids@);
        }
        out
    }

    /// A bidder's cumulative accepted quantity on one auction; zero when
    /// they never had a bid accepted there.
    pub fn user_total(&self, auction_id: u64, user_account: u64) -> (total: u128)
        ensures
            crate::bids::has_total(self.user_totals@, auction_id, user_account) ==> exists|j: int|
                0 <= j < self.user_totals@.len() && (#[trigger] self.user_totals@[j]).auction_id
                    == auction_id && self.user_totals@[j].user_account == user_account && total
                    == self.user_totals@[j].total_quantity,
            !crate::bids::has_total(self.user_totals@, auction_id, user_account) ==> total == 0,
    {
        let mut i: usize = 0;
        while i < self.user_totals.len()
            invariant
                i <= self.user_totals@.len(),
                forall|k: int|
                    0 <= k < i ==> !((#[trigger] self.user_totals@[k]).auction_id == auction_id
                        && self.user_totals@[k].user_account == user_account),
            decreases self.user_totals@.len() - i,
        {
            if self.user_totals[i].auction_id == auction_id && self.user_totals[i].user_account
                == user_account {
                return self.user_totals[i].total_quantity;
            }
            i = i + 1;
        }
        0
    }

    /// The unit price of an auction at time `now`, recomputed on demand
    /// from its stored parameters.
    pub fn current_price(&self, auction_id: u64, now: u64) -> (result: Result<u128, AuctionError>)
        requires
            self.wf(),
        ensures
            auction_id < self.auctions@.len() ==> (result matches Ok(price) && price
                == self.auctions@[auction_id as int].price_now(now)),
            auction_id >= self.auctions@.len() ==> (result matches Err(e) && e
                == AuctionError::AuctionNotFound),
    {
        if auction_id >= self.auctions.len() as u64 {
            return Err(AuctionError::AuctionNotFound);
        }
        let auction = &self.auctions[auction_id as usize];
        Ok(
            crate::price::calculate_current_price(
                auction.params.start_price,
                auction.params.floor_price,
                auction.params.price_decay_amount,
                auction.params.price_decay_interval,
                auction.params.start_time,
                now,
            ),
        )
    }
}

} // verus!
