//! The retention policy: time-gated, two-tier pruning of a settled
//! auction's bid history, bounding storage growth while preserving
//! unclaimed claims during the normal claim window.
//!
//! Nothing may be pruned within one hour of settlement. Between one hour
//! and ninety days, only records already claimed are dropped; from
//! ninety days on, every record of the auction is dropped regardless of
//! its claimed state and the auction is flagged as pruned.

use vstd::prelude::*;

use crate::settlement::unclaimed_of;
use crate::state::AuctionState;
use crate::types::{AuctionData, AuctionError, AuctionStatus, BidRecord};

verus! {

/// Pruning becomes legal this long after settlement, in microseconds.
pub const ONE_HOUR_MICROS: u64 = 60 * 60 * 1_000_000;

/// Tier-two pruning becomes legal this long after settlement, in
/// microseconds.
pub const NINETY_DAYS_MICROS: u64 = 90 * 24 * 60 * 60 * 1_000_000;

/// The bid list after tier-one pruning of one auction: records of that
/// auction that were already claimed are dropped, everything else stays.
pub open spec fn tier_one_kept(bids: Seq<BidRecord>, auction_id: u64) -> Seq<BidRecord> {
    bids.filter(|b: BidRecord| !(b.auction_id == auction_id && b.claimed))
}

/// The bid list after tier-two pruning of one auction: every record of
/// that auction is dropped, claimed or not.
pub open spec fn tier_two_kept(bids: Seq<BidRecord>, auction_id: u64) -> Seq<BidRecord> {
    bids.filter(|b: BidRecord| b.auction_id != auction_id)
}

/// Tier-one pruning preserves claim availability: every bidder's
/// unclaimed records on the pruned auction survive it unchanged, so a
/// claim gathers the same records before and after.
pub proof fn lemma_tier_one_preserves_unclaimed(
    bids: Seq<BidRecord>,
    auction_id: u64,
    user_account: u64,
)
    ensures
        unclaimed_of(tier_one_kept(bids, auction_id), auction_id, user_account) == unclaimed_of(
            bids,
            auction_id,
            user_account,
        ),
    decreases bids.len(),
{
    reveal(Seq::filter);
    if bids.len() > 0 {
        let pre = bids.drop_last();
        let last = bids.last();
        lemma_tier_one_preserves_unclaimed(pre, auction_id, user_account);
        if !(last.auction_id == auction_id && last.claimed) {
            assert(tier_one_kept(pre, auction_id).push(last).drop_last() == tier_one_kept(
                pre,
                auction_id,
            ));
        }
    }
}

/// Tier-two pruning clears the auction wholesale: afterwards no bidder
/// has any unclaimed record left on it, claimed or not.
pub proof fn lemma_tier_two_clears_unclaimed(
    bids: Seq<BidRecord>,
    auction_id: u64,
    user_account: u64,
)
    ensures
        unclaimed_of(tier_two_kept(bids, auction_id), auction_id, user_account) == Seq::<
            BidRecord,
        >::empty(),
    decreases bids.len(),
{
    reveal(Seq::filter);
    if bids.len() > 0 {
        let pre = bids.drop_last();
        let last = bids.last();
        lemma_tier_two_clears_unclaimed(pre, auction_id, user_account);
        if last.auction_id != auction_id {
            assert(tier_two_kept(pre, auction_id).push(last).drop_last() == tier_two_kept(
                pre,
                auction_id,
            ));
        }
    }
}

impl AuctionState {
    /// Drops this auction's claimed records (tier one) or all of its
    /// records (tier two) from the retained bid list.
    fn prune_bids(&mut self, auction_id: u64, prune_all: bool)
        requires
            old(self).wf(),
        ensures
            final(self).wf(),
            final(self).auctions@ == old(self).auctions@,
            final(self).user_totals@ == old(self).user_totals@,
            final(self).next_bid_id == old(self).next_bid_id,
            final(self).events@ == old(self).events@,
            prune_all ==> final(self).bids@ == tier_two_kept(old(self).bids@, auction_id),
            !prune_all ==> final(self).bids@ == tier_one_kept(old(self).bids@, auction_id),
    {
        let mut kept: Vec<BidRecord> = Vec::new();
        let mut i: usize = 0;
        while i < self.bids.len()
            invariant
                old(self).wf(),
                i <= self.bids@.len(),
                self.same_state(*old(self)),
                prune_all ==> kept@ == tier_two_kept(self.bids@.take(i as int), auction_id),
                !prune_all ==> kept@ == tier_one_kept(self.bids@.take(i as int), auction_id),
                forall|k: int|
                    0 <= k < kept@.len() ==> (#[trigger] kept@[k]).auction_id
                        < self.auctions@.len() && kept@[k].bid_id < self.next_bid_id,
                forall|k1: int, k2: int|
                    0 <= k1 < k2 < kept@.len() ==> (#[trigger] kept@[k1]).bid_id
                        < (#[trigger] kept@[k2]).bid_id,
                forall|k: int, m: int|
                    0 <= k < kept@.len() && i <= m < self.bids@.len() ==> (
                    #[trigger] kept@[k]).bid_id < (#[trigger] self.bids@[m]).bid_id,
            decreases self.bids@.len() - i,
        {
            let b = self.bids[i];
            let keep = if prune_all {
                b.auction_id != auction_id
            } else {
                !(b.auction_id == auction_id && b.claimed)
            };
            if keep {
                kept.push(b);
            }
            proof {
                reveal(Seq::filter);
                assert(self.bids@.take(i + 1).drop_last() == self.bids@.take(i as int));
                assert(self.bids@.take(i + 1).last() == self.bids@[i as int]);
            }
            i = i + 1;
        }
        proof {
            assert(self.bids@.take(self.bids@.len() as int) == self.bids@);
        }
        self.bids = kept;
    }

    /// Prunes a settled auction's bid history, by age since settlement.
    ///
    /// Rejects — fatally, changing nothing — when the auction is missing,
    /// not settled, or settled less than one hour ago. From one hour to
    /// ninety days after settlement, only claimed records are dropped;
    /// from ninety days on, all of the auction's records are dropped and
    /// its `bids_pruned` flag is set.
    pub fn prune_settled_auction(&mut self, auction_id: u64, now: u64) -> (result: Result<
        (),
        AuctionError,
    >)
        requires
            old(self).wf(),
        ensures
            final(self).wf(),
            final(self).user_totals@ == old(self).user_totals@,
            final(self).next_bid_id == old(self).next_bid_id,
            final(self).events@ == old(self).events@,
            auction_id >= old(self).auctions@.len() ==> result == Err::<(), AuctionError>(
                AuctionError::AuctionNotFound,
            ) && final(self).same_state(*old(self)),
            auction_id < old(self).auctions@.len() ==> {
                let auction = old(self).auctions@[auction_id as int];
                &&& auction.status != AuctionStatus::Settled ==> result == Err::<(), AuctionError>(
                    AuctionError::NotSettled,
                ) && final(self).same_state(*old(self))
                &&& auction.status == AuctionStatus::Settled ==> {
                    let settled_at = auction.settled_at->Some_0;
                    let elapsed: int = if now >= settled_at {
                        now - settled_at
                    } else {
                        0
                    };
                    &&& elapsed < ONE_HOUR_MICROS ==> result == Err::<(), AuctionError>(
                        AuctionError::RetentionDelayNotElapsed,
                    ) && final(self).same_state(*old(self))
                    &&& ONE_HOUR_MICROS <= elapsed < NINETY_DAYS_MICROS ==> {
                        &&& result == Ok::<(), AuctionError>(())
                        &&& final(self).bids@ == tier_one_kept(old(self).bids@, auction_id)
                        &&& final(self).auctions@ == old(self).auctions@
                    }
                    &&& elapsed >= NINETY_DAYS_MICROS ==> {
                        &&& result == Ok::<(), AuctionError>(())
                        &&& final(self).bids@ == tier_two_kept(old(self).bids@, auction_id)
                        &&& final(self).auctions@ == old(self).auctions@.update(
                            auction_id as int,
                            AuctionData { bids_pruned: true, ..auction },
                        )
                    }
                }
            },
    {
        if auction_id >= self.auctions.len() as u64 {
            return Err(AuctionError::AuctionNotFound);
        }
        let idx = auction_id as usize;
        if !matches!(self.auctions[idx].status, AuctionStatus::Settled) {
            return Err(AuctionError::NotSettled);
        }
        let settled_at = match self.auctions[idx].settled_at {
            Some(t) => t,
            None => {
                // A settled auction always records its settlement time.
                proof {
                    assert(false);
                }
                0
            },
        };
        let elapsed: u64 = if now >= settled_at {
            now - settled_at
        } else {
            0
        };
        if elapsed < ONE_HOUR_MICROS {
            return Err(AuctionError::RetentionDelayNotElapsed);
        }

        let prune_all = elapsed >= NINETY_DAYS_MICROS;
        self.prune_bids(auction_id, prune_all);
        if prune_all {
            let auction = &mut self.auctions[idx];
            auction.bids_pruned = true;
        }
        Ok(())
    }
}

} // verus!
