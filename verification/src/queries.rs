//! The read-only query surface: auction listings and bid history, as
//! pure reads over the aggregate. Mutation never goes through here.

use vstd::prelude::*;

use crate::state::AuctionState;
use crate::types::{AuctionData, AuctionError, BidRecord};

verus! {

/// The retained bid records of one auction, in acceptance order (which
/// is also increasing bid-identifier order).
pub open spec fn auction_bids(bids: Seq<BidRecord>, auction_id: u64) -> Seq<BidRecord> {
    bids.filter(|b: BidRecord| b.auction_id == auction_id)
}

/// The auctions created by `creator` among the `seen` newest auctions,
/// newest first.
pub open spec fn created_by_newest_first(
    auctions: Seq<AuctionData>,
    creator: u64,
    seen: int,
) -> Seq<AuctionData>
    decreases seen,
{
    if seen <= 0 {
        Seq::empty()
    } else {
        let older = created_by_newest_first(auctions, creator, seen - 1);
        if auctions[auctions.len() - seen].params.creator == creator {
            older.push(auctions[auctions.len() - seen])
        } else {
            older
        }
    }
}

impl AuctionState {
    /// At most `limit` auctions, newest first, skipping the `offset`
    /// newest ones.
    pub fn all_auctions(&self, offset: usize, limit: usize) -> (out: Vec<AuctionData>)
        ensures
            offset >= self.auctions@.len() ==> out@.len() == 0,
            offset < self.auctions@.len() ==> {
                let shown: int = if limit <= self.auctions@.len() - offset {
                    limit as int
                } else {
                    self.auctions@.len() - offset
                };
                &&& out@.len() == shown
                &&& forall|k: int|
                    0 <= k < out@.len() ==> out@[k] == self.auctions@[self.auctions@.len() - 1
                        - offset - k]
            },
    {
        let mut out: Vec<AuctionData> = Vec::new();
        let total = self.auctions.len();
        if offset >= total {
            return out;
        }
        let newest = total - 1 - offset;
        let available = newest + 1;
        let shown = if limit <= available {
            limit
        } else {
            available
        };
        let mut k: usize = 0;
        while k < shown
            invariant
                shown <= newest + 1,
                newest < self.auctions@.len(),
                k <= shown,
                out@.len() == k,
                forall|j: int| 0 <= j < k ==> out@[j] == self.auctions@[newest - j],
            decreases shown - k,
        {
            out.push(self.auctions[newest - k].snapshot());
            k = k + 1;
        }
        out
    }

    /// Every auction created by `creator`, newest first.
    pub fn auctions_by_creator(&self, creator: u64) -> (out: Vec<AuctionData>)
        ensures
            out@ == created_by_newest_first(
                self.auctions@,
                creator,
                self.auctions@.len() as int,
            ),
    {
        let mut out: Vec<AuctionData> = Vec::new();
        let total = self.auctions.len();
        let mut seen: usize = 0;
        while seen < total
            invariant
                total == self.auctions@.len(),
                seen <= total,
                out@ == created_by_newest_first(self.auctions@, creator, seen as int),
            decreases total - seen,
        {
            let index = total - 1 - seen;
            if self.auctions[index].params.creator == creator {
                out.push(self.auctions[index].snapshot());
            }
            seen = seen + 1;
        }
        out
    }

    /// At most `limit` of one auction's retained bid records in
    /// chronological order, skipping the `offset` oldest ones. Fatal
    /// when the auction does not exist.
    pub fn bid_history(&self, auction_id: u64, offset: usize, limit: usize) -> (result: Result<
        Vec<BidRecord>,
        AuctionError,
    >)
        ensures
            auction_id >= self.auctions@.len() ==> (result matches Err(e) && e
                == AuctionError::AuctionNotFound),
            auction_id < self.auctions@.len() ==> (result matches Ok(out) && {
                let history = auction_bids(self.bids@, auction_id);
                let lo: int = if offset <= history.len() {
                    offset as int
                } else {
                    history.len() as int
                };
                let hi: int = if lo + limit <= history.len() {
                    lo + limit
                } else {
                    history.len() as int
                };
                out@ == history.subrange(lo, hi)
            }),
    {
        if auction_id >= self.auctions.len() as u64 {
            return Err(AuctionError::AuctionNotFound);
        }

        let mut history: Vec<BidRecord> = Vec::new();
        let mut i: usize = 0;
        while i < self.bids.len()
            invariant
                i <= self.bids@.len(),
                history@ == auction_bids(self.bids@.take(i as int), auction_id),
            decreases self.bids@.len() - i,
        {
            let b = self.bids[i];
            if b.auction_id == auction_id {
                history.push(b);
            }
            proof {
                reveal(Seq::filter);
                assert(self.bids@.take(i + 1).drop_last() == self.bids@.take(i as int));
                assert(self.bids@.take(i + 1).last() == self.bids@[i as int]);
            }
            i = i + 1;
        }
        proof {
            assert(self.bids@.take(self.bids@.len() as int) == self.bids@);
        }

        let lo = if offset <= history.len() {
            offset
        } else {
            history.len()
        };
        let room = history.len() - lo;
        let shown = if limit <= room {
            limit
        } else {
            room
        };
        let mut out: Vec<BidRecord> = Vec::new();
        let mut k: usize = 0;
        while k < shown
            invariant
                lo + shown <= history@.len(),
                history@.len() <= usize::MAX,
                k <= shown,
                out@.len() == k,
                forall|j: int| 0 <= j < k ==> out@[j] == history@[lo + j],
            decreases shown - k,
        {
            out.push(history[lo + k]);
            k = k + 1;
        }
        proof {
            assert(out@ =~= history@.subrange(lo as int, lo + shown));
        }
        Ok(out)
    }
}

} // verus!
