//! The settlement engine: once an auction is settled, each bidder may
//! claim their allocation and refund, computed at the auction's single
//! uniform clearing price.
//!
//! A claim gathers the claimant's unclaimed bid records, sums their
//! quantities and payments, charges the clearing price for the whole
//! allocation, refunds the overpayment, and marks the records claimed.
//! The marking is persisted together with the claim outcome; the host
//! then performs the two transfers and treats any failure there as fatal,
//! aborting the whole operation — so the marking is only ever observable
//! alongside successful payouts, and a repeated claim finds nothing left
//! to pay.

use vstd::prelude::*;

use crate::arith::{sat_add, sat_mul, sat_sub, saturating_add, saturating_mul, saturating_sub};
use crate::events::AuctionEvent;
use crate::state::AuctionState;
use crate::types::{AuctionError, AuctionStatus, BidRecord};

verus! {

/// The claimant's retained bid records on this auction that no claim has
/// covered yet, in acceptance order.
pub open spec fn unclaimed_of(bids: Seq<BidRecord>, auction_id: u64, user_account: u64) -> Seq<
    BidRecord,
> {
    bids.filter(
        |b: BidRecord|
            b.auction_id == auction_id && b.user_account == user_account && !b.claimed,
    )
}

/// The sum of the records' quantities, saturating at the largest
/// representable value, as the engine computes it.
pub open spec fn sum_quantity_sat(s: Seq<BidRecord>) -> int
    decreases s.len(),
{
    if s.len() == 0 {
        0
    } else {
        sat_add(sum_quantity_sat(s.drop_last()), s.last().quantity as int)
    }
}

/// The sum of the records' payments, saturating at the largest
/// representable value, as the engine computes it.
pub open spec fn sum_paid_sat(s: Seq<BidRecord>) -> int
    decreases s.len(),
{
    if s.len() == 0 {
        0
    } else {
        sat_add(sum_paid_sat(s.drop_last()), s.last().amount_paid as int)
    }
}

/// The exact mathematical sum of the records' quantities.
pub open spec fn sum_quantity(s: Seq<BidRecord>) -> int
    decreases s.len(),
{
    if s.len() == 0 {
        0
    } else {
        sum_quantity(s.drop_last()) + s.last().quantity
    }
}

/// The exact mathematical sum of the records' payments.
pub open spec fn sum_paid(s: Seq<BidRecord>) -> int
    decreases s.len(),
{
    if s.len() == 0 {
        0
    } else {
        sum_paid(s.drop_last()) + s.last().amount_paid
    }
}

/// One record after a claim by `user_account` on `auction_id`: an
/// unclaimed record of that pair is marked claimed, everything else is
/// untouched.
pub open spec fn mark_one(b: BidRecord, auction_id: u64, user_account: u64) -> BidRecord {
    if b.auction_id == auction_id && b.user_account == user_account && !b.claimed {
        BidRecord { claimed: true, ..b }
    } else {
        b
    }
}

/// The whole bid list after a claim by `user_account` on `auction_id`.
pub open spec fn mark_claimed(bids: Seq<BidRecord>, auction_id: u64, user_account: u64) -> Seq<
    BidRecord,
> {
    Seq::new(bids.len(), |i: int| mark_one(bids[i], auction_id, user_account))
}

/// The amounts a claim pays out, fixed by the unclaimed records and the
/// clearing price.
#[derive(Clone, Copy, Debug, PartialEq, Eq, Structural)]
pub struct Settlement {
    /// Total quantity across the gathered records.
    pub total_quantity: u128,
    /// `total_quantity` at the clearing price (saturating).
    pub total_cost: u128,
    /// Total paid across the records minus `total_cost` (saturating;
    /// exact whenever no payment saturated, since the price only decays).
    pub refund: u128,
}

/// What a claim did.
#[derive(Clone, Copy, Debug, PartialEq, Eq, Structural)]
pub enum ClaimOutcome {
    /// Nothing to do: the auction is not settled, or no unclaimed
    /// records exist for the claimant. The state is untouched.
    Nothing,
    /// The gathered records were marked claimed; the host must now issue
    /// the refund (if nonzero) and the allocation payout, and treat any
    /// transfer failure as fatal.
    Paid {
        allocated_quantity: u128,
        clearing_price: u128,
        total_cost: u128,
        refund: u128,
    },
}

/// Computes the settlement amounts for a set of unclaimed records at the
/// given clearing price: total quantity, its cost at the clearing price,
/// and the refund of the overpayment.
pub fn calculate_settlement(unclaimed: &Vec<BidRecord>, clearing_price: u128) -> (settlement:
    Settlement)
    ensures
        settlement.total_quantity == sum_quantity_sat(unclaimed@),
        settlement.total_cost == sat_mul(clearing_price as int, sum_quantity_sat(unclaimed@)),
        settlement.refund == sat_sub(sum_paid_sat(unclaimed@), settlement.total_cost as int),
{
    let mut total_quantity: u128 = 0;
    let mut total_paid: u128 = 0;
    let mut i: usize = 0;
    while i < unclaimed.len()
        invariant
            i <= unclaimed@.len(),
            total_quantity == sum_quantity_sat(unclaimed@.take(i as int)),
            total_paid == sum_paid_sat(unclaimed@.take(i as int)),
        decreases unclaimed@.len() - i,
    {
        total_quantity = saturating_add(total_quantity, unclaimed[i].quantity);
        total_paid = saturating_add(total_paid, unclaimed[i].amount_paid);
        proof {
            assert(unclaimed@.take(i + 1).drop_last() == unclaimed@.take(i as int));
            assert(unclaimed@.take(i + 1).last() == unclaimed@[i as int]);
        }
        i = i + 1;
    }
    proof {
        assert(unclaimed@.take(unclaimed@.len() as int) == unclaimed@);
    }
    let total_cost = saturating_mul(clearing_price, total_quantity);
    let refund = saturating_sub(total_paid, total_cost);
    Settlement { total_quantity, total_cost, refund }
}

impl AuctionState {
    /// The claimant's unclaimed bid records on this auction, in
    /// acceptance order.
    fn collect_unclaimed(&self, auction_id: u64, user_account: u64) -> (out: Vec<BidRecord>)
        ensures
            out@ == unclaimed_of(self.bids@, auction_id, user_account),
    {
        let mut out: Vec<BidRecord> = Vec::new();
        let mut i: usize = 0;
        while i < self.bids.len()
            invariant
                i <= self.bids@.len(),
                out@ == unclaimed_of(self.bids@.take(i as int), auction_id, user_account),
            decreases self.bids@.len() - i,
        {
            let b = self.bids[i];
            if b.auction_id == auction_id && b.user_account == user_account && !b.claimed {
                out.push(b);
            }
            proof {
                reveal(Seq::filter);
                assert(self.bids@.take(i + 1).drop_last() == self.bids@.take(i as int));
                assert(self.bids@.take(i + 1).last() == self.bids@[i as int]);
            }
            i = i + 1;
        }
        proof {
            assert(self.bids@.take(self.bids@.len() as int) == self.bids@);
        }
        out
    }

    /// Marks every unclaimed record of this (auction, claimant) pair as
    /// claimed; nothing else changes.
    fn mark_all_claimed(&mut self, auction_id: u64, user_account: u64)
        requires
            old(self).wf(),
        ensures
            final(self).wf(),
            final(self).bids@ == mark_claimed(old(self).bids@, auction_id, user_account),
            final(self).auctions@ == old(self).auctions@,
            final(self).user_totals@ == old(self).user_totals@,
            final(self).next_bid_id == old(self).next_bid_id,
            final(self).events@ == old(self).events@,
    {
        let mut i: usize = 0;
        while i < self.bids.len()
            invariant
                old(self).wf(),
                i <= self.bids@.len(),
                self.bids@.len() == old(self).bids@.len(),
                self.auctions@ == old(self).auctions@,
                self.user_totals@ == old(self).user_totals@,
                self.next_bid_id == old(self).next_bid_id,
                self.events@ == old(self).events@,
                forall|k: int|
                    0 <= k < i ==> self.bids@[k] == mark_one(
                        #[trigger] old(self).bids@[k],
                        auction_id,
                        user_account,
                    ),
                forall|k: int|
                    i <= k < self.bids@.len() ==> self.bids@[k] == #[trigger] old(self).bids@[k],
            decreases self.bids@.len() - i,
        {
            if self.bids[i].auction_id == auction_id && self.bids[i].user_account == user_account
                && !self.bids[i].claimed {
                let b = &mut self.bids[i];
                b.claimed = true;
            }
            i = i + 1;
        }
        proof {
            assert(self.bids@ =~= mark_claimed(old(self).bids@, auction_id, user_account));
        }
    }

    /// A read-only preview of what a claim would pay out: `None` until
    /// the auction settles or while the claimant has no unclaimed
    /// quantity, otherwise the same amounts a claim would fix. Nothing
    /// is marked and no event is produced.
    pub fn claimable_settlement(&self, auction_id: u64, user_account: u64) -> (result: Result<
        Option<Settlement>,
        AuctionError,
    >)
        requires
            self.wf(),
        ensures
            auction_id >= self.auctions@.len() ==> result == Err::<Option<Settlement>, AuctionError>(
                AuctionError::AuctionNotFound,
            ),
            auction_id < self.auctions@.len() ==> {
                let auction = self.auctions@[auction_id as int];
                let unclaimed = unclaimed_of(self.bids@, auction_id, user_account);
                let total_quantity = sum_quantity_sat(unclaimed);
                &&& auction.status != AuctionStatus::Settled ==> result == Ok::<
                    Option<Settlement>,
                    AuctionError,
                >(None)
                &&& auction.status == AuctionStatus::Settled && total_quantity == 0 ==> result
                    == Ok::<Option<Settlement>, AuctionError>(None)
                &&& auction.status == AuctionStatus::Settled && total_quantity > 0 ==> {
                    let clearing_price = auction.clearing_price->Some_0;
                    let total_cost = sat_mul(clearing_price as int, total_quantity);
                    result == Ok::<Option<Settlement>, AuctionError>(
                        Some(
                            Settlement {
                                total_quantity: total_quantity as u128,
                                total_cost: total_cost as u128,
                                refund: sat_sub(sum_paid_sat(unclaimed), total_cost) as u128,
                            },
                        ),
                    )
                }
            },
    {
        if auction_id >= self.auctions.len() as u64 {
            return Err(AuctionError::AuctionNotFound);
        }
        let idx = auction_id as usize;
        if !matches!(self.auctions[idx].status, AuctionStatus::Settled) {
            return Ok(None);
        }
        let clearing_price = match self.auctions[idx].clearing_price {
            Some(price) => price,
            None => {
                // A settled auction always carries its clearing price.
                proof {
                    assert(false);
                }
                0
            },
        };
        let unclaimed = self.collect_unclaimed(auction_id, user_account);
        let settlement = calculate_settlement(&unclaimed, clearing_price);
        if settlement.total_quantity == 0 {
            return Ok(None);
        }
        Ok(Some(settlement))
    }

    /// Processes a settlement claim by `claimant` on one auction.
    ///
    /// On an auction that is not settled, or when no unclaimed records
    /// exist for the claimant, the claim is a no-op — not an error — so
    /// claiming is idempotent: the records a claim pays out are marked in
    /// the same operation, and a repeated claim finds none. Only a
    /// missing auction is fatal.
    pub fn claim_settlement(&mut self, auction_id: u64, claimant: u64) -> (result: Result<
        ClaimOutcome,
        AuctionError,
    >)
        requires
            old(self).wf(),
        ensures
            final(self).wf(),
            final(self).auctions@ == old(self).auctions@,
            final(self).user_totals@ == old(self).user_totals@,
            final(self).next_bid_id == old(self).next_bid_id,
            auction_id >= old(self).auctions@.len() ==> result == Err::<ClaimOutcome, AuctionError>(
                AuctionError::AuctionNotFound,
            ) && final(self).same_state(*old(self)),
            auction_id < old(self).auctions@.len() ==> {
                let auction = old(self).auctions@[auction_id as int];
                let unclaimed = unclaimed_of(old(self).bids@, auction_id, claimant);
                &&& auction.status != AuctionStatus::Settled ==> result == Ok::<
                    ClaimOutcome,
                    AuctionError,
                >(ClaimOutcome::Nothing) && final(self).same_state(*old(self))
                &&& auction.status == AuctionStatus::Settled && unclaimed.len() == 0 ==> result
                    == Ok::<ClaimOutcome, AuctionError>(ClaimOutcome::Nothing)
                    && final(self).same_state(*old(self))
                &&& auction.status == AuctionStatus::Settled && unclaimed.len() > 0 ==> {
                    let clearing_price = auction.clearing_price->Some_0;
                    let total_quantity = sum_quantity_sat(unclaimed);
                    let total_cost = sat_mul(clearing_price as int, total_quantity);
                    let refund = sat_sub(sum_paid_sat(unclaimed), total_cost);
                    let claimed_event = AuctionEvent::SettlementClaimed {
                        auction_id,
                        user_account: claimant,
                        allocated_quantity: total_quantity as u128,
                        clearing_price,
                        total_cost: total_cost as u128,
                        refund: refund as u128,
                    };
                    &&& result == Ok::<ClaimOutcome, AuctionError>(
                        ClaimOutcome::Paid {
                            allocated_quantity: total_quantity as u128,
                            clearing_price,
                            total_cost: total_cost as u128,
                            refund: refund as u128,
                        },
                    )
                    &&& final(self).bids@ == mark_claimed(old(self).bids@, auction_id, claimant)
                    &&& final(self).events@ == if refund > 0 {
                        old(self).events@.push(
                            AuctionEvent::RefundIssued {
                                auction_id,
                                user_account: claimant,
                                refund_amount: refund as u128,
                            },
                        ).push(claimed_event)
                    } else {
                        old(self).events@.push(claimed_event)
                    }
                }
            },
    {
        if auction_id >= self.auctions.len() as u64 {
            return Err(AuctionError::AuctionNotFound);
        }
        let idx = auction_id as usize;
        if !matches!(self.auctions[idx].status, AuctionStatus::Settled) {
            return Ok(ClaimOutcome::Nothing);
        }
        let clearing_price = match self.auctions[idx].clearing_price {
            Some(price) => price,
            None => {
                // A settled auction always carries its clearing price.
                proof {
                    assert(false);
                }
                0
            },
        };

        let unclaimed = self.collect_unclaimed(auction_id, claimant);
        if unclaimed.len() == 0 {
            return Ok(ClaimOutcome::Nothing);
        }

        let settlement = calculate_settlement(&unclaimed, clearing_price);

        // Mark first, pay after: the host's transfers follow in the same
        // atomic operation and abort it wholesale on failure.
        self.mark_all_claimed(auction_id, claimant);

        if settlement.refund > 0 {
            self.events.push(
                AuctionEvent::RefundIssued {
                    auction_id,
                    user_account: claimant,
                    refund_amount: settlement.refund,
                },
            );
        }
        self.events.push(
            AuctionEvent::SettlementClaimed {
                auction_id,
                user_account: claimant,
                allocated_quantity: settlement.total_quantity,
                clearing_price,
                total_cost: settlement.total_cost,
                refund: settlement.refund,
            },
        );

        Ok(
            ClaimOutcome::Paid {
                allocated_quantity: settlement.total_quantity,
                clearing_price,
                total_cost: settlement.total_cost,
                refund: settlement.refund,
            },
        )
    }
}

/// No record matching an all-false predicate survives the filter: a bid
/// list in which nothing is unclaimed for the pair yields nothing.
proof fn lemma_no_unclaimed_filter_empty(bids: Seq<BidRecord>, auction_id: u64, user_account: u64)
    requires
        forall|i: int|
            0 <= i < bids.len() ==> !((#[trigger] bids[i]).auction_id == auction_id
                && bids[i].user_account == user_account && !bids[i].claimed),
    ensures
        unclaimed_of(bids, auction_id, user_account) == Seq::<BidRecord>::empty(),
    decreases bids.len(),
{
    reveal(Seq::filter);
    if bids.len() > 0 {
        lemma_no_unclaimed_filter_empty(bids.drop_last(), auction_id, user_account);
    }
}

/// Claiming is idempotent: after the records a claim gathered are marked
/// claimed, a second claim by the same claimant on the same auction
/// gathers nothing, so it pays zero additional quantity and zero
/// additional refund.
pub proof fn lemma_claim_idempotent(bids: Seq<BidRecord>, auction_id: u64, user_account: u64)
    ensures
        unclaimed_of(mark_claimed(bids, auction_id, user_account), auction_id, user_account)
            == Seq::<BidRecord>::empty(),
        sum_quantity_sat(unclaimed_of(mark_claimed(bids, auction_id, user_account), auction_id,
            user_account)) == 0,
        sum_paid_sat(unclaimed_of(mark_claimed(bids, auction_id, user_account), auction_id,
            user_account)) == 0,
{
    let marked = mark_claimed(bids, auction_id, user_account);
    assert forall|i: int| 0 <= i < marked.len() implies !((#[trigger] marked[i]).auction_id
        == auction_id && marked[i].user_account == user_account && !marked[i].claimed) by {
        assert(marked[i] == mark_one(bids[i], auction_id, user_account));
    }
    lemma_no_unclaimed_filter_empty(marked, auction_id, user_account);
}

/// Sums of quantities and payments are never negative.
proof fn lemma_sums_nonneg(s: Seq<BidRecord>)
    ensures
        sum_quantity(s) >= 0,
        sum_paid(s) >= 0,
    decreases s.len(),
{
    if s.len() > 0 {
        lemma_sums_nonneg(s.drop_last());
    }
}

/// A payment fixed at bid time covers the clearing price: the unit
/// price only decays between a bid's acceptance and the settlement that
/// fixes the clearing price, so — provided the payment itself did not
/// saturate — the amount paid is at least the quantity times any price
/// the model yields at a later time. This discharges, bid by bid, the
/// hypothesis of [`lemma_settlement_exact`].
pub proof fn lemma_payment_covers_clearing(
    start_price: u128,
    floor_price: u128,
    price_decay_amount: u128,
    price_decay_interval: u64,
    start_time: u64,
    quantity: u128,
    bid_time: u64,
    settle_time: u64,
)
    requires
        price_decay_interval > 0,
        floor_price <= start_price,
        bid_time <= settle_time,
        crate::price::price_at(start_price, floor_price, price_decay_amount,
            price_decay_interval, start_time, bid_time) * quantity <= u128::MAX,
    ensures
        sat_mul(crate::price::price_at(start_price, floor_price, price_decay_amount,
            price_decay_interval, start_time, bid_time), quantity as int) >= quantity
            * crate::price::price_at(start_price, floor_price, price_decay_amount,
            price_decay_interval, start_time, settle_time),
{
    let bid_price = crate::price::price_at(start_price, floor_price, price_decay_amount,
        price_decay_interval, start_time, bid_time);
    let clearing = crate::price::price_at(start_price, floor_price, price_decay_amount,
        price_decay_interval, start_time, settle_time);
    crate::price::lemma_price_non_increasing(start_price, floor_price, price_decay_amount,
        price_decay_interval, start_time, bid_time, settle_time);
    vstd::arithmetic::mul::lemma_mul_inequality(clearing, bid_price, quantity as int);
    vstd::arithmetic::mul::lemma_mul_is_commutative(bid_price, quantity as int);
    vstd::arithmetic::mul::lemma_mul_is_commutative(clearing, quantity as int);
}

/// Settlement loses nothing to saturation under normal operation: when
/// every gathered record paid at least the clearing price per unit —
/// which holds whenever no payment saturated at acceptance, since the
/// unit price only decays between a bid and the settlement — and the
/// claimant's totals are representable, then the amount paid decomposes
/// exactly into the cost at the clearing price plus the refund.
pub proof fn lemma_settlement_exact(s: Seq<BidRecord>, clearing_price: u128)
    requires
        forall|i: int|
            0 <= i < s.len() ==> (#[trigger] s[i]).amount_paid >= s[i].quantity * clearing_price,
        sum_quantity(s) <= u128::MAX,
        sum_paid(s) <= u128::MAX,
    ensures
        sum_quantity_sat(s) == sum_quantity(s),
        sum_paid_sat(s) == sum_paid(s),
        clearing_price * sum_quantity(s) <= sum_paid(s),
        sat_mul(clearing_price as int, sum_quantity_sat(s)) == clearing_price * sum_quantity(s),
        sum_paid_sat(s) == sat_mul(clearing_price as int, sum_quantity_sat(s)) + sat_sub(
            sum_paid_sat(s),
            sat_mul(clearing_price as int, sum_quantity_sat(s)),
        ),
    decreases s.len(),
{
    lemma_sums_nonneg(s);
    if s.len() == 0 {
        vstd::arithmetic::mul::lemma_mul_basics(clearing_price as int);
    } else {
        let pre = s.drop_last();
        let last = s.last();
        lemma_sums_nonneg(pre);
        assert forall|i: int| 0 <= i < pre.len() implies (#[trigger] pre[i]).amount_paid
            >= pre[i].quantity * clearing_price by {
            assert(pre[i] == s[i]);
        }
        lemma_settlement_exact(pre, clearing_price);
        assert(clearing_price * sum_quantity(s) == clearing_price * (sum_quantity(pre)
            + last.quantity));
        vstd::arithmetic::mul::lemma_mul_is_distributive_add(
            clearing_price as int,
            sum_quantity(pre),
            last.quantity as int,
        );
        assert(clearing_price * (sum_quantity(pre) + last.quantity) == clearing_price
            * sum_quantity(pre) + clearing_price * last.quantity);
        assert(clearing_price * last.quantity == last.quantity * clearing_price) by {
            vstd::arithmetic::mul::lemma_mul_is_commutative(
                clearing_price as int,
                last.quantity as int,
            );
        }
        assert(clearing_price * sum_quantity(s) <= sum_paid(pre) + last.amount_paid);
    }
}

} // verus!
