//! One auction: its record, its bid ledger and its lifecycle
//! `Active -> Ended | Cancelled`.
//!
//! Every operation takes what the host supplies (the caller's identity, the
//! current time) as arguments and hands back, as plain values, the outbound
//! work it asks for: a notice for the factory's directory, an asset transfer,
//! whether the settlement timer is to be cleared. State is always committed
//! before that work is handed out.
use crate::ledger::{ledger_entries, principal_cmp, BidLedger};
use core::cmp::Ordering;
use candid::Principal;
use vstd::prelude::*;

verus! {

/// Where an auction stands in its lifecycle.
#[derive(Clone, Copy, Debug, PartialEq, Eq, Structural)]
pub enum AuctionStatus {
    Active,
    Ended,
    Cancelled,
}

/// The record an auction instance owns.
#[derive(Clone, Copy, Debug)]
pub struct AuctionData {
    pub id: u64,
    pub seller: Principal,
    pub nft_canister: Principal,
    pub token_id: u128,
    pub starting_price: u128,
    pub current_highest_bid: u128,
    pub highest_bidder: Option<Principal>,
    pub end_time: u64,
    pub status: AuctionStatus,
    pub factory_canister: Principal,
}

/// The argument of a bid.
#[derive(Clone, Copy, Debug)]
pub struct BidArgs {
    pub amount: u128,
}

/// Why an operation on an auction instance was refused.
#[derive(Clone, Copy, Debug, PartialEq, Eq, Structural)]
pub enum AuctionError {
    NotInitialized,
    NotFactory,
    AlreadyInitialized,
    NotActive,
    AuctionEnded,
    BidTooLow,
    NotSeller,
    BidsExist,
}

/// The text reported to the caller for each error.
pub open spec fn auction_error_text(e: AuctionError) -> Seq<char> {
    match e {
        AuctionError::NotInitialized => "Auction not initialized"@,
        AuctionError::NotFactory => "Only the factory can initialize the auction"@,
        AuctionError::AlreadyInitialized => "Auction already initialized"@,
        AuctionError::NotActive => "Auction is not active"@,
        AuctionError::AuctionEnded => "Auction has ended"@,
        AuctionError::BidTooLow => "Bid must be higher than current highest bid"@,
        AuctionError::NotSeller => "Only seller can cancel auction"@,
        AuctionError::BidsExist => "Cannot cancel auction with existing bids"@,
    }
}

impl AuctionError {
    /// The text reported to the caller.
    pub fn message(&self) -> (r: String)
        ensures
            r@ == auction_error_text(*self),
    {
        match self {
            AuctionError::NotInitialized => "Auction not initialized".to_string(),
            AuctionError::NotFactory => "Only the factory can initialize the auction".to_string(),
            AuctionError::AlreadyInitialized => "Auction already initialized".to_string(),
            AuctionError::NotActive => "Auction is not active".to_string(),
            AuctionError::AuctionEnded => "Auction has ended".to_string(),
            AuctionError::BidTooLow => "Bid must be higher than current highest bid".to_string(),
            AuctionError::NotSeller => "Only seller can cancel auction".to_string(),
            AuctionError::BidsExist => "Cannot cancel auction with existing bids".to_string(),
        }
    }
}

/// A best-effort notice to the factory that a bid was accepted.
#[derive(Clone, Copy, Debug)]
pub struct BidNotice {
    pub factory_canister: Principal,
    pub auction_id: u64,
    pub amount: u128,
    pub bidder: Principal,
}

/// A best-effort notice to the factory of a new status.
#[derive(Clone, Copy, Debug)]
pub struct StatusNotice {
    pub factory_canister: Principal,
    pub auction_id: u64,
    pub status: AuctionStatus,
}

/// A best-effort transfer of the auctioned asset from seller to winner.
#[derive(Clone, Copy, Debug)]
pub struct AssetTransfer {
    pub nft_canister: Principal,
    pub from: Principal,
    pub to: Principal,
    pub token_id: u128,
}

/// The outbound work of a transition out of `Active`.
#[derive(Clone, Copy, Debug)]
pub struct Settlement {
    /// A settlement timer was pending and is to be cleared.
    pub cancel_timer: bool,
    pub transfer: Option<AssetTransfer>,
    pub notice: StatusNotice,
}

/// The record as first set by `init_auction`.
pub open spec fn initial_record(
    id: u64,
    seller: Principal,
    nft_canister: Principal,
    token_id: u128,
    starting_price: u128,
    end_time: u64,
    factory_canister: Principal,
) -> AuctionData {
    AuctionData {
        id,
        seller,
        nft_canister,
        token_id,
        starting_price,
        current_highest_bid: starting_price,
        highest_bidder: None,
        end_time,
        status: AuctionStatus::Active,
        factory_canister,
    }
}

/// Nanoseconds from `now` until `end_time`, or 0 if it has passed.
pub open spec fn timer_delay(end_time: u64, now: u64) -> u64 {
    if now < end_time {
        (end_time - now) as u64
    } else {
        0
    }
}

/// The error of `init_auction` on an instance installed by `factory`, if any.
pub open spec fn init_error(rec: Option<AuctionData>, factory: Principal, caller: Principal) -> Option<
    AuctionError,
> {
    if caller != factory {
        Some(AuctionError::NotFactory)
    } else if rec is Some {
        Some(AuctionError::AlreadyInitialized)
    } else {
        None
    }
}

/// The error of `place_bid`, if any, checked in this order.
pub open spec fn bid_error(rec: Option<AuctionData>, amount: u128, now: u64) -> Option<AuctionError> {
    match rec {
        None => Some(AuctionError::NotInitialized),
        Some(r) => if r.status != AuctionStatus::Active {
            Some(AuctionError::NotActive)
        } else if now >= r.end_time {
            Some(AuctionError::AuctionEnded)
        } else if amount <= r.current_highest_bid {
            Some(AuctionError::BidTooLow)
        } else {
            None
        },
    }
}

/// The record after an accepted bid.
pub open spec fn with_bid(r: AuctionData, amount: u128, bidder: Principal) -> AuctionData {
    AuctionData { current_highest_bid: amount, highest_bidder: Some(bidder), ..r }
}

/// The notice sent after an accepted bid.
pub open spec fn bid_notice(r: AuctionData, amount: u128, bidder: Principal) -> BidNotice {
    BidNotice { factory_canister: r.factory_canister, auction_id: r.id, amount, bidder }
}

/// The error of `end_auction`, if any.
pub open spec fn end_error(rec: Option<AuctionData>) -> Option<AuctionError> {
    match rec {
        None => Some(AuctionError::NotInitialized),
        Some(r) => if r.status != AuctionStatus::Active {
            Some(AuctionError::NotActive)
        } else {
            None
        },
    }
}

/// The error of `cancel_auction`, if any, checked in this order.
pub open spec fn cancel_error(rec: Option<AuctionData>, caller: Principal) -> Option<AuctionError> {
    match rec {
        None => Some(AuctionError::NotInitialized),
        Some(r) => if caller != r.seller {
            Some(AuctionError::NotSeller)
        } else if r.highest_bidder is Some {
            Some(AuctionError::BidsExist)
        } else if r.status != AuctionStatus::Active {
            Some(AuctionError::NotActive)
        } else {
            None
        },
    }
}

/// The record with a new status.
pub open spec fn with_status(r: AuctionData, status: AuctionStatus) -> AuctionData {
    AuctionData { status, ..r }
}

/// The outbound work of leaving `Active` for `status`: the asset goes to the
/// highest bidder only when the auction ends with one.
pub open spec fn settlement(r: AuctionData, timer_pending: bool, status: AuctionStatus) -> Settlement {
    Settlement {
        cancel_timer: timer_pending,
        transfer: match r.highest_bidder {
            Some(w) => if status == AuctionStatus::Ended {
                Some(
                    AssetTransfer {
                        nft_canister: r.nft_canister,
                        from: r.seller,
                        to: w,
                        token_id: r.token_id,
                    },
                )
            } else {
                None
            },
            None => None,
        },
        notice: StatusNotice { factory_canister: r.factory_canister, auction_id: r.id, status },
    }
}

/// How a record and its ledger agree: the highest bidder is set exactly when
/// some bid was accepted, that bidder's entry is the highest bid, and every
/// entry lies above the starting price and at most at the highest bid.
pub open spec fn ledger_agrees(rec: Option<AuctionData>, bids: Map<Principal, u128>) -> bool {
    &&& bids.dom().finite()
    &&& match rec {
        None => bids.dom() == Set::<Principal>::empty(),
        Some(r) => {
            &&& (r.highest_bidder is None <==> bids.dom() == Set::<Principal>::empty())
            &&& (r.highest_bidder is None ==> r.current_highest_bid == r.starting_price)
            &&& (forall|b: Principal| #[trigger]
                bids.contains_key(b) ==> r.starting_price < bids[b] <= r.current_highest_bid)
            &&& (r.highest_bidder matches Some(w) ==> bids.contains_key(w) && bids[w]
                == r.current_highest_bid)
        },
    }
}

/// The state of one auction instance.
pub struct AuctionInstance {
    record: Option<AuctionData>,
    bids: BidLedger,
    timer_pending: bool,
    factory: Principal,
}

impl AuctionInstance {
    /// The auction record, absent until initialized.
    pub closed spec fn record(&self) -> Option<AuctionData> {
        self.record
    }

    /// Each bidder's last accepted bid.
    pub closed spec fn bids(&self) -> Map<Principal, u128> {
        ledger_entries(self.bids)
    }

    /// The factory that installed this instance.
    pub closed spec fn factory(&self) -> Principal {
        self.factory
    }

    /// Whether a settlement timer is armed and not yet cleared.
    pub closed spec fn timer_pending(&self) -> bool {
        self.timer_pending
    }

    /// The invariant that every operation keeps: the ledger agrees with the
    /// record, and a timer is pending only while the auction is active.
    pub open spec fn wf(&self) -> bool {
        &&& ledger_agrees(self.record(), self.bids())
        &&& (self.timer_pending() ==> self.record() is Some && self.record().unwrap().status
            == AuctionStatus::Active)
    }

    /// A successful `place_bid` from `before` to `after`.
    pub open spec fn bid_accepted(
        before: AuctionInstance,
        after: AuctionInstance,
        caller: Principal,
        amount: u128,
        now: u64,
    ) -> bool {
        &&& bid_error(before.record(), amount, now) is None
        &&& after.record() == Some(with_bid(before.record().unwrap(), amount, caller))
        &&& after.bids() == before.bids().insert(caller, amount)
        &&& after.timer_pending() == before.timer_pending()
    }

    /// A successful `end_auction` or `cancel_auction` from `before` to
    /// `after`, leaving `Active` for `status`.
    pub open spec fn closed_with(
        before: AuctionInstance,
        after: AuctionInstance,
        status: AuctionStatus,
    ) -> bool {
        &&& before.record() is Some
        &&& before.record().unwrap().status == AuctionStatus::Active
        &&& after.record() == Some(with_status(before.record().unwrap(), status))
        &&& after.bids() == before.bids()
        &&& !after.timer_pending()
    }

    /// An instance, installed by `factory`, that is not yet initialized.
    pub fn new(factory: Principal) -> (r: AuctionInstance)
        ensures
            r.wf(),
            r.factory() == factory,
            r.record() is None,
            r.bids().dom() == Set::<Principal>::empty(),
            !r.timer_pending(),
    {
        AuctionInstance { record: None, bids: BidLedger::new(), timer_pending: false, factory }
    }

    /// Places a bid of `args.amount` by `caller` at time `now`. On success
    /// the bid is recorded and the notice for the factory is returned.
    pub fn place_bid(&mut self, caller: Principal, args: BidArgs, now: u64) -> (r: Result<
        BidNotice,
        AuctionError,
    >)
        requires
            old(self).wf(),
        ensures
            final(self).wf(),
            final(self).factory() == old(self).factory(),
            r is Ok <==> bid_error(old(self).record(), args.amount, now) is None,
            r is Ok ==> AuctionInstance::bid_accepted(*old(self), *final(self), caller, args.amount, now),
            r is Ok ==> old(self).record().unwrap().current_highest_bid < final(self).record().unwrap().current_highest_bid,
            r is Ok ==> r == Ok::<BidNotice, AuctionError>(
                bid_notice(old(self).record().unwrap(), args.amount, caller),
            ),
            r is Err ==> r == Err::<BidNotice, AuctionError>(
                bid_error(old(self).record(), args.amount, now).unwrap(),
            ),
            r is Err ==> *final(self) == *old(self),
    {
        let rec = match self.record {
            None => return Err(AuctionError::NotInitialized),
            Some(rec) => rec,
        };
        if rec.status != AuctionStatus::Active {
            return Err(AuctionError::NotActive);
        }
        if now >= rec.end_time {
            return Err(AuctionError::AuctionEnded);
        }
        if args.amount <= rec.current_highest_bid {
            return Err(AuctionError::BidTooLow);
        }
        self.bids.insert(caller, args.amount);
        let updated = AuctionData {
            current_highest_bid: args.amount,
            highest_bidder: Some(caller),
            ..rec
        };
        self.record = Some(updated);
        proof {
            let bids = self.bids();
            assert(bids.dom().contains(caller));
            assert forall|b: Principal| #[trigger]
                bids.contains_key(b) implies rec.starting_price < bids[b] <= args.amount by {
                if b != caller {
                    assert(old(self).bids().contains_key(b));
                }
            }
        }
        Ok(BidNotice {
            factory_canister: rec.factory_canister,
            auction_id: rec.id,
            amount: args.amount,
            bidder: caller,
        })
    }

    /// Cancels the auction on behalf of `caller`, who must be the seller, while
    /// no bid has been accepted.
    pub fn cancel_auction(&mut self, caller: Principal) -> (r: Result<Settlement, AuctionError>)
        requires
            old(self).wf(),
        ensures
            final(self).wf(),
            final(self).factory() == old(self).factory(),
            r is Ok <==> cancel_error(old(self).record(), caller) is None,
            r is Ok ==> AuctionInstance::closed_with(*old(self), *final(self), AuctionStatus::Cancelled),
            r is Ok ==> r == Ok::<Settlement, AuctionError>(
                settlement(old(self).record().unwrap(), old(self).timer_pending(), AuctionStatus::Cancelled),
            ),
            r is Err ==> r == Err::<Settlement, AuctionError>(
                cancel_error(old(self).record(), caller).unwrap(),
            ),
            r is Err ==> *final(self) == *old(self),
    {
        let rec = match self.record {
            None => return Err(AuctionError::NotInitialized),
            Some(rec) => rec,
        };
        if !(caller == rec.seller) {
            return Err(AuctionError::NotSeller);
        }
        if rec.highest_bidder.is_some() {
            return Err(AuctionError::BidsExist);
        }
        if rec.status != AuctionStatus::Active {
            return Err(AuctionError::NotActive);
        }
        Ok(self.close(rec, AuctionStatus::Cancelled))
    }

    /// Ends the auction. The asset goes to the highest bidder, if any.
    pub fn end_auction(&mut self) -> (r: Result<Settlement, AuctionError>)
        requires
            old(self).wf(),
        ensures
            final(self).wf(),
            final(self).factory() == old(self).factory(),
            r is Ok <==> end_error(old(self).record()) is None,
            r is Ok ==> AuctionInstance::closed_with(*old(self), *final(self), AuctionStatus::Ended),
            r is Ok ==> r == Ok::<Settlement, AuctionError>(
                settlement(old(self).record().unwrap(), old(self).timer_pending(), AuctionStatus::Ended),
            ),
            r is Err ==> r == Err::<Settlement, AuctionError>(end_error(old(self).record()).unwrap()),
            r is Err ==> *final(self) == *old(self),
    {
        let rec = match self.record {
            None => return Err(AuctionError::NotInitialized),
            Some(rec) => rec,
        };
        if rec.status != AuctionStatus::Active {
            return Err(AuctionError::NotActive);
        }
        Ok(self.close(rec, AuctionStatus::Ended))
    }

    /// Moves an active record to `status`, clears the timer, and returns the
    /// outbound work.
    fn close(&mut self, rec: AuctionData, status: AuctionStatus) -> (r: Settlement)
        requires
            old(self).wf(),
            old(self).record() == Some(rec),
            rec.status == AuctionStatus::Active,
            status != AuctionStatus::Active,
        ensures
            final(self).wf(),
            final(self).factory() == old(self).factory(),
            AuctionInstance::closed_with(*old(self), *final(self), status),
            r == settlement(rec, old(self).timer_pending(), status),
    {
        let cancel_timer = self.timer_pending;
        self.timer_pending = false;
        self.record = Some(AuctionData { status, ..rec });
        let transfer = match rec.highest_bidder {
            Some(winner) => if status == AuctionStatus::Ended {
                Some(
                    AssetTransfer {
                        nft_canister: rec.nft_canister,
                        from: rec.seller,
                        to: winner,
                        token_id: rec.token_id,
                    },
                )
            } else {
                None
            },
            None => None,
        };
        Settlement {
            cancel_timer,
            transfer,
            notice: StatusNotice { factory_canister: rec.factory_canister, auction_id: rec.id, status },
        }
    }

    /// Sets up the record, active, and asks for a settlement timer: the result
    /// is its delay in nanoseconds from `now`. Only the factory that installed
    /// the instance may initialize it, and only once.
    pub fn init_auction(
        &mut self,
        caller: Principal,
        id: u64,
        seller: Principal,
        nft_canister: Principal,
        token_id: u128,
        starting_price: u128,
        end_time: u64,
        now: u64,
    ) -> (r: Result<u64, AuctionError>)
        requires
            old(self).wf(),
        ensures
            final(self).wf(),
            final(self).factory() == old(self).factory(),
            r is Ok <==> init_error(old(self).record(), old(self).factory(), caller) is None,
            r is Err ==> r == Err::<u64, AuctionError>(
                init_error(old(self).record(), old(self).factory(), caller).unwrap(),
            ),
            r is Err ==> *final(self) == *old(self),
            r is Ok ==> r == Ok::<u64, AuctionError>(timer_delay(end_time, now)),
            r is Ok ==> final(self).record() == Some(
                initial_record(id, seller, nft_canister, token_id, starting_price, end_time, old(self).factory()),
            ),
            r is Ok ==> final(self).bids() == old(self).bids(),
            r is Ok ==> final(self).timer_pending(),
    {
        if !(caller == self.factory) {
            return Err(AuctionError::NotFactory);
        }
        if self.record.is_some() {
            return Err(AuctionError::AlreadyInitialized);
        }
        self.record = Some(
            AuctionData {
                id,
                seller,
                nft_canister,
                token_id,
                starting_price,
                current_highest_bid: starting_price,
                highest_bidder: None,
                end_time,
                status: AuctionStatus::Active,
                factory_canister: self.factory,
            },
        );
        self.timer_pending = true;
        Ok(end_time.saturating_sub(now))
    }

    /// The current record, if initialized.
    pub fn get_auction_info(&self) -> (r: Option<AuctionData>)
        ensures
            r == self.record(),
    {
        self.record
    }

    /// The last accepted bid of `bidder`, if any.
    pub fn get_bid(&self, bidder: Principal) -> (r: Option<u128>)
        ensures
            r == (if self.bids().contains_key(bidder) {
                Some(self.bids()[bidder])
            } else {
                None
            }),
    {
        self.bids.get(&bidder)
    }

    /// Every bidder with that bidder's last accepted bid, each bidder once, in
    /// ascending order of bidder.
    pub fn get_all_bids(&self) -> (r: Vec<(Principal, u128)>)
        ensures
            r@.len() == self.bids().dom().len(),
            forall|i: int|
                0 <= i < r@.len() ==> self.bids().contains_key(#[trigger] r@[i].0)
                    && self.bids()[r@[i].0] == r@[i].1,
            forall|i: int, j: int| 0 <= i < j < r@.len() ==> #[trigger] r@[i].0 != #[trigger] r@[j].0,
            forall|i: int, j: int|
                0 <= i < j < r@.len() ==> principal_cmp(#[trigger] r@[i].0, #[trigger] r@[j].0)
                    == Ordering::Less,
            forall|b: Principal| #[trigger]
                self.bids().contains_key(b) ==> r@.contains((b, self.bids()[b])),
    {
        self.bids.entries()
    }
}

} // verus!
