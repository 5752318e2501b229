//! Properties that relate several operations, or many calls of one.
use crate::auction::{
    bid_error, cancel_error, end_error, AuctionData, AuctionError, AuctionInstance, AuctionStatus,
};
use crate::factory::{active_entries, entries_of_seller, is_active, AuctionFactory, AuctionInfo};
use candid::Principal;
use vstd::prelude::*;

verus! {

/// A chain of values that rises at every step rises between any two points.
proof fn lemma_rising_chain(f: spec_fn(int) -> int, n: int)
    requires
        forall|k: int| 0 <= k < n - 1 ==> #[trigger] f(k) < f(k + 1),
    ensures
        forall|i: int, j: int| 0 <= i < j < n ==> #[trigger] f(i) < #[trigger] f(j),
    decreases n,
{
    if n > 1 {
        lemma_rising_chain(f, n - 1);
        assert forall|i: int, j: int| 0 <= i < j < n implies #[trigger] f(i) < #[trigger] f(j) by {
            if j < n - 1 {
            } else if i < n - 2 {
                assert(f(i) < f(n - 2));
                assert(f(n - 2) < f(n - 1));
            }
        }
    }
}

/// Over any run of accepted bids on one auction, the highest bid strictly
/// rises from each state to every later one, and each accepted amount
/// becomes the highest bid.
pub proof fn lemma_highest_bid_strictly_rises(
    states: Seq<AuctionInstance>,
    callers: Seq<Principal>,
    amounts: Seq<u128>,
    times: Seq<u64>,
)
    requires
        states.len() == amounts.len() + 1,
        callers.len() == amounts.len(),
        times.len() == amounts.len(),
        forall|k: int|
            0 <= k < amounts.len() ==> #[trigger] AuctionInstance::bid_accepted(
                states[k],
                states[k + 1],
                callers[k],
                amounts[k],
                times[k],
            ),
    ensures
        amounts.len() > 0 ==> forall|k: int|
            0 <= k < states.len() ==> (#[trigger] states[k].record()) is Some,
        forall|k: int|
            0 <= k < amounts.len() ==> states[k + 1].record().unwrap().current_highest_bid
                == #[trigger] amounts[k],
        forall|i: int, j: int|
            0 <= i < j < states.len() ==> (#[trigger] states[i].record()).unwrap().current_highest_bid
                < (#[trigger] states[j].record()).unwrap().current_highest_bid,
{
    let f = |k: int| states[k].record().unwrap().current_highest_bid as int;
    assert forall|k: int| 0 <= k < states.len() && amounts.len() > 0 implies (#[trigger] states[k].record()) is Some by {
        if k < amounts.len() {
            assert(AuctionInstance::bid_accepted(states[k], states[k + 1], callers[k], amounts[k], times[k]));
        } else {
            let j = k - 1;
            assert(AuctionInstance::bid_accepted(states[j], states[j + 1], callers[j], amounts[j], times[j]));
        }
    }
    assert forall|k: int| 0 <= k < states.len() - 1 implies #[trigger] f(k) < f(k + 1) by {
        assert(AuctionInstance::bid_accepted(states[k], states[k + 1], callers[k], amounts[k], times[k]));
    }
    lemma_rising_chain(f, states.len() as int);
    assert forall|i: int, j: int| 0 <= i < j < states.len() implies (#[trigger] states[i].record()).unwrap().current_highest_bid
        < (#[trigger] states[j].record()).unwrap().current_highest_bid by {
        assert(f(i) < f(j));
    }
    assert forall|k: int| 0 <= k < amounts.len() implies states[k + 1].record().unwrap().current_highest_bid
        == #[trigger] amounts[k] by {
        assert(AuctionInstance::bid_accepted(states[k], states[k + 1], callers[k], amounts[k], times[k]));
    }
}

/// A bid fails on an uninitialized auction, and on an initialized one when
/// it does not exceed the highest bid, when the auction is not active, or
/// when the end time has been reached.
pub proof fn lemma_bid_rejected(rec: Option<AuctionData>, amount: u128, now: u64)
    requires
        rec matches Some(r) ==> amount <= r.current_highest_bid || r.status != AuctionStatus::Active
            || now >= r.end_time,
    ensures
        bid_error(rec, amount, now) is Some,
{
}

/// On an active auction, cancelling succeeds exactly when the caller is the
/// seller and no bid has been accepted; otherwise the error names the first
/// of the two that fails.
pub proof fn lemma_cancel_conditions(inst: AuctionInstance, caller: Principal)
    requires
        inst.wf(),
        inst.record() is Some,
        inst.record().unwrap().status == AuctionStatus::Active,
    ensures
        cancel_error(inst.record(), caller) is None <==> (caller == inst.record().unwrap().seller
            && inst.bids().dom() == Set::<Principal>::empty()),
        caller != inst.record().unwrap().seller ==> cancel_error(inst.record(), caller) == Some(
            AuctionError::NotSeller,
        ),
        caller == inst.record().unwrap().seller && inst.bids().dom() != Set::<Principal>::empty()
            ==> cancel_error(inst.record(), caller) == Some(AuctionError::BidsExist),
{
}

/// Ending moves an active auction to `Ended`; after that, ending again fails
/// with `NotActive`, and so do bids, while a cancel fails too, so that no
/// later operation changes the record.
pub proof fn lemma_end_happens_once(
    before: AuctionInstance,
    after: AuctionInstance,
    caller: Principal,
    amount: u128,
    now: u64,
)
    requires
        AuctionInstance::closed_with(before, after, AuctionStatus::Ended),
    ensures
        end_error(before.record()) is None,
        after.record().unwrap().status == AuctionStatus::Ended,
        end_error(after.record()) == Some(AuctionError::NotActive),
        bid_error(after.record(), amount, now) == Some(AuctionError::NotActive),
        cancel_error(after.record(), caller) is Some,
{
}

/// An auction that has left `Active` stays where it is: every bid, end and
/// cancel on it fails, and a failed operation leaves the instance unchanged.
pub proof fn lemma_closed_is_terminal(
    rec: AuctionData,
    caller: Principal,
    amount: u128,
    now: u64,
)
    requires
        rec.status != AuctionStatus::Active,
    ensures
        bid_error(Some(rec), amount, now) == Some(AuctionError::NotActive),
        end_error(Some(rec)) == Some(AuctionError::NotActive),
        cancel_error(Some(rec), caller) is Some,
{
}

/// Identifiers issued by successive `create_auction` calls on a new factory
/// are 1, 2, 3, ...: unique and strictly increasing. Between two calls,
/// `before[k + 1]` may follow `after[k]` through other operations, none of
/// which moves the counter.
pub proof fn lemma_issued_ids_increase(
    before: Seq<AuctionFactory>,
    after: Seq<AuctionFactory>,
    ids: Seq<u64>,
)
    requires
        before.len() == ids.len(),
        after.len() == ids.len(),
        ids.len() > 0 ==> before[0].next_id() == 1,
        forall|k: int|
            0 <= k < ids.len() ==> #[trigger] AuctionFactory::issued(before[k], after[k], ids[k]),
        forall|k: int|
            0 <= k < ids.len() - 1 ==> #[trigger] before[k + 1].next_id() == after[k].next_id(),
    ensures
        forall|k: int| 0 <= k < ids.len() ==> #[trigger] ids[k] == k + 1,
        forall|i: int, j: int| 0 <= i < j < ids.len() ==> #[trigger] ids[i] < #[trigger] ids[j],
    decreases ids.len(),
{
    if ids.len() > 0 {
        let n = ids.len() - 1;
        lemma_issued_ids_increase(before.drop_last(), after.drop_last(), ids.drop_last());
        assert(AuctionFactory::issued(before[n], after[n], ids[n]));
        if n > 0 {
            assert(ids.drop_last()[n - 1] == n);
            assert(AuctionFactory::issued(before[n - 1], after[n - 1], ids[n - 1]));
            assert(before[n].next_id() == after[n - 1].next_id());
        }
        assert forall|k: int| 0 <= k < ids.len() implies #[trigger] ids[k] == k + 1 by {
            if k < n {
                assert(ids.drop_last()[k] == k + 1);
            }
        }
    }
}

/// The active listing holds exactly the directory's active entries, and the
/// listing of a seller exactly that seller's entries.
pub proof fn lemma_listings_exact(directory: Seq<AuctionInfo>, seller: Principal, e: AuctionInfo)
    ensures
        active_entries(directory).contains(e) <==> (directory.contains(e) && e.status
            == AuctionStatus::Active),
        entries_of_seller(directory, seller).contains(e) <==> (directory.contains(e) && e.seller
            == seller),
{
    let active = |x: AuctionInfo| is_active(x);
    let of_seller = |x: AuctionInfo| x.seller == seller;
    if active_entries(directory).contains(e) {
        directory.lemma_filter_contains_rev(active, e);
        let i = choose|i: int| 0 <= i < directory.filter(active).len() && directory.filter(active)[i] == e;
        directory.lemma_filter_pred(active, i);
    }
    if directory.contains(e) && e.status == AuctionStatus::Active {
        let i = choose|i: int| 0 <= i < directory.len() && directory[i] == e;
        directory.lemma_filter_contains(active, i);
    }
    if entries_of_seller(directory, seller).contains(e) {
        directory.lemma_filter_contains_rev(of_seller, e);
        let i = choose|i: int|
            0 <= i < directory.filter(of_seller).len() && directory.filter(of_seller)[i] == e;
        directory.lemma_filter_pred(of_seller, i);
    }
    if directory.contains(e) && e.seller == seller {
        let i = choose|i: int| 0 <= i < directory.len() && directory[i] == e;
        directory.lemma_filter_contains(of_seller, i);
    }
}

} // verus!
