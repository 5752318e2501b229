use auction_market::auction::{
    AuctionError, AuctionInstance, AuctionStatus, BidArgs,
};
use candid::Principal;

fn principal(n: u8) -> Principal {
    Principal::from_slice(&[n, 1, 2])
}

fn seller() -> Principal {
    principal(1)
}

fn factory() -> Principal {
    principal(9)
}

fn nft() -> Principal {
    principal(8)
}

fn started(starting_price: u128, end_time: u64, now: u64) -> AuctionInstance {
    let mut inst = AuctionInstance::new(factory());
    inst.init_auction(factory(), 7, seller(), nft(), 42, starting_price, end_time, now)
        .unwrap();
    inst
}

#[test]
fn bids_then_timer_settles_to_highest_bidder() {
    let a = principal(2);
    let b = principal(3);
    let mut inst = AuctionInstance::new(factory());
    let delay = inst
        .init_auction(factory(), 7, seller(), nft(), 42, 100, 1_000, 400)
        .unwrap();
    assert_eq!(delay, 600);

    let notice = inst.place_bid(a, BidArgs { amount: 150 }, 500).unwrap();
    assert_eq!(notice.amount, 150);
    assert_eq!(notice.bidder, a);
    assert_eq!(notice.auction_id, 7);
    assert_eq!(notice.factory_canister, factory());
    let rec = inst.get_auction_info().unwrap();
    assert_eq!(rec.current_highest_bid, 150);
    assert_eq!(rec.highest_bidder, Some(a));

    let low = inst.place_bid(b, BidArgs { amount: 120 }, 600);
    assert_eq!(low.unwrap_err(), AuctionError::BidTooLow);
    assert_eq!(inst.get_bid(b), None);

    inst.place_bid(b, BidArgs { amount: 200 }, 700).unwrap();
    let rec = inst.get_auction_info().unwrap();
    assert_eq!(rec.current_highest_bid, 200);
    assert_eq!(rec.highest_bidder, Some(b));

    // the settlement timer fires at the end time
    let settlement = inst.end_auction().unwrap();
    assert!(settlement.cancel_timer);
    let transfer = settlement.transfer.unwrap();
    assert_eq!(transfer.from, seller());
    assert_eq!(transfer.to, b);
    assert_eq!(transfer.token_id, 42);
    assert_eq!(transfer.nft_canister, nft());
    assert_eq!(settlement.notice.status, AuctionStatus::Ended);
    assert_eq!(settlement.notice.auction_id, 7);
    assert_eq!(inst.get_auction_info().unwrap().status, AuctionStatus::Ended);
}

#[test]
fn cancel_without_bids_then_bids_fail() {
    let mut inst = started(100, 1_000, 0);
    let settlement = inst.cancel_auction(seller()).unwrap();
    assert!(settlement.cancel_timer);
    assert!(settlement.transfer.is_none());
    assert_eq!(settlement.notice.status, AuctionStatus::Cancelled);
    assert_eq!(inst.get_auction_info().unwrap().status, AuctionStatus::Cancelled);
    let r = inst.place_bid(principal(2), BidArgs { amount: 500 }, 10);
    assert_eq!(r.unwrap_err(), AuctionError::NotActive);
    assert_eq!(inst.end_auction().unwrap_err(), AuctionError::NotActive);
}

#[test]
fn cancel_by_other_than_seller_fails() {
    let mut inst = started(100, 1_000, 0);
    assert_eq!(
        inst.cancel_auction(principal(2)).unwrap_err(),
        AuctionError::NotSeller
    );
    assert_eq!(inst.get_auction_info().unwrap().status, AuctionStatus::Active);
}

#[test]
fn cancel_after_a_bid_fails() {
    let mut inst = started(100, 1_000, 0);
    inst.place_bid(principal(2), BidArgs { amount: 101 }, 1).unwrap();
    assert_eq!(
        inst.cancel_auction(seller()).unwrap_err(),
        AuctionError::BidsExist
    );
    assert_eq!(inst.get_auction_info().unwrap().status, AuctionStatus::Active);
}

#[test]
fn cancel_after_end_fails() {
    let mut inst = started(100, 1_000, 0);
    inst.end_auction().unwrap();
    assert_eq!(
        inst.cancel_auction(seller()).unwrap_err(),
        AuctionError::NotActive
    );
    assert_eq!(inst.get_auction_info().unwrap().status, AuctionStatus::Ended);
}

#[test]
fn end_happens_once() {
    let mut inst = started(100, 1_000, 0);
    let first = inst.end_auction().unwrap();
    assert!(first.cancel_timer);
    assert!(first.transfer.is_none());
    assert_eq!(inst.end_auction().unwrap_err(), AuctionError::NotActive);
    assert_eq!(inst.end_auction().unwrap_err(), AuctionError::NotActive);
}

#[test]
fn operations_before_init_fail() {
    let mut inst = AuctionInstance::new(factory());
    assert!(inst.get_auction_info().is_none());
    assert_eq!(
        inst.place_bid(principal(2), BidArgs { amount: 5 }, 0).unwrap_err(),
        AuctionError::NotInitialized
    );
    assert_eq!(inst.end_auction().unwrap_err(), AuctionError::NotInitialized);
    assert_eq!(
        inst.cancel_auction(seller()).unwrap_err(),
        AuctionError::NotInitialized
    );
}

#[test]
fn init_twice_fails() {
    let mut inst = started(100, 1_000, 0);
    let again = inst.init_auction(factory(), 8, principal(5), nft(), 1, 1, 5, 0);
    assert_eq!(again.unwrap_err(), AuctionError::AlreadyInitialized);
    let rec = inst.get_auction_info().unwrap();
    assert_eq!(rec.id, 7);
    assert_eq!(rec.seller, seller());
}

#[test]
fn init_sets_record_and_past_end_gives_zero_delay() {
    let mut inst = AuctionInstance::new(factory());
    let delay = inst
        .init_auction(factory(), 3, seller(), nft(), 9, 250, 100, 150)
        .unwrap();
    assert_eq!(delay, 0);
    let rec = inst.get_auction_info().unwrap();
    assert_eq!(rec.id, 3);
    assert_eq!(rec.token_id, 9);
    assert_eq!(rec.starting_price, 250);
    assert_eq!(rec.current_highest_bid, 250);
    assert_eq!(rec.highest_bidder, None);
    assert_eq!(rec.end_time, 100);
    assert_eq!(rec.status, AuctionStatus::Active);
    assert_eq!(rec.factory_canister, factory());
}

#[test]
fn bid_at_end_time_fails() {
    let mut inst = started(100, 1_000, 0);
    let r = inst.place_bid(principal(2), BidArgs { amount: 500 }, 1_000);
    assert_eq!(r.unwrap_err(), AuctionError::AuctionEnded);
    let r = inst.place_bid(principal(2), BidArgs { amount: 500 }, 999);
    assert!(r.is_ok());
}

#[test]
fn bid_equal_to_highest_fails() {
    let mut inst = started(100, 1_000, 0);
    let r = inst.place_bid(principal(2), BidArgs { amount: 100 }, 1);
    assert_eq!(r.unwrap_err(), AuctionError::BidTooLow);
    inst.place_bid(principal(2), BidArgs { amount: 130 }, 1).unwrap();
    let r = inst.place_bid(principal(3), BidArgs { amount: 130 }, 2);
    assert_eq!(r.unwrap_err(), AuctionError::BidTooLow);
}

#[test]
fn highest_bid_strictly_rises_over_accepted_bids() {
    let mut inst = started(10, 1_000, 0);
    let amounts = [11u128, 20, 21, 500, 501];
    let mut last = inst.get_auction_info().unwrap().current_highest_bid;
    for (k, amount) in amounts.iter().enumerate() {
        inst.place_bid(principal(2 + (k % 2) as u8), BidArgs { amount: *amount }, k as u64)
            .unwrap();
        let now = inst.get_auction_info().unwrap().current_highest_bid;
        assert!(now > last);
        last = now;
    }
    assert_eq!(last, 501);
}

#[test]
fn ledger_keeps_last_accepted_bid_per_bidder() {
    let a = principal(2);
    let b = principal(3);
    let mut inst = started(10, 1_000, 0);
    inst.place_bid(a, BidArgs { amount: 20 }, 1).unwrap();
    inst.place_bid(b, BidArgs { amount: 30 }, 2).unwrap();
    inst.place_bid(a, BidArgs { amount: 40 }, 3).unwrap();
    assert_eq!(inst.get_bid(a), Some(40));
    assert_eq!(inst.get_bid(b), Some(30));
    assert_eq!(inst.get_bid(principal(4)), None);
    let all = inst.get_all_bids();
    assert!(a < b);
    assert_eq!(all, vec![(a, 40), (b, 30)]);
}

#[test]
fn all_bids_come_in_ascending_bidder_order() {
    let a = principal(2);
    let b = principal(3);
    let c = Principal::from_slice(&[1]);
    assert!(c < a && a < b);
    let mut inst = started(100, 1_000, 0);
    inst.place_bid(b, BidArgs { amount: 150 }, 1).unwrap();
    assert!(inst.place_bid(a, BidArgs { amount: 120 }, 2).is_err());
    inst.place_bid(a, BidArgs { amount: 200 }, 3).unwrap();
    inst.place_bid(c, BidArgs { amount: 250 }, 4).unwrap();
    assert_eq!(inst.get_all_bids(), vec![(c, 250), (a, 200), (b, 150)]);
}

#[test]
fn init_by_other_than_factory_fails() {
    let mut inst = AuctionInstance::new(factory());
    let r = inst.init_auction(seller(), 7, seller(), nft(), 42, 100, 1_000, 0);
    assert_eq!(r.unwrap_err(), AuctionError::NotFactory);
    assert!(inst.get_auction_info().is_none());
    assert!(inst.init_auction(factory(), 7, seller(), nft(), 42, 100, 1_000, 0).is_ok());
}

#[test]
fn separate_instances_keep_separate_ledgers() {
    let mut one = started(100, 1_000, 0);
    let two = started(100, 1_000, 0);
    one.place_bid(principal(2), BidArgs { amount: 300 }, 1).unwrap();
    assert_eq!(one.get_bid(principal(2)), Some(300));
    assert_eq!(two.get_bid(principal(2)), None);
    assert!(two.get_all_bids().is_empty());
}

#[test]
fn error_messages() {
    assert_eq!(AuctionError::NotInitialized.message(), "Auction not initialized");
    assert_eq!(AuctionError::NotActive.message(), "Auction is not active");
    assert_eq!(AuctionError::AuctionEnded.message(), "Auction has ended");
    assert_eq!(
        AuctionError::BidTooLow.message(),
        "Bid must be higher than current highest bid"
    );
    assert_eq!(AuctionError::NotSeller.message(), "Only seller can cancel auction");
    assert_eq!(
        AuctionError::BidsExist.message(),
        "Cannot cancel auction with existing bids"
    );
    assert_eq!(
        AuctionError::NotFactory.message(),
        "Only the factory can initialize the auction"
    );
    assert_eq!(
        AuctionError::AlreadyInitialized.message(),
        "Auction already initialized"
    );
}
