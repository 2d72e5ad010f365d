use auction::account::AccountIdWrapper;
use auction::auction::{Auction, Command, Error, Request, Response};
use auction::contract::{TransactionStatus, TxRef, AUCTION_HOUSE};

const A: [u8; 32] = [1u8; 32];
const B: [u8; 32] = [2u8; 32];

fn txref() -> TxRef {
    TxRef { blocknum: 1, index: 0 }
}

fn bid(auction: &mut Auction, origin: &[u8; 32], value: u32) -> TransactionStatus {
    auction.handle_command(origin, &txref(), Command::PlaceBid { value })
}

#[test]
fn scenario_outbid_and_repeat() {
    let mut a = Auction::new();
    assert_eq!(bid(&mut a, &A, 10), TransactionStatus::Success);
    assert_eq!(bid(&mut a, &B, 15), TransactionStatus::Success);
    assert_eq!(bid(&mut a, &A, 12), TransactionStatus::Success);
    assert_eq!(bid(&mut a, &B, 15), TransactionStatus::Success);
    assert_eq!(a.winner(), Some(AccountIdWrapper(B)));
    assert_eq!(a.winning_bid(), 15);
    assert_eq!(a.bid_of(&AccountIdWrapper(A)), Some(12));
    assert_eq!(a.bid_of(&AccountIdWrapper(B)), Some(15));
}

#[test]
fn fresh_state_has_no_winner() {
    let mut a = Auction::new();
    let resp = a.handle_query(None, Request::GetWinner);
    assert_eq!(resp, Response::GetWinner { winner: None });
    assert_eq!(a.winning_bid(), 0);
    assert_eq!(a.bid_of(&AccountIdWrapper(A)), None);
}

#[test]
fn single_bid_wins() {
    let mut a = Auction::new();
    bid(&mut a, &A, 5);
    assert_eq!(a.winner(), Some(AccountIdWrapper(A)));
    assert_eq!(a.winning_bid(), 5);
    let resp = a.handle_query(Some(&B), Request::GetWinner);
    assert_eq!(resp, Response::GetWinner { winner: Some(AccountIdWrapper(A)) });
}

#[test]
fn winning_bid_never_decreases() {
    let mut a = Auction::new();
    let mut last = a.winning_bid();
    for (origin, value) in [(A, 7u32), (B, 3), (A, 9), (B, 9), (A, 1), (B, 20), (B, 2)] {
        bid(&mut a, &origin, value);
        assert!(a.winning_bid() >= last);
        last = a.winning_bid();
    }
    assert_eq!(last, 20);
}

#[test]
fn winner_entry_matches_winning_bid() {
    let mut a = Auction::new();
    for (origin, value) in [(A, 4u32), (B, 8), (A, 8), (A, 11)] {
        bid(&mut a, &origin, value);
        let w = a.winner().unwrap();
        assert_eq!(a.bid_of(&w), Some(a.winning_bid()));
    }
}

#[test]
fn winner_lowering_own_bid_keeps_lead() {
    let mut a = Auction::new();
    bid(&mut a, &A, 10);
    bid(&mut a, &A, 5);
    assert_eq!(a.winner(), Some(AccountIdWrapper(A)));
    assert_eq!(a.winning_bid(), 10);
    assert_eq!(a.bid_of(&AccountIdWrapper(A)), Some(5));
}

#[test]
fn repeated_query_gives_same_response() {
    let mut a = Auction::new();
    bid(&mut a, &A, 3);
    bid(&mut a, &B, 6);
    let first = a.handle_query(None, Request::GetWinner);
    let second = a.handle_query(Some(&A), Request::GetWinner);
    assert_eq!(first, second);
    assert_eq!(first, Response::GetWinner { winner: Some(AccountIdWrapper(B)) });
}

#[test]
fn equal_bid_does_not_take_lead() {
    let mut a = Auction::new();
    bid(&mut a, &A, 30);
    bid(&mut a, &B, 30);
    assert_eq!(a.winner(), Some(AccountIdWrapper(A)));
    assert_eq!(a.winning_bid(), 30);
    assert_eq!(a.bid_of(&AccountIdWrapper(B)), Some(30));
}

#[test]
fn ledger_keeps_latest_not_largest() {
    let mut a = Auction::new();
    bid(&mut a, &A, 50);
    bid(&mut a, &B, 10);
    bid(&mut a, &B, 40);
    bid(&mut a, &B, 25);
    assert_eq!(a.bid_of(&AccountIdWrapper(A)), Some(50));
    assert_eq!(a.bid_of(&AccountIdWrapper(B)), Some(25));
}

#[test]
fn zero_first_bid_is_recorded_without_winner() {
    let mut a = Auction::new();
    bid(&mut a, &A, 0);
    assert_eq!(a.winner(), None);
    assert_eq!(a.winning_bid(), 0);
    assert_eq!(a.bid_of(&AccountIdWrapper(A)), Some(0));
}

#[test]
fn largest_bid_value() {
    let mut a = Auction::new();
    bid(&mut a, &A, u32::MAX - 1);
    bid(&mut a, &B, u32::MAX);
    bid(&mut a, &A, u32::MAX);
    assert_eq!(a.winner(), Some(AccountIdWrapper(B)));
    assert_eq!(a.winning_bid(), u32::MAX);
}

#[test]
fn accounts_differing_in_last_byte_are_distinct() {
    let mut a = Auction::new();
    let mut c = A;
    c[31] = 9;
    bid(&mut a, &A, 1);
    bid(&mut a, &c, 2);
    assert_eq!(a.bid_of(&AccountIdWrapper(A)), Some(1));
    assert_eq!(a.bid_of(&AccountIdWrapper(c)), Some(2));
    assert!(!AccountIdWrapper(A).same_as(&AccountIdWrapper(c)));
    assert!(AccountIdWrapper(c).same_as(&AccountIdWrapper(c)));
}

#[test]
fn contract_id_is_fixed() {
    let a = Auction::new();
    assert_eq!(a.id(), AUCTION_HOUSE);
}

#[test]
fn error_response_variants_exist() {
    let resp = Response::Error(Error::NotAuthorized);
    assert_ne!(resp, Response::Error(Error::SomeOtherError));
}
