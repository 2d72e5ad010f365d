use vstd::prelude::*;

use crate::account::{AccountId, AccountIdWrapper};
use crate::contract::{ContractId, TransactionStatus, TxRef, AUCTION_HOUSE};

verus! {

/// The commands that the contract accepts from the blockchain. Also called transactions.
/// Commands update the state of the contract.
#[derive(Clone, Copy, Debug, PartialEq, Eq)]
pub enum Command {
    /// Records the origin's bid, replacing any earlier bid of the same account.
    PlaceBid { value: u32 },
}

/// The errors that the contract can report for some queries.
#[derive(Clone, Copy, Debug, PartialEq, Eq)]
pub enum Error {
    NotAuthorized,
    SomeOtherError,
}

/// Query requests. End users read the contract state only by sending requests;
/// queries never write to it.
#[derive(Clone, Copy, Debug, PartialEq, Eq)]
pub enum Request {
    /// Asks for the account that currently holds the highest bid.
    GetWinner,
}

/// Query responses.
#[derive(Clone, Copy, Debug, PartialEq, Eq)]
pub enum Response {
    GetWinner { winner: Option<AccountIdWrapper> },
    Error(Error),
}

/// The auction state as a mathematical value: the ledger maps the bytes of each
/// account that has bid to its latest bid.
pub struct AuctionModel {
    pub bids: Map<Seq<u8>, u32>,
    pub winner: Option<AccountIdWrapper>,
    pub winning_bid: u32,
}

/// The state before any bid.
pub open spec fn initial_model() -> AuctionModel {
    AuctionModel { bids: Map::empty(), winner: None, winning_bid: 0 }
}

/// The effect of a bid of `value` by `origin`: the ledger entry of `origin` becomes
/// `value`, and the bid takes the lead only when strictly above the current maximum.
pub open spec fn place_bid(m: AuctionModel, origin: AccountIdWrapper, value: u32) -> AuctionModel {
    AuctionModel {
        bids: m.bids.insert(origin@, value),
        winner: if value > m.winning_bid { Some(origin) } else { m.winner },
        winning_bid: if value > m.winning_bid { value } else { m.winning_bid },
    }
}

/// The effect of a command submitted by `origin`.
pub open spec fn apply_command(m: AuctionModel, origin: AccountIdWrapper, cmd: Command) -> AuctionModel {
    match cmd {
        Command::PlaceBid { value } => place_bid(m, origin, value),
    }
}

/// The answer to a query, or the error it reports.
pub open spec fn evaluate_query(m: AuctionModel, req: Request) -> Result<Response, Error> {
    match req {
        Request::GetWinner => Ok(Response::GetWinner { winner: m.winner }),
    }
}

/// A query result with any error folded into the response.
pub open spec fn into_response(res: Result<Response, Error>) -> Response {
    match res {
        Ok(resp) => resp,
        Err(error) => Response::Error(error),
    }
}

/// The response to a query on the state `m`.
pub open spec fn respond(m: AuctionModel, req: Request) -> Response {
    into_response(evaluate_query(m, req))
}

impl AuctionModel {
    /// The invariants of the ledger: there is a winner exactly when the highest bid
    /// is above zero, the winner has an entry, and no entry exceeds the highest bid.
    pub open spec fn consistent(self) -> bool {
        &&& (self.winner is None <==> self.winning_bid == 0)
        &&& (self.winner matches Some(w) ==> self.bids.contains_key(w@))
        &&& forall|k: Seq<u8>| #[trigger] self.bids.contains_key(k) ==> self.bids[k] <= self.winning_bid
    }
}

/// The auction contract: a ledger of bids and the account holding the highest one.
pub struct Auction {
    bids: Vec<(AccountIdWrapper, u32)>,
    ledger: Ghost<Map<Seq<u8>, u32>>,
    winner: Option<AccountIdWrapper>,
    winning_bid: u32,
}

impl View for Auction {
    type V = AuctionModel;

    closed spec fn view(&self) -> AuctionModel {
        AuctionModel { bids: self.ledger@, winner: self.winner, winning_bid: self.winning_bid }
    }
}

impl Auction {
    /// The stored entries have distinct accounts, and they are exactly the ledger.
    closed spec fn entries_match_ledger(&self) -> bool {
        &&& forall|i: int, j: int|
            0 <= i < j < self.bids@.len() ==> (#[trigger] self.bids@[i]).0@ != (#[trigger] self.bids@[j]).0@
        &&& forall|i: int|
            0 <= i < self.bids@.len() ==> self.ledger@.contains_key((#[trigger] self.bids@[i]).0@)
                && self.ledger@[self.bids@[i].0@] == self.bids@[i].1
        &&& forall|k: Seq<u8>|
            #[trigger] self.ledger@.contains_key(k) ==> exists|i: int|
                0 <= i < self.bids@.len() && (#[trigger] self.bids@[i]).0@ == k
    }

    /// The well-formedness of the contract state.
    pub closed spec fn wf(&self) -> bool {
        &&& self.entries_match_ledger()
        &&& self@.consistent()
    }

    /// Initializes the contract with an empty ledger and no winner.
    pub fn new() -> (r: Auction)
        ensures
            r.wf(),
            r@ == initial_model(),
    {
        Auction { bids: Vec::new(), ledger: Ghost(Map::empty()), winner: None, winning_bid: 0 }
    }

    /// The identifier under which the host routes envelopes to this contract.
    pub fn id(&self) -> (r: ContractId)
        ensures
            r == AUCTION_HOUSE,
    {
        AUCTION_HOUSE
    }

    /// The position of `account`'s entry in the stored list, if it has one.
    fn find_entry(&self, account: &AccountIdWrapper) -> (r: Option<usize>)
        requires
            self.entries_match_ledger(),
        ensures
            match r {
                Some(i) => i < self.bids@.len() && self.bids@[i as int].0@ == account@,
                None => !self@.bids.contains_key(account@),
            },
    {
        let mut i: usize = 0;
        while i < self.bids.len()
            invariant
                self.entries_match_ledger(),
                0 <= i <= self.bids@.len(),
                forall|j: int| 0 <= j < i ==> (#[trigger] self.bids@[j]).0@ != account@,
            decreases self.bids@.len() - i,
        {
            if self.bids[i].0.same_as(account) {
                return Some(i);
            }
            i = i + 1;
        }
        None
    }

    /// Applies a command from the already authenticated account `origin`.
    /// Every command is accepted.
    pub fn handle_command(&mut self, origin: &AccountId, _txref: &TxRef, cmd: Command) -> (r: TransactionStatus)
        requires
            old(self).wf(),
        ensures
            final(self).wf(),
            final(self)@ == apply_command(old(self)@, AccountIdWrapper(*origin), cmd),
            r == TransactionStatus::Success,
    {
        match cmd {
            Command::PlaceBid { value } => {
                let current_user = AccountIdWrapper(*origin);
                let ghost pre = self@;
                self.record_bid(current_user, value);
                if value > self.winning_bid {
                    self.winning_bid = value;
                    self.winner = Some(current_user);
                }
                proof {
                    assert forall|k: Seq<u8>| #[trigger] self@.bids.contains_key(k) implies self@.bids[k]
                        <= self@.winning_bid by {
                        if k != current_user@ {
                            assert(pre.bids.contains_key(k));
                        }
                    }
                }
                TransactionStatus::Success
            },
        }
    }

    /// Sets `account`'s ledger entry to `value`, leaving winner and highest bid as they are.
    fn record_bid(&mut self, account: AccountIdWrapper, value: u32)
        requires
            old(self).entries_match_ledger(),
        ensures
            final(self).entries_match_ledger(),
            final(self).winner == old(self).winner,
            final(self).winning_bid == old(self).winning_bid,
            final(self)@.bids == old(self)@.bids.insert(account@, value),
    {
        let ghost old_bids = self.bids@;
        let ghost old_ledger = self.ledger@;
        match self.find_entry(&account) {
            Some(i) => {
                self.bids[i] = (account, value);
                self.ledger = Ghost(self.ledger@.insert(account@, value));
                assert forall|k: Seq<u8>| #[trigger] self.ledger@.contains_key(k) implies exists|j: int|
                    0 <= j < self.bids@.len() && (#[trigger] self.bids@[j]).0@ == k by {
                    if k == account@ {
                        assert(self.bids@[i as int].0@ == k);
                    } else {
                        assert(old_ledger.contains_key(k));
                        let j = choose|j: int| 0 <= j < old_bids.len() && (#[trigger] old_bids[j]).0@ == k;
                        assert(self.bids@[j].0@ == k);
                    }
                }
            },
            None => {
                self.bids.push((account, value));
                self.ledger = Ghost(self.ledger@.insert(account@, value));
                let ghost n = old_bids.len() as int;
                assert forall|k: Seq<u8>| #[trigger] self.ledger@.contains_key(k) implies exists|j: int|
                    0 <= j < self.bids@.len() && (#[trigger] self.bids@[j]).0@ == k by {
                    if k == account@ {
                        assert(self.bids@[n].0@ == k);
                    } else {
                        assert(old_ledger.contains_key(k));
                        let j = choose|j: int| 0 <= j < old_bids.len() && (#[trigger] old_bids[j]).0@ == k;
                        assert(self.bids@[j].0@ == k);
                    }
                }
                assert forall|j: int| 0 <= j < n implies (#[trigger] old_bids[j]).0@ != account@ by {
                    assert(old_ledger.contains_key(old_bids[j].0@));
                }
            },
        }
    }

    /// Evaluates a query on the current state; an error is reported as a value.
    fn evaluate(&self, req: Request) -> (r: Result<Response, Error>)
        ensures
            r == evaluate_query(self@, req),
    {
        match req {
            Request::GetWinner => Ok(Response::GetWinner { winner: self.winner }),
        }
    }

    /// Answers a query. The origin, when given, plays no part in the answer, and
    /// the state is left as it was.
    pub fn handle_query(&mut self, _origin: Option<&AccountId>, req: Request) -> (r: Response)
        ensures
            *final(self) == *old(self),
            r == respond(old(self)@, req),
    {
        match self.evaluate(req) {
            Err(error) => Response::Error(error),
            Ok(resp) => resp,
        }
    }

    /// The account currently holding the highest bid, if any.
    pub fn winner(&self) -> (r: Option<AccountIdWrapper>)
        ensures
            r == self@.winner,
    {
        self.winner
    }

    /// The highest bid seen so far; zero before any bid.
    pub fn winning_bid(&self) -> (r: u32)
        ensures
            r == self@.winning_bid,
    {
        self.winning_bid
    }

    /// The latest bid of `account`, if it has bid.
    pub fn bid_of(&self, account: &AccountIdWrapper) -> (r: Option<u32>)
        requires
            self.wf(),
        ensures
            r == (if self@.bids.contains_key(account@) {
                Some(self@.bids[account@])
            } else {
                None::<u32>
            }),
    {
        match self.find_entry(account) {
            Some(i) => Some(self.bids[i].1),
            None => None,
        }
    }
}

} // verus!
