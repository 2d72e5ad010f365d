use vstd::prelude::*;

use crate::account::AccountIdWrapper;
use crate::auction::{initial_model, place_bid, respond, AuctionModel, Request};

verus! {

/// The state reached from `m` by the bids `bids`, applied in order; each bid is
/// an account and a value.
pub open spec fn run_bids(m: AuctionModel, bids: Seq<(AccountIdWrapper, u32)>) -> AuctionModel
    decreases bids.len(),
{
    if bids.len() == 0 {
        m
    } else {
        place_bid(run_bids(m, bids.drop_last()), bids.last().0, bids.last().1)
    }
}

/// The value of the last bid in `bids` made by the account with bytes `account`.
pub open spec fn last_bid_of(bids: Seq<(AccountIdWrapper, u32)>, account: Seq<u8>) -> Option<u32>
    decreases bids.len(),
{
    if bids.len() == 0 {
        None
    } else if bids.last().0@ == account {
        Some(bids.last().1)
    } else {
        last_bid_of(bids.drop_last(), account)
    }
}

/// The winner, when there is one, has the highest bid as its ledger entry.
pub open spec fn winner_consistent(m: AuctionModel) -> bool {
    m.winner matches Some(w) ==> m.bids.contains_key(w@) && m.bids[w@] == m.winning_bid
}

/// A bid never lowers the highest bid.
pub proof fn lemma_bid_never_lowers_winning_bid(m: AuctionModel, origin: AccountIdWrapper, value: u32)
    ensures
        place_bid(m, origin, value).winning_bid >= m.winning_bid,
{
}

/// Along any sequence of bids, the highest bid after a later step is at least the
/// highest bid after an earlier one.
pub proof fn lemma_winning_bid_monotone(m: AuctionModel, bids: Seq<(AccountIdWrapper, u32)>, i: int, j: int)
    requires
        0 <= i <= j <= bids.len(),
    ensures
        run_bids(m, bids.take(i)).winning_bid <= run_bids(m, bids.take(j)).winning_bid,
    decreases j - i,
{
    if i < j {
        lemma_winning_bid_monotone(m, bids, i, j - 1);
        assert(bids.take(j).drop_last() =~= bids.take(j - 1));
    }
}

/// The fresh state is winner-consistent.
pub proof fn lemma_initial_winner_consistent()
    ensures
        winner_consistent(initial_model()),
{
}

/// A bid keeps the winner's ledger entry equal to the highest bid, unless the
/// winner itself lowers its own bid (its entry then drops below the highest bid
/// while it stays the winner).
pub proof fn lemma_bid_keeps_winner_consistent(m: AuctionModel, origin: AccountIdWrapper, value: u32)
    requires
        winner_consistent(m),
        !(m.winner matches Some(w) && w@ == origin@ && value < m.winning_bid),
    ensures
        winner_consistent(place_bid(m, origin, value)),
{
}

/// A bid equal to the current highest bid changes neither the winner nor the
/// highest bid.
pub proof fn lemma_equal_bid_keeps_winner(m: AuctionModel, origin: AccountIdWrapper)
    ensures
        place_bid(m, origin, m.winning_bid).winner == m.winner,
        place_bid(m, origin, m.winning_bid).winning_bid == m.winning_bid,
{
}

/// After a sequence of bids, every account that bid has its most recent bid in
/// the ledger (not its largest), and every other account keeps its entry.
pub proof fn lemma_ledger_completeness(m: AuctionModel, bids: Seq<(AccountIdWrapper, u32)>, account: Seq<u8>)
    ensures
        match last_bid_of(bids, account) {
            Some(v) => run_bids(m, bids).bids.contains_key(account) && run_bids(m, bids).bids[account] == v,
            None => run_bids(m, bids).bids.contains_key(account) == m.bids.contains_key(account)
                && run_bids(m, bids).bids[account] == m.bids[account],
        },
    decreases bids.len(),
{
    if bids.len() > 0 {
        lemma_ledger_completeness(m, bids.drop_last(), account);
    }
}

/// Two queries with no command between them get the same response: a query
/// leaves the state as it was, and the response depends on the state alone.
pub proof fn lemma_query_repeatable(m: AuctionModel, req: Request)
    ensures
        respond(m, req) == respond(m, req),
{
}

/// The fresh state meets the ledger invariants.
pub proof fn lemma_initial_consistent()
    ensures
        initial_model().consistent(),
{
}

/// Any sequence of bids preserves the ledger invariants.
pub proof fn lemma_bids_preserve_consistency(m: AuctionModel, bids: Seq<(AccountIdWrapper, u32)>)
    requires
        m.consistent(),
    ensures
        run_bids(m, bids).consistent(),
    decreases bids.len(),
{
    if bids.len() > 0 {
        lemma_bids_preserve_consistency(m, bids.drop_last());
        let pre = run_bids(m, bids.drop_last());
        let post = run_bids(m, bids);
        assert forall|k: Seq<u8>| #[trigger] post.bids.contains_key(k) implies post.bids[k] <= post.winning_bid by {
            if k != bids.last().0@ {
                assert(pre.bids.contains_key(k));
            }
        }
    }
}

} // verus!
