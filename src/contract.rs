use vstd::prelude::*;

verus! {

/// The identifier under which the host routes envelopes to a contract.
pub type ContractId = u32;

/// The fixed identifier of the auction contract.
pub const AUCTION_HOUSE: ContractId = 100;

/// Where a command came from in the transaction log; opaque to the contracts.
#[derive(Clone, Copy, Debug, PartialEq, Eq)]
pub struct TxRef {
    pub blocknum: u32,
    pub index: u64,
}

/// What a contract reports to the host after applying a command.
#[derive(Clone, Copy, Debug, PartialEq, Eq)]
pub enum TransactionStatus {
    Success,
    Failure,
}

} // verus!
