use vstd::prelude::*;

pub mod account;
pub mod auction;
pub mod contract;
pub mod laws;

verus! {

} // verus!
