//! A verified model of a ticket lottery: the lottery account's state, the
//! rules of each instruction as transitions of that state, the names of the
//! ticket tokens, and the reading of a Switchboard randomness account.
use vstd::prelude::*;

pub mod naming;
pub mod randomness;
pub mod lottery;
pub mod laws;

verus! {
} // verus!
