//! What the contract keeps between calls.

use vstd::prelude::*;

verus! {

/// The house's state: the balance it can still pay rewards from.
#[derive(Debug, Clone, Copy, PartialEq, Eq, Structural)]
pub struct Config {
    pub balance: u128,
}

} // verus!
