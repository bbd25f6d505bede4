//! The ways a bet is refused.

use vstd::prelude::*;
use vstd::string::*;

verus! {

/// Why the contract refused a bet.
#[derive(Debug, Clone, Copy, PartialEq, Eq, Structural)]
pub enum ContractError {
    /// The player won, but the house balance does not exceed the reward.
    InsufficientAdminFunds,
    /// The player lost, but its recorded balance does not exceed the
    /// reward, or it sent no positive amount of the stake denomination.
    InsufficientFunds,
}

impl ContractError {
    /// The text the chain reports for this error.
    pub open spec fn spec_message(self) -> Seq<char> {
        match self {
            ContractError::InsufficientAdminFunds => "Insufficient Admin Funds"@,
            ContractError::InsufficientFunds => "Insufficient Funds"@,
        }
    }

    /// The text the chain reports for this error.
    pub fn message(&self) -> (m: String)
        ensures
            m@ == self.spec_message(),
    {
        match self {
            ContractError::InsufficientAdminFunds => String::from_str("Insufficient Admin Funds"),
            ContractError::InsufficientFunds => String::from_str("Insufficient Funds"),
        }
    }
}

} // verus!
