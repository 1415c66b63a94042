//! Why a command or a query is refused.

use vstd::prelude::*;

verus! {

/// The failures that the dispatcher itself decides.
#[derive(Clone, Copy, Debug, PartialEq, Eq, Structural)]
pub enum ContractError {
    /// The caller is not the recorded controller.
    Unauthorized,
    /// The controller or the denomination has not been recorded yet.
    NotFound,
}

impl ContractError {
    /// The failure in words.
    pub fn message(&self) -> (r: String)
        ensures
            r@ == (match *self {
                ContractError::Unauthorized => "caller is not the contract's current owner"@,
                ContractError::NotFound => "contract is not initialized"@,
            }),
    {
        match self {
            ContractError::Unauthorized => String::from_str("caller is not the contract's current owner"),
            ContractError::NotFound => String::from_str("contract is not initialized"),
        }
    }
}

} // verus!
