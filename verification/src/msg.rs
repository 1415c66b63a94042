//! The requests that arrive at the dispatcher.

use vstd::prelude::*;

verus! {

/// The one-time request that issues the token.
#[derive(Clone, Debug, PartialEq, Eq)]
pub struct InstantiateMsg {
    pub symbol: String,
    pub subunit: String,
    pub precision: u32,
    pub initial_amount: u128,
    pub description: Option<String>,
    pub features: Option<Vec<u32>>,
    pub burn_rate: Option<String>,
    pub send_commission_rate: Option<String>,
    pub uri: Option<String>,
    pub uri_hash: Option<String>,
}

/// A command that changes the token; only the controller may give one.
#[derive(Clone, Debug, PartialEq, Eq)]
pub enum ExecuteMsg {
    Mint { amount: u128, recipient: Option<String> },
    Burn { amount: u128 },
    Freeze { account: String, amount: u128 },
    Unfreeze { account: String, amount: u128 },
    SetFrozen { account: String, amount: u128 },
    GloballyFreeze {  },
    GloballyUnfreeze {  },
    SetWhitelistedLimit { account: String, amount: u128 },
}

/// A read-only request.
#[derive(Clone, Debug, PartialEq, Eq)]
pub enum QueryMsg {
    Params {  },
    Token {  },
    Tokens { issuer: String },
    Balance { account: String },
    FrozenBalance { account: String },
    FrozenBalances { account: String },
    WhitelistedBalance { account: String },
    WhitelistedBalances { account: String },
}

} // verus!
