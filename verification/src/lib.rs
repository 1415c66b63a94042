//! Owner-gated issuance of a fungible token on a host ledger: the commands
//! that one controller may give, the queries that mirror the ledger's
//! state, and the gathering of paged answers into one.

pub mod text;
pub mod error;
pub mod effect;
pub mod msg;
pub mod state;
pub mod contract;
pub mod query;
pub mod pagination;
