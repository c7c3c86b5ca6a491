use vstd::prelude::*;
use crate::state::{Config, Deposits};

verus! {

/// The message that sets the contract up.
#[derive(Debug, Clone, PartialEq, Eq)]
pub struct InstantiateMsg {
    /// The administrator; the sender when absent.
    pub admin: Option<String>,
}

/// The answer to a configuration query.
#[derive(Debug, Clone, PartialEq, Eq)]
pub struct ConfigResponse {
    pub config: Option<Config>,
}

/// The answer to a deposits query: each record with its (owner, denomination) key.
#[derive(Debug, Clone, PartialEq, Eq)]
pub struct DepositResponse {
    pub deposits: Vec<((String, String), Deposits)>,
}

} // verus!
