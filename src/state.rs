use vstd::prelude::*;

verus! {

/// An amount of one native asset.
#[derive(Debug, Clone, PartialEq, Eq)]
pub struct Coin {
    pub denom: String,
    pub amount: u128,
}

/// The contract-wide settings: who administers it and whether deposits are open.
#[derive(Debug, Clone, PartialEq, Eq)]
pub struct Config {
    pub admin: String,
    pub deposits_enabled: bool,
}

/// The booked balance of one depositor in one denomination.
#[derive(Debug, Clone, PartialEq, Eq)]
pub struct Deposits {
    pub count: u64,
    pub owner: String,
    pub coins: Coin,
}

/// The sender of a message and the funds attached to it.
#[derive(Debug, Clone, PartialEq, Eq)]
pub struct MessageInfo {
    pub sender: String,
    pub funds: Vec<Coin>,
}

/// The numbers a record carries, as (amount, count).
pub open spec fn record_model(record: Option<Deposits>) -> Option<(int, int)> {
    match record {
        Some(d) => Some((d.coins.amount as int, d.count as int)),
        None => None,
    }
}

/// `record` is present, belongs to `owner` in `denom`, and carries the numbers `m`.
pub open spec fn holds_record(
    record: Option<Deposits>,
    owner: Seq<char>,
    denom: Seq<char>,
    m: (int, int),
) -> bool {
    &&& record is Some
    &&& record->0.owner@ == owner
    &&& record->0.coins.denom@ == denom
    &&& record->0.coins.amount == m.0
    &&& record->0.count == m.1
}

} // verus!
