use vstd::prelude::*;

verus! {

/// Every way in which a message can be rejected.
#[derive(Debug, Clone, Copy, PartialEq, Eq, Structural)]
pub enum ContractError {
    /// The sender is not the current administrator.
    Unauthorized,
    /// A deposit was attempted while deposits are switched off.
    DepositsDisabled,
    /// The host rejected an address as malformed.
    InvalidAddress,
    /// A withdrawal named a denomination for which the sender holds no record.
    DepositNotFound,
    /// A withdrawal asked for more than the record holds.
    InsufficientFunds,
    /// Booking a deposit would overflow the stored amount or counter.
    ArithmeticOverflow,
}

} // verus!
