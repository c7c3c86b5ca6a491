//! A ledger of native-asset deposits per depositor and denomination, with an
//! administrator who can switch deposits on and off and hand over the role.
//!
//! The handlers here are pure state transitions: the host loads the stored
//! values, a handler updates them in place and describes the outcome, and the
//! host persists the values only when the handler succeeds.

pub mod amount;
pub mod contract;
pub mod error;
pub mod lemmas;
pub mod msg;
pub mod response;
pub mod state;
