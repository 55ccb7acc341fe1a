//! Verified models of a small token ledger pallet and of a frameless runtime whose only
//! state is one boolean.

pub mod balances_s;
pub mod frameless_runtime;
pub mod ledger_sum;
pub mod origin;
pub mod shared_balance;
