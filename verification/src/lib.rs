//! Account state of a small deterministic ledger: balances, nonces and the
//! block counter, generic over the number and account identifier types.

pub mod account;
pub mod balances;
pub mod numeric;
pub mod support;
pub mod system;
