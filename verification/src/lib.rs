//! The operations of a token-upgrade program, which stands between an original
//! token mint and the new mint that replaces it.
//!
//! The operations work on plain values: the two mints are handed in as
//! [`state::MintAccount`] records, and each operation says in its contract what
//! it returns and what it leaves of the accounts it was given.

pub mod error;
pub mod methods;
pub mod state;
pub mod token_upgrade;
