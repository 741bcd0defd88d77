//! Per-member staking ledger: reserve balances, pool-share balances and the
//! principal books of a beneficiary and of an optional delegate.
pub mod error;
pub mod pubkey;
pub mod prices;
pub mod member;
pub mod lemmas;
