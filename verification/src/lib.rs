//! A custodial swap proxy, written as an explicit state machine.
//!
//! The proxy holds pooled tokens for its owner, lets the owner or one
//! designated executor trigger a swap, and only ever forwards a swap to a
//! liquidity pool that the owner has whitelisted. The hosting environment
//! supplies the caller and owner identities and the ledger; every operation
//! here is a function from the persisted state and an invocation context to
//! either an abort reason or the single outbound action to perform.

pub mod address;
pub mod amount;
pub mod contract;
pub mod custody;
pub mod guard;
pub mod laws;
pub mod whitelist;

pub use address::Address;
pub use amount::{Amount, Payment, TokenId};
pub use contract::{Dispatch, Error, ProxyState, Transfer, YatbProxyContract};
pub use guard::Context;
pub use whitelist::Whitelist;
