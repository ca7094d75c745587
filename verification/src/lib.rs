//! A verified model of a custodial token-escrow protocol.
//!
//! A depositor locks fungible-token value in a custody account ("vault")
//! addressed to a single beneficiary; only that beneficiary can release it.
//! An administrative configuration record separately controls policy (who may
//! change it, who may sweep fees).  Custody rests on derived authorities:
//! addresses computed from seed tuples for which no private key exists, so
//! that only the program's own signing path can move escrowed funds.
//!
//! The hosting ledger (account storage, signature checking, atomic
//! transactions) is modeled by the [`state::World`] type; the token ledger's
//! own bookkeeping is modeled by the [`gateway`] module.  Every handler is
//! specified against a pure transition function and proved to either apply
//! its whole effect or leave the world unchanged.

pub mod addresses;
pub mod error;
pub mod gateway;
pub mod handlers;
pub mod laws;
pub mod state;
pub mod table;
