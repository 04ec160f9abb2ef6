//! Settlement core of a two-asset constant-product automated market maker.
//!
//! The crate is split along the lines of the settlement pipeline:
//! * [`curve`] — the pure constant-product engine: given the two reserves, an
//!   input amount and a fee in basis points, it computes the output amount and
//!   the fee withheld, with truncating integer arithmetic carried out in a
//!   double-width accumulator.
//! * [`auth`] — the two authorization modes an outgoing transfer can carry:
//!   the trader's own signature, or a credential derived from the pool's
//!   identity and its stored bump.
//! * [`ledger`] — the token-account model and the transfer primitive the
//!   orchestrator instructs, with its authorization, mint and balance checks.
//! * [`pool`] — the pool configuration read (never written) by settlement.
//! * [`swap`] — the orchestrator: validation, curve call, and the two fund
//!   movements, committed atomically or not at all.

pub mod auth;
pub mod curve;
pub mod errors;
pub mod ledger;
pub mod pool;
pub mod swap;
