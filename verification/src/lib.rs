//! A read-only simulation facade for an automated-market-maker contract:
//! it previews the economic outcome of add-liquidity, remove-liquidity and
//! swap operations against current ledger state without committing a real,
//! signed, fee-paying transaction.
//!
//! The facade decides; the caller performs. Every operation here is a pure
//! function from the facade's state and plain values (pool identities,
//! amounts, the simulation identity's coins) to a fully resolved request —
//! which contract method to call or which operation template to execute,
//! under which fee policy and in which execution fidelity — or from a raw
//! ledger answer to the normalized result. The network round trips that
//! carry those requests to a node stay outside this crate.

pub mod amm;
pub mod executor;
pub mod hexutil;
pub mod laws;
pub mod lp;
pub mod model;
pub mod outside;
pub mod path;
pub mod template;
