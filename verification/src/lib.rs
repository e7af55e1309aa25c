//! A verified collectible-asset ledger.
//!
//! The core is a transactional state machine ([`ledger::Pallet`]) that
//! creates uniquely identified assets ("kitties"), breeds new assets from
//! two parents by deterministic genetic recombination ([`dna`]), tracks
//! ownership, and runs a simple marketplace (list for sale / buy).
//! Purchases and creation deposits are settled against a model of the
//! surrounding currency ledger ([`balances::Balances`]).  A small token
//! ledger ([`erc20::Erc20`]) built on the same pattern is included as well.
//!
//! The surrounding execution environment — transport, block production,
//! signature checking, and the entropy source — invokes the operations one
//! at a time with an already-authenticated caller and with freshly drawn
//! random bytes; every operation here is a pure state transition that either
//! commits fully and reports one event, or fails and changes nothing.

pub mod balances;
pub mod dna;
pub mod erc20;
pub mod ledger;
