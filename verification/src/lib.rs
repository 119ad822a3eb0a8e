//! A small catalog of pokemons: validated value types, a store that keeps at
//! most one record per number, the use cases that sit between a transport
//! layer and the store, and what the transport layer sends for each outcome.

pub mod api;
pub mod domain;
pub mod repositories;
