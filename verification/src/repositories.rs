//! Where the pokemons are kept.

pub mod pokemon;
