//! What the transport layer sends for each outcome of a use case: the body
//! of a success as plain values, or the status of a failure.

use vstd::prelude::*;

pub mod create_pokemon;
pub mod delete_pokemon;
pub mod fetch_all_pokemons;
pub mod fetch_pokemon;

verus! {

/// The failures that a client can be told of.
#[derive(Clone, Copy, Debug, PartialEq, Eq, Structural)]
pub enum Status {
    BadRequest,
    NotFound,
    Conflict,
    InternalServerError,
}

impl Status {
    /// The status code that stands for the failure.
    pub open spec fn code_of(self) -> int {
        match self {
            Status::BadRequest => 400,
            Status::NotFound => 404,
            Status::Conflict => 409,
            Status::InternalServerError => 500,
        }
    }

    /// The status code to send.
    pub fn code(self) -> (c: u16)
        ensures
            c == self.code_of(),
    {
        match self {
            Status::BadRequest => 400,
            Status::NotFound => 404,
            Status::Conflict => 409,
            Status::InternalServerError => 500,
        }
    }
}

} // verus!
