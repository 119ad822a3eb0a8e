//! The use case that looks one pokemon up.

use super::entities::{names_of_types, valid_number, Pokemon, PokemonNumber, PokemonView};
use crate::repositories::pokemon::{FetchError, Repository};
use std::sync::Arc;
use vstd::prelude::*;

verus! {

#[derive(Clone, Copy, Debug, PartialEq, Eq)]
pub enum Error {
    Unknown,
    BadRequest,
    NotFound,
}

/// The number that a client asks for, as the primitive that it sent.
pub struct Request {
    pub number: u16,
}

/// The pokemon that was found, as primitives.
pub struct Response {
    pub name: String,
    pub number: u16,
    pub types: Vec<String>,
}

impl Response {
    /// Whether the response shows the pokemon `p`.
    pub open spec fn shows(&self, p: PokemonView) -> bool {
        &&& self.number == p.number
        &&& self.name@ == p.name
        &&& self.types.deep_view() == names_of_types(p.types)
    }
}

/// What the client is told for each answer of the store: the pokemon that
/// was found, that there is none, or the unknown error.
pub fn respond(found: Result<Pokemon, FetchError>) -> (r: Result<Response, Error>)
    ensures
        match found {
            Ok(pokemon) => r matches Ok(response) && response.shows(pokemon@),
            Err(FetchError::NotFound) => r == Err::<Response, Error>(Error::NotFound),
            Err(FetchError::Unknown) => r == Err::<Response, Error>(Error::Unknown),
        },
{
    match found {
        Ok(pokemon) => Ok(
            Response {
                name: String::from(pokemon.name),
                number: u16::from(pokemon.number),
                types: Vec::<String>::from(pokemon.types),
            },
        ),
        Err(FetchError::Unknown) => Err(Error::Unknown),
        Err(FetchError::NotFound) => Err(Error::NotFound),
    }
}

/// Looks up the pokemon with the number of the request. A number that is
/// not valid is refused before the store is asked; a pokemon that is
/// answered has the number that was asked for.
pub fn execute<R: Repository + ?Sized>(repo: Arc<R>, req: Request) -> (r: Result<Response, Error>)
    ensures
        !valid_number(req.number as int) <==> r == Err::<Response, Error>(Error::BadRequest),
        valid_number(req.number as int) && repo.fails() ==> r == Err::<Response, Error>(
            Error::Unknown,
        ),
        r matches Ok(response) ==> response.number == req.number,
{
    let pokemon_number = match PokemonNumber::try_from(req.number) {
        Ok(pokemon_number) => pokemon_number,
        _ => return Err(Error::BadRequest),
    };
    respond(repo.fetch(pokemon_number))
}

} // verus!
