//! The use case that takes one pokemon out of the catalog.

use super::entities::{names_of_types, valid_number, Pokemon, PokemonNumber, PokemonView};
use crate::repositories::pokemon::{DeleteError, Repository};
use std::sync::Arc;
use vstd::prelude::*;

verus! {

#[derive(Clone, Copy, Debug, PartialEq, Eq)]
pub enum Error {
    Unknown,
    NotFound,
    BadRequest,
}

/// The pokemon that was taken out, as primitives.
pub struct Response {
    pub number: u16,
    pub name: String,
    pub types: Vec<String>,
}

impl Response {
    /// Whether the response shows the pokemon `p`.
    pub open spec fn shows(&self, p: PokemonView) -> bool {
        &&& self.number == p.number
        &&& self.name@ == p.name
        &&& self.types.deep_view() == names_of_types(p.types)
    }
}

/// What the client is told for each answer of the store: the pokemon that
/// was taken out, that there was none, or the unknown error.
pub fn respond(deleted: Result<Pokemon, DeleteError>) -> (r: Result<Response, Error>)
    ensures
        match deleted {
            Ok(pokemon) => r matches Ok(response) && response.shows(pokemon@),
            Err(DeleteError::NotFound) => r == Err::<Response, Error>(Error::NotFound),
            Err(DeleteError::Unknown) => r == Err::<Response, Error>(Error::Unknown),
        },
{
    match deleted {
        Ok(Pokemon { number, name, types }) => Ok(
            Response {
                number: u16::from(number),
                name: String::from(name),
                types: Vec::<String>::from(types),
            },
        ),
        Err(DeleteError::Unknown) => Err(Error::Unknown),
        Err(DeleteError::NotFound) => Err(Error::NotFound),
    }
}

/// Takes the pokemon with the given number out of the catalog. A number
/// that is not valid is refused before the store is asked; a pokemon that is
/// answered has the number that was asked for.
pub fn execute<R: Repository + ?Sized>(number: u16, repo: Arc<R>) -> (r: Result<Response, Error>)
    ensures
        !valid_number(number as int) <==> r == Err::<Response, Error>(Error::BadRequest),
        valid_number(number as int) && repo.fails() ==> r == Err::<Response, Error>(
            Error::Unknown,
        ),
        r matches Ok(response) ==> response.number == number,
{
    match PokemonNumber::try_from(number) {
        Ok(number) => respond(repo.delete(number)),
        _ => Err(Error::BadRequest),
    }
}

} // verus!
