//! The use case that adds a pokemon to the catalog.

use super::entities::{
    lemma_names_are_written_back, names_of_types, valid_name, valid_number, valid_types, Pokemon,
    PokemonName, PokemonNumber, PokemonTypes, PokemonView,
};
use crate::repositories::pokemon::{InsertError, Repository};
use std::sync::Arc;
use vstd::prelude::*;

verus! {

/// What a client asks to add, as the primitives that it sent.
pub struct Request {
    pub number: u16,
    pub name: String,
    pub types: Vec<String>,
}

#[derive(Clone, Copy, Debug, PartialEq, Eq)]
pub enum Error {
    BadRequest,
    Conflict,
    Unknown,
}

/// The pokemon that was added, as primitives.
pub struct Response {
    pub number: u16,
    pub name: String,
    pub types: Vec<String>,
}

impl Request {
    /// Whether the three primitives make a pokemon.
    pub open spec fn valid(&self) -> bool {
        &&& valid_number(self.number as int)
        &&& valid_name(self.name@)
        &&& valid_types(self.types.deep_view())
    }
}

impl Response {
    /// Whether the response shows the pokemon `p`.
    pub open spec fn shows(&self, p: PokemonView) -> bool {
        &&& self.number == p.number
        &&& self.name@ == p.name
        &&& self.types.deep_view() == names_of_types(p.types)
    }
}

impl vstd::std_specs::convert::FromSpecImpl<Pokemon> for Response {
    open spec fn obeys_from_spec() -> bool {
        false
    }

    open spec fn from_spec(pokemon: Pokemon) -> Response {
        arbitrary()
    }
}

impl From<Pokemon> for Response {
    /// Shows a pokemon as primitives.
    fn from(pokemon: Pokemon) -> (r: Self)
        ensures
            r.shows(pokemon@),
    {
        Self {
            number: u16::from(pokemon.number),
            name: String::from(pokemon.name),
            types: Vec::<String>::from(pokemon.types),
        }
    }
}

/// What the client is told for each answer of the store: the pokemon that
/// was stored, a conflict for a conflict, and the unknown error otherwise.
pub fn respond(stored: Result<Pokemon, InsertError>) -> (r: Result<Response, Error>)
    ensures
        match stored {
            Ok(pokemon) => r matches Ok(response) && response.shows(pokemon@),
            Err(InsertError::Conflict) => r == Err::<Response, Error>(Error::Conflict),
            Err(InsertError::Unknown) => r == Err::<Response, Error>(Error::Unknown),
        },
{
    match stored {
        Ok(pokemon) => Ok(Response::from(pokemon)),
        Err(InsertError::Conflict) => Err(Error::Conflict),
        Err(InsertError::Unknown) => Err(Error::Unknown),
    }
}

/// Adds the pokemon that the request describes. A request that is not valid
/// is refused before the store is asked; on success the response holds what
/// the request held.
pub fn execute<R: Repository + ?Sized>(repo: Arc<R>, req: Request) -> (r: Result<Response, Error>)
    ensures
        !req.valid() <==> r == Err::<Response, Error>(Error::BadRequest),
        req.valid() && repo.fails() ==> r == Err::<Response, Error>(Error::Unknown),
        r matches Ok(response) ==> {
            &&& response.number == req.number
            &&& response.name@ == req.name@
            &&& response.types.deep_view() == req.types.deep_view()
        },
{
    proof {
        if req.valid() {
            lemma_names_are_written_back(req.types.deep_view());
        }
    }
    match (
        PokemonNumber::try_from(req.number),
        PokemonName::try_from(req.name),
        PokemonTypes::try_from(req.types),
    ) {
        (Ok(number), Ok(name), Ok(types)) => respond(repo.insert(number, name, types)),
        _ => Err(Error::BadRequest),
    }
}

} // verus!
