//! The use case that lists the whole catalog.

use super::entities::{names_of_types, Pokemon, PokemonView};
use crate::repositories::pokemon::{ascending, views, FetchAllError, Repository};
use std::sync::Arc;
use vstd::prelude::*;

verus! {

#[derive(Clone, Copy, Debug, PartialEq, Eq)]
pub enum Error {
    Unknown,
}

/// One pokemon of the list, as primitives.
pub struct Response {
    pub name: String,
    pub number: u16,
    pub types: Vec<String>,
}

impl Response {
    /// Whether the response shows the pokemon `p`.
    pub open spec fn shows(&self, p: PokemonView) -> bool {
        &&& self.number == p.number
        &&& self.name@ == p.name
        &&& self.types.deep_view() == names_of_types(p.types)
    }
}

/// Whether `responses` shows the pokemons of `l`, one for one and in the
/// same order.
pub open spec fn shows_all(responses: Seq<Response>, l: Seq<Pokemon>) -> bool {
    &&& responses.len() == l.len()
    &&& forall|i: int| 0 <= i < l.len() ==> (#[trigger] responses[i]).shows(l[i]@)
}

/// Whether the numbers of `responses` ascend strictly.
pub open spec fn by_number(responses: Seq<Response>) -> bool {
    forall|i: int, j: int|
        0 <= i < j < responses.len() ==> responses[i].number < responses[j].number
}

/// Responses that show an ascending list ascend too.
pub proof fn lemma_order_is_kept(responses: Seq<Response>, l: Seq<Pokemon>)
    requires
        shows_all(responses, l),
        ascending(views(l)),
    ensures
        by_number(responses),
{
    assert forall|i: int, j: int| 0 <= i < j < responses.len() implies responses[i].number
        < responses[j].number by {
        assert(responses[i].shows(l[i]@));
        assert(responses[j].shows(l[j]@));
        assert(views(l)[i].number < views(l)[j].number);
    }
}

/// What the client is told for each answer of the store: the pokemons that
/// it listed, in its order, or the unknown error.
pub fn respond(listed: Result<Vec<Pokemon>, FetchAllError>) -> (r: Result<Vec<Response>, Error>)
    ensures
        match listed {
            Ok(pokemons) => r matches Ok(responses) && shows_all(responses@, pokemons@),
            Err(FetchAllError::Unknown) => r == Err::<Vec<Response>, Error>(Error::Unknown),
        },
{
    match listed {
        Ok(pokemons) => {
            let ghost all = pokemons@;
            let mut responses: Vec<Response> = Vec::new();
            for pokemon in it: pokemons
                invariant
                    it.seq() == all,
                    responses@.len() == it.index(),
                    forall|j: int|
                        0 <= j < responses@.len() ==> (#[trigger] responses@[j]).shows(all[j]@),
            {
                responses.push(
                    Response {
                        name: String::from(pokemon.name),
                        number: u16::from(pokemon.number),
                        types: Vec::<String>::from(pokemon.types),
                    },
                );
            }
            Ok(responses)
        },
        Err(FetchAllError::Unknown) => Err(Error::Unknown),
    }
}

/// Lists every pokemon of the catalog, by ascending number.
pub fn execute<R: Repository + ?Sized>(repo: Arc<R>) -> (r: Result<Vec<Response>, Error>)
    ensures
        repo.fails() ==> r == Err::<Vec<Response>, Error>(Error::Unknown),
        r matches Ok(responses) ==> by_number(responses@),
{
    let listed = repo.fetch_all();
    let ghost answer = listed;
    let r = respond(listed);
    proof {
        if let Ok(pokemons) = answer {
            lemma_order_is_kept(r.unwrap()@, pokemons@);
        }
    }
    r
}

} // verus!
