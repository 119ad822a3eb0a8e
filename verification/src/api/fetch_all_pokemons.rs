//! The reply to a request for the whole catalog.

use super::Status;
use crate::domain::fetch_all_pokemons;
use crate::repositories::pokemon::Repository;
use std::sync::Arc;
use vstd::prelude::*;

verus! {

/// One pokemon of the body of a success.
pub struct Response {
    pub number: u16,
    pub name: String,
    pub types: Vec<String>,
}

/// Whether `body` holds the pokemons of `listed` as they came, one for one
/// and in the same order.
pub open spec fn carries(body: Seq<Response>, listed: Seq<fetch_all_pokemons::Response>) -> bool {
    &&& body.len() == listed.len()
    &&& forall|i: int|
        0 <= i < listed.len() ==> {
            &&& (#[trigger] body[i]).number == listed[i].number
            &&& body[i].name == listed[i].name
            &&& body[i].types == listed[i].types
        }
}

/// Whether the numbers of `body` ascend strictly.
pub open spec fn by_number(body: Seq<Response>) -> bool {
    forall|i: int, j: int| 0 <= i < j < body.len() ==> body[i].number < body[j].number
}

/// The reply to each outcome of the use case: the pokemons as they came, or
/// the status of the error.
pub fn reply(outcome: Result<Vec<fetch_all_pokemons::Response>, fetch_all_pokemons::Error>) -> (r:
    Result<Vec<Response>, Status>)
    ensures
        match outcome {
            Ok(listed) => r matches Ok(body) && carries(body@, listed@),
            Err(fetch_all_pokemons::Error::Unknown) => r == Err::<Vec<Response>, Status>(
                Status::InternalServerError,
            ),
        },
{
    match outcome {
        Ok(listed) => {
            let ghost all = listed@;
            let mut body: Vec<Response> = Vec::new();
            for found in it: listed
                invariant
                    it.seq() == all,
                    body@.len() == it.index(),
                    forall|i: int|
                        0 <= i < body@.len() ==> {
                            &&& (#[trigger] body@[i]).number == all[i].number
                            &&& body@[i].name == all[i].name
                            &&& body@[i].types == all[i].types
                        },
            {
                let fetch_all_pokemons::Response { number, name, types } = found;
                body.push(Response { number, name, types });
            }
            Ok(body)
        },
        Err(fetch_all_pokemons::Error::Unknown) => Err(Status::InternalServerError),
    }
}

/// Lists the catalog and answers what to send.
pub fn serve<R: Repository + ?Sized>(repo: Arc<R>) -> (r: Result<Vec<Response>, Status>)
    ensures
        repo.fails() ==> r == Err::<Vec<Response>, Status>(Status::InternalServerError),
        r matches Ok(body) ==> by_number(body@),
{
    let outcome = fetch_all_pokemons::execute(repo);
    let ghost listed = outcome;
    let r = reply(outcome);
    proof {
        if let Ok(l) = listed {
            let body = r.unwrap()@;
            assert forall|i: int, j: int| 0 <= i < j < body.len() implies body[i].number
                < body[j].number by {
                assert(body[i].number == l@[i].number);
                assert(body[j].number == l@[j].number);
            }
        }
    }
    r
}

} // verus!
