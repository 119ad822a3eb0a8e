//! The reply to a request to add one pokemon.

use super::Status;
use crate::domain::create_pokemon;
use crate::repositories::pokemon::Repository;
use std::sync::Arc;
use vstd::prelude::*;

verus! {

/// The status that tells of an error of the use case.
pub open spec fn status_of(e: create_pokemon::Error) -> Status {
    match e {
        create_pokemon::Error::BadRequest => Status::BadRequest,
        create_pokemon::Error::Conflict => Status::Conflict,
        create_pokemon::Error::Unknown => Status::InternalServerError,
    }
}

/// The reply to each outcome of the use case: the pokemon that was added, to
/// be written into the message of the body, or the status of the error.
pub fn reply(outcome: Result<create_pokemon::Response, create_pokemon::Error>) -> (r: Result<
    create_pokemon::Response,
    Status,
>)
    ensures
        match outcome {
            Ok(added) => r == Ok::<create_pokemon::Response, Status>(added),
            Err(e) => r == Err::<create_pokemon::Response, Status>(status_of(e)),
        },
{
    match outcome {
        Ok(pokemon) => Ok(pokemon),
        Err(create_pokemon::Error::BadRequest) => Err(Status::BadRequest),
        Err(create_pokemon::Error::Conflict) => Err(Status::Conflict),
        Err(create_pokemon::Error::Unknown) => Err(Status::InternalServerError),
    }
}

/// Adds the pokemon of a request that was read and answers what to send.
pub fn serve<R: Repository + ?Sized>(req: create_pokemon::Request, repo: Arc<R>) -> (r: Result<
    create_pokemon::Response,
    Status,
>)
    ensures
        !req.valid() <==> r == Err::<create_pokemon::Response, Status>(Status::BadRequest),
        req.valid() && repo.fails() ==> r == Err::<create_pokemon::Response, Status>(
            Status::InternalServerError,
        ),
        r matches Ok(added) ==> {
            &&& added.number == req.number
            &&& added.name@ == req.name@
            &&& added.types.deep_view() == req.types.deep_view()
        },
{
    reply(create_pokemon::execute(repo, req))
}

} // verus!
