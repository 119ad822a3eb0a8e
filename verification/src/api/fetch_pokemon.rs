//! The reply to a request for one pokemon.

use super::Status;
use crate::domain::entities::valid_number;
use crate::domain::fetch_pokemon;
use crate::repositories::pokemon::Repository;
use std::sync::Arc;
use vstd::prelude::*;

verus! {

/// The body of a success.
pub struct Response {
    pub number: u16,
    pub name: String,
    pub types: Vec<String>,
}

/// The status that tells of an error of the use case.
pub open spec fn status_of(e: fetch_pokemon::Error) -> Status {
    match e {
        fetch_pokemon::Error::NotFound => Status::NotFound,
        fetch_pokemon::Error::BadRequest => Status::BadRequest,
        fetch_pokemon::Error::Unknown => Status::InternalServerError,
    }
}

/// The reply to each outcome of the use case: the pokemon as it came, or the
/// status of the error.
pub fn reply(outcome: Result<fetch_pokemon::Response, fetch_pokemon::Error>) -> (r: Result<
    Response,
    Status,
>)
    ensures
        match outcome {
            Ok(found) => r matches Ok(body) && body.number == found.number && body.name
                == found.name && body.types == found.types,
            Err(e) => r == Err::<Response, Status>(status_of(e)),
        },
{
    match outcome {
        Ok(fetch_pokemon::Response { number, name, types }) => Ok(Response { number, name, types }),
        Err(fetch_pokemon::Error::NotFound) => Err(Status::NotFound),
        Err(fetch_pokemon::Error::BadRequest) => Err(Status::BadRequest),
        Err(fetch_pokemon::Error::Unknown) => Err(Status::InternalServerError),
    }
}

/// Looks the pokemon up and answers what to send.
pub fn serve<R: Repository + ?Sized>(number: u16, repo: Arc<R>) -> (r: Result<Response, Status>)
    ensures
        !valid_number(number as int) <==> r == Err::<Response, Status>(Status::BadRequest),
        valid_number(number as int) && repo.fails() ==> r == Err::<Response, Status>(
            Status::InternalServerError,
        ),
        r matches Ok(body) ==> body.number == number,
{
    reply(fetch_pokemon::execute(repo, fetch_pokemon::Request { number }))
}

} // verus!
