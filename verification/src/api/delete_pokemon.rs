//! The reply to a request to delete one pokemon.

use super::Status;
use crate::domain::delete_pokemon;
use crate::domain::entities::valid_number;
use crate::repositories::pokemon::Repository;
use std::sync::Arc;
use vstd::prelude::*;

verus! {

/// The body of a success.
pub struct Response {
    pub number: u16,
    pub name: String,
    pub types: Vec<String>,
}

/// The status that tells of an error of the use case.
pub open spec fn status_of(e: delete_pokemon::Error) -> Status {
    match e {
        delete_pokemon::Error::BadRequest => Status::BadRequest,
        delete_pokemon::Error::Unknown => Status::InternalServerError,
        delete_pokemon::Error::NotFound => Status::NotFound,
    }
}

/// The reply to each outcome of the use case: the pokemon as it came, or the
/// status of the error.
pub fn reply(outcome: Result<delete_pokemon::Response, delete_pokemon::Error>) -> (r: Result<
    Response,
    Status,
>)
    ensures
        match outcome {
            Ok(deleted) => r matches Ok(body) && body.number == deleted.number && body.name
                == deleted.name && body.types == deleted.types,
            Err(e) => r == Err::<Response, Status>(status_of(e)),
        },
{
    match outcome {
        Ok(delete_pokemon::Response { number, name, types }) => Ok(
            Response { number, name, types },
        ),
        Err(delete_pokemon::Error::BadRequest) => Err(Status::BadRequest),
        Err(delete_pokemon::Error::Unknown) => Err(Status::InternalServerError),
        Err(delete_pokemon::Error::NotFound) => Err(Status::NotFound),
    }
}

/// Deletes the pokemon and answers what to send.
pub fn serve<R: Repository + ?Sized>(req: u16, repo: Arc<R>) -> (r: Result<Response, Status>)
    ensures
        !valid_number(req as int) <==> r == Err::<Response, Status>(Status::BadRequest),
        valid_number(req as int) && repo.fails() ==> r == Err::<Response, Status>(
            Status::InternalServerError,
        ),
        r matches Ok(body) ==> body.number == req,
{
    reply(delete_pokemon::execute(req, repo))
}

} // verus!
