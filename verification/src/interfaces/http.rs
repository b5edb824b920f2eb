//! The HTTP-facing error type and its verified mappings: which orchestrator
//! failure each endpoint reports, and which status code and message each
//! failure answers with. The listener and the request plumbing stay outside
//! the library.

use vstd::prelude::*;

use crate::orchestrator::CoreError;

verus! {

/// Errors the HTTP layer reports. The two serving variants carry the address
/// the listener was bound to; the rest mirror the orchestrator's failures.
#[derive(Debug)]
pub enum HttpInterfaceError {
    AxumServe { address: String },
    TcpListenerCreation { address: String },
    NotFound(String),
    Conflict(String),
    BadRequest(String),
    ServiceUnavailable,
    InternalServerError,
}

impl HttpInterfaceError {
    /// The status code and body the HTTP layer answers with for this error:
    /// client-caused failures keep their word or message, server-caused ones
    /// answer a fixed text, and the serving errors never reach a response,
    /// so they fall to the catch-all.
    pub fn response_parts(self) -> (r: (u16, String))
        ensures
            self matches HttpInterfaceError::NotFound(w) ==> r.0 == 404
                && r.1@ == "Word '"@ + w@ + "' not found"@,
            self matches HttpInterfaceError::Conflict(w) ==> r.0 == 409
                && r.1@ == "Word '"@ + w@ + "' already exists"@,
            self matches HttpInterfaceError::BadRequest(msg) ==> r.0 == 400 && r.1@ == msg@,
            self is ServiceUnavailable ==> r.0 == 503 && r.1@ == "Service unavailable"@,
            self is InternalServerError ==> r.0 == 500 && r.1@ == "Internal server error"@,
            self is AxumServe || self is TcpListenerCreation ==> r.0 == 500
                && r.1@ == "Unknown error"@,
    {
        match self {
            HttpInterfaceError::NotFound(word) => (
                404,
                String::from_str("Word '").concat(word.as_str()).concat("' not found"),
            ),
            HttpInterfaceError::Conflict(word) => (
                409,
                String::from_str("Word '").concat(word.as_str()).concat("' already exists"),
            ),
            HttpInterfaceError::InternalServerError => (
                500,
                String::from_str("Internal server error"),
            ),
            HttpInterfaceError::BadRequest(msg) => (400, msg),
            HttpInterfaceError::ServiceUnavailable => (503, String::from_str("Service unavailable")),
            _ => (500, String::from_str("Unknown error")),
        }
    }
}

/// How the health endpoint reports an orchestrator failure: an unavailable
/// peer stays `ServiceUnavailable`, anything else is a server fault.
pub fn map_health_check_error<SE, CE>(err: CoreError<SE, CE>) -> (r: HttpInterfaceError)
    ensures
        err is ServiceUnavailable ==> r is ServiceUnavailable,
        !(err is ServiceUnavailable) ==> r is InternalServerError,
{
    match err {
        CoreError::ServiceUnavailable => HttpInterfaceError::ServiceUnavailable,
        _ => HttpInterfaceError::InternalServerError,
    }
}

/// How the add endpoint reports an orchestrator failure: a word already
/// present is a conflict carrying that word, anything else a server fault.
pub fn map_add_word_error<SE, CE>(err: CoreError<SE, CE>) -> (r: HttpInterfaceError)
    ensures
        err matches CoreError::AlreadyExists(w)
            ==> (r matches HttpInterfaceError::Conflict(v) && v == w),
        !(err is AlreadyExists) ==> r is InternalServerError,
{
    match err {
        CoreError::AlreadyExists(word) => HttpInterfaceError::Conflict(word),
        _ => HttpInterfaceError::InternalServerError,
    }
}

/// How the lookup endpoint reports an orchestrator failure: an absent word
/// stays `NotFound` carrying that word, anything else is a server fault.
pub fn map_get_word_error<SE, CE>(err: CoreError<SE, CE>) -> (r: HttpInterfaceError)
    ensures
        err matches CoreError::NotFound(w)
            ==> (r matches HttpInterfaceError::NotFound(v) && v == w),
        !(err is NotFound) ==> r is InternalServerError,
{
    match err {
        CoreError::NotFound(word) => HttpInterfaceError::NotFound(word),
        _ => HttpInterfaceError::InternalServerError,
    }
}

/// How the remove endpoint reports an orchestrator failure: removing an
/// absent word is the caller's mistake, answered as a bad request naming the
/// word; anything else is a server fault.
pub fn map_remove_word_error<SE, CE>(err: CoreError<SE, CE>) -> (r: HttpInterfaceError)
    ensures
        err matches CoreError::NotFound(w) ==> (r matches HttpInterfaceError::BadRequest(msg)
            && msg@ == "Word \""@ + w@ + "\" does not exists"@),
        !(err is NotFound) ==> r is InternalServerError,
{
    match err {
        CoreError::NotFound(word) => HttpInterfaceError::BadRequest(
            String::from_str("Word \"").concat(word.as_str()).concat("\" does not exists"),
        ),
        _ => HttpInterfaceError::InternalServerError,
    }
}

/// How the random endpoint reports an orchestrator failure: an empty store
/// is the caller's mistake, answered as a bad request; anything else a
/// server fault.
pub fn map_random_word_error<SE, CE>(err: CoreError<SE, CE>) -> (r: HttpInterfaceError)
    ensures
        err is Empty ==> (r matches HttpInterfaceError::BadRequest(msg)
            && msg@ == "Store is empty"@),
        !(err is Empty) ==> r is InternalServerError,
{
    match err {
        CoreError::Empty => HttpInterfaceError::BadRequest(String::from_str("Store is empty")),
        _ => HttpInterfaceError::InternalServerError,
    }
}

/// How the chain endpoint reports an orchestrator failure: a request that
/// cannot be satisfied with the server's current state — no connected peers,
/// or an empty store — is the caller's mistake, answered as a bad request;
/// anything else is a server fault.
pub fn map_chain_error<SE, CE>(err: CoreError<SE, CE>) -> (r: HttpInterfaceError)
    ensures
        err is NoConnectedServices || err is Empty ==> (r matches HttpInterfaceError::BadRequest(
            msg,
        ) && msg@ == "This service is not connected to another example-service"@),
        !(err is NoConnectedServices) && !(err is Empty) ==> r is InternalServerError,
{
    match err {
        CoreError::NoConnectedServices => HttpInterfaceError::BadRequest(
            String::from_str("This service is not connected to another example-service"),
        ),
        CoreError::Empty => HttpInterfaceError::BadRequest(
            String::from_str("This service is not connected to another example-service"),
        ),
        _ => HttpInterfaceError::InternalServerError,
    }
}

} // verus!
