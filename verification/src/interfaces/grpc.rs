//! The RPC-facing error type and its verified mappings: which orchestrator
//! failure the chain procedure reports, and which RPC status code (3 for an
//! invalid argument, 13 for an internal fault) and message each failure
//! answers with. The server transport itself stays outside the library.

use vstd::prelude::*;

use crate::orchestrator::CoreError;

verus! {

/// Errors the RPC layer reports. The serving variant carries the address the
/// server was bound to; the rest classify a request's failure.
#[derive(Debug)]
pub enum GrpcInterfaceError {
    GrpcServerError { address: String },
    BadRequest(String),
    InternalServerError,
}

impl GrpcInterfaceError {
    /// The status code and message the RPC layer answers with: a bad request
    /// becomes an invalid-argument status keeping its message, a server
    /// fault an internal status with a fixed text, and the serving error
    /// never reaches a response, so it falls to the catch-all.
    pub fn status_parts(self) -> (r: (u16, String))
        ensures
            self matches GrpcInterfaceError::BadRequest(msg) ==> r.0 == 3 && r.1@ == msg@,
            self is InternalServerError ==> r.0 == 13 && r.1@ == "Internal error"@,
            self is GrpcServerError ==> r.0 == 13 && r.1@ == "Unknown error"@,
    {
        match self {
            GrpcInterfaceError::BadRequest(msg) => (3, msg),
            GrpcInterfaceError::InternalServerError => (13, String::from_str("Internal error")),
            _ => (13, String::from_str("Unknown error")),
        }
    }
}

/// How the chain procedure reports an orchestrator failure: no connected
/// peers and an empty store are the caller's mistake, answered as bad
/// requests with their own texts; anything else is a server fault.
pub fn map_chain_error<SE, CE>(err: CoreError<SE, CE>) -> (r: GrpcInterfaceError)
    ensures
        err is NoConnectedServices ==> (r matches GrpcInterfaceError::BadRequest(msg)
            && msg@ == "This service is not connected to an example-service"@),
        err is Empty ==> (r matches GrpcInterfaceError::BadRequest(msg)
            && msg@ == "The store is empty"@),
        !(err is NoConnectedServices) && !(err is Empty) ==> r is InternalServerError,
{
    match err {
        CoreError::NoConnectedServices => GrpcInterfaceError::BadRequest(
            String::from_str("This service is not connected to an example-service"),
        ),
        CoreError::Empty => GrpcInterfaceError::BadRequest(String::from_str("The store is empty")),
        _ => GrpcInterfaceError::InternalServerError,
    }
}

} // verus!
