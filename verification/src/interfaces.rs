//! Transport-facing error shapes and their verified mappings. The transports
//! themselves (listeners, encoders) live outside the library.

pub mod grpc;
pub mod http;
