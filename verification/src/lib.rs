//! A verified core for a distributed "word chain" service.
//!
//! The service keeps a set of words, hands one out at random on request, and
//! builds chains of words by appending one local word per hop and delegating
//! the remaining hops to a randomly chosen connected peer. This crate holds
//! the parts with real logic: the word store, the chain orchestrator, the
//! peer-connection retry policy, and the error mapping towards transports.
//! Transport adapters (HTTP, RPC, message queues) stay outside; they feed the
//! orchestrator plain values and translate its errors.

pub mod clients;
pub mod interfaces;
pub mod orchestrator;
pub mod stores;

mod random;
