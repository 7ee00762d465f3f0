//! Client-side shell of a transaction-processing protocol: a processor
//! connects to a validating peer, registers its transaction-family handlers,
//! then serves an unbounded stream of process requests, replying to each with
//! a status that mirrors the handler's outcome.
//!
//! The transport, the wire encoding and the handlers' business logic live
//! outside this library. What is fixed here is everything the protocol's
//! correctness rests on: the shape of the registration plan and its
//! first-failure semantics ([`registrar`]), the connect / register / serve
//! state machine with its reconnect and termination policy ([`dispatch`]),
//! the mapping from handler outcomes to responses and the correlation of
//! each reply to its request ([`protocol`]), and the shape of correlation
//! ids ([`correlation`]).

pub mod correlation;
pub mod dispatch;
pub mod handler;
pub mod protocol;
pub mod registrar;
