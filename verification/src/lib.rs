//! An in-memory store of to-do records, with the operations of a small
//! create / read / update / delete service stated and proved over it.
//!
//! - [`model`]: instants, records, query options and partial updates.
//! - [`store`]: the store, and each operation as a function on its contents.
//! - [`handler`]: one handler per request, from the parsed request to the
//!   status code and body of the reply.
//! - [`response`]: the bodies of the replies.
//! - [`ident`], [`clock`]: record ids and the current instant, both taken
//!   from outside.
//! - [`laws`]: what the operations keep true of the store.

pub mod clock;
pub mod handler;
pub mod ident;
pub mod laws;
pub mod model;
pub mod response;
pub mod store;
