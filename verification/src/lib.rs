//! The read-only user listing service, as pure decisions over plain values.
//!
//! The service answers one request: list every record of the users table as a
//! JSON array. This library holds what the service decides: the shape of a
//! record, the exact text of the JSON body, the reply for each outcome of the
//! storage query, how rows become records, and the order of the steps at
//! startup. Sockets, the connection pool and the process environment belong to
//! the program that drives these functions.

pub mod json;
pub mod response;
pub mod rows;
pub mod startup;
pub mod user;
