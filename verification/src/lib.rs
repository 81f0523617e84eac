//! Building blocks for REST services: paginated result envelopes, query-string
//! sorting and paging parameters, and a closed set of application errors with
//! the HTTP status and JSON body each one is answered with.
//!
//! Everything here is plain data and pure decisions, stated with contracts
//! and proved by Verus. Talking to the web framework and to the database is
//! left to the caller.

pub mod app_state;
pub mod page;
pub mod query;
pub mod response;
pub mod result;
pub mod stream;
pub mod text;
