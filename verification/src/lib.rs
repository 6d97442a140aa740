//! Server-side binding for the Docker volume plugin protocol.
//!
//! The crate holds the typed request and response records with the wire's
//! field spellings ([`driver`]), a verified JSON codec for them ([`json`]),
//! the open error taxonomy with its fixed status-code mapping ([`errors`]),
//! a contract-bearing driver interface with an in-memory reference backend
//! ([`memory`]), and a transport-agnostic dispatcher over the nine fixed
//! routes ([`handler`]). Listeners, sockets and logging live outside this
//! verified core.

pub mod driver;
pub mod errors;
pub mod handler;
pub mod json;
pub mod memory;
