//! Resolution of declarative HTTP request descriptions into wire-ready
//! requests, with a reproducible command line, and the single-slot
//! cancellation state machine of the executor that dispatches them.

pub mod text;
pub mod url;
pub mod headers;
pub mod request;
pub mod resolve;
pub mod executor;
