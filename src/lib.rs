//! A request-execution engine: validates request descriptions, resolves the
//! race between a response and a cancellation signal, and decodes response
//! bodies according to their declared content-encoding.

pub mod encoding;
pub mod response;
pub mod registry;
pub mod request;
