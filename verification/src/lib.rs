//! A minimal HTTP/1.x static-content server core with name-based virtual
//! hosting.  The library holds the request-handling engine: request-line and
//! header parsing, the host/path-to-filesystem resolution state machine, and
//! response construction.  Network and filesystem access stay outside; the
//! surrounding program feeds the engine plain byte values (request lines,
//! filesystem probe results, file contents) and writes the bytes it returns.

pub mod client;
pub mod headers;
pub mod request;
pub mod resolve;
pub mod response;
pub mod serve;
pub mod text;
