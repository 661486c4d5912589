//! Content types for static files served over HTTP.
//!
//! A response to a request for a file gets its `Content-Type` from the
//! request path alone: the text after the last `.` of the path is looked up,
//! without regard to case, in an embedded table of extensions ([`table`])
//! and, where asked for, first in the database of the `mime_guess` crate
//! ([`database`]). An extension that nothing lists gets
//! `application/octet-stream`, and a path without extension the marker
//! `unknown` ([`decision`]). The result is written over whatever content type
//! the response carries ([`headers`]). A failure of the file service is
//! answered with a diagnostic reply ([`failure`]).
//!
//! [`laws`] states what holds of all this for every path and every response.

pub mod database;
pub mod decision;
pub mod extension;
pub mod failure;
pub mod headers;
pub mod laws;
pub mod table;
pub mod text;
