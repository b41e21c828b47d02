//! A decoder for HTTP/2 compressed header blocks that keeps no dynamic
//! table.
//!
//! A header block is a run of fields. Each field is measured exactly, so
//! that the cursor always lands on the first octet of the next field; the
//! fields that name no entry of the dynamic table are resolved to
//! name/value pairs, the others are stepped over.
pub mod error;
pub mod field;
pub mod integer;
pub mod laws;
pub mod parser;
pub mod resolver;
