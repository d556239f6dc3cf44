//! A small library for driving a code-migration request against a remote
//! language-model completion endpoint.
//!
//! The library owns everything that can be stated and proved: assembling the
//! prompt that is sent to the endpoint, parsing the JSON envelope that comes
//! back, and the decisions that turn missing inputs or a malformed reply into
//! the right error. Reading files, issuing the network request and writing the
//! destination file are left to the binary built around the library.

pub mod envelope;
pub mod errors;
pub mod migrator;
pub mod prompt;
