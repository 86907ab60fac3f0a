//! Uniform error records and a size-bounded MessagePack boundary for request
//! handlers and outbound callers.
//!
//! A handler ends in `Result<T, ErrorResponse>`; a caller of a remote service
//! ends in `Result<T, CliError>`. Whatever went wrong on the way is turned
//! into one of these two records, is reclassified as it travels upward, and is
//! written to the reply exactly once, where it is decided whether the remote
//! side sees the detail or a fixed phrase.

pub mod conversions;
pub mod errors;
pub mod foreign;
pub mod prelude;
pub mod requests;
pub mod responses;
pub mod results;
pub mod status;
