//! Result types for `ErrorResponse` and `CliError` errors.

use crate::errors::{CliError, ErrorResponse};
use vstd::prelude::*;

verus! {

/// What a handler returns.
pub type MResult<T> = Result<T, ErrorResponse>;

/// What an outbound caller returns.
pub type CResult<T> = Result<T, CliError>;

} // verus!
