//! Fast access to nice things.

pub use crate::errors::{CliError, Consider, ConsiderCli, ErrorResponse};
pub use crate::requests::{Intake, Outbound};
pub use crate::responses::{File, Html, Json, MsgPack, Plain, Reply, OK};
pub use crate::results::{CResult, MResult};
pub use crate::status::StatusCode;
