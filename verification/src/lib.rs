//! A typed front-end over the line-delimited JSON that a build tool's
//! subcommands stream: the message schema, the decisions of the message
//! stream, and the extraction of build artifacts from the decoded messages.

pub mod error;
pub mod format;
pub mod json;
pub mod msg;
pub mod run;

pub use crate::msg::{Message, StreamAction, StreamEvent, StreamState};
pub use crate::run::{CargoRun, RunSearch};
pub use crate::test::CargoTest;
