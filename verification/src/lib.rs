//! Command dispatch: resolving the first command-line token to one of a closed
//! set of operations, and routing a shared run context to the handler bound
//! to it.

pub mod command;
pub mod dispatch;
pub mod handler;
pub mod text;

pub use command::AppCommand;
pub use handler::{Command, Handlers};
