//! A bridge from the tracing front end's events to the native `os_log` facility.
//!
//! The library holds what the bridge decides: which native message type an
//! event's level is written with, how a rendered message is encoded as a C
//! string, when the native handle may be written to and when it is released.
//! Calling into the native facility is left to the embedding program, which
//! hands each native result back to the library as a plain value.

pub mod handle;
pub mod level;
pub mod message;
pub mod writer;

pub use handle::{CreateError, HandleState, OsLog};
pub use level::{os_log_type_for, Level, OsLogType};
pub use message::{to_c_string, NulError};
pub use writer::{LogCall, OsLogMakeWriter, OsLogWriter, WriteError};
