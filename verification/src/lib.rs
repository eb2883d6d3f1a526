//! Application scaffold: an extensible application error type and a
//! one-shot startup initializer that wires the process-wide diagnostic
//! hook and logging subscriber.

pub mod error;
pub mod init;

pub use init::run;
