//! A safe layer over a handle-based database connectivity interface.
//!
//! The native layer itself (allocating handles, executing text, disconnecting) is
//! driven from outside: each step of this library takes the native layer's answer
//! as a plain value and decides what follows, so that the ownership and teardown
//! rules are proved for every answer the native layer can give.

pub mod handles;
pub mod error;
pub mod encoding;
pub mod statement;
pub mod cursor;
pub mod connection;

pub use connection::{Connection, ConnectionState, TeardownOutcome};
pub use cursor::Cursor;
pub use error::Error;
pub use statement::Statement;
pub use handles::{ConnectionHandle, NativeError, SqlReturn, StatementHandle};
