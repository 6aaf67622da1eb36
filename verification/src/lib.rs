//! A minimal leveled logging core.
//!
//! The library holds the shared logger configuration (an enabled-level
//! bitmask, a destination path, a rotation size threshold), formats log
//! records, and decides for each call whether to emit, where to route the
//! line, and how to keep a file destination bounded in size. The actual
//! console and file I/O is left to the surrounding program, which executes
//! the routing and file-preparation decisions this library returns.

pub mod log;
pub mod record;
pub mod rotate;
pub mod route;
