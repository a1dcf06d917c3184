//! In-kernel test orchestration: a registry of kernel tests, a deferred-call
//! dispatcher, a runner that walks the registry one step per notification, a
//! synchronous runner for board-level hardware tests, and the capability
//! tokens that gate one-time privileged operations.

pub mod capabilities;
pub mod deferred_call;
pub mod hardware;
pub mod mpu;
pub mod output;
pub mod platform;
pub mod runner;
pub mod test_launcher;
pub mod text;
