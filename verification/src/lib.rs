//! A verified core for a zero-trust USB guard: device and policy models,
//! access control, port geo-fencing, a hash-chained audit log, and the
//! daemon's command handling.

pub mod analysis;
pub mod client;
pub mod clock;
pub mod config;
pub mod crypto;
pub mod device;
pub mod handler;
pub mod ids;
pub mod interception;
pub mod ipc;
pub mod logging;
pub mod monitor;
pub mod parse;
pub mod policy;
pub mod state;
pub mod table;
pub mod text;
