//! A streaming, incremental XXH64 digest over a byte source, with explicit
//! caller-driven session lifetimes, progress observation and cooperative
//! cancellation.

pub mod hashing;
pub mod session;
