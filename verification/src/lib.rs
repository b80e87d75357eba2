//! Driver logic for the two cascaded 8259 programmable interrupt controllers
//! of a PC.
//!
//! The crate decides which bytes go to which I/O ports and in which order; it
//! performs no port access itself. Every entry point returns the accesses to
//! make as plain values, and its contract states them exactly.

pub mod init;
pub mod pic;
pub mod port;
pub mod routing;
