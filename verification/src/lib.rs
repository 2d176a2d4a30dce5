//! A verified core for a broadcast-to-LED-strip system.
//!
//! Independent clients send small UDP datagrams that carry pixel updates for
//! one addressable LED strip; at most one client ("device") owns write access
//! at a time. This crate holds the parts with real invariants:
//!
//! - the binary wire protocol ([`client`], [`server`]): two header bytes plus
//!   an instruction-specific payload;
//! - the device arbiter and the dispatch step ([`dispatch`]): which device may
//!   write, and what one datagram does to the pixel buffer;
//! - the pixel buffer and the one-wire signal encoder ([`leds`]): a
//!   fixed-capacity frame store and its translation into timed pulse pairs.
//!
//! Socket handling, wireless bring-up and the hardware transmitter are thin
//! I/O wrappers and live outside this crate.

pub mod client;
pub mod constants;
pub mod dispatch;
pub mod error;
pub mod leds;
pub mod server;
