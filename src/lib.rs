//! Bridges a calculator's link-cable key-matrix stream to a host keyboard.
//!
//! The cable delivers chunks of any size; [`cable::ReassemblyBuffer`] serves them
//! back as records of an exact length. A handshake ([`handshake`]) checks the
//! protocol version and identifies the model; each poll then diffs the new
//! key-matrix snapshot against the last one ([`calc`]) and [`dispatch`] turns the
//! events into keyboard actions. The I/O itself stays with the caller.
use vstd::prelude::*;

pub mod cable;
pub mod calc;
pub mod dispatch;
pub mod handshake;
pub mod keyboard;

pub use handshake::{apollo_version, HandshakeError, I68Config};

verus! {

} // verus!
