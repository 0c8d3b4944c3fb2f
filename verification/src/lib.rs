//! The decisions of an interactive line-oriented chat client.
//!
//! The client keeps one duplex text connection to a peer: the operator types
//! lines that are sent out, lines that arrive are shown, and the session ends
//! on the operator's exit command, when the peer goes away, or on an
//! interrupt. This library holds everything the client decides: whether an
//! address is well formed, what to do with each line, and how the session
//! shuts down. Reading, writing and signal handling are left to the program
//! that drives it.

pub mod address;
pub mod line;
pub mod session;
pub mod trace;
