//! Server-side core of a TCP throughput-testing protocol.
//!
//! Every inbound connection first presents a 36-byte ASCII session token
//! (37 bytes on the wire, NUL-terminated). The first connection to present a
//! token becomes the session's control channel and drives a fixed command
//! state machine; later connections with the same token are data channels
//! whose bytes are counted and discarded. The modules below hold the session
//! registry, the connection classifier, the control-channel state machine and
//! the data-channel byte sink; the surrounding network I/O lives outside this
//! library and feeds these components plain bytes.

pub mod classifier;
pub mod commands;
pub mod driver;
pub mod registry;
pub mod sink;
