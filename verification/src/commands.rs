//! Single-byte command opcodes exchanged over the control channel.
//!
//! The values mirror the wire protocol's command enumeration; several are
//! defined for protocol completeness even though this server never sends or
//! expects them.

use vstd::prelude::*;

verus! {

pub const TEST_START: u8 = 1;
pub const TEST_RUNNING: u8 = 2;
pub const TEST_END: u8 = 4;
pub const PARAM_EXCHANGE: u8 = 9;
pub const CREATE_STREAMS: u8 = 10;
pub const SERVER_TERMINATE: u8 = 11;
pub const CLIENT_TERMINATE: u8 = 12;
pub const EXCHANGE_RESULTS: u8 = 13;
pub const DISPLAY_RESULTS: u8 = 14;
pub const IPERF_START: u8 = 15;
pub const IPERF_DONE: u8 = 16;

} // verus!
