//! Marker tokens, the cutoff notice and the numeric defaults of the gateway.

use vstd::prelude::*;

verus! {

/// Opening marker of a reasoning trace.
pub const THINK_START: &'static str = "<think>";

/// Closing marker of a reasoning trace; also the stop sequence of the reasoning phase.
pub const THINK_END: &'static str = "</think>";

/// Notice appended to a reasoning trace that ran into its budget.
pub const REASONING_CUTOFF_STUB: &'static str =
    "Right, this is taking too long... Time to write the answer.";

/// Overall token allowance of a request that names none.
pub const DEFAULT_MAX_TOKENS: i32 = 1048576;

pub const CONNECT_TIMEOUT_SECS: u64 = 30;

pub const READ_TIMEOUT_SECS: u64 = 60;

/// Capacity of the queue between the streaming orchestrator and the response writer.
pub const CHANNEL_BUFFER_SIZE: usize = 100;

pub const SERVER_PORT: u16 = 8080;

/// The opening marker as a sequence of characters.
pub open spec fn think_start() -> Seq<char> {
    "<think>"@
}

/// The closing marker as a sequence of characters.
pub open spec fn think_end() -> Seq<char> {
    "</think>"@
}

/// The cutoff notice as a sequence of characters.
pub open spec fn cutoff_stub() -> Seq<char> {
    "Right, this is taking too long... Time to write the answer."@
}

} // verus!
