//! Constants of the protocol.

use vstd::prelude::*;

pub mod headers;

verus! {

/// Wire version of the protocol.
pub const ICP_VERSION: &'static str = "2026-04-21";

/// Maximum accepted size of a request body, in bytes.
pub const MAX_REQUEST_BODY_BYTES: usize = 1_048_576;

/// Default lifetime of a transaction that does not reach a terminal state, in
/// seconds.
pub const DEFAULT_TRANSACTION_TTL_SECS: u64 = 21_600;

} // verus!
