//! Names of the headers of the protocol.

use vstd::prelude::*;

verus! {

pub const ICP_VERSION: &'static str = "icp-version";

pub const ICP_AGENT_ID: &'static str = "icp-agent-id";

pub const ICP_AGENT_KEY_ID: &'static str = "icp-agent-key-id";

pub const ICP_MANDATE: &'static str = "icp-mandate";

pub const ICP_REQUEST_ID: &'static str = "icp-request-id";

pub const ICP_IDEMPOTENCY_KEY: &'static str = "icp-idempotency-key";

pub const ICP_TRACE_ID: &'static str = "icp-trace-id";

pub const ICP_SIGNATURE: &'static str = "icp-signature";

pub const ICP_RECEIPT: &'static str = "icp-receipt";

pub const ICP_RECEIPT_KID: &'static str = "icp-receipt-kid";

} // verus!
