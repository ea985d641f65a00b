//! The versions that the peers name to each other.

use vstd::prelude::*;

verus! {

/// The newest version of the protocol.
pub const LATEST_PROTOCOL_VERSION: &'static str = "2024-11-05";

/// The versions of the protocol that can be agreed on, newest first.
pub const SUPPORTED_PROTOCOL_VERSIONS: [&'static str; 2] = [LATEST_PROTOCOL_VERSION, "2024-10-07"];

/// The version of JSON-RPC that every frame names in its member `jsonrpc`.
pub const JSONRPC_VERSION: &'static str = "2.0";

} // verus!
