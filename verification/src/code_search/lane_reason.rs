//! Stable machine tokens for why one retrieval lane could not serve: a closed
//! vocabulary the daemon emits and the MCP layer renders.

use vstd::prelude::*;

verus! {

/// A newer generation is being built and the current one is not yet admitted.
pub const GENERATION_REBUILDING: &'static str = "generation_rebuilding";

/// No complete code-index generation exists at all for this scope.
pub const GENERATION_UNAVAILABLE: &'static str = "generation_unavailable";

/// The authenticated fallback payload reports that this retriever could not
/// serve the request.
pub const RETRIEVER_UNAVAILABLE: &'static str = "retriever_unavailable";

pub open spec fn retriever_unavailable_text() -> Seq<char> {
    RETRIEVER_UNAVAILABLE@
}

} // verus!
