//! Code-index search outcome values: why a search could not serve, which
//! retrieval lanes answered, and the progressive-degradation gate that keeps
//! serving while any lane is ready.

pub mod lane_reason;

use vstd::prelude::*;

verus! {

/// Why a code-index search, or one of its lanes, could not serve.
#[derive(Clone, Copy, Debug, PartialEq, Eq, Structural)]
pub enum CodeIndexSearchUnavailableReasonV1 {
    CapabilityUnavailable,
    AuthorityUnavailable,
    LinkedWorktreeDisabled,
    Cancelled,
    TimedOut,
    CapacityUnavailable,
    GenerationUnavailable,
    GenerationUnverified,
    InvalidRequest,
    CorruptionResetRequired,
    Internal,
}

/// The stable wire token of an unavailable reason.
pub open spec fn unavailable_reason_text(reason: CodeIndexSearchUnavailableReasonV1) -> Seq<char> {
    match reason {
        CodeIndexSearchUnavailableReasonV1::CapabilityUnavailable => "code_index_unavailable"@,
        CodeIndexSearchUnavailableReasonV1::AuthorityUnavailable => "authority_unavailable"@,
        CodeIndexSearchUnavailableReasonV1::LinkedWorktreeDisabled => "linked_worktree_disabled"@,
        CodeIndexSearchUnavailableReasonV1::Cancelled => "cancelled"@,
        CodeIndexSearchUnavailableReasonV1::TimedOut => "timed_out"@,
        CodeIndexSearchUnavailableReasonV1::CapacityUnavailable => "search_capacity_unavailable"@,
        CodeIndexSearchUnavailableReasonV1::GenerationUnavailable => "generation_unavailable"@,
        CodeIndexSearchUnavailableReasonV1::GenerationUnverified => "generation_unverified"@,
        CodeIndexSearchUnavailableReasonV1::InvalidRequest => "invalid_request"@,
        CodeIndexSearchUnavailableReasonV1::CorruptionResetRequired => {
            "index_corruption_reset_required"@
        },
        CodeIndexSearchUnavailableReasonV1::Internal => "search_failed"@,
    }
}

/// Whether the same request can succeed later without the caller changing it.
pub open spec fn unavailable_reason_retryable(reason: CodeIndexSearchUnavailableReasonV1) -> bool {
    match reason {
        CodeIndexSearchUnavailableReasonV1::Cancelled
        | CodeIndexSearchUnavailableReasonV1::TimedOut
        | CodeIndexSearchUnavailableReasonV1::CapacityUnavailable
        | CodeIndexSearchUnavailableReasonV1::GenerationUnavailable
        | CodeIndexSearchUnavailableReasonV1::GenerationUnverified => true,
        _ => false,
    }
}

impl CodeIndexSearchUnavailableReasonV1 {
    pub fn as_str(self) -> (r: &'static str)
        ensures
            r@ == unavailable_reason_text(self),
    {
        match self {
            Self::CapabilityUnavailable => "code_index_unavailable",
            Self::AuthorityUnavailable => "authority_unavailable",
            Self::LinkedWorktreeDisabled => "linked_worktree_disabled",
            Self::Cancelled => "cancelled",
            Self::TimedOut => "timed_out",
            Self::CapacityUnavailable => "search_capacity_unavailable",
            Self::GenerationUnavailable => "generation_unavailable",
            Self::GenerationUnverified => "generation_unverified",
            Self::InvalidRequest => "invalid_request",
            Self::CorruptionResetRequired => "index_corruption_reset_required",
            Self::Internal => "search_failed",
        }
    }

    /// Whether the same request can succeed later without the caller
    /// changing it; one retry story for every surface that renders it.
    pub fn is_retryable(self) -> (r: bool)
        ensures
            r == unavailable_reason_retryable(self),
    {
        match self {
            Self::Cancelled
            | Self::TimedOut
            | Self::CapacityUnavailable
            | Self::GenerationUnavailable
            | Self::GenerationUnverified => true,
            Self::CapabilityUnavailable
            | Self::AuthorityUnavailable
            | Self::LinkedWorktreeDisabled
            | Self::InvalidRequest
            | Self::CorruptionResetRequired
            | Self::Internal => false,
        }
    }
}

/// The retrieval lanes a code-index search composes.
#[derive(Clone, Copy, Debug, PartialEq, Eq, Structural)]
pub enum RetrieverKindV1 {
    ExactLiteral,
    Lexical,
    Graph,
}

/// The public, coalesced status a fallback receipt reports for one lane.
#[derive(Clone, Copy, Debug, PartialEq, Eq, Structural)]
pub enum PublicRetrieverStatusV1 {
    Complete,
    Partial,
    Stale,
    Unavailable,
}

/// The typed retriever failure that bounded a lane's recall.
#[derive(Clone, Copy, Debug, PartialEq, Eq, Structural)]
pub enum RetrievalFailureKindV1 {
    CandidateSourcesPruned,
    AuthorityUnavailable,
    IncompatibleProjection,
    StaleSource,
    InvalidRequest,
    Internal,
}

/// The sealed internal outcome one lane produced.
#[derive(Clone, Copy, Debug, PartialEq, Eq, Structural)]
pub enum RetrieverOutcomeV1 {
    Complete,
    Partial { reason: RetrievalFailureKindV1 },
    BudgetExceeded,
    Unavailable,
}

/// One value per retrieval lane, each possibly absent.
#[derive(Clone, Copy, Debug, PartialEq, Eq)]
pub struct RetrieverLaneTableV1<T> {
    pub exact: Option<T>,
    pub lexical: Option<T>,
    pub graph: Option<T>,
}

impl<T: Copy> RetrieverLaneTableV1<T> {
    pub open spec fn lookup(&self, kind: RetrieverKindV1) -> Option<T> {
        match kind {
            RetrieverKindV1::ExactLiteral => self.exact,
            RetrieverKindV1::Lexical => self.lexical,
            RetrieverKindV1::Graph => self.graph,
        }
    }

    /// A table with no lane entered.
    pub fn new() -> (r: Self)
        ensures
            r.exact is None,
            r.lexical is None,
            r.graph is None,
    {
        RetrieverLaneTableV1 { exact: None, lexical: None, graph: None }
    }

    /// Enters (or replaces) one lane's value.
    pub fn insert(&mut self, kind: RetrieverKindV1, value: T)
        ensures
            final(self).lookup(kind) == Some(value),
            forall|other: RetrieverKindV1|
                other != kind ==> final(self).lookup(other) == old(self).lookup(other),
    {
        match kind {
            RetrieverKindV1::ExactLiteral => self.exact = Some(value),
            RetrieverKindV1::Lexical => self.lexical = Some(value),
            RetrieverKindV1::Graph => self.graph = Some(value),
        }
    }

    /// The value entered for one lane, if any.
    pub fn get(&self, kind: RetrieverKindV1) -> (r: Option<T>)
        ensures
            r == self.lookup(kind),
    {
        match kind {
            RetrieverKindV1::ExactLiteral => self.exact,
            RetrieverKindV1::Lexical => self.lexical,
            RetrieverKindV1::Graph => self.graph,
        }
    }
}

/// Per-lane serving status for one search response.
#[allow(inconsistent_fields)]
#[derive(Clone, Debug, PartialEq, Eq)]
pub enum CodeIndexLaneStatusV1 {
    /// The lane served from the current complete code generation.
    Complete,
    /// The lane served from an older complete generation while a newer one
    /// is still being built.
    Stale { generation: String },
    /// The lane served some evidence, but its recall is incomplete.
    Partial { generation: Option<String>, reason: Option<&'static str> },
    /// The lane could not run at all for this request.
    Unavailable { reason: &'static str },
}

/// A lane status with its texts taken as character sequences.
pub enum LaneStatusView {
    Complete,
    Stale(Seq<char>),
    Partial(Option<Seq<char>>, Option<Seq<char>>),
    Unavailable(Seq<char>),
}

impl View for CodeIndexLaneStatusV1 {
    type V = LaneStatusView;

    open spec fn view(&self) -> LaneStatusView {
        match self {
            CodeIndexLaneStatusV1::Complete => LaneStatusView::Complete,
            CodeIndexLaneStatusV1::Stale { generation } => LaneStatusView::Stale(generation@),
            CodeIndexLaneStatusV1::Partial { generation, reason } => LaneStatusView::Partial(
                match generation {
                    Some(g) => Some(g@),
                    None => None,
                },
                match reason {
                    Some(r) => Some(r@),
                    None => None,
                },
            ),
            CodeIndexLaneStatusV1::Unavailable { reason } => LaneStatusView::Unavailable(reason@),
        }
    }
}

/// Whether a lane with this status contributed results.
pub open spec fn lane_servable(lane: LaneStatusView) -> bool {
    !(lane is Unavailable)
}

pub open spec fn lane_status_text(lane: LaneStatusView) -> Seq<char> {
    match lane {
        LaneStatusView::Complete => "complete"@,
        LaneStatusView::Stale(_) => "stale"@,
        LaneStatusView::Partial(_, _) => "partial"@,
        LaneStatusView::Unavailable(_) => "unavailable"@,
    }
}

impl CodeIndexLaneStatusV1 {
    /// Whether this lane contributed results to the response.
    pub fn is_servable(&self) -> (r: bool)
        ensures
            r == lane_servable(self@),
    {
        match self {
            Self::Complete | Self::Stale { .. } | Self::Partial { .. } => true,
            Self::Unavailable { .. } => false,
        }
    }

    pub fn as_str(&self) -> (r: &'static str)
        ensures
            r@ == lane_status_text(self@),
    {
        match self {
            Self::Complete => "complete",
            Self::Stale { .. } => "stale",
            Self::Partial { .. } => "partial",
            Self::Unavailable { .. } => "unavailable",
        }
    }

    pub fn is_complete(&self) -> (r: bool)
        ensures
            r == (self@ is Complete),
    {
        match self {
            Self::Complete => true,
            _ => false,
        }
    }
}

/// The wire tag of the typed failure that bounded a partial lane's recall.
pub open spec fn failure_tag(reason: RetrievalFailureKindV1) -> Seq<char> {
    match reason {
        RetrievalFailureKindV1::CandidateSourcesPruned => "candidate_sources_pruned"@,
        RetrievalFailureKindV1::AuthorityUnavailable => "authority_unavailable"@,
        RetrievalFailureKindV1::IncompatibleProjection => "incompatible_projection"@,
        RetrievalFailureKindV1::StaleSource => "stale_source"@,
        RetrievalFailureKindV1::InvalidRequest => "invalid_request"@,
        RetrievalFailureKindV1::Internal => "internal"@,
    }
}

/// Why a partial lane's recall is incomplete, read from its sealed outcome:
/// the failure's tag, `budget_exceeded`, or nothing for other outcomes.
pub open spec fn partial_reason(outcome: Option<RetrieverOutcomeV1>) -> Option<Seq<char>> {
    match outcome {
        Some(RetrieverOutcomeV1::Partial { reason }) => Some(failure_tag(reason)),
        Some(RetrieverOutcomeV1::BudgetExceeded) => Some("budget_exceeded"@),
        _ => None,
    }
}

fn partial_lane_reason(outcome: Option<RetrieverOutcomeV1>) -> (r: Option<&'static str>)
    ensures
        match r {
            Some(text) => partial_reason(outcome) == Some(text@),
            None => partial_reason(outcome) is None,
        },
{
    match outcome {
        Some(RetrieverOutcomeV1::Partial { reason }) => Some(
            match reason {
                RetrievalFailureKindV1::CandidateSourcesPruned => "candidate_sources_pruned",
                RetrievalFailureKindV1::AuthorityUnavailable => "authority_unavailable",
                RetrievalFailureKindV1::IncompatibleProjection => "incompatible_projection",
                RetrievalFailureKindV1::StaleSource => "stale_source",
                RetrievalFailureKindV1::InvalidRequest => "invalid_request",
                RetrievalFailureKindV1::Internal => "internal",
            },
        ),
        Some(RetrieverOutcomeV1::BudgetExceeded) => Some("budget_exceeded"),
        _ => None,
    }
}

/// The status one lane reports from its fallback-receipt status and sealed
/// outcome. A missing receipt entry reads as unavailable.
pub open spec fn fallback_lane(
    status: Option<PublicRetrieverStatusV1>,
    outcome: Option<RetrieverOutcomeV1>,
    generation: Seq<char>,
    served_stale: bool,
) -> LaneStatusView {
    match status {
        Some(PublicRetrieverStatusV1::Complete) => if served_stale {
            LaneStatusView::Stale(generation)
        } else {
            LaneStatusView::Complete
        },
        Some(PublicRetrieverStatusV1::Partial) => LaneStatusView::Partial(
            if served_stale {
                Some(generation)
            } else {
                None
            },
            partial_reason(outcome),
        ),
        Some(PublicRetrieverStatusV1::Stale) => LaneStatusView::Stale(generation),
        _ => LaneStatusView::Unavailable(lane_reason::retriever_unavailable_text()),
    }
}

fn fallback_lane_status(
    fallback: &RetrieverLaneTableV1<PublicRetrieverStatusV1>,
    internal: &RetrieverLaneTableV1<RetrieverOutcomeV1>,
    kind: RetrieverKindV1,
    generation: &str,
    served_stale: bool,
) -> (r: CodeIndexLaneStatusV1)
    ensures
        r@ == fallback_lane(fallback.lookup(kind), internal.lookup(kind), generation@, served_stale),
{
    let status = match fallback.get(kind) {
        Some(status) => status,
        None => PublicRetrieverStatusV1::Unavailable,
    };
    match status {
        PublicRetrieverStatusV1::Complete => {
            if served_stale {
                CodeIndexLaneStatusV1::Stale { generation: String::from_str(generation) }
            } else {
                CodeIndexLaneStatusV1::Complete
            }
        },
        PublicRetrieverStatusV1::Partial => {
            let stale_generation = if served_stale {
                Some(String::from_str(generation))
            } else {
                None
            };
            CodeIndexLaneStatusV1::Partial {
                generation: stale_generation,
                reason: partial_lane_reason(internal.get(kind)),
            }
        },
        PublicRetrieverStatusV1::Stale => {
            CodeIndexLaneStatusV1::Stale { generation: String::from_str(generation) }
        },
        PublicRetrieverStatusV1::Unavailable => {
            CodeIndexLaneStatusV1::Unavailable { reason: lane_reason::RETRIEVER_UNAVAILABLE }
        },
    }
}

/// Explicit recall marker carried by every search outcome: which lanes
/// answered, on the success path as well as the failure path.
#[derive(Clone, Debug, PartialEq, Eq)]
pub struct CodeIndexSearchCoverageV1 {
    pub exact: CodeIndexLaneStatusV1,
    pub lexical: CodeIndexLaneStatusV1,
    pub graph: CodeIndexLaneStatusV1,
}

pub struct SearchCoverageView {
    pub exact: LaneStatusView,
    pub lexical: LaneStatusView,
    pub graph: LaneStatusView,
}

impl View for CodeIndexSearchCoverageV1 {
    type V = SearchCoverageView;

    open spec fn view(&self) -> SearchCoverageView {
        SearchCoverageView { exact: self.exact@, lexical: self.lexical@, graph: self.graph@ }
    }
}

/// At least one lane produced results.
pub open spec fn coverage_any_servable(c: SearchCoverageView) -> bool {
    lane_servable(c.exact) || lane_servable(c.lexical) || lane_servable(c.graph)
}

/// Some lane did not serve the current complete generation.
pub open spec fn coverage_degraded(c: SearchCoverageView) -> bool {
    !(c.exact is Complete && c.lexical is Complete && c.graph is Complete)
}

impl CodeIndexSearchCoverageV1 {
    /// Every lane served the current generation.
    pub fn warm() -> (r: Self)
        ensures
            r@.exact is Complete,
            r@.lexical is Complete,
            r@.graph is Complete,
    {
        CodeIndexSearchCoverageV1 {
            exact: CodeIndexLaneStatusV1::Complete,
            lexical: CodeIndexLaneStatusV1::Complete,
            graph: CodeIndexLaneStatusV1::Complete,
        }
    }

    /// Every lane answered from an older complete generation.
    pub fn stale(generation: &str) -> (r: Self)
        ensures
            r@.exact == LaneStatusView::Stale(generation@),
            r@.lexical == LaneStatusView::Stale(generation@),
            r@.graph == LaneStatusView::Stale(generation@),
    {
        CodeIndexSearchCoverageV1 {
            exact: CodeIndexLaneStatusV1::Stale { generation: String::from_str(generation) },
            lexical: CodeIndexLaneStatusV1::Stale { generation: String::from_str(generation) },
            graph: CodeIndexLaneStatusV1::Stale { generation: String::from_str(generation) },
        }
    }

    /// Coverage from the authenticated fallback receipt and the sealed
    /// per-lane outcomes of the same composition, instead of assuming every
    /// admitted lane completed.
    pub fn from_fallback_lane_coverage(
        fallback: &RetrieverLaneTableV1<PublicRetrieverStatusV1>,
        internal: &RetrieverLaneTableV1<RetrieverOutcomeV1>,
        generation: &str,
        served_stale: bool,
    ) -> (r: Self)
        ensures
            r@.exact == fallback_lane(
                fallback.exact,
                internal.exact,
                generation@,
                served_stale,
            ),
            r@.lexical == fallback_lane(
                fallback.lexical,
                internal.lexical,
                generation@,
                served_stale,
            ),
            r@.graph == fallback_lane(
                fallback.graph,
                internal.graph,
                generation@,
                served_stale,
            ),
    {
        CodeIndexSearchCoverageV1 {
            exact: fallback_lane_status(
                fallback,
                internal,
                RetrieverKindV1::ExactLiteral,
                generation,
                served_stale,
            ),
            lexical: fallback_lane_status(
                fallback,
                internal,
                RetrieverKindV1::Lexical,
                generation,
                served_stale,
            ),
            graph: fallback_lane_status(
                fallback,
                internal,
                RetrieverKindV1::Graph,
                generation,
                served_stale,
            ),
        }
    }

    /// No lane can serve this request.
    pub fn unavailable(reason: &'static str) -> (r: Self)
        ensures
            r@.exact == LaneStatusView::Unavailable(reason@),
            r@.lexical == LaneStatusView::Unavailable(reason@),
            r@.graph == LaneStatusView::Unavailable(reason@),
    {
        CodeIndexSearchCoverageV1 {
            exact: CodeIndexLaneStatusV1::Unavailable { reason },
            lexical: CodeIndexLaneStatusV1::Unavailable { reason },
            graph: CodeIndexLaneStatusV1::Unavailable { reason },
        }
    }

    /// The three lanes, exact first, then lexical, then graph.
    pub fn lanes(&self) -> (r: [&CodeIndexLaneStatusV1; 3])
        ensures
            r[0] == &self.exact,
            r[1] == &self.lexical,
            r[2] == &self.graph,
    {
        [&self.exact, &self.lexical, &self.graph]
    }

    /// At least one lane produced results, so the response is worth returning.
    pub fn any_servable(&self) -> (r: bool)
        ensures
            r == coverage_any_servable(self@),
    {
        self.exact.is_servable() || self.lexical.is_servable() || self.graph.is_servable()
    }

    /// Some lane is missing, so recall is partial and callers must be told.
    pub fn is_degraded(&self) -> (r: bool)
        ensures
            r == coverage_degraded(self@),
    {
        !(self.exact.is_complete() && self.lexical.is_complete() && self.graph.is_complete())
    }

    /// Keeps serving while any lane is ready and surfaces the typed failure
    /// only when none is.
    pub fn degraded_or_fail(self, reason: CodeIndexSearchUnavailableReasonV1) -> (r: Result<
        Self,
        CodeIndexSearchUnavailableReasonV1,
    >)
        ensures
            coverage_any_servable(self@) ==> r == Ok::<Self, CodeIndexSearchUnavailableReasonV1>(
                self,
            ),
            !coverage_any_servable(self@) ==> r == Err::<Self, CodeIndexSearchUnavailableReasonV1>(
                reason,
            ),
    {
        if self.any_servable() {
            Ok(self)
        } else {
            Err(reason)
        }
    }
}

/// Authorized display metadata for one search result.
#[derive(Clone, Debug, PartialEq, Eq)]
pub struct CodeIndexSearchDisplayV1 {
    pub name: String,
    pub qualified_name: String,
    pub kind: String,
    /// Repository-relative logical path of the declaring file.
    pub path: String,
}

/// A search abandoned before any lane could serve.
#[derive(Clone, Debug, PartialEq, Eq)]
pub struct CodeIndexSearchUnavailableV1 {
    pub code_generation: Option<String>,
    pub reason: CodeIndexSearchUnavailableReasonV1,
    /// Lane state at the point the request was abandoned.
    pub coverage: CodeIndexSearchCoverageV1,
}

/// The most changes one branch-diff page carries.
pub const CODE_INDEX_BRANCH_DIFF_MAX_RESULTS_V1: usize = 256;

/// Why a branch diff answered only partially.
#[derive(Clone, Copy, Debug, PartialEq, Eq, Structural)]
pub enum CodeIndexBranchDiffPartialReasonV1 {
    ResultLimit,
}

impl CodeIndexBranchDiffPartialReasonV1 {
    pub fn as_str(self) -> (r: &'static str)
        ensures
            r@ == "result_limit"@,
    {
        match self {
            Self::ResultLimit => "result_limit",
        }
    }
}

/// A branch diff that could not be answered.
#[derive(Clone, Debug, PartialEq, Eq)]
pub struct CodeIndexBranchDiffUnavailableV1 {
    pub base_generation: Option<String>,
    pub head_generation: Option<String>,
    pub reason: CodeIndexSearchUnavailableReasonV1,
}

/// Undegraded coverage always serves, so coverage from which no lane can
/// serve is always reported degraded.
pub proof fn law_degraded_or_fail_gate(c: SearchCoverageView)
    ensures
        !coverage_degraded(c) ==> coverage_any_servable(c),
        !coverage_any_servable(c) ==> coverage_degraded(c),
{
}

/// A search that answered from an older generation is never reported as
/// complete: every lane it built is stale, partial, or unavailable.
pub proof fn law_stale_serving_is_degraded(
    fallback: RetrieverLaneTableV1<PublicRetrieverStatusV1>,
    internal: RetrieverLaneTableV1<RetrieverOutcomeV1>,
    generation: Seq<char>,
)
    ensures
        !(fallback_lane(fallback.exact, internal.exact, generation, true) is Complete),
        !(fallback_lane(fallback.lexical, internal.lexical, generation, true) is Complete),
        !(fallback_lane(fallback.graph, internal.graph, generation, true) is Complete),
{
}

/// A lane the receipt does not list cannot serve.
pub proof fn law_missing_receipt_lane_is_unavailable(
    outcome: Option<RetrieverOutcomeV1>,
    generation: Seq<char>,
    served_stale: bool,
)
    ensures
        !lane_servable(fallback_lane(None, outcome, generation, served_stale)),
{
}

} // verus!
