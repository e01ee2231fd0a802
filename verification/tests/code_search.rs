use tracedecay_status::code_search::lane_reason;
use tracedecay_status::code_search::{
    CodeIndexBranchDiffPartialReasonV1, CodeIndexLaneStatusV1, CodeIndexSearchCoverageV1,
    CodeIndexSearchUnavailableReasonV1, PublicRetrieverStatusV1, RetrievalFailureKindV1,
    RetrieverKindV1, RetrieverLaneTableV1, RetrieverOutcomeV1,
};

#[test]
fn warm_coverage_reports_no_degradation() {
    let coverage = CodeIndexSearchCoverageV1::warm();

    assert!(!coverage.is_degraded());
    assert!(coverage.any_servable());
    assert!(coverage
        .clone()
        .degraded_or_fail(CodeIndexSearchUnavailableReasonV1::Internal)
        .is_ok());
}

fn fallback_table(
    exact: PublicRetrieverStatusV1,
    lexical: PublicRetrieverStatusV1,
    graph: PublicRetrieverStatusV1,
) -> RetrieverLaneTableV1<PublicRetrieverStatusV1> {
    let mut table = RetrieverLaneTableV1::new();
    table.insert(RetrieverKindV1::ExactLiteral, exact);
    table.insert(RetrieverKindV1::Lexical, lexical);
    table.insert(RetrieverKindV1::Graph, graph);
    table
}

#[test]
fn fallback_lane_coverage_preserves_unavailable_and_partial_states() {
    let fallback = fallback_table(
        PublicRetrieverStatusV1::Complete,
        PublicRetrieverStatusV1::Complete,
        PublicRetrieverStatusV1::Unavailable,
    );
    let unavailable = CodeIndexSearchCoverageV1::from_fallback_lane_coverage(
        &fallback,
        &RetrieverLaneTableV1::new(),
        "generation.current",
        false,
    );
    assert_eq!(
        unavailable.graph,
        CodeIndexLaneStatusV1::Unavailable {
            reason: lane_reason::RETRIEVER_UNAVAILABLE,
        }
    );
    assert_eq!(unavailable.exact, CodeIndexLaneStatusV1::Complete);
    assert_eq!(unavailable.lexical, CodeIndexLaneStatusV1::Complete);

    let mut partial_fallback = fallback;
    partial_fallback.insert(RetrieverKindV1::Graph, PublicRetrieverStatusV1::Partial);
    let partial = CodeIndexSearchCoverageV1::from_fallback_lane_coverage(
        &partial_fallback,
        &RetrieverLaneTableV1::new(),
        "generation.previous",
        true,
    );
    assert_eq!(
        partial.graph,
        CodeIndexLaneStatusV1::Partial {
            generation: Some("generation.previous".to_owned()),
            reason: None,
        }
    );
    assert!(partial.graph.is_servable());
}

#[test]
fn a_pruned_lexical_lane_names_why_its_recall_is_partial() {
    let fallback = fallback_table(
        PublicRetrieverStatusV1::Complete,
        PublicRetrieverStatusV1::Partial,
        PublicRetrieverStatusV1::Complete,
    );
    let mut internal = RetrieverLaneTableV1::new();
    internal.insert(
        RetrieverKindV1::Lexical,
        RetrieverOutcomeV1::Partial {
            reason: RetrievalFailureKindV1::CandidateSourcesPruned,
        },
    );
    let coverage = CodeIndexSearchCoverageV1::from_fallback_lane_coverage(
        &fallback,
        &internal,
        "generation.current",
        false,
    );
    assert_eq!(coverage.exact, CodeIndexLaneStatusV1::Complete);
    assert_eq!(coverage.graph, CodeIndexLaneStatusV1::Complete);
    assert_eq!(
        coverage.lexical,
        CodeIndexLaneStatusV1::Partial {
            generation: None,
            reason: Some("candidate_sources_pruned"),
        }
    );
    assert!(coverage.lexical.is_servable());
    assert!(coverage.is_degraded());
}

#[test]
fn a_ready_lane_keeps_serving_while_the_generation_rebuilds() {
    let stale = CodeIndexSearchCoverageV1::stale("generation.previous");
    assert!(stale.any_servable());
    assert!(stale.is_degraded());
    assert_eq!(
        stale.exact,
        CodeIndexLaneStatusV1::Stale {
            generation: "generation.previous".to_owned(),
        }
    );
    assert!(stale.exact.is_servable());
    assert_eq!(stale.lexical, stale.exact);
    assert_eq!(stale.graph, stale.exact);
}

#[test]
fn every_lane_down_fails_fast_with_the_typed_reason() {
    let coverage = CodeIndexSearchCoverageV1::unavailable(lane_reason::GENERATION_UNAVAILABLE);

    assert!(!coverage.any_servable());
    assert!(coverage.is_degraded());
    assert_eq!(
        coverage.degraded_or_fail(CodeIndexSearchUnavailableReasonV1::GenerationUnavailable),
        Err(CodeIndexSearchUnavailableReasonV1::GenerationUnavailable)
    );
}

#[test]
fn cold_activation_is_distinct_from_an_absent_generation() {
    let reason = CodeIndexSearchUnavailableReasonV1::GenerationUnverified;
    assert_eq!(reason.as_str(), "generation_unverified");
    let coverage = CodeIndexSearchCoverageV1::unavailable(lane_reason::GENERATION_REBUILDING);
    assert_eq!(coverage.degraded_or_fail(reason), Err(reason));
}

#[test]
fn a_lane_missing_from_the_receipt_is_unavailable() {
    let mut fallback = RetrieverLaneTableV1::new();
    fallback.insert(RetrieverKindV1::ExactLiteral, PublicRetrieverStatusV1::Stale);
    let coverage = CodeIndexSearchCoverageV1::from_fallback_lane_coverage(
        &fallback,
        &RetrieverLaneTableV1::new(),
        "generation.previous",
        true,
    );
    assert_eq!(
        coverage.exact,
        CodeIndexLaneStatusV1::Stale {
            generation: "generation.previous".to_owned()
        }
    );
    assert_eq!(
        coverage.lexical,
        CodeIndexLaneStatusV1::Unavailable {
            reason: lane_reason::RETRIEVER_UNAVAILABLE
        }
    );
    assert!(coverage.clone().degraded_or_fail(CodeIndexSearchUnavailableReasonV1::Internal).is_ok());
}

#[test]
fn reasons_and_lane_labels_use_their_wire_names() {
    assert_eq!(CodeIndexSearchUnavailableReasonV1::TimedOut.as_str(), "timed_out");
    assert!(CodeIndexSearchUnavailableReasonV1::TimedOut.is_retryable());
    assert!(!CodeIndexSearchUnavailableReasonV1::InvalidRequest.is_retryable());
    assert_eq!(CodeIndexLaneStatusV1::Complete.as_str(), "complete");
    assert_eq!(CodeIndexBranchDiffPartialReasonV1::ResultLimit.as_str(), "result_limit");
}
