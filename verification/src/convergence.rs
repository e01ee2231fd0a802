//! Schema-convergence read models: which stage a store's convergence is in,
//! how far it got, and the finding reported for it.

use vstd::prelude::*;

verus! {

/// The convergence pass a finding describes.
#[derive(Clone, Copy, Debug, PartialEq, Eq, Structural)]
pub enum SchemaConvergenceStageV1 {
    RegisteredSchema,
    RuntimeWriterLedger,
}

/// The wire tag of a convergence stage.
pub open spec fn stage_text(stage: SchemaConvergenceStageV1) -> Seq<char> {
    match stage {
        SchemaConvergenceStageV1::RegisteredSchema => "registered_schema"@,
        SchemaConvergenceStageV1::RuntimeWriterLedger => "runtime_writer_ledger"@,
    }
}

impl SchemaConvergenceStageV1 {
    pub fn as_str(self) -> (r: &'static str)
        ensures
            r@ == stage_text(self),
    {
        match self {
            Self::RegisteredSchema => "registered_schema",
            Self::RuntimeWriterLedger => "runtime_writer_ledger",
        }
    }
}

/// Where a store's convergence stands.
#[derive(Clone, Copy, Debug, PartialEq, Eq, Structural)]
pub enum SchemaConvergenceStateV1 {
    PendingSchemaMigration,
    ReleasedShapeConvergenceInProgress,
    Degraded,
    Completed,
}

/// The wire tag of a convergence state.
pub open spec fn state_text(state: SchemaConvergenceStateV1) -> Seq<char> {
    match state {
        SchemaConvergenceStateV1::PendingSchemaMigration => "pending_schema_migration"@,
        SchemaConvergenceStateV1::ReleasedShapeConvergenceInProgress => {
            "released_shape_convergence_in_progress"@
        },
        SchemaConvergenceStateV1::Degraded => "degraded"@,
        SchemaConvergenceStateV1::Completed => "completed"@,
    }
}

impl SchemaConvergenceStateV1 {
    pub fn as_str(self) -> (r: &'static str)
        ensures
            r@ == state_text(self),
    {
        match self {
            Self::PendingSchemaMigration => "pending_schema_migration",
            Self::ReleasedShapeConvergenceInProgress => "released_shape_convergence_in_progress",
            Self::Degraded => "degraded",
            Self::Completed => "completed",
        }
    }
}

/// How much of a convergence pass is done, counted in rows or pages.
#[derive(Clone, Copy, Debug, PartialEq, Eq, Structural)]
pub enum SchemaConvergenceProgressV1 {
    Rows { done: u64, remaining: u64 },
    Pages { done: u64, remaining: u64 },
}

/// One store's convergence finding.
#[derive(Clone, Debug, PartialEq, Eq)]
pub struct SchemaConvergenceFindingV1 {
    pub store: String,
    pub stage: SchemaConvergenceStageV1,
    pub state: SchemaConvergenceStateV1,
    pub progress: Option<SchemaConvergenceProgressV1>,
    pub started_at_micros: i64,
    pub degraded_row: Option<String>,
}

/// A finding with its texts taken as character sequences.
pub struct SchemaConvergenceFindingView {
    pub store: Seq<char>,
    pub stage: SchemaConvergenceStageV1,
    pub state: SchemaConvergenceStateV1,
    pub progress: Option<SchemaConvergenceProgressV1>,
    pub started_at_micros: i64,
    pub degraded_row: Option<Seq<char>>,
}

pub open spec fn optional_text(text: Option<String>) -> Option<Seq<char>> {
    match text {
        Some(t) => Some(t@),
        None => None,
    }
}

impl View for SchemaConvergenceFindingV1 {
    type V = SchemaConvergenceFindingView;

    open spec fn view(&self) -> SchemaConvergenceFindingView {
        SchemaConvergenceFindingView {
            store: self.store@,
            stage: self.stage,
            state: self.state,
            progress: self.progress,
            started_at_micros: self.started_at_micros,
            degraded_row: optional_text(self.degraded_row),
        }
    }
}

} // verus!
