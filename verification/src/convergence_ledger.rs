//! Bookkeeping of registered schema convergence: which shards have been
//! scheduled, what each one's convergence task reported, and the findings and
//! unconverged list read back from it.
//!
//! The ledger holds the state the maintenance owner guards; spawning,
//! joining, and aborting the convergence tasks are the owner's concern.

use std::collections::{BTreeMap, BTreeSet};
use vstd::prelude::*;

use crate::convergence::{
    SchemaConvergenceFindingV1, SchemaConvergenceFindingView, SchemaConvergenceStageV1,
    SchemaConvergenceStateV1,
};
use crate::ordered_keys::{ordered_keys, sorted_keys};

verus! {

broadcast use vstd::std_specs::btree::group_btree_axioms, vstd::laws_cmp::group_laws_cmp;

/// What one shard's convergence task has reported.
#[derive(Clone, Debug, PartialEq, Eq)]
pub enum RegisteredSchemaConvergenceStatus {
    Pending,
    Running,
    Complete,
    Degraded { message: String },
}

/// A convergence status with its message taken as a character sequence.
pub enum ConvergenceStatusView {
    Pending,
    Running,
    Complete,
    Degraded(Seq<char>),
}

impl View for RegisteredSchemaConvergenceStatus {
    type V = ConvergenceStatusView;

    open spec fn view(&self) -> ConvergenceStatusView {
        match self {
            RegisteredSchemaConvergenceStatus::Pending => ConvergenceStatusView::Pending,
            RegisteredSchemaConvergenceStatus::Running => ConvergenceStatusView::Running,
            RegisteredSchemaConvergenceStatus::Complete => ConvergenceStatusView::Complete,
            RegisteredSchemaConvergenceStatus::Degraded { message } => {
                ConvergenceStatusView::Degraded(message@)
            },
        }
    }
}

impl RegisteredSchemaConvergenceStatus {
    /// A copy of this status.
    pub fn duplicate(&self) -> (r: Self)
        ensures
            r@ == self@,
    {
        match self {
            Self::Pending => Self::Pending,
            Self::Running => Self::Running,
            Self::Complete => Self::Complete,
            Self::Degraded { message } => Self::Degraded { message: message.clone() },
        }
    }

    pub fn is_complete(&self) -> (r: bool)
        ensures
            r == (self@ is Complete),
    {
        match self {
            Self::Complete => true,
            _ => false,
        }
    }
}

/// When and in which stage a shard's convergence was scheduled, with the
/// store label its findings carry.
pub struct ShardConvergenceMetadata {
    pub store: String,
    pub stage: SchemaConvergenceStageV1,
    pub started_at_micros: i64,
}

/// The finding state a convergence status reports.
pub open spec fn finding_state(status: ConvergenceStatusView) -> SchemaConvergenceStateV1 {
    match status {
        ConvergenceStatusView::Pending => SchemaConvergenceStateV1::PendingSchemaMigration,
        ConvergenceStatusView::Running => SchemaConvergenceStateV1::ReleasedShapeConvergenceInProgress,
        ConvergenceStatusView::Complete => SchemaConvergenceStateV1::Completed,
        ConvergenceStatusView::Degraded(_) => SchemaConvergenceStateV1::Degraded,
    }
}

/// The degraded row a convergence status reports: the failure message of a
/// degraded convergence, nothing otherwise.
pub open spec fn finding_degraded_row(status: ConvergenceStatusView) -> Option<Seq<char>> {
    match status {
        ConvergenceStatusView::Degraded(message) => Some(message),
        _ => None,
    }
}

/// The finding reported for one shard.
pub open spec fn shard_finding(
    status: ConvergenceStatusView,
    meta: ShardConvergenceMetadata,
) -> SchemaConvergenceFindingView {
    SchemaConvergenceFindingView {
        store: meta.store@,
        stage: meta.stage,
        state: finding_state(status),
        progress: None,
        started_at_micros: meta.started_at_micros,
        degraded_row: finding_degraded_row(status),
    }
}

/// Findings for the listed shards, in list order, skipping shards without
/// scheduling metadata.
pub open spec fn findings_for(
    keys: Seq<u64>,
    statuses: Map<u64, RegisteredSchemaConvergenceStatus>,
    metadata: Map<u64, ShardConvergenceMetadata>,
) -> Seq<SchemaConvergenceFindingView>
    decreases keys.len(),
{
    if keys.len() == 0 {
        Seq::empty()
    } else {
        let earlier = findings_for(keys.drop_last(), statuses, metadata);
        let k = keys.last();
        if metadata.contains_key(k) {
            earlier.push(shard_finding(statuses[k]@, metadata[k]))
        } else {
            earlier
        }
    }
}

/// The listed shards whose convergence has not completed, with their status.
pub open spec fn unconverged_for(
    keys: Seq<u64>,
    statuses: Map<u64, RegisteredSchemaConvergenceStatus>,
) -> Seq<(u64, ConvergenceStatusView)>
    decreases keys.len(),
{
    if keys.len() == 0 {
        Seq::empty()
    } else {
        let earlier = unconverged_for(keys.drop_last(), statuses);
        let k = keys.last();
        if statuses[k]@ is Complete {
            earlier
        } else {
            earlier.push((k, statuses[k]@))
        }
    }
}

pub open spec fn pair_views(
    pairs: Seq<(u64, RegisteredSchemaConvergenceStatus)>,
) -> Seq<(u64, ConvergenceStatusView)> {
    pairs.map_values(|p: (u64, RegisteredSchemaConvergenceStatus)| (p.0, p.1@))
}

pub open spec fn finding_views(
    findings: Seq<SchemaConvergenceFindingV1>,
) -> Seq<SchemaConvergenceFindingView> {
    findings.map_values(|f: SchemaConvergenceFindingV1| f@)
}

/// The per-shard convergence status and scheduling metadata, keyed by shard.
pub struct SchemaConvergenceLedger {
    accepting: bool,
    statuses: BTreeMap<u64, RegisteredSchemaConvergenceStatus>,
    metadata: BTreeMap<u64, ShardConvergenceMetadata>,
    /// Shards whose convergence task is retained until it is retired.
    retained: BTreeSet<u64>,
    /// The shard whose task holds the single convergence permit, if any.
    permit_holder: Option<u64>,
    schedule_count: usize,
    execution_count: usize,
    /// Every admitted schedule, counted without wrapping.
    scheduled_total: Ghost<nat>,
    /// Every started run, counted without wrapping.
    executed_total: Ghost<nat>,
    /// The retained shards still waiting to run.
    startable: Ghost<Set<u64>>,
}

/// One more than the largest `usize`: the modulus the counters wrap at.
pub open spec fn counter_modulus() -> nat {
    (usize::MAX as nat) + 1
}

/// Why a shard could not be retired.
#[derive(Clone, Debug, PartialEq, Eq)]
pub enum ConvergenceRetireError {
    /// The shard's convergence task failed to join; its task, status, and
    /// metadata are kept, so a later retirement or shutdown reports it again.
    JoinFailed { shard: u64, error: String },
}

/// A schedule of `shard` is admitted: the ledger accepts work and the shard
/// has no status yet.
pub open spec fn admits_schedule(ledger: SchemaConvergenceLedger, shard: u64) -> bool {
    ledger.accepting() && !ledger.statuses().contains_key(shard)
}

proof fn lemma_wrapping_successor(count: usize, total: nat)
    requires
        count as nat == total % counter_modulus(),
    ensures
        count.wrapping_add(1) as nat == (total + 1) % counter_modulus(),
{
    let m = counter_modulus() as int;
    let q = total as int / m;
    vstd::arithmetic::div_mod::lemma_fundamental_div_mod(total as int, m);
    if count < usize::MAX {
        vstd::arithmetic::div_mod::lemma_fundamental_div_mod_converse(
            (total + 1) as int,
            m,
            q,
            (count + 1) as int,
        );
    } else {
        vstd::arithmetic::div_mod::lemma_fundamental_div_mod_converse((total + 1) as int, m, q + 1, 0);
    }
}

/// The failed joins among the given ones, in order, as shard and error text.
pub open spec fn join_failures(joins: Seq<(u64, Result<(), String>)>) -> Seq<(u64, Seq<char>)>
    decreases joins.len(),
{
    if joins.len() == 0 {
        Seq::empty()
    } else {
        let earlier = join_failures(joins.drop_last());
        match joins.last().1 {
            Err(error) => earlier.push((joins.last().0, error@)),
            Ok(()) => earlier,
        }
    }
}

pub open spec fn retire_error_views(errors: Seq<ConvergenceRetireError>) -> Seq<(u64, Seq<char>)> {
    errors.map_values(
        |e: ConvergenceRetireError|
            match e {
                ConvergenceRetireError::JoinFailed { shard, error } => (shard, error@),
            },
    )
}

/// What a shutdown reports, given how joining each retained task went (in
/// the order joined): `Ok` when every join succeeded, otherwise every failed
/// join, in order.
pub fn shutdown_outcome(joins: &Vec<(u64, Result<(), String>)>) -> (r: Result<
    (),
    Vec<ConvergenceRetireError>,
>)
    ensures
        r is Ok <==> join_failures(joins@).len() == 0,
        r matches Err(failures) ==> retire_error_views(failures@) == join_failures(joins@),
{
    let mut failures: Vec<ConvergenceRetireError> = Vec::new();
    let mut i: usize = 0;
    while i < joins.len()
        invariant
            0 <= i <= joins@.len(),
            retire_error_views(failures@) == join_failures(joins@.take(i as int)),
        decreases joins.len() - i,
    {
        proof {
            assert(joins@.take(i + 1).drop_last() =~= joins@.take(i as int));
        }
        let ghost before = failures@;
        match &joins[i].1 {
            Err(error) => {
                failures.push(
                    ConvergenceRetireError::JoinFailed { shard: joins[i].0, error: error.clone() },
                );
                proof {
                    assert(retire_error_views(failures@) =~= retire_error_views(before).push(
                        (joins@[i as int].0, error@),
                    ));
                }
            },
            Ok(()) => {},
        }
        i = i + 1;
    }
    proof {
        assert(joins@.take(joins@.len() as int) =~= joins@);
    }
    if failures.len() == 0 {
        Ok(())
    } else {
        Err(failures)
    }
}

impl SchemaConvergenceLedger {
    pub closed spec fn accepting(&self) -> bool {
        self.accepting
    }

    pub closed spec fn statuses(&self) -> Map<u64, RegisteredSchemaConvergenceStatus> {
        self.statuses@
    }

    pub closed spec fn metadata(&self) -> Map<u64, ShardConvergenceMetadata> {
        self.metadata@
    }

    /// The shards whose convergence task is retained.
    pub closed spec fn retained(&self) -> Set<u64> {
        self.retained@
    }

    /// The shard whose convergence task holds the single permit, if any.
    pub closed spec fn permit_holder(&self) -> Option<u64> {
        self.permit_holder
    }

    /// How many schedules were admitted, without wrapping.
    pub closed spec fn schedules_total(&self) -> nat {
        self.scheduled_total@
    }

    /// How many runs started, without wrapping.
    pub closed spec fn executions_total(&self) -> nat {
        self.executed_total@
    }

    /// The ledger's invariant: the counters are the totals modulo the counter
    /// width, every retained shard has a status, each started run used up one
    /// admitted schedule, whose shard then no longer waits to run, and the
    /// permit, when held, is held by a running shard.
    pub closed spec fn wf(&self) -> bool {
        &&& self.schedule_count as nat == self.scheduled_total@ % counter_modulus()
        &&& self.execution_count as nat == self.executed_total@ % counter_modulus()
        &&& self.retained@.subset_of(self.statuses@.dom())
        &&& self.startable@.finite()
        &&& forall|s: u64|
            #[trigger] self.startable@.contains(s) <==> (self.retained@.contains(s)
                && self.statuses@.contains_key(s) && self.statuses@[s]@ is Pending)
        &&& self.executed_total@ + self.startable@.len() <= self.scheduled_total@
        &&& self.permit_holder matches Some(holder) ==> self.statuses@.contains_key(holder)
            && self.statuses@[holder]@ is Running
    }

    /// In a well-formed ledger no more runs have started than schedules were
    /// admitted, the counters are those totals wrapped at their width, and the
    /// permit holder is running.
    pub proof fn lemma_wf_counts(&self)
        requires
            self.wf(),
        ensures
            self.executions_total() <= self.schedules_total(),
            self.schedule_count() as nat == self.schedules_total() % counter_modulus(),
            self.execution_count() as nat == self.executions_total() % counter_modulus(),
            self.permit_holder() matches Some(holder) ==> self.statuses().contains_key(holder)
                && self.statuses()[holder]@ is Running,
    {
    }

    pub closed spec fn schedule_count(&self) -> usize {
        self.schedule_count
    }

    pub closed spec fn execution_count(&self) -> usize {
        self.execution_count
    }

    /// An accepting ledger with nothing scheduled.
    pub fn new() -> (r: Self)
        ensures
            r.accepting(),
            r.statuses() == Map::<u64, RegisteredSchemaConvergenceStatus>::empty(),
            r.metadata() == Map::<u64, ShardConvergenceMetadata>::empty(),
            r.retained() == Set::<u64>::empty(),
            r.permit_holder() is None,
            r.schedule_count() == 0,
            r.execution_count() == 0,
            r.schedules_total() == 0,
            r.executions_total() == 0,
            r.wf(),
    {
        let r = SchemaConvergenceLedger {
            accepting: true,
            statuses: BTreeMap::new(),
            metadata: BTreeMap::new(),
            retained: BTreeSet::new(),
            permit_holder: None,
            schedule_count: 0,
            execution_count: 0,
            scheduled_total: Ghost(0),
            executed_total: Ghost(0),
            startable: Ghost(Set::empty()),
        };
        proof {
            assert(r.startable@ =~= Set::<u64>::empty());
        }
        r
    }

    /// Admits one shard's convergence: only while accepting and only when the
    /// shard has no status yet. An admitted shard starts `Pending` with its
    /// scheduling metadata recorded and its task retained. Returns whether it
    /// was admitted.
    pub fn schedule(
        &mut self,
        shard: u64,
        store: String,
        stage: SchemaConvergenceStageV1,
        started_at_micros: i64,
    ) -> (admitted: bool)
        requires
            old(self).wf(),
        ensures
            final(self).wf(),
            admitted == admits_schedule(*old(self), shard),
            final(self).accepting() == old(self).accepting(),
            final(self).permit_holder() == old(self).permit_holder(),
            admitted ==> final(self).retained() == old(self).retained().insert(shard),
            !admitted ==> final(self).retained() == old(self).retained(),
            admitted ==> final(self).statuses() == old(self).statuses().insert(
                shard,
                RegisteredSchemaConvergenceStatus::Pending,
            ),
            admitted ==> final(self).metadata() == old(self).metadata().insert(
                shard,
                ShardConvergenceMetadata { store, stage, started_at_micros },
            ),
            admitted ==> final(self).schedule_count() == old(self).schedule_count().wrapping_add(1),
            admitted ==> final(self).schedules_total() == old(self).schedules_total() + 1,
            !admitted ==> final(self).statuses() == old(self).statuses(),
            !admitted ==> final(self).metadata() == old(self).metadata(),
            !admitted ==> final(self).schedule_count() == old(self).schedule_count(),
            !admitted ==> final(self).schedules_total() == old(self).schedules_total(),
            final(self).execution_count() == old(self).execution_count(),
            final(self).executions_total() == old(self).executions_total(),
    {
        if !self.accepting {
            return false;
        }
        if self.statuses.contains_key(&shard) {
            return false;
        }
        let ghost old_self = *self;
        proof {
            lemma_wrapping_successor(self.schedule_count, self.scheduled_total@);
            assert(!self.startable@.contains(shard));
        }
        self.metadata.insert(shard, ShardConvergenceMetadata { store, stage, started_at_micros });
        self.statuses.insert(shard, RegisteredSchemaConvergenceStatus::Pending);
        self.retained.insert(shard);
        self.schedule_count = self.schedule_count.wrapping_add(1);
        self.scheduled_total = Ghost(self.scheduled_total@ + 1);
        self.startable = Ghost(self.startable@.insert(shard));
        proof {
            assert forall|s: u64| #[trigger] self.startable@.contains(s) <==> (
            self.retained@.contains(s) && self.statuses@.contains_key(s)
                && self.statuses@[s]@ is Pending) by {
                if s != shard {
                    assert(old_self.startable@.contains(s) <==> (old_self.retained@.contains(s)
                        && old_self.statuses@.contains_key(s) && old_self.statuses@[s]@ is Pending));
                }
            }
        }
        true
    }

    /// Records a shard whose convergence is deferred, keeping any status and
    /// metadata it already has; no task is retained for it.
    pub fn defer(
        &mut self,
        shard: u64,
        store: String,
        started_at_micros: i64,
    )
        requires
            old(self).wf(),
        ensures
            final(self).wf(),
            final(self).accepting() == old(self).accepting(),
            final(self).permit_holder() == old(self).permit_holder(),
            final(self).statuses() == if old(self).statuses().contains_key(shard) {
                old(self).statuses()
            } else {
                old(self).statuses().insert(shard, RegisteredSchemaConvergenceStatus::Pending)
            },
            final(self).metadata() == if old(self).metadata().contains_key(shard) {
                old(self).metadata()
            } else {
                old(self).metadata().insert(
                    shard,
                    ShardConvergenceMetadata {
                        store,
                        stage: SchemaConvergenceStageV1::RegisteredSchema,
                        started_at_micros,
                    },
                )
            },
            final(self).retained() == old(self).retained(),
            final(self).schedule_count() == old(self).schedule_count(),
            final(self).execution_count() == old(self).execution_count(),
            final(self).schedules_total() == old(self).schedules_total(),
            final(self).executions_total() == old(self).executions_total(),
    {
        let ghost old_self = *self;
        if !self.metadata.contains_key(&shard) {
            self.metadata.insert(
                shard,
                ShardConvergenceMetadata {
                    store,
                    stage: SchemaConvergenceStageV1::RegisteredSchema,
                    started_at_micros,
                },
            );
        }
        if !self.statuses.contains_key(&shard) {
            proof {
                assert(!self.retained@.contains(shard));
            }
            self.statuses.insert(shard, RegisteredSchemaConvergenceStatus::Pending);
        }
        proof {
            assert forall|s: u64| #[trigger] self.startable@.contains(s) <==> (
            self.retained@.contains(s) && self.statuses@.contains_key(s)
                && self.statuses@[s]@ is Pending) by {
                assert(old_self.startable@.contains(s) <==> (old_self.retained@.contains(s)
                    && old_self.statuses@.contains_key(s) && old_self.statuses@[s]@ is Pending));
            }
        }
    }

    /// The shard's convergence task acquired the single permit and is
    /// running: only a scheduled shard whose task is retained and still
    /// pending starts, and only while no other task holds the permit.
    pub fn begin_running(&mut self, shard: u64)
        requires
            old(self).wf(),
            old(self).permit_holder() is None,
            old(self).retained().contains(shard),
            old(self).statuses().contains_key(shard),
            old(self).statuses()[shard]@ is Pending,
        ensures
            final(self).wf(),
            final(self).accepting() == old(self).accepting(),
            final(self).retained() == old(self).retained(),
            final(self).permit_holder() == Some(shard),
            final(self).statuses() == old(self).statuses().insert(
                shard,
                RegisteredSchemaConvergenceStatus::Running,
            ),
            final(self).metadata() == old(self).metadata(),
            final(self).schedule_count() == old(self).schedule_count(),
            final(self).execution_count() == old(self).execution_count().wrapping_add(1),
            final(self).schedules_total() == old(self).schedules_total(),
            final(self).executions_total() == old(self).executions_total() + 1,
    {
        let ghost old_self = *self;
        proof {
            lemma_wrapping_successor(self.execution_count, self.executed_total@);
            assert(self.startable@.contains(shard));
            assert(self.startable@.remove(shard).len() == self.startable@.len() - 1);
        }
        self.statuses.insert(shard, RegisteredSchemaConvergenceStatus::Running);
        self.permit_holder = Some(shard);
        self.execution_count = self.execution_count.wrapping_add(1);
        self.executed_total = Ghost(self.executed_total@ + 1);
        self.startable = Ghost(self.startable@.remove(shard));
        proof {
            assert forall|s: u64| #[trigger] self.startable@.contains(s) <==> (
            self.retained@.contains(s) && self.statuses@.contains_key(s)
                && self.statuses@[s]@ is Pending) by {
                if s != shard {
                    assert(old_self.startable@.contains(s) <==> (old_self.retained@.contains(s)
                        && old_self.statuses@.contains_key(s) && old_self.statuses@[s]@ is Pending));
                }
            }
        }
    }

    /// The shard's convergence task ended: success completes it, a failure
    /// (including a closed admission) leaves it degraded with the failure's
    /// message. A task that held the permit releases it.
    pub fn record_outcome(&mut self, shard: u64, outcome: Result<(), String>)
        requires
            old(self).wf(),
        ensures
            final(self).wf(),
            final(self).accepting() == old(self).accepting(),
            final(self).statuses().dom() == old(self).statuses().dom().insert(shard),
            forall|k: u64|
                k != shard && old(self).statuses().contains_key(k)
                    ==> final(self).statuses()[k] == old(self).statuses()[k],
            match outcome {
                Ok(()) => final(self).statuses()[shard]@ is Complete,
                Err(message) => final(self).statuses()[shard]@ == ConvergenceStatusView::Degraded(
                    message@,
                ),
            },
            final(self).permit_holder() == (if old(self).permit_holder() == Some(shard) {
                None
            } else {
                old(self).permit_holder()
            }),
            final(self).metadata() == old(self).metadata(),
            final(self).retained() == old(self).retained(),
            final(self).schedule_count() == old(self).schedule_count(),
            final(self).execution_count() == old(self).execution_count(),
            final(self).schedules_total() == old(self).schedules_total(),
            final(self).executions_total() == old(self).executions_total(),
    {
        let ghost old_self = *self;
        let status = match outcome {
            Ok(()) => RegisteredSchemaConvergenceStatus::Complete,
            Err(message) => RegisteredSchemaConvergenceStatus::Degraded { message },
        };
        self.statuses.insert(shard, status);
        if self.permit_holder == Some(shard) {
            self.permit_holder = None;
        }
        proof {
            assert(self.startable@.remove(shard).len() <= self.startable@.len()) by {
                if self.startable@.contains(shard) {
                    assert(self.startable@.remove(shard).len() == self.startable@.len() - 1);
                } else {
                    assert(self.startable@.remove(shard) =~= self.startable@);
                }
            }
        }
        self.startable = Ghost(self.startable@.remove(shard));
        proof {
            assert forall|s: u64| #[trigger] self.startable@.contains(s) <==> (
            self.retained@.contains(s) && self.statuses@.contains_key(s)
                && self.statuses@[s]@ is Pending) by {
                if s != shard {
                    assert(old_self.startable@.contains(s) <==> (old_self.retained@.contains(s)
                        && old_self.statuses@.contains_key(s) && old_self.statuses@[s]@ is Pending));
                }
            }
        }
    }

    /// Whether a convergence task is retained for the shard (it was admitted
    /// by a schedule and has not been retired since).
    pub fn has_retained_task(&self, shard: u64) -> (r: bool)
        ensures
            r == self.retained().contains(shard),
    {
        self.retained.contains(&shard)
    }

    /// Retires a shard's convergence, given how joining its aborted task went.
    /// A shard without a retained task is left as it is. When the task joined,
    /// the task, status, and metadata are removed, so a later schedule admits
    /// the shard again; when the join failed, everything is kept and the
    /// failure is returned. Either way the ended task no longer holds the
    /// permit.
    pub fn retire(&mut self, shard: u64, joined: Result<(), String>) -> (r: Result<
        (),
        ConvergenceRetireError,
    >)
        requires
            old(self).wf(),
        ensures
            final(self).wf(),
            final(self).accepting() == old(self).accepting(),
            final(self).schedule_count() == old(self).schedule_count(),
            final(self).execution_count() == old(self).execution_count(),
            final(self).schedules_total() == old(self).schedules_total(),
            final(self).executions_total() == old(self).executions_total(),
            !old(self).retained().contains(shard) ==> {
                &&& r is Ok
                &&& final(self).statuses() == old(self).statuses()
                &&& final(self).metadata() == old(self).metadata()
                &&& final(self).retained() == old(self).retained()
                &&& final(self).permit_holder() == old(self).permit_holder()
            },
            old(self).retained().contains(shard) ==> final(self).permit_holder() == (if old(
                self,
            ).permit_holder() == Some(shard) {
                None
            } else {
                old(self).permit_holder()
            }),
            old(self).retained().contains(shard) ==> match joined {
                Ok(()) => {
                    &&& r is Ok
                    &&& final(self).statuses() == old(self).statuses().remove(shard)
                    &&& final(self).metadata() == old(self).metadata().remove(shard)
                    &&& final(self).retained() == old(self).retained().remove(shard)
                },
                Err(error) => {
                    &&& r == Err::<(), ConvergenceRetireError>(
                        ConvergenceRetireError::JoinFailed { shard, error },
                    )
                    &&& final(self).statuses() == old(self).statuses()
                    &&& final(self).metadata() == old(self).metadata()
                    &&& final(self).retained() == old(self).retained()
                },
            },
    {
        if !self.retained.contains(&shard) {
            return Ok(());
        }
        if self.permit_holder == Some(shard) {
            self.permit_holder = None;
        }
        match joined {
            Err(error) => Err(ConvergenceRetireError::JoinFailed { shard, error }),
            Ok(()) => {
                let ghost old_self = *self;
                proof {
                    assert(self.startable@.remove(shard).len() <= self.startable@.len()) by {
                        if self.startable@.contains(shard) {
                            assert(self.startable@.remove(shard).len() == self.startable@.len()
                                - 1);
                        } else {
                            assert(self.startable@.remove(shard) =~= self.startable@);
                        }
                    }
                }
                self.retained.remove(&shard);
                self.metadata.remove(&shard);
                self.statuses.remove(&shard);
                self.startable = Ghost(self.startable@.remove(shard));
                proof {
                    assert forall|s: u64| #[trigger] self.startable@.contains(s) <==> (
                    self.retained@.contains(s) && self.statuses@.contains_key(s)
                        && self.statuses@[s]@ is Pending) by {
                        if s != shard {
                            assert(old_self.startable@.contains(s) <==> (
                            old_self.retained@.contains(s) && old_self.statuses@.contains_key(s)
                                && old_self.statuses@[s]@ is Pending));
                        }
                    }
                    assert(self.retained@.subset_of(self.statuses@.dom()));
                }
                Ok(())
            },
        }
    }

    /// Stops admitting new convergence work (retained tasks are aborted by
    /// the owner and stay retained until they are retired).
    pub fn begin_shutdown(&mut self)
        requires
            old(self).wf(),
        ensures
            final(self).wf(),
            !final(self).accepting(),
            final(self).statuses() == old(self).statuses(),
            final(self).metadata() == old(self).metadata(),
            final(self).retained() == old(self).retained(),
            final(self).permit_holder() == old(self).permit_holder(),
            final(self).schedule_count() == old(self).schedule_count(),
            final(self).execution_count() == old(self).execution_count(),
            final(self).schedules_total() == old(self).schedules_total(),
            final(self).executions_total() == old(self).executions_total(),
    {
        self.accepting = false;
    }

    /// Shuts convergence down, given how joining each retained task went (in
    /// the order joined): admission stops, every entry is kept, and the
    /// failed joins are returned in order, so a later retirement or shutdown
    /// reports them again.
    pub fn shutdown(&mut self, joins: &Vec<(u64, Result<(), String>)>) -> (r: Result<
        (),
        Vec<ConvergenceRetireError>,
    >)
        requires
            old(self).wf(),
        ensures
            final(self).wf(),
            !final(self).accepting(),
            final(self).statuses() == old(self).statuses(),
            final(self).metadata() == old(self).metadata(),
            final(self).retained() == old(self).retained(),
            final(self).permit_holder() == old(self).permit_holder(),
            final(self).schedule_count() == old(self).schedule_count(),
            final(self).execution_count() == old(self).execution_count(),
            final(self).schedules_total() == old(self).schedules_total(),
            final(self).executions_total() == old(self).executions_total(),
            r is Ok <==> join_failures(joins@).len() == 0,
            r matches Err(failures) ==> retire_error_views(failures@) == join_failures(joins@),
    {
        self.begin_shutdown();
        shutdown_outcome(joins)
    }

    pub fn is_accepting(&self) -> (r: bool)
        ensures
            r == self.accepting(),
    {
        self.accepting
    }

    /// The status recorded for a shard, if any.
    pub fn status(&self, shard: u64) -> (r: Option<RegisteredSchemaConvergenceStatus>)
        ensures
            r is Some == self.statuses().contains_key(shard),
            r matches Some(s) ==> s@ == self.statuses()[shard]@,
    {
        match self.statuses.get(&shard) {
            Some(status) => Some(status.duplicate()),
            None => None,
        }
    }

    /// Every shard whose convergence has not completed, in shard order.
    pub fn unconverged(&self) -> (r: Vec<(u64, RegisteredSchemaConvergenceStatus)>)
        ensures
            pair_views(r@) == unconverged_for(sorted_keys(self.statuses()), self.statuses()),
    {
        let keys = ordered_keys(&self.statuses);
        let mut out: Vec<(u64, RegisteredSchemaConvergenceStatus)> = Vec::new();
        let mut i: usize = 0;
        while i < keys.len()
            invariant
                0 <= i <= keys.len(),
                keys@ == sorted_keys(self.statuses@),
                keys@.to_set() == self.statuses@.dom(),
                pair_views(out@) == unconverged_for(keys@.take(i as int), self.statuses@),
            decreases keys.len() - i,
        {
            let k = keys[i];
            proof {
                assert(keys@.take(i + 1).drop_last() =~= keys@.take(i as int));
                lemma_sorted_key_in_dom(self.statuses@, keys@, i as int);
            }
            let status = self.statuses.get(&k).unwrap();
            if !status.is_complete() {
                let ghost before = out@;
                out.push((k, status.duplicate()));
                proof {
                    assert(pair_views(out@) =~= pair_views(before).push((k, status@)));
                }
            }
            i = i + 1;
        }
        proof {
            assert(keys@.take(keys@.len() as int) =~= keys@);
        }
        out
    }

    /// One finding per scheduled shard, in shard order.
    pub fn observations(&self) -> (r: Vec<SchemaConvergenceFindingV1>)
        ensures
            finding_views(r@) == findings_for(
                sorted_keys(self.statuses()),
                self.statuses(),
                self.metadata(),
            ),
    {
        let keys = ordered_keys(&self.statuses);
        let mut out: Vec<SchemaConvergenceFindingV1> = Vec::new();
        let mut i: usize = 0;
        while i < keys.len()
            invariant
                0 <= i <= keys.len(),
                keys@ == sorted_keys(self.statuses@),
                keys@.to_set() == self.statuses@.dom(),
                finding_views(out@) == findings_for(
                    keys@.take(i as int),
                    self.statuses@,
                    self.metadata@,
                ),
            decreases keys.len() - i,
        {
            let k = keys[i];
            proof {
                assert(keys@.take(i + 1).drop_last() =~= keys@.take(i as int));
                lemma_sorted_key_in_dom(self.statuses@, keys@, i as int);
            }
            let status = self.statuses.get(&k).unwrap();
            match self.metadata.get(&k) {
                Some(meta) => {
                    let state = match status {
                        RegisteredSchemaConvergenceStatus::Pending => {
                            SchemaConvergenceStateV1::PendingSchemaMigration
                        },
                        RegisteredSchemaConvergenceStatus::Running => {
                            SchemaConvergenceStateV1::ReleasedShapeConvergenceInProgress
                        },
                        RegisteredSchemaConvergenceStatus::Complete => {
                            SchemaConvergenceStateV1::Completed
                        },
                        RegisteredSchemaConvergenceStatus::Degraded { .. } => {
                            SchemaConvergenceStateV1::Degraded
                        },
                    };
                    let degraded_row = match status {
                        RegisteredSchemaConvergenceStatus::Degraded { message } => Some(
                            message.clone(),
                        ),
                        _ => None,
                    };
                    let finding = SchemaConvergenceFindingV1 {
                        store: meta.store.clone(),
                        stage: meta.stage,
                        state,
                        progress: None,
                        started_at_micros: meta.started_at_micros,
                        degraded_row,
                    };
                    let ghost before = out@;
                    out.push(finding);
                    proof {
                        assert(finding_views(out@) =~= finding_views(before).push(finding@));
                    }
                },
                None => {},
            }
            i = i + 1;
        }
        proof {
            assert(keys@.take(keys@.len() as int) =~= keys@);
        }
        out
    }

    pub fn schedule_count_value(&self) -> (r: usize)
        requires
            self.wf(),
        ensures
            r == self.schedule_count(),
            r as nat == self.schedules_total() % counter_modulus(),
    {
        self.schedule_count
    }

    pub fn execution_count_value(&self) -> (r: usize)
        requires
            self.wf(),
        ensures
            r == self.execution_count(),
            r as nat == self.executions_total() % counter_modulus(),
    {
        self.execution_count
    }
}


/// Refusal to admit another foreground project open.
#[derive(Clone, Copy, Debug, PartialEq, Eq, Structural)]
pub enum ForegroundProjectOpenError {
    /// Every admission slot of the counter is taken.
    AdmissionCounterExhausted,
}

/// How many foreground project opens are in flight. Background convergence
/// waits until none is.
pub struct ForegroundProjectOpenCounter {
    active: usize,
}

impl ForegroundProjectOpenCounter {
    pub closed spec fn active(&self) -> nat {
        self.active as nat
    }

    pub fn new() -> (r: Self)
        ensures
            r.active() == 0,
    {
        ForegroundProjectOpenCounter { active: 0 }
    }

    /// Admits one more foreground open unless the counter is exhausted.
    pub fn enter(&mut self) -> (r: Result<(), ForegroundProjectOpenError>)
        ensures
            r is Ok <==> old(self).active() < usize::MAX,
            r is Ok ==> final(self).active() == old(self).active() + 1,
            r is Err ==> final(self).active() == old(self).active(),
    {
        match self.active.checked_add(1) {
            Some(next) => {
                self.active = next;
                Ok(())
            },
            None => Err(ForegroundProjectOpenError::AdmissionCounterExhausted),
        }
    }

    /// Ends one admitted foreground open. Returns whether that settled every
    /// foreground open, which is when waiting convergence is woken.
    pub fn release(&mut self) -> (settled: bool)
        requires
            old(self).active() > 0,
        ensures
            final(self).active() == old(self).active() - 1,
            settled == (final(self).active() == 0),
    {
        self.active = self.active - 1;
        self.active == 0
    }

    /// Whether no foreground open is in flight.
    pub fn is_settled(&self) -> (r: bool)
        ensures
            r == (self.active() == 0),
    {
        self.active == 0
    }
}

/// The daemon session runtime registry's convergence bookkeeping: the
/// schema-convergence ledger and the foreground project-open counter that
/// convergence yields to.
pub struct DaemonSessionRuntimeRegistryV1 {
    registered_schema_convergence: SchemaConvergenceLedger,
    foreground_project_opens: ForegroundProjectOpenCounter,
}

impl DaemonSessionRuntimeRegistryV1 {
    pub closed spec fn convergence(&self) -> SchemaConvergenceLedger {
        self.registered_schema_convergence
    }

    pub closed spec fn foreground_opens(&self) -> nat {
        self.foreground_project_opens.active()
    }

    pub fn new() -> (r: Self)
        ensures
            r.convergence().accepting(),
            r.convergence().statuses() == Map::<u64, RegisteredSchemaConvergenceStatus>::empty(),
            r.convergence().metadata() == Map::<u64, ShardConvergenceMetadata>::empty(),
            r.convergence().retained() == Set::<u64>::empty(),
            r.convergence().permit_holder() is None,
            r.convergence().schedule_count() == 0,
            r.convergence().execution_count() == 0,
            r.convergence().schedules_total() == 0,
            r.convergence().executions_total() == 0,
            r.convergence().wf(),
            r.foreground_opens() == 0,
    {
        DaemonSessionRuntimeRegistryV1 {
            registered_schema_convergence: SchemaConvergenceLedger::new(),
            foreground_project_opens: ForegroundProjectOpenCounter::new(),
        }
    }

    /// Admits a foreground project open; convergence work waits for it.
    pub fn begin_foreground_project_open(&mut self) -> (r: Result<(), ForegroundProjectOpenError>)
        ensures
            r is Ok <==> old(self).foreground_opens() < usize::MAX,
            r is Ok ==> final(self).foreground_opens() == old(self).foreground_opens() + 1,
            r is Err ==> final(self).foreground_opens() == old(self).foreground_opens(),
            final(self).convergence() == old(self).convergence(),
    {
        self.foreground_project_opens.enter()
    }

    /// Ends an admitted foreground project open; returns whether every
    /// foreground open has now settled.
    pub fn end_foreground_project_open(&mut self) -> (settled: bool)
        requires
            old(self).foreground_opens() > 0,
        ensures
            final(self).foreground_opens() == old(self).foreground_opens() - 1,
            settled == (final(self).foreground_opens() == 0),
            final(self).convergence() == old(self).convergence(),
    {
        self.foreground_project_opens.release()
    }

    /// Whether convergence may start: no foreground open is in flight.
    pub fn foreground_project_opens_settled(&self) -> (r: bool)
        ensures
            r == (self.foreground_opens() == 0),
    {
        self.foreground_project_opens.is_settled()
    }

    /// Admits one shard's convergence (see [`SchemaConvergenceLedger::schedule`]).
    pub fn schedule_registered_schema_convergence(
        &mut self,
        shard: u64,
        store: String,
        stage: SchemaConvergenceStageV1,
        started_at_micros: i64,
    ) -> (admitted: bool)
        requires
            old(self).convergence().wf(),
        ensures
            final(self).convergence().wf(),
            admitted == admits_schedule(old(self).convergence(), shard),
            final(self).convergence().accepting() == old(self).convergence().accepting(),
            final(self).convergence().permit_holder() == old(self).convergence().permit_holder(),
            admitted ==> final(self).convergence().retained() == old(
                self,
            ).convergence().retained().insert(shard),
            !admitted ==> final(self).convergence().retained() == old(self).convergence().retained(),
            admitted ==> final(self).convergence().statuses() == old(
                self,
            ).convergence().statuses().insert(shard, RegisteredSchemaConvergenceStatus::Pending),
            admitted ==> final(self).convergence().metadata() == old(
                self,
            ).convergence().metadata().insert(
                shard,
                ShardConvergenceMetadata { store, stage, started_at_micros },
            ),
            admitted ==> final(self).convergence().schedule_count() == old(
                self,
            ).convergence().schedule_count().wrapping_add(1),
            admitted ==> final(self).convergence().schedules_total() == old(
                self,
            ).convergence().schedules_total() + 1,
            !admitted ==> final(self).convergence().statuses() == old(self).convergence().statuses(),
            !admitted ==> final(self).convergence().metadata() == old(self).convergence().metadata(),
            !admitted ==> final(self).convergence().schedule_count() == old(
                self,
            ).convergence().schedule_count(),
            !admitted ==> final(self).convergence().schedules_total() == old(
                self,
            ).convergence().schedules_total(),
            final(self).convergence().execution_count() == old(self).convergence().execution_count(),
            final(self).convergence().executions_total() == old(
                self,
            ).convergence().executions_total(),
            final(self).foreground_opens() == old(self).foreground_opens(),
    {
        self.registered_schema_convergence.schedule(shard, store, stage, started_at_micros)
    }

    /// A shard's convergence task acquired the single permit and started
    /// running: background convergence starts only while no foreground project
    /// open is in flight and no other task holds the permit, and only for a
    /// scheduled shard whose task is retained and still pending.
    pub fn begin_registered_schema_convergence(&mut self, shard: u64)
        requires
            old(self).convergence().wf(),
            old(self).foreground_opens() == 0,
            old(self).convergence().permit_holder() is None,
            old(self).convergence().retained().contains(shard),
            old(self).convergence().statuses().contains_key(shard),
            old(self).convergence().statuses()[shard]@ is Pending,
        ensures
            final(self).convergence().wf(),
            final(self).convergence().permit_holder() == Some(shard),
            final(self).convergence().retained() == old(self).convergence().retained(),
            final(self).convergence().accepting() == old(self).convergence().accepting(),
            final(self).convergence().statuses() == old(self).convergence().statuses().insert(
                shard,
                RegisteredSchemaConvergenceStatus::Running,
            ),
            final(self).convergence().metadata() == old(self).convergence().metadata(),
            final(self).convergence().schedule_count() == old(self).convergence().schedule_count(),
            final(self).convergence().execution_count() == old(
                self,
            ).convergence().execution_count().wrapping_add(1),
            final(self).convergence().schedules_total() == old(
                self,
            ).convergence().schedules_total(),
            final(self).convergence().executions_total() == old(
                self,
            ).convergence().executions_total() + 1,
            final(self).foreground_opens() == old(self).foreground_opens(),
    {
        self.registered_schema_convergence.begin_running(shard)
    }

    /// A shard's convergence task ended with the given outcome, releasing the
    /// permit if it held it.
    pub fn finish_registered_schema_convergence(&mut self, shard: u64, outcome: Result<(), String>)
        requires
            old(self).convergence().wf(),
        ensures
            final(self).convergence().wf(),
            final(self).convergence().accepting() == old(self).convergence().accepting(),
            final(self).convergence().statuses().dom() == old(
                self,
            ).convergence().statuses().dom().insert(shard),
            forall|k: u64|
                k != shard && old(self).convergence().statuses().contains_key(k)
                    ==> final(self).convergence().statuses()[k] == old(
                    self,
                ).convergence().statuses()[k],
            match outcome {
                Ok(()) => final(self).convergence().statuses()[shard]@ is Complete,
                Err(message) => final(self).convergence().statuses()[shard]@
                    == ConvergenceStatusView::Degraded(message@),
            },
            final(self).convergence().permit_holder() == (if old(
                self,
            ).convergence().permit_holder() == Some(shard) {
                None
            } else {
                old(self).convergence().permit_holder()
            }),
            final(self).convergence().metadata() == old(self).convergence().metadata(),
            final(self).convergence().retained() == old(self).convergence().retained(),
            final(self).convergence().schedule_count() == old(self).convergence().schedule_count(),
            final(self).convergence().execution_count() == old(self).convergence().execution_count(),
            final(self).convergence().schedules_total() == old(
                self,
            ).convergence().schedules_total(),
            final(self).convergence().executions_total() == old(
                self,
            ).convergence().executions_total(),
            final(self).foreground_opens() == old(self).foreground_opens(),
    {
        self.registered_schema_convergence.record_outcome(shard, outcome)
    }

    /// One scheduled shard's convergence task, run to its end given what its
    /// convergence returned: it takes the single permit (no foreground open is
    /// in flight and no other task holds it), marks the shard running, then
    /// records the outcome and gives the permit back. The shard ends complete
    /// on success and degraded with the failure's message otherwise.
    pub fn run_registered_schema_convergence(&mut self, shard: u64, outcome: Result<(), String>)
        requires
            old(self).convergence().wf(),
            old(self).foreground_opens() == 0,
            old(self).convergence().permit_holder() is None,
            old(self).convergence().retained().contains(shard),
            old(self).convergence().statuses().contains_key(shard),
            old(self).convergence().statuses()[shard]@ is Pending,
        ensures
            final(self).convergence().wf(),
            final(self).convergence().permit_holder() is None,
            final(self).convergence().statuses().dom() == old(self).convergence().statuses().dom(),
            forall|k: u64|
                k != shard && old(self).convergence().statuses().contains_key(k)
                    ==> final(self).convergence().statuses()[k] == old(
                    self,
                ).convergence().statuses()[k],
            final(self).convergence().statuses()[shard]@ == match outcome {
                Ok(()) => ConvergenceStatusView::Complete,
                Err(message) => ConvergenceStatusView::Degraded(message@),
            },
            final(self).convergence().accepting() == old(self).convergence().accepting(),
            final(self).convergence().retained() == old(self).convergence().retained(),
            final(self).convergence().metadata() == old(self).convergence().metadata(),
            final(self).convergence().schedule_count() == old(self).convergence().schedule_count(),
            final(self).convergence().execution_count() == old(
                self,
            ).convergence().execution_count().wrapping_add(1),
            final(self).convergence().schedules_total() == old(
                self,
            ).convergence().schedules_total(),
            final(self).convergence().executions_total() == old(
                self,
            ).convergence().executions_total() + 1,
            final(self).foreground_opens() == old(self).foreground_opens(),
    {
        self.begin_registered_schema_convergence(shard);
        self.finish_registered_schema_convergence(shard, outcome);
    }

    /// Whether a convergence task is retained for the shard.
    pub fn registered_schema_convergence_task_retained(&self, shard: u64) -> (r: bool)
        ensures
            r == self.convergence().retained().contains(shard),
    {
        self.registered_schema_convergence.has_retained_task(shard)
    }

    /// Retires a shard's convergence given how joining its aborted task went
    /// (see [`SchemaConvergenceLedger::retire`]).
    pub fn retire_registered_schema_convergence(
        &mut self,
        shard: u64,
        joined: Result<(), String>,
    ) -> (r: Result<(), ConvergenceRetireError>)
        requires
            old(self).convergence().wf(),
        ensures
            final(self).convergence().wf(),
            final(self).convergence().accepting() == old(self).convergence().accepting(),
            final(self).convergence().schedule_count() == old(self).convergence().schedule_count(),
            final(self).convergence().execution_count() == old(self).convergence().execution_count(),
            final(self).convergence().schedules_total() == old(
                self,
            ).convergence().schedules_total(),
            final(self).convergence().executions_total() == old(
                self,
            ).convergence().executions_total(),
            final(self).foreground_opens() == old(self).foreground_opens(),
            !old(self).convergence().retained().contains(shard) ==> {
                &&& r is Ok
                &&& final(self).convergence().statuses() == old(self).convergence().statuses()
                &&& final(self).convergence().metadata() == old(self).convergence().metadata()
                &&& final(self).convergence().retained() == old(self).convergence().retained()
                &&& final(self).convergence().permit_holder() == old(
                    self,
                ).convergence().permit_holder()
            },
            old(self).convergence().retained().contains(shard)
                ==> final(self).convergence().permit_holder() == (if old(
                self,
            ).convergence().permit_holder() == Some(shard) {
                None
            } else {
                old(self).convergence().permit_holder()
            }),
            old(self).convergence().retained().contains(shard) ==> match joined {
                Ok(()) => {
                    &&& r is Ok
                    &&& final(self).convergence().statuses() == old(
                        self,
                    ).convergence().statuses().remove(shard)
                    &&& final(self).convergence().metadata() == old(
                        self,
                    ).convergence().metadata().remove(shard)
                    &&& final(self).convergence().retained() == old(
                        self,
                    ).convergence().retained().remove(shard)
                },
                Err(error) => {
                    &&& r == Err::<(), ConvergenceRetireError>(
                        ConvergenceRetireError::JoinFailed { shard, error },
                    )
                    &&& final(self).convergence().statuses() == old(self).convergence().statuses()
                    &&& final(self).convergence().metadata() == old(self).convergence().metadata()
                    &&& final(self).convergence().retained() == old(self).convergence().retained()
                },
            },
    {
        self.registered_schema_convergence.retire(shard, joined)
    }

    /// Stops admitting convergence work.
    pub fn begin_registered_schema_convergence_shutdown(&mut self)
        requires
            old(self).convergence().wf(),
        ensures
            final(self).convergence().wf(),
            !final(self).convergence().accepting(),
            final(self).convergence().statuses() == old(self).convergence().statuses(),
            final(self).convergence().metadata() == old(self).convergence().metadata(),
            final(self).convergence().retained() == old(self).convergence().retained(),
            final(self).convergence().permit_holder() == old(self).convergence().permit_holder(),
            final(self).convergence().schedule_count() == old(self).convergence().schedule_count(),
            final(self).convergence().execution_count() == old(self).convergence().execution_count(),
            final(self).convergence().schedules_total() == old(
                self,
            ).convergence().schedules_total(),
            final(self).convergence().executions_total() == old(
                self,
            ).convergence().executions_total(),
            final(self).foreground_opens() == old(self).foreground_opens(),
    {
        self.registered_schema_convergence.begin_shutdown()
    }

    /// Shuts convergence down given how joining each retained task went (see
    /// [`SchemaConvergenceLedger::shutdown`]).
    pub fn shutdown_registered_schema_convergence(
        &mut self,
        joins: &Vec<(u64, Result<(), String>)>,
    ) -> (r: Result<(), Vec<ConvergenceRetireError>>)
        requires
            old(self).convergence().wf(),
        ensures
            final(self).convergence().wf(),
            !final(self).convergence().accepting(),
            final(self).convergence().statuses() == old(self).convergence().statuses(),
            final(self).convergence().metadata() == old(self).convergence().metadata(),
            final(self).convergence().retained() == old(self).convergence().retained(),
            final(self).convergence().permit_holder() == old(self).convergence().permit_holder(),
            final(self).convergence().schedule_count() == old(self).convergence().schedule_count(),
            final(self).convergence().execution_count() == old(self).convergence().execution_count(),
            final(self).convergence().schedules_total() == old(
                self,
            ).convergence().schedules_total(),
            final(self).convergence().executions_total() == old(
                self,
            ).convergence().executions_total(),
            final(self).foreground_opens() == old(self).foreground_opens(),
            r is Ok <==> join_failures(joins@).len() == 0,
            r matches Err(failures) ==> retire_error_views(failures@) == join_failures(joins@),
    {
        self.registered_schema_convergence.shutdown(joins)
    }

    /// Shards whose convergence has not completed, in shard order.
    pub fn unconverged_registered_schemas(&self) -> (r: Vec<
        (u64, RegisteredSchemaConvergenceStatus),
    >)
        ensures
            pair_views(r@) == unconverged_for(
                sorted_keys(self.convergence().statuses()),
                self.convergence().statuses(),
            ),
    {
        self.registered_schema_convergence.unconverged()
    }

    /// One finding per scheduled shard, in shard order.
    pub fn registered_schema_convergence_observations(&self) -> (r: Vec<
        SchemaConvergenceFindingV1,
    >)
        ensures
            finding_views(r@) == findings_for(
                sorted_keys(self.convergence().statuses()),
                self.convergence().statuses(),
                self.convergence().metadata(),
            ),
    {
        self.registered_schema_convergence.observations()
    }

    /// The convergence status recorded for a shard, if any.
    pub fn registered_schema_convergence_status(&self, shard: u64) -> (r: Option<
        RegisteredSchemaConvergenceStatus,
    >)
        ensures
            r is Some == self.convergence().statuses().contains_key(shard),
            r matches Some(s) ==> s@ == self.convergence().statuses()[shard]@,
    {
        self.registered_schema_convergence.status(shard)
    }

    /// How many convergences were admitted, wrapping at the counter's width.
    pub fn registered_schema_convergence_schedule_count_for_test(&self) -> (r: usize)
        requires
            self.convergence().wf(),
        ensures
            r == self.convergence().schedule_count(),
            r as nat == self.convergence().schedules_total() % counter_modulus(),
    {
        self.registered_schema_convergence.schedule_count_value()
    }

    /// How many convergences started running, wrapping at the counter's width.
    pub fn registered_schema_convergence_execution_count_for_test(&self) -> (r: usize)
        requires
            self.convergence().wf(),
        ensures
            r == self.convergence().execution_count(),
            r as nat == self.convergence().executions_total() % counter_modulus(),
    {
        self.registered_schema_convergence.execution_count_value()
    }
}

proof fn lemma_sorted_key_in_dom<V>(m: Map<u64, V>, keys: Seq<u64>, i: int)
    requires
        keys.to_set() == m.dom(),
        0 <= i < keys.len(),
    ensures
        m.contains_key(keys[i]),
{
    assert(keys.contains(keys[i]));
    assert(keys.to_set().contains(keys[i]));
}

} // verus!
