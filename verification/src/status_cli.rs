//! The `tracedecay status` command's decisions: its wall-clock budget, which
//! decorations it shows, when it refreshes the worldwide-counter cache, and
//! the compact lines it prints.

use vstd::prelude::*;
use vstd::string::*;

use crate::convergence::{
    SchemaConvergenceFindingV1, SchemaConvergenceProgressV1, stage_text, state_text,
};
use crate::project_open::{ProjectOpenStatusReasonV1, ProjectOpenStatusStateV1, ProjectOpenStatusV1};
use crate::text::{decimal, i64_to_decimal, parse_u64, parse_u64_spec, signed_decimal, u64_to_decimal};

verus! {

/// How long after the carried server deadline the command stays alive, so
/// the daemon's typed receipt wins the race against the command's backstop.
pub const STATUS_RESPONSE_MARGIN_MS: u64 = 15_000;

/// The longest budget a status invocation may be given: 24 hours.
pub const MAX_STATUS_COMMAND_DEADLINE_MS: u64 = 86_400_000;

/// The daemon's default deadline for one operation.
pub const DEFAULT_DAEMON_OPERATION_DEADLINE_MS: u64 = 30_000;

/// The environment variable that overrides the status budget, in milliseconds.
pub const STATUS_DEADLINE_ENV: &'static str = "TRACEDECAY_STATUS_DEADLINE_MS";

/// Cache lifetime of the decorative worldwide total, in seconds.
pub const WORLDWIDE_TOTAL_MAX_AGE_SECS: i64 = 60;

/// Cache lifetime of the decorative country flags, in seconds.
pub const COUNTRY_FLAGS_MAX_AGE_SECS: i64 = 1800;

/// Why the status command refused to run.
#[derive(Clone, Copy, Debug, PartialEq, Eq, Structural)]
pub enum StatusCommandError {
    /// The budget override exceeds the supported 24-hour range.
    DeadlineOverrideTooLarge,
}

impl StatusCommandError {
    pub fn message(self) -> (r: String)
        ensures
            r@ == "TRACEDECAY_STATUS_DEADLINE_MS exceeds the supported monotonic deadline range"@,
    {
        String::from_str("TRACEDECAY_STATUS_DEADLINE_MS exceeds the supported monotonic deadline range")
    }
}

/// The default budget: the daemon's operation deadline plus the margin.
pub fn default_status_command_deadline() -> (r: u64)
    ensures
        r == DEFAULT_DAEMON_OPERATION_DEADLINE_MS + STATUS_RESPONSE_MARGIN_MS,
{
    DEFAULT_DAEMON_OPERATION_DEADLINE_MS.saturating_add(STATUS_RESPONSE_MARGIN_MS)
}

/// The budget an override asks for: a positive whole number of
/// milliseconds, or the default for anything else.
pub open spec fn requested_status_deadline(raw: Option<Seq<char>>) -> nat {
    match raw {
        Some(text) => match parse_u64_spec(text) {
            Some(ms) => if ms > 0 {
                ms as nat
            } else {
                (DEFAULT_DAEMON_OPERATION_DEADLINE_MS + STATUS_RESPONSE_MARGIN_MS) as nat
            },
            None => (DEFAULT_DAEMON_OPERATION_DEADLINE_MS + STATUS_RESPONSE_MARGIN_MS) as nat,
        },
        None => (DEFAULT_DAEMON_OPERATION_DEADLINE_MS + STATUS_RESPONSE_MARGIN_MS) as nat,
    }
}

pub open spec fn optional_str(raw: Option<&str>) -> Option<Seq<char>> {
    match raw {
        Some(text) => Some(text@),
        None => None,
    }
}

/// The status budget in milliseconds from the raw override: a budget above
/// 24 hours fails closed.
pub fn status_command_deadline_from(raw: Option<&str>) -> (r: Result<u64, StatusCommandError>)
    ensures
        requested_status_deadline(optional_str(raw)) > MAX_STATUS_COMMAND_DEADLINE_MS ==> r
            == Err::<u64, StatusCommandError>(StatusCommandError::DeadlineOverrideTooLarge),
        requested_status_deadline(optional_str(raw)) <= MAX_STATUS_COMMAND_DEADLINE_MS ==> r
            == Ok::<u64, StatusCommandError>(
            requested_status_deadline(optional_str(raw)) as u64,
        ),
{
    let parsed = match raw {
        Some(text) => parse_u64(text),
        None => None,
    };
    let deadline = match parsed {
        Some(ms) => if ms > 0 {
            ms
        } else {
            default_status_command_deadline()
        },
        None => default_status_command_deadline(),
    };
    if deadline > MAX_STATUS_COMMAND_DEADLINE_MS {
        return Err(StatusCommandError::DeadlineOverrideTooLarge);
    }
    Ok(deadline)
}

/// The deadline carried to the daemon: the command budget less the response
/// margin, never more than the daemon's own operation deadline.
pub open spec fn server_budget_for(command_budget_ms: u64) -> u64 {
    if command_budget_ms <= STATUS_RESPONSE_MARGIN_MS {
        0
    } else if command_budget_ms - STATUS_RESPONSE_MARGIN_MS < DEFAULT_DAEMON_OPERATION_DEADLINE_MS {
        (command_budget_ms - STATUS_RESPONSE_MARGIN_MS) as u64
    } else {
        DEFAULT_DAEMON_OPERATION_DEADLINE_MS
    }
}

pub fn status_server_request_budget(command_budget_ms: u64) -> (r: u64)
    ensures
        r == server_budget_for(command_budget_ms),
{
    let remaining = command_budget_ms.saturating_sub(STATUS_RESPONSE_MARGIN_MS);
    if remaining < DEFAULT_DAEMON_OPERATION_DEADLINE_MS {
        remaining
    } else {
        DEFAULT_DAEMON_OPERATION_DEADLINE_MS
    }
}

/// The logo is printed only for the full view on a terminal.
pub fn should_print_status_logo(short: bool, stdout_is_terminal: bool) -> (r: bool)
    ensures
        r == (!short && stdout_is_terminal),
{
    !short && stdout_is_terminal
}

/// Online decorations are shown only on a terminal.
pub fn should_fetch_online_status_embellishments(stdout_is_terminal: bool) -> (r: bool)
    ensures
        r == stdout_is_terminal,
{
    stdout_is_terminal
}

/// The cached worldwide counter and country flags, with when each was last
/// fetched (Unix seconds).
#[derive(Clone, Debug, Default, PartialEq, Eq)]
pub struct OnlineStatusCache {
    pub last_worldwide_total: u64,
    pub last_worldwide_fetch_at: i64,
    pub cached_country_flags: Vec<String>,
    pub last_flags_fetch_at: i64,
}

/// Which decorative caches have expired.
#[derive(Clone, Copy, Debug, PartialEq, Eq, Structural)]
pub struct OnlineRefreshPlan {
    pub worldwide_total: bool,
    pub country_flags: bool,
}

impl OnlineRefreshPlan {
    /// Each cache is due once its age reaches its lifetime.
    pub fn for_cache(cache: &OnlineStatusCache, now: i64) -> (r: Self)
        requires
            i64::MIN <= now - cache.last_worldwide_fetch_at <= i64::MAX,
            i64::MIN <= now - cache.last_flags_fetch_at <= i64::MAX,
        ensures
            r.worldwide_total == (now - cache.last_worldwide_fetch_at
                >= WORLDWIDE_TOTAL_MAX_AGE_SECS),
            r.country_flags == (now - cache.last_flags_fetch_at >= COUNTRY_FLAGS_MAX_AGE_SECS),
    {
        OnlineRefreshPlan {
            worldwide_total: now - cache.last_worldwide_fetch_at >= WORLDWIDE_TOTAL_MAX_AGE_SECS,
            country_flags: now - cache.last_flags_fetch_at >= COUNTRY_FLAGS_MAX_AGE_SECS,
        }
    }

    /// A refresh is worth starting when any cache expired.
    pub fn is_needed(&self) -> (r: bool)
        ensures
            r == (self.worldwide_total || self.country_flags),
    {
        self.worldwide_total || self.country_flags
    }

    /// The refresh this plan brings back from the reads it called for: a
    /// read the plan did not call for contributes nothing, whatever was
    /// passed for it.
    pub fn refresh_from(self, worldwide_total: Option<u64>, country_flags: Vec<String>) -> (r:
        OnlineRefresh)
        ensures
            r.worldwide_total == (if self.worldwide_total {
                worldwide_total
            } else {
                None::<u64>
            }),
            self.country_flags ==> r.country_flags@ == country_flags@,
            !self.country_flags ==> r.country_flags@.len() == 0,
    {
        OnlineRefresh {
            worldwide_total: if self.worldwide_total {
                worldwide_total
            } else {
                None
            },
            country_flags: if self.country_flags {
                country_flags
            } else {
                Vec::new()
            },
        }
    }
}

/// What a refresh brought back; `None` or no flags means that endpoint did
/// not answer and its cache stands untouched.
#[derive(Clone, Debug, Default, PartialEq, Eq)]
pub struct OnlineRefresh {
    pub worldwide_total: Option<u64>,
    pub country_flags: Vec<String>,
}

impl OnlineRefresh {
    /// Writes the answered reads into the cache; returns whether anything
    /// changed and so needs saving.
    pub fn apply(self, cache: &mut OnlineStatusCache, now: i64) -> (changed: bool)
        ensures
            changed == (self.worldwide_total is Some || self.country_flags@.len() > 0),
            match self.worldwide_total {
                Some(total) => final(cache).last_worldwide_total == total
                    && final(cache).last_worldwide_fetch_at == now,
                None => final(cache).last_worldwide_total == old(cache).last_worldwide_total
                    && final(cache).last_worldwide_fetch_at == old(cache).last_worldwide_fetch_at,
            },
            self.country_flags@.len() > 0 ==> final(cache).cached_country_flags@
                == self.country_flags@ && final(cache).last_flags_fetch_at == now,
            self.country_flags@.len() == 0 ==> final(cache).cached_country_flags@ == old(
                cache,
            ).cached_country_flags@ && final(cache).last_flags_fetch_at == old(
                cache,
            ).last_flags_fetch_at,
    {
        let mut changed = false;
        if let Some(total) = self.worldwide_total {
            cache.last_worldwide_total = total;
            cache.last_worldwide_fetch_at = now;
            changed = true;
        }
        if self.country_flags.len() > 0 {
            cache.cached_country_flags = self.country_flags;
            cache.last_flags_fetch_at = now;
            changed = true;
        }
        changed
    }
}

/// What the status view shows from the decorative cache.
#[derive(Clone, Debug, PartialEq, Eq)]
pub struct OnlineDecorations {
    /// Whether online decorations are shown at all.
    pub show_online: bool,
    /// The worldwide total, when shown and nonzero.
    pub worldwide: Option<u64>,
    /// The cached country flags, when shown.
    pub country_flags: Vec<String>,
    /// The refresh to start for the next invocation, if one is due.
    pub refresh: Option<OnlineRefreshPlan>,
}

/// The decorations a status render shows and the refresh it starts: only on
/// a terminal with uploads enabled, served from the cache, with one refresh
/// started when a cache expired.
pub fn online_decorations(
    stdout_is_terminal: bool,
    upload_enabled: bool,
    cache: &OnlineStatusCache,
    now: i64,
) -> (r: OnlineDecorations)
    requires
        i64::MIN <= now - cache.last_worldwide_fetch_at <= i64::MAX,
        i64::MIN <= now - cache.last_flags_fetch_at <= i64::MAX,
    ensures
        r.show_online == (stdout_is_terminal && upload_enabled),
        r.worldwide == if r.show_online && cache.last_worldwide_total > 0 {
            Some(cache.last_worldwide_total)
        } else {
            None::<u64>
        },
        r.show_online ==> r.country_flags@ == cache.cached_country_flags@,
        !r.show_online ==> r.country_flags@.len() == 0,
        r.refresh == if r.show_online && (now - cache.last_worldwide_fetch_at
            >= WORLDWIDE_TOTAL_MAX_AGE_SECS || now - cache.last_flags_fetch_at
            >= COUNTRY_FLAGS_MAX_AGE_SECS) {
            Some(
                OnlineRefreshPlan {
                    worldwide_total: now - cache.last_worldwide_fetch_at
                        >= WORLDWIDE_TOTAL_MAX_AGE_SECS,
                    country_flags: now - cache.last_flags_fetch_at >= COUNTRY_FLAGS_MAX_AGE_SECS,
                },
            )
        } else {
            None::<OnlineRefreshPlan>
        },
{
    let show_online = should_fetch_online_status_embellishments(stdout_is_terminal)
        && upload_enabled;
    let refresh = if show_online {
        let plan = OnlineRefreshPlan::for_cache(cache, now);
        if plan.is_needed() {
            Some(plan)
        } else {
            None
        }
    } else {
        None
    };
    let worldwide = if show_online && cache.last_worldwide_total > 0 {
        Some(cache.last_worldwide_total)
    } else {
        None
    };
    let country_flags = if show_online {
        cache.cached_country_flags.clone()
    } else {
        Vec::new()
    };
    OnlineDecorations { show_online, worldwide, country_flags, refresh }
}

/// A project open that has not completed is reported instead of the status
/// table.
pub fn project_open_preempts_status(project_open: Option<&ProjectOpenStatusV1>) -> (r: bool)
    ensures
        r == match project_open {
            Some(status) => status.state != ProjectOpenStatusStateV1::Completed,
            None => false,
        },
{
    match project_open {
        Some(status) => status.state != ProjectOpenStatusStateV1::Completed,
        None => false,
    }
}

/// The progress clause of a convergence line.
pub open spec fn progress_text(progress: Option<SchemaConvergenceProgressV1>) -> Seq<char> {
    match progress {
        Some(SchemaConvergenceProgressV1::Rows { done, remaining }) => ", rows "@ + decimal(
            done as nat,
        ) + " done / "@ + decimal(remaining as nat) + " remaining"@,
        Some(SchemaConvergenceProgressV1::Pages { done, remaining }) => ", pages "@ + decimal(
            done as nat,
        ) + " done / "@ + decimal(remaining as nat) + " remaining"@,
        None => Seq::empty(),
    }
}

/// The degraded-row clause of a convergence line.
pub open spec fn degraded_row_text(row: Option<String>) -> Seq<char> {
    match row {
        Some(r) => ", row "@ + r@,
        None => Seq::empty(),
    }
}

/// One compact status line for a convergence finding.
pub open spec fn schema_convergence_line_text(f: SchemaConvergenceFindingV1) -> Seq<char> {
    "schema convergence: "@ + f.store@ + " "@ + stage_text(f.stage) + " "@ + state_text(f.state)
        + progress_text(f.progress) + ", started_at="@ + signed_decimal(f.started_at_micros as int)
        + degraded_row_text(f.degraded_row)
}

fn append_progress(line: &mut String, label: &str, done: u64, remaining: u64)
    ensures
        final(line)@ == old(line)@ + label@ + decimal(done as nat) + " done / "@ + decimal(
            remaining as nat,
        ) + " remaining"@,
{
    line.append(label);
    line.append(u64_to_decimal(done).as_str());
    line.append(" done / ");
    line.append(u64_to_decimal(remaining).as_str());
    line.append(" remaining");
}

pub fn schema_convergence_line(finding: &SchemaConvergenceFindingV1) -> (r: String)
    ensures
        r@ == schema_convergence_line_text(*finding),
{
    let mut line = String::from_str("schema convergence: ");
    line.append(finding.store.as_str());
    line.append(" ");
    line.append(finding.stage.as_str());
    line.append(" ");
    line.append(finding.state.as_str());
    let ghost before_progress = line@;
    match finding.progress {
        Some(SchemaConvergenceProgressV1::Rows { done, remaining }) => {
            append_progress(&mut line, ", rows ", done, remaining);
        },
        Some(SchemaConvergenceProgressV1::Pages { done, remaining }) => {
            append_progress(&mut line, ", pages ", done, remaining);
        },
        None => {},
    }
    proof {
        assert(line@ =~= before_progress + progress_text(finding.progress));
    }
    line.append(", started_at=");
    line.append(i64_to_decimal(finding.started_at_micros).as_str());
    let ghost before_row = line@;
    match &finding.degraded_row {
        Some(row) => {
            line.append(", row ");
            line.append(row.as_str());
        },
        None => {},
    }
    proof {
        assert(line@ =~= before_row + degraded_row_text(finding.degraded_row));
    }
    line
}

/// The operator-facing words for a project-open reason.
pub open spec fn project_open_reason_text(reason: ProjectOpenStatusReasonV1) -> Seq<char> {
    match reason {
        ProjectOpenStatusReasonV1::Converging => "converging"@,
        ProjectOpenStatusReasonV1::Ready => "ready"@,
        ProjectOpenStatusReasonV1::UnrepairableVerdict => "unrepairable verdict"@,
        ProjectOpenStatusReasonV1::DeferredRepositoryDiscovery => "deferred repository discovery"@,
        ProjectOpenStatusReasonV1::RetryBackoff => "retry backoff"@,
        ProjectOpenStatusReasonV1::Unavailable => "unavailable"@,
    }
}

pub open spec fn retry_after_text(retry_after_ms: Option<u64>) -> Seq<char> {
    match retry_after_ms {
        Some(delay) => ", retry after "@ + decimal(delay as nat) + " ms"@,
        None => Seq::empty(),
    }
}

pub open spec fn detail_text(detail: Option<String>) -> Seq<char> {
    match detail {
        Some(detail) => ": "@ + detail@,
        None => Seq::empty(),
    }
}

/// The compact project-open line.
pub open spec fn project_open_line_text(status: ProjectOpenStatusV1) -> Seq<char> {
    "project open: "@ + project_open_reason_text(status.reason) + retry_after_text(
        status.retry_after_ms,
    ) + detail_text(status.detail)
}

fn project_open_reason_str(reason: ProjectOpenStatusReasonV1) -> (r: &'static str)
    ensures
        r@ == project_open_reason_text(reason),
{
    match reason {
        ProjectOpenStatusReasonV1::Converging => "converging",
        ProjectOpenStatusReasonV1::Ready => "ready",
        ProjectOpenStatusReasonV1::UnrepairableVerdict => "unrepairable verdict",
        ProjectOpenStatusReasonV1::DeferredRepositoryDiscovery => "deferred repository discovery",
        ProjectOpenStatusReasonV1::RetryBackoff => "retry backoff",
        ProjectOpenStatusReasonV1::Unavailable => "unavailable",
    }
}

pub fn project_open_line(status: &ProjectOpenStatusV1) -> (r: String)
    ensures
        r@ == project_open_line_text(*status),
{
    let mut line = String::from_str("project open: ");
    line.append(project_open_reason_str(status.reason));
    let ghost after_reason = line@;
    match status.retry_after_ms {
        Some(delay) => {
            line.append(", retry after ");
            line.append(u64_to_decimal(delay).as_str());
            line.append(" ms");
        },
        None => {},
    }
    let ghost after_retry = line@;
    match &status.detail {
        Some(detail) => {
            line.append(": ");
            line.append(detail.as_str());
        },
        None => {},
    }
    proof {
        assert(after_retry =~= after_reason + retry_after_text(status.retry_after_ms));
        assert(line@ =~= after_retry + detail_text(status.detail));
    }
    line
}

/// Which owner a project's facts are committed under.
#[derive(Clone, Debug, PartialEq, Eq)]
pub enum FactCommitOwnerV1 {
    Profile,
    Project { project_id: String },
}

/// The holographic algebra a memory store is configured with.
#[derive(Clone, Debug, PartialEq, Eq)]
pub struct MemoryAlgebraStatusV1 {
    pub name: String,
    pub hrr_dim: u64,
    pub estimated_capacity: u64,
}

/// How retrieved facts have flowed into feedback.
#[derive(Clone, Debug, PartialEq, Eq)]
pub struct MemoryFeedbackFunnelV1 {
    pub retrieval_count_total: u64,
    pub access_count_total: u64,
    pub retrieved_fact_count: u64,
    pub rated_fact_count: u64,
    pub feedback_total: u64,
    /// Whole retrievals seen per feedback event, when any feedback exists.
    pub seen_to_feedback_ratio: Option<u64>,
}

/// The holographic memory status of one owner.
#[derive(Clone, Debug, PartialEq, Eq)]
pub struct MemoryStatusV1 {
    pub owner: FactCommitOwnerV1,
    pub fact_count: u64,
    pub entity_count: u64,
    pub algebra: MemoryAlgebraStatusV1,
    pub below_default_recall_threshold_count: u64,
    pub helpful_count: u64,
    pub unhelpful_count: u64,
    pub trust_0_025_count: u64,
    pub trust_025_050_count: u64,
    pub trust_050_075_count: u64,
    pub trust_075_100_count: u64,
    pub feedback_funnel: MemoryFeedbackFunnelV1,
}

pub open spec fn owner_text(owner: FactCommitOwnerV1) -> Seq<char> {
    match owner {
        FactCommitOwnerV1::Profile => "profile"@,
        FactCommitOwnerV1::Project { project_id } => "project:"@ + project_id@,
    }
}

pub open spec fn ratio_text(ratio: Option<u64>) -> Seq<char> {
    match ratio {
        Some(r) => decimal(r as nat) + ":1"@,
        None => "n/a"@,
    }
}

/// The memory status report, one labelled value per line.
pub open spec fn memory_status_report_text(s: MemoryStatusV1) -> Seq<char> {
    "Holographic memory status\n"@ + "owner: "@ + owner_text(s.owner) + "\n"@ + "facts: "@
        + decimal(s.fact_count as nat) + "\n"@ + "entities: "@ + decimal(s.entity_count as nat)
        + "\n"@ + "algebra: "@ + s.algebra.name@ + "\n"@ + "hrr dim: "@ + decimal(
        s.algebra.hrr_dim as nat,
    ) + "\n"@ + "estimated capacity: "@ + decimal(s.algebra.estimated_capacity as nat) + "\n"@
        + "below recall floor: "@ + decimal(s.below_default_recall_threshold_count as nat)
        + "\n"@ + "helpful feedback: "@ + decimal(s.helpful_count as nat) + "\n"@
        + "unhelpful feedback: "@ + decimal(s.unhelpful_count as nat) + "\n"@
        + "trust buckets: <0.25="@ + decimal(s.trust_0_025_count as nat) + "  0.25-0.50="@
        + decimal(s.trust_025_050_count as nat) + "  0.50-0.75="@ + decimal(
        s.trust_050_075_count as nat,
    ) + "  0.75-1.00="@ + decimal(s.trust_075_100_count as nat) + "\n"@
        + "feedback funnel: retrieved="@ + decimal(
        s.feedback_funnel.retrieval_count_total as nat,
    ) + " accessed="@ + decimal(s.feedback_funnel.access_count_total as nat)
        + " facts_retrieved="@ + decimal(s.feedback_funnel.retrieved_fact_count as nat)
        + " facts_rated="@ + decimal(s.feedback_funnel.rated_fact_count as nat)
        + " feedback_total="@ + decimal(s.feedback_funnel.feedback_total as nat)
        + " seen:feedback="@ + ratio_text(s.feedback_funnel.seen_to_feedback_ratio) + "\n"@
}

fn append_labelled(report: &mut String, label: &str, value: u64, end: &str)
    ensures
        final(report)@ == old(report)@ + label@ + decimal(value as nat) + end@,
{
    report.append(label);
    report.append(u64_to_decimal(value).as_str());
    report.append(end);
}

pub fn format_memory_status_report(status: &MemoryStatusV1) -> (r: String)
    ensures
        r@ == memory_status_report_text(*status),
{
    let mut report = String::from_str("Holographic memory status\n");
    report.append("owner: ");
    let ghost before_owner = report@;
    match &status.owner {
        FactCommitOwnerV1::Profile => report.append("profile"),
        FactCommitOwnerV1::Project { project_id } => {
            report.append("project:");
            report.append(project_id.as_str());
        },
    }
    proof {
        assert(report@ =~= before_owner + owner_text(status.owner));
    }
    report.append("\n");
    append_labelled(&mut report, "facts: ", status.fact_count, "\n");
    append_labelled(&mut report, "entities: ", status.entity_count, "\n");
    report.append("algebra: ");
    report.append(status.algebra.name.as_str());
    report.append("\n");
    append_labelled(&mut report, "hrr dim: ", status.algebra.hrr_dim, "\n");
    append_labelled(&mut report, "estimated capacity: ", status.algebra.estimated_capacity, "\n");
    append_labelled(
        &mut report,
        "below recall floor: ",
        status.below_default_recall_threshold_count,
        "\n",
    );
    append_labelled(&mut report, "helpful feedback: ", status.helpful_count, "\n");
    append_labelled(&mut report, "unhelpful feedback: ", status.unhelpful_count, "\n");
    append_labelled(&mut report, "trust buckets: <0.25=", status.trust_0_025_count, "");
    append_labelled(&mut report, "  0.25-0.50=", status.trust_025_050_count, "");
    append_labelled(&mut report, "  0.50-0.75=", status.trust_050_075_count, "");
    append_labelled(&mut report, "  0.75-1.00=", status.trust_075_100_count, "\n");
    let funnel = &status.feedback_funnel;
    append_labelled(&mut report, "feedback funnel: retrieved=", funnel.retrieval_count_total, "");
    append_labelled(&mut report, " accessed=", funnel.access_count_total, "");
    append_labelled(&mut report, " facts_retrieved=", funnel.retrieved_fact_count, "");
    append_labelled(&mut report, " facts_rated=", funnel.rated_fact_count, "");
    append_labelled(&mut report, " feedback_total=", funnel.feedback_total, "");
    report.append(" seen:feedback=");
    let ghost before_ratio = report@;
    match funnel.seen_to_feedback_ratio {
        Some(ratio) => {
            report.append(u64_to_decimal(ratio).as_str());
            report.append(":1");
        },
        None => report.append("n/a"),
    }
    proof {
        assert(report@ =~= before_ratio + ratio_text(funnel.seen_to_feedback_ratio));
    }
    report.append("\n");
    proof {
        reveal_strlit("");
        assert(report@ =~= memory_status_report_text(*status));
    }
    report
}

} // verus!
