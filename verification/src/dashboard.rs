//! The local dashboard's admission rules: which hosts it binds, which
//! requests it admits and with what deadline, and how project-scoped
//! requests are routed.

use vstd::prelude::*;

use crate::mcp_status::{storage_mode_name, StorageMode};
use crate::text::{
    contains_char, eq_ignore_ascii_case, eq_ignore_ascii_case_spec, has_prefix, has_suffix,
    i64_to_decimal, signed_decimal, str_eq, strip_prefix, strip_suffix, trim, trimmed,
};

verus! {

/// Default port for the dashboard (chosen to avoid common dev-server
/// defaults).
pub const DEFAULT_PORT: u16 = 7341;

// === Binding ================================================================

/// The dashboard refused a configuration value.
#[derive(Clone, Debug, PartialEq, Eq)]
pub enum DashboardConfigError {
    /// The requested bind host is not a loopback name; carries the trimmed host.
    NonLoopbackHost { host: String },
}

/// A loopback name: `localhost` in any ASCII case, `127.0.0.1`, or `::1`.
pub open spec fn is_loopback_name(host: Seq<char>) -> bool {
    eq_ignore_ascii_case_spec(host, "localhost"@) || host == "127.0.0.1"@ || host == "::1"@
}

fn loopback_name(host: &str) -> (r: bool)
    ensures
        r == is_loopback_name(host@),
{
    eq_ignore_ascii_case(host, "localhost") || str_eq(host, "127.0.0.1") || str_eq(host, "::1")
}

/// The dashboard binds loopback only: the trimmed host when it names
/// loopback, an error carrying it otherwise.
pub fn validate_dashboard_host(host: &str) -> (r: Result<&str, DashboardConfigError>)
    ensures
        is_loopback_name(trimmed(host@)) ==> (r matches Ok(h) && h@ == trimmed(host@)),
        !is_loopback_name(trimmed(host@)) ==> (r matches Err(
            DashboardConfigError::NonLoopbackHost { host: h },
        ) && h@ == trimmed(host@)),
{
    let host = trim(host);
    if loopback_name(host) {
        return Ok(host);
    }
    Err(DashboardConfigError::NonLoopbackHost { host: host.to_string() })
}

// === Request deadlines ======================================================

/// The ordinary deadline of an admitted dashboard request.
pub const DASHBOARD_CODE_GRAPH_REQUEST_DEADLINE_MICROS: i64 = 30000000;

/// The deadline of a request that runs an automation backend.
pub const DASHBOARD_AUTOMATION_RUN_REQUEST_DEADLINE_MICROS: i64 = 300000000;

/// One non-empty path segment.
pub open spec fn is_route_segment(s: Seq<char>) -> bool {
    s.len() > 0 && !s.contains('/')
}

/// `path` is `prefix`, one non-empty segment, then `suffix`.
pub open spec fn one_segment_between(path: Seq<char>, prefix: Seq<char>, suffix: Seq<char>) -> bool {
    has_prefix(path, prefix) && has_suffix(path, suffix) && prefix.len() + suffix.len()
        <= path.len() && is_route_segment(
        path.subrange(prefix.len() as int, path.len() - suffix.len()),
    )
}

/// The routes that run an automation backend: the retained fact-store
/// curation operation, globally or for one project, and an automation job
/// run.
pub open spec fn is_automation_run_route(path: Seq<char>) -> bool {
    path == "/api/application/retained/fact_store_curate"@ || one_segment_between(
        path,
        "/api/projects/"@,
        "/application/retained/fact_store_curate"@,
    ) || one_segment_between(path, "/api/automation/jobs/"@, "/run"@)
}

fn segment_between(path: &str, prefix: &str, suffix: &str) -> (r: bool)
    ensures
        r == one_segment_between(path@, prefix@, suffix@),
{
    match strip_prefix(path, prefix) {
        None => false,
        Some(rest) => {
            proof {
                if has_suffix(path@, suffix@) && prefix@.len() + suffix@.len() <= path@.len() {
                    assert(rest@.subrange(rest@.len() - suffix@.len(), rest@.len() as int)
                        =~= path@.subrange(path@.len() - suffix@.len(), path@.len() as int));
                }
                if has_suffix(rest@, suffix@) {
                    assert(rest@.subrange(rest@.len() - suffix@.len(), rest@.len() as int)
                        =~= path@.subrange(path@.len() - suffix@.len(), path@.len() as int));
                }
            }
            match strip_suffix(rest, suffix) {
                None => false,
                Some(middle) => {
                    proof {
                        assert(middle@ =~= path@.subrange(
                            prefix@.len() as int,
                            path@.len() - suffix@.len(),
                        ));
                    }
                    middle.unicode_len() > 0 && !contains_char(middle, '/')
                },
            }
        },
    }
}

/// The deadline budget of a request to `path`: backend-sized for the
/// automation-run routes, ordinary for everything else.
pub fn dashboard_http_request_deadline_micros(path: &str) -> (r: i64)
    ensures
        r == (if is_automation_run_route(path@) {
            DASHBOARD_AUTOMATION_RUN_REQUEST_DEADLINE_MICROS
        } else {
            DASHBOARD_CODE_GRAPH_REQUEST_DEADLINE_MICROS
        }),
{
    if str_eq(path, "/api/application/retained/fact_store_curate") || segment_between(
        path,
        "/api/projects/",
        "/application/retained/fact_store_curate",
    ) || segment_between(path, "/api/automation/jobs/", "/run") {
        DASHBOARD_AUTOMATION_RUN_REQUEST_DEADLINE_MICROS
    } else {
        DASHBOARD_CODE_GRAPH_REQUEST_DEADLINE_MICROS
    }
}

// === Host and origin admission ==============================================

/// An authority as the HTTP library parses it: its host (brackets kept for
/// an IPv6 literal), its port, and its text.
#[derive(Clone, Debug, PartialEq, Eq)]
pub struct ParsedAuthorityV1 {
    pub host: String,
    pub port: Option<u16>,
    pub text: String,
}

pub struct ParsedAuthorityView {
    pub host: Seq<char>,
    pub port: Option<u16>,
    pub text: Seq<char>,
}

impl View for ParsedAuthorityV1 {
    type V = ParsedAuthorityView;

    open spec fn view(&self) -> ParsedAuthorityView {
        ParsedAuthorityView { host: self.host@, port: self.port, text: self.text@ }
    }
}

/// An origin URI as the HTTP library parses it: its scheme and its
/// authority's text, where present.
#[derive(Clone, Debug, PartialEq, Eq)]
pub struct ParsedOriginV1 {
    pub scheme: Option<String>,
    pub authority: Option<String>,
}

pub struct ParsedOriginView {
    pub scheme: Option<Seq<char>>,
    pub authority: Option<Seq<char>>,
}

pub open spec fn optional_text_view(t: Option<String>) -> Option<Seq<char>> {
    match t {
        Some(s) => Some(s@),
        None => None,
    }
}

impl View for ParsedOriginV1 {
    type V = ParsedOriginView;

    open spec fn view(&self) -> ParsedOriginView {
        ParsedOriginView {
            scheme: optional_text_view(self.scheme),
            authority: optional_text_view(self.authority),
        }
    }
}

/// What `http::uri::Authority` parses from a text, `None` when it rejects it.
pub uninterp spec fn parsed_authority(text: Seq<char>) -> Option<ParsedAuthorityView>;

/// What `http::Uri` parses from a text, `None` when it rejects it.
pub uninterp spec fn parsed_origin(text: Seq<char>) -> Option<ParsedOriginView>;

/// Parses a Host header value with `http::uri::Authority::from_str` and reads
/// its `host()`, `port_u16()`, and `as_str()`. Claims that the outcome is a
/// function of the text and, as the crate's source shows (an accepted
/// authority keeps a copy of every byte it was parsed from), that an accepted
/// authority's text is the header's text.
#[verifier::external_body]
fn parse_authority(text: &str) -> (r: Option<ParsedAuthorityV1>)
    ensures
        match r {
            Some(a) => parsed_authority(text@) == Some(a@),
            None => parsed_authority(text@) is None,
        },
        r matches Some(a) ==> a.text@ == text@,
{
    match text.parse::<axum::http::uri::Authority>() {
        Ok(a) => Some(
            ParsedAuthorityV1 {
                host: a.host().to_string(),
                port: a.port_u16(),
                text: a.as_str().to_string(),
            },
        ),
        Err(_) => None,
    }
}

/// Parses an Origin header value with `http::Uri::from_str` and reads its
/// `scheme_str()` and its authority's `as_str()`; claims only that the
/// outcome is a function of the text.
#[verifier::external_body]
fn parse_origin(text: &str) -> (r: Option<ParsedOriginV1>)
    ensures
        match r {
            Some(o) => parsed_origin(text@) == Some(o@),
            None => parsed_origin(text@) is None,
        },
{
    match text.parse::<axum::http::Uri>() {
        Ok(u) => Some(
            ParsedOriginV1 {
                scheme: u.scheme_str().map(str::to_string),
                authority: u.authority().map(|a| a.as_str().to_string()),
            },
        ),
        Err(_) => None,
    }
}

/// Why a request was refused before reaching a route.
#[derive(Clone, Copy, Debug, PartialEq, Eq, Structural)]
pub enum DashboardAdmissionRefusalV1 {
    MissingHost,
    InvalidHost,
    HostNotBoundLoopback,
    InvalidOrigin,
    OriginMismatch,
}

pub open spec fn refusal_detail(refusal: DashboardAdmissionRefusalV1) -> Seq<char> {
    match refusal {
        DashboardAdmissionRefusalV1::MissingHost => "missing Host header"@,
        DashboardAdmissionRefusalV1::InvalidHost => "invalid Host header"@,
        DashboardAdmissionRefusalV1::HostNotBoundLoopback => {
            "Host must name the bound loopback dashboard"@
        },
        DashboardAdmissionRefusalV1::InvalidOrigin => "invalid Origin header"@,
        DashboardAdmissionRefusalV1::OriginMismatch => "Origin must match the dashboard"@,
    }
}

impl DashboardAdmissionRefusalV1 {
    /// The detail the forbidden response carries.
    pub fn detail(self) -> (r: &'static str)
        ensures
            r@ == refusal_detail(self),
    {
        match self {
            Self::MissingHost => "missing Host header",
            Self::InvalidHost => "invalid Host header",
            Self::HostNotBoundLoopback => "Host must name the bound loopback dashboard",
            Self::InvalidOrigin => "invalid Origin header",
            Self::OriginMismatch => "Origin must match the dashboard",
        }
    }
}

/// `s` with every leading and trailing `[` and `]` removed.
pub open spec fn trim_brackets(s: Seq<char>) -> Seq<char>
    decreases s.len(),
{
    if s.len() > 0 && (s[0] == '[' || s[0] == ']') {
        trim_brackets(s.drop_first())
    } else if s.len() > 0 && (s.last() == '[' || s.last() == ']') {
        trim_brackets(s.drop_last())
    } else {
        s
    }
}

fn is_bracket(c: char) -> (r: bool)
    ensures
        r == (c == '[' || c == ']'),
{
    c == '[' || c == ']'
}

proof fn lemma_trim_brackets_ends(s: Seq<char>)
    requires
        !(s.len() > 0 && (s[0] == '[' || s[0] == ']')),
    ensures
        trim_brackets(s) == trim_brackets_end(s),
    decreases s.len(),
{
    if s.len() > 0 && (s.last() == '[' || s.last() == ']') {
        let t = s.drop_last();
        if t.len() > 0 {
            assert(t[0] == s[0]);
        }
        lemma_trim_brackets_ends(t);
    }
}

/// `s` with every trailing `[` and `]` removed.
pub open spec fn trim_brackets_end(s: Seq<char>) -> Seq<char>
    decreases s.len(),
{
    if s.len() > 0 && (s.last() == '[' || s.last() == ']') {
        trim_brackets_end(s.drop_last())
    } else {
        s
    }
}

fn strip_brackets(s: &str) -> (r: &str)
    ensures
        r@ == trim_brackets(s@),
{
    let n = s.unicode_len();
    let mut start: usize = 0;
    proof {
        assert(s@.subrange(0, n as int) =~= s@);
    }
    while start < n && is_bracket(s.get_char(start))
        invariant
            n == s@.len(),
            0 <= start <= n,
            trim_brackets(s@) == trim_brackets(s@.subrange(start as int, n as int)),
        decreases n - start,
    {
        proof {
            assert(s@.subrange(start as int, n as int).drop_first() =~= s@.subrange(
                start + 1,
                n as int,
            ));
        }
        start = start + 1;
    }
    let ghost front = s@.subrange(start as int, n as int);
    proof {
        if front.len() > 0 {
            assert(front[0] == s@[start as int]);
        }
        lemma_trim_brackets_ends(front);
        assert(front.subrange(0, (n - start) as int) =~= front);
    }
    let mut end: usize = n;
    while end > start && is_bracket(s.get_char(end - 1))
        invariant
            n == s@.len(),
            0 <= start <= end <= n,
            front == s@.subrange(start as int, n as int),
            trim_brackets_end(front) == trim_brackets_end(
                front.subrange(0, (end - start) as int),
            ),
        decreases end - start,
    {
        proof {
            let t = front.subrange(0, (end - start) as int);
            assert(t.last() == s@[end - 1]);
            assert(t.drop_last() =~= front.subrange(0, (end - 1 - start) as int));
        }
        end = end - 1;
    }
    proof {
        let t = front.subrange(0, (end - start) as int);
        if end > start {
            assert(t.last() == s@[end - 1]);
        }
        assert(trim_brackets_end(t) == t);
        assert(t =~= s@.subrange(start as int, end as int));
    }
    s.substring_char(start, end)
}

/// The admission decision over the parsed headers: `host` is the parsed Host
/// header (`None` when it did not parse), `origin` is absent, unparseable
/// (`Some(None)`), or parsed.
pub open spec fn admission_outcome(
    port: u16,
    host: Option<ParsedAuthorityView>,
    origin: Option<Option<ParsedOriginView>>,
) -> Result<(), DashboardAdmissionRefusalV1> {
    match host {
        None => Err(DashboardAdmissionRefusalV1::InvalidHost),
        Some(a) => if !is_loopback_name(trim_brackets(a.host)) || a.port != Some(port) {
            Err(DashboardAdmissionRefusalV1::HostNotBoundLoopback)
        } else {
            match origin {
                None => Ok(()),
                Some(None) => Err(DashboardAdmissionRefusalV1::InvalidOrigin),
                Some(Some(o)) => if o.scheme == Some("http"@) && (o.authority matches Some(t)
                    && eq_ignore_ascii_case_spec(t, a.text)) {
                    Ok(())
                } else {
                    Err(DashboardAdmissionRefusalV1::OriginMismatch)
                },
            }
        },
    }
}

pub open spec fn parsed_view(a: Option<ParsedAuthorityV1>) -> Option<ParsedAuthorityView> {
    match a {
        Some(x) => Some(x@),
        None => None,
    }
}

pub open spec fn origin_view(o: Option<Option<ParsedOriginV1>>) -> Option<
    Option<ParsedOriginView>,
> {
    match o {
        None => None,
        Some(None) => Some(None),
        Some(Some(x)) => Some(Some(x@)),
    }
}

/// Admits a request whose Host names the bound loopback dashboard and whose
/// Origin, when present, is the same `http` origin.
pub fn dashboard_admission_decision(
    port: u16,
    host: &Option<ParsedAuthorityV1>,
    origin: &Option<Option<ParsedOriginV1>>,
) -> (r: Result<(), DashboardAdmissionRefusalV1>)
    ensures
        r == admission_outcome(port, parsed_view(*host), origin_view(*origin)),
{
    let authority = match host {
        None => return Err(DashboardAdmissionRefusalV1::InvalidHost),
        Some(a) => a,
    };
    let bare = strip_brackets(authority.host.as_str());
    if !loopback_name(bare) || authority.port != Some(port) {
        return Err(DashboardAdmissionRefusalV1::HostNotBoundLoopback);
    }
    match origin {
        None => Ok(()),
        Some(None) => Err(DashboardAdmissionRefusalV1::InvalidOrigin),
        Some(Some(o)) => {
            let http_scheme = match &o.scheme {
                Some(s) => str_eq(s.as_str(), "http"),
                None => false,
            };
            let same_authority = match &o.authority {
                Some(t) => eq_ignore_ascii_case(t.as_str(), authority.text.as_str()),
                None => false,
            };
            if http_scheme && same_authority {
                Ok(())
            } else {
                Err(DashboardAdmissionRefusalV1::OriginMismatch)
            }
        },
    }
}

/// The Origin header names the `http` origin of the Host header it came with
/// (authorities compared ignoring ASCII case).
pub open spec fn origin_names_host(host_header: Seq<char>, origin_header: Seq<char>) -> bool {
    parsed_origin(origin_header) matches Some(o) && o.scheme == Some("http"@) && (
    o.authority matches Some(t) && eq_ignore_ascii_case_spec(t, host_header))
}

/// Admits a request by its Host and Origin header texts (`None` when the
/// header is absent or not visible ASCII): a missing Host is refused, and
/// otherwise the parsed headers decide as `dashboard_admission_decision` says.
pub fn admit_dashboard_host_and_origin(
    port: u16,
    host_header: Option<&str>,
    origin_header: Option<&str>,
) -> (r: Result<(), DashboardAdmissionRefusalV1>)
    ensures
        host_header is None ==> r == Err::<(), _>(DashboardAdmissionRefusalV1::MissingHost),
        host_header matches Some(h) ==> r == admission_outcome(
            port,
            parsed_authority(h@),
            match origin_header {
                None => None,
                Some(o) => Some(parsed_origin(o@)),
            },
        ),
        host_header matches Some(h) ==> (parsed_authority(h@) matches Some(a) ==> a.text == h@),
        r is Ok ==> (host_header is Some && (origin_header matches Some(o) ==> origin_names_host(
            host_header->0@,
            o@,
        ))),
{
    let host_text = match host_header {
        None => return Err(DashboardAdmissionRefusalV1::MissingHost),
        Some(h) => h,
    };
    let authority = parse_authority(host_text);
    let origin = match origin_header {
        None => None,
        Some(o) => Some(parse_origin(o)),
    };
    proof {
        assert(parsed_view(authority) == parsed_authority(host_text@));
        match origin_header {
            None => {},
            Some(o) => {
                assert(origin_view(origin) == Some(parsed_origin(o@)));
            },
        }
    }
    dashboard_admission_decision(port, &authority, &origin)
}

// === Request identity =======================================================

/// The identities and deadline one admitted request carries.
#[derive(Clone, Debug, PartialEq, Eq)]
pub struct DashboardRequestIdentityV1 {
    pub request_id: String,
    pub cancellation_id: String,
    pub observed_at_micros: i64,
    pub deadline_at_micros: i64,
}

/// `dashboard.http.{observed}.{sequence}`, the identity an admitted request
/// is named by.
pub open spec fn request_identity_text(observed_at_micros: i64, sequence: u64) -> Seq<char> {
    "dashboard.http."@ + signed_decimal(observed_at_micros as int) + "."@ + signed_decimal(
        sequence as int,
    )
}

/// `a + b`, held at `i64::MAX`.
pub open spec fn saturating_sum(a: i64, b: i64) -> int {
    if a + b > i64::MAX {
        i64::MAX as int
    } else {
        a + b
    }
}

/// The request and cancellation ids derived from the clock reading and the
/// request's sequence number, and its deadline: the path's budget after the
/// reading (saturating).
pub fn dashboard_request_identity(observed_at_micros: i64, sequence: u64, path: &str) -> (r:
    DashboardRequestIdentityV1)
    ensures
        r.request_id@ == "request."@ + request_identity_text(observed_at_micros, sequence),
        r.cancellation_id@ == "cancel."@ + request_identity_text(observed_at_micros, sequence),
        r.observed_at_micros == observed_at_micros,
        r.deadline_at_micros == saturating_sum(
            observed_at_micros,
            if is_automation_run_route(path@) {
                DASHBOARD_AUTOMATION_RUN_REQUEST_DEADLINE_MICROS
            } else {
                DASHBOARD_CODE_GRAPH_REQUEST_DEADLINE_MICROS
            },
        ),
{
    let mut identity = String::from_str("dashboard.http.");
    identity.append(i64_to_decimal(observed_at_micros).as_str());
    identity.append(".");
    identity.append(crate::text::u64_to_decimal(sequence).as_str());
    proof {
        assert(signed_decimal(sequence as int) == crate::text::decimal(sequence as nat));
    }
    let mut request_id = String::from_str("request.");
    request_id.append(identity.as_str());
    let mut cancellation_id = String::from_str("cancel.");
    cancellation_id.append(identity.as_str());
    let budget = dashboard_http_request_deadline_micros(path);
    let deadline_at_micros = if observed_at_micros <= i64::MAX - budget {
        observed_at_micros + budget
    } else {
        i64::MAX
    };
    DashboardRequestIdentityV1 { request_id, cancellation_id, observed_at_micros, deadline_at_micros }
}

// === Project-scoped routing =================================================

/// The method of a routed request.
#[derive(Clone, Copy, Debug, PartialEq, Eq, Structural)]
pub enum RequestMethod {
    Get,
    Head,
    Post,
    Put,
    Patch,
    Delete,
    Options,
    Other,
}

/// Managed automation skills are profile-owned: their routes are never
/// answered under a project.
pub open spec fn is_skills_route(tail: Seq<char>) -> bool {
    tail == "automation/skills"@ || has_prefix(tail, "automation/skills/"@)
}

pub fn is_profile_owned_automation_skills_route(tail: &str) -> (r: bool)
    ensures
        r == is_skills_route(tail@),
{
    str_eq(tail, "automation/skills") || crate::text::starts_with(tail, "automation/skills/")
}

/// A canonical application read a selected project answers for itself.
#[derive(Clone, Copy, Debug, PartialEq, Eq, Structural)]
pub enum SelectedProjectApplicationRead {
    Feedback,
    Work,
    Workflow,
}

pub open spec fn read_label(read: SelectedProjectApplicationRead) -> Seq<char> {
    match read {
        SelectedProjectApplicationRead::Feedback => "feedback"@,
        SelectedProjectApplicationRead::Work => "Work"@,
        SelectedProjectApplicationRead::Workflow => "Workflow"@,
    }
}

/// The path family a read's operation is found under.
pub open spec fn read_family(read: SelectedProjectApplicationRead) -> Seq<char> {
    match read {
        SelectedProjectApplicationRead::Feedback => "feedback/"@,
        SelectedProjectApplicationRead::Work => "work/"@,
        SelectedProjectApplicationRead::Workflow => "application/"@,
    }
}

impl SelectedProjectApplicationRead {
    /// The name the read is reported by.
    pub fn label(self) -> (r: &'static str)
        ensures
            r@ == read_label(self),
    {
        match self {
            Self::Feedback => "feedback",
            Self::Work => "Work",
            Self::Workflow => "Workflow",
        }
    }

    pub fn family(self) -> (r: &'static str)
        ensures
            r@ == read_family(self),
    {
        match self {
            Self::Feedback => "feedback/",
            Self::Work => "work/",
            Self::Workflow => "application/",
        }
    }
}

pub open spec fn names_segment(segments: Seq<String>, s: Seq<char>) -> bool {
    exists|i: int| 0 <= i < segments.len() && #[trigger] segments[i]@ == s
}

fn find_segment(segments: &Vec<String>, s: &str) -> (r: bool)
    ensures
        r == names_segment(segments@, s@),
{
    let mut i: usize = 0;
    while i < segments.len()
        invariant
            0 <= i <= segments@.len(),
            forall|j: int| 0 <= j < i ==> #[trigger] segments@[j]@ != s@,
        decreases segments.len() - i,
    {
        if str_eq(segments[i].as_str(), s) {
            return true;
        }
        i = i + 1;
    }
    false
}

/// Which selected-project read a POST to `tail` is: the feedback reads by
/// name, a read-only workflow operation under `application/workflow/`, or a
/// read-only Work operation under `work/`. Any other method reads nothing.
/// The read-only operation segments are the application catalog's.
pub open spec fn application_read_for(
    method: RequestMethod,
    tail: Seq<char>,
    read_only_workflow_segments: Seq<String>,
    read_only_work_segments: Seq<String>,
) -> Option<SelectedProjectApplicationRead> {
    if method != RequestMethod::Post {
        None
    } else if tail == "feedback/get"@ || tail == "feedback/expand"@ || tail == "feedback/list"@ {
        Some(SelectedProjectApplicationRead::Feedback)
    } else if has_prefix(tail, "application/workflow/"@) {
        if names_segment(
            read_only_workflow_segments,
            tail.subrange("application/workflow/"@.len() as int, tail.len() as int),
        ) {
            Some(SelectedProjectApplicationRead::Workflow)
        } else {
            None
        }
    } else if has_prefix(tail, "work/"@) && names_segment(
        read_only_work_segments,
        tail.subrange("work/"@.len() as int, tail.len() as int),
    ) {
        Some(SelectedProjectApplicationRead::Work)
    } else {
        None
    }
}

pub fn selected_project_application_read(
    method: RequestMethod,
    tail: &str,
    read_only_workflow_segments: &Vec<String>,
    read_only_work_segments: &Vec<String>,
) -> (r: Option<SelectedProjectApplicationRead>)
    ensures
        r == application_read_for(
            method,
            tail@,
            read_only_workflow_segments@,
            read_only_work_segments@,
        ),
{
    proof {
        reveal_strlit("application/workflow/");
        reveal_strlit("work/");
    }
    if method != RequestMethod::Post {
        return None;
    }
    if str_eq(tail, "feedback/get") || str_eq(tail, "feedback/expand") || str_eq(
        tail,
        "feedback/list",
    ) {
        return Some(SelectedProjectApplicationRead::Feedback);
    }
    if let Some(segment) = strip_prefix(tail, "application/workflow/") {
        if find_segment(read_only_workflow_segments, segment) {
            return Some(SelectedProjectApplicationRead::Workflow);
        }
        return None;
    }
    match strip_prefix(tail, "work/") {
        Some(segment) => if find_segment(read_only_work_segments, segment) {
            Some(SelectedProjectApplicationRead::Work)
        } else {
            None
        },
        None => None,
    }
}

/// A browser's confirmation that a server-sent event was delivered.
pub fn is_selected_project_event_delivery_ack(method: RequestMethod, tail: &str) -> (r: bool)
    ensures
        r == (method == RequestMethod::Post && tail@ == "events/delivery-ack"@),
{
    method == RequestMethod::Post && str_eq(tail, "events/delivery-ack")
}

/// Where the project-scoped gateway sends a request.
#[derive(Clone, Copy, Debug, PartialEq, Eq, Structural)]
pub enum ProjectGatewayDecisionV1 {
    /// A profile-owned route asked for under a project: not found.
    NotProjectScoped,
    /// A write to a project other than the active one: method not allowed.
    ReadOnlyProject,
    /// Answered by the selected project, through an application read when
    /// there is one.
    Forward { application_read: Option<SelectedProjectApplicationRead> },
}

pub open spec fn gateway_decision(
    active_project_id: Option<Seq<char>>,
    project_id: Seq<char>,
    method: RequestMethod,
    tail: Seq<char>,
    read_only_workflow_segments: Seq<String>,
    read_only_work_segments: Seq<String>,
) -> ProjectGatewayDecisionV1 {
    let read = application_read_for(
        method,
        tail,
        read_only_workflow_segments,
        read_only_work_segments,
    );
    let ack = method == RequestMethod::Post && tail == "events/delivery-ack"@;
    if is_skills_route(tail) {
        ProjectGatewayDecisionV1::NotProjectScoped
    } else if active_project_id != Some(project_id) && method != RequestMethod::Get && method
        != RequestMethod::Head && read is None && !ack {
        ProjectGatewayDecisionV1::ReadOnlyProject
    } else {
        ProjectGatewayDecisionV1::Forward { application_read: read }
    }
}

/// The project-scoped gateway's routing decision: skills routes are refused
/// as profile-owned; a project other than the active one answers reads
/// (GET, HEAD, its own application reads, and delivery acknowledgements) and
/// refuses everything else.
pub fn project_gateway_decision(
    active_project_id: Option<&str>,
    project_id: &str,
    method: RequestMethod,
    tail: &str,
    read_only_workflow_segments: &Vec<String>,
    read_only_work_segments: &Vec<String>,
) -> (r: ProjectGatewayDecisionV1)
    ensures
        r == gateway_decision(
            match active_project_id {
                Some(a) => Some(a@),
                None => None,
            },
            project_id@,
            method,
            tail@,
            read_only_workflow_segments@,
            read_only_work_segments@,
        ),
{
    if is_profile_owned_automation_skills_route(tail) {
        return ProjectGatewayDecisionV1::NotProjectScoped;
    }
    let read = selected_project_application_read(
        method,
        tail,
        read_only_workflow_segments,
        read_only_work_segments,
    );
    let ack = is_selected_project_event_delivery_ack(method, tail);
    let is_active = match active_project_id {
        Some(a) => str_eq(a, project_id),
        None => false,
    };
    if !is_active && method != RequestMethod::Get && method != RequestMethod::Head
        && read.is_none() && !ack {
        return ProjectGatewayDecisionV1::ReadOnlyProject;
    }
    ProjectGatewayDecisionV1::Forward { application_read: read }
}

/// `?query` when there is a query, nothing otherwise.
pub open spec fn query_suffix(query: Option<Seq<char>>) -> Seq<char> {
    match query {
        Some(q) => "?"@ + q,
        None => Seq::empty(),
    }
}

/// The path a forwarded project-scoped request is rewritten to: for an
/// application read, the operation after its family (`None` when the tail is
/// not under it), otherwise the tail under `/api/`; the query is kept.
pub open spec fn rewritten_path(
    tail: Seq<char>,
    query: Option<Seq<char>>,
    read: Option<SelectedProjectApplicationRead>,
) -> Option<Seq<char>> {
    match read {
        Some(r) => if has_prefix(tail, read_family(r)) {
            Some(
                "/"@ + tail.subrange(read_family(r).len() as int, tail.len() as int)
                    + query_suffix(query),
            )
        } else {
            None
        },
        None => Some("/api/"@ + tail + query_suffix(query)),
    }
}

pub fn project_request_rewrite(
    tail: &str,
    query: Option<&str>,
    read: Option<SelectedProjectApplicationRead>,
) -> (r: Option<String>)
    ensures
        match r {
            Some(p) => rewritten_path(
                tail@,
                match query {
                    Some(q) => Some(q@),
                    None => None,
                },
                read,
            ) == Some(p@),
            None => rewritten_path(
                tail@,
                match query {
                    Some(q) => Some(q@),
                    None => None,
                },
                read,
            ) is None,
        },
{
    let mut path = match read {
        Some(r) => match strip_prefix(tail, r.family()) {
            Some(operation) => {
                let mut p = String::from_str("/");
                p.append(operation);
                p
            },
            None => return None,
        },
        None => {
            let mut p = String::from_str("/api/");
            p.append(tail);
            p
        },
    };
    if let Some(q) = query {
        path.append("?");
        path.append(q);
    }
    Some(path)
}

// === Capabilities ===========================================================

/// How the automation backend is offered: configured when enabled with a
/// supported backend; then delegated to the host or standalone.
pub fn automation_mode(enabled: bool, backend_supported: bool, delegated_host: bool) -> (r: (
    bool,
    &'static str,
))
    ensures
        r.0 == (enabled && backend_supported),
        r.1@ == (if !(enabled && backend_supported) {
            "disabled"@
        } else if delegated_host {
            "delegated_host"@
        } else {
            "standalone_backend"@
        }),
{
    let configured = enabled && backend_supported;
    let mode = if !configured {
        "disabled"
    } else if delegated_host {
        "delegated_host"
    } else {
        "standalone_backend"
    };
    (configured, mode)
}

pub fn storage_mode_label(mode: &StorageMode) -> (r: &'static str)
    ensures
        r@ == crate::mcp_status::storage_mode_text(*mode),
{
    storage_mode_name(mode)
}

/// The retained session store the legacy routes read.
#[derive(Clone, Debug, PartialEq, Eq)]
pub struct LcmStoreSelection {
    /// Whether the registered project session store is attached.
    pub registered: bool,
    pub path: String,
    pub scope: &'static str,
}

/// The registered project session store when attached (scoped by the
/// storage mode), otherwise the layout's session path, unavailable.
pub fn resolve_lcm_store_for_layout(
    registered_session_db_path: Option<String>,
    mode: &StorageMode,
    sessions_db_path: String,
) -> (r: LcmStoreSelection)
    ensures
        match registered_session_db_path {
            Some(p) => r.registered && r.path@ == p@ && r.scope@
                == crate::mcp_status::storage_mode_text(*mode),
            None => !r.registered && r.path@ == sessions_db_path@ && r.scope@ == "unavailable"@,
        },
{
    match registered_session_db_path {
        Some(path) => LcmStoreSelection { registered: true, path, scope: storage_mode_label(mode) },
        None => LcmStoreSelection { registered: false, path: sessions_db_path, scope: "unavailable" },
    }
}

// === Automation reconciliation reports ======================================

/// What one automation-scheduler owner did when asked to reconcile.
#[derive(Clone, Copy, Debug, PartialEq, Eq, Structural)]
pub enum AutomationSchedulerReconcileOutcome {
    Started,
    RunningNotified,
    Exiting,
    Finished,
    Retiring,
    NotConfigured,
    LifecycleInactive,
    OwnerUnavailable,
}

pub open spec fn reconcile_outcome_text(o: AutomationSchedulerReconcileOutcome) -> Seq<char> {
    match o {
        AutomationSchedulerReconcileOutcome::Started => "started"@,
        AutomationSchedulerReconcileOutcome::RunningNotified => "running_notified"@,
        AutomationSchedulerReconcileOutcome::Exiting => "exiting"@,
        AutomationSchedulerReconcileOutcome::Finished => "finished"@,
        AutomationSchedulerReconcileOutcome::Retiring => "retiring"@,
        AutomationSchedulerReconcileOutcome::NotConfigured => "not_configured"@,
        AutomationSchedulerReconcileOutcome::LifecycleInactive => "lifecycle_inactive"@,
        AutomationSchedulerReconcileOutcome::OwnerUnavailable => "owner_unavailable"@,
    }
}

impl AutomationSchedulerReconcileOutcome {
    /// The wire name (snake case).
    pub fn as_str(self) -> (r: &'static str)
        ensures
            r@ == reconcile_outcome_text(self),
    {
        match self {
            Self::Started => "started",
            Self::RunningNotified => "running_notified",
            Self::Exiting => "exiting",
            Self::Finished => "finished",
            Self::Retiring => "retiring",
            Self::NotConfigured => "not_configured",
            Self::LifecycleInactive => "lifecycle_inactive",
            Self::OwnerUnavailable => "owner_unavailable",
        }
    }
}

/// Whose automation schedulers a reconciliation covered.
#[derive(Clone, Copy, Debug, PartialEq, Eq, Structural)]
pub enum AutomationReconcileScope {
    Project,
    Profile,
}

impl AutomationReconcileScope {
    /// The wire name (snake case).
    pub fn as_str(self) -> (r: &'static str)
        ensures
            r@ == (match self {
                AutomationReconcileScope::Project => "project"@,
                AutomationReconcileScope::Profile => "profile"@,
            }),
    {
        match self {
            Self::Project => "project",
            Self::Profile => "profile",
        }
    }
}

/// What happens to projects without a cached scheduler owner.
#[derive(Clone, Copy, Debug, PartialEq, Eq, Structural)]
pub enum UncachedProjectReconcileOutcome {
    DeferredUntilProjectStartup,
}

impl UncachedProjectReconcileOutcome {
    /// The wire name (snake case).
    pub fn as_str(self) -> (r: &'static str)
        ensures
            r@ == "deferred_until_project_startup"@,
    {
        match self {
            Self::DeferredUntilProjectStartup => "deferred_until_project_startup",
        }
    }
}

/// One cached scheduler owner's reconciliation outcome; paths are display
/// texts.
#[derive(Clone, Debug, PartialEq, Eq)]
pub struct AutomationSchedulerOwnerReconcileOutcome {
    pub project_id: Option<String>,
    pub store_root: String,
    pub graph_db_path: String,
    pub scope_prefix: Option<String>,
    pub outcome: AutomationSchedulerReconcileOutcome,
}

/// A profile-wide reconciliation report.
#[derive(Clone, Debug, PartialEq, Eq)]
pub struct ProfileAutomationReconcileReport {
    pub scope: AutomationReconcileScope,
    pub cached_owners: usize,
    pub outcomes: Vec<AutomationSchedulerOwnerReconcileOutcome>,
    pub uncached_projects: UncachedProjectReconcileOutcome,
}

// === Test transport =========================================================

/// Where a test dashboard binds.
#[derive(Clone, Copy, Debug, PartialEq, Eq)]
pub struct DashboardTestEndpointV1<'a> {
    pub host: &'a str,
    pub port: u16,
}

/// The `/`-separated segments of a path text, empty ones included.
pub open spec fn path_segments(s: Seq<char>) -> Seq<Seq<char>>
    decreases s.len(),
{
    if s.len() == 0 {
        seq![Seq::<char>::empty()]
    } else {
        let t = path_segments(s.drop_last());
        if s.last() == '/' {
            t.push(Seq::<char>::empty())
        } else {
            t.update(t.len() - 1, t.last().push(s.last()))
        }
    }
}

proof fn lemma_path_segments_nonempty(s: Seq<char>)
    ensures
        path_segments(s).len() >= 1,
    decreases s.len(),
{
    if s.len() > 0 {
        lemma_path_segments_nonempty(s.drop_last());
    }
}

/// A segment names a path component: it is not empty, and a `.` counts only
/// as the first segment (a relative path's leading current directory).
pub open spec fn names_component(segment: Seq<char>, index: int) -> bool {
    segment.len() > 0 && (segment != seq!['.'] || index == 0)
}

/// The segments that name components, in order.
pub open spec fn component_segments(segments: Seq<Seq<char>>) -> Seq<Seq<char>>
    decreases segments.len(),
{
    if segments.len() == 0 {
        Seq::empty()
    } else {
        let earlier = component_segments(segments.drop_last());
        if names_component(segments.last(), segments.len() - 1) {
            earlier.push(segments.last())
        } else {
            earlier
        }
    }
}

/// Components joined by `/`.
pub open spec fn joined_components(parts: Seq<Seq<char>>) -> Seq<char>
    decreases parts.len(),
{
    if parts.len() == 0 {
        Seq::empty()
    } else if parts.len() == 1 {
        parts[0]
    } else {
        joined_components(parts.drop_last()) + seq!['/'] + parts.last()
    }
}

/// A path text by its components, as paths compare: a leading `/` for an
/// absolute path, then the components joined by `/`; repeated and trailing
/// separators and non-leading `.` components do not count.
pub open spec fn normalized_path(s: Seq<char>) -> Seq<char> {
    (if s.len() > 0 && s[0] == '/' {
        seq!['/']
    } else {
        Seq::<char>::empty()
    }) + joined_components(component_segments(path_segments(s)))
}

pub open spec fn string_views(v: Seq<String>) -> Seq<Seq<char>> {
    v.map_values(|t: String| t@)
}

fn segment_names_component(segment: &str, first: bool) -> (r: bool)
    ensures
        r == (segment@.len() > 0 && (segment@ != seq!['.'] || first)),
{
    proof {
        reveal_strlit(".");
        assert("."@ =~= seq!['.']);
    }
    segment.unicode_len() > 0 && (first || !str_eq(segment, "."))
}

/// The path text by its components (see `normalized_path`).
pub fn normalize_path(s: &str) -> (r: String)
    ensures
        r@ == normalized_path(s@),
{
    let n = s.unicode_len();
    let mut parts: Vec<String> = Vec::new();
    let ghost mut flushed: Seq<Seq<char>> = Seq::empty();
    let mut first = true;
    let mut start: usize = 0;
    let mut i: usize = 0;
    proof {
        assert(s@.take(0) =~= Seq::<char>::empty());
        assert(s@.subrange(0, 0) =~= Seq::<char>::empty());
        assert(path_segments(s@.take(0)) =~= flushed.push(s@.subrange(0, 0)));
    }
    while i < n
        invariant
            n == s@.len(),
            0 <= start <= i <= n,
            path_segments(s@.take(i as int)) == flushed.push(s@.subrange(start as int, i as int)),
            string_views(parts@) == component_segments(flushed),
            first == (flushed.len() == 0),
        decreases n - i,
    {
        let c = s.get_char(i);
        proof {
            assert(s@.take(i + 1).drop_last() =~= s@.take(i as int));
            assert(s@.take(i + 1).last() == c);
        }
        if c == '/' {
            let segment = s.substring_char(start, i);
            let ghost before = parts@;
            if segment_names_component(segment, first) {
                parts.push(segment.to_string());
                proof {
                    assert(string_views(parts@) =~= string_views(before).push(segment@));
                }
            }
            proof {
                assert(component_segments(flushed.push(segment@)).len() >= 0);
                assert(flushed.push(segment@).drop_last() =~= flushed);
                flushed = flushed.push(segment@);
                assert(s@.subrange(i + 1, i + 1) =~= Seq::<char>::empty());
            }
            first = false;
            start = i + 1;
        } else {
            proof {
                let t = flushed.push(s@.subrange(start as int, i as int));
                assert(t.last() == s@.subrange(start as int, i as int));
                assert(s@.subrange(start as int, i + 1) =~= s@.subrange(start as int, i as int).push(c));
                assert(t.update(t.len() - 1, t.last().push(c)) =~= flushed.push(
                    s@.subrange(start as int, i + 1),
                ));
            }
        }
        i = i + 1;
    }
    let segment = s.substring_char(start, n);
    let ghost before = parts@;
    if segment_names_component(segment, first) {
        parts.push(segment.to_string());
        proof {
            assert(string_views(parts@) =~= string_views(before).push(segment@));
        }
    }
    proof {
        assert(s@.take(n as int) =~= s@);
        assert(flushed.push(segment@).drop_last() =~= flushed);
        flushed = flushed.push(segment@);
    }
    let absolute = n > 0 && s.get_char(0) == '/';
    let mut out = if absolute {
        String::from_str("/")
    } else {
        String::new()
    };
    let ghost prefix = out@;
    proof {
        reveal_strlit("/");
        assert(prefix =~= (if s@.len() > 0 && s@[0] == '/' {
            seq!['/']
        } else {
            Seq::<char>::empty()
        }));
        assert(string_views(parts@).take(0) =~= Seq::<Seq<char>>::empty());
        assert(out@ =~= prefix + joined_components(string_views(parts@).take(0)));
    }
    let mut k: usize = 0;
    while k < parts.len()
        invariant
            0 <= k <= parts@.len(),
            out@ == prefix + joined_components(string_views(parts@).take(k as int)),
        decreases parts.len() - k,
    {
        let ghost pv = string_views(parts@);
        proof {
            assert(pv.take(k + 1).drop_last() =~= pv.take(k as int));
            assert(pv.take(k + 1).last() == parts@[k as int]@);
            if k == 0 {
                assert(pv.take(1)[0] == parts@[0]@);
            }
        }
        let ghost before_out = out@;
        if k > 0 {
            out.append("/");
        }
        out.append(parts[k].as_str());
        proof {
            reveal_strlit("/");
            assert("/"@ =~= seq!['/']);
            if k == 0 {
                assert(out@ =~= prefix + joined_components(pv.take(k + 1)));
            } else {
                assert(joined_components(pv.take(k + 1)) == joined_components(pv.take(k as int))
                    + seq!['/'] + pv[k as int]);
                assert(out@ =~= before_out + seq!['/'] + pv[k as int]);
                assert(out@ =~= prefix + joined_components(pv.take(k + 1)));
            }
        }
        k = k + 1;
    }
    proof {
        assert(string_views(parts@).take(parts@.len() as int) =~= string_views(parts@));
    }
    out
}

/// The project graphs a test dashboard resolves, keyed by registered
/// project root as paths compare (by component, see `normalized_path`);
/// registering a root again replaces its graph.
pub struct DashboardTestProjectGraphsV1<G> {
    entries: Vec<(String, G)>,
}

pub open spec fn roots_of<G>(entries: Seq<(String, G)>) -> Seq<Seq<char>> {
    entries.map_values(|e: (String, G)| e.0@)
}

impl<G> DashboardTestProjectGraphsV1<G> {
    /// Each root is registered at most once.
    pub closed spec fn wf(&self) -> bool {
        roots_of(self.entries@).no_duplicates()
    }

    /// The registered graphs by root.
    pub closed spec fn graphs(&self) -> Map<Seq<char>, G> {
        Map::new(
            |root: Seq<char>| roots_of(self.entries@).contains(root),
            |root: Seq<char>|
                self.entries@[roots_of(self.entries@).index_of(root)].1,
        )
    }

    pub fn new() -> (r: Self)
        ensures
            r.wf(),
            r.graphs() == Map::<Seq<char>, G>::empty(),
    {
        let r = DashboardTestProjectGraphsV1 { entries: Vec::new() };
        proof {
            assert(r.graphs() =~= Map::<Seq<char>, G>::empty());
        }
        r
    }

    fn position(&self, root: &str) -> (r: Option<usize>)
        requires
            self.wf(),
        ensures
            match r {
                Some(i) => i < self.entries@.len() && self.entries@[i as int].0@ == root@,
                None => !roots_of(self.entries@).contains(root@),
            },
    {
        let mut i: usize = 0;
        while i < self.entries.len()
            invariant
                0 <= i <= self.entries@.len(),
                forall|j: int| 0 <= j < i ==> #[trigger] self.entries@[j].0@ != root@,
            decreases self.entries.len() - i,
        {
            if str_eq(self.entries[i].0.as_str(), root) {
                return Some(i);
            }
            i = i + 1;
        }
        proof {
            if roots_of(self.entries@).contains(root@) {
                let k = choose|k: int|
                    0 <= k < roots_of(self.entries@).len() && roots_of(self.entries@)[k]
                        == root@;
                assert(self.entries@[k].0@ == root@);
            }
        }
        None
    }

    /// The graph registered under the exact key `root`.
    fn lookup_key(&self, root: &str) -> (r: Option<&G>)
        requires
            self.wf(),
        ensures
            match r {
                Some(g) => self.graphs().contains_key(root@) && self.graphs()[root@] == *g,
                None => !self.graphs().contains_key(root@),
            },
    {
        match self.position(root) {
            Some(i) => {
                proof {
                    let roots = roots_of(self.entries@);
                    assert(roots[i as int] == root@);
                    assert(roots.contains(root@));
                    roots.index_of_first_ensures(root@);
                    assert(roots.index_of(root@) == i as int);
                }
                Some(&self.entries[i].1)
            },
            None => None,
        }
    }

    /// Registers `graph` under the exact key `root`, replacing an earlier
    /// registration.
    fn insert_key(&mut self, root: String, graph: G)
        requires
            old(self).wf(),
        ensures
            final(self).wf(),
            final(self).graphs() == old(self).graphs().insert(root@, graph),
    {
        let ghost old_graphs = self.graphs();
        match self.position(root.as_str()) {
            Some(i) => {
                let ghost old_entries = self.entries@;
                let _ = self.entries.remove(i);
                self.entries.insert(i, (root, graph));
                proof {
                    let roots = roots_of(self.entries@);
                    assert(roots =~= roots_of(old_entries));
                    assert(roots_of(old_entries)[i as int] == root@);
                    assert(self.graphs().dom() =~= old_graphs.insert(root@, graph).dom());
                    assert forall|k: Seq<char>| #[trigger] self.graphs().contains_key(k) implies self.graphs()[k]
                        == old_graphs.insert(root@, graph)[k] by {
                        roots.index_of_first_ensures(k);
                        let p = roots.index_of(k);
                        if k == root@ {
                            assert(roots[i as int] == k);
                        } else {
                            assert(p != i);
                            assert(self.entries@[p] == old_entries[p]);
                        }
                    }
                    assert(self.graphs() =~= old_graphs.insert(root@, graph));
                }
            },
            None => {
                let ghost old_entries = self.entries@;
                self.entries.push((root, graph));
                proof {
                    let roots = roots_of(self.entries@);
                    assert(roots =~= roots_of(old_entries).push(root@));
                    assert forall|k: Seq<char>|
                        #[trigger] self.graphs().contains_key(k) <==> old_graphs.insert(
                            root@,
                            graph,
                        ).contains_key(k) by {
                        if roots.contains(k) && k != root@ {
                            let p = choose|p: int| 0 <= p < roots.len() && roots[p] == k;
                            assert(roots_of(old_entries)[p] == k);
                        }
                        if roots_of(old_entries).contains(k) {
                            let p = choose|p: int|
                                0 <= p < roots_of(old_entries).len() && roots_of(old_entries)[p]
                                    == k;
                            assert(roots[p] == k);
                        }
                        assert(roots[old_entries.len() as int] == root@);
                    }
                    assert forall|k: Seq<char>| #[trigger] self.graphs().contains_key(k) implies self.graphs()[k]
                        == old_graphs.insert(root@, graph)[k] by {
                        roots.index_of_first_ensures(k);
                        let p = roots.index_of(k);
                        if k == root@ {
                            assert(roots[old_entries.len() as int] == k);
                        } else {
                            roots_of(old_entries).index_of_first_ensures(k);
                            assert(roots_of(old_entries).contains(k)) by {
                                assert(roots[p] == k);
                                assert(p < old_entries.len());
                                assert(roots_of(old_entries)[p] == k);
                            }
                            assert(self.entries@[p] == old_entries[p]);
                        }
                    }
                    assert(self.graphs() =~= old_graphs.insert(root@, graph));
                }
            },
        }
    }

    /// The graph registered for the root that `root` names as a path.
    pub fn lookup(&self, root: &str) -> (r: Option<&G>)
        requires
            self.wf(),
        ensures
            match r {
                Some(g) => self.graphs().contains_key(normalized_path(root@)) && self.graphs()[normalized_path(
                    root@,
                )] == *g,
                None => !self.graphs().contains_key(normalized_path(root@)),
            },
    {
        let key = normalize_path(root);
        self.lookup_key(key.as_str())
    }

    /// Registers `graph` for the root that `root` names as a path, replacing
    /// an earlier registration of the same root however it was spelled.
    pub fn register(&mut self, root: String, graph: G)
        requires
            old(self).wf(),
        ensures
            final(self).wf(),
            final(self).graphs() == old(self).graphs().insert(normalized_path(root@), graph),
    {
        let key = normalize_path(root.as_str());
        self.insert_key(key, graph);
    }
}

} // verus!
