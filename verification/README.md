# tracedecay_status

Verified status, diagnostics, and admission decisions for TraceDecay's daemon,
MCP status tools, `tracedecay status` command, and local dashboard.

- `src/` is the library, written in Verus: every function carries a contract
  and is proved against it. `src/laws.rs` states the properties that span
  calls (admission once per shard, no more convergence runs than admitted
  schedules, a single convergence permit, read-only non-active projects,
  withheld retention figures only under partial coverage, and so on).
- `tests/` exercises the library on concrete values.
- `app/` is the unverified edge: serde wire types, JSON answers, environment
  and filesystem reads, and the dashboard's HTTP binding and admission layer.

The only outside calls the library makes are the HTTP library's parsers of a
Host and an Origin header (`src/dashboard.rs`) and the system clock
(`src/doctor.rs`); each outside function stands behind one trusted wrapper
whose contract says what is assumed of it.
