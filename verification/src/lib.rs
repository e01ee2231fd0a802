//! Verified status, diagnostics, and admission decisions for TraceDecay's
//! daemon, MCP tools, CLI status command, and local dashboard.

pub mod code_search;
pub mod convergence;
pub mod convergence_ledger;
pub mod dashboard;
pub mod doctor;
pub mod laws;
pub mod mcp_status;
pub mod ordered_keys;
pub mod project_open;
pub mod status_cli;
pub mod status_markdown;
pub mod text;
