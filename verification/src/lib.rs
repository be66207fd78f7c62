//! Verified core of a Google Analytics 4 tool server.

pub mod auth_login;
pub mod auth_report;
pub mod auth_tools;
pub mod auth_ux;
pub mod compatibility;
pub mod config;
pub mod contract;
pub mod cursors;
pub mod dates;
pub mod duck_values;
pub mod error;
pub mod filters;
pub mod funnel;
pub mod ga_calls;
pub mod ga_client;
pub mod ga_payload;
pub mod http_config;
pub mod http_runtime;
pub mod ingest;
pub mod json;
pub mod json_text;
pub mod memory_pressure;
pub mod preview;
pub mod query_hashes;
pub mod release_sql;
pub mod report_args;
pub mod report_checks;
pub mod report_tools;
pub mod scratchpad_query;
pub mod scratchpad_tools;
pub mod server;
pub mod session_limits;
pub mod shell;
pub mod sql_safety;
pub mod sql_text;
pub mod tabular;
pub mod templates;
pub mod text;
