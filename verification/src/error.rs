//! # Error Types
//!
//! Shared error model for tool validation, auth, transport, and upstream API failures.

use vstd::prelude::*;
use vstd::string::*;

use crate::sql_safety::ScratchpadSqlPolicyCode;
use crate::text;

verus! {

#[derive(Debug)]
pub enum AnalyticsError {
    InvalidArgument { field: &'static str, message: String },
    InvalidCursor(String),
    CursorQueryMismatch,
    AuthBootstrap(String),
    MissingRequestAccessToken { header: String },
    MalformedRequestAccessToken { header: String, message: String },
    /// A token provider failed; the text is what it reported.
    TokenProvider(String),
    /// The HTTP transport failed; the text is what it reported.
    Transport(String),
    /// The upstream answer is no JSON; the text is what the parser reported.
    UpstreamJson(String),
    UpstreamApi { status: u16, message: String },
    ScratchpadEngine(String),
    ScratchpadLimitExceeded { field: &'static str, message: String },
    ScratchpadSqlRejected { policy_code: ScratchpadSqlPolicyCode, message: String },
    ScratchpadQueryTimeout { timeout_ms: u64 },
    ScratchpadQueryCancelled,
    ScratchpadSessionNotFound { session_id: String },
    PolicyDenied { profile: String, tool: String },
    Internal(String),
}

/// What an error says: the same as an [`AnalyticsError`], over plain text.
pub enum Problem {
    InvalidArgument(Seq<char>, Seq<char>),
    InvalidCursor(Seq<char>),
    CursorQueryMismatch,
    AuthBootstrap(Seq<char>),
    MissingRequestAccessToken(Seq<char>),
    MalformedRequestAccessToken(Seq<char>, Seq<char>),
    TokenProvider(Seq<char>),
    Transport(Seq<char>),
    UpstreamJson(Seq<char>),
    UpstreamApi(u16, Seq<char>),
    ScratchpadEngine(Seq<char>),
    ScratchpadLimitExceeded(Seq<char>, Seq<char>),
    ScratchpadSqlRejected(ScratchpadSqlPolicyCode, Seq<char>),
    ScratchpadQueryTimeout(u64),
    ScratchpadQueryCancelled,
    ScratchpadSessionNotFound(Seq<char>),
    PolicyDenied(Seq<char>, Seq<char>),
    Internal(Seq<char>),
}

impl Problem {
    /// The stable code of the error.
    pub open spec fn code_text(self) -> Seq<char> {
        match self {
            Problem::InvalidArgument(_, _) => "INVALID_PARAMS"@,
            Problem::InvalidCursor(_) => "INVALID_CURSOR"@,
            Problem::CursorQueryMismatch => "CURSOR_QUERY_MISMATCH"@,
            Problem::AuthBootstrap(_) => "AUTHENTICATION_FAILED"@,
            Problem::MissingRequestAccessToken(_) => "AUTHENTICATION_FAILED"@,
            Problem::MalformedRequestAccessToken(_, _) => "AUTHENTICATION_FAILED"@,
            Problem::TokenProvider(_) => "AUTHENTICATION_FAILED"@,
            Problem::Transport(_) => "UPSTREAM_TRANSPORT_ERROR"@,
            Problem::UpstreamJson(_) => "UPSTREAM_RESPONSE_PARSE_ERROR"@,
            Problem::UpstreamApi(status, _) => if status >= 500 {
                "UPSTREAM_UNAVAILABLE"@
            } else {
                "UPSTREAM_REJECTED"@
            },
            Problem::ScratchpadEngine(_) => "SCRATCHPAD_ENGINE_ERROR"@,
            Problem::ScratchpadLimitExceeded(_, _) => "SCRATCHPAD_LIMIT_EXCEEDED"@,
            Problem::ScratchpadSqlRejected(_, _) => "SCRATCHPAD_SQL_REJECTED"@,
            Problem::ScratchpadQueryTimeout(_) => "SCRATCHPAD_QUERY_TIMEOUT"@,
            Problem::ScratchpadQueryCancelled => "SCRATCHPAD_QUERY_CANCELLED"@,
            Problem::ScratchpadSessionNotFound(_) => "SCRATCHPAD_SESSION_NOT_FOUND"@,
            Problem::PolicyDenied(_, _) => "POLICY_DENIED"@,
            Problem::Internal(_) => "INTERNAL_ERROR"@,
        }
    }

    /// The stable reason of the error.
    pub open spec fn reason_text(self) -> Seq<char> {
        match self {
            Problem::InvalidArgument(_, _) => "invalid_params"@,
            Problem::InvalidCursor(_) => "invalid_cursor"@,
            Problem::CursorQueryMismatch => "invalid_cursor"@,
            Problem::AuthBootstrap(_) => "auth_failed"@,
            Problem::MissingRequestAccessToken(_) => "auth_failed"@,
            Problem::MalformedRequestAccessToken(_, _) => "auth_failed"@,
            Problem::TokenProvider(_) => "auth_failed"@,
            Problem::Transport(_) => "upstream_transport"@,
            Problem::UpstreamJson(_) => "upstream_response_invalid"@,
            Problem::UpstreamApi(status, _) => if status >= 500 {
                "upstream_unavailable"@
            } else {
                "upstream_rejected"@
            },
            Problem::ScratchpadEngine(_) => "scratchpad_engine_error"@,
            Problem::ScratchpadLimitExceeded(_, _) => "scratchpad_limit_exceeded"@,
            Problem::ScratchpadSqlRejected(_, _) => "scratchpad_sql_restricted"@,
            Problem::ScratchpadQueryTimeout(_) => "scratchpad_timeout"@,
            Problem::ScratchpadQueryCancelled => "scratchpad_cancelled"@,
            Problem::ScratchpadSessionNotFound(_) => "scratchpad_session_not_found"@,
            Problem::PolicyDenied(_, _) => "policy_denied"@,
            Problem::Internal(_) => "internal_error"@,
        }
    }

    /// The part of the system that the error belongs to.
    pub open spec fn category_text(self) -> Seq<char> {
        match self {
            Problem::InvalidArgument(_, _) => "validation"@,
            Problem::InvalidCursor(_) => "cursor"@,
            Problem::CursorQueryMismatch => "cursor"@,
            Problem::AuthBootstrap(_) => "auth"@,
            Problem::MissingRequestAccessToken(_) => "auth"@,
            Problem::MalformedRequestAccessToken(_, _) => "auth"@,
            Problem::TokenProvider(_) => "auth"@,
            Problem::Transport(_) => "transport"@,
            Problem::UpstreamJson(_) => "upstream_parse"@,
            Problem::UpstreamApi(_, _) => "upstream_api"@,
            Problem::ScratchpadEngine(_) => "scratchpad"@,
            Problem::ScratchpadLimitExceeded(_, _) => "scratchpad"@,
            Problem::ScratchpadSqlRejected(_, _) => "scratchpad"@,
            Problem::ScratchpadQueryTimeout(_) => "scratchpad"@,
            Problem::ScratchpadQueryCancelled => "scratchpad"@,
            Problem::ScratchpadSessionNotFound(_) => "scratchpad"@,
            Problem::PolicyDenied(_, _) => "policy"@,
            Problem::Internal(_) => "internal"@,
        }
    }

    /// The code that the engine behind the error gave.
    pub open spec fn engine_code_text(self) -> Option<Seq<char>> {
        match self {
            Problem::UpstreamApi(status, _) => Some(
                "http_"@ + text::decimal(status as nat),
            ),
            Problem::ScratchpadEngine(_) => Some("duckdb"@),
            Problem::ScratchpadSqlRejected(policy_code, _) => Some(policy_code.name()),
            _ => None,
        }
    }

    /// What the error is about, in machine-readable form.
    pub open spec fn detail_text(self) -> Option<Seq<char>> {
        match self {
            Problem::InvalidArgument(field, _) => Some("field="@ + field),
            Problem::InvalidCursor(message) => Some(message),
            Problem::ScratchpadLimitExceeded(field, _) => Some("field="@ + field),
            Problem::ScratchpadQueryTimeout(timeout_ms) => Some(
                "timeout_ms="@ + text::decimal(timeout_ms as nat),
            ),
            Problem::ScratchpadSessionNotFound(session_id) => Some(
                "session_id="@ + session_id,
            ),
            Problem::MissingRequestAccessToken(header) => Some("header="@ + header),
            Problem::MalformedRequestAccessToken(header, _) => Some(
                "header="@ + header,
            ),
            Problem::PolicyDenied(profile, tool) => Some(
                "profile="@ + profile + ";tool="@ + tool,
            ),
            _ => None,
        }
    }

    /// What the caller can do about the error.
    pub open spec fn hint_text(self) -> Option<Seq<char>> {
        match self {
            Problem::InvalidArgument(_, _) => Some(
                "Check the tool argument schema and required fields."@,
            ),
            Problem::InvalidCursor(_) => Some(
                "Use the opaque meta.next_cursor value from the previous response."@,
            ),
            Problem::CursorQueryMismatch => Some(
                "Use cursor with the exact same query parameters that produced it."@,
            ),
            Problem::AuthBootstrap(_) => Some(
                "Ensure either ADC is configured with analytics.readonly scope or OAuth refresh-token auth settings are valid."@,
            ),
            Problem::MissingRequestAccessToken(_) => Some(
                "Configure the MCP client OAuth flow so each request sends a Google access token in the configured upstream token header."@,
            ),
            Problem::MalformedRequestAccessToken(_, _) => Some(
                "Send a valid OAuth access token in the configured upstream token header."@,
            ),
            Problem::TokenProvider(_) => Some(
                "Ensure either ADC is configured with analytics.readonly scope or OAuth refresh-token auth settings are valid."@,
            ),
            Problem::Transport(_) => Some(
                "Check network connectivity and upstream API availability."@,
            ),
            Problem::UpstreamJson(_) => Some(
                "Retry later; upstream payload may be transiently malformed."@,
            ),
            Problem::UpstreamApi(status, _) => if status == 403 {
                Some("Verify property access and OAuth scope permissions."@)
            } else if status == 429 {
                Some("Retry with exponential backoff."@)
            } else if status >= 500 {
                Some("Upstream may be unavailable; retry with backoff."@)
            } else {
                None
            },
            Problem::ScratchpadEngine(_) => Some(
                "Check DuckDB runtime availability and server scratchpad configuration."@,
            ),
            Problem::ScratchpadLimitExceeded(_, _) => Some(
                "Release sessions/tables or reduce input size before retrying."@,
            ),
            Problem::ScratchpadSqlRejected(_, _) => Some(
                "Use read-only SELECT/WITH/EXPLAIN/DESCRIBE/SUMMARIZE queries only."@,
            ),
            Problem::ScratchpadQueryTimeout(_) => Some(
                "Reduce query complexity or increase scratchpad query timeout."@,
            ),
            Problem::ScratchpadQueryCancelled => Some(
                "Retry the query if cancellation was not intentional."@,
            ),
            Problem::ScratchpadSessionNotFound(_) => Some(
                "Open the scratchpad session before querying or listing tables."@,
            ),
            Problem::PolicyDenied(_, _) => Some(
                "Switch capability profile to scratchpad for scratchpad tools, or use GA read tools under read_only."@,
            ),
            Problem::Internal(_) => None,
        }
    }

    /// The message of the error.
    pub open spec fn message_text(self) -> Seq<char> {
        match self {
            Problem::InvalidArgument(field, message) => "invalid "@ + field + ": "@
                + message,
            Problem::InvalidCursor(m) => "invalid cursor: "@ + m,
            Problem::CursorQueryMismatch => "cursor does not match query hash"@,
            Problem::AuthBootstrap(m) => "authentication bootstrap failed: "@ + m,
            Problem::MissingRequestAccessToken(header) =>
                "missing request access token in header "@ + header,
            Problem::MalformedRequestAccessToken(header, message) =>
                "malformed request access token in header "@ + header + ": "@ + message,
            Problem::TokenProvider(m) => "token provider error: "@ + m,
            Problem::Transport(m) => "http client transport error: "@ + m,
            Problem::UpstreamJson(m) => "failed to parse upstream JSON: "@ + m,
            Problem::UpstreamApi(status, message) =>
                "upstream API request failed with status "@ + text::decimal(status as nat) + ": "@
                    + message,
            Problem::ScratchpadEngine(m) => "scratchpad engine error: "@ + m,
            Problem::ScratchpadLimitExceeded(field, message) =>
                "scratchpad limit exceeded for "@ + field + ": "@ + message,
            Problem::ScratchpadSqlRejected(policy_code, message) =>
                "scratchpad sql rejected ("@ + policy_code.name() + "): "@ + message,
            Problem::ScratchpadQueryTimeout(timeout_ms) =>
                "scratchpad query timed out after "@ + text::decimal(timeout_ms as nat) + "ms"@,
            Problem::ScratchpadQueryCancelled => "scratchpad query cancelled"@,
            Problem::ScratchpadSessionNotFound(session_id) =>
                "scratchpad session not found: "@ + session_id,
            Problem::PolicyDenied(profile, tool) => "tool '"@ + tool
                + "' is blocked by capability profile '"@ + profile + "'"@,
            Problem::Internal(m) => "internal error: "@ + m,
        }
    }

    /// The HTTP status of a rejected upstream request.
    pub open spec fn status(self) -> Option<u16> {
        match self {
            Problem::UpstreamApi(status, _) => Some(status),
            _ => None,
        }
    }
}

impl View for AnalyticsError {
    type V = Problem;

    open spec fn view(&self) -> Problem {
        match *self {
            AnalyticsError::InvalidArgument { field, message } => Problem::InvalidArgument(
                field@,
                message@,
            ),
            AnalyticsError::InvalidCursor(m) => Problem::InvalidCursor(m@),
            AnalyticsError::CursorQueryMismatch => Problem::CursorQueryMismatch,
            AnalyticsError::AuthBootstrap(m) => Problem::AuthBootstrap(m@),
            AnalyticsError::MissingRequestAccessToken { header } =>
                Problem::MissingRequestAccessToken(header@),
            AnalyticsError::MalformedRequestAccessToken { header, message } =>
                Problem::MalformedRequestAccessToken(header@, message@),
            AnalyticsError::TokenProvider(m) => Problem::TokenProvider(m@),
            AnalyticsError::Transport(m) => Problem::Transport(m@),
            AnalyticsError::UpstreamJson(m) => Problem::UpstreamJson(m@),
            AnalyticsError::UpstreamApi { status, message } => Problem::UpstreamApi(
                status,
                message@,
            ),
            AnalyticsError::ScratchpadEngine(m) => Problem::ScratchpadEngine(m@),
            AnalyticsError::ScratchpadLimitExceeded { field, message } =>
                Problem::ScratchpadLimitExceeded(field@, message@),
            AnalyticsError::ScratchpadSqlRejected { policy_code, message } =>
                Problem::ScratchpadSqlRejected(policy_code, message@),
            AnalyticsError::ScratchpadQueryTimeout { timeout_ms } =>
                Problem::ScratchpadQueryTimeout(timeout_ms),
            AnalyticsError::ScratchpadQueryCancelled => Problem::ScratchpadQueryCancelled,
            AnalyticsError::ScratchpadSessionNotFound { session_id } =>
                Problem::ScratchpadSessionNotFound(session_id@),
            AnalyticsError::PolicyDenied { profile, tool } => Problem::PolicyDenied(
                profile@,
                tool@,
            ),
            AnalyticsError::Internal(m) => Problem::Internal(m@),
        }
    }
}

impl AnalyticsError {
    /// The stable code of the error.
    pub fn code(&self) -> (r: &'static str)
        ensures
            r@ == self@.code_text(),
    {
        match self {
            AnalyticsError::InvalidArgument { .. } => "INVALID_PARAMS",
            AnalyticsError::InvalidCursor(_) => "INVALID_CURSOR",
            AnalyticsError::CursorQueryMismatch => "CURSOR_QUERY_MISMATCH",
            AnalyticsError::AuthBootstrap(_) => "AUTHENTICATION_FAILED",
            AnalyticsError::MissingRequestAccessToken { .. } => "AUTHENTICATION_FAILED",
            AnalyticsError::MalformedRequestAccessToken { .. } => "AUTHENTICATION_FAILED",
            AnalyticsError::TokenProvider(_) => "AUTHENTICATION_FAILED",
            AnalyticsError::Transport(_) => "UPSTREAM_TRANSPORT_ERROR",
            AnalyticsError::UpstreamJson(_) => "UPSTREAM_RESPONSE_PARSE_ERROR",
            AnalyticsError::UpstreamApi { status, .. } => if *status >= 500 {
                "UPSTREAM_UNAVAILABLE"
            } else {
                "UPSTREAM_REJECTED"
            },
            AnalyticsError::ScratchpadEngine(_) => "SCRATCHPAD_ENGINE_ERROR",
            AnalyticsError::ScratchpadLimitExceeded { .. } => "SCRATCHPAD_LIMIT_EXCEEDED",
            AnalyticsError::ScratchpadSqlRejected { .. } => "SCRATCHPAD_SQL_REJECTED",
            AnalyticsError::ScratchpadQueryTimeout { .. } => "SCRATCHPAD_QUERY_TIMEOUT",
            AnalyticsError::ScratchpadQueryCancelled => "SCRATCHPAD_QUERY_CANCELLED",
            AnalyticsError::ScratchpadSessionNotFound { .. } => "SCRATCHPAD_SESSION_NOT_FOUND",
            AnalyticsError::PolicyDenied { .. } => "POLICY_DENIED",
            AnalyticsError::Internal(_) => "INTERNAL_ERROR",
        }
    }

    /// The stable reason of the error.
    pub fn reason(&self) -> (r: &'static str)
        ensures
            r@ == self@.reason_text(),
    {
        match self {
            AnalyticsError::InvalidArgument { .. } => "invalid_params",
            AnalyticsError::InvalidCursor(_) => "invalid_cursor",
            AnalyticsError::CursorQueryMismatch => "invalid_cursor",
            AnalyticsError::AuthBootstrap(_) => "auth_failed",
            AnalyticsError::MissingRequestAccessToken { .. } => "auth_failed",
            AnalyticsError::MalformedRequestAccessToken { .. } => "auth_failed",
            AnalyticsError::TokenProvider(_) => "auth_failed",
            AnalyticsError::Transport(_) => "upstream_transport",
            AnalyticsError::UpstreamJson(_) => "upstream_response_invalid",
            AnalyticsError::UpstreamApi { status, .. } => if *status >= 500 {
                "upstream_unavailable"
            } else {
                "upstream_rejected"
            },
            AnalyticsError::ScratchpadEngine(_) => "scratchpad_engine_error",
            AnalyticsError::ScratchpadLimitExceeded { .. } => "scratchpad_limit_exceeded",
            AnalyticsError::ScratchpadSqlRejected { .. } => "scratchpad_sql_restricted",
            AnalyticsError::ScratchpadQueryTimeout { .. } => "scratchpad_timeout",
            AnalyticsError::ScratchpadQueryCancelled => "scratchpad_cancelled",
            AnalyticsError::ScratchpadSessionNotFound { .. } => "scratchpad_session_not_found",
            AnalyticsError::PolicyDenied { .. } => "policy_denied",
            AnalyticsError::Internal(_) => "internal_error",
        }
    }

    /// The HTTP status of a rejected upstream request.
    pub fn status_code(&self) -> (r: Option<u16>)
        ensures
            r == self@.status(),
    {
        match self {
            AnalyticsError::UpstreamApi { status, .. } => Some(*status),
            _ => None,
        }
    }

    /// The part of the system that the error belongs to.
    pub fn category(&self) -> (r: &'static str)
        ensures
            r@ == self@.category_text(),
    {
        match self {
            AnalyticsError::InvalidArgument { .. } => "validation",
            AnalyticsError::InvalidCursor(_) => "cursor",
            AnalyticsError::CursorQueryMismatch => "cursor",
            AnalyticsError::AuthBootstrap(_) => "auth",
            AnalyticsError::MissingRequestAccessToken { .. } => "auth",
            AnalyticsError::MalformedRequestAccessToken { .. } => "auth",
            AnalyticsError::TokenProvider(_) => "auth",
            AnalyticsError::Transport(_) => "transport",
            AnalyticsError::UpstreamJson(_) => "upstream_parse",
            AnalyticsError::UpstreamApi { .. } => "upstream_api",
            AnalyticsError::ScratchpadEngine(_) => "scratchpad",
            AnalyticsError::ScratchpadLimitExceeded { .. } => "scratchpad",
            AnalyticsError::ScratchpadSqlRejected { .. } => "scratchpad",
            AnalyticsError::ScratchpadQueryTimeout { .. } => "scratchpad",
            AnalyticsError::ScratchpadQueryCancelled => "scratchpad",
            AnalyticsError::ScratchpadSessionNotFound { .. } => "scratchpad",
            AnalyticsError::PolicyDenied { .. } => "policy",
            AnalyticsError::Internal(_) => "internal",
        }
    }

    /// The code that the engine behind the error gave.
    pub fn engine_code(&self) -> (r: Option<String>)
        ensures
            text::opt_text(r) == self@.engine_code_text(),
    {
        match self {
            AnalyticsError::UpstreamApi { status, .. } => {
                let mut code: String = "http_".to_owned();
                code.append(text::decimal_text(*status as u64).as_str());
                Some(code)
            },
            AnalyticsError::ScratchpadEngine(_) => Some("duckdb".to_owned()),
            AnalyticsError::ScratchpadSqlRejected { policy_code, .. } => Some(
                policy_code.as_str().to_owned(),
            ),
            _ => None,
        }
    }

    /// What the error is about, in machine-readable form.
    pub fn detail(&self) -> (r: Option<String>)
        ensures
            text::opt_text(r) == self@.detail_text(),
    {
        match self {
            AnalyticsError::InvalidArgument { field, .. } => Some(labelled("field=", field)),
            AnalyticsError::InvalidCursor(message) => Some(message.clone()),
            AnalyticsError::ScratchpadLimitExceeded { field, .. } => Some(
                labelled("field=", field),
            ),
            AnalyticsError::ScratchpadQueryTimeout { timeout_ms } => Some(
                labelled("timeout_ms=", text::decimal_text(*timeout_ms).as_str()),
            ),
            AnalyticsError::ScratchpadSessionNotFound { session_id } => Some(
                labelled("session_id=", session_id.as_str()),
            ),
            AnalyticsError::MissingRequestAccessToken { header } => Some(
                labelled("header=", header.as_str()),
            ),
            AnalyticsError::MalformedRequestAccessToken { header, .. } => Some(
                labelled("header=", header.as_str()),
            ),
            AnalyticsError::PolicyDenied { profile, tool } => {
                let mut detail: String = labelled("profile=", profile.as_str());
                detail.append(";tool=");
                detail.append(tool.as_str());
                Some(detail)
            },
            _ => None,
        }
    }

    /// What the caller can do about the error.
    pub fn hint(&self) -> (r: Option<&'static str>)
        ensures
            text::opt_str(r) == self@.hint_text(),
    {
        match self {
            AnalyticsError::InvalidArgument { .. } => Some(
                "Check the tool argument schema and required fields.",
            ),
            AnalyticsError::InvalidCursor(_) => Some(
                "Use the opaque meta.next_cursor value from the previous response.",
            ),
            AnalyticsError::CursorQueryMismatch => Some(
                "Use cursor with the exact same query parameters that produced it.",
            ),
            AnalyticsError::AuthBootstrap(_) => Some(
                "Ensure either ADC is configured with analytics.readonly scope or OAuth refresh-token auth settings are valid.",
            ),
            AnalyticsError::MissingRequestAccessToken { .. } => Some(
                "Configure the MCP client OAuth flow so each request sends a Google access token in the configured upstream token header.",
            ),
            AnalyticsError::MalformedRequestAccessToken { .. } => Some(
                "Send a valid OAuth access token in the configured upstream token header.",
            ),
            AnalyticsError::TokenProvider(_) => Some(
                "Ensure either ADC is configured with analytics.readonly scope or OAuth refresh-token auth settings are valid.",
            ),
            AnalyticsError::Transport(_) => Some(
                "Check network connectivity and upstream API availability.",
            ),
            AnalyticsError::UpstreamJson(_) => Some(
                "Retry later; upstream payload may be transiently malformed.",
            ),
            AnalyticsError::UpstreamApi { status, .. } => if *status == 403 {
                Some("Verify property access and OAuth scope permissions.")
            } else if *status == 429 {
                Some("Retry with exponential backoff.")
            } else if *status >= 500 {
                Some("Upstream may be unavailable; retry with backoff.")
            } else {
                None
            },
            AnalyticsError::ScratchpadEngine(_) => Some(
                "Check DuckDB runtime availability and server scratchpad configuration.",
            ),
            AnalyticsError::ScratchpadLimitExceeded { .. } => Some(
                "Release sessions/tables or reduce input size before retrying.",
            ),
            AnalyticsError::ScratchpadSqlRejected { .. } => Some(
                "Use read-only SELECT/WITH/EXPLAIN/DESCRIBE/SUMMARIZE queries only.",
            ),
            AnalyticsError::ScratchpadQueryTimeout { .. } => Some(
                "Reduce query complexity or increase scratchpad query timeout.",
            ),
            AnalyticsError::ScratchpadQueryCancelled => Some(
                "Retry the query if cancellation was not intentional.",
            ),
            AnalyticsError::ScratchpadSessionNotFound { .. } => Some(
                "Open the scratchpad session before querying or listing tables.",
            ),
            AnalyticsError::PolicyDenied { .. } => Some(
                "Switch capability profile to scratchpad for scratchpad tools, or use GA read tools under read_only.",
            ),
            AnalyticsError::Internal(_) => None,
        }
    }

    /// Where in the input the error stands; no error carries a position.
    pub fn position(&self) -> (r: Option<&str>)
        ensures
            r is None,
    {
        None
    }

    /// The message of the error.
    pub fn message(&self) -> (r: String)
        ensures
            r@ == self@.message_text(),
    {
        match self {
            AnalyticsError::InvalidArgument { field, message } => described(
                "invalid ",
                field,
                ": ",
                message.as_str(),
            ),
            AnalyticsError::InvalidCursor(m) => labelled("invalid cursor: ", m.as_str()),
            AnalyticsError::CursorQueryMismatch => "cursor does not match query hash".to_owned(),
            AnalyticsError::AuthBootstrap(m) => labelled(
                "authentication bootstrap failed: ",
                m.as_str(),
            ),
            AnalyticsError::MissingRequestAccessToken { header } => labelled(
                "missing request access token in header ",
                header.as_str(),
            ),
            AnalyticsError::MalformedRequestAccessToken { header, message } => described(
                "malformed request access token in header ",
                header.as_str(),
                ": ",
                message.as_str(),
            ),
            AnalyticsError::TokenProvider(m) => labelled("token provider error: ", m.as_str()),
            AnalyticsError::Transport(m) => labelled("http client transport error: ", m.as_str()),
            AnalyticsError::UpstreamJson(m) => labelled(
                "failed to parse upstream JSON: ",
                m.as_str(),
            ),
            AnalyticsError::UpstreamApi { status, message } => described(
                "upstream API request failed with status ",
                text::decimal_text(*status as u64).as_str(),
                ": ",
                message.as_str(),
            ),
            AnalyticsError::ScratchpadEngine(m) => labelled("scratchpad engine error: ", m.as_str()),
            AnalyticsError::ScratchpadLimitExceeded { field, message } => described(
                "scratchpad limit exceeded for ",
                field,
                ": ",
                message.as_str(),
            ),
            AnalyticsError::ScratchpadSqlRejected { policy_code, message } => described(
                "scratchpad sql rejected (",
                policy_code.as_str(),
                "): ",
                message.as_str(),
            ),
            AnalyticsError::ScratchpadQueryTimeout { timeout_ms } => {
                let mut r: String = labelled(
                    "scratchpad query timed out after ",
                    text::decimal_text(*timeout_ms).as_str(),
                );
                r.append("ms");
                r
            },
            AnalyticsError::ScratchpadQueryCancelled => "scratchpad query cancelled".to_owned(),
            AnalyticsError::ScratchpadSessionNotFound { session_id } => labelled(
                "scratchpad session not found: ",
                session_id.as_str(),
            ),
            AnalyticsError::PolicyDenied { profile, tool } => {
                let mut r: String = described(
                    "tool '",
                    tool.as_str(),
                    "' is blocked by capability profile '",
                    profile.as_str(),
                );
                r.append("'");
                r
            },
            AnalyticsError::Internal(m) => labelled("internal error: ", m.as_str()),
        }
    }

    /// An argument that the tool does not accept.
    pub fn invalid(field: &'static str, message: &str) -> (r: Self)
        ensures
            r@ == Problem::InvalidArgument(field@, message@),
    {
        AnalyticsError::InvalidArgument { field, message: message.to_owned() }
    }

    /// A cursor that cannot be read.
    pub fn invalid_cursor(message: &str) -> (r: Self)
        ensures
            r@ == Problem::InvalidCursor(message@),
    {
        AnalyticsError::InvalidCursor(message.to_owned())
    }

    /// A scratchpad limit that a request would break.
    pub fn scratchpad_limit(field: &'static str, message: &str) -> (r: Self)
        ensures
            r@ == Problem::ScratchpadLimitExceeded(field@, message@),
    {
        AnalyticsError::ScratchpadLimitExceeded { field, message: message.to_owned() }
    }

    /// SQL that the scratchpad policy refuses.
    pub fn scratchpad_sql_rejected(
        policy_code: ScratchpadSqlPolicyCode,
        message: &str,
    ) -> (r: Self)
        ensures
            r@ == Problem::ScratchpadSqlRejected(policy_code, message@),
    {
        AnalyticsError::ScratchpadSqlRejected { policy_code, message: message.to_owned() }
    }

    /// A query that ran longer than the given number of milliseconds.
    pub fn scratchpad_query_timeout(timeout_ms: u128) -> (r: Self)
        ensures
            r@ == Problem::ScratchpadQueryTimeout(
                if timeout_ms > u64::MAX {
                    u64::MAX
                } else {
                    timeout_ms as u64
                },
            ),
    {
        let timeout_ms: u64 = if timeout_ms > u64::MAX as u128 {
            u64::MAX
        } else {
            timeout_ms as u64
        };
        AnalyticsError::ScratchpadQueryTimeout { timeout_ms }
    }

    /// A query that was cancelled.
    pub fn scratchpad_query_cancelled() -> (r: Self)
        ensures
            r@ == Problem::ScratchpadQueryCancelled,
    {
        AnalyticsError::ScratchpadQueryCancelled
    }

    /// A session that is not open.
    pub fn scratchpad_session_not_found(session_id: &str) -> (r: Self)
        ensures
            r@ == Problem::ScratchpadSessionNotFound(session_id@),
    {
        AnalyticsError::ScratchpadSessionNotFound { session_id: session_id.to_owned() }
    }

    /// A tool that the capability profile does not offer.
    pub fn policy_denied(profile: &str, tool: &str) -> (r: Self)
        ensures
            r@ == Problem::PolicyDenied(profile@, tool@),
    {
        AnalyticsError::PolicyDenied { profile: profile.to_owned(), tool: tool.to_owned() }
    }

    /// A request without the access token that it must carry.
    pub fn missing_request_access_token(header: &str) -> (r: Self)
        ensures
            r@ == Problem::MissingRequestAccessToken(header@),
    {
        AnalyticsError::MissingRequestAccessToken { header: header.to_owned() }
    }

    /// A request whose access token cannot be used.
    pub fn malformed_request_access_token(header: &str, message: &str) -> (r: Self)
        ensures
            r@ == Problem::MalformedRequestAccessToken(header@, message@),
    {
        AnalyticsError::MalformedRequestAccessToken {
            header: header.to_owned(),
            message: message.to_owned(),
        }
    }

    /// A fault of the server itself.
    pub fn internal(message: &str) -> (r: Self)
        ensures
            r@ == Problem::Internal(message@),
    {
        AnalyticsError::Internal(message.to_owned())
    }
}

/// What a successful or failed check says.
pub open spec fn outcome(r: Result<(), AnalyticsError>) -> Option<Problem> {
    match r {
        Ok(()) => None,
        Err(err) => Some(err@),
    }
}

/// `label` and then `value`.
pub fn labelled(label: &str, value: &str) -> (r: String)
    ensures
        r@ == label@ + value@,
{
    let mut r: String = label.to_owned();
    r.append(value);
    r
}

/// Two labelled values, one after the other.
pub fn described(label: &str, value: &str, next: &str, rest: &str) -> (r: String)
    ensures
        r@ == label@ + value@ + next@ + rest@,
{
    let mut r: String = label.to_owned();
    r.append(value);
    r.append(next);
    r.append(rest);
    r
}

/// `label`, then the number `n`, then `rest`.
pub fn numbered(label: &str, n: u64, rest: &str) -> (r: String)
    ensures
        r@ == label@ + text::decimal(n as nat) + rest@,
{
    let mut r: String = label.to_owned();
    r.append(text::decimal_text(n).as_str());
    r.append(rest);
    r
}

/// The first of two problems.
pub open spec fn earlier(first: Option<Problem>, next: Option<Problem>) -> Option<Problem> {
    match first {
        Some(problem) => Some(problem),
        None => next,
    }
}

/// The first problem that `check` finds among the numbers below `n`.
pub open spec fn first_problem(n: nat, check: spec_fn(int) -> Option<Problem>) -> Option<Problem>
    decreases n,
{
    if n == 0 {
        None
    } else {
        match first_problem((n - 1) as nat, check) {
            Some(problem) => Some(problem),
            None => check(n - 1),
        }
    }
}

/// A problem that is found first stays the first one, however many follow.
pub proof fn lemma_first_problem(n: nat, m: nat, check: spec_fn(int) -> Option<Problem>)
    requires
        m <= n,
        first_problem(m, check) is Some,
    ensures
        first_problem(n, check) == first_problem(m, check),
    decreases n,
{
    if n > m {
        lemma_first_problem((n - 1) as nat, m, check);
    }
}

// ---------------------------------------------------------------------------
// Laws.
// ---------------------------------------------------------------------------

/// Only an upstream rejection carries an HTTP status, and it always shows as an engine
/// code too.
pub proof fn law_status_is_engine_code(err: Problem)
    ensures
        err is UpstreamApi ==> err.engine_code_text() is Some,
        err.engine_code_text() is Some ==> err is UpstreamApi || err is ScratchpadEngine
            || err is ScratchpadSqlRejected,
{
}

/// Both cursor errors are told by one reason and one category.
pub proof fn law_cursor_errors_share_reason(err: Problem)
    requires
        err is InvalidCursor || err is CursorQueryMismatch,
    ensures
        err.reason_text() == "invalid_cursor"@,
        err.category_text() == "cursor"@,
{
}

/// What callers read of an error: its code, its reason and its category go by its kind, and by
/// whether an upstream answer blames itself; its message and its detail tell what it holds.
pub proof fn law_errors_are_told_by_their_kind(err: Problem)
    ensures
        match err {
            Problem::InvalidArgument(field, message) => {
                &&& err.code_text() == "INVALID_PARAMS"@
                &&& err.reason_text() == "invalid_params"@
                &&& err.category_text() == "validation"@
                &&& err.engine_code_text() is None
                &&& err.detail_text() == (Some("field="@ + field))
                &&& err.message_text() == ("invalid "@ + field + ": "@ + message)
            },
            Problem::InvalidCursor(message) => {
                &&& err.code_text() == "INVALID_CURSOR"@
                &&& err.reason_text() == "invalid_cursor"@
                &&& err.category_text() == "cursor"@
                &&& err.engine_code_text() is None
                &&& err.detail_text() == (Some(message))
                &&& err.message_text() == ("invalid cursor: "@ + message)
            },
            Problem::CursorQueryMismatch => {
                &&& err.code_text() == "CURSOR_QUERY_MISMATCH"@
                &&& err.reason_text() == "invalid_cursor"@
                &&& err.category_text() == "cursor"@
                &&& err.engine_code_text() is None
                &&& err.detail_text() is None
                &&& err.message_text() == "cursor does not match query hash"@
            },
            Problem::AuthBootstrap(message) => {
                &&& err.code_text() == "AUTHENTICATION_FAILED"@
                &&& err.reason_text() == "auth_failed"@
                &&& err.category_text() == "auth"@
                &&& err.engine_code_text() is None
                &&& err.detail_text() is None
                &&& err.message_text() == ("authentication bootstrap failed: "@ + message)
            },
            Problem::MissingRequestAccessToken(header) => {
                &&& err.code_text() == "AUTHENTICATION_FAILED"@
                &&& err.reason_text() == "auth_failed"@
                &&& err.category_text() == "auth"@
                &&& err.engine_code_text() is None
                &&& err.detail_text() == (Some("header="@ + header))
                &&& err.message_text() == ("missing request access token in header "@ + header)
            },
            Problem::MalformedRequestAccessToken(header, message) => {
                &&& err.code_text() == "AUTHENTICATION_FAILED"@
                &&& err.reason_text() == "auth_failed"@
                &&& err.category_text() == "auth"@
                &&& err.engine_code_text() is None
                &&& err.detail_text() == (Some("header="@ + header))
                &&& err.message_text()
                    == ("malformed request access token in header "@ + header + ": "@ + message)
            },
            Problem::TokenProvider(message) => {
                &&& err.code_text() == "AUTHENTICATION_FAILED"@
                &&& err.reason_text() == "auth_failed"@
                &&& err.category_text() == "auth"@
                &&& err.engine_code_text() is None
                &&& err.detail_text() is None
                &&& err.message_text() == ("token provider error: "@ + message)
            },
            Problem::Transport(message) => {
                &&& err.code_text() == "UPSTREAM_TRANSPORT_ERROR"@
                &&& err.reason_text() == "upstream_transport"@
                &&& err.category_text() == "transport"@
                &&& err.engine_code_text() is None
                &&& err.detail_text() is None
                &&& err.message_text() == ("http client transport error: "@ + message)
            },
            Problem::UpstreamJson(message) => {
                &&& err.code_text() == "UPSTREAM_RESPONSE_PARSE_ERROR"@
                &&& err.reason_text() == "upstream_response_invalid"@
                &&& err.category_text() == "upstream_parse"@
                &&& err.engine_code_text() is None
                &&& err.detail_text() is None
                &&& err.message_text() == ("failed to parse upstream JSON: "@ + message)
            },
            Problem::UpstreamApi(status, message) => {
                &&& err.code_text()
                    == (if status >= 500 { "UPSTREAM_UNAVAILABLE"@ } else { "UPSTREAM_REJECTED"@ })
                &&& err.reason_text()
                    == (if status >= 500 { "upstream_unavailable"@ } else { "upstream_rejected"@ })
                &&& err.category_text() == "upstream_api"@
                &&& err.engine_code_text() == (Some("http_"@ + text::decimal(status as nat)))
                &&& err.detail_text() is None
                &&& err.message_text()
                    == (
                        "upstream API request failed with status "@
                            + text::decimal(status as nat)
                            + ": "@
                            + message
                    )
            },
            Problem::ScratchpadEngine(message) => {
                &&& err.code_text() == "SCRATCHPAD_ENGINE_ERROR"@
                &&& err.reason_text() == "scratchpad_engine_error"@
                &&& err.category_text() == "scratchpad"@
                &&& err.engine_code_text() == (Some("duckdb"@))
                &&& err.detail_text() is None
                &&& err.message_text() == ("scratchpad engine error: "@ + message)
            },
            Problem::ScratchpadLimitExceeded(field, message) => {
                &&& err.code_text() == "SCRATCHPAD_LIMIT_EXCEEDED"@
                &&& err.reason_text() == "scratchpad_limit_exceeded"@
                &&& err.category_text() == "scratchpad"@
                &&& err.engine_code_text() is None
                &&& err.detail_text() == (Some("field="@ + field))
                &&& err.message_text()
                    == ("scratchpad limit exceeded for "@ + field + ": "@ + message)
            },
            Problem::ScratchpadSqlRejected(policy_code, message) => {
                &&& err.code_text() == "SCRATCHPAD_SQL_REJECTED"@
                &&& err.reason_text() == "scratchpad_sql_restricted"@
                &&& err.category_text() == "scratchpad"@
                &&& err.engine_code_text() == (Some(policy_code.name()))
                &&& err.detail_text() is None
                &&& err.message_text()
                    == ("scratchpad sql rejected ("@ + policy_code.name() + "): "@ + message)
            },
            Problem::ScratchpadQueryTimeout(timeout_ms) => {
                &&& err.code_text() == "SCRATCHPAD_QUERY_TIMEOUT"@
                &&& err.reason_text() == "scratchpad_timeout"@
                &&& err.category_text() == "scratchpad"@
                &&& err.engine_code_text() is None
                &&& err.detail_text() == (Some("timeout_ms="@ + text::decimal(timeout_ms as nat)))
                &&& err.message_text()
                    == (
                        "scratchpad query timed out after "@
                            + text::decimal(timeout_ms as nat)
                            + "ms"@
                    )
            },
            Problem::ScratchpadQueryCancelled => {
                &&& err.code_text() == "SCRATCHPAD_QUERY_CANCELLED"@
                &&& err.reason_text() == "scratchpad_cancelled"@
                &&& err.category_text() == "scratchpad"@
                &&& err.engine_code_text() is None
                &&& err.detail_text() is None
                &&& err.message_text() == "scratchpad query cancelled"@
            },
            Problem::ScratchpadSessionNotFound(session_id) => {
                &&& err.code_text() == "SCRATCHPAD_SESSION_NOT_FOUND"@
                &&& err.reason_text() == "scratchpad_session_not_found"@
                &&& err.category_text() == "scratchpad"@
                &&& err.engine_code_text() is None
                &&& err.detail_text() == (Some("session_id="@ + session_id))
                &&& err.message_text() == ("scratchpad session not found: "@ + session_id)
            },
            Problem::PolicyDenied(profile, tool) => {
                &&& err.code_text() == "POLICY_DENIED"@
                &&& err.reason_text() == "policy_denied"@
                &&& err.category_text() == "policy"@
                &&& err.engine_code_text() is None
                &&& err.detail_text() == (Some("profile="@ + profile + ";tool="@ + tool))
                &&& err.message_text()
                    == ("tool '"@ + tool + "' is blocked by capability profile '"@ + profile + "'"@)
            },
            Problem::Internal(message) => {
                &&& err.code_text() == "INTERNAL_ERROR"@
                &&& err.reason_text() == "internal_error"@
                &&& err.category_text() == "internal"@
                &&& err.engine_code_text() is None
                &&& err.detail_text() is None
                &&& err.message_text() == ("internal error: "@ + message)
            },
        },
{
}

/// What callers are told to do about an error goes by its kind, and by the status of an upstream
/// answer.
pub proof fn law_hints_go_by_the_kind(err: Problem)
    ensures
        match err {
            Problem::InvalidArgument(field, message) => {
                &&& err.hint_text()
                    == (Some("Check the tool argument schema and required fields."@))
            },
            Problem::InvalidCursor(message) => {
                &&& err.hint_text()
                    == (Some("Use the opaque meta.next_cursor value from the previous response."@))
            },
            Problem::CursorQueryMismatch => {
                &&& err.hint_text()
                    == (Some("Use cursor with the exact same query parameters that produced it."@))
            },
            Problem::AuthBootstrap(message) => {
                &&& err.hint_text()
                    == (
                        Some(
                            "Ensure either ADC is configured with analytics.readonly scope or OAuth refresh-token auth settings are valid."@,
                        )
                    )
            },
            Problem::MissingRequestAccessToken(header) => {
                &&& err.hint_text()
                    == (
                        Some(
                            "Configure the MCP client OAuth flow so each request sends a Google access token in the configured upstream token header."@,
                        )
                    )
            },
            Problem::MalformedRequestAccessToken(header, message) => {
                &&& err.hint_text()
                    == (
                        Some(
                            "Send a valid OAuth access token in the configured upstream token header."@,
                        )
                    )
            },
            Problem::TokenProvider(message) => {
                &&& err.hint_text()
                    == (
                        Some(
                            "Ensure either ADC is configured with analytics.readonly scope or OAuth refresh-token auth settings are valid."@,
                        )
                    )
            },
            Problem::Transport(message) => {
                &&& err.hint_text()
                    == (Some("Check network connectivity and upstream API availability."@))
            },
            Problem::UpstreamJson(message) => {
                &&& err.hint_text()
                    == (Some("Retry later; upstream payload may be transiently malformed."@))
            },
            Problem::UpstreamApi(status, message) => {
                &&& err.hint_text()
                    == (
                        if status
                            == 403 {
                                Some("Verify property access and OAuth scope permissions."@)
                            } else if status
                            == 429 {
                                Some("Retry with exponential backoff."@)
                            } else if status >= 500 { Some(
                                "Upstream may be unavailable; retry with backoff."@,
                            ) } else { None }
                    )
            },
            Problem::ScratchpadEngine(message) => {
                &&& err.hint_text()
                    == (
                        Some(
                            "Check DuckDB runtime availability and server scratchpad configuration."@,
                        )
                    )
            },
            Problem::ScratchpadLimitExceeded(field, message) => {
                &&& err.hint_text()
                    == (Some("Release sessions/tables or reduce input size before retrying."@))
            },
            Problem::ScratchpadSqlRejected(policy_code, message) => {
                &&& err.hint_text()
                    == (Some("Use read-only SELECT/WITH/EXPLAIN/DESCRIBE/SUMMARIZE queries only."@))
            },
            Problem::ScratchpadQueryTimeout(timeout_ms) => {
                &&& err.hint_text()
                    == (Some("Reduce query complexity or increase scratchpad query timeout."@))
            },
            Problem::ScratchpadQueryCancelled => {
                &&& err.hint_text()
                    == (Some("Retry the query if cancellation was not intentional."@))
            },
            Problem::ScratchpadSessionNotFound(session_id) => {
                &&& err.hint_text()
                    == (Some("Open the scratchpad session before querying or listing tables."@))
            },
            Problem::PolicyDenied(profile, tool) => {
                &&& err.hint_text()
                    == (
                        Some(
                            "Switch capability profile to scratchpad for scratchpad tools, or use GA read tools under read_only."@,
                        )
                    )
            },
            Problem::Internal(message) => {
                &&& err.hint_text() is None
            },
        },
{
}

/// Of several checks the first that finds a problem tells it; there is none exactly where no
/// check finds one.
pub proof fn law_the_first_problem_is_told(n: nat, check: spec_fn(int) -> Option<Problem>)
    ensures
        first_problem(n, check) is None <==> forall|i: int|
            0 <= i < n ==> #[trigger] check(i) is None,
        first_problem(n, check) matches Some(problem) ==> exists|i: int|
            0 <= i < n && #[trigger] check(i) == Some(problem) && forall|j: int|
                0 <= j < i ==> #[trigger] check(j) is None,
    decreases n,
{
    if n > 0 {
        law_the_first_problem_is_told((n - 1) as nat, check);
        if first_problem((n - 1) as nat, check) is None {
            if check(n - 1) is Some {
                assert forall|j: int| 0 <= j < n - 1 implies #[trigger] check(j) is None by {
                }
            }
        } else {
            let i = choose|i: int|
                0 <= i < n - 1 && #[trigger] check(i) == first_problem((n - 1) as nat, check)
                    && forall|j: int| 0 <= j < i ==> #[trigger] check(j) is None;
            assert(check(i) is Some);
        }
    }
}

} // verus!
