//! # Configuration
//!
//! CLI and environment-backed runtime configuration for ga4-mcp.

use vstd::prelude::*;

use crate::text;

verus! {

pub const DEFAULT_ANALYTICS_SCOPE: &'static str = "https://www.googleapis.com/auth/analytics.readonly";

pub const DEFAULT_ADMIN_BASE_URL: &'static str = "https://analyticsadmin.googleapis.com";

pub const DEFAULT_DATA_BASE_URL: &'static str = "https://analyticsdata.googleapis.com";

pub const DEFAULT_HTTP_TIMEOUT_MS: u64 = 15_000;

pub const DEFAULT_MAX_PAGE_SIZE: u32 = 200;

pub const DEFAULT_MAX_PAGES: u32 = 20;

pub const DEFAULT_USER_AGENT: &'static str = "ga4-mcp/0.1.0";

pub const DEFAULT_SCRATCHPAD_SESSION_TTL_SECS: u64 = 900;

pub const DEFAULT_SCRATCHPAD_MAX_SESSIONS: usize = 64;

pub const DEFAULT_SCRATCHPAD_MAX_TABLES_PER_SESSION: usize = 32;

pub const DEFAULT_SCRATCHPAD_MAX_ROWS_PER_SESSION: usize = 1_000_000;

pub const DEFAULT_SCRATCHPAD_MAX_MEMORY_MB: usize = 256;

pub const DEFAULT_SCRATCHPAD_QUERY_TIMEOUT_MS: u64 = 15_000;

pub const DEFAULT_SCRATCHPAD_MAX_SQL_BYTES: usize = 65_536;

#[derive(Debug, Clone, Copy, PartialEq, Eq, Structural)]
pub enum CapabilityProfile {
    ReadOnly,
    Scratchpad,
}

impl CapabilityProfile {
    /// The name of the profile.
    pub open spec fn name(self) -> Seq<char> {
        match self {
            CapabilityProfile::ReadOnly => "read_only"@,
            CapabilityProfile::Scratchpad => "scratchpad"@,
        }
    }

    /// Whether the profile offers the tool with that name.
    pub open spec fn offers(self, tool_name: Seq<char>) -> bool {
        self == CapabilityProfile::Scratchpad || !text::begins(tool_name, "scratchpad_"@)
    }

    /// The name of the profile.
    pub fn as_str(self) -> (r: &'static str)
        ensures
            r@ == self.name(),
    {
        match self {
            CapabilityProfile::ReadOnly => "read_only",
            CapabilityProfile::Scratchpad => "scratchpad",
        }
    }

    /// Whether the profile offers the tool with that name.
    pub fn allows_tool(self, tool_name: &str) -> (r: bool)
        ensures
            r == self.offers(tool_name@),
    {
        match self {
            CapabilityProfile::ReadOnly => !text::starts_with(tool_name, "scratchpad_"),
            CapabilityProfile::Scratchpad => true,
        }
    }
}

#[derive(Debug, Clone, Copy, PartialEq, Eq, Structural)]
pub enum UpstreamTokenSource {
    Config,
    RequestHeader,
    RequestHeaderOrConfig,
}

impl UpstreamTokenSource {
    /// The name of the token source.
    pub open spec fn name(self) -> Seq<char> {
        match self {
            UpstreamTokenSource::Config => "config"@,
            UpstreamTokenSource::RequestHeader => "request_header"@,
            UpstreamTokenSource::RequestHeaderOrConfig => "request_header_or_config"@,
        }
    }

    /// The name of the token source.
    pub fn as_str(self) -> (r: &'static str)
        ensures
            r@ == self.name(),
    {
        match self {
            UpstreamTokenSource::Config => "config",
            UpstreamTokenSource::RequestHeader => "request_header",
            UpstreamTokenSource::RequestHeaderOrConfig => "request_header_or_config",
        }
    }

    /// Whether the token source reads request headers.
    pub fn uses_request_header(self) -> (r: bool)
        ensures
            r == (self != UpstreamTokenSource::Config),
    {
        match self {
            UpstreamTokenSource::Config => false,
            UpstreamTokenSource::RequestHeader => true,
            UpstreamTokenSource::RequestHeaderOrConfig => true,
        }
    }
}

/// The command line, with the environment's values where the line has none.
#[derive(Debug)]
pub struct Cli {
    /// OAuth scope used for token acquisition.
    pub analytics_scope: String,
    /// Base URL for Google Analytics Admin API.
    pub admin_base_url: String,
    /// Base URL for Google Analytics Data API.
    pub data_base_url: String,
    /// HTTP timeout budget in milliseconds.
    pub http_timeout_ms: u64,
    /// Maximum per-page size for paginated read tools.
    pub max_page_size: u32,
    /// Default max pages for auto-pagination tools.
    pub max_pages: u32,
    /// User-Agent string applied to outbound Google API requests.
    pub user_agent: String,
    /// Optional path to OAuth client-secret JSON (`installed` or `web`) for refresh-token auth.
    pub oauth_client_secret_json: Option<String>,
    /// Optional OAuth refresh token used with the client-secret JSON.
    pub oauth_refresh_token: Option<String>,
    /// Token source for upstream Google API calls.
    pub upstream_token_source: UpstreamTokenSource,
    /// Request header name used when `upstream_token_source` reads request tokens.
    pub upstream_token_header: String,
    /// Optional quota/billing project for Google APIs (`x-goog-user-project`).
    pub quota_project: Option<String>,
    /// Use the conventional shared gcloud ADC file instead of the server-specific one.
    pub shared_adc: bool,
    /// Scratchpad session TTL in seconds.
    pub scratchpad_session_ttl_secs: u64,
    /// Maximum number of active scratchpad sessions.
    pub scratchpad_max_sessions: usize,
    /// Maximum number of tables tracked per scratchpad session.
    pub scratchpad_max_tables_per_session: usize,
    /// Maximum number of rows tracked per scratchpad session.
    pub scratchpad_max_rows_per_session: usize,
    /// Maximum DuckDB memory limit (MB) applied per scratchpad session connection.
    pub scratchpad_max_memory_mb: usize,
    /// Scratchpad query timeout in milliseconds.
    pub scratchpad_query_timeout_ms: u64,
    /// Maximum SQL payload size accepted by scratchpad query guardrails.
    pub scratchpad_max_sql_bytes: usize,
    /// Capability profile used for dispatch-time tool authorization.
    pub capability_profile: CapabilityProfile,
    /// Print registered tool names and exit.
    pub print_tools: bool,
    /// Print full tool schema snapshot JSON and exit.
    pub print_tool_schema: bool,
    /// Optional command. Omit to run the stdio MCP server.
    pub command: Option<CliCommand>,
}

#[derive(Debug)]
pub enum CliCommand {
    /// Run the stdio MCP server. This is also the default when no command is supplied.
    Serve,
    /// Login, verify, and diagnose Google Analytics credentials.
    Auth(AuthCli),
}

#[derive(Debug)]
pub struct AuthCli {
    pub command: AuthSubcommand,
}

#[derive(Debug)]
pub enum AuthSubcommand {
    /// Run the browser-based gcloud Application Default Credentials login flow.
    Login(AuthLoginArgs),
    /// Print the exact gcloud login command without running it.
    Command(AuthCommandArgs),
    /// Show the configured credential source and optional Google API verification result.
    Status(AuthStatusCliArgs),
    /// Check the local auth environment and suggest the next action.
    Doctor(AuthDoctorArgs),
}

#[derive(Debug)]
pub struct AuthLoginArgs {
    /// Print a browser URL instead of launching a browser where supported by gcloud.
    pub headless: bool,
    /// Optional Google OAuth client id file for gcloud ADC login.
    pub client_id_file: Option<String>,
    /// Optional Google account hint for browser login.
    pub account: Option<String>,
    /// Optional fixed loopback callback port for direct browser OAuth.
    pub callback_port: Option<u16>,
    /// Optional quota project to set after login.
    pub quota_project: Option<String>,
    /// Use the conventional shared gcloud ADC file instead of the server-specific one.
    pub shared_adc: bool,
    /// Print the command that would run, without invoking gcloud.
    pub dry_run: bool,
    /// Skip post-login Google API verification.
    pub skip_verify: bool,
}

#[derive(Debug)]
pub struct AuthCommandArgs {
    /// Include the headless browser flag in the printed gcloud command.
    pub headless: bool,
    /// Optional Google OAuth client id file for gcloud ADC login.
    pub client_id_file: Option<String>,
    /// Optional Google account hint for browser login.
    pub account: Option<String>,
    /// Optional fixed loopback callback port for direct browser OAuth.
    pub callback_port: Option<u16>,
    /// Optional quota project to set after login.
    pub quota_project: Option<String>,
    /// Use the conventional shared gcloud ADC file instead of the server-specific one.
    pub shared_adc: bool,
}

#[derive(Debug, Clone, Copy)]
pub struct AuthStatusCliArgs {
    /// Acquire a Google access token and call GA account summaries. The token is never printed.
    pub verify_token: bool,
    /// Emit machine-readable JSON.
    pub json: bool,
}

#[derive(Debug, Clone, Copy)]
pub struct AuthDoctorArgs {
    /// Acquire a Google access token and call GA account summaries. The token is never printed.
    pub verify_token: bool,
    /// Emit machine-readable JSON.
    pub json: bool,
}

/// Settings that passed every check.
#[derive(Debug)]
pub struct Settings {
    pub analytics_scope: String,
    pub admin_base_url: String,
    pub data_base_url: String,
    pub http_timeout_ms: u64,
    pub max_page_size: u32,
    pub max_pages: u32,
    pub user_agent: String,
    pub oauth_client_secret_json: Option<String>,
    pub oauth_refresh_token: Option<String>,
    pub upstream_token_source: UpstreamTokenSource,
    pub upstream_token_header: String,
    pub quota_project: Option<String>,
    pub shared_adc: bool,
    pub scratchpad_session_ttl_secs: u64,
    pub scratchpad_max_sessions: usize,
    pub scratchpad_max_tables_per_session: usize,
    pub scratchpad_max_rows_per_session: usize,
    pub scratchpad_max_memory_mb: usize,
    pub scratchpad_query_timeout_ms: u64,
    pub scratchpad_max_sql_bytes: usize,
    pub capability_profile: CapabilityProfile,
    pub print_tools: bool,
    pub print_tool_schema: bool,
    pub command: Option<CliCommand>,
}

// ---------------------------------------------------------------------------
// Cleaning single values.
// ---------------------------------------------------------------------------

/// An optional text without white space at its ends; blank text counts as none.
pub open spec fn cleaned(value: Option<Seq<char>>) -> Option<Seq<char>> {
    match value {
        Some(held) => if text::is_blank(held) {
            None
        } else {
            Some(text::trim(held))
        },
        None => None,
    }
}

/// An optional text without white space at its ends; blank text counts as none.
pub fn trim_optional(value: Option<String>) -> (r: Option<String>)
    ensures
        text::opt_text(r) == cleaned(text::opt_text(value)),
{
    match value {
        Some(held) => {
            let trimmed: String = text::trimmed(held.as_str());
            if trimmed.as_str().is_empty() {
                None
            } else {
                Some(trimmed)
            }
        },
        None => None,
    }
}

/// `url` without the slashes that it ends with.
pub open spec fn without_end_slashes(url: Seq<char>) -> Seq<char>
    decreases url.len(),
{
    if url.len() > 0 && url.last() == '/' {
        without_end_slashes(url.drop_last())
    } else {
        url
    }
}

/// `url` without the slashes that it ends with.
pub fn strip_end_slashes(url: &str) -> (r: String)
    ensures
        r@ == without_end_slashes(url@),
{
    let chars: Vec<char> = text::chars_of(url);
    let mut to: usize = chars.len();
    assert(url@ =~= url@.subrange(0, to as int));
    while 0 < to && chars[to - 1] == '/'
        invariant
            chars@ == url@,
            to <= chars@.len(),
            without_end_slashes(url@) == without_end_slashes(url@.subrange(0, to as int)),
        decreases to,
    {
        assert(url@.subrange(0, to as int).drop_last() =~= url@.subrange(0, to - 1));
        to = to - 1;
    }
    text::text_between(&chars, 0, to)
}

/// Why a base URL is not accepted.
pub open spec fn base_url_problem(raw: Seq<char>) -> Option<Seq<char>> {
    if text::is_blank(raw) {
        Some("base URL must not be empty"@)
    } else if !text::begins(text::trim(raw), "https://"@) {
        Some("base URL must start with https://"@)
    } else {
        None
    }
}

/// The form in which an accepted base URL is kept.
pub open spec fn base_url(raw: Seq<char>) -> Seq<char> {
    without_end_slashes(text::trim(raw))
}

/// A base URL, which must be an `https` one, without slashes at its end.
pub fn sanitize_base_url(raw: &str) -> (r: Result<String, String>)
    ensures
        match r {
            Ok(url) => base_url_problem(raw@) is None && url@ == base_url(raw@),
            Err(message) => base_url_problem(raw@) == Some(message@),
        },
{
    let trimmed: String = text::trimmed(raw);
    if trimmed.as_str().is_empty() {
        return Err("base URL must not be empty".to_owned());
    }
    if !text::starts_with(trimmed.as_str(), "https://") {
        return Err("base URL must start with https://".to_owned());
    }
    Ok(strip_end_slashes(trimmed.as_str()))
}

/// Why a user agent is not accepted.
pub open spec fn user_agent_problem(raw: Seq<char>) -> Option<Seq<char>> {
    if text::is_blank(raw) {
        Some("user agent must not be empty"@)
    } else if text::trim(raw).contains('\n') || text::trim(raw).contains('\r') {
        Some("user agent must not contain newlines"@)
    } else {
        None
    }
}

/// A user agent, which must be one line of text.
pub fn sanitize_user_agent(raw: &str) -> (r: Result<String, String>)
    ensures
        match r {
            Ok(agent) => user_agent_problem(raw@) is None && agent@ == text::trim(raw@),
            Err(message) => user_agent_problem(raw@) == Some(message@),
        },
{
    let trimmed: String = text::trimmed(raw);
    if trimmed.as_str().is_empty() {
        return Err("user agent must not be empty".to_owned());
    }
    let chars: Vec<char> = text::chars_of(trimmed.as_str());
    if text::is_mark('\n', &chars) || text::is_mark('\r', &chars) {
        return Err("user agent must not contain newlines".to_owned());
    }
    Ok(trimmed)
}

/// A character of a header name.
pub open spec fn header_char(ch: char) -> bool {
    text::is_alnum(ch) || ch == '-'
}

/// Why a header name is not accepted.
pub open spec fn header_problem(raw: Seq<char>) -> Option<Seq<char>> {
    if text::is_blank(raw) {
        Some("upstream token header must not be empty"@)
    } else if !(forall|i: int|
        0 <= i < text::trim(raw).len() ==> header_char(#[trigger] text::trim(raw)[i])) {
        Some("upstream token header must contain only ASCII letters, digits, and '-'"@)
    } else {
        None
    }
}

/// The form in which an accepted header name is kept.
pub open spec fn header_name(raw: Seq<char>) -> Seq<char> {
    text::lowered(text::trim(raw))
}

/// A header name in lower case.
pub fn sanitize_header_name(raw: &str) -> (r: Result<String, String>)
    ensures
        match r {
            Ok(name) => header_problem(raw@) is None && name@ == header_name(raw@),
            Err(message) => header_problem(raw@) == Some(message@),
        },
{
    let trimmed: String = text::trimmed(raw);
    if trimmed.as_str().is_empty() {
        return Err("upstream token header must not be empty".to_owned());
    }
    let chars: Vec<char> = text::chars_of(trimmed.as_str());
    for i in 0..chars.len()
        invariant
            chars@ == text::trim(raw@),
            !text::is_blank(raw@),
            forall|j: int| 0 <= j < i ==> header_char(#[trigger] text::trim(raw@)[j]),
    {
        if !(text::alnum_char(chars[i]) || chars[i] == '-') {
            assert(!header_char(text::trim(raw@)[i as int]));
            return Err(
                "upstream token header must contain only ASCII letters, digits, and '-'".to_owned(),
            );
        }
    }
    Ok(text::to_lower(trimmed.as_str()))
}

// ---------------------------------------------------------------------------
// Settings.
// ---------------------------------------------------------------------------

/// The first limit of `cli` that is zero.
pub open spec fn zero_limit(cli: Cli) -> Option<Seq<char>> {
    if cli.http_timeout_ms == 0 {
        Some("http timeout must be greater than zero"@)
    } else if cli.max_page_size == 0 {
        Some("max page size must be greater than zero"@)
    } else if cli.max_pages == 0 {
        Some("max pages must be greater than zero"@)
    } else if cli.scratchpad_session_ttl_secs == 0 {
        Some("scratchpad session ttl must be greater than zero"@)
    } else if cli.scratchpad_max_sessions == 0 {
        Some("scratchpad max sessions must be greater than zero"@)
    } else if cli.scratchpad_max_tables_per_session == 0 {
        Some("scratchpad max tables per session must be greater than zero"@)
    } else if cli.scratchpad_max_rows_per_session == 0 {
        Some("scratchpad max rows per session must be greater than zero"@)
    } else if cli.scratchpad_max_memory_mb == 0 {
        Some("scratchpad max memory mb must be greater than zero"@)
    } else if cli.scratchpad_query_timeout_ms == 0 {
        Some("scratchpad query timeout must be greater than zero"@)
    } else if cli.scratchpad_max_sql_bytes == 0 {
        Some("scratchpad max sql bytes must be greater than zero"@)
    } else {
        None
    }
}

/// Whether one of the two halves of the refresh-token configuration is missing.
pub open spec fn half_refresh_config(cli: Cli) -> bool {
    cleaned(text::opt_text(cli.oauth_client_secret_json)) is Some != cleaned(
        text::opt_text(cli.oauth_refresh_token),
    ) is Some
}

/// Why a command line is not accepted: the first of its faults.
pub open spec fn cli_problem(cli: Cli) -> Option<Seq<char>> {
    if text::is_blank(cli.analytics_scope@) {
        Some("analytics scope must not be empty"@)
    } else if zero_limit(cli) is Some {
        zero_limit(cli)
    } else if half_refresh_config(cli) {
        Some(
            "GOOGLE_ANALYTICS_MCP_OAUTH_CLIENT_SECRET_JSON and GOOGLE_ANALYTICS_MCP_OAUTH_REFRESH_TOKEN must be set together"@,
        )
    } else if header_problem(cli.upstream_token_header@) is Some {
        header_problem(cli.upstream_token_header@)
    } else if base_url_problem(cli.admin_base_url@) is Some {
        base_url_problem(cli.admin_base_url@)
    } else if base_url_problem(cli.data_base_url@) is Some {
        base_url_problem(cli.data_base_url@)
    } else {
        user_agent_problem(cli.user_agent@)
    }
}

impl Settings {
    /// Whether these are the settings of `cli`.
    pub open spec fn settles(self, cli: Cli) -> bool {
        &&& self.analytics_scope@ == text::trim(cli.analytics_scope@)
        &&& self.admin_base_url@ == base_url(cli.admin_base_url@)
        &&& self.data_base_url@ == base_url(cli.data_base_url@)
        &&& self.http_timeout_ms == cli.http_timeout_ms
        &&& self.max_page_size == cli.max_page_size
        &&& self.max_pages == cli.max_pages
        &&& self.user_agent@ == text::trim(cli.user_agent@)
        &&& text::opt_text(self.oauth_client_secret_json) == cleaned(
            text::opt_text(cli.oauth_client_secret_json),
        )
        &&& text::opt_text(self.oauth_refresh_token) == cleaned(
            text::opt_text(cli.oauth_refresh_token),
        )
        &&& self.upstream_token_source == cli.upstream_token_source
        &&& self.upstream_token_header@ == header_name(cli.upstream_token_header@)
        &&& text::opt_text(self.quota_project) == cleaned(text::opt_text(cli.quota_project))
        &&& self.shared_adc == cli.shared_adc
        &&& self.scratchpad_session_ttl_secs == cli.scratchpad_session_ttl_secs
        &&& self.scratchpad_max_sessions == cli.scratchpad_max_sessions
        &&& self.scratchpad_max_tables_per_session == cli.scratchpad_max_tables_per_session
        &&& self.scratchpad_max_rows_per_session == cli.scratchpad_max_rows_per_session
        &&& self.scratchpad_max_memory_mb == cli.scratchpad_max_memory_mb
        &&& self.scratchpad_query_timeout_ms == cli.scratchpad_query_timeout_ms
        &&& self.scratchpad_max_sql_bytes == cli.scratchpad_max_sql_bytes
        &&& self.capability_profile == cli.capability_profile
        &&& self.print_tools == cli.print_tools
        &&& self.print_tool_schema == cli.print_tool_schema
        &&& self.command == cli.command
    }

    /// What holds of all settings that were made from a command line.
    pub open spec fn well_formed(self) -> bool {
        &&& self.analytics_scope@.len() > 0
        &&& self.http_timeout_ms > 0
        &&& self.max_page_size > 0
        &&& self.max_pages > 0
        &&& self.scratchpad_session_ttl_secs > 0
        &&& self.scratchpad_max_sessions > 0
        &&& self.scratchpad_max_tables_per_session > 0
        &&& self.scratchpad_max_rows_per_session > 0
        &&& self.scratchpad_max_memory_mb > 0
        &&& self.scratchpad_query_timeout_ms > 0
        &&& self.scratchpad_max_sql_bytes > 0
        &&& self.oauth_client_secret_json is Some == self.oauth_refresh_token is Some
        &&& self.upstream_token_header@.len() > 0
        &&& self.user_agent@.len() > 0
    }

    /// The settings of a command line, or the message of its first fault.
    pub fn from_cli(cli: Cli) -> (r: Result<Self, String>)
        ensures
            match r {
                Ok(settings) => cli_problem(cli) is None && settings.settles(cli)
                    && settings.well_formed(),
                Err(message) => cli_problem(cli) == Some(message@),
            },
    {
        let analytics_scope: String = text::trimmed(cli.analytics_scope.as_str());
        if analytics_scope.as_str().is_empty() {
            return Err("analytics scope must not be empty".to_owned());
        }
        if cli.http_timeout_ms == 0 {
            return Err("http timeout must be greater than zero".to_owned());
        }
        if cli.max_page_size == 0 {
            return Err("max page size must be greater than zero".to_owned());
        }
        if cli.max_pages == 0 {
            return Err("max pages must be greater than zero".to_owned());
        }
        if cli.scratchpad_session_ttl_secs == 0 {
            return Err("scratchpad session ttl must be greater than zero".to_owned());
        }
        if cli.scratchpad_max_sessions == 0 {
            return Err("scratchpad max sessions must be greater than zero".to_owned());
        }
        if cli.scratchpad_max_tables_per_session == 0 {
            return Err("scratchpad max tables per session must be greater than zero".to_owned());
        }
        if cli.scratchpad_max_rows_per_session == 0 {
            return Err("scratchpad max rows per session must be greater than zero".to_owned());
        }
        if cli.scratchpad_max_memory_mb == 0 {
            return Err("scratchpad max memory mb must be greater than zero".to_owned());
        }
        if cli.scratchpad_query_timeout_ms == 0 {
            return Err("scratchpad query timeout must be greater than zero".to_owned());
        }
        if cli.scratchpad_max_sql_bytes == 0 {
            return Err("scratchpad max sql bytes must be greater than zero".to_owned());
        }
        let oauth_client_secret_json: Option<String> = trim_optional(cli.oauth_client_secret_json);
        let oauth_refresh_token: Option<String> = trim_optional(cli.oauth_refresh_token);
        if oauth_client_secret_json.is_some() != oauth_refresh_token.is_some() {
            return Err(
                "GOOGLE_ANALYTICS_MCP_OAUTH_CLIENT_SECRET_JSON and GOOGLE_ANALYTICS_MCP_OAUTH_REFRESH_TOKEN must be set together".to_owned(),
            );
        }
        let upstream_token_header: String = match sanitize_header_name(
            cli.upstream_token_header.as_str(),
        ) {
            Ok(name) => name,
            Err(message) => {
                return Err(message);
            },
        };
        let admin_base_url: String = match sanitize_base_url(cli.admin_base_url.as_str()) {
            Ok(url) => url,
            Err(message) => {
                return Err(message);
            },
        };
        let data_base_url: String = match sanitize_base_url(cli.data_base_url.as_str()) {
            Ok(url) => url,
            Err(message) => {
                return Err(message);
            },
        };
        let user_agent: String = match sanitize_user_agent(cli.user_agent.as_str()) {
            Ok(agent) => agent,
            Err(message) => {
                return Err(message);
            },
        };
        Ok(
            Settings {
                analytics_scope,
                admin_base_url,
                data_base_url,
                http_timeout_ms: cli.http_timeout_ms,
                max_page_size: cli.max_page_size,
                max_pages: cli.max_pages,
                user_agent,
                oauth_client_secret_json,
                oauth_refresh_token,
                upstream_token_source: cli.upstream_token_source,
                upstream_token_header,
                quota_project: trim_optional(cli.quota_project),
                shared_adc: cli.shared_adc,
                scratchpad_session_ttl_secs: cli.scratchpad_session_ttl_secs,
                scratchpad_max_sessions: cli.scratchpad_max_sessions,
                scratchpad_max_tables_per_session: cli.scratchpad_max_tables_per_session,
                scratchpad_max_rows_per_session: cli.scratchpad_max_rows_per_session,
                scratchpad_max_memory_mb: cli.scratchpad_max_memory_mb,
                scratchpad_query_timeout_ms: cli.scratchpad_query_timeout_ms,
                scratchpad_max_sql_bytes: cli.scratchpad_max_sql_bytes,
                capability_profile: cli.capability_profile,
                print_tools: cli.print_tools,
                print_tool_schema: cli.print_tool_schema,
                command: cli.command,
            },
        )
    }
}

impl Settings {
    /// These settings with the scope and the quota project of a login, and without a
    /// command.
    pub fn for_login(&self, scope: &str, quota_project: &Option<String>) -> (r: Settings)
        ensures
            r == (Settings {
                analytics_scope: r.analytics_scope,
                quota_project: r.quota_project,
                command: None,
                ..*self
            }),
            r.analytics_scope@ == scope@,
            text::opt_text(r.quota_project) == text::opt_text(*quota_project),
    {
        Settings {
            analytics_scope: scope.to_owned(),
            admin_base_url: self.admin_base_url.clone(),
            data_base_url: self.data_base_url.clone(),
            http_timeout_ms: self.http_timeout_ms,
            max_page_size: self.max_page_size,
            max_pages: self.max_pages,
            user_agent: self.user_agent.clone(),
            oauth_client_secret_json: self.oauth_client_secret_json.clone(),
            oauth_refresh_token: self.oauth_refresh_token.clone(),
            upstream_token_source: self.upstream_token_source,
            upstream_token_header: self.upstream_token_header.clone(),
            quota_project: text::clone_opt(quota_project),
            shared_adc: self.shared_adc,
            scratchpad_session_ttl_secs: self.scratchpad_session_ttl_secs,
            scratchpad_max_sessions: self.scratchpad_max_sessions,
            scratchpad_max_tables_per_session: self.scratchpad_max_tables_per_session,
            scratchpad_max_rows_per_session: self.scratchpad_max_rows_per_session,
            scratchpad_max_memory_mb: self.scratchpad_max_memory_mb,
            scratchpad_query_timeout_ms: self.scratchpad_query_timeout_ms,
            scratchpad_max_sql_bytes: self.scratchpad_max_sql_bytes,
            capability_profile: self.capability_profile,
            print_tools: self.print_tools,
            print_tool_schema: self.print_tool_schema,
            command: None,
        }
    }
}

// ---------------------------------------------------------------------------
// Laws.
// ---------------------------------------------------------------------------

/// The read-only profile offers a part of what the scratchpad profile offers: every tool
/// but the scratchpad ones.
pub proof fn law_profiles_are_nested(tool_name: Seq<char>)
    ensures
        CapabilityProfile::Scratchpad.offers(tool_name),
        CapabilityProfile::ReadOnly.offers(tool_name) <==> !text::begins(
            tool_name,
            "scratchpad_"@,
        ),
{
}

proof fn lemma_end_slashes(url: Seq<char>)
    ensures
        without_end_slashes(url).len() > 0 ==> without_end_slashes(url).last() != '/',
        without_end_slashes(without_end_slashes(url)) == without_end_slashes(url),
    decreases url.len(),
{
    if url.len() > 0 && url.last() == '/' {
        lemma_end_slashes(url.drop_last());
    }
}

/// A base URL is kept without a slash at its end.
pub proof fn law_base_url_has_no_end_slash(raw: Seq<char>)
    ensures
        base_url(raw).len() > 0 ==> base_url(raw).last() != '/',
{
    lemma_end_slashes(text::trim(raw));
}

/// A header name that was accepted is accepted again as it is kept, and kept unchanged.
pub proof fn law_header_name_is_stable(raw: Seq<char>)
    requires
        header_problem(raw) is None,
    ensures
        header_problem(header_name(raw)) is None,
        header_name(header_name(raw)) == header_name(raw),
{
    let trimmed = text::trim(raw);
    let kept = header_name(raw);
    text::law_trim(raw);
    text::law_lowered(trimmed);
    assert(header_char(trimmed[0]));
    assert(header_char(trimmed.last())) by {
        assert(header_char(trimmed[trimmed.len() - 1]));
    }
    assert(kept[0] == text::lower(trimmed[0]));
    assert(kept.last() == text::lower(trimmed.last()));
    assert(text::trim_start(kept) == kept);
    assert(text::trim(kept) == kept);
    assert forall|i: int| 0 <= i < kept.len() implies header_char(#[trigger] kept[i]) by {
        assert(header_char(trimmed[i]));
    }
}

/// A setting that is blank counts as none; every other one counts without the white space
/// around it.
pub proof fn law_blank_settings_are_none(held: Seq<char>)
    ensures
        cleaned(None) is None,
        text::trim(held).len() == 0 ==> cleaned(Some(held)) is None,
        text::trim(held).len() > 0 ==> cleaned(Some(held)) == Some(text::trim(held)),
{
}

/// Slashes at the end of an address go, however many there are, and nothing else does.
pub proof fn law_slashes_at_the_end_go(url: Seq<char>)
    ensures
        without_end_slashes(url.push('/')) == without_end_slashes(url),
        url.len() > 0 && url.last() != '/' ==> without_end_slashes(url) == url,
        without_end_slashes(Seq::<char>::empty()).len() == 0,
{
    assert(url.push('/').drop_last() =~= url);
}

/// The base of an address is accepted exactly where it is secure.
pub proof fn law_bases_are_secure(raw: Seq<char>)
    ensures
        base_url_problem(raw) is None <==> text::stands_at(text::trim(raw), "https://"@, 0),
{
    reveal_strlit("https://");
    let trimmed = text::trim(raw);
    assert("https://"@.len() == 8);
    assert(8 <= trimmed.len() ==> trimmed.subrange(0, 8) =~= trimmed.take(8));
}

/// The name of a header is accepted where it has letters, digits and dashes only, and it counts
/// in lower case.
pub proof fn law_header_names_are_plain(raw: Seq<char>)
    ensures
        header_problem(raw) is None <==> text::trim(raw).len() > 0 && forall|i: int|
            0 <= i < text::trim(raw).len() ==> ('a' <= #[trigger] text::trim(raw)[i] <= 'z' || 'A'
                <= text::trim(raw)[i] <= 'Z' || '0' <= text::trim(raw)[i] <= '9' || text::trim(
                raw,
            )[i] == '-'),
        header_name(raw) == text::lowered(text::trim(raw)),
{
    let trimmed = text::trim(raw);
    if header_problem(raw) is None {
        assert forall|i: int| 0 <= i < trimmed.len() implies ('a' <= #[trigger] trimmed[i] <= 'z'
            || 'A' <= trimmed[i] <= 'Z' || '0' <= trimmed[i] <= '9' || trimmed[i] == '-') by {
            assert(header_char(trimmed[i]));
        }
    }
}

/// The name that a server goes by is accepted where it has one line and is not blank.
pub proof fn law_user_agents_have_one_line(raw: Seq<char>)
    ensures
        user_agent_problem(raw) is None <==> text::trim(raw).len() > 0 && !text::trim(raw).contains(
            '\n',
        ) && !text::trim(raw).contains('\r'),
{
}

/// The command line is accepted exactly where it has a scope, every limit is more than nothing,
/// the two settings that belong together are given together, and its header, its addresses and
/// its name are accepted.
pub proof fn law_command_lines_are_complete(cli: Cli)
    ensures
        cli_problem(cli) is None <==> text::trim(cli.analytics_scope@).len() > 0
            && cli.http_timeout_ms > 0
            && cli.max_page_size > 0
            && cli.max_pages > 0
            && cli.scratchpad_session_ttl_secs > 0
            && cli.scratchpad_max_sessions > 0
            && cli.scratchpad_max_tables_per_session > 0
            && cli.scratchpad_max_rows_per_session > 0
            && cli.scratchpad_max_memory_mb > 0
            && cli.scratchpad_query_timeout_ms > 0
            && cli.scratchpad_max_sql_bytes > 0
            && ((cleaned(text::opt_text(cli.oauth_client_secret_json)) is Some) == (cleaned(
            text::opt_text(cli.oauth_refresh_token),
        ) is Some)) && header_problem(cli.upstream_token_header@) is None && base_url_problem(
            cli.admin_base_url@,
        ) is None && base_url_problem(cli.data_base_url@) is None && user_agent_problem(
            cli.user_agent@,
        ) is None,
{
}

/// Every setting is the one of its name on the command line.
pub proof fn law_settings_come_from_the_command_line(settings: Settings, cli: Cli)
    requires
        settings.settles(cli),
    ensures
        settings.analytics_scope@ == text::trim(cli.analytics_scope@),
        settings.admin_base_url@ == without_end_slashes(text::trim(cli.admin_base_url@)),
        settings.data_base_url@ == without_end_slashes(text::trim(cli.data_base_url@)),
        settings.user_agent@ == text::trim(cli.user_agent@),
        settings.upstream_token_header@ == text::lowered(text::trim(cli.upstream_token_header@)),
        text::opt_text(settings.oauth_client_secret_json) == cleaned(
            text::opt_text(cli.oauth_client_secret_json),
        ),
        text::opt_text(settings.oauth_refresh_token) == cleaned(
            text::opt_text(cli.oauth_refresh_token),
        ),
        text::opt_text(settings.quota_project) == cleaned(text::opt_text(cli.quota_project)),
        settings.http_timeout_ms == cli.http_timeout_ms,
        settings.max_page_size == cli.max_page_size,
        settings.max_pages == cli.max_pages,
        settings.scratchpad_session_ttl_secs == cli.scratchpad_session_ttl_secs,
        settings.scratchpad_max_sessions == cli.scratchpad_max_sessions,
        settings.scratchpad_max_tables_per_session == cli.scratchpad_max_tables_per_session,
        settings.scratchpad_max_rows_per_session == cli.scratchpad_max_rows_per_session,
        settings.scratchpad_max_memory_mb == cli.scratchpad_max_memory_mb,
        settings.scratchpad_query_timeout_ms == cli.scratchpad_query_timeout_ms,
        settings.scratchpad_max_sql_bytes == cli.scratchpad_max_sql_bytes,
        settings.upstream_token_source == cli.upstream_token_source,
        settings.shared_adc == cli.shared_adc,
        settings.capability_profile == cli.capability_profile,
        settings.print_tools == cli.print_tools,
        settings.print_tool_schema == cli.print_tool_schema,
        settings.command == cli.command,
{
}

/// The usual settings.
pub proof fn law_usual_settings()
    ensures
        DEFAULT_ANALYTICS_SCOPE@ == "https://www.googleapis.com/auth/analytics.readonly"@,
        DEFAULT_ADMIN_BASE_URL@ == "https://analyticsadmin.googleapis.com"@,
        DEFAULT_DATA_BASE_URL@ == "https://analyticsdata.googleapis.com"@,
        DEFAULT_HTTP_TIMEOUT_MS == 15_000,
        DEFAULT_MAX_PAGE_SIZE == 200,
        DEFAULT_MAX_PAGES == 20,
        DEFAULT_SCRATCHPAD_SESSION_TTL_SECS == 900,
        DEFAULT_SCRATCHPAD_MAX_SESSIONS == 64,
        DEFAULT_SCRATCHPAD_MAX_TABLES_PER_SESSION == 32,
        DEFAULT_SCRATCHPAD_MAX_ROWS_PER_SESSION == 1_000_000,
        DEFAULT_SCRATCHPAD_MAX_MEMORY_MB == 256,
        DEFAULT_SCRATCHPAD_QUERY_TIMEOUT_MS == 15_000,
        DEFAULT_SCRATCHPAD_MAX_SQL_BYTES == 65_536,
{
}

/// Profiles and token sources by their names.
pub proof fn law_names_of_profiles_and_sources(
    profile: CapabilityProfile,
    source: UpstreamTokenSource,
)
    ensures
        profile.name() == (match profile {
            CapabilityProfile::ReadOnly => "read_only"@,
            CapabilityProfile::Scratchpad => "scratchpad"@,
        }),
        source.name() == (match source {
            UpstreamTokenSource::Config => "config"@,
            UpstreamTokenSource::RequestHeader => "request_header"@,
            UpstreamTokenSource::RequestHeaderOrConfig => "request_header_or_config"@,
        }),
{
}

/// What is said of a limit of nothing: which one it is.
pub proof fn law_empty_limits_are_said(cli: Cli, said: Seq<char>)
    requires
        zero_limit(cli) == Some(said),
    ensures
        said == "http timeout must be greater than zero"@ ==> cli.http_timeout_ms == 0,
        said == "max page size must be greater than zero"@ ==> cli.max_page_size == 0,
        said == "max pages must be greater than zero"@ ==> cli.max_pages == 0,
        said == "scratchpad session ttl must be greater than zero"@
            ==> cli.scratchpad_session_ttl_secs == 0,
        said == "scratchpad max sessions must be greater than zero"@
            ==> cli.scratchpad_max_sessions == 0,
        said == "scratchpad max tables per session must be greater than zero"@
            ==> cli.scratchpad_max_tables_per_session == 0,
        said == "scratchpad max rows per session must be greater than zero"@
            ==> cli.scratchpad_max_rows_per_session == 0,
        said == "scratchpad max memory mb must be greater than zero"@
            ==> cli.scratchpad_max_memory_mb == 0,
        said == "scratchpad query timeout must be greater than zero"@
            ==> cli.scratchpad_query_timeout_ms == 0,
        said == "scratchpad max sql bytes must be greater than zero"@
            ==> cli.scratchpad_max_sql_bytes == 0,
        said == "http timeout must be greater than zero"@
            || said == "max page size must be greater than zero"@
            || said == "max pages must be greater than zero"@
            || said == "scratchpad session ttl must be greater than zero"@
            || said == "scratchpad max sessions must be greater than zero"@
            || said == "scratchpad max tables per session must be greater than zero"@
            || said == "scratchpad max rows per session must be greater than zero"@
            || said == "scratchpad max memory mb must be greater than zero"@
            || said == "scratchpad query timeout must be greater than zero"@
            || said == "scratchpad max sql bytes must be greater than zero"@,
{
    reveal_strlit("http timeout must be greater than zero");
    assert("http timeout must be greater than zero"@.len() == 38);
    reveal_strlit("max page size must be greater than zero");
    assert("max page size must be greater than zero"@.len() == 39);
    reveal_strlit("max pages must be greater than zero");
    assert("max pages must be greater than zero"@.len() == 35);
    reveal_strlit("scratchpad session ttl must be greater than zero");
    assert("scratchpad session ttl must be greater than zero"@.len() == 48);
    reveal_strlit("scratchpad max sessions must be greater than zero");
    assert("scratchpad max sessions must be greater than zero"@.len() == 49);
    reveal_strlit("scratchpad max tables per session must be greater than zero");
    assert("scratchpad max tables per session must be greater than zero"@.len() == 59);
    reveal_strlit("scratchpad max rows per session must be greater than zero");
    assert("scratchpad max rows per session must be greater than zero"@.len() == 57);
    reveal_strlit("scratchpad max memory mb must be greater than zero");
    assert("scratchpad max memory mb must be greater than zero"@.len() == 50);
    reveal_strlit("scratchpad query timeout must be greater than zero");
    assert("scratchpad query timeout must be greater than zero"@.len() == 50);
    reveal_strlit("scratchpad max sql bytes must be greater than zero");
    assert("scratchpad max sql bytes must be greater than zero"@.len() == 50);
    assert(
        "scratchpad max memory mb must be greater than zero"@[
            11
        ] != "scratchpad query timeout must be greater than zero"@[11]
    );
    assert(
        "scratchpad max memory mb must be greater than zero"@[
            15
        ] != "scratchpad max sql bytes must be greater than zero"@[15]
    );
    assert(
        "scratchpad query timeout must be greater than zero"@[
            11
        ] != "scratchpad max sql bytes must be greater than zero"@[11]
    );
}

/// What is said of addresses, headers and names that are not accepted.
pub proof fn law_faults_of_settings_are_said(raw: Seq<char>)
    ensures
        text::trim(raw).len() == 0 ==> base_url_problem(raw) == Some(
            "base URL must not be empty"@,
        ) && header_problem(raw) == Some("upstream token header must not be empty"@)
            && user_agent_problem(raw) == Some("user agent must not be empty"@),
        text::trim(raw).len() > 0 && base_url_problem(raw) is Some ==> base_url_problem(raw)
            == Some("base URL must start with https://"@),
        text::trim(raw).len() > 0 && header_problem(raw) is Some ==> header_problem(raw) == Some(
            "upstream token header must contain only ASCII letters, digits, and '-'"@,
        ),
        text::trim(raw).len() > 0 && user_agent_problem(raw) is Some ==> user_agent_problem(raw)
            == Some("user agent must not contain newlines"@),
{
}

} // verus!
