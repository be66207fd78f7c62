use ga4_mcp::auth_login::{
    gcloud_version_summary, login_command_lines, login_outcome, pasted_callback_url, plan_browser_login,
    plan_login, skipped_verification_lines, start_browser_login, BrowserStart, LoginStart,
};
use ga4_mcp::auth_report::{
    add_post_login_runtime_steps, build_auth_report, human_report, next_steps,
    post_login_runtime_steps, report_value, visible_auth_source, ClientOutcome,
    CredentialDetection, EnvPresence, FilePresence, ProviderFailure, ProviderSetup,
    VerificationReport,
};
use ga4_mcp::auth_tools::{
    after_login_instruction_with_env, auth_login_command_payload, auth_next_steps,
    auth_status_payload, get_started_payload, login_scope_for_mcp_command, LoginPlaces, SetupPlan,
};
use ga4_mcp::auth_ux::{
    adc_login_scopes, analytics_scope_arg_present, auth_login_cli_command, gcloud_login_args,
    login_command_for_scope, login_command_for_scope_with_cloudsdk, login_scope_from_env_hint,
    quota_project_command_with_cloudsdk, scope_allows_analytics_read,
};
use ga4_mcp::config::{
    sanitize_base_url, sanitize_header_name, AuthCommandArgs, AuthLoginArgs, CapabilityProfile,
    Cli, CliCommand, Settings, UpstreamTokenSource, DEFAULT_ADMIN_BASE_URL,
    DEFAULT_ANALYTICS_SCOPE, DEFAULT_DATA_BASE_URL, DEFAULT_HTTP_TIMEOUT_MS,
    DEFAULT_MAX_PAGES, DEFAULT_MAX_PAGE_SIZE, DEFAULT_SCRATCHPAD_MAX_MEMORY_MB,
    DEFAULT_SCRATCHPAD_MAX_ROWS_PER_SESSION, DEFAULT_SCRATCHPAD_MAX_SESSIONS,
    DEFAULT_SCRATCHPAD_MAX_SQL_BYTES, DEFAULT_SCRATCHPAD_MAX_TABLES_PER_SESSION,
    DEFAULT_SCRATCHPAD_QUERY_TIMEOUT_MS, DEFAULT_SCRATCHPAD_SESSION_TTL_SECS, DEFAULT_USER_AGENT,
};
use ga4_mcp::error::AnalyticsError;
use ga4_mcp::ga_calls::{
    parse_adc_quota_project_id, parse_https_upstream_url, parse_oauth_refresh_config,
    read_refresh_response, read_reply, select_auth_mode, AnalyticsApiClient, AuthPlan, AuthSource,
    ConfiguredToken, OAuthClientConfig, OAuthClientSecretFile, OAuthRefreshResponse,
    UpstreamAuthMode,
};
use ga4_mcp::ga_client::{
    choose_access_token, clip_message, normalize_request_token_value, snake_to_camel_json,
    AccountId, PropertyId, TokenStep,
};
use ga4_mcp::report_args::AuthLoginCommandArgs;
use ga4_mcp::shell::{format_command, join_with_config, Shell};
use ga4_mcp::json::{Json, Number, Object};
use serde_json::Value;

fn inward(value: &Value) -> Json {
    match value {
        Value::Null => Json::Null,
        Value::Bool(b) => Json::Bool(*b),
        Value::Number(n) => Json::Number(match (n.as_u64(), n.as_i64()) {
            (Some(whole), _) => Number::Unsigned(whole),
            (None, Some(whole)) => Number::Negative(whole),
            (None, None) => Number::Real(n.to_string()),
        }),
        Value::String(s) => Json::Text(s.clone()),
        Value::Array(items) => Json::Array(items.iter().map(inward).collect()),
        Value::Object(map) => Json::Object(Object {
            entries: map.iter().map(|(k, v)| (k.clone(), inward(v))).collect(),
        }),
    }
}

fn outward(value: &Json) -> Value {
    match value {
        Json::Null => Value::Null,
        Json::Bool(b) => Value::Bool(*b),
        Json::Number(Number::Unsigned(n)) => Value::from(*n),
        Json::Number(Number::Negative(n)) => Value::from(*n),
        Json::Number(Number::Real(shown)) => val(shown),
        Json::Text(s) => Value::from(s.as_str()),
        Json::Array(items) => Value::Array(items.iter().map(outward).collect()),
        Json::Object(object) => cells(object),
    }
}

fn cells(object: &Object) -> Value {
    Value::Object(object.entries.iter().map(|(k, v)| (k.clone(), outward(v))).collect())
}

fn val(text: &str) -> Value {
    serde_json::from_str(text).expect("the text should be JSON")
}

fn j(text: &str) -> Json {
    inward(&val(text))
}

// ---------------------------------------------------------------------------
// Settings.
// ---------------------------------------------------------------------------

fn sample_cli() -> Cli {
    Cli {
        analytics_scope: DEFAULT_ANALYTICS_SCOPE.to_string(),
        admin_base_url: DEFAULT_ADMIN_BASE_URL.to_string(),
        data_base_url: DEFAULT_DATA_BASE_URL.to_string(),
        http_timeout_ms: DEFAULT_HTTP_TIMEOUT_MS,
        max_page_size: DEFAULT_MAX_PAGE_SIZE,
        max_pages: DEFAULT_MAX_PAGES,
        user_agent: DEFAULT_USER_AGENT.to_string(),
        oauth_client_secret_json: None,
        oauth_refresh_token: None,
        upstream_token_source: UpstreamTokenSource::Config,
        upstream_token_header: "authorization".to_string(),
        quota_project: None,
        shared_adc: false,
        scratchpad_session_ttl_secs: DEFAULT_SCRATCHPAD_SESSION_TTL_SECS,
        scratchpad_max_sessions: DEFAULT_SCRATCHPAD_MAX_SESSIONS,
        scratchpad_max_tables_per_session: DEFAULT_SCRATCHPAD_MAX_TABLES_PER_SESSION,
        scratchpad_max_rows_per_session: DEFAULT_SCRATCHPAD_MAX_ROWS_PER_SESSION,
        scratchpad_max_memory_mb: DEFAULT_SCRATCHPAD_MAX_MEMORY_MB,
        scratchpad_query_timeout_ms: DEFAULT_SCRATCHPAD_QUERY_TIMEOUT_MS,
        scratchpad_max_sql_bytes: DEFAULT_SCRATCHPAD_MAX_SQL_BYTES,
        capability_profile: CapabilityProfile::ReadOnly,
        print_tools: false,
        print_tool_schema: false,
        command: None,
    }
}

#[test]
fn sanitize_base_url_trims_trailing_slash() {
    let url = sanitize_base_url("https://analyticsdata.googleapis.com/")
        .expect("url should be valid");
    assert_eq!(url, "https://analyticsdata.googleapis.com");
}

#[test]
fn sanitize_base_url_rejects_missing_scheme() {
    let err = sanitize_base_url("analyticsdata.googleapis.com")
        .expect_err("missing scheme should fail");
    assert!(err.contains("must start with"));
}

#[test]
fn sanitize_base_url_rejects_cleartext_http() {
    let err = sanitize_base_url("http://analyticsdata.googleapis.com")
        .expect_err("cleartext upstream URL should fail");
    assert!(err.contains("https://"));
}

#[test]
fn from_cli_rejects_zero_scratchpad_sessions() {
    let mut cli = sample_cli();
    cli.scratchpad_max_sessions = 0;
    let err = Settings::from_cli(cli).expect_err("zero scratchpad sessions should fail");
    assert!(err.contains("scratchpad max sessions must be greater than zero"));
}

#[test]
fn from_cli_populates_scratchpad_settings() {
    let settings = Settings::from_cli(sample_cli()).expect("sample settings should parse");
    assert_eq!(settings.scratchpad_session_ttl_secs, 900);
    assert_eq!(settings.scratchpad_max_sessions, 64);
    assert_eq!(settings.scratchpad_max_tables_per_session, 32);
    assert_eq!(settings.scratchpad_max_rows_per_session, 1_000_000);
    assert_eq!(settings.scratchpad_max_memory_mb, 256);
    assert_eq!(settings.scratchpad_query_timeout_ms, 15_000);
    assert_eq!(settings.scratchpad_max_sql_bytes, 65_536);
    assert_eq!(settings.capability_profile, CapabilityProfile::ReadOnly);
}

#[test]
fn capability_profile_read_only_blocks_scratchpad_tools() {
    assert!(CapabilityProfile::ReadOnly.allows_tool("run_report"));
    assert!(!CapabilityProfile::ReadOnly.allows_tool("scratchpad_query"));
    assert!(CapabilityProfile::Scratchpad.allows_tool("scratchpad_query"));
}

#[test]
fn from_cli_rejects_partial_oauth_refresh_configuration() {
    let mut cli = sample_cli();
    cli.oauth_client_secret_json = Some("/tmp/client_secret.json".to_string());
    cli.oauth_refresh_token = None;
    let err = Settings::from_cli(cli).expect_err("partial oauth refresh config should fail");
    assert!(err.contains("must be set together"));
}

#[test]
fn sanitize_header_name_lowercases_and_rejects_invalid_values() {
    let sanitized = sanitize_header_name("Authorization").expect("header name should sanitize");
    assert_eq!(sanitized, "authorization");

    let err = sanitize_header_name("authorization value")
        .expect_err("spaces should be rejected in header names");
    assert!(err.contains("ASCII letters, digits, and '-'"));
}

#[test]
fn from_cli_keeps_request_header_upstream_token_source() {
    let mut cli = sample_cli();
    cli.upstream_token_source = UpstreamTokenSource::RequestHeader;
    cli.upstream_token_header = "Authorization".to_string();
    let settings = Settings::from_cli(cli).expect("settings should parse");
    assert_eq!(settings.upstream_token_source, UpstreamTokenSource::RequestHeader);
    assert_eq!(settings.upstream_token_header, "authorization");
}

#[test]
fn from_cli_keeps_request_header_or_config_upstream_token_source() {
    let mut cli = sample_cli();
    cli.upstream_token_source = UpstreamTokenSource::RequestHeaderOrConfig;
    cli.upstream_token_header = "Authorization".to_string();
    let settings = Settings::from_cli(cli).expect("settings should parse");
    assert_eq!(settings.upstream_token_source, UpstreamTokenSource::RequestHeaderOrConfig);
    assert_eq!(settings.upstream_token_header, "authorization");
    assert!(settings.upstream_token_source.uses_request_header());
}

#[test]
fn from_cli_names_the_first_fault() {
    let mut cli = sample_cli();
    cli.analytics_scope = "  ".to_string();
    cli.http_timeout_ms = 0;
    assert_eq!(
        Settings::from_cli(cli).expect_err("blank scope"),
        "analytics scope must not be empty"
    );
    let mut cli = sample_cli();
    cli.http_timeout_ms = 0;
    cli.max_pages = 0;
    assert_eq!(
        Settings::from_cli(cli).expect_err("zero timeout"),
        "http timeout must be greater than zero"
    );
    let mut cli = sample_cli();
    cli.user_agent = "a\nb".to_string();
    assert_eq!(
        Settings::from_cli(cli).expect_err("newline"),
        "user agent must not contain newlines"
    );
}

// ---------------------------------------------------------------------------
// Identifiers, tokens and upstream answers.
// ---------------------------------------------------------------------------

#[test]
fn property_id_accepts_numeric_and_prefixed_values() {
    let plain = PropertyId::Text("1234".to_string())
        .to_resource_name()
        .expect("plain digits should parse");
    assert_eq!(plain, "properties/1234");

    let prefixed = PropertyId::Text("properties/5678".to_string())
        .to_resource_name()
        .expect("prefixed value should parse");
    assert_eq!(prefixed, "properties/5678");

    let numeric =
        PropertyId::Number(9012).to_resource_name().expect("numeric value should parse");
    assert_eq!(numeric, "properties/9012");
}

#[test]
fn property_id_rejects_invalid_values() {
    let err = PropertyId::Text("props/1".to_string())
        .to_resource_name()
        .expect_err("invalid prefix should fail");
    assert_eq!(err.code(), "INVALID_PARAMS");
}

#[test]
fn account_id_accepts_numeric_and_prefixed_values() {
    let plain = AccountId::Text("1234".to_string())
        .to_resource_name()
        .expect("plain digits should parse");
    assert_eq!(plain, "accounts/1234");

    let prefixed = AccountId::Text("accounts/5678".to_string())
        .to_resource_name()
        .expect("prefixed value should parse");
    assert_eq!(prefixed, "accounts/5678");

    let numeric = AccountId::Number(9012).to_resource_name().expect("numeric value should parse");
    assert_eq!(numeric, "accounts/9012");
}

#[test]
fn snake_to_camel_json_converts_nested_keys() {
    let raw = j(
        r#"{
            "date_ranges": [
                { "start_date": "2025-01-01", "end_date": "2025-01-31" }
            ],
            "dimension_filter": {
                "and_group": {
                    "expressions": [
                        { "field_name": "eventName" }
                    ]
                }
            }
        }"#,
    );

    let converted = snake_to_camel_json(&raw);
    assert!(converted.get("dateRanges").is_some());
    assert!(converted.get("dimensionFilter").and_then(|v| v.get("andGroup")).is_some());
}

fn installed(client_id: &str, client_secret: &str, token_uri: &str) -> OAuthClientSecretFile {
    OAuthClientSecretFile {
        installed: Some(OAuthClientConfig {
            client_id: client_id.to_string(),
            client_secret: client_secret.to_string(),
            token_uri: Some(token_uri.to_string()),
        }),
        web: None,
    }
}

#[test]
fn parse_oauth_refresh_config_accepts_installed_client_secret_json() {
    let config = parse_oauth_refresh_config(
        installed(
            "client-id.apps.googleusercontent.com",
            "super-secret",
            "https://oauth2.googleapis.com/token",
        ),
        "refresh-token-value",
    )
    .expect("config should parse");
    assert_eq!(config.client_id, "client-id.apps.googleusercontent.com");
    assert_eq!(config.client_secret, "super-secret");
    assert_eq!(config.refresh_token, "refresh-token-value");
    assert_eq!(config.token_uri, "https://oauth2.googleapis.com/token");
}

#[test]
fn parse_oauth_refresh_config_rejects_missing_installed_or_web_object() {
    let err = parse_oauth_refresh_config(
        OAuthClientSecretFile { installed: None, web: None },
        "refresh-token-value",
    )
    .expect_err("missing installed/web should fail");
    assert!(err.message().contains("installed"));
}

#[test]
fn parse_oauth_refresh_config_rejects_non_google_token_uri() {
    let err = parse_oauth_refresh_config(
        installed("client", "secret", "https://evil.test/token"),
        "refresh-token-value",
    )
    .expect_err("non-google token uri should fail");
    assert!(err.message().contains("must be one of"));
}

#[test]
fn parse_oauth_refresh_config_reads_the_token_uri() {
    let err = parse_oauth_refresh_config(
        installed("client", "secret", "http://oauth2.googleapis.com/token"),
        "r",
    )
    .expect_err("cleartext");
    assert!(err.message().contains("must use https"));
    let err = parse_oauth_refresh_config(installed("client", "secret", "::"), "r")
        .expect_err("no URL at all");
    assert!(err.message().contains("invalid OAuth token_uri '::'"));
    let config = parse_oauth_refresh_config(
        installed(" client ", " secret ", "https://accounts.google.com/o/oauth2/token/"),
        "r",
    )
    .expect("the other endpoint of Google, with a slash at its end");
    assert_eq!(config.client_id, "client");
    assert_eq!(config.client_secret, "secret");
}

fn test_settings(scope: &str) -> Settings {
    Settings {
        analytics_scope: scope.to_string(),
        admin_base_url: "https://analyticsadmin.googleapis.com".to_string(),
        data_base_url: "https://analyticsdata.googleapis.com".to_string(),
        http_timeout_ms: 1_000,
        max_page_size: 200,
        max_pages: 20,
        user_agent: "test".to_string(),
        oauth_client_secret_json: None,
        oauth_refresh_token: None,
        upstream_token_source: UpstreamTokenSource::Config,
        upstream_token_header: "x-google-access-token".to_string(),
        quota_project: None,
        shared_adc: false,
        scratchpad_session_ttl_secs: 900,
        scratchpad_max_sessions: 64,
        scratchpad_max_tables_per_session: 32,
        scratchpad_max_rows_per_session: 1_000_000,
        scratchpad_max_memory_mb: 256,
        scratchpad_query_timeout_ms: 15_000,
        scratchpad_max_sql_bytes: 65_536,
        capability_profile: CapabilityProfile::ReadOnly,
        print_tools: false,
        print_tool_schema: false,
        command: Some(CliCommand::Serve),
    }
}

#[test]
fn select_auth_mode_request_header_does_not_require_local_adc_bootstrap() {
    let mut settings = test_settings(DEFAULT_ANALYTICS_SCOPE);
    settings.upstream_token_source = UpstreamTokenSource::RequestHeader;

    let plan =
        select_auth_mode(&settings, false, None).expect("request_header mode should bootstrap");

    assert!(matches!(plan, AuthPlan::Mode(UpstreamAuthMode::RequestHeaderOnly)));
}

#[test]
fn select_auth_mode_request_header_ignores_partial_oauth_refresh_config() {
    let mut settings = test_settings(DEFAULT_ANALYTICS_SCOPE);
    settings.upstream_token_source = UpstreamTokenSource::RequestHeader;
    settings.oauth_client_secret_json = Some("client-secret.json".to_string());

    let plan = select_auth_mode(&settings, false, None)
        .expect("request_header mode should ignore server-side OAuth refresh bootstrap");

    assert!(matches!(plan, AuthPlan::Mode(UpstreamAuthMode::RequestHeaderOnly)));
}

#[test]
fn select_auth_mode_prefers_what_is_named() {
    let mut settings = test_settings(DEFAULT_ANALYTICS_SCOPE);
    let path = || Some("/home/u/adc.json".to_string());
    assert!(matches!(
        select_auth_mode(&settings, true, path()),
        Ok(AuthPlan::Mode(UpstreamAuthMode::Adc))
    ));
    match select_auth_mode(&settings, false, path()) {
        Ok(AuthPlan::Mode(UpstreamAuthMode::AuthorizedUserAdcFile(found))) => {
            assert_eq!(found, "/home/u/adc.json")
        }
        _ => panic!("the server's own file"),
    }
    assert!(select_auth_mode(&settings, false, None).is_err());
    settings.oauth_refresh_token = Some("r".to_string());
    let err = select_auth_mode(&settings, true, path()).expect_err("half a configuration");
    assert!(err.message().contains("must both be set or both be unset"));
    settings.oauth_client_secret_json = Some("c.json".to_string());
    match select_auth_mode(&settings, true, path()) {
        Ok(AuthPlan::ReadClientSecret { path, refresh_token }) => {
            assert_eq!(path, "c.json");
            assert_eq!(refresh_token, "r");
        }
        _ => panic!("the refresh token"),
    }
}

#[test]
fn parses_adc_quota_project_id_without_exposing_credentials() {
    assert_eq!(
        parse_adc_quota_project_id(
            r#"{"client_id":"client","client_secret":"secret","refresh_token":"refresh","quota_project_id":" ga4-quota "}"#
        )
        .as_deref(),
        Some("ga4-quota")
    );
    assert_eq!(parse_adc_quota_project_id(r#"{"quota_project_id":"   "}"#), None);
    assert_eq!(parse_adc_quota_project_id("not-json"), None);
}

#[test]
fn parse_https_upstream_url_rejects_cleartext_http() {
    let err = parse_https_upstream_url("http://analyticsdata.googleapis.com/v1beta")
        .expect_err("cleartext upstream request URL should fail");
    assert_eq!(err.code(), "INVALID_PARAMS");
    assert!(err.message().contains("https"));
}

#[test]
fn parse_https_upstream_url_splits_a_url() {
    let url = parse_https_upstream_url("https://Host.Example/v1/x").expect("an https URL");
    assert_eq!(url.scheme, "https");
    assert_eq!(url.host.as_deref(), Some("host.example"));
    assert_eq!(url.path, "/v1/x");
}

#[test]
fn normalize_request_token_value_accepts_bearer_scheme() {
    let token = normalize_request_token_value("Bearer ya29.a0AfH6SMBEXAMPLE", "authorization")
        .expect("bearer token should parse");
    assert_eq!(token, "ya29.a0AfH6SMBEXAMPLE");
}

#[test]
fn normalize_request_token_value_rejects_non_bearer_authorization_scheme() {
    let err = normalize_request_token_value("Basic Zm9vOmJhcg==", "authorization")
        .expect_err("non-bearer authorization should fail");
    assert!(err.contains("authorization header must use"));
}

#[test]
fn normalize_request_token_value_accepts_compact_custom_header_value() {
    let token = normalize_request_token_value("ya29.compact.token", "x-google-access-token")
        .expect("compact token should parse");
    assert_eq!(token, "ya29.compact.token");
}

#[test]
fn clips_multibyte_messages_without_panicking() {
    let message = format!("{}a", "é".repeat(512));
    let clipped = clip_message(message);
    assert!(clipped.ends_with("..."));
    assert!(clipped.len() <= 1_027);
    assert!(clipped.chars().all(|ch| ch == 'é' || ch == '.'));
}

#[test]
fn tokens_come_from_where_the_settings_say() {
    let header = "x-google-access-token";
    match choose_access_token(UpstreamTokenSource::RequestHeader, header, Some("ya29.t")) {
        Ok(TokenStep::Use(token)) => assert_eq!(token, "ya29.t"),
        _ => panic!("the token of the request"),
    }
    let err = choose_access_token(UpstreamTokenSource::RequestHeader, header, None)
        .expect_err("no token");
    assert!(err.message().contains(header));
    assert!(matches!(
        choose_access_token(UpstreamTokenSource::RequestHeaderOrConfig, header, None),
        Ok(TokenStep::Configured)
    ));
    assert!(matches!(
        choose_access_token(UpstreamTokenSource::Config, header, Some("ya29.t")),
        Ok(TokenStep::Configured)
    ));
}

fn client(settings: &Settings, mode: UpstreamAuthMode) -> AnalyticsApiClient {
    AnalyticsApiClient::from_settings(settings, mode, None)
}

#[test]
fn configured_tokens_follow_the_auth_mode() {
    let settings = test_settings(DEFAULT_ANALYTICS_SCOPE);
    let err = client(&settings, UpstreamAuthMode::RequestHeaderOnly)
        .configured_access_token(true)
        .expect_err("requests bring the token");
    assert!(err.message().contains("requires the caller to supply"));
    assert!(matches!(
        client(&settings, UpstreamAuthMode::Adc).configured_access_token(false),
        Ok(ConfiguredToken::Provider)
    ));
    let refresh = || {
        UpstreamAuthMode::OAuthRefresh(
            parse_oauth_refresh_config(
                installed("c", "s", "https://oauth2.googleapis.com/token"),
                "r",
            )
            .expect("a refresh configuration"),
        )
    };
    assert!(matches!(
        client(&settings, refresh()).configured_access_token(true),
        Ok(ConfiguredToken::Cached)
    ));
    assert!(matches!(
        client(&settings, refresh()).configured_access_token(false),
        Ok(ConfiguredToken::Refresh)
    ));
}

#[test]
fn refresh_answers_are_read() {
    let answer = |token: Option<&str>, expires_in: Option<u64>| OAuthRefreshResponse {
        access_token: token.map(str::to_string),
        expires_in,
        error_code: Some("invalid_grant".to_string()),
        error_description: None,
    };
    let fresh = read_refresh_response(true, 200, answer(Some("t"), Some(120)), "").expect("token");
    assert_eq!(fresh.value, "t");
    assert_eq!(fresh.refresh_in, 60);
    let fresh = read_refresh_response(true, 200, answer(Some("t"), Some(5)), "").expect("token");
    assert_eq!(fresh.refresh_in, 1);
    let fresh = read_refresh_response(true, 200, answer(Some("t"), None), "").expect("token");
    assert_eq!(fresh.refresh_in, 3540);
    let err = read_refresh_response(true, 200, answer(None, None), "").expect_err("no token");
    assert!(err.message().contains("without access_token"));
    let err = read_refresh_response(false, 400, answer(None, None), " body ").expect_err("refused");
    assert!(err
        .message()
        .contains("oauth refresh exchange failed with status 400 (invalid_grant): body"));
}

#[test]
fn upstream_answers_are_read() {
    assert_eq!(read_reply(true, 200, b"").expect("nothing"), Json::Null);
    assert_eq!(read_reply(true, 200, br#"{"a":[1,-2,1.5]}"#).expect("a value"), j(r#"{"a":[1,-2,1.5]}"#));
    assert_eq!(read_reply(true, 200, b"{").expect_err("no JSON").code(), "UPSTREAM_RESPONSE_PARSE_ERROR");
    let err = read_reply(true, 200, b"\"\xff\"").expect_err("no UTF-8");
    assert_eq!(err.code(), "UPSTREAM_RESPONSE_PARSE_ERROR");
    let err = read_reply(false, 500, b" a\xff\xc3\xa9 ").expect_err("no success");
    assert!(err.message().contains("a\u{fffd}\u{e9}"));
    let err = read_reply(false, 503, b"  ").expect_err("no success");
    assert!(err.message().contains("no upstream response body"));
    assert_eq!(err.status_code(), Some(503));
}

// ---------------------------------------------------------------------------
// Logging in.
// ---------------------------------------------------------------------------

#[test]
fn login_command_defaults_to_read_only_scope() {
    let settings = test_settings(DEFAULT_ANALYTICS_SCOPE);

    assert_eq!(
        login_command_for_scope_with_cloudsdk(
            Shell::Posix,
            login_scope_from_env_hint(&settings, None, false),
            false,
            None,
            None
        ),
        "gcloud auth application-default login --scopes=https://www.googleapis.com/auth/cloud-platform,https://www.googleapis.com/auth/analytics.readonly"
    );
}

#[test]
fn login_command_prefixes_server_specific_cloudsdk_config() {
    let command = login_command_for_scope_with_cloudsdk(
        Shell::Posix,
        DEFAULT_ANALYTICS_SCOPE,
        true,
        None,
        Some("/tmp/ga4 adc"),
    );

    assert!(command.starts_with("CLOUDSDK_CONFIG='/tmp/ga4 adc' gcloud auth"));
    assert!(command.contains("analytics.readonly"));
    let windows = login_command_for_scope_with_cloudsdk(
        Shell::PowerShell,
        DEFAULT_ANALYTICS_SCOPE,
        true,
        None,
        Some("/tmp/ga4 adc"),
    );
    assert!(windows.starts_with("$env:CLOUDSDK_CONFIG='/tmp/ga4 adc'; gcloud auth"));
    assert_eq!(
        windows,
        login_command_for_scope(
            Shell::PowerShell,
            DEFAULT_ANALYTICS_SCOPE,
            true,
            None,
            Some("/tmp/ga4 adc"),
        )
    );
    assert_eq!(
        quota_project_command_with_cloudsdk(Shell::PowerShell, "p", Some("/d")),
        "$env:CLOUDSDK_CONFIG=/d; gcloud auth application-default set-quota-project p"
    );
    let windows = join_with_config(
        Shell::PowerShell,
        &["gcloud".to_string(), "auth".to_string()],
        Some("/tmp/ga4 adc"),
    );
    assert_eq!(windows, "$env:CLOUDSDK_CONFIG='/tmp/ga4 adc'; gcloud auth");
}

#[test]
fn adc_login_scopes_include_gcloud_required_scope_once() {
    assert_eq!(
        adc_login_scopes(DEFAULT_ANALYTICS_SCOPE),
        "https://www.googleapis.com/auth/cloud-platform,https://www.googleapis.com/auth/analytics.readonly"
    );
    assert_eq!(
        adc_login_scopes(
            "https://www.googleapis.com/auth/analytics.readonly,https://www.googleapis.com/auth/cloud-platform"
        ),
        "https://www.googleapis.com/auth/cloud-platform,https://www.googleapis.com/auth/analytics.readonly"
    );
}

#[test]
fn login_scope_repairs_ambient_bad_scope() {
    let settings = test_settings("https://www.googleapis.com/auth/drive");

    assert_eq!(
        login_scope_from_env_hint(
            &settings,
            Some("https://www.googleapis.com/auth/drive"),
            false,
        ),
        DEFAULT_ANALYTICS_SCOPE
    );
}

#[test]
fn login_scope_preserves_explicit_custom_scope() {
    let scope = "https://www.googleapis.com/auth/analytics.readonly https://www.googleapis.com/auth/userinfo.email";
    let settings = test_settings(scope);

    assert_eq!(login_scope_from_env_hint(&settings, Some(scope), true), scope);
}

#[test]
fn auth_login_cli_command_includes_copyable_flags() {
    let command = auth_login_cli_command(
        DEFAULT_ANALYTICS_SCOPE,
        true,
        Some("/tmp/client id.json"),
        None,
        false,
        None,
        None,
    );

    assert_eq!(command, "ga4-mcp auth login --headless --client-id-file '/tmp/client id.json'");
}

#[test]
fn auth_login_cli_command_includes_custom_scope_before_subcommand() {
    let command = auth_login_cli_command(
        "https://www.googleapis.com/auth/analytics.readonly extra",
        false,
        None,
        None,
        false,
        None,
        None,
    );

    assert_eq!(
        command,
        "ga4-mcp --analytics-scope 'https://www.googleapis.com/auth/analytics.readonly extra' auth login"
    );
}

#[test]
fn auth_login_cli_command_includes_quota_project() {
    let command = auth_login_cli_command(
        DEFAULT_ANALYTICS_SCOPE,
        true,
        None,
        Some("itwire-project"),
        false,
        None,
        None,
    );

    assert_eq!(command, "ga4-mcp auth login --headless --quota-project itwire-project");
}

#[test]
fn auth_login_cli_command_includes_account_and_callback_port() {
    let command = auth_login_cli_command(
        DEFAULT_ANALYTICS_SCOPE,
        true,
        Some("/tmp/client.json"),
        Some("itwire-project"),
        false,
        Some("user@example.com"),
        Some(8091),
    );

    assert_eq!(
        command,
        "ga4-mcp auth login --headless --client-id-file /tmp/client.json --account user@example.com --callback-port 8091 --quota-project itwire-project"
    );
}

#[test]
fn gcloud_login_args_can_include_account_hint() {
    let command = format_command(&gcloud_login_args(
        DEFAULT_ANALYTICS_SCOPE,
        true,
        None,
        Some("user@example.com"),
    ));

    assert!(command.starts_with("gcloud auth application-default login user@example.com "));
    assert!(command.contains("--no-launch-browser"));
}

fn detection(present: bool) -> CredentialDetection {
    CredentialDetection {
        gcloud_available: true,
        gcloud_version: Some("Google Cloud SDK 999.0.0".to_string()),
        adc_file: FilePresence { path: Some("/tmp/adc.json".to_string()), present },
        env: EnvPresence {
            google_application_credentials: false,
            oauth_client_secret_json: false,
            oauth_refresh_token: false,
            quota_project: false,
            shared_adc: false,
            cloudsdk_config: false,
        },
    }
}

fn setup() -> ProviderSetup {
    ProviderSetup {
        quota_project_command: quota_project_command_with_cloudsdk(Shell::Posix, "YOUR_PROJECT", None),
        api_enable_command: Some("gcloud services enable analyticsdata.googleapis.com".to_string()),
    }
}

#[test]
fn next_steps_call_out_missing_quota_project() {
    let steps = next_steps(
        &test_settings(DEFAULT_ANALYTICS_SCOPE),
        &detection(true),
        &VerificationReport::Failed {
            error: "PERMISSION_DENIED: local Application Default Credentials requires a quota project; SERVICE_DISABLED".to_string(),
            hint: None,
        },
        true,
        ProviderFailure::MissingQuotaProject,
        &setup(),
    );

    assert!(steps.iter().any(|step| step.contains("set-quota-project YOUR_PROJECT")));
    assert!(!steps.iter().any(|step| step.contains("auth login")));
}

#[test]
fn request_header_mode_suggests_local_fallback_after_login() {
    let mut settings = test_settings(DEFAULT_ANALYTICS_SCOPE);
    settings.upstream_token_source = UpstreamTokenSource::RequestHeader;

    let steps = post_login_runtime_steps(&settings, DEFAULT_ANALYTICS_SCOPE, None);

    assert!(steps.iter().any(|step| step.contains("request_header_or_config")));
}

#[test]
fn request_header_verification_steps_do_not_require_cli_token_check() {
    let mut settings = test_settings(DEFAULT_ANALYTICS_SCOPE);
    settings.upstream_token_source = UpstreamTokenSource::RequestHeader;

    let steps = next_steps(
        &settings,
        &detection(true),
        &VerificationReport::RequestHeaderRequired { header: "x-google-access-token".to_string() },
        true,
        ProviderFailure::Unknown,
        &setup(),
    );

    assert!(steps.iter().any(|step| step.contains("ga4_auth_status")));
    assert!(steps.iter().all(|step| !step.contains("Run `ga4-mcp auth status --verify-token`")));
}

#[test]
fn adc_without_material_is_not_reported_as_configured_before_verification() {
    assert_eq!(
        visible_auth_source(
            Some(AuthSource::GoogleDefaultProviderChain),
            false,
            &VerificationReport::NotChecked,
        ),
        None
    );
}

#[test]
fn commands_are_quoted_for_a_shell() {
    let words = |items: &[&str]| items.iter().map(|w| w.to_string()).collect::<Vec<String>>();
    assert_eq!(format_command(&words(&["a", "b c", ""])), "a 'b c' ''");
    assert_eq!(format_command(&words(&["it's"])), r"'it'\''s'");
    assert_eq!(format_command(&words(&["$HOME", "x=1,y@z%"])), "'$HOME' x=1,y@z%");
    assert_eq!(format_command(&[]), "");
}

#[test]
fn scopes_are_read_one_by_one() {
    assert!(scope_allows_analytics_read("a,https://www.googleapis.com/auth/analytics"));
    assert!(!scope_allows_analytics_read("https://www.googleapis.com/auth/analytics.edit"));
    assert_eq!(
        login_scope_for_mcp_command("https://www.googleapis.com/auth/drive"),
        DEFAULT_ANALYTICS_SCOPE
    );
    assert!(analytics_scope_arg_present(&["--analytics-scope=x".to_string()]));
    assert!(!analytics_scope_arg_present(&["--analytics-scopes".to_string()]));
}

fn login_args() -> AuthLoginArgs {
    AuthLoginArgs {
        headless: false,
        client_id_file: None,
        account: None,
        callback_port: None,
        quota_project: None,
        shared_adc: false,
        dry_run: false,
        skip_verify: false,
    }
}

#[test]
fn logins_start_as_they_were_asked_for() {
    let settings = test_settings(DEFAULT_ANALYTICS_SCOPE);
    let mut args = login_args();
    let err = plan_login(Shell::Posix, &settings, &args, DEFAULT_ANALYTICS_SCOPE, None)
        .expect_err("no directory");
    assert!(err.contains("server-specific gcloud config directory"));
    let plan = plan_login(Shell::Posix, &settings, &args, DEFAULT_ANALYTICS_SCOPE, Some("/d"))
        .expect("a login with gcloud");
    assert!(matches!(plan.start, LoginStart::Gcloud));
    assert_eq!(plan.cloudsdk_config.as_deref(), Some("/d"));
    args.dry_run = true;
    args.quota_project = Some("p".to_string());
    let plan = plan_login(Shell::Posix, &settings, &args, DEFAULT_ANALYTICS_SCOPE, Some("/d"))
        .expect("a dry run");
    match plan.start {
        LoginStart::Show(lines) => {
            assert_eq!(lines.len(), 2);
            assert_eq!(
                lines[1],
                "CLOUDSDK_CONFIG=/d gcloud auth application-default set-quota-project p"
            );
        }
        _ => panic!("lines"),
    }
    args.client_id_file = Some("c.json".to_string());
    args.account = Some(" u@e ".to_string());
    let plan = plan_login(Shell::Posix, &settings, &args, DEFAULT_ANALYTICS_SCOPE, Some("/d"))
        .expect("a login with the browser");
    assert!(matches!(plan.start, LoginStart::Browser));
    let browser = plan_browser_login(&args, DEFAULT_ANALYTICS_SCOPE, &plan.quota_project, Some("/d/a"))
        .expect("a login with the browser");
    assert_eq!(browser.login_hint.as_deref(), Some("u@e"));
    assert!(browser.launch_browser);
    assert_eq!(browser.scopes, vec![DEFAULT_ANALYTICS_SCOPE]);
    assert!(plan_browser_login(&args, DEFAULT_ANALYTICS_SCOPE, &None, None).is_err());
    args.dry_run = false;
    let rendered = browser.rendered.clone();
    match start_browser_login(&args, browser) {
        BrowserStart::Login(login) => {
            args.dry_run = true;
            match start_browser_login(&args, login) {
                BrowserStart::Show(lines) => assert_eq!(lines, vec![rendered]),
                BrowserStart::Login(_) => panic!("a dry run only shows the command"),
            }
        }
        BrowserStart::Show(_) => panic!("the login takes place"),
    }
    let shown = login_command_lines(
        Shell::Posix,
        &settings,
        &AuthCommandArgs {
            headless: true,
            client_id_file: Some("c.json".to_string()),
            account: None,
            callback_port: None,
            quota_project: None,
            shared_adc: false,
        },
        DEFAULT_ANALYTICS_SCOPE,
        Some("/d"),
    )
    .expect("lines");
    assert_eq!(shown, vec!["ga4-mcp auth login --headless --client-id-file c.json"]);
}

#[test]
fn reports_say_what_was_found() {
    let settings = test_settings(DEFAULT_ANALYTICS_SCOPE);
    let verified = build_auth_report(
        &settings,
        true,
        detection(true),
        ClientOutcome::Usable {
            source: AuthSource::GoogleDefaultProviderChain,
            quota_project: Some("q".to_string()),
            token_check: Ok(()),
        },
        ProviderFailure::Unknown,
        &setup(),
    );
    assert!(verified.ready);
    assert_eq!(verified.quota_project.source.as_deref(), Some("adc_credentials_file"));
    assert!(login_outcome(&verified).is_ok());
    let value = outward(&report_value(&verified));
    assert_eq!(value["verification"], val(r#"{"status":"ok"}"#));
    assert_eq!(value["server"], val(r#""ga4-mcp""#));
    let lines = human_report(&verified, false);
    assert_eq!(lines[0], "Google Analytics MCP auth");
    assert_eq!(lines.last().map(String::as_str), Some("Ready: yes"));
    let changed = add_post_login_runtime_steps(
        &settings,
        DEFAULT_ANALYTICS_SCOPE,
        Some("other"),
        verified,
    );
    assert!(!changed.ready);
    assert!(changed.next_steps[0].starts_with("Unset GOOGLE_ANALYTICS_MCP_SCOPE"));

    let failed = build_auth_report(
        &settings,
        true,
        detection(false),
        ClientOutcome::Usable {
            source: AuthSource::GoogleDefaultProviderChain,
            quota_project: None,
            token_check: Err(AnalyticsError::UpstreamApi {
                status: 403,
                message: "ya29.secret".to_string(),
            }),
        },
        ProviderFailure::Unknown,
        &setup(),
    );
    assert!(failed.auth_source.is_none());
    assert_eq!(failed.auth_source_candidate.as_deref(), Some("google_default_provider_chain"));
    assert!(login_outcome(&failed).is_err());
    let lines = human_report(&failed, true);
    assert!(lines.iter().any(|line| line == "Verification: failed"));
    assert!(!lines.iter().any(|line| line.contains("ya29.secret")));

    let broken = build_auth_report(
        &settings,
        false,
        detection(false),
        ClientOutcome::Unusable(AnalyticsError::AuthBootstrap("no".to_string())),
        ProviderFailure::Unknown,
        &setup(),
    );
    assert!(!broken.config_valid);
    assert_eq!(outward(&report_value(&broken))["verification"]["status"], val(r#""config_error""#));
}

#[test]
fn logins_without_a_check_say_how_to_check() {
    let mut settings = test_settings(DEFAULT_ANALYTICS_SCOPE);
    assert_eq!(
        skipped_verification_lines(&settings, DEFAULT_ANALYTICS_SCOPE, None),
        vec!["Verification skipped. Run `ga4-mcp auth status --verify-token` when ready."]
    );
    settings.upstream_token_source = UpstreamTokenSource::RequestHeader;
    let lines = skipped_verification_lines(&settings, DEFAULT_ANALYTICS_SCOPE, None);
    assert!(lines[0].contains("while sending x-google-access-token when ready."));
    assert_eq!(pasted_callback_url(" http://127.0.0.1/?code=1 \n").expect("a URL"), "http://127.0.0.1/?code=1");
    assert_eq!(pasted_callback_url(" \n").expect_err("nothing"), "OAuth callback URL was empty");
    assert_eq!(gcloud_version_summary("Google Cloud SDK 1\nbq 2\n").as_deref(), Some("Google Cloud SDK 1"));
    assert_eq!(gcloud_version_summary(""), None);
}

#[test]
fn the_login_tools_answer() {
    let mut settings = test_settings("https://www.googleapis.com/auth/drive");
    settings.quota_project = Some("proj".to_string());
    let client = client(&settings, UpstreamAuthMode::Adc);
    let started = outward(&get_started_payload(&client, CapabilityProfile::ReadOnly));
    assert_eq!(
        started["recommended_cli"]["login_headless"],
        val(r#""ga4-mcp auth login --headless --quota-project proj""#)
    );
    assert_eq!(started["first_steps"].as_array().map(Vec::len), Some(9));
    assert_eq!(started["credential_options"][0]["env"], val("[]"));

    let status = outward(&auth_status_payload(
        &client,
        CapabilityProfile::ReadOnly,
        None,
        false,
        detection(false).env,
        "quota-command",
        None,
    ));
    assert_eq!(status["auth_source"], Value::Null);
    assert_eq!(status["token_check"], val(r#"{"checked":false}"#));
    assert_eq!(status["quota_project"], val(r#""proj""#));
    assert_eq!(status["secrets_returned"], val("false"));
    let status = outward(&auth_status_payload(
        &client,
        CapabilityProfile::ReadOnly,
        Some(Ok(())),
        false,
        detection(false).env,
        "quota-command",
        None,
    ));
    assert_eq!(status["auth_source"], val(r#""google_default_provider_chain""#));

    let args = |shared: Option<bool>| AuthLoginCommandArgs {
        headless: false,
        client_id_file: None,
        account: None,
        callback_port: Some(8091),
        quota_project: None,
        shared_adc: shared,
    };
    let places = |dir: Option<&str>| LoginPlaces {
        shell: Shell::Posix,
        server_cloudsdk_config: dir.map(str::to_string),
        server_adc_file: Some("/d/adc.json".to_string()),
        shared_adc_file: Some("/s/adc.json".to_string()),
        ambient_scope: None,
    };
    let plan = SetupPlan { api_enable_command: None, scopes: Vec::new(), next_steps: Vec::new() };
    let err = auth_login_command_payload(&client, &args(None), &places(None), &plan)
        .expect_err("no directory");
    assert_eq!(err.code(), "INVALID_PARAMS");
    let payload = outward(
        &auth_login_command_payload(&client, &args(None), &places(Some("/d")), &plan)
            .expect("commands"),
    );
    assert_eq!(payload["scope"], Value::from(DEFAULT_ANALYTICS_SCOPE));
    assert_eq!(payload["command"], payload["gcloud_command"]);
    assert_eq!(payload["callback_port"], val("8091"));
    assert_eq!(
        payload["follow_up_commands"],
        val(r#"["CLOUDSDK_CONFIG=/d gcloud auth application-default set-quota-project proj"]"#)
    );
    assert_eq!(payload["credential_file"], val(r#""/d/adc.json""#));
    let payload = outward(
        &auth_login_command_payload(&client, &args(Some(true)), &places(None), &plan)
            .expect("commands"),
    );
    assert_eq!(payload["cloudsdk_config"], Value::Null);
    assert_eq!(payload["credential_file"], val(r#""/s/adc.json""#));

    let steps = auth_next_steps(
        UpstreamTokenSource::RequestHeader,
        DEFAULT_ANALYTICS_SCOPE,
        true,
        Some(false),
        "quota-command",
        Some("enable-command"),
    );
    assert_eq!(steps[1], "Enable the required Analytics APIs with `enable-command`.");
    assert_eq!(steps.len(), 7);
    assert!(after_login_instruction_with_env(
        UpstreamTokenSource::Config,
        "a",
        "b",
        None
    )
    .starts_with("Unset GOOGLE_ANALYTICS_MCP_SCOPE"));
}

#[test]
fn a_request_token_that_passes_its_check_is_told_so() {
    let mut settings = test_settings(DEFAULT_ANALYTICS_SCOPE);
    settings.upstream_token_source = UpstreamTokenSource::RequestHeader;
    let client = client(&settings, UpstreamAuthMode::RequestHeaderOnly);
    match choose_access_token(
        client.upstream_token_source(),
        client.upstream_token_header(),
        Some("Bearer ya29.secret"),
    ) {
        Ok(TokenStep::Use(token)) => assert_eq!(token, "ya29.secret"),
        _ => panic!("the token of the request is checked"),
    }
    let reading = client.verify_token();
    assert_eq!(reading.url, "https://analyticsadmin.googleapis.com/v1beta/accountSummaries");
    assert_eq!(reading.query(), vec![("pageSize".to_string(), "1".to_string())]);
    let status = outward(&auth_status_payload(
        &client,
        CapabilityProfile::ReadOnly,
        Some(Ok(())),
        false,
        detection(false).env,
        "quota-command",
        None,
    ));
    assert_eq!(status["token_check"], val(r#"{"checked":true,"ok":true}"#));
    assert_eq!(status["auth_source"], val(r#""request_header""#));
    assert!(status["next_steps"][0].as_str().is_some_and(|step| step.contains("request_header mode")));
    assert!(!status.to_string().contains("ya29.secret"));

    let check = choose_access_token(
        client.upstream_token_source(),
        client.upstream_token_header(),
        None,
    );
    let status = outward(&auth_status_payload(
        &client,
        CapabilityProfile::ReadOnly,
        Some(check.map(|_| ())),
        false,
        detection(false).env,
        "quota-command",
        None,
    ));
    assert_eq!(status["token_check"]["ok"], val("false"));

    let call = client.verify_config_token();
    assert_eq!(
        call.url,
        "https://analyticsadmin.googleapis.com/v1beta/accountSummaries?pageSize=1"
    );
    assert!(call.body.is_none());
}
