use ga4_mcp::compatibility::summarize_report_compatibility;
use ga4_mcp::config::{
    sanitize_base_url, sanitize_header_name, CapabilityProfile, CliCommand, Settings,
    UpstreamTokenSource, DEFAULT_ANALYTICS_SCOPE,
};
use ga4_mcp::contract;
use ga4_mcp::contract::OutputMode;
use ga4_mcp::cursors::{
    decode_cursor, digest_of, encode_cursor, resolve_cursor_window, resolve_funnel_report_limit,
    stable_query_hash, summarize_query_hash,
};
use ga4_mcp::dates::{
    normalize_ga_date_hour_literal, normalize_ga_date_literal, parse_iso_date_literal,
    resolve_release_window_days,
};
use ga4_mcp::duck_values::{
    duck_value_to_json, duck_value_to_usize, DuckReal, DuckType, DuckValue,
};
use ga4_mcp::error::AnalyticsError;
use ga4_mcp::filters::{normalize_optional_filter, parse_simple_dimension_filter_expression};
use ga4_mcp::funnel::project_funnel_subreport;
use ga4_mcp::ga_calls::{
    adc_quota_project_file, custom_definitions, missing_adc_file, AnalyticsApiClient,
    PaginationOptions, UpstreamAuthMode,
};
use ga4_mcp::ga_client::{
    clip_message, snake_key_to_camel, snake_to_camel_json, sort_object, AccountId, PropertyId,
};
use ga4_mcp::ingest::{
    ingest_payload, plan_ingest, IngestCollector, IngestStats, NextPage, ScratchpadIngestMode,
};
use ga4_mcp::json::{Json, Number, Object};
use ga4_mcp::memory_pressure::{
    collect_runtime_memory_pressure, reported_totals, sampled_sessions_target, Pressure, Probe,
    Sampling, MAX_MEMORY_PRESSURE_SAMPLE_SESSIONS,
};
use ga4_mcp::preview::preview_report_request;
use ga4_mcp::query_hashes::{
    batch_run_report_query_hash, run_account_access_query_hash, run_pivot_query_hash,
    run_property_access_query_hash, run_realtime_query_hash, run_report_query_hash,
};
use ga4_mcp::report_args::{
    AttributionModel, BatchRunReportItemArgs, BatchRunReportsArgs, CheckReportCompatibilityArgs,
    ConversionSpecArgs, FunnelBreakdownArgs, FunnelStepArgs, FunnelVisualizationType,
    PreviewReportRequestArgs,
    RunAccessReportAccountArgs, RunAccessReportPropertyArgs, RunConversionsReportArgs,
    RunFunnelReportArgs, RunPivotReportArgs, RunRealtimeReportArgs, RunReportArgs, ScratchpadEvidenceBundleArgs,
    ScratchpadIngestReportArgs, ScratchpadLandingParamShiftArgs, ScratchpadQueryArgs,
    ScratchpadReleaseRegressionArgs, ScratchpadSetRuntimeLimitsArgs, ScratchpadTableHelperArgs,
};
use ga4_mcp::report_tools::{
    batch_reply, compatibility_payload, pivot_reply, plain_reply, plan_batch_run_reports,
    plan_check_report_compatibility, plan_run_account_access_report, plan_run_conversions_report,
    plan_run_funnel_report, plan_run_pivot_report,
    plan_run_property_access_report, plan_run_realtime_report, plan_run_report, sorted_reply,
    tabular_reply,
};
use ga4_mcp::scratchpad_query::{
    build_query_columns, build_query_row, in_memory_page, merge_query_hints, plan_scratchpad_query,
    query_reply, query_steps, scratchpad_query_hash, wrapped_page, QuerySteps,
    ScratchpadQueryControls,
};
use ga4_mcp::scratchpad_tools::{
    check_evidence_tables, check_limit_update, close_session_payload, drop_table_payload,
    evidence_payload, evidence_sample, evidence_sample_sql, inventory_tables, list_sessions_payload,
    list_tables_payload, open_session_payload, plan_describe_table, plan_evidence_bundle,
    plan_ingest_report, plan_landing_param_shift_report, plan_query_tool,
    plan_release_regression_report, plan_summarize_table, runtime_limits_payload,
    select_evidence_tables, updated_limits_payload, ScratchpadColumnInfo,
    ScratchpadLimits, ScratchpadSessionInfo, ScratchpadTableInfo, SessionUsage,
};
use ga4_mcp::session_limits::{
    admit_rows, check_new_session, release_table, seconds_left, session_usage, Held,
};
use ga4_mcp::sql_safety::{lexical_surface, ScratchpadSqlPolicyCode};
use ga4_mcp::sql_text::{
    dedupe_column_names, escape_sql_literal, normalize_sql_identifier, normalize_table_identifier,
    quote_sql_identifier, supports_wrapped_pagination, trim_sql_for_subquery, wrap_query_for_page,
    wrap_query_for_row_count,
};
use ga4_mcp::tabular::{
    clip_value, payload_by_mode, project_ga_tabular_response, project_payload_for_mode,
    take_window, TabularResponseOptions,
};
use ga4_mcp::templates::{fill, Fields};
use ga4_mcp::text;
use serde_json::Value;

fn inward(value: &Value) -> Json {
    match value {
        Value::Null => Json::Null,
        Value::Bool(b) => Json::Bool(*b),
        Value::Number(n) => Json::Number(match (n.as_u64(), n.as_i64()) {
            (Some(whole), _) => Number::Unsigned(whole),
            (None, Some(whole)) => Number::Negative(whole),
            (None, None) => Number::Real(n.to_string()),
        }),
        Value::String(s) => Json::Text(s.clone()),
        Value::Array(items) => Json::Array(items.iter().map(inward).collect()),
        Value::Object(map) => Json::Object(Object {
            entries: map.iter().map(|(k, v)| (k.clone(), inward(v))).collect(),
        }),
    }
}

fn outward(value: &Json) -> Value {
    match value {
        Json::Null => Value::Null,
        Json::Bool(b) => Value::Bool(*b),
        Json::Number(Number::Unsigned(n)) => Value::from(*n),
        Json::Number(Number::Negative(n)) => Value::from(*n),
        Json::Number(Number::Real(shown)) => val(shown),
        Json::Text(s) => Value::from(s.as_str()),
        Json::Array(items) => Value::Array(items.iter().map(outward).collect()),
        Json::Object(object) => cells(object),
    }
}

fn cells(object: &Object) -> Value {
    Value::Object(object.entries.iter().map(|(k, v)| (k.clone(), outward(v))).collect())
}

fn val(text: &str) -> Value {
    serde_json::from_str(text).expect("the text should be JSON")
}

fn j(text: &str) -> Json {
    inward(&val(text))
}

fn texts(items: &[&str]) -> Vec<String> {
    items.iter().map(|item| item.to_string()).collect()
}

fn report_args() -> RunReportArgs {
    RunReportArgs {
        property_id: PropertyId::Text("123".to_string()),
        date_ranges: vec![j(r#"{"start_date":"2026-02-01","end_date":"2026-02-07"}"#)],
        dimensions: texts(&["date", "country"]),
        metrics: texts(&["activeUsers"]),
        dimension_filter: None,
        metric_filter: None,
        order_bys: None,
        limit: None,
        offset: None,
        currency_code: None,
        return_property_quota: true,
        max_rows: None,
        cursor: None,
        output_mode: None,
        summary_only: false,
        max_cell_chars: None,
    }
}

fn answer(rows: usize, total: usize) -> Json {
    let listed: Vec<String> = (0..rows)
        .map(|i| {
            format!(
                r#"{{"dimensionValues":[{{"value":"2026020{i}"}},{{"value":"US"}}],"metricValues":[{{"value":"{i}"}}]}}"#
            )
        })
        .collect();
    j(&format!(
        r#"{{"dimensionHeaders":[{{"name":"date"}},{{"name":"country"}}],
            "metricHeaders":[{{"name":"activeUsers","type":"TYPE_INTEGER"}}],
            "rows":[{}],"rowCount":{total}}}"#,
        listed.join(",")
    ))
}

// ---------------------------------------------------------------------------
// Texts, identifiers and SQL.
// ---------------------------------------------------------------------------

#[test]
fn numbers_are_read_back() {
    for n in [0u64, 7, 10, 4_294_967_296, u64::MAX] {
        assert_eq!(text::decimal_text(n), n.to_string());
        assert_eq!(text::parse_u64(&text::decimal_text(n)), Some(n));
    }
    assert_eq!(text::parse_u64("+5"), Some(5));
    assert_eq!(text::parse_u64(""), None);
    assert_eq!(text::parse_u64("+"), None);
    assert_eq!(text::parse_u64("-1"), None);
    assert_eq!(text::parse_u64("18446744073709551616"), None);
    assert_eq!(text::hex_text(0x0abc, 16), "0000000000000abc");
    assert_eq!(text::wide_decimal_text(u128::from(u64::MAX) + 1), "18446744073709551616");
}

#[test]
fn texts_are_taken_apart_and_put_together() {
    let parts = texts(&["a", "", "b c"]);
    assert_eq!(text::join(&parts, ","), "a,,b c");
    assert_eq!(text::split_text("a,,b c", &[',']), parts);
    assert_eq!(text::words_of(" a\tb  c\n"), texts(&["a", "b", "c"]));
    assert_eq!(text::lines_of("a\r\nb\n\nc"), texts(&["a", "b", "", "c"]));
    assert_eq!(text::trimmed("\u{a0} é \u{3000}"), "é");
    assert_eq!(text::end_trimmed(" é \u{2009}"), " é");
    assert_eq!(text::to_lower("AÉz"), "aÉz");
    assert_eq!(text::to_upper("aéZ"), "AéZ");
    assert_eq!(text::strip_prefix("abc", "ab").as_deref(), Some("c"));
    assert_eq!(text::strip_prefix("abc", "b"), None);
    assert_eq!(text::strip_suffix("abc", "bc").as_deref(), Some("a"));
    assert_eq!(
        text::split_once("k=v=w", "="),
        Some(("k".to_string(), "v=w".to_string()))
    );
    assert_eq!(text::bytes_in("aé€😀"), 10);
    assert_eq!(text::fit("aé€", 5), "aé");
    assert!(text::stands_before("a", "ab"));
    assert!(!text::stands_before("b", "ab"));
}

#[test]
fn identifiers_are_plain_and_stable() {
    for raw in ["Event Name", "--", "9lives", "_9lives", "été", "a__b", "_x_"] {
        let made = normalize_sql_identifier(raw, "column");
        assert!(made.chars().all(|ch| ch.is_ascii_lowercase() || ch.is_ascii_digit() || ch == '_'));
        assert!(!made.starts_with(|ch: char| ch.is_ascii_digit()));
        assert_eq!(normalize_sql_identifier(&made, "column"), made);
    }
    assert_eq!(normalize_sql_identifier("--", "column"), "column");
    assert_eq!(normalize_table_identifier("  ").expect("a name of its own"), "table");
    let err = normalize_table_identifier(&"t".repeat(64)).expect_err("too long");
    assert_eq!(err.code(), "INVALID_PARAMS");
    assert_eq!(normalize_table_identifier(&"t".repeat(63)).expect("fits"), "t".repeat(63));
    assert_eq!(
        dedupe_column_names(&texts(&["a", "A", "a"])),
        texts(&["a", "a_2", "a_3"])
    );
}

#[test]
fn sql_is_quoted_and_wrapped() {
    assert_eq!(escape_sql_literal("O'Brien''s"), "O''Brien''''s");
    assert_eq!(quote_sql_identifier("a\"b"), "\"a\"\"b\"");
    assert_eq!(trim_sql_for_subquery("SELECT 1 ; ;\n"), "SELECT 1");
    assert_eq!(trim_sql_for_subquery(&trim_sql_for_subquery(" SELECT 1;")), "SELECT 1");
    assert!(supports_wrapped_pagination("  with x as (select 1) select * from x"));
    assert!(!supports_wrapped_pagination("DESCRIBE t"));
    assert_eq!(
        wrap_query_for_row_count("SELECT 1;"),
        "SELECT COUNT(*) AS row_count_total FROM (SELECT 1) AS ga4_scratchpad_query"
    );
    assert_eq!(
        wrap_query_for_page("SELECT 1;", 20, 10),
        "SELECT * FROM (SELECT 1) AS ga4_scratchpad_query LIMIT 10 OFFSET 20"
    );
}

#[test]
fn the_surface_keeps_the_layout() {
    let sql = "SELECT 'a\nb' -- c\n, \"d\" /* e\nf */ , $t$g$t$";
    let surface = lexical_surface(sql).expect("every token ends");
    assert_eq!(surface.len(), sql.len());
    let feeds = |text: &str| -> Vec<usize> {
        text.bytes().enumerate().filter(|(_, b)| *b == b'\n').map(|(i, _)| i).collect()
    };
    assert_eq!(feeds(&surface), feeds(sql));
    assert!(surface.starts_with("SELECT "));
    for hidden in ["a", "b", "c", "e", "f", "g"] {
        assert!(!surface.contains(hidden));
    }
    let err = lexical_surface("SELECT $t$ open").expect_err("an open token");
    assert_eq!(err.code, ScratchpadSqlPolicyCode::UnterminatedToken);
}

#[test]
fn surfaces_are_stable() {
    for sql in [
        "SELECT 'a\nb' -- c\n, \"d\" /* e\nf */ , $t$g$t$",
        "SELECT $1, $a'x'$, -'-'-, /'*'*, $\u{e9}$",
        "SELECT 1 --",
        "",
    ] {
        let surface = lexical_surface(sql).expect("every token ends");
        assert_eq!(lexical_surface(&surface).expect("no token is left"), surface);
    }
}

#[test]
fn templates_without_fields_stay_as_they_are() {
    let mut fields = Fields::new();
    fields.set("x", "1".to_string());
    fields.set("y", "{x}".to_string());
    assert_eq!(fill("plain", &fields), "plain");
    assert_eq!(fill("a{x}b{y}c", &fields), "a1b{x}c");
}

// ---------------------------------------------------------------------------
// Hashes, cursors and windows.
// ---------------------------------------------------------------------------

#[test]
fn query_hashes_are_sixteen_digits_and_ignore_order() {
    let a = stable_query_hash(&j(r#"{"b":1,"a":{"d":[1,2],"c":null}}"#)).expect("a hash");
    let b = stable_query_hash(&j(r#"{"a":{"c":null,"d":[1,2]},"b":1}"#)).expect("a hash");
    let c = stable_query_hash(&j(r#"{"a":{"c":null,"d":[2,1]},"b":1}"#)).expect("a hash");
    assert_eq!(a, b);
    assert_ne!(a, c);
    assert_eq!(a.len(), 16);
    assert!(a.chars().all(|ch| ch.is_ascii_hexdigit()));
    assert_eq!(a, digest_of(r#"{"a":{"c":null,"d":[1,2]},"b":1}"#));
    assert_eq!(summarize_query_hash(" 0123456789abcdef "), "0123456789ab..");
    assert_eq!(summarize_query_hash("0123"), "0123");
}

#[test]
fn cursors_are_read_back_and_belong_to_their_query() {
    let hash = digest_of("query");
    let cursor = encode_cursor(&hash, 40);
    assert_eq!(cursor, format!("v1:{hash}:40"));
    let token = decode_cursor(&cursor).expect("a cursor");
    assert_eq!((token.query_hash, token.offset), (hash.clone(), 40));
    assert_eq!(
        resolve_cursor_window(&hash, Some(&cursor), None, Some(10), None).expect("a window"),
        (40, 10)
    );
    let err = resolve_cursor_window(&digest_of("other"), Some(&cursor), None, None, None)
        .expect_err("another query");
    assert_eq!(err.code(), "CURSOR_QUERY_MISMATCH");
    for bad in ["", "v2:abc:1", "v1::1", "v1:abc", "v1:abc:x"] {
        assert_eq!(decode_cursor(bad).expect_err("no cursor").code(), "INVALID_CURSOR");
    }
}

#[test]
fn windows_are_bounded() {
    let window = |max_rows, limit| {
        resolve_cursor_window("h", None, None, max_rows, limit).expect("a window").1
    };
    assert_eq!(window(None, None), 200);
    assert_eq!(window(Some(0), Some(0)), 1);
    assert_eq!(window(Some(1_000_000), None), 25_000);
    assert_eq!(window(Some(50), Some(7)), 7);
    assert_eq!(resolve_funnel_report_limit(None, Some(3)), 3);
    assert_eq!(resolve_funnel_report_limit(Some(usize::MAX), Some(u64::MAX)), 25_000);
}

#[test]
fn tables_are_windowed_clipped_and_summarised() {
    let table = project_ga_tabular_response(&answer(5, 9), "run_report");
    assert_eq!(table.row_count_total, 9);
    let mut joined = take_window(&table.rows, 0, 2);
    joined.extend(take_window(&table.rows, 2, 10));
    assert_eq!(joined, table.rows);
    assert!(take_window(&table.rows, 5, 2).is_empty());
    let (payload, meta) = project_payload_for_mode(&table, OutputMode::Rows, true, None);
    assert_eq!(payload, Json::Null);
    assert_eq!(meta.row_count_returned, 5);
    let (clipped, cut) = clip_value(&j(r#""déjà vu""#), 4);
    assert!(cut);
    assert!(matches!(clipped, Json::Text(shown) if shown.chars().count() <= 4 + 3));
    assert!(!clip_value(&j("12345"), 1).1);
    assert_eq!(
        outward(&payload_by_mode(&table.rows[..1], &table.columns, OutputMode::Tuples)),
        val(r#"[["20260200","US","0"]]"#)
    );
}

// ---------------------------------------------------------------------------
// Dates, filters and names.
// ---------------------------------------------------------------------------

#[test]
fn dates_are_days_of_the_calendar() {
    assert_eq!(parse_iso_date_literal(" 2024-02-29 ").expect("a leap day"), "2024-02-29");
    for bad in ["2023-02-29", "2024-13-01", "2024-00-10", "2024-1-01", "20240101", "2024-04-31"] {
        assert_eq!(parse_iso_date_literal(bad).expect_err(bad).code(), "INVALID_PARAMS");
    }
    let day = normalize_ga_date_literal("20240229").expect("a day");
    assert_eq!(day, "2024-02-29");
    assert_eq!(parse_iso_date_literal(&day).expect("a day"), day);
    assert_eq!(normalize_ga_date_literal("20230229"), None);
    assert_eq!(
        normalize_ga_date_hour_literal("2024022923").as_deref(),
        Some("2024-02-29 23:00:00")
    );
    assert_eq!(normalize_ga_date_hour_literal("2024022924"), None);
    assert_eq!(resolve_release_window_days(None, 7, "pre_days").expect("days"), 7);
    assert!(resolve_release_window_days(Some(0), 7, "pre_days").is_err());
    assert!(resolve_release_window_days(Some(91), 7, "pre_days").is_err());
}

#[test]
fn quotes_around_a_filter_value_are_optional() {
    let bare = parse_simple_dimension_filter_expression("country==US", "f").expect("a filter");
    let quoted = parse_simple_dimension_filter_expression("country==\"US\"", "f").expect("a filter");
    assert_eq!(bare, quoted);
    assert!(matches!(bare, Json::Object(_)));
    assert!(matches!(
        normalize_optional_filter(Some(j(r#"{"filter":{}}"#)), "f", false),
        Ok(Some(Json::Object(_)))
    ));
    assert!(matches!(normalize_optional_filter(None, "f", true), Ok(None)));
    assert!(normalize_optional_filter(Some(j("1")), "f", true).is_err());
    assert!(normalize_optional_filter(Some(j(r#""[1]""#)), "f", false).is_err());
}

#[test]
fn names_and_settings_are_stable() {
    let name = PropertyId::Text(" properties/007 ".to_string()).to_resource_name().expect("a name");
    assert_eq!(name, "properties/7");
    assert_eq!(PropertyId::Text(name.clone()).to_resource_name().expect("a name"), name);
    let name = AccountId::Number(5).to_resource_name().expect("a name");
    assert_eq!(AccountId::Text(name.clone()).to_resource_name().expect("a name"), name);
    let kept = sanitize_header_name(" X-Google-Access-Token ").expect("a header");
    assert_eq!(sanitize_header_name(&kept).expect("a header"), kept);
    assert_eq!(sanitize_base_url(" https://h/p// ").expect("a URL"), "https://h/p");
}

#[test]
fn the_outbound_form_is_stable() {
    let once = snake_to_camel_json(&j(r#"{"a_b":[{"c_d_e":"x_y"}],"keep":1}"#));
    assert_eq!(outward(&once), val(r#"{"aB":[{"cDE":"x_y"}],"keep":1}"#));
    assert_eq!(snake_to_camel_json(&once), once);
    assert_eq!(snake_key_to_camel("_a__b_"), snake_key_to_camel(&snake_key_to_camel("_a__b_")));
    let sorted = sort_object(&j(r#"{"b":[{"z":1,"y":2}],"a":0}"#));
    assert_eq!(
        format!("{}", outward(&sorted)),
        r#"{"a":0,"b":[{"y":2,"z":1}]}"#
    );
    assert_eq!(sort_object(&sorted), sorted);
    assert_eq!(clip_message("short".to_string()), "short");
    assert_eq!(clip_message("x".repeat(1_025)), format!("{}...", "x".repeat(1_024)));
}

#[test]
fn compatible_reports_say_so() {
    let good = outward(&summarize_report_compatibility(&j(
        r#"{"dimensionCompatibilities":[
            {"compatibility":"COMPATIBLE","dimensionMetadata":{"apiName":"b"}},
            {"compatibility":"COMPATIBLE","dimensionMetadata":{"apiName":"a"}},
            {"compatibility":"COMPATIBLE","dimensionMetadata":{"apiName":"b"}}],
            "metricCompatibilities":[
            {"compatibility":"compatible","metricMetadata":{"apiName":"m"}}]}"#,
    )));
    assert_eq!(good["is_fully_compatible"], val("true"));
    assert_eq!(good["reason_codes"], val(r#"["COMPATIBLE"]"#));
    assert_eq!(good["compatible_dimensions"], val(r#"["a","b"]"#));
}

// ---------------------------------------------------------------------------
// Upstream calls.
// ---------------------------------------------------------------------------

fn settings() -> Settings {
    Settings {
        analytics_scope: DEFAULT_ANALYTICS_SCOPE.to_string(),
        admin_base_url: "https://admin.example".to_string(),
        data_base_url: "https://data.example".to_string(),
        http_timeout_ms: 1_000,
        max_page_size: 200,
        max_pages: 2,
        user_agent: "test".to_string(),
        oauth_client_secret_json: None,
        oauth_refresh_token: None,
        upstream_token_source: UpstreamTokenSource::Config,
        upstream_token_header: "x-google-access-token".to_string(),
        quota_project: None,
        shared_adc: false,
        scratchpad_session_ttl_secs: 900,
        scratchpad_max_sessions: 64,
        scratchpad_max_tables_per_session: 32,
        scratchpad_max_rows_per_session: 1_000_000,
        scratchpad_max_memory_mb: 256,
        scratchpad_query_timeout_ms: 15_000,
        scratchpad_max_sql_bytes: 65_536,
        capability_profile: CapabilityProfile::ReadOnly,
        print_tools: false,
        print_tool_schema: false,
        command: Some(CliCommand::Serve),
    }
}

#[test]
fn paging_keeps_its_bounds() {
    let client = AnalyticsApiClient::from_settings(&settings(), UpstreamAuthMode::Adc, None);
    assert_eq!(client.normalized_page_size(Some(0)), 1);
    assert_eq!(client.normalized_page_size(Some(9_999)), 200);
    assert_eq!(client.normalized_page_size(None), 200);
    assert_eq!(client.normalized_max_pages(Some(1)), 1);
    let mut pager =
        client.get_account_summaries(PaginationOptions { page_size: Some(5), max_pages: None });
    assert_eq!(pager.url, "https://admin.example/v1beta/accountSummaries");
    assert_eq!(pager.query(), vec![("pageSize".to_string(), "5".to_string())]);
    pager.absorb(&j(r#"{"accountSummaries":[{"name":"a"}],"nextPageToken":"t"}"#));
    assert!(!pager.done());
    assert_eq!(pager.query()[1], ("pageToken".to_string(), "t".to_string()));
    pager.absorb(&j(r#"{"accountSummaries":[{"name":"b"}],"nextPageToken":"u"}"#));
    assert!(pager.done());
    let read = outward(&pager.finish());
    assert_eq!(read["account_summaries"], val(r#"[{"name":"a"},{"name":"b"}]"#));
    assert_eq!(
        read["meta"],
        val(r#"{"page_size":5,"pages_fetched":2,"max_pages":2,"next_page_token":"u"}"#)
    );
}

#[test]
fn calls_name_their_urls() {
    let client = AnalyticsApiClient::from_settings(&settings(), UpstreamAuthMode::Adc, None);
    let property = PropertyId::Number(7);
    let account = AccountId::Number(8);
    assert_eq!(
        client.get_property_details(&property).expect("a call").url,
        "https://admin.example/v1beta/properties/7"
    );
    assert!(client
        .get_account_data_sharing_settings(&account)
        .expect("a call")
        .url
        .starts_with("https://admin.example/v1beta/accounts/8/dataSharingSettings"));
    assert!(client
        .get_property_data_retention_settings(&property)
        .expect("a call")
        .url
        .contains("properties/7/dataRetentionSettings"));
    assert_eq!(
        client.get_custom_dimensions_and_metrics(&property).expect("a call").url,
        "https://data.example/v1beta/properties/7/metadata"
    );
    let pages = || PaginationOptions { page_size: None, max_pages: None };
    assert!(client
        .list_google_ads_links(&property, pages())
        .expect("a reading")
        .url
        .ends_with("properties/7/googleAdsLinks"));
    assert!(client
        .list_property_annotations(&property, pages())
        .expect("a reading")
        .url
        .ends_with("properties/7/reportingDataAnnotations"));
    assert!(client.get_property_details(&PropertyId::Text("x".to_string())).is_err());
    let definitions = outward(&custom_definitions(&j(
        r#"{"dimensions":[{"apiName":"customEvent:a","customDefinition":true},{"apiName":"city"}],
            "metrics":[{"apiName":"m","customDefinition":false}]}"#,
    )));
    assert_eq!(
        definitions["custom_dimensions"],
        val(r#"[{"apiName":"customEvent:a","customDefinition":true}]"#)
    );
    assert_eq!(definitions["custom_metrics"], val("[]"));
    assert_eq!(missing_adc_file("/p").code(), "AUTHENTICATION_FAILED");
    assert_eq!(
        adc_quota_project_file(&UpstreamAuthMode::Adc, true, Some("/c.json".to_string())),
        Some("/c.json".to_string())
    );
    assert_eq!(
        adc_quota_project_file(&UpstreamAuthMode::Adc, false, Some("/c.json".to_string())),
        None
    );
    assert_eq!(
        adc_quota_project_file(
            &UpstreamAuthMode::AuthorizedUserAdcFile("/own.json".to_string()),
            false,
            None
        ),
        Some("/own.json".to_string())
    );
}

// ---------------------------------------------------------------------------
// Reports.
// ---------------------------------------------------------------------------

#[test]
fn pages_of_a_report_share_one_hash() {
    let first = plan_run_report(report_args()).expect("a plan");
    let hash = first.options.query_hash.clone();
    assert_eq!(hash, run_report_query_hash(&report_args()).expect("a hash"));
    assert_eq!(first.options.cursor_offset, 0);
    assert_eq!(first.request.limit, Some(200));
    assert_eq!(first.request.offset, Some(0));
    let mut next = report_args();
    next.cursor = Some(encode_cursor(&hash, 200));
    next.max_rows = Some(10);
    let next = plan_run_report(next).expect("a plan");
    assert_eq!(next.options.query_hash, hash);
    assert_eq!(next.options.cursor_offset, 200);
    assert_eq!(next.limit, 10);
    let mut both = report_args();
    both.dimensions = Vec::new();
    assert_eq!(plan_run_report(both).expect_err("no dimensions").code(), "INVALID_PARAMS");
}

fn options(hash: &str, offset: u64) -> TabularResponseOptions {
    TabularResponseOptions {
        query_hash: hash.to_string(),
        output_mode: OutputMode::Rows,
        summary_only: false,
        max_cell_chars: None,
        cursor_offset: offset,
    }
}

#[test]
fn report_answers_lead_to_the_next_page() {
    let reply = outward(&tabular_reply(Ok(answer(3, 9)), 4, "run_report", options("h", 0)));
    assert_eq!(reply["ok"], val("true"));
    assert_eq!(reply["meta"]["next_cursor"], val(r#""v1:h:3""#));
    assert_eq!(reply["meta"]["row_count_returned"], val("3"));
    let last = outward(&tabular_reply(Ok(answer(3, 9)), 4, "run_report", options("h", 6)));
    assert_eq!(last["meta"]["next_cursor"], Value::Null);
    let failed = outward(&tabular_reply(
        Err(AnalyticsError::UpstreamApi { status: 500, message: "no".to_string() }),
        4,
        "run_report",
        options("h", 0),
    ));
    assert_eq!(failed["ok"], val("false"));
    assert_eq!(failed["error"]["engine_code"], val(r#""http_500""#));
    let pivot = outward(&pivot_reply(Ok(answer(3, 3)), 4, 2, options("h", 1)));
    assert_eq!(pivot["meta"]["row_count_returned"], val("2"));
    assert_eq!(outward(&plain_reply(Ok(j(r#"{"a":1}"#)), 1))["data"], val(r#"{"a":1}"#));
    assert_eq!(outward(&sorted_reply(Ok(j(r#"{"a":1}"#)), 1))["data"], val(r#"{"a":1}"#));
}

fn realtime_args() -> RunRealtimeReportArgs {
    RunRealtimeReportArgs {
        property_id: PropertyId::Number(123),
        dimensions: texts(&["country"]),
        metrics: texts(&["activeUsers"]),
        dimension_filter: None,
        metric_filter: None,
        order_bys: None,
        limit: Some(5),
        offset: None,
        return_property_quota: true,
        max_rows: None,
        cursor: None,
        output_mode: None,
        summary_only: false,
        max_cell_chars: None,
    }
}

fn pivot_args() -> RunPivotReportArgs {
    RunPivotReportArgs {
        property_id: PropertyId::Number(123),
        date_ranges: report_args().date_ranges,
        dimensions: texts(&["country"]),
        metrics: texts(&["activeUsers"]),
        pivots: vec![j(r#"{"field_names":["country"],"limit":5}"#)],
        dimension_filter: None,
        metric_filter: None,
        order_bys: None,
        currency_code: None,
        keep_empty_rows: false,
        return_property_quota: true,
        max_rows: None,
        cursor: None,
        output_mode: None,
        summary_only: false,
        max_cell_chars: None,
    }
}

fn property_access_args() -> RunAccessReportPropertyArgs {
    RunAccessReportPropertyArgs {
        property_id: PropertyId::Number(123),
        date_ranges: report_args().date_ranges,
        dimensions: texts(&["userEmail"]),
        metrics: texts(&["accessCount"]),
        dimension_filter: None,
        metric_filter: None,
        order_bys: None,
        offset: None,
        limit: None,
        time_zone: None,
        max_rows: Some(3),
        cursor: None,
        output_mode: None,
        summary_only: false,
        max_cell_chars: None,
    }
}

fn account_access_args() -> RunAccessReportAccountArgs {
    let args = property_access_args();
    RunAccessReportAccountArgs {
        account_id: AccountId::Number(9),
        date_ranges: args.date_ranges,
        dimensions: args.dimensions,
        metrics: args.metrics,
        dimension_filter: None,
        metric_filter: None,
        order_bys: None,
        offset: None,
        limit: None,
        time_zone: None,
        max_rows: Some(3),
        cursor: None,
        output_mode: None,
        summary_only: false,
        max_cell_chars: None,
    }
}

fn batch_item() -> BatchRunReportItemArgs {
    let report = report_args();
    BatchRunReportItemArgs {
        date_ranges: report.date_ranges,
        dimensions: report.dimensions,
        metrics: report.metrics,
        dimension_filter: None,
        metric_filter: None,
        order_bys: None,
        limit: None,
        offset: None,
        currency_code: None,
        return_property_quota: true,
        max_rows: None,
        cursor: None,
        output_mode: None,
        summary_only: false,
        max_cell_chars: None,
    }
}

#[test]
fn every_report_has_its_own_hash() {
    let realtime = plan_run_realtime_report(realtime_args()).expect("a plan");
    assert_eq!(realtime.limit, 5);
    assert_eq!(
        realtime.options.query_hash,
        run_realtime_query_hash(&realtime_args()).expect("a hash")
    );
    let pivot = plan_run_pivot_report(pivot_args()).expect("a plan");
    assert_eq!(pivot.options.query_hash, run_pivot_query_hash(&pivot_args()).expect("a hash"));
    let property = plan_run_property_access_report(property_access_args()).expect("a plan");
    assert_eq!(
        property.options.query_hash,
        run_property_access_query_hash(&property_access_args()).expect("a hash")
    );
    let account = plan_run_account_access_report(account_access_args()).expect("a plan");
    assert_eq!(
        account.options.query_hash,
        run_account_access_query_hash(&account_access_args()).expect("a hash")
    );
    assert_ne!(property.options.query_hash, account.options.query_hash);
    let batch = plan_batch_run_reports(BatchRunReportsArgs {
        property_id: PropertyId::Number(123),
        requests: vec![batch_item(), batch_item()],
    })
    .expect("a plan");
    assert_eq!(batch.property, "properties/123");
    assert_eq!(
        batch.options[1].query_hash,
        batch_run_report_query_hash("properties/123", 1, &batch_item()).expect("a hash")
    );
    assert_ne!(batch.options[0].query_hash, batch.options[1].query_hash);
    let reply = outward(&batch_reply(
        Ok(j(&format!(r#"{{"reports":[{},{}]}}"#, outward(&answer(1, 1)), outward(&answer(2, 2))))),
        1,
        "properties/123",
        batch.options,
    ));
    assert_eq!(reply["ok"], val("true"));
    assert_eq!(reply["data"]["reports"].as_array().map(Vec::len), Some(2));
}

#[test]
fn compatibility_checks_say_what_they_checked() {
    let args = CheckReportCompatibilityArgs {
        property_id: PropertyId::Number(123),
        dimensions: texts(&["country"]),
        metrics: texts(&["activeUsers"]),
    };
    let property = plan_check_report_compatibility(&args).expect("a property");
    assert_eq!(property, "properties/123");
    let payload = outward(&compatibility_payload(&property, &args, j("{}"), j("{}")));
    assert_eq!(payload["property_id"], val(r#""properties/123""#));
    let none = CheckReportCompatibilityArgs {
        property_id: PropertyId::Number(123),
        dimensions: Vec::new(),
        metrics: Vec::new(),
    };
    assert!(plan_check_report_compatibility(&none).is_err());
}

#[test]
fn previews_agree_with_reports() {
    let shown = outward(&preview_report_request(
        &PreviewReportRequestArgs { report: report_args() },
        3,
    ));
    assert_eq!(
        shown["data"]["preview"]["query_hash"],
        Value::from(run_report_query_hash(&report_args()).expect("a hash"))
    );
    let mut bad = report_args();
    bad.metrics = Vec::new();
    let refused =
        outward(&preview_report_request(&PreviewReportRequestArgs { report: bad }, 3));
    let mut bad = report_args();
    bad.metrics = Vec::new();
    let err = plan_run_report(bad).expect_err("no metrics");
    assert_eq!(refused, outward(&contract::error(err, 3)));
}

#[test]
fn funnel_parts_are_limited() {
    let (payload, meta, may_miss) =
        project_funnel_subreport(&answer(5, 5), "run_funnel_report", OutputMode::Rows, false, None, 3);
    assert_eq!(outward(&payload).as_array().map(Vec::len), Some(3));
    assert_eq!(outward(&meta)["row_count_returned"], val("3"));
    assert!(may_miss);
    let (_, _, may_miss) =
        project_funnel_subreport(&answer(2, 2), "run_funnel_report", OutputMode::Rows, false, None, 3);
    assert!(!may_miss);
}

// ---------------------------------------------------------------------------
// The scratchpad.
// ---------------------------------------------------------------------------

#[test]
fn gatherings_end_and_keep_their_limit() {
    let mut gathering = IngestCollector::new(Some(2), Some(3), Some(10), "narrow the report");
    assert_eq!(gathering.next_page().expect("a page"), NextPage::Fetch { limit: 2, offset: 10 });
    gathering.absorb(&answer(2, 50), "run_report").expect("rows");
    assert_eq!(gathering.next_page().expect("a page"), NextPage::Fetch { limit: 1, offset: 12 });
    gathering.absorb(&answer(1, 50), "run_report").expect("rows");
    assert_eq!(gathering.next_page().expect("the end"), NextPage::Done);
    let (table, stats) = gathering.finish();
    assert_eq!(table.rows.len(), 3);
    assert_eq!(stats.pages_fetched, 2);
    assert_eq!((stats.initial_offset, stats.final_offset), (10, 13));
    let plan = plan_ingest(&table).expect("a plan");
    let names: Vec<&str> = plan.columns.iter().map(|column| column.name.as_str()).collect();
    assert_eq!(names, vec!["date", "date_parsed", "country", "activeusers"]);
    assert_eq!(plan.rows.len(), 3);
    let usage = IngestStats {
        rows_inserted: 3,
        columns_inserted: 4,
        tables_used: 1,
        tables_remaining: 31,
        rows_used: 3,
        rows_remaining: 97,
    };
    let payload = outward(&ingest_payload(
        " s ",
        "My Table",
        "my_table",
        table,
        "run_report",
        ScratchpadIngestMode::Append,
        Some(stats),
        usage,
    ));
    assert_eq!(payload["session_id"], val(r#""s""#));
    assert_eq!(payload["ingest"], val(r#"{"rows_inserted":3,"columns_inserted":4}"#));
    assert_eq!(payload["source"]["ingest_mode"], val(r#""append""#));
    assert_eq!(payload["source"]["pagination"]["enabled"], val("true"));
    assert_eq!(payload["column_mapping"].as_array().map(Vec::len), Some(4));
}

fn controls() -> ScratchpadQueryControls {
    ScratchpadQueryControls {
        max_rows: Some(2),
        cursor: None,
        output_mode: OutputMode::Rows,
        summary_only: false,
        max_cell_chars: None,
    }
}

#[test]
fn queries_are_planned_run_and_answered() {
    let plan = plan_scratchpad_query("scratchpad_query", "s", " SELECT 1; ", &controls())
        .expect("a plan");
    assert_eq!(plan.sql, "SELECT 1;");
    assert_eq!((plan.offset, plan.page_size), (0, 2));
    assert_eq!(
        plan.query_hash,
        scratchpad_query_hash("scratchpad_query", "s", "SELECT 1").expect("a hash")
    );
    assert!(plan_scratchpad_query("t", "s", "  ", &controls()).is_err());
    match query_steps("SELECT 1;", 4, 2) {
        QuerySteps::Wrapped { page_sql, .. } => assert!(page_sql.ends_with("LIMIT 2 OFFSET 4")),
        _ => panic!("a SELECT can be wrapped"),
    }
    assert!(matches!(query_steps("DESCRIBE t", 0, 2), QuerySteps::InMemory { .. }));
    let names = texts(&["n"]);
    let columns = || build_query_columns(&names, &[DuckType::Int64]);
    let rows: Vec<Object> =
        (1..=3).map(|n| build_query_row(&names, &[DuckValue::BigInt(n)])).collect();
    let page = in_memory_page(columns(), &rows, 0, 2);
    assert_eq!(page.rows.len(), 2);
    assert_eq!(page.row_count_total, 3);
    let reply = outward(&query_reply(Ok(page), &plan, "s", &controls(), None, 5));
    assert_eq!(reply["data"], val(r#"[{"n":1},{"n":2}]"#));
    assert_eq!(reply["meta"]["next_cursor"], Value::from(format!("v1:{}:2", plan.query_hash)));
    let page = wrapped_page(columns(), rows, 3);
    assert_ne!(page.pagination_mode, "in_memory");
    let reply = outward(&query_reply(
        Err(AnalyticsError::scratchpad_query_timeout(10)),
        &plan,
        "s",
        &controls(),
        None,
        5,
    ));
    assert_eq!(reply["ok"], val("false"));
    assert_eq!(
        merge_query_hints(texts(&["a", "b"]), &texts(&["b", "c", "c"])),
        texts(&["a", "b", "c"])
    );
    assert_eq!(duck_value_to_usize(&DuckValue::BigInt(-1)), 0);
    assert_eq!(duck_value_to_usize(&DuckValue::UBigInt(7)), 7);
}

fn table_args(name: &str) -> ScratchpadTableHelperArgs {
    ScratchpadTableHelperArgs {
        session_id: "s".to_string(),
        table_name: name.to_string(),
        max_rows: None,
        cursor: None,
        output_mode: None,
        summary_only: false,
        max_cell_chars: None,
    }
}

fn regression_args() -> ScratchpadReleaseRegressionArgs {
    ScratchpadReleaseRegressionArgs {
        session_id: "s".to_string(),
        table_name: "Events".to_string(),
        release_date: "2026-02-10".to_string(),
        anchor_event: "page_view".to_string(),
        comparison_event: "purchase".to_string(),
        date_column: None,
        event_column: None,
        metric_column: None,
        pre_days: None,
        transition_days: None,
        post_days: None,
        max_rows: None,
        cursor: None,
        output_mode: None,
        summary_only: false,
        max_cell_chars: None,
    }
}

fn landing_args() -> ScratchpadLandingParamShiftArgs {
    ScratchpadLandingParamShiftArgs {
        session_id: "s".to_string(),
        table_name: "Landing".to_string(),
        release_date: "2026-02-10".to_string(),
        date_column: None,
        landing_url_column: None,
        channel_column: None,
        source_medium_column: None,
        pre_days: None,
        transition_days: None,
        post_days: None,
        top_n: None,
        max_rows: None,
        cursor: None,
        output_mode: None,
        summary_only: false,
        max_cell_chars: None,
    }
}

#[test]
fn the_scratchpad_tools_run_their_queries() {
    let query = plan_query_tool(ScratchpadQueryArgs {
        session_id: "s".to_string(),
        sql: "SELECT 1".to_string(),
        max_rows: Some(9),
        cursor: None,
        output_mode: None,
        summary_only: true,
        max_cell_chars: None,
    });
    assert_eq!((query.tool_name, query.sql.as_str()), ("scratchpad_query", "SELECT 1"));
    assert_eq!(query.controls.max_rows, Some(9));
    let describe = plan_describe_table(table_args("My Table")).expect("a query");
    assert_eq!(describe.tool_name, "scratchpad_describe_table");
    assert!(describe.sql.contains("my_table"));
    let summarize = plan_summarize_table(table_args("My Table")).expect("a query");
    assert!(summarize.sql.starts_with("SUMMARIZE"));
    assert!(plan_describe_table(table_args(&"t".repeat(64))).is_err());
    let regression = plan_release_regression_report(regression_args()).expect("a query");
    assert!(regression.sql.contains("2026-02-10"));
    assert!(regression.source.is_some());
    let mut bad = regression_args();
    bad.anchor_event = " ".to_string();
    assert!(plan_release_regression_report(bad).is_err());
    let landing = plan_landing_param_shift_report(landing_args()).expect("a query");
    assert_eq!(landing.tool_name, "scratchpad_landing_param_shift_report");
    let mut bad = landing_args();
    bad.top_n = Some(0);
    assert!(plan_landing_param_shift_report(bad).is_err());
    let ingest = |append: bool, cursor: Option<String>| {
        let mut report = report_args();
        report.cursor = cursor;
        plan_ingest_report(&ScratchpadIngestReportArgs {
            session_id: "s".to_string(),
            table_name: "My Table".to_string(),
            report,
            append,
        })
    };
    assert_eq!(ingest(true, None).expect("a table"), "my_table");
    assert!(ingest(true, Some("v1:h:1".to_string())).is_err());
}

const LIMITS: ScratchpadLimits = ScratchpadLimits {
    max_sessions: 4,
    max_tables_per_session: 3,
    max_rows_per_session: 100,
    max_memory_mb: 128,
    max_sql_bytes: 1024,
    query_timeout_ms: 50,
    session_ttl_secs: 60,
};

fn session() -> ScratchpadSessionInfo {
    ScratchpadSessionInfo {
        session_id: "s".to_string(),
        usage: SessionUsage {
            tables_used: 1,
            tables_remaining: 2,
            rows_used: 10,
            rows_remaining: 90,
        },
        ttl_seconds_remaining: 59,
    }
}

fn listed(name: &str) -> ScratchpadTableInfo {
    ScratchpadTableInfo {
        schema: "main".to_string(),
        name: name.to_string(),
        table_type: "BASE TABLE".to_string(),
        column_count: 1,
        columns: vec![ScratchpadColumnInfo {
            name: "n".to_string(),
            logical_type: "integer".to_string(),
            nullable: false,
        }],
        columns_truncated: false,
    }
}

#[test]
fn the_scratchpad_tools_say_what_they_did() {
    let opened = outward(&open_session_payload(&session(), LIMITS));
    assert_eq!(opened["session_id"], val(r#""s""#));
    let closed = outward(&close_session_payload(" s ", true));
    assert_eq!(closed["closed"], val("true"));
    let sessions = outward(&list_sessions_payload(&[session()], 50));
    assert_eq!(sessions["returned"], val("1"));
    assert_eq!(sessions["limit"], val("50"));
    let tables = outward(&list_tables_payload("s", &[listed("a"), listed("b")], 50));
    assert_eq!(tables["tables"][1]["name"], val(r#""b""#));
    let dropped =
        outward(&drop_table_payload("s", "My Table", "my_table", true, 4, session().usage));
    assert_eq!(dropped["dropped"], val("true"));
    let limits = outward(&runtime_limits_payload(LIMITS, 1, j("{}")));
    assert_eq!(limits["runtime_limits"]["max_sessions"], val("4"));
    assert!(check_limit_update(&ScratchpadSetRuntimeLimitsArgs {
        max_sessions: None,
        max_tables_per_session: None
    })
    .is_err());
    assert!(check_limit_update(&ScratchpadSetRuntimeLimitsArgs {
        max_sessions: Some(1),
        max_tables_per_session: None
    })
    .is_ok());
    let updated = outward(&updated_limits_payload(4, 5, 3, 3, 1));
    assert!(updated.is_object());
}

#[test]
fn bundles_show_each_table_once() {
    let chosen = select_evidence_tables(&texts(&["My Table", "my-table", "other"])).expect("tables");
    let names: Vec<&str> = chosen.iter().map(|table| table.normalized.as_str()).collect();
    assert_eq!(names, vec!["my_table", "other"]);
    assert!(check_evidence_tables(&chosen).is_ok());
    assert!(check_evidence_tables(&[]).is_err());
    let plan = plan_evidence_bundle(&ScratchpadEvidenceBundleArgs {
        session_id: "s".to_string(),
        table_names: None,
        sample_rows_per_table: Some(1),
    })
    .expect("a plan");
    assert_eq!(plan.sample_rows_per_table, 1);
    assert!(plan.tables.is_none());
    let mut found = inventory_tables(&[listed("events")]);
    assert_eq!(found.len(), 1);
    assert_eq!(evidence_sample_sql("events"), "SELECT * FROM \"events\"");
    let names = texts(&["n"]);
    let rows = vec![build_query_row(&names, &[DuckValue::BigInt(1)])];
    let sample = evidence_sample(
        " s ",
        found.remove(0),
        wrapped_page(build_query_columns(&names, &[DuckType::Int64]), rows, 1),
    )
    .expect("a sample");
    assert_eq!(
        sample.query_hash,
        scratchpad_query_hash(
            "scratchpad_export_evidence_bundle",
            "s",
            "SELECT * FROM \"events\""
        )
        .expect("a hash")
    );
    let query_hash = sample.query_hash.clone();
    let bundle = outward(&evidence_payload("s", 17, 1, &[sample]));
    assert_eq!(bundle["generated_at_epoch_ms"], val("17"));
    assert!(bundle["markdown"].as_str().expect("markdown").contains("events"));
    assert_eq!(
        bundle["tables"][0]["sample_query"]["query_hash"].as_str(),
        Some(query_hash.as_str())
    );
}

#[test]
fn samples_are_bounded() {
    assert_eq!(sampled_sessions_target(10, 0), 1);
    assert_eq!(sampled_sessions_target(10, 3), 3);
    assert_eq!(sampled_sessions_target(2, 3), 2);
    assert_eq!(sampled_sessions_target(1_000, 1_000), MAX_MEMORY_PRESSURE_SAMPLE_SESSIONS);
    let probes = vec![
        Probe::Used {
            session_id: "a".to_string(),
            used_bytes: 10,
            limit_bytes: 100,
            used_pct: j("10.0"),
        },
        Probe::Failed {
            session_id: "b".to_string(),
            err: AnalyticsError::internal("no"),
        },
        Probe::Used {
            session_id: "c".to_string(),
            used_bytes: u64::MAX,
            limit_bytes: 50,
            used_pct: Json::Null,
        },
    ];
    assert_eq!(reported_totals(&probes), (u64::MAX, 150));
    let pressure = Pressure {
        used_pct_of_reported_limit: Json::Null,
        max_session_used_pct: Json::Null,
        level: "unknown",
        high: false,
    };
    let report = outward(&collect_runtime_memory_pressure(
        128,
        3,
        3,
        Sampling::Probed(probes, pressure),
    ));
    assert_eq!(report["sampled_sessions"], val("3"));
    assert_eq!(report["probe_errors"], val("1"));
    assert_eq!(report["configured_limit_bytes_total"], val("402653184"));
    let report = outward(&collect_runtime_memory_pressure(
        128,
        3,
        3,
        Sampling::Unlisted(AnalyticsError::internal("no")),
    ));
    assert_eq!(report["status"], val(r#""unavailable""#));
}

#[test]
fn reals_are_kept_as_they_are_shown() {
    let real = |number: Option<&str>| DuckReal {
        number: number.map(str::to_string),
        shown: "NaN".to_string(),
        count: 3,
    };
    assert_eq!(outward(&duck_value_to_json(&DuckValue::Double(real(Some("1.5"))))), val("1.5"));
    assert_eq!(outward(&duck_value_to_json(&DuckValue::Double(real(None)))), val(r#""NaN""#));
    assert_eq!(duck_value_to_usize(&DuckValue::Float(real(None))), 3);
    assert_eq!(
        outward(&duck_value_to_json(&DuckValue::Blob(vec![0, 0xab]))),
        val(r#""0x00ab""#)
    );
}

#[test]
fn sessions_keep_their_limits() {
    let empty = Held { tables: 0, rows: 0 };
    let held = admit_rows(empty, true, 7, 2, 10).expect("room for a table");
    assert_eq!(held, Held { tables: 1, rows: 7 });
    let held = admit_rows(held, false, 3, 2, 10).expect("room for rows");
    assert_eq!(held, Held { tables: 1, rows: 10 });
    let usage = session_usage(held, 2, 10);
    assert_eq!((usage.tables_used, usage.tables_remaining), (1, 1));
    assert_eq!((usage.rows_used, usage.rows_remaining), (10, 0));
    assert_eq!(session_usage(held, 0, 4).rows_remaining, 0);
    let err = admit_rows(held, false, 1, 2, 10).expect_err("too many rows");
    assert_eq!(err.code(), "SCRATCHPAD_LIMIT_EXCEEDED");
    let err = admit_rows(Held { tables: 2, rows: 0 }, true, 0, 2, 10).expect_err("too many tables");
    assert!(err.message().contains("2 tables"));
    assert!(admit_rows(held, false, usize::MAX, 2, usize::MAX).is_err());
    assert_eq!(release_table(held, 10), empty);
    assert_eq!(release_table(empty, 1), empty);
    assert!(check_new_session(63, 64).is_ok());
    assert!(check_new_session(64, 64).is_err());
    assert_eq!(seconds_left(900, 899), Some(1));
    assert_eq!(seconds_left(900, 900), None);
}

#[test]
fn conversion_and_funnel_reports_are_sent_to_the_alpha_surface() {
    let client = AnalyticsApiClient::from_settings(&settings(), UpstreamAuthMode::Adc, None);
    let plan = plan_run_conversions_report(RunConversionsReportArgs {
        property_id: PropertyId::Number(7),
        date_ranges: vec![j(r#"{"start_date": "2026-04-01", "end_date": "2026-04-30"}"#)],
        dimensions: texts(&["campaignName"]),
        metrics: texts(&["allConversionsByConversionDate"]),
        conversion_spec: ConversionSpecArgs {
            conversion_actions: texts(&["conversionActions/1234"]),
            attribution_model: Some(AttributionModel::DataDriven),
        },
        dimension_filter: None,
        metric_filter: None,
        order_bys: None,
        limit: Some(100),
        offset: Some(3),
        currency_code: Some(" USD ".to_string()),
        return_property_quota: true,
        max_rows: Some(50),
        cursor: None,
        output_mode: None,
        summary_only: false,
        max_cell_chars: None,
    })
    .expect("a plan");
    let call = client.run_conversions_report(&plan.request).expect("a call");
    assert_eq!(call.url, "https://data.example/v1alpha/properties/7:runReport");
    assert_eq!(
        outward(&call.body.expect("a body")),
        val(
            r#"{"dimensions": [{"name": "campaignName"}],
                "metrics": [{"name": "allConversionsByConversionDate"}],
                "dateRanges": [{"startDate": "2026-04-01", "endDate": "2026-04-30"}],
                "returnPropertyQuota": true, "limit": "50", "offset": "3", "currencyCode": "USD",
                "conversionSpec": {"conversionActions": ["conversionActions/1234"],
                    "attributionModel": "DATA_DRIVEN"}}"#
        )
    );
    let plan = plan_run_funnel_report(RunFunnelReportArgs {
        property_id: PropertyId::Number(7),
        funnel_steps: vec![FunnelStepArgs {
            name: None,
            event: Some("page_view".to_string()),
            filter_expression: None,
            is_directly_followed_by: None,
            within_duration_from_prior_step: None,
        }],
        is_open_funnel: true,
        date_ranges: vec![],
        funnel_breakdown: Some(FunnelBreakdownArgs {
            breakdown_dimension: "deviceCategory".to_string(),
            limit: Some(5),
        }),
        funnel_next_action: None,
        funnel_visualization_type: Some(FunnelVisualizationType::StandardFunnel),
        segments: None,
        dimension_filter: None,
        limit: Some(100),
        return_property_quota: false,
        max_rows: Some(50),
        output_mode: None,
        summary_only: false,
        max_cell_chars: None,
    })
    .expect("a plan");
    let call = client.run_funnel_report(&plan.request, &plan.steps).expect("a call");
    assert_eq!(call.url, "https://data.example/v1alpha/properties/7:runFunnelReport");
    assert_eq!(
        outward(&call.body.expect("a body")),
        val(
            r#"{"funnel": {"isOpenFunnel": true, "steps": [{"name": "Step 1",
                    "filterExpression": {"funnelEventFilter": {"eventName": "page_view"}}}]},
                "returnPropertyQuota": false,
                "funnelBreakdown": {"breakdownDimension": {"name": "deviceCategory"}, "limit": "5"},
                "funnelVisualizationType": "STANDARD_FUNNEL", "limit": "50"}"#
        )
    );
}
