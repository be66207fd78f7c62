use ga4_mcp::contract::{
    error, redact_secret_text, success, success_tabular, success_with_meta, ColumnMeta, OutputMode,
    TabularMeta,
};
use ga4_mcp::error::AnalyticsError;
use ga4_mcp::sql_safety::{
    validate_scratchpad_sql, DecisionCode, PolicyAuthorityDecision, ScratchpadSqlPolicyCode,
    ScratchpadSqlPolicyError,
};
use ga4_mcp::json::{Json, Number, Object};
use serde_json::Value;

fn inward(value: &Value) -> Json {
    match value {
        Value::Null => Json::Null,
        Value::Bool(b) => Json::Bool(*b),
        Value::Number(n) => Json::Number(match (n.as_u64(), n.as_i64()) {
            (Some(whole), _) => Number::Unsigned(whole),
            (None, Some(whole)) => Number::Negative(whole),
            (None, None) => Number::Real(n.to_string()),
        }),
        Value::String(s) => Json::Text(s.clone()),
        Value::Array(items) => Json::Array(items.iter().map(inward).collect()),
        Value::Object(map) => Json::Object(Object {
            entries: map.iter().map(|(k, v)| (k.clone(), inward(v))).collect(),
        }),
    }
}

fn outward(value: &Json) -> Value {
    match value {
        Json::Null => Value::Null,
        Json::Bool(b) => Value::Bool(*b),
        Json::Number(Number::Unsigned(n)) => Value::from(*n),
        Json::Number(Number::Negative(n)) => Value::from(*n),
        Json::Number(Number::Real(shown)) => val(shown),
        Json::Text(s) => Value::from(s.as_str()),
        Json::Array(items) => Value::Array(items.iter().map(outward).collect()),
        Json::Object(object) => cells(object),
    }
}

fn cells(object: &Object) -> Value {
    Value::Object(object.entries.iter().map(|(k, v)| (k.clone(), outward(v))).collect())
}

fn val(text: &str) -> Value {
    serde_json::from_str(text).expect("the text should be JSON")
}

fn j(text: &str) -> Json {
    inward(&val(text))
}

#[test]
fn success_adds_required_meta() {
    let payload = outward(&success(j(r#"{ "k": "v" }"#), 7));

    assert_eq!(payload["ok"], Value::Bool(true));
    assert_eq!(payload["data"], val(r#"{ "k": "v" }"#));
    assert_eq!(payload["meta"]["elapsed_ms"], val("7"));
}

#[test]
fn success_with_meta_keeps_fields_and_adds_elapsed() {
    let payload = outward(&success_with_meta(j("[1, 2]"), j(r#"{ "row_count_total": 2 }"#), 11));

    assert_eq!(payload["ok"], Value::Bool(true));
    assert_eq!(payload["meta"]["row_count_total"], val("2"));
    assert_eq!(payload["meta"]["elapsed_ms"], val("11"));
}

#[test]
fn error_contains_contract_fields() {
    let err = AnalyticsError::invalid("property_id", "missing");
    let payload = outward(&error(err, 3));

    assert_eq!(payload["ok"], Value::Bool(false));
    assert_eq!(payload["error"]["code"], val(r#""INVALID_PARAMS""#));
    assert_eq!(payload["error"]["reason"], val(r#""invalid_params""#));
    assert_eq!(payload["error"]["category"], val(r#""validation""#));
    assert_eq!(payload["error"]["detail"], val(r#""field=property_id""#));
    assert!(payload["error"]["hint"].is_string());
    assert!(payload["error"]["message"].is_string());
    assert_eq!(payload["meta"]["elapsed_ms"], val("3"));
}

#[test]
fn redacts_google_tokens_without_flattening_lines() {
    let text = "first ya29.secret\nsecond refresh_token=1//refresh\nthird token=1%2F%2Fencoded";
    let redacted = redact_secret_text(text);

    assert_eq!(redacted.lines().count(), 3);
    assert!(!redacted.contains("ya29.secret"));
    assert!(!redacted.contains("1//refresh"));
    assert!(!redacted.contains("1%2F%2Fencoded"));
    assert!(redacted.contains("[redacted]"));
}

#[test]
fn success_tabular_respects_summary_only() {
    let mut meta = TabularMeta::rows(10, 5, vec![ColumnMeta::new("event_name")]);
    meta.summary_only = true;
    meta.next_cursor = Some("v1:abc:5".to_string());

    let payload =
        outward(&success_tabular(Some(j(r#"[{"event_name": "page_view"}]"#)), meta, 9));
    assert_eq!(payload["ok"], Value::Bool(true));
    assert_eq!(payload["data"], Value::Null);
    assert_eq!(payload["meta"]["summary_only"], Value::Bool(true));
    assert_eq!(payload["meta"]["next_cursor"], val(r#""v1:abc:5""#));
    assert_eq!(payload["meta"]["elapsed_ms"], val("9"));
}

#[test]
fn contract_success_tabular_emits_required_v1_fields() {
    let mut tabular = TabularMeta::rows(100, 25, vec![ColumnMeta::new("event_name")]);
    tabular.output_mode = OutputMode::Compact;
    tabular.summary_only = false;
    tabular.next_cursor = Some("v1:abcd:25".to_string());
    tabular.query_hash = Some("abcd".to_string());

    let payload =
        outward(&success_tabular(Some(j(r#"[{ "event_name": "page_view" }]"#)), tabular, 8));

    assert_eq!(payload["ok"], Value::Bool(true));
    assert!(payload["meta"]["elapsed_ms"].is_number());
    assert_eq!(payload["meta"]["output_mode"], val(r#""compact""#));
    assert_eq!(payload["meta"]["summary_only"], Value::Bool(false));
    assert_eq!(payload["meta"]["row_count_total"], val("100"));
    assert_eq!(payload["meta"]["row_count_returned"], val("25"));
    assert_eq!(payload["meta"]["truncated"], Value::Bool(true));
    assert_eq!(payload["meta"]["next_cursor"], val(r#""v1:abcd:25""#));
    assert_eq!(payload["meta"]["query_hash"], val(r#""abcd""#));
}

#[test]
fn contract_error_policy_denied_is_stable() {
    let payload =
        outward(&error(AnalyticsError::policy_denied("read_only", "scratchpad_query"), 3));

    assert_eq!(payload["ok"], Value::Bool(false));
    assert_eq!(payload["error"]["code"], val(r#""POLICY_DENIED""#));
    assert_eq!(payload["error"]["reason"], val(r#""policy_denied""#));
    assert_eq!(payload["error"]["category"], val(r#""policy""#));
    assert_eq!(
        payload["error"]["detail"],
        val(r#""profile=read_only;tool=scratchpad_query""#)
    );
    assert!(payload["error"]["hint"].is_string());
    assert_eq!(payload["meta"]["elapsed_ms"], val("3"));
}

#[test]
fn cursor_query_mismatch_maps_to_invalid_cursor_reason() {
    let payload = outward(&error(AnalyticsError::CursorQueryMismatch, 5));
    assert_eq!(payload["error"]["code"], val(r#""CURSOR_QUERY_MISMATCH""#));
    assert_eq!(payload["error"]["reason"], val(r#""invalid_cursor""#));
    assert_eq!(payload["error"]["category"], val(r#""cursor""#));
}

const ALLOWED: PolicyAuthorityDecision = PolicyAuthorityDecision { allow: true, code: None };

fn denied(code: DecisionCode) -> PolicyAuthorityDecision {
    PolicyAuthorityDecision { allow: false, code: Some(code) }
}

fn must_err<T>(result: Result<T, ScratchpadSqlPolicyError>) -> ScratchpadSqlPolicyError {
    match result {
        Ok(_) => panic!("expected error"),
        Err(err) => err,
    }
}

#[test]
fn sql_safety_rejects_duckdb_extension_and_external_scan() {
    let install_err = validate_scratchpad_sql(
        "INSTALL httpfs",
        65_536,
        &denied(DecisionCode::NotReadOnlyPrefix),
    )
    .expect_err("INSTALL should be rejected");
    assert!(matches!(
        install_err.code,
        ScratchpadSqlPolicyCode::NotReadOnlyPrefix
            | ScratchpadSqlPolicyCode::DuckDbForbiddenKeyword
    ));

    let scan_err =
        validate_scratchpad_sql("SELECT * FROM read_csv_auto('x.csv')", 65_536, &ALLOWED)
            .expect_err("external scan should be rejected");
    assert!(matches!(
        scan_err.code,
        ScratchpadSqlPolicyCode::ForbiddenFunction
            | ScratchpadSqlPolicyCode::DuckDbForbiddenFunction
    ));
}

#[test]
fn allows_read_only_select() {
    assert!(validate_scratchpad_sql("SELECT 1", 1024, &ALLOWED).is_ok());
}

#[test]
fn rejects_duckdb_install_keyword() {
    let err = must_err(validate_scratchpad_sql(
        "INSTALL httpfs",
        1024,
        &denied(DecisionCode::NotReadOnlyPrefix),
    ));
    assert_eq!(err.code, ScratchpadSqlPolicyCode::NotReadOnlyPrefix);
}

#[test]
fn rejects_duckdb_external_scan_function() {
    let err = must_err(validate_scratchpad_sql(
        "SELECT * FROM read_csv_auto('a.csv')",
        1024,
        &ALLOWED,
    ));
    assert_eq!(err.code, ScratchpadSqlPolicyCode::DuckDbForbiddenFunction);
}

#[test]
fn allows_describe_prefix() {
    assert!(validate_scratchpad_sql(
        "DESCRIBE SELECT 1",
        1024,
        &denied(DecisionCode::NotReadOnlyPrefix)
    )
    .is_ok());
}

#[test]
fn allows_forbidden_keyword_inside_literal() {
    assert!(validate_scratchpad_sql("SELECT 'INSTALL httpfs'", 1024, &ALLOWED).is_ok());
}

#[test]
fn rejects_sql_over_size_limit() {
    let err = must_err(validate_scratchpad_sql("SELECT 12345", 4, &ALLOWED));
    assert_eq!(err.code, ScratchpadSqlPolicyCode::SqlTooLarge);
}

#[test]
fn rejects_multiple_statements() {
    let err = must_err(validate_scratchpad_sql(
        "SELECT 1; SELECT 2",
        1024,
        &denied(DecisionCode::MultipleStatements),
    ));
    assert_eq!(err.code, ScratchpadSqlPolicyCode::MultipleStatements);
}

#[test]
fn preserves_canonical_write_error_surface() {
    let err = must_err(validate_scratchpad_sql(
        "INSERT INTO t VALUES (1)",
        1024,
        &denied(DecisionCode::NotReadOnlyPrefix),
    ));
    assert_eq!(err.code, ScratchpadSqlPolicyCode::NotReadOnlyPrefix);
    assert_eq!(err.message, "restricted mode allows only allowlisted SQL prefixes");
}

#[test]
fn duckdb_keywords_are_found_wherever_they_stand() {
    let err = must_err(validate_scratchpad_sql(
        "DESCRIBE SELECT 1 /* x */ ATTACH",
        1024,
        &denied(DecisionCode::NotReadOnlyPrefix),
    ));
    assert_eq!(err.code, ScratchpadSqlPolicyCode::DuckDbForbiddenKeyword);
    assert_eq!(err.message, "scratchpad policy rejected DuckDB extension/file keyword");
    assert!(validate_scratchpad_sql("SELECT 1 -- ATTACH", 1024, &ALLOWED).is_ok());
    let err = must_err(validate_scratchpad_sql("SELECT 1", 0, &ALLOWED));
    assert_eq!(err.code, ScratchpadSqlPolicyCode::ClassifierUnavailable);
    let err = must_err(validate_scratchpad_sql("SELECT 'open", 1024, &ALLOWED));
    assert_eq!(err.code, ScratchpadSqlPolicyCode::UnterminatedToken);
    let err = must_err(validate_scratchpad_sql("SELECT 12345", 4, &ALLOWED));
    assert_eq!(err.message, "sql payload exceeds max size of 4 bytes");
}

#[test]
fn every_problem_has_its_code_and_message() {
    let cases = vec![
        (AnalyticsError::invalid("f", "m"), "INVALID_PARAMS", "invalid_params"),
        (AnalyticsError::invalid_cursor("m"), "INVALID_CURSOR", "invalid_cursor"),
        (AnalyticsError::CursorQueryMismatch, "CURSOR_QUERY_MISMATCH", "invalid_cursor"),
        (AnalyticsError::policy_denied("p", "t"), "POLICY_DENIED", "policy_denied"),
        (
            AnalyticsError::UpstreamJson("m".to_string()),
            "UPSTREAM_RESPONSE_PARSE_ERROR",
            "upstream_response_invalid",
        ),
    ];
    for (err, code, reason) in cases {
        assert_eq!(err.code(), code);
        assert_eq!(err.reason(), reason);
        assert!(!err.message().is_empty());
    }
    assert_eq!(
        AnalyticsError::UpstreamJson("eof".to_string()).message(),
        "failed to parse upstream JSON: eof"
    );
    let api = AnalyticsError::UpstreamApi { status: 403, message: "no".to_string() };
    assert_eq!(api.status_code(), Some(403));
    assert_eq!(api.engine_code().as_deref(), Some("http_403"));
}
