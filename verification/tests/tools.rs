use ga4_mcp::compatibility::summarize_report_compatibility;
use ga4_mcp::cursors::{decode_cursor, resolve_cursor_window, resolve_funnel_report_limit};
use ga4_mcp::dates::parse_iso_date_literal;
use ga4_mcp::duck_values::{
    duck_value_to_json, duckdb_type_to_logical_type, read_duckdb_size, DuckReal, DuckType,
    DuckValue, SizeReading,
};
use ga4_mcp::filters::normalize_optional_filter;
use ga4_mcp::funnel::{contract_success_ga_funnel, FunnelResponseOptions};
use ga4_mcp::ga_client::PropertyId;
use ga4_mcp::ingest::{
    build_ingest_column_mappings, remap_rows_for_ingest, resolve_ingest_page_size,
    DEFAULT_SCRATCHPAD_INGEST_PAGE_SIZE,
};
use ga4_mcp::memory_pressure::{collect_runtime_memory_pressure, Pressure, Sampling};
use ga4_mcp::preview::build_run_report_preview_payload;
use ga4_mcp::query_hashes::{
    run_conversions_report_query_hash, run_funnel_report_query_hash, run_report_query_hash,
};
use ga4_mcp::release_sql::{build_landing_param_shift_sql, build_release_regression_sql};
use ga4_mcp::report_args::{
    AttributionModel, BatchRunReportItemArgs, ConversionSpecArgs, FunnelBreakdownArgs,
    FunnelNextActionArgs, FunnelStepArgs, FunnelVisualizationType, PreviewReportRequestArgs,
    RunConversionsReportArgs, RunFunnelReportArgs, RunReportArgs, TabularOutputMode,
};
use ga4_mcp::report_checks::{
    resolve_scratchpad_list_limit, validate_batch_run_reports_inputs,
    validate_conversions_report_inputs, validate_funnel_report_inputs, validate_pivot_inputs,
    validate_realtime_inputs, validate_report_inputs, MAX_BATCH_REPORT_REQUESTS,
    MAX_FUNNEL_SEGMENTS, MAX_REPORT_LIMIT,
};
use ga4_mcp::scratchpad_query::scratchpad_query_hash;
use ga4_mcp::scratchpad_tools::{
    resolve_evidence_sample_rows, resolve_landing_shift_top_n, scratchpad_table_info_to_json,
    ScratchpadColumnInfo, ScratchpadTableInfo, MAX_EVIDENCE_SAMPLE_ROWS, MAX_LANDING_SHIFT_TOP_N,
};
use ga4_mcp::sql_text::{
    dedupe_column_names, normalize_sql_identifier, supports_wrapped_pagination,
    trim_sql_for_subquery, wrap_query_for_page,
};
use ga4_mcp::tabular::{
    apply_local_window_to_projection, clip_rows, ga_projection_payload_and_meta, payload_by_mode,
    project_ga_tabular_response, project_payload_for_mode, validate_ga_tabular_response_shape,
    GaTabularProjection, TabularResponseOptions,
};
use ga4_mcp::contract;
use ga4_mcp::json::{Json, Number, Object};
use serde_json::Value;

fn inward(value: &Value) -> Json {
    match value {
        Value::Null => Json::Null,
        Value::Bool(b) => Json::Bool(*b),
        Value::Number(n) => Json::Number(match (n.as_u64(), n.as_i64()) {
            (Some(whole), _) => Number::Unsigned(whole),
            (None, Some(whole)) => Number::Negative(whole),
            (None, None) => Number::Real(n.to_string()),
        }),
        Value::String(s) => Json::Text(s.clone()),
        Value::Array(items) => Json::Array(items.iter().map(inward).collect()),
        Value::Object(map) => Json::Object(Object {
            entries: map.iter().map(|(k, v)| (k.clone(), inward(v))).collect(),
        }),
    }
}

fn outward(value: &Json) -> Value {
    match value {
        Json::Null => Value::Null,
        Json::Bool(b) => Value::Bool(*b),
        Json::Number(Number::Unsigned(n)) => Value::from(*n),
        Json::Number(Number::Negative(n)) => Value::from(*n),
        Json::Number(Number::Real(shown)) => val(shown),
        Json::Text(s) => Value::from(s.as_str()),
        Json::Array(items) => Value::Array(items.iter().map(outward).collect()),
        Json::Object(object) => cells(object),
    }
}

fn cells(object: &Object) -> Value {
    Value::Object(object.entries.iter().map(|(k, v)| (k.clone(), outward(v))).collect())
}

fn val(text: &str) -> Value {
    serde_json::from_str(text).expect("the text should be JSON")
}

fn j(text: &str) -> Json {
    inward(&val(text))
}

fn row<const N: usize>(entries: [(String, Json); N]) -> Object {
    Object { entries: entries.into_iter().collect() }
}

#[test]
fn scratchpad_table_info_to_json_includes_schema_summary() {
    let table = ScratchpadTableInfo {
        schema: "main".to_string(),
        name: "events".to_string(),
        table_type: "BASE TABLE".to_string(),
        column_count: 3,
        columns: vec![
            ScratchpadColumnInfo {
                name: "event_name".to_string(),
                logical_type: "string".to_string(),
                nullable: true,
            },
            ScratchpadColumnInfo {
                name: "event_count".to_string(),
                logical_type: "integer".to_string(),
                nullable: false,
            },
        ],
        columns_truncated: true,
    };

    let payload = outward(&scratchpad_table_info_to_json(&table));
    assert_eq!(payload["schema"], val(r#""main""#));
    assert_eq!(payload["name"], val(r#""events""#));
    assert_eq!(payload["table_type"], val(r#""BASE TABLE""#));
    assert_eq!(payload["schema_summary"]["column_count"], val(r#"3"#));
    assert_eq!(payload["schema_summary"]["columns_returned"], val(r#"2"#));
    assert_eq!(payload["schema_summary"]["columns_truncated"], val(r#"true"#));
    assert_eq!(
        payload["schema_summary"]["columns"][0]["name"],
        val(r#""event_name""#)
    );
    assert_eq!(
        payload["schema_summary"]["columns"][1]["logical_type"],
        val(r#""integer""#)
    );
    assert_eq!(
        payload["schema_summary"]["columns"][1]["nullable"],
        val(r#"false"#)
    );
}

#[test]
fn validate_report_requires_non_empty_dimensions() {
    let err =
        validate_report_inputs(&[], &["activeUsers".to_string()], &[j(r#"{}"#)], None, None)
            .expect_err("empty dimensions must fail");
    assert_eq!(err.code(), "INVALID_PARAMS");
}

#[test]
fn validate_report_rejects_empty_date_ranges() {
    let err = validate_report_inputs(
        &["country".to_string()],
        &["activeUsers".to_string()],
        &[],
        None,
        None,
    )
    .expect_err("empty date ranges must fail");
    assert_eq!(err.code(), "INVALID_PARAMS");
}

#[test]
fn validate_report_rejects_non_object_date_range_entries() {
    let err = validate_report_inputs(
        &["country".to_string()],
        &["activeUsers".to_string()],
        &[j(r#""2026-01-01/2026-01-31""#)],
        None,
        None,
    )
    .expect_err("date range entries must be objects");
    assert_eq!(err.code(), "INVALID_PARAMS");
    assert!(err.message().contains("date_ranges[0] must be an object"));
}

#[test]
fn validate_report_rejects_date_range_entries_missing_end_date() {
    let err = validate_report_inputs(
        &["country".to_string()],
        &["activeUsers".to_string()],
        &[j(r#"{"start_date": "2026-01-01"}"#)],
        None,
        None,
    )
    .expect_err("date range entries must include start and end fields");
    assert_eq!(err.code(), "INVALID_PARAMS");
    assert!(
        err.message().contains(
            "must include non-empty start_date/startDate and end_date/endDate strings"
        )
    );
}

#[test]
fn validate_realtime_accepts_valid_input() {
    let result = validate_realtime_inputs(
        &["country".to_string()],
        &["activeUsers".to_string()],
        Some(100),
        Some(0),
    );
    assert!(result.is_ok());
}

fn valid_conversions_report_args() -> RunConversionsReportArgs {
    RunConversionsReportArgs {
        property_id: PropertyId::Number(1234),
        date_ranges: vec![j(r#"{"start_date": "2026-04-01", "end_date": "2026-04-30"}"#)],
        dimensions: vec!["campaignName".to_string()],
        metrics: vec!["allConversionsByConversionDate".to_string()],
        conversion_spec: ConversionSpecArgs {
            conversion_actions: vec!["conversionActions/1234".to_string()],
            attribution_model: Some(AttributionModel::DataDriven),
        },
        dimension_filter: None,
        metric_filter: None,
        order_bys: None,
        limit: Some(100),
        offset: Some(0),
        currency_code: None,
        return_property_quota: false,
        max_rows: Some(50),
        cursor: None,
        output_mode: None,
        summary_only: false,
        max_cell_chars: None,
    }
}

#[test]
fn validate_conversions_report_accepts_documented_fields() {
    assert!(validate_conversions_report_inputs(&valid_conversions_report_args()).is_ok());
}

#[test]
fn validate_conversions_report_rejects_unsupported_dimension() {
    let mut args = valid_conversions_report_args();
    args.dimensions = vec!["city".to_string()];
    let err = validate_conversions_report_inputs(&args)
        .expect_err("unsupported conversion dimension must fail");
    assert_eq!(err.code(), "INVALID_PARAMS");
    assert!(err.message().contains("campaignName"));
}

#[test]
fn validate_conversions_report_rejects_malformed_action_resource() {
    let mut args = valid_conversions_report_args();
    args.conversion_spec.conversion_actions = vec!["purchase".to_string()];
    let err = validate_conversions_report_inputs(&args)
        .expect_err("malformed conversion action must fail");
    assert_eq!(err.code(), "INVALID_PARAMS");
    assert!(err.message().contains("conversionActions/<numeric-id>"));
}

#[test]
fn conversions_query_hash_matches_outbound_json_normalization_and_trimmed_currency() {
    let mut snake_case = valid_conversions_report_args();
    snake_case.dimensions = vec![" campaignName ".to_string()];
    snake_case.metrics = vec![" totalRevenueByConversionDate ".to_string()];
    snake_case.dimension_filter = Some(j(r#"{"and_group": {"expressions": [{"filter": {"field_name": "campaignName"}}]}}"#));
    snake_case.order_bys = Some(vec![j(r#"{"dimension": {"dimension_name": "campaignName"}, "desc": true}"#)]);
    snake_case.currency_code = Some(" USD ".to_string());

    let mut camel_case = valid_conversions_report_args();
    camel_case.dimensions = vec!["campaignName".to_string()];
    camel_case.metrics = vec!["totalRevenueByConversionDate".to_string()];
    camel_case.date_ranges = vec![j(r#"{"startDate": "2026-04-01", "endDate": "2026-04-30"}"#)];
    camel_case.dimension_filter = Some(j(r#"{"andGroup": {"expressions": [{"filter": {"fieldName": "campaignName"}}]}}"#));
    camel_case.order_bys = Some(vec![j(r#"{"dimension": {"dimensionName": "campaignName"}, "desc": true}"#)]);
    camel_case.currency_code = Some("USD".to_string());

    assert_eq!(
        run_conversions_report_query_hash(&snake_case).expect("snake hash"),
        run_conversions_report_query_hash(&camel_case).expect("camel hash")
    );
}

fn valid_funnel_report_args() -> RunFunnelReportArgs {
    RunFunnelReportArgs {
        property_id: PropertyId::Number(1234),
        funnel_steps: vec![
            FunnelStepArgs {
                name: Some("Read".to_string()),
                event: Some("page_view".to_string()),
                filter_expression: None,
                is_directly_followed_by: None,
                within_duration_from_prior_step: None,
            },
            FunnelStepArgs {
                name: Some("Subscribe".to_string()),
                event: Some("sign_up".to_string()),
                filter_expression: None,
                is_directly_followed_by: Some(false),
                within_duration_from_prior_step: Some("3600s".to_string()),
            },
        ],
        is_open_funnel: false,
        date_ranges: vec![j(r#"{"start_date": "7daysAgo", "end_date": "yesterday"}"#)],
        funnel_breakdown: Some(FunnelBreakdownArgs {
            breakdown_dimension: "deviceCategory".to_string(),
            limit: Some(5),
        }),
        funnel_next_action: Some(FunnelNextActionArgs {
            next_action_dimension: "eventName".to_string(),
            limit: Some(5),
        }),
        funnel_visualization_type: Some(FunnelVisualizationType::StandardFunnel),
        segments: None,
        dimension_filter: None,
        limit: Some(100),
        return_property_quota: false,
        max_rows: Some(50),
        output_mode: None,
        summary_only: false,
        max_cell_chars: None,
    }
}

#[test]
fn validate_funnel_report_accepts_event_shorthand() {
    assert!(validate_funnel_report_inputs(&valid_funnel_report_args()).is_ok());
}

#[test]
fn funnel_query_hash_matches_outbound_json_normalization() {
    let mut snake_case = valid_funnel_report_args();
    snake_case.segments = Some(vec![j(r#"{"segment_filter": {"and_group": {"expressions": [{"filter": {"field_name": "country"}}]}}}"#)]);
    snake_case.dimension_filter = Some(j(r#"{"filter": {"field_name": "deviceCategory"}}"#));

    let mut camel_case = valid_funnel_report_args();
    camel_case.date_ranges = vec![j(r#"{"startDate": "7daysAgo", "endDate": "yesterday"}"#)];
    camel_case.segments = Some(vec![j(r#"{"segmentFilter": {"andGroup": {"expressions": [{"filter": {"fieldName": "country"}}]}}}"#)]);
    camel_case.dimension_filter = Some(j(r#"{"filter": {"fieldName": "deviceCategory"}}"#));

    assert_eq!(
        run_funnel_report_query_hash(&snake_case).expect("snake hash"),
        run_funnel_report_query_hash(&camel_case).expect("camel hash")
    );
}

#[test]
fn funnel_query_hash_matches_outbound_step_expansion_and_default_name() {
    let mut shorthand = valid_funnel_report_args();
    shorthand.funnel_steps[0].name = None;

    let mut expanded = valid_funnel_report_args();
    expanded.funnel_steps[0].name = Some("Step 1".to_string());
    expanded.funnel_steps[0].event = None;
    expanded.funnel_steps[0].filter_expression = Some(j(r#"{"funnelEventFilter": {"eventName": "page_view"}}"#));

    assert_eq!(
        run_funnel_report_query_hash(&shorthand).expect("shorthand hash"),
        run_funnel_report_query_hash(&expanded).expect("expanded hash")
    );
}

#[test]
fn validate_funnel_report_rejects_conflicting_step_selectors() {
    let mut args = valid_funnel_report_args();
    args.funnel_steps[0].filter_expression = Some(j(r#"{"funnel_event_filter": {"event_name": "page_view"}}"#));
    let err = validate_funnel_report_inputs(&args)
        .expect_err("event and filter_expression together must fail");
    assert_eq!(err.code(), "INVALID_PARAMS");
    assert!(err.message().contains("exactly one"));
}

#[test]
fn validate_funnel_report_rejects_direct_follow_on_first_step() {
    let mut args = valid_funnel_report_args();
    args.funnel_steps[0].is_directly_followed_by = Some(true);
    let err = validate_funnel_report_inputs(&args)
        .expect_err("the first funnel step has no prior step to follow directly");
    assert_eq!(err.code(), "INVALID_PARAMS");
    assert!(err.message().contains("no prior step"));
}

#[test]
fn validate_funnel_report_rejects_malformed_step_duration() {
    let mut args = valid_funnel_report_args();
    args.funnel_steps[1].within_duration_from_prior_step = Some("one hour".to_string());
    let err = validate_funnel_report_inputs(&args)
        .expect_err("step duration must use protobuf duration syntax");
    assert_eq!(err.code(), "INVALID_PARAMS");
    assert!(err.message().contains("protobuf duration"));
}

#[test]
fn validate_funnel_report_rejects_more_than_four_segments() {
    let mut args = valid_funnel_report_args();
    args.segments = Some(vec![j(r#"{}"#); MAX_FUNNEL_SEGMENTS + 1]);
    let err =
        validate_funnel_report_inputs(&args).expect_err("too many funnel segments must fail");
    assert_eq!(err.code(), "INVALID_PARAMS");
    assert!(err.message().contains("at most 4"));
}

#[test]
fn validate_funnel_report_rejects_invalid_nested_limits() {
    let mut args = valid_funnel_report_args();
    args.funnel_breakdown.as_mut().expect("breakdown").limit = Some(16);
    let err = validate_funnel_report_inputs(&args)
        .expect_err("breakdown limit above Google maximum must fail");
    assert_eq!(err.code(), "INVALID_PARAMS");
    assert!(err.message().contains("between 1 and 15"));
}

#[test]
fn validate_funnel_report_rejects_edge_whitespace_but_preserves_internal_spaces() {
    let mut event_args = valid_funnel_report_args();
    event_args.funnel_steps[0].event = Some(" page view".to_string());
    let err = validate_funnel_report_inputs(&event_args)
        .expect_err("event shorthand with leading whitespace must fail");
    assert!(
        err.message()
            .contains("event must not have leading or trailing whitespace")
    );

    let mut breakdown_args = valid_funnel_report_args();
    breakdown_args
        .funnel_breakdown
        .as_mut()
        .expect("breakdown")
        .breakdown_dimension = " device category".to_string();
    let err = validate_funnel_report_inputs(&breakdown_args)
        .expect_err("breakdown dimension with leading whitespace must fail");
    assert!(
        err.message()
            .contains("breakdown_dimension must not have leading or trailing whitespace")
    );

    let mut next_action_args = valid_funnel_report_args();
    next_action_args
        .funnel_next_action
        .as_mut()
        .expect("next action")
        .next_action_dimension = "eventName ".to_string();
    let err = validate_funnel_report_inputs(&next_action_args)
        .expect_err("next-action dimension with trailing whitespace must fail");
    assert!(
        err.message()
            .contains("next_action_dimension must not have leading or trailing whitespace")
    );

    let mut internal_space_args = valid_funnel_report_args();
    internal_space_args.funnel_steps[0].event = Some("page view".to_string());
    internal_space_args
        .funnel_breakdown
        .as_mut()
        .expect("breakdown")
        .breakdown_dimension = "device category".to_string();
    internal_space_args
        .funnel_next_action
        .as_mut()
        .expect("next action")
        .next_action_dimension = "event name".to_string();
    assert!(validate_funnel_report_inputs(&internal_space_args).is_ok());
}

#[test]
fn resolve_funnel_report_limit_applies_response_cap() {
    assert_eq!(resolve_funnel_report_limit(None, None), 200);
    assert_eq!(resolve_funnel_report_limit(Some(50), Some(100)), 50);
    assert_eq!(resolve_funnel_report_limit(Some(500), Some(25)), 25);
}

#[test]
fn funnel_contract_projects_both_subreports_without_total_overclaim() {
    let response = j(r#"{"funnelTable": {"dimensionHeaders": [{"name": "funnelStepName"}], "metricHeaders": [{"name": "activeUsers", "type": "TYPE_INTEGER"}], "rows": [{"dimensionValues": [{"value": "1. Read"}], "metricValues": [{"value": "20"}]}, {"dimensionValues": [{"value": "2. Subscribe"}], "metricValues": [{"value": "5"}]}], "metadata": {"samplingMetadatas": []}}, "funnelVisualization": {"dimensionHeaders": [{"name": "funnelStepName"}], "metricHeaders": [{"name": "activeUsers", "type": "TYPE_INTEGER"}], "rows": [{"dimensionValues": [{"value": "1. Read"}], "metricValues": [{"value": "20"}]}], "metadata": {"samplingMetadatas": []}}, "propertyQuota": {"tokensPerDay": {"remaining": 999}}, "kind": "analyticsData#runFunnelReport"}"#);
    let result = contract_success_ga_funnel(
            &response,
        7,
        FunnelResponseOptions {
            query_hash: "abcd".to_string(),
            output_mode: contract::OutputMode::Rows,
            summary_only: false,
            max_cell_chars: None,
            effective_limit: 2,
            requested_limit: Some(2),
        },
    );
    let payload = outward(&result);

    assert_eq!(payload["ok"], val(r#"true"#));
    assert_eq!(
        payload["data"]["funnel_table"][0]["funnelStepName"],
        val(r#""1. Read""#)
    );
    assert_eq!(
        payload["meta"]["subreports"]["funnel_table"]["row_count_returned"],
        val(r#"2"#)
    );
    assert_eq!(
        payload["meta"]["subreports"]["funnel_table"]["row_count_total_known"],
        val(r#"false"#)
    );
    assert_eq!(
        payload["meta"]["subreports"]["funnel_table"]["truncated"],
        val(r#"true"#)
    );
    assert_eq!(
        payload["meta"]["subreports"]["funnel_visualization"]["truncated"],
        val(r#"false"#)
    );
    assert!(
        payload["meta"]["subreports"]["funnel_table"]
            .get("row_count_total")
            .is_none()
    );
}

#[test]
fn funnel_contract_rejects_missing_subreports() {
    let result = contract_success_ga_funnel(
            &j(r#"{"funnelTable": {"dimensionHeaders": [], "metricHeaders": [], "rows": []}}"#),
        7,
        FunnelResponseOptions {
            query_hash: "abcd".to_string(),
            output_mode: contract::OutputMode::Rows,
            summary_only: false,
            max_cell_chars: None,
            effective_limit: 10,
            requested_limit: None,
        },
    );
    let payload = outward(&result);
    assert_eq!(payload["ok"], val(r#"false"#));
    assert!(
        payload["error"]["message"]
            .as_str()
            .is_some_and(|message| message.contains("funnelVisualization"))
    );
}

#[test]
fn funnel_contract_accepts_omitted_repeated_fields_as_empty() {
    let result = contract_success_ga_funnel(
            &j(r#"{"funnelTable": {}, "funnelVisualization": {}}"#),
        7,
        FunnelResponseOptions {
            query_hash: "abcd".to_string(),
            output_mode: contract::OutputMode::Rows,
            summary_only: false,
            max_cell_chars: None,
            effective_limit: 10,
            requested_limit: None,
        },
    );
    let payload = outward(&result);
    assert_eq!(payload["ok"], val(r#"true"#));
    assert_eq!(payload["data"]["funnel_table"], val(r#"[]"#));
    assert_eq!(payload["data"]["funnel_visualization"], val(r#"[]"#));
}

#[test]
fn conversions_contract_validates_tabular_response_shapes_fail_closed() {
    assert!(validate_ga_tabular_response_shape(&j(r#"{}"#), "run_conversions_report").is_ok());

    let malformed_responses = vec![
        j(r#"{"dimensionHeaders": null}"#),
        j(r#"{"metricHeaders": {}}"#),
        j(r#"{"rows": "not-an-array"}"#),
        j(r#"{"dimensionHeaders": [null]}"#),
        j(r#"{"metricHeaders": ["not-an-object"]}"#),
        j(r#"{"rows": [null]}"#),
        j(r#"{"rows": [{"dimensionValues": {}}]}"#),
        j(r#"{"rows": [{"metricValues": [null]}]}"#),
    ];

    for response in malformed_responses {
        let err = validate_ga_tabular_response_shape(&response, "run_conversions_report")
            .expect_err("malformed conversion response shape must fail closed");
        assert!(err.message().contains("Google run_conversions_report"));
    }
}

#[test]
fn validate_pivot_requires_pivots() {
    let err = validate_pivot_inputs(
        &["country".to_string()],
        &["activeUsers".to_string()],
        &[j(r#"{"start_date": "2026-01-01", "end_date": "2026-01-31"}"#)],
        &[],
    )
    .expect_err("empty pivots must fail");
    assert_eq!(err.code(), "INVALID_PARAMS");
}

#[test]
fn validate_pivot_requires_pivot_fields_in_dimensions() {
    let err = validate_pivot_inputs(
        &["country".to_string()],
        &["activeUsers".to_string()],
        &[j(r#"{"start_date": "2026-01-01", "end_date": "2026-01-31"}"#)],
        &[j(r#"{"field_names": ["city"]}"#)],
    )
    .expect_err("pivot fields outside dimensions must fail");
    assert_eq!(err.code(), "INVALID_PARAMS");
}

#[test]
fn apply_local_window_to_projection_updates_row_counts() {
    let projection = GaTabularProjection {
        rows: vec![
            row([("country".to_string(), j(r#""US""#))]),
            row([("country".to_string(), j(r#""AU""#))]),
            row([("country".to_string(), j(r#""DE""#))]),
        ],
        row_count_total: 50,
        columns: vec![contract::ColumnMeta::new("country")],
        ga_meta: j(r#"{}"#),
    };

    let windowed = apply_local_window_to_projection(projection, 1, 1, "run_pivot_report");
    assert_eq!(windowed.rows.len(), 1);
    assert_eq!(cells(&windowed.rows[0])["country"], val(r#""AU""#));
    assert_eq!(windowed.row_count_total, 3);
    assert_eq!(
        outward(&windowed.ga_meta)["pagination_mode"],
        val(r#""run_pivot_report""#)
    );
    assert_eq!(outward(&windowed.ga_meta)["available_row_count"], val(r#"3"#));
    assert_eq!(outward(&windowed.ga_meta)["upstream_row_count_total"], val(r#"50"#));
}

#[test]
fn project_ga_tabular_response_builds_rows_and_meta() {
    let response = j(r#"{"dimensionHeaders": [{"name": "country"}], "metricHeaders": [{"name": "activeUsers", "type": "TYPE_INTEGER"}], "rows": [{"dimensionValues": [{"value": "US"}], "metricValues": [{"value": "12"}]}, {"dimensionValues": [{"value": "AU"}], "metricValues": [{"value": "8"}]}], "rowCount": 5, "kind": "analyticsData#runReport"}"#);

    let projection = project_ga_tabular_response(&response, "run_report");
    let (payload, meta) =
        project_payload_for_mode(&projection, contract::OutputMode::Rows, false, None);
    let payload = outward(&payload);

    let rows = payload.as_array().expect("rows array expected");
    assert_eq!(rows.len(), 2);
    assert_eq!(rows[0]["country"], val(r#""US""#));
    assert_eq!(rows[0]["activeUsers"], val(r#""12""#));
    assert_eq!(meta.row_count_total, 5);
    assert_eq!(meta.row_count_returned, 2);
    assert!(meta.truncated);
    assert_eq!(meta.output_mode, contract::OutputMode::Rows);
    assert_eq!(meta.columns.len(), 2);
}

#[test]
fn project_ga_tabular_response_falls_back_when_row_count_missing() {
    let response = j(r#"{"rows": [{"dimensionValues": [], "metricValues": []}]}"#);

    let projection = project_ga_tabular_response(&response, "run_realtime_report");
    let (payload, meta) =
        project_payload_for_mode(&projection, contract::OutputMode::Rows, false, None);
    let payload = outward(&payload);
    assert_eq!(payload.as_array().map(Vec::len), Some(1));
    assert_eq!(meta.row_count_total, 1);
    assert_eq!(meta.row_count_returned, 1);
    assert!(!meta.truncated);
}

#[test]
fn project_ga_tabular_response_supports_access_report_headers() {
    let response = j(r#"{"dimensionHeaders": [{"dimensionName": "userEmail"}], "metricHeaders": [{"metricName": "accessCount"}], "rows": [{"dimensionValues": [{"value": "analyst@example.com"}], "metricValues": [{"value": "5"}]}], "rowCount": 1, "quota": {"tokensPerDay": {"consumed": 1, "remaining": 9}}}"#);

    let projection = project_ga_tabular_response(&response, "run_property_access_report");
    let (payload, meta) =
        project_payload_for_mode(&projection, contract::OutputMode::Rows, false, None);
    let payload = outward(&payload);

    let rows = payload.as_array().expect("rows expected");
    assert_eq!(rows.len(), 1);
    assert_eq!(rows[0]["userEmail"], val(r#""analyst@example.com""#));
    assert_eq!(rows[0]["accessCount"], val(r#""5""#));
    assert_eq!(meta.columns[0].name, "userEmail");
    assert_eq!(meta.columns[1].name, "accessCount");
    assert_eq!(
        outward(&projection.ga_meta)["quota"]["tokensPerDay"]["remaining"],
        val(r#"9"#)
    );
}

#[test]
fn decode_cursor_rejects_invalid_shape() {
    let err = decode_cursor("bad-token").expect_err("invalid cursor should fail");
    assert_eq!(err.code(), "INVALID_CURSOR");
    assert_eq!(err.reason(), "invalid_cursor");
}

#[test]
fn resolve_cursor_window_rejects_unreasonably_high_decoded_offset() {
    let raw_cursor = format!(
        "v1:deadbeef:{}",
        MAX_REPORT_LIMIT.saturating_mul(10).saturating_add(1)
    );
    let err = resolve_cursor_window("deadbeef", Some(&raw_cursor), None, Some(100), None)
        .expect_err("decoded cursor offset above the direct offset cap must fail");
    assert_eq!(err.code(), "INVALID_PARAMS");
    assert!(err.message().contains("unreasonably high"));
}

#[test]
fn ga_projection_does_not_repeat_cursor_for_empty_or_out_of_range_pages() {
    let empty_projection = GaTabularProjection {
        rows: Vec::new(),
        row_count_total: 5,
        columns: vec![contract::ColumnMeta::new("country")],
        ga_meta: j(r#"{}"#),
    };
    let (_, empty_meta) = ga_projection_payload_and_meta(
        empty_projection,
        TabularResponseOptions {
            query_hash: "abcd".to_string(),
            output_mode: contract::OutputMode::Rows,
            summary_only: false,
            max_cell_chars: None,
            cursor_offset: 2,
        },
    );
    assert!(!matches!(
        empty_meta.get("next_cursor"),
        Some(Json::Text(_))
    ));

    let out_of_range_projection = GaTabularProjection {
        rows: vec![row([("country".to_string(), j(r#""US""#))])],
        row_count_total: 1,
        columns: vec![contract::ColumnMeta::new("country")],
        ga_meta: j(r#"{}"#),
    };
    let (_, out_of_range_meta) = ga_projection_payload_and_meta(
        out_of_range_projection,
        TabularResponseOptions {
            query_hash: "abcd".to_string(),
            output_mode: contract::OutputMode::Rows,
            summary_only: false,
            max_cell_chars: None,
            cursor_offset: 1,
        },
    );
    assert!(!matches!(
        out_of_range_meta.get("next_cursor"),
        Some(Json::Text(_))
    ));
}

#[test]
fn resolve_cursor_window_rejects_hash_mismatch() {
    let err = resolve_cursor_window("deadbeef", Some("v1:feedface:10"), None, Some(100), None)
        .expect_err("mismatch should fail");
    assert_eq!(err.code(), "CURSOR_QUERY_MISMATCH");
    assert_eq!(err.reason(), "invalid_cursor");
}

#[test]
fn normalize_optional_filter_accepts_json_string() {
    let parsed = normalize_optional_filter(
        Some(j(r#""{\"filter\":{\"field_name\":\"eventName\"}}""#)),
        "dimension_filter",
        true,
    )
    .expect("json string should parse");
    assert_eq!(
        outward(&parsed.expect("filter should exist"))["filter"]["field_name"],
        val(r#""eventName""#)
    );
}

#[test]
fn normalize_optional_filter_accepts_expression_shorthand() {
    let parsed = normalize_optional_filter(
        Some(j(r#""eventName==signup_complete""#)),
        "dimension_filter",
        true,
    )
    .expect("expression should parse")
    .expect("filter should be present");
    assert_eq!(outward(&parsed)["filter"]["field_name"], val(r#""eventName""#));
    assert_eq!(
        outward(&parsed)["filter"]["string_filter"]["value"],
        val(r#""signup_complete""#)
    );
}

#[test]
fn normalize_optional_filter_supports_quoted_whitespace_values() {
    let parsed = normalize_optional_filter(
        Some(j(r#""sessionDefaultChannelGroup==\"Paid Other\"""#)),
        "dimension_filter",
        true,
    )
    .expect("expression should parse")
    .expect("filter should be present");
    assert_eq!(
        outward(&parsed)["filter"]["string_filter"]["value"],
        val(r#""Paid Other""#)
    );
}

#[test]
fn normalize_optional_filter_rejects_unquoted_whitespace_values() {
    let err = normalize_optional_filter(
        Some(j(r#""sessionDefaultChannelGroup==Paid Other""#)),
        "dimension_filter",
        true,
    )
    .expect_err("unquoted whitespace values should fail");
    assert!(err.contains("should be quoted"));
}

#[test]
fn normalize_optional_filter_rejects_metric_expression() {
    let err = normalize_optional_filter(Some(j(r#""activeUsers>100""#)), "metric_filter", false)
        .expect_err("metric filter shorthand should be rejected");
    assert!(err.contains("JSON object"));
}

#[test]
fn summarize_report_compatibility_flags_incompatibilities() {
    let payload = j(r#"{"dimensionCompatibilities": [{"dimensionMetadata": {"apiName": "sessionSource"}, "compatibility": "COMPATIBLE"}, {"dimensionMetadata": {"apiName": "landingPagePlusQueryString"}, "compatibility": "INCOMPATIBLE"}], "metricCompatibilities": [{"metricMetadata": {"apiName": "sessions"}, "compatibility": "COMPATIBLE"}]}"#);
    let summary = outward(&summarize_report_compatibility(&payload));
    assert_eq!(summary["is_fully_compatible"], val(r#"false"#));
    assert_eq!(
        summary["incompatible_dimensions"],
        val(r#"["landingPagePlusQueryString"]"#)
    );
    assert_eq!(summary["incompatible_metrics"], val(r#"[]"#));
    assert_eq!(summary["reason_codes"], val(r#"["INCOMPATIBLE_DIMENSIONS"]"#));
}

#[test]
fn summarize_report_compatibility_reports_compatible_reason_code() {
    let payload = j(r#"{"dimensionCompatibilities": [{"dimensionMetadata": {"apiName": "sessionSource"}, "compatibility": "COMPATIBLE"}], "metricCompatibilities": [{"metricMetadata": {"apiName": "sessions"}, "compatibility": "COMPATIBLE"}]}"#);
    let summary = outward(&summarize_report_compatibility(&payload));
    assert_eq!(summary["is_fully_compatible"], val(r#"true"#));
    assert_eq!(summary["reason_codes"], val(r#"["COMPATIBLE"]"#));
}

#[test]
fn resolve_ingest_page_size_defaults_to_max_page() {
    assert_eq!(
        resolve_ingest_page_size(None, None),
        DEFAULT_SCRATCHPAD_INGEST_PAGE_SIZE
    );
    assert_eq!(resolve_ingest_page_size(Some(5_000), Some(500)), 500);
}

#[test]
fn parse_iso_date_literal_rejects_invalid_day() {
    let err = parse_iso_date_literal("2026-02-30").expect_err("invalid day should fail");
    assert_eq!(err.code(), "INVALID_PARAMS");
}

#[test]
fn build_release_regression_sql_embeds_core_fields() {
    let sql = build_release_regression_sql(
        "events_daily",
        "2026-02-24",
        "anchor_event",
        "compare_event",
        "date",
        "event_name",
        Some("event_count"),
        7,
        1,
        7,
    );
    assert!(sql.contains("TRY_STRPTIME"));
    assert!(sql.contains("likely_instrumentation_break"));
    assert!(sql.contains("anchor_event"));
    assert!(sql.contains("STDDEV_SAMP"));
    assert!(sql.contains("ratio_mean_delta_z"));
}

#[test]
fn the_window_after_a_release_follows_the_transition() {
    let sql = build_release_regression_sql(
        "events_daily", "2026-02-24", "a", "b", "date", "event_name", None, 7, 2, 5,
    );
    assert!(sql.contains(
        "AND event_date < DATE '2026-02-24' + INTERVAL '7 day' THEN 'post'"
    ));
    let windowed = sql.split("windowed AS (").nth(1).expect("the windows");
    let columns = windowed.split("END AS period,").nth(1).expect("the columns");
    assert!(columns.trim_start().starts_with("event_date,"));
}

#[test]
fn build_landing_param_shift_sql_embeds_core_fields() {
    let sql = build_landing_param_shift_sql(
        "landing_events",
        "2026-02-24",
        "date_parsed",
        "landingpageplusquerystring",
        Some("defaultchannelgroup"),
        Some("sessionsourcemedium"),
        7,
        1,
        7,
        50,
    );
    assert!(!sql.contains("scratchpad_landing_param_shift_report"));
    assert!(sql.contains("new_in_post"));
    assert!(sql.contains("rank_by_abs_delta"));
    assert!(sql.contains("landingpageplusquerystring"));
    assert!(sql.contains("md5(param_key || '=' || param_value)"));
}

#[test]
fn resolve_landing_shift_top_n_rejects_out_of_range_values() {
    let err = resolve_landing_shift_top_n(Some(0)).expect_err("zero top_n must fail");
    assert_eq!(err.code(), "INVALID_PARAMS");
    let err = resolve_landing_shift_top_n(Some(MAX_LANDING_SHIFT_TOP_N + 1))
        .expect_err("top_n over max must fail");
    assert_eq!(err.code(), "INVALID_PARAMS");
}

#[test]
fn resolve_evidence_sample_rows_rejects_out_of_range_values() {
    let err = resolve_evidence_sample_rows(Some(0)).expect_err("zero sample rows must fail");
    assert_eq!(err.code(), "INVALID_PARAMS");
    let err = resolve_evidence_sample_rows(Some(MAX_EVIDENCE_SAMPLE_ROWS + 1))
        .expect_err("sample rows over max must fail");
    assert_eq!(err.code(), "INVALID_PARAMS");
}

#[test]
fn payload_by_mode_scalar_returns_first_column() {
    let rows = vec![row([("a".to_string(), j(r#""x""#))])];
    let columns = vec![contract::ColumnMeta::new("a")];
    let payload = outward(&payload_by_mode(&rows, &columns, contract::OutputMode::Scalar));
    assert_eq!(payload, val(r#""x""#));
}

#[test]
fn clip_rows_applies_max_cell_chars() {
    let rows = vec![row([(
        "message".to_string(),
        j(r#""abcdefghijklmnopqrstuvwxyz""#),
    )])];
    let (clipped, count) = clip_rows(&rows, 5);
    assert_eq!(count, 1);
    assert_eq!(cells(&clipped[0])["message"], val(r#""abcde...""#));
}

#[test]
fn resolve_scratchpad_list_limit_uses_default() {
    assert_eq!(
        resolve_scratchpad_list_limit(None).expect("default should resolve"),
        50
    );
}

#[test]
fn resolve_scratchpad_list_limit_rejects_zero() {
    let err = resolve_scratchpad_list_limit(Some(0)).expect_err("zero limit should fail");
    assert_eq!(err.code(), "INVALID_PARAMS");
}

#[test]
fn normalize_sql_identifier_is_deterministic() {
    let normalized = normalize_sql_identifier("Event Name (GA4)", "table");
    assert_eq!(normalized, "event_name_ga4");
}

#[test]
fn build_ingest_column_mappings_deduplicates_target_names() {
    let columns = vec![
        contract::ColumnMeta::new("Event Name").with_logical_type("string"),
        contract::ColumnMeta::new("Event-Name").with_logical_type("string"),
    ];
    let mappings = build_ingest_column_mappings(&columns);
    assert_eq!(mappings[0].target_name, "event_name");
    assert_eq!(mappings[1].target_name, "event_name_2");
}

#[test]
fn build_ingest_column_mappings_adds_temporal_parsed_columns() {
    let columns = vec![
        contract::ColumnMeta::new("date").with_logical_type("string"),
        contract::ColumnMeta::new("dateHour").with_logical_type("string"),
    ];
    let mappings = build_ingest_column_mappings(&columns);
    assert_eq!(mappings.len(), 4);
    assert_eq!(mappings[0].target_name, "date");
    assert_eq!(mappings[1].target_name, "date_parsed");
    assert_eq!(mappings[1].logical_type, "date");
    assert_eq!(mappings[2].target_name, "datehour");
    assert_eq!(mappings[3].target_name, "datehour_parsed");
    assert_eq!(mappings[3].logical_type, "timestamp");
}

#[test]
fn remap_rows_for_ingest_populates_temporal_parsed_columns() {
    let columns = vec![
        contract::ColumnMeta::new("date").with_logical_type("string"),
        contract::ColumnMeta::new("dateHour").with_logical_type("string"),
    ];
    let mappings = build_ingest_column_mappings(&columns);
    let rows = vec![row([
        ("date".to_string(), j(r#""20260211""#)),
        ("dateHour".to_string(), j(r#""2026021121""#)),
    ])];

    let remapped = remap_rows_for_ingest(&rows, &mappings);
    assert_eq!(remapped.len(), 1);
    assert_eq!(cells(&remapped[0])["date"], val(r#""20260211""#));
    assert_eq!(cells(&remapped[0])["date_parsed"], val(r#""2026-02-11""#));
    assert_eq!(cells(&remapped[0])["datehour"], val(r#""2026021121""#));
    assert_eq!(cells(&remapped[0])["datehour_parsed"], val(r#""2026-02-11 21:00:00""#));
}

#[test]
fn remap_rows_for_ingest_nulls_malformed_temporal_values() {
    let columns = vec![
        contract::ColumnMeta::new("date").with_logical_type("string"),
        contract::ColumnMeta::new("dateHour").with_logical_type("string"),
    ];
    let mappings = build_ingest_column_mappings(&columns);
    let rows = vec![row([
        ("date".to_string(), j(r#""20260230""#)),
        ("dateHour".to_string(), j(r#""2026021199""#)),
    ])];

    let remapped = remap_rows_for_ingest(&rows, &mappings);
    assert_eq!(remapped.len(), 1);
    assert_eq!(cells(&remapped[0])["date"], val(r#""20260230""#));
    assert_eq!(cells(&remapped[0])["date_parsed"], Value::Null);
    assert_eq!(cells(&remapped[0])["datehour"], val(r#""2026021199""#));
    assert_eq!(cells(&remapped[0])["datehour_parsed"], Value::Null);
}

#[test]
fn scratchpad_query_hash_binds_session_and_sql() {
    let base = scratchpad_query_hash("scratchpad_query", "s1", "SELECT 1")
        .expect("hash should succeed");
    let with_other_tool = scratchpad_query_hash("scratchpad_summarize_table", "s1", "SELECT 1")
        .expect("hash should succeed");
    let with_other_session = scratchpad_query_hash("scratchpad_query", "s2", "SELECT 1")
        .expect("hash should succeed");
    let with_other_sql = scratchpad_query_hash("scratchpad_query", "s1", "SELECT 2")
        .expect("hash should succeed");
    assert_ne!(base, with_other_tool);
    assert_ne!(base, with_other_session);
    assert_ne!(base, with_other_sql);
}

#[test]
fn supports_wrapped_pagination_detects_select_and_with() {
    assert!(supports_wrapped_pagination("SELECT * FROM events"));
    assert!(supports_wrapped_pagination(
        "  with x as (select 1) select * from x"
    ));
    assert!(!supports_wrapped_pagination(
        "DESCRIBE SELECT * FROM events"
    ));
    assert!(!supports_wrapped_pagination(
        "SUMMARIZE SELECT * FROM events"
    ));
}

#[test]
fn trim_sql_for_subquery_removes_trailing_semicolons() {
    assert_eq!(trim_sql_for_subquery("SELECT 1;;;"), "SELECT 1");
    assert_eq!(trim_sql_for_subquery("  SELECT 1;  "), "SELECT 1");
}

#[test]
fn wrap_query_for_page_includes_limit_and_offset() {
    let wrapped = wrap_query_for_page("SELECT * FROM events", 200, 50);
    assert!(wrapped.contains("LIMIT 50"));
    assert!(wrapped.contains("OFFSET 200"));
    assert!(wrapped.contains("FROM (SELECT * FROM events) AS ga4_scratchpad_query"));
}

#[test]
fn dedupe_column_names_appends_suffixes() {
    let deduped = dedupe_column_names(&[
        "Event Name".to_string(),
        "Event-Name".to_string(),
        "event_name".to_string(),
    ]);
    assert_eq!(deduped, vec!["event_name", "event_name_2", "event_name_3"]);
}

fn report_args(dimensions: &[&str], metrics: &[&str], dimension_filter: Option<Json>) -> RunReportArgs {
    RunReportArgs {
        property_id: PropertyId::Text("properties/123456789".to_string()),
        date_ranges: vec![j(r#"{"start_date":"2026-02-01","end_date":"2026-02-07"}"#)],
        dimensions: dimensions.iter().map(|name| name.to_string()).collect(),
        metrics: metrics.iter().map(|name| name.to_string()).collect(),
        dimension_filter,
        metric_filter: None,
        order_bys: None,
        limit: None,
        offset: None,
        currency_code: None,
        return_property_quota: true,
        max_rows: None,
        cursor: None,
        output_mode: None,
        summary_only: false,
        max_cell_chars: None,
    }
}

fn preview_of(report: &RunReportArgs) -> (String, Json) {
    let query_hash = run_report_query_hash(report).expect("query hash should resolve");
    let (effective_offset, effective_limit) = resolve_cursor_window(
        &query_hash,
        report.cursor.as_deref(),
        report.offset,
        report.max_rows,
        report.limit,
    )
    .expect("window should resolve");
    let payload =
        build_run_report_preview_payload(report, &query_hash, effective_offset, effective_limit)
            .expect("preview payload should build");
    (query_hash, payload)
}

#[test]
fn build_run_report_preview_payload_is_deterministic() {
    let report = report_args(&["date", "country"], &["activeUsers"], None);
    let (query_hash, first) = preview_of(&report);
    let (_, second) = preview_of(&report);

    assert_eq!(first, second);
    let first = outward(&first);
    assert_eq!(first["preview"]["tool"], val(r#""run_report""#));
    assert_eq!(first["preview"]["query_hash"], Value::from(query_hash));
    assert_eq!(first["preview"]["request"]["property"], val(r#""properties/123456789""#));
    assert_eq!(first["preview"]["request"]["return_property_quota"], val("true"));
    assert_eq!(
        first["projection"]["ingest_columns"]
            .as_array()
            .expect("ingest columns should be an array")
            .iter()
            .any(|column| column["target_name"] == val(r#""date_parsed""#)
                && column["transform"] == val(r#""parse_ga_date""#)),
        true
    );
}

#[test]
fn preview_report_request_accepts_dimension_filter_shorthand() {
    let filter = normalize_optional_filter(
        Some(j(r#""sessionDefaultChannelGroup==\"Paid Other\"""#)),
        "dimension_filter",
        true,
    )
    .expect("preview report args should deserialize");
    let args = PreviewReportRequestArgs {
        report: report_args(&["sessionDefaultChannelGroup"], &["sessions"], filter),
    };
    let (_, payload) = preview_of(&args.report);
    let payload = outward(&payload);

    assert_eq!(
        payload["preview"]["request"]["dimension_filter"]["filter"]["field_name"],
        val(r#""sessionDefaultChannelGroup""#)
    );
    assert_eq!(
        payload["preview"]["request"]["dimension_filter"]["filter"]["string_filter"]["value"],
        val(r#""Paid Other""#)
    );
}

#[test]
fn preview_report_request_accepts_dimension_filter_json_expression() {
    let filter = normalize_optional_filter(
        Some(j(
            r#"{"and_group": {"expressions": [{"filter": {"field_name": "sessionSource", "string_filter": {"match_type": "EXACT", "value": "google"}}}]}}"#,
        )),
        "dimension_filter",
        true,
    )
    .expect("preview report args should deserialize");
    let args = PreviewReportRequestArgs {
        report: report_args(&["sessionSource", "country"], &["sessions"], filter),
    };
    let (_, payload) = preview_of(&args.report);
    let payload = outward(&payload);
    let first = &payload["preview"]["request"]["dimension_filter"]["and_group"]["expressions"][0];

    assert_eq!(first["filter"]["field_name"], val(r#""sessionSource""#));
    assert_eq!(first["filter"]["string_filter"]["value"], val(r#""google""#));
}

#[test]
fn preview_report_request_rejects_invalid_dimension_filter_shorthand() {
    let err = normalize_optional_filter(
        Some(j(r#""sessionDefaultChannelGroup==Paid Other""#)),
        "dimension_filter",
        true,
    )
    .expect_err("unquoted shorthand values should be rejected");
    assert!(err.contains("should be quoted"));
}

#[test]
fn collect_runtime_memory_pressure_handles_zero_sessions() {
    let nothing = Pressure {
        used_pct_of_reported_limit: Json::Null,
        max_session_used_pct: Json::Null,
        level: "unknown",
        high: false,
    };
    let payload = outward(&collect_runtime_memory_pressure(
        128,
        0,
        16,
        Sampling::Probed(Vec::new(), nothing),
    ));
    assert_eq!(payload["status"], val(r#""ok""#));
    assert_eq!(payload["sampled_sessions"], val("0"));
    assert_eq!(payload["probe_errors"], val("0"));
    assert_eq!(payload["pressure_level"], val(r#""normal""#));
    assert_eq!(payload["high_pressure"], val("false"));
}

#[test]
fn deserialize_optional_output_mode_accepts_case_insensitive_values() {
    assert_eq!(TabularOutputMode::parse("ROWS"), Some(TabularOutputMode::Rows));
}

#[test]
fn deserialize_optional_output_mode_rejects_unknown_values_with_example() {
    assert!(TabularOutputMode::parse("table").is_none());
    let message = TabularOutputMode::invalid_value_message("table");
    assert!(message.contains("rows, tuples, scalar, compact"));
    assert!(message.contains("\"output_mode\":\"rows\""));
}

#[test]
fn duck_value_to_json_handles_nested_values() {
    let value = DuckValue::StructOf(vec![
        ("country".to_string(), DuckValue::Text("US".to_string())),
        (
            "metrics".to_string(),
            DuckValue::ListOf(vec![
                DuckValue::Int(12),
                DuckValue::Double(DuckReal {
                    number: Some("1.25".to_string()),
                    shown: "1.25".to_string(),
                    count: 1,
                }),
            ]),
        ),
    ]);
    let json = outward(&duck_value_to_json(&value));
    assert_eq!(json["country"], val(r#""US""#));
    assert_eq!(json["metrics"][0], val("12"));
    assert_eq!(json["metrics"][1], val("1.25"));
}

#[test]
fn duckdb_type_to_logical_type_maps_common_types() {
    assert_eq!(duckdb_type_to_logical_type(DuckType::Int64), "integer");
    assert_eq!(duckdb_type_to_logical_type(DuckType::Float64), "number");
    assert_eq!(duckdb_type_to_logical_type(DuckType::Timestamp), "datetime");
}

fn parse_duckdb_size_bytes(raw: &str) -> Option<u64> {
    match read_duckdb_size(raw)? {
        SizeReading::Exact(bytes) => Some(bytes),
        SizeReading::Scaled { number, multiplier } => {
            let bytes = number.parse::<f64>().ok()? * multiplier as f64;
            if bytes.is_finite() && bytes >= 0.0 {
                Some(bytes.round() as u64)
            } else {
                None
            }
        }
    }
}

#[test]
fn parse_duckdb_size_bytes_supports_common_units() {
    assert_eq!(parse_duckdb_size_bytes("0 bytes"), Some(0));
    assert_eq!(parse_duckdb_size_bytes("1 KiB"), Some(1024));
    assert_eq!(parse_duckdb_size_bytes("2 MiB"), Some(2 * 1024 * 1024));
    assert_eq!(parse_duckdb_size_bytes("1.5 GiB"), Some(1610612736));
    assert_eq!(parse_duckdb_size_bytes("not-a-size"), None);
}

#[test]
fn funnel_contract_rejects_malformed_subreport_tabular_shapes() {
    let malformed_subreports = vec![
        r#"{"dimensionHeaders": {}, "metricHeaders": [], "rows": []}"#,
        r#"{"dimensionHeaders": [], "metricHeaders": [], "rows": [null]}"#,
        r#"{"dimensionHeaders": [], "metricHeaders": [], "rows": [{"metricValues": {}}]}"#,
    ];

    for malformed in malformed_subreports {
        let mut response = Object::new();
        response.put("funnelTable", j(malformed));
        response.put(
            "funnelVisualization",
            j(r#"{"dimensionHeaders": [], "metricHeaders": [], "rows": []}"#),
        );
        let result = contract_success_ga_funnel(
            &Json::Object(response),
            7,
            FunnelResponseOptions {
                query_hash: "abcd".to_string(),
                output_mode: contract::OutputMode::Rows,
                summary_only: false,
                max_cell_chars: None,
                effective_limit: 10,
                requested_limit: None,
            },
        );
        let payload = outward(&result);
        assert_eq!(payload["ok"], val("false"));
        assert!(payload["error"]["message"].is_string());
    }
}

#[test]
fn validate_batch_run_reports_limits_request_count() {
    let one_request = || BatchRunReportItemArgs {
        date_ranges: vec![j(r#"{"start_date": "2026-01-01", "end_date": "2026-01-31"}"#)],
        dimensions: vec!["country".to_string()],
        metrics: vec!["activeUsers".to_string()],
        dimension_filter: None,
        metric_filter: None,
        order_bys: None,
        limit: Some(10),
        offset: Some(0),
        currency_code: None,
        return_property_quota: false,
        max_rows: None,
        cursor: None,
        output_mode: None,
        summary_only: false,
        max_cell_chars: None,
    };
    let over_limit: Vec<BatchRunReportItemArgs> =
        (0..MAX_BATCH_REPORT_REQUESTS + 1).map(|_| one_request()).collect();
    let err = validate_batch_run_reports_inputs(&over_limit)
        .expect_err("request count over max must fail");
    assert_eq!(err.code(), "INVALID_PARAMS");
}
