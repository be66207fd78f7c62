//! The report tools: what each sends for its arguments, and what it says of the answer.

use vstd::prelude::*;
use vstd::string::*;

use crate::compatibility;
use crate::contract;
use crate::cursors;
use crate::error;
use crate::error::{AnalyticsError, Problem};
use crate::funnel;
use crate::funnel::FunnelResponseOptions;
use crate::ga_client;
use crate::ga_payload::{
    BatchRunReportItemRequest, BatchRunReportsRequest, RunAccessReportRequest,
    RunConversionsReportRequest, RunFunnelReportRequest, RunPivotReportRequest,
    RunRealtimeReportRequest, RunReportRequest,
};
use crate::json;
use crate::json::{Json, Object, Tree};
use crate::query_hashes;
use crate::report_args;
use crate::report_args::{
    BatchRunReportItemArgs, BatchRunReportsArgs, CheckReportCompatibilityArgs, ConversionSpecArgs,
    FunnelBreakdownArgs, FunnelNextActionArgs, FunnelStepArgs, RunAccessReportAccountArgs,
    RunAccessReportPropertyArgs, RunConversionsReportArgs, RunFunnelReportArgs,
    RunPivotReportArgs, RunRealtimeReportArgs, RunReportArgs, TabularOutputMode,
};
use crate::report_checks;
use crate::tabular;
use crate::tabular::TabularResponseOptions;
use crate::text;

verus! {

// ---------------------------------------------------------------------------
// Windows and options.
// ---------------------------------------------------------------------------

/// A request, how its answer is shown, and how many rows it may have.
#[derive(Debug)]
pub struct Planned<R> {
    pub request: R,
    pub options: TabularResponseOptions,
    pub limit: u64,
}

/// The page that a tabular query is about: its hash, its offset and its size.
pub struct Page {
    pub query_hash: Seq<char>,
    pub offset: u64,
    pub limit: u64,
}

/// The page of a tabular query, or the first thing that is wrong with the request.
pub open spec fn page_of(
    input_problem: Option<Problem>,
    query_hash: Result<Seq<char>, Problem>,
    cursor: Option<Seq<char>>,
    offset: Option<u64>,
    limit: Option<u64>,
    max_rows: Option<usize>,
    max_cell_chars: Option<usize>,
) -> Result<Page, Problem> {
    match error::earlier(
        input_problem,
        report_checks::tabular_controls_problem(max_rows, max_cell_chars, cursor),
    ) {
        Some(problem) => Err(problem),
        None => match query_hash {
            Err(problem) => Err(problem),
            Ok(hash) => match cursors::cursor_window(hash, cursor, offset, max_rows, limit) {
                Err(problem) => Err(problem),
                Ok((from, size)) => Ok(Page { query_hash: hash, offset: from, limit: size }),
            },
        },
    }
}

/// Whether options show a page as the request wants to see it.
pub open spec fn shows(
    options: TabularResponseOptions,
    page: Page,
    output_mode: Option<TabularOutputMode>,
    summary_only: bool,
    max_cell_chars: Option<usize>,
) -> bool {
    &&& options.query_hash@ == page.query_hash
    &&& options.output_mode == report_args::shape_of(output_mode)
    &&& options.summary_only == summary_only
    &&& options.max_cell_chars == max_cell_chars
    &&& options.cursor_offset == page.offset
}

/// An optional text as a reference.
fn as_ref_text(held: &Option<String>) -> (r: Option<&str>)
    ensures
        text::opt_str(r) == text::opt_text(*held),
{
    match held {
        Some(t) => Some(t.as_str()),
        None => None,
    }
}

/// The hash, the offset and the size of the page of a tabular query.
fn plan_page(
    checked: Result<(), AnalyticsError>,
    query_hash: Result<String, AnalyticsError>,
    cursor: &Option<String>,
    offset: Option<u64>,
    limit: Option<u64>,
    max_rows: Option<usize>,
    max_cell_chars: Option<usize>,
) -> (r: Result<(String, u64, u64), AnalyticsError>)
    ensures
        match page_of(
            error::outcome(checked),
            ga_client::text_result(query_hash),
            text::opt_text(*cursor),
            offset,
            limit,
            max_rows,
            max_cell_chars,
        ) {
            Ok(page) => r matches Ok(found) && found.0@ == page.query_hash && found.1
                == page.offset && found.2 == page.limit,
            Err(problem) => r matches Err(err) && err@ == problem,
        },
{
    match checked {
        Err(err) => {
            return Err(err);
        },
        Ok(()) => {},
    }
    match report_checks::validate_tabular_controls(max_rows, max_cell_chars, as_ref_text(cursor)) {
        Err(err) => {
            return Err(err);
        },
        Ok(()) => {},
    }
    let hash: String = match query_hash {
        Ok(hash) => hash,
        Err(err) => {
            return Err(err);
        },
    };
    match cursors::resolve_cursor_window(
        hash.as_str(),
        as_ref_text(cursor),
        offset,
        max_rows,
        limit,
    ) {
        Ok(window) => Ok((hash, window.0, window.1)),
        Err(err) => Err(err),
    }
}

/// How a page is shown.
fn options_for(
    query_hash: String,
    offset: u64,
    output_mode: Option<TabularOutputMode>,
    summary_only: bool,
    max_cell_chars: Option<usize>,
) -> (r: TabularResponseOptions)
    ensures
        r.query_hash@ == query_hash@,
        r.output_mode == report_args::shape_of(output_mode),
        r.summary_only == summary_only,
        r.max_cell_chars == max_cell_chars,
        r.cursor_offset == offset,
{
    TabularResponseOptions {
        query_hash,
        output_mode: report_args::output_shape(output_mode),
        summary_only,
        max_cell_chars,
        cursor_offset: offset,
    }
}

// ---------------------------------------------------------------------------
// Core, realtime, pivot and access reports.
// ---------------------------------------------------------------------------

/// The page that a core report is about.
pub open spec fn report_page(args: RunReportArgs) -> Result<Page, Problem> {
    page_of(
        report_checks::report_problem(
            text::texts(args.dimensions@),
            text::texts(args.metrics@),
            json::trees(args.date_ranges@),
            args.limit,
            args.offset,
        ),
        (match args.property_id.named() {
            Ok(property) => Ok(cursors::query_hash(query_hashes::report_signature(property, args))),
            Err(problem) => Err(problem),
        }),
        text::opt_text(args.cursor),
        args.offset,
        args.limit,
        args.max_rows,
        args.max_cell_chars,
    )
}

/// What a core report sends.
pub fn plan_run_report(
    args: RunReportArgs,
) -> (r: Result<Planned<RunReportRequest>, AnalyticsError>)
    ensures
        match report_page(args) {
            Err(problem) => r matches Err(err) && err@ == problem,
            Ok(page) => r matches Ok(plan) && plan.limit == page.limit && shows(
                plan.options,
                page,
                args.output_mode,
                args.summary_only,
                args.max_cell_chars,
            ) && plan.request == (RunReportRequest {
                    property_id: args.property_id,
                    date_ranges: args.date_ranges,
                    dimensions: args.dimensions,
                    metrics: args.metrics,
                    dimension_filter: args.dimension_filter,
                    metric_filter: args.metric_filter,
                    order_bys: args.order_bys,
                    limit: Some(page.limit),
                    offset: Some(page.offset),
                    currency_code: args.currency_code,
                    return_property_quota: args.return_property_quota,
            }),
        },
{
    let checked: Result<(), AnalyticsError> = report_checks::validate_report_inputs(
        args.dimensions.as_slice(),
        args.metrics.as_slice(),
        args.date_ranges.as_slice(),
        args.limit,
        args.offset,
    );
    let (query_hash, offset, limit): (String, u64, u64) = match plan_page(
        checked,
        query_hashes::run_report_query_hash(&args),
        &args.cursor,
        args.offset,
        args.limit,
        args.max_rows,
        args.max_cell_chars,
    ) {
        Ok(found) => found,
        Err(err) => {
            return Err(err);
        },
    };
    let options: TabularResponseOptions = options_for(
        query_hash,
        offset,
        args.output_mode,
        args.summary_only,
        args.max_cell_chars,
    );
    Ok(
        Planned {
            request: RunReportRequest {
                property_id: args.property_id,
                date_ranges: args.date_ranges,
                dimensions: args.dimensions,
                metrics: args.metrics,
                dimension_filter: args.dimension_filter,
                metric_filter: args.metric_filter,
                order_bys: args.order_bys,
                limit: Some(limit),
                offset: Some(offset),
                currency_code: args.currency_code,
                return_property_quota: args.return_property_quota,
            },
            options,
            limit,
        },
    )
}

/// The hash, the offset and the size of the page that a core report is about.
pub fn plan_report_page(args: &RunReportArgs) -> (r: Result<(String, u64, u64), AnalyticsError>)
    ensures
        match report_page(*args) {
            Ok(page) => r matches Ok(found) && found.0@ == page.query_hash && found.1
                == page.offset && found.2 == page.limit,
            Err(problem) => r matches Err(err) && err@ == problem,
        },
{
    let checked: Result<(), AnalyticsError> = report_checks::validate_report_inputs(
        args.dimensions.as_slice(),
        args.metrics.as_slice(),
        args.date_ranges.as_slice(),
        args.limit,
        args.offset,
    );
    plan_page(
        checked,
        query_hashes::run_report_query_hash(args),
        &args.cursor,
        args.offset,
        args.limit,
        args.max_rows,
        args.max_cell_chars,
    )
}

/// The page that a realtime report is about.
pub open spec fn realtime_page(args: RunRealtimeReportArgs) -> Result<Page, Problem> {
    page_of(
        report_checks::realtime_problem(
            text::texts(args.dimensions@),
            text::texts(args.metrics@),
            args.limit,
            args.offset,
        ),
        (match args.property_id.named() {
            Ok(property) => Ok(cursors::query_hash(query_hashes::realtime_signature(property, args))),
            Err(problem) => Err(problem),
        }),
        text::opt_text(args.cursor),
        args.offset,
        args.limit,
        args.max_rows,
        args.max_cell_chars,
    )
}

/// What a realtime report sends.
pub fn plan_run_realtime_report(
    args: RunRealtimeReportArgs,
) -> (r: Result<Planned<RunRealtimeReportRequest>, AnalyticsError>)
    ensures
        match realtime_page(args) {
            Err(problem) => r matches Err(err) && err@ == problem,
            Ok(page) => r matches Ok(plan) && plan.limit == page.limit && shows(
                plan.options,
                page,
                args.output_mode,
                args.summary_only,
                args.max_cell_chars,
            ) && plan.request == (RunRealtimeReportRequest {
                    property_id: args.property_id,
                    dimensions: args.dimensions,
                    metrics: args.metrics,
                    dimension_filter: args.dimension_filter,
                    metric_filter: args.metric_filter,
                    order_bys: args.order_bys,
                    limit: Some(page.limit),
                    offset: Some(page.offset),
                    return_property_quota: args.return_property_quota,
            }),
        },
{
    let checked: Result<(), AnalyticsError> = report_checks::validate_realtime_inputs(
        args.dimensions.as_slice(),
        args.metrics.as_slice(),
        args.limit,
        args.offset,
    );
    let (query_hash, offset, limit): (String, u64, u64) = match plan_page(
        checked,
        query_hashes::run_realtime_query_hash(&args),
        &args.cursor,
        args.offset,
        args.limit,
        args.max_rows,
        args.max_cell_chars,
    ) {
        Ok(found) => found,
        Err(err) => {
            return Err(err);
        },
    };
    let options: TabularResponseOptions = options_for(
        query_hash,
        offset,
        args.output_mode,
        args.summary_only,
        args.max_cell_chars,
    );
    Ok(
        Planned {
            request: RunRealtimeReportRequest {
                property_id: args.property_id,
                dimensions: args.dimensions,
                metrics: args.metrics,
                dimension_filter: args.dimension_filter,
                metric_filter: args.metric_filter,
                order_bys: args.order_bys,
                limit: Some(limit),
                offset: Some(offset),
                return_property_quota: args.return_property_quota,
            },
            options,
            limit,
        },
    )
}

/// The page that a pivot report is about.
pub open spec fn pivot_page(args: RunPivotReportArgs) -> Result<Page, Problem> {
    page_of(
        report_checks::pivot_problem(
            text::texts(args.dimensions@),
            text::texts(args.metrics@),
            json::trees(args.date_ranges@),
            json::trees(args.pivots@),
        ),
        (match args.property_id.named() {
            Ok(property) => Ok(cursors::query_hash(query_hashes::pivot_signature(property, args))),
            Err(problem) => Err(problem),
        }),
        text::opt_text(args.cursor),
        None,
        None,
        args.max_rows,
        args.max_cell_chars,
    )
}

/// What a pivot report sends.
pub fn plan_run_pivot_report(
    args: RunPivotReportArgs,
) -> (r: Result<Planned<RunPivotReportRequest>, AnalyticsError>)
    ensures
        match pivot_page(args) {
            Err(problem) => r matches Err(err) && err@ == problem,
            Ok(page) => r matches Ok(plan) && plan.limit == page.limit && shows(
                plan.options,
                page,
                args.output_mode,
                args.summary_only,
                args.max_cell_chars,
            ) && plan.request == (RunPivotReportRequest {
                    property_id: args.property_id,
                    date_ranges: args.date_ranges,
                    dimensions: args.dimensions,
                    metrics: args.metrics,
                    pivots: args.pivots,
                    dimension_filter: args.dimension_filter,
                    metric_filter: args.metric_filter,
                    order_bys: args.order_bys,
                    currency_code: args.currency_code,
                    keep_empty_rows: args.keep_empty_rows,
                    return_property_quota: args.return_property_quota,
            }),
        },
{
    let checked: Result<(), AnalyticsError> = report_checks::validate_pivot_inputs(
        args.dimensions.as_slice(),
        args.metrics.as_slice(),
        args.date_ranges.as_slice(),
        args.pivots.as_slice(),
    );
    let (query_hash, offset, limit): (String, u64, u64) = match plan_page(
        checked,
        query_hashes::run_pivot_query_hash(&args),
        &args.cursor,
        None,
        None,
        args.max_rows,
        args.max_cell_chars,
    ) {
        Ok(found) => found,
        Err(err) => {
            return Err(err);
        },
    };
    let options: TabularResponseOptions = options_for(
        query_hash,
        offset,
        args.output_mode,
        args.summary_only,
        args.max_cell_chars,
    );
    Ok(
        Planned {
            request: RunPivotReportRequest {
                property_id: args.property_id,
                date_ranges: args.date_ranges,
                dimensions: args.dimensions,
                metrics: args.metrics,
                pivots: args.pivots,
                dimension_filter: args.dimension_filter,
                metric_filter: args.metric_filter,
                order_bys: args.order_bys,
                currency_code: args.currency_code,
                keep_empty_rows: args.keep_empty_rows,
                return_property_quota: args.return_property_quota,
            },
            options,
            limit,
        },
    )
}

/// The page that an access report for a property is about.
pub open spec fn property_access_page(args: RunAccessReportPropertyArgs) -> Result<Page, Problem> {
    page_of(
        report_checks::report_problem(
            text::texts(args.dimensions@),
            text::texts(args.metrics@),
            json::trees(args.date_ranges@),
            args.limit,
            args.offset,
        ),
        (match args.property_id.named() {
            Ok(property) => Ok(cursors::query_hash(query_hashes::property_access_signature(property, args))),
            Err(problem) => Err(problem),
        }),
        text::opt_text(args.cursor),
        args.offset,
        args.limit,
        args.max_rows,
        args.max_cell_chars,
    )
}

/// What an access report for a property sends.
pub fn plan_run_property_access_report(
    args: RunAccessReportPropertyArgs,
) -> (r: Result<Planned<RunAccessReportRequest>, AnalyticsError>)
    ensures
        match property_access_page(args) {
            Err(problem) => r matches Err(err) && err@ == problem,
            Ok(page) => r matches Ok(plan) && plan.limit == page.limit && shows(
                plan.options,
                page,
                args.output_mode,
                args.summary_only,
                args.max_cell_chars,
            ) && plan.request == (RunAccessReportRequest {
                    date_ranges: args.date_ranges,
                    dimensions: args.dimensions,
                    metrics: args.metrics,
                    dimension_filter: args.dimension_filter,
                    metric_filter: args.metric_filter,
                    order_bys: args.order_bys,
                    offset: Some(page.offset),
                    limit: Some(page.limit),
                    time_zone: args.time_zone,
            }),
        },
{
    let checked: Result<(), AnalyticsError> = report_checks::validate_report_inputs(
        args.dimensions.as_slice(),
        args.metrics.as_slice(),
        args.date_ranges.as_slice(),
        args.limit,
        args.offset,
    );
    let (query_hash, offset, limit): (String, u64, u64) = match plan_page(
        checked,
        query_hashes::run_property_access_query_hash(&args),
        &args.cursor,
        args.offset,
        args.limit,
        args.max_rows,
        args.max_cell_chars,
    ) {
        Ok(found) => found,
        Err(err) => {
            return Err(err);
        },
    };
    let options: TabularResponseOptions = options_for(
        query_hash,
        offset,
        args.output_mode,
        args.summary_only,
        args.max_cell_chars,
    );
    Ok(
        Planned {
            request: RunAccessReportRequest {
                date_ranges: args.date_ranges,
                dimensions: args.dimensions,
                metrics: args.metrics,
                dimension_filter: args.dimension_filter,
                metric_filter: args.metric_filter,
                order_bys: args.order_bys,
                offset: Some(offset),
                limit: Some(limit),
                time_zone: args.time_zone,
            },
            options,
            limit,
        },
    )
}

/// The page that an access report for an account is about.
pub open spec fn account_access_page(args: RunAccessReportAccountArgs) -> Result<Page, Problem> {
    page_of(
        report_checks::report_problem(
            text::texts(args.dimensions@),
            text::texts(args.metrics@),
            json::trees(args.date_ranges@),
            args.limit,
            args.offset,
        ),
        (match args.account_id.named() {
            Ok(account) => Ok(cursors::query_hash(query_hashes::account_access_signature(account, args))),
            Err(problem) => Err(problem),
        }),
        text::opt_text(args.cursor),
        args.offset,
        args.limit,
        args.max_rows,
        args.max_cell_chars,
    )
}

/// What an access report for an account sends.
pub fn plan_run_account_access_report(
    args: RunAccessReportAccountArgs,
) -> (r: Result<Planned<RunAccessReportRequest>, AnalyticsError>)
    ensures
        match account_access_page(args) {
            Err(problem) => r matches Err(err) && err@ == problem,
            Ok(page) => r matches Ok(plan) && plan.limit == page.limit && shows(
                plan.options,
                page,
                args.output_mode,
                args.summary_only,
                args.max_cell_chars,
            ) && plan.request == (RunAccessReportRequest {
                    date_ranges: args.date_ranges,
                    dimensions: args.dimensions,
                    metrics: args.metrics,
                    dimension_filter: args.dimension_filter,
                    metric_filter: args.metric_filter,
                    order_bys: args.order_bys,
                    offset: Some(page.offset),
                    limit: Some(page.limit),
                    time_zone: args.time_zone,
            }),
        },
{
    let checked: Result<(), AnalyticsError> = report_checks::validate_report_inputs(
        args.dimensions.as_slice(),
        args.metrics.as_slice(),
        args.date_ranges.as_slice(),
        args.limit,
        args.offset,
    );
    let (query_hash, offset, limit): (String, u64, u64) = match plan_page(
        checked,
        query_hashes::run_account_access_query_hash(&args),
        &args.cursor,
        args.offset,
        args.limit,
        args.max_rows,
        args.max_cell_chars,
    ) {
        Ok(found) => found,
        Err(err) => {
            return Err(err);
        },
    };
    let options: TabularResponseOptions = options_for(
        query_hash,
        offset,
        args.output_mode,
        args.summary_only,
        args.max_cell_chars,
    );
    Ok(
        Planned {
            request: RunAccessReportRequest {
                date_ranges: args.date_ranges,
                dimensions: args.dimensions,
                metrics: args.metrics,
                dimension_filter: args.dimension_filter,
                metric_filter: args.metric_filter,
                order_bys: args.order_bys,
                offset: Some(offset),
                limit: Some(limit),
                time_zone: args.time_zone,
            },
            options,
            limit,
        },
    )
}

/// What is said of the answer to a tabular query, or of the error in its place.
pub fn tabular_reply(
    outcome: Result<Json, AnalyticsError>,
    elapsed_ms: u64,
    report_kind: &str,
    options: TabularResponseOptions,
) -> (r: Json)
    ensures
        r@ == (match outcome {
            Ok(data) => tabular::answer_envelope(
                tabular::answer_table(data@, report_kind@),
                options,
                elapsed_ms,
            ),
            Err(err) => contract::error_tree(err@, elapsed_ms),
        }),
{
    match outcome {
        Ok(data) => tabular::contract_success_ga_tabular(&data, elapsed_ms, report_kind, options),
        Err(err) => contract::error(err, elapsed_ms),
    }
}

/// What is said of the answer to a pivot report: the page is a window onto its rows.
pub fn pivot_reply(
    outcome: Result<Json, AnalyticsError>,
    elapsed_ms: u64,
    limit: u64,
    options: TabularResponseOptions,
) -> (r: Json)
    ensures
        r@ == (match outcome {
            Ok(data) => tabular::answer_envelope(
                tabular::windowed(
                    tabular::answer_table(data@, "run_pivot_report"@),
                    options.cursor_offset,
                    limit,
                    "run_pivot_report"@,
                ),
                options,
                elapsed_ms,
            ),
            Err(err) => contract::error_tree(err@, elapsed_ms),
        }),
{
    match outcome {
        Ok(data) => {
            let projection = tabular::apply_local_window_to_projection(
                tabular::project_ga_tabular_response(&data, "run_pivot_report"),
                options.cursor_offset,
                limit,
                "run_pivot_report",
            );
            tabular::contract_success_ga_projection(projection, elapsed_ms, options)
        },
        Err(err) => contract::error(err, elapsed_ms),
    }
}

// ---------------------------------------------------------------------------
// Conversion reports.
// ---------------------------------------------------------------------------

/// The conversions of a report, as they are sent.
pub open spec fn sent_conversions(conversions: ConversionSpecArgs) -> Tree {
    Tree::Dict(
        json::optional_entry(
            json::fields().push(
                (
                    "conversion_actions"@,
                    json::text_list(text::texts(conversions.conversion_actions@)),
                ),
            ),
            "attribution_model"@,
            match conversions.attribution_model {
                Some(model) => Some(Tree::Text(model.name())),
                None => None,
            },
        ),
    )
}

fn sent_conversions_value(conversions: &ConversionSpecArgs) -> (r: Json)
    ensures
        r@ == sent_conversions(*conversions),
{
    let mut object = Object::new();
    object.put("conversion_actions", json::strings(conversions.conversion_actions.as_slice()));
    let model: Option<Json> = match conversions.attribution_model {
        Some(model) => Some(json::string(model.as_str())),
        None => None,
    };
    object.put_some("attribution_model", model);
    json::dict(object)
}

/// The page that a conversion report is about.
pub open spec fn conversions_page(args: RunConversionsReportArgs) -> Result<Page, Problem> {
    page_of(
        report_checks::conversions_problem(args),
        (match args.property_id.named() {
            Ok(property) => Ok(
                cursors::query_hash(
                    ga_client::camel_tree(query_hashes::conversions_signature(property, args)),
                ),
            ),
            Err(problem) => Err(problem),
        }),
        text::opt_text(args.cursor),
        args.offset,
        args.limit,
        args.max_rows,
        args.max_cell_chars,
    )
}

/// What a conversion report sends.
pub fn plan_run_conversions_report(args: RunConversionsReportArgs) -> (r: Result<
    Planned<RunConversionsReportRequest>,
    AnalyticsError,
>)
    ensures
        match conversions_page(args) {
            Err(problem) => r matches Err(err) && err@ == problem,
            Ok(page) => r matches Ok(plan) && plan.limit == page.limit && shows(
                plan.options,
                page,
                args.output_mode,
                args.summary_only,
                args.max_cell_chars,
            ) && plan.request.conversion_spec@ == sent_conversions(args.conversion_spec)
                && plan.request == (RunConversionsReportRequest {
                property_id: args.property_id,
                date_ranges: args.date_ranges,
                dimensions: args.dimensions,
                metrics: args.metrics,
                conversion_spec: plan.request.conversion_spec,
                dimension_filter: args.dimension_filter,
                metric_filter: args.metric_filter,
                order_bys: args.order_bys,
                limit: Some(page.limit),
                offset: Some(page.offset),
                currency_code: args.currency_code,
                return_property_quota: args.return_property_quota,
            }),
        },
{
    let checked: Result<(), AnalyticsError> = report_checks::validate_conversions_report_inputs(
        &args,
    );
    let (query_hash, offset, limit): (String, u64, u64) = match plan_page(
        checked,
        query_hashes::run_conversions_report_query_hash(&args),
        &args.cursor,
        args.offset,
        args.limit,
        args.max_rows,
        args.max_cell_chars,
    ) {
        Ok(found) => found,
        Err(err) => {
            return Err(err);
        },
    };
    let options: TabularResponseOptions = options_for(
        query_hash,
        offset,
        args.output_mode,
        args.summary_only,
        args.max_cell_chars,
    );
    let conversion_spec: Json = sent_conversions_value(&args.conversion_spec);
    Ok(
        Planned {
            request: RunConversionsReportRequest {
                property_id: args.property_id,
                date_ranges: args.date_ranges,
                dimensions: args.dimensions,
                metrics: args.metrics,
                conversion_spec,
                dimension_filter: args.dimension_filter,
                metric_filter: args.metric_filter,
                order_bys: args.order_bys,
                limit: Some(limit),
                offset: Some(offset),
                currency_code: args.currency_code,
                return_property_quota: args.return_property_quota,
            },
            options,
            limit,
        },
    )
}

/// What is said of the answer to a conversion report, whose shape is checked first.
pub fn conversions_reply(
    outcome: Result<Json, AnalyticsError>,
    elapsed_ms: u64,
    options: TabularResponseOptions,
) -> (r: Json)
    ensures
        r@ == (match outcome {
            Ok(data) => match tabular::answer_problem(data@, "run_conversions_report"@) {
                Some(problem) => contract::error_tree(problem, elapsed_ms),
                None => tabular::answer_envelope(
                    tabular::answer_table(data@, "run_conversions_report"@),
                    options,
                    elapsed_ms,
                ),
            },
            Err(err) => contract::error_tree(err@, elapsed_ms),
        }),
{
    match outcome {
        Ok(data) => match tabular::validate_ga_tabular_response_shape(
            &data,
            "run_conversions_report",
        ) {
            Err(err) => contract::error(err, elapsed_ms),
            Ok(()) => tabular::contract_success_ga_tabular(
                &data,
                elapsed_ms,
                "run_conversions_report",
                options,
            ),
        },
        Err(err) => contract::error(err, elapsed_ms),
    }
}

// ---------------------------------------------------------------------------
// Funnel reports.
// ---------------------------------------------------------------------------

/// A dimension of a funnel report with a limit, as it is sent.
pub open spec fn sent_dimension(key: Seq<char>, name: Seq<char>, limit: Option<u64>) -> Tree {
    Tree::Dict(
        json::optional_entry(
            json::fields().push(
                (key, Tree::Dict(json::fields().push(("name"@, Tree::Text(name))))),
            ),
            "limit"@,
            match limit {
                Some(n) => Some(Tree::Text(text::decimal(n as nat))),
                None => None,
            },
        ),
    )
}

fn sent_dimension_value(key: &str, name: &str, limit: Option<u64>) -> (r: Json)
    ensures
        r@ == sent_dimension(key@, name@, limit),
{
    let mut inner = Object::new();
    inner.put("name", json::string(name));
    let mut object = Object::new();
    object.put(key, json::dict(inner));
    let shown: Option<Json> = match limit {
        Some(n) => Some(json::string(text::decimal_text(n).as_str())),
        None => None,
    };
    object.put_some("limit", shown);
    json::dict(object)
}

/// The breakdown of a funnel report, as it is sent.
pub open spec fn sent_breakdown(breakdown: Option<FunnelBreakdownArgs>) -> Option<Tree> {
    match breakdown {
        Some(held) => Some(
            sent_dimension("breakdown_dimension"@, held.breakdown_dimension@, held.limit),
        ),
        None => None,
    }
}

/// The next action of a funnel report, as it is sent.
pub open spec fn sent_next_action(next_action: Option<FunnelNextActionArgs>) -> Option<Tree> {
    match next_action {
        Some(held) => Some(
            sent_dimension("next_action_dimension"@, held.next_action_dimension@, held.limit),
        ),
        None => None,
    }
}

/// The steps of a funnel report as the request gave them.
pub open spec fn plain_steps(steps: Seq<FunnelStepArgs>) -> Seq<Tree> {
    Seq::new(steps.len(), |i: int| query_hashes::plain_step(steps[i]))
}

fn plain_step_values(steps: &[FunnelStepArgs]) -> (r: Vec<Json>)
    ensures
        json::trees(r@) == plain_steps(steps@),
{
    let mut r: Vec<Json> = Vec::new();
    for i in 0..steps.len()
        invariant
            r@.len() == i,
            forall|j: int| 0 <= j < i ==> (#[trigger] r@[j])@ == query_hashes::plain_step(steps@[j]),
    {
        r.push(query_hashes::funnel_step_value(&steps[i]));
    }
    assert(json::trees(r@) =~= plain_steps(steps@));
    r
}

/// The hash of a funnel report, or the first thing that is wrong with the request.
pub open spec fn funnel_query(args: RunFunnelReportArgs) -> Result<Seq<char>, Problem> {
    match error::earlier(
        report_checks::funnel_problem(args),
        report_checks::tabular_controls_problem(args.max_rows, args.max_cell_chars, None),
    ) {
        Some(problem) => Err(problem),
        None => match args.property_id.named() {
            Ok(property) => Ok(
                cursors::query_hash(
                    ga_client::camel_tree(query_hashes::funnel_signature(property, args)),
                ),
            ),
            Err(problem) => Err(problem),
        },
    }
}

/// A funnel request, its steps in the form that they are sent in, and how its answer is
/// shown.
#[derive(Debug)]
pub struct PlannedFunnel {
    pub request: RunFunnelReportRequest,
    pub steps: Vec<Json>,
    pub options: FunnelResponseOptions,
}

/// Whether a plan sends a funnel report.
pub open spec fn sends_funnel(
    plan: PlannedFunnel,
    query_hash: Seq<char>,
    args: RunFunnelReportArgs,
) -> bool {
    let limit = cursors::funnel_limit(args.max_rows, args.limit) as u64;
    &&& plan.options.query_hash@ == query_hash
    &&& plan.options.output_mode == report_args::shape_of(args.output_mode)
    &&& plan.options.summary_only == args.summary_only
    &&& plan.options.max_cell_chars == args.max_cell_chars
    &&& plan.options.effective_limit == limit
    &&& plan.options.requested_limit == args.limit
    &&& plan.request.property_id == args.property_id
    &&& json::trees(plan.request.funnel_steps@) == plain_steps(args.funnel_steps@)
    &&& json::trees(plan.steps@) == query_hashes::normal_steps(args.funnel_steps@)
    &&& plan.request.is_open_funnel == args.is_open_funnel
    &&& plan.request.date_ranges == args.date_ranges
    &&& json::opt_view(plan.request.funnel_breakdown) == sent_breakdown(args.funnel_breakdown)
    &&& json::opt_view(plan.request.funnel_next_action) == sent_next_action(
        args.funnel_next_action,
    )
    &&& text::opt_text(plan.request.funnel_visualization_type) == (match args.funnel_visualization_type {
        Some(visualization) => Some(visualization.name()),
        None => None,
    })
    &&& plan.request.segments == args.segments
    &&& plan.request.dimension_filter == args.dimension_filter
    &&& plan.request.limit == Some(limit)
    &&& plan.request.return_property_quota == args.return_property_quota
}

/// What a funnel report sends.
pub fn plan_run_funnel_report(args: RunFunnelReportArgs) -> (r: Result<
    PlannedFunnel,
    AnalyticsError,
>)
    ensures
        match funnel_query(args) {
            Err(problem) => r matches Err(err) && err@ == problem,
            Ok(query_hash) => r matches Ok(plan) && sends_funnel(plan, query_hash, args),
        },
{
    match report_checks::validate_funnel_report_inputs(&args) {
        Err(err) => {
            return Err(err);
        },
        Ok(()) => {},
    }
    match report_checks::validate_tabular_controls(args.max_rows, args.max_cell_chars, None) {
        Err(err) => {
            return Err(err);
        },
        Ok(()) => {},
    }
    let query_hash: String = match query_hashes::run_funnel_report_query_hash(&args) {
        Ok(hash) => hash,
        Err(err) => {
            return Err(err);
        },
    };
    let effective_limit: u64 = cursors::resolve_funnel_report_limit(args.max_rows, args.limit);
    let funnel_steps: Vec<Json> = plain_step_values(args.funnel_steps.as_slice());
    let steps: Vec<Json> = query_hashes::normalize_funnel_steps(args.funnel_steps.as_slice());
    let funnel_breakdown: Option<Json> = match &args.funnel_breakdown {
        Some(held) => Some(
            sent_dimension_value(
                "breakdown_dimension",
                held.breakdown_dimension.as_str(),
                held.limit,
            ),
        ),
        None => None,
    };
    let funnel_next_action: Option<Json> = match &args.funnel_next_action {
        Some(held) => Some(
            sent_dimension_value(
                "next_action_dimension",
                held.next_action_dimension.as_str(),
                held.limit,
            ),
        ),
        None => None,
    };
    let visualization: Option<String> = match args.funnel_visualization_type {
        Some(held) => Some(held.as_str().to_owned()),
        None => None,
    };
    let options = FunnelResponseOptions {
        query_hash,
        output_mode: report_args::output_shape(args.output_mode),
        summary_only: args.summary_only,
        max_cell_chars: args.max_cell_chars,
        effective_limit,
        requested_limit: args.limit,
    };
    let request = RunFunnelReportRequest {
        property_id: args.property_id,
        funnel_steps,
        is_open_funnel: args.is_open_funnel,
        date_ranges: args.date_ranges,
        funnel_breakdown,
        funnel_next_action,
        funnel_visualization_type: visualization,
        segments: args.segments,
        dimension_filter: args.dimension_filter,
        limit: Some(effective_limit),
        return_property_quota: args.return_property_quota,
    };
    Ok(PlannedFunnel { request, steps, options })
}

/// What is said of the answer to a funnel report.
pub fn funnel_reply(
    outcome: Result<Json, AnalyticsError>,
    elapsed_ms: u64,
    options: FunnelResponseOptions,
) -> (r: Json)
    ensures
        r@ == (match outcome {
            Ok(data) => funnel::funnel_envelope(data@, options, elapsed_ms),
            Err(err) => contract::error_tree(err@, elapsed_ms),
        }),
{
    match outcome {
        Ok(data) => funnel::contract_success_ga_funnel(&data, elapsed_ms, options),
        Err(err) => contract::error(err, elapsed_ms),
    }
}

// ---------------------------------------------------------------------------
// Batches.
// ---------------------------------------------------------------------------

/// The page that a report of a batch is about.
pub open spec fn batch_item_page(
    property: Seq<char>,
    args: BatchRunReportItemArgs,
    index: int,
) -> Result<Page, Problem> {
    page_of(
        report_checks::report_problem(
            text::texts(args.dimensions@),
            text::texts(args.metrics@),
            json::trees(args.date_ranges@),
            args.limit,
            args.offset,
        ),
        Ok(cursors::query_hash(query_hashes::batch_item_signature(property, index as usize, args))),
        text::opt_text(args.cursor),
        args.offset,
        args.limit,
        args.max_rows,
        args.max_cell_chars,
    )
}

/// The check of the report at a position of a batch.
pub open spec fn batch_item_check(property: Seq<char>, items: Seq<BatchRunReportItemArgs>) -> spec_fn(
    int,
) -> Option<Problem> {
    |i: int|
        match batch_item_page(property, items[i], i) {
            Ok(_) => None,
            Err(problem) => Some(problem),
        }
}

/// What is wrong with a batch.
pub open spec fn batch_fault(args: BatchRunReportsArgs) -> Option<Problem> {
    error::earlier(
        report_checks::batch_problem(args.requests@.len()),
        match args.property_id.named() {
            Err(problem) => Some(problem),
            Ok(property) => error::first_problem(
                args.requests@.len(),
                batch_item_check(property, args.requests@),
            ),
        },
    )
}

/// Whether a request sends a report of a batch.
pub open spec fn sends_item(
    request: BatchRunReportItemRequest,
    page: Page,
    args: BatchRunReportItemArgs,
) -> bool {
    request == (BatchRunReportItemRequest {
        date_ranges: args.date_ranges,
        dimensions: args.dimensions,
        metrics: args.metrics,
        dimension_filter: args.dimension_filter,
        metric_filter: args.metric_filter,
        order_bys: args.order_bys,
        limit: Some(page.limit),
        offset: Some(page.offset),
        currency_code: args.currency_code,
        return_property_quota: args.return_property_quota,
    })
}

/// A batch, and how the answer to each of its reports is shown.
#[derive(Debug)]
pub struct PlannedBatch {
    pub property: String,
    pub request: BatchRunReportsRequest,
    pub options: Vec<TabularResponseOptions>,
}

/// Whether the first `n` reports of a plan are those of a batch.
pub open spec fn sends_items(
    requests: Seq<BatchRunReportItemRequest>,
    options: Seq<TabularResponseOptions>,
    property: Seq<char>,
    items: Seq<BatchRunReportItemArgs>,
    n: int,
) -> bool {
    &&& requests.len() == n
    &&& options.len() == n
    &&& forall|i: int|
        #![trigger requests[i]]
        #![trigger options[i]]
        0 <= i < n ==> sends_one(requests[i], options[i], property, items[i], i)
}

/// Whether a request and its options are those of the report at a position of a batch.
pub open spec fn sends_one(
    request: BatchRunReportItemRequest,
    options: TabularResponseOptions,
    property: Seq<char>,
    args: BatchRunReportItemArgs,
    index: int,
) -> bool {
    match batch_item_page(property, args, index) {
        Ok(page) => sends_item(request, page, args) && shows(
            options,
            page,
            args.output_mode,
            args.summary_only,
            args.max_cell_chars,
        ),
        Err(_) => false,
    }
}

fn plan_batch_item(property: &str, index: usize, args: BatchRunReportItemArgs) -> (r: Result<
    (BatchRunReportItemRequest, TabularResponseOptions),
    AnalyticsError,
>)
    ensures
        match batch_item_page(property@, args, index as int) {
            Err(problem) => r matches Err(err) && err@ == problem,
            Ok(page) => r matches Ok(plan) && sends_item(plan.0, page, args) && shows(
                plan.1,
                page,
                args.output_mode,
                args.summary_only,
                args.max_cell_chars,
            ),
        },
{
    let checked: Result<(), AnalyticsError> = report_checks::validate_report_inputs(
        args.dimensions.as_slice(),
        args.metrics.as_slice(),
        args.date_ranges.as_slice(),
        args.limit,
        args.offset,
    );
    let (query_hash, offset, limit): (String, u64, u64) = match plan_page(
        checked,
        query_hashes::batch_run_report_query_hash(property, index, &args),
        &args.cursor,
        args.offset,
        args.limit,
        args.max_rows,
        args.max_cell_chars,
    ) {
        Ok(found) => found,
        Err(err) => {
            return Err(err);
        },
    };
    let options: TabularResponseOptions = options_for(
        query_hash,
        offset,
        args.output_mode,
        args.summary_only,
        args.max_cell_chars,
    );
    let request = BatchRunReportItemRequest {
        date_ranges: args.date_ranges,
        dimensions: args.dimensions,
        metrics: args.metrics,
        dimension_filter: args.dimension_filter,
        metric_filter: args.metric_filter,
        order_bys: args.order_bys,
        limit: Some(limit),
        offset: Some(offset),
        currency_code: args.currency_code,
        return_property_quota: args.return_property_quota,
    };
    Ok((request, options))
}

/// What a batch sends.
pub fn plan_batch_run_reports(args: BatchRunReportsArgs) -> (r: Result<
    PlannedBatch,
    AnalyticsError,
>)
    ensures
        match batch_fault(args) {
            Some(problem) => r matches Err(err) && err@ == problem,
            None => r matches Ok(plan) && args.property_id.named() == Ok::<Seq<char>, Problem>(
                plan.property@,
            ) && plan.request.property_id == args.property_id && sends_items(
                plan.request.requests@,
                plan.options@,
                plan.property@,
                args.requests@,
                args.requests@.len() as int,
            ),
        },
{
    match report_checks::validate_batch_run_reports_inputs(args.requests.as_slice()) {
        Err(err) => {
            return Err(err);
        },
        Ok(()) => {},
    }
    let property: String = match args.property_id.to_resource_name() {
        Ok(property) => property,
        Err(err) => {
            return Err(err);
        },
    };
    let ghost all = args.requests@;
    let ghost check = batch_item_check(property@, all);
    let mut left: Vec<BatchRunReportItemArgs> = args.requests;
    let mut requests: Vec<BatchRunReportItemRequest> = Vec::new();
    let mut options: Vec<TabularResponseOptions> = Vec::new();
    let n: usize = left.len();
    assert(left@ =~= all.skip(0));
    for index in 0..n
        invariant
            n == all.len(),
            all == args.requests@,
            check == batch_item_check(property@, all),
            report_checks::batch_problem(all.len()) is None,
            args.property_id.named() == Ok::<Seq<char>, Problem>(property@),
            left@ == all.skip(index as int),
            error::first_problem(index as nat, check) is None,
            sends_items(requests@, options@, property@, all, index as int),
    {
        let item: BatchRunReportItemArgs = left.remove(0);
        assert(item == all[index as int]);
        assert(left@ =~= all.skip(index + 1));
        assert(check(index as int) == (match batch_item_page(
            property@,
            all[index as int],
            index as int,
        ) {
            Ok(_) => None,
            Err(problem) => Some(problem),
        }));
        match plan_batch_item(property.as_str(), index, item) {
            Err(err) => {
                proof {
                    error::lemma_first_problem(n as nat, (index + 1) as nat, check);
                }
                return Err(err);
            },
            Ok((request, shown)) => {
                let ghost sent = requests@;
                let ghost seen = options@;
                assert(sends_one(request, shown, property@, all[index as int], index as int));
                requests.push(request);
                options.push(shown);
                assert forall|i: int|
                    #![trigger requests@[i]]
                    #![trigger options@[i]]
                    0 <= i < index + 1 implies sends_one(
                    requests@[i],
                    options@[i],
                    property@,
                    all[i],
                    i,
                ) by {
                    if i < index {
                        assert(requests@[i] == sent[i]);
                        assert(options@[i] == seen[i]);
                    }
                }
            },
        }
    }
    Ok(
        PlannedBatch {
            property,
            request: BatchRunReportsRequest { property_id: args.property_id, requests },
            options,
        },
    )
}

/// What is wrong with the answer to a batch of `n` reports.
pub open spec fn batch_answer_problem(data: Tree, n: int) -> Option<Problem> {
    match data.list_field("reports"@) {
        None => Some(Problem::Internal("batch_run_reports response missing 'reports' array"@)),
        Some(reports) => if reports.len() != n {
            Some(
                Problem::Internal(
                    "batch_run_reports response count mismatch: expected "@ + text::decimal(
                        n as nat,
                    ) + ", got "@ + text::decimal(reports.len()),
                ),
            )
        } else {
            None
        },
    }
}

/// What is said of one answer of a batch.
pub open spec fn batch_item_tree(
    report: Tree,
    options: TabularResponseOptions,
    index: int,
) -> Tree {
    let table = tabular::answer_table(report, "batch_run_reports"@);
    Tree::Dict(
        json::fields()
            .push(("index"@, Tree::Whole(index)))
            .push(
                (
                    "data"@,
                    tabular::table_payload(
                        table,
                        options.output_mode,
                        options.summary_only,
                        options.max_cell_chars,
                    ),
                ),
            )
            .push(
                (
                    "meta"@,
                    Tree::Dict(
                        json::entered(
                            tabular::answer_page_meta(table, options)->Dict_0,
                            "batch_index"@,
                            Tree::Whole(index),
                        ),
                    ),
                ),
            ),
    )
}

/// What is said of the answers of a batch.
pub open spec fn batch_trees(
    reports: Seq<Tree>,
    options: Seq<TabularResponseOptions>,
) -> Seq<Tree> {
    Seq::new(reports.len(), |i: int| batch_item_tree(reports[i], options[i], i))
}

/// The envelope of the answer to a batch.
pub open spec fn batch_envelope(
    data: Tree,
    property: Seq<char>,
    options: Seq<TabularResponseOptions>,
    elapsed_ms: u64,
) -> Tree {
    match batch_answer_problem(data, options.len() as int) {
        Some(problem) => contract::error_tree(problem, elapsed_ms),
        None => {
            let reports = tabular::listed(data, "reports"@);
            contract::success_tree(
                Tree::Dict(
                    json::fields().push(("reports"@, Tree::List(batch_trees(reports, options)))),
                ),
                contract::with_elapsed(
                    Tree::Dict(
                        json::fields().push(
                            (
                                "batch"@,
                                Tree::Dict(
                                    json::fields()
                                        .push(("property"@, Tree::Text(property)))
                                        .push(
                                            (
                                                "request_count"@,
                                                Tree::Whole(options.len() as int),
                                            ),
                                        )
                                        .push(
                                            (
                                                "response_count"@,
                                                Tree::Whole(reports.len() as int),
                                            ),
                                        ),
                                ),
                            ),
                        ),
                    ),
                    elapsed_ms,
                ),
            )
        },
    }
}

fn batch_item_value(report: &Json, options: TabularResponseOptions, index: usize) -> (r: Json)
    ensures
        r@ == batch_item_tree(report@, options, index as int),
{
    let projection = tabular::project_ga_tabular_response(report, "batch_run_reports");
    let (payload, meta): (Json, Json) = tabular::ga_projection_payload_and_meta(
        projection,
        options,
    );
    let mut map: Object = match meta {
        Json::Object(object) => {
            proof {
                json::lemma_object_tree(object);
            }
            object
        },
        _ => Object::new(),
    };
    map.insert("batch_index", json::size(index));
    let mut object = Object::new();
    object.put("index", json::size(index));
    object.put("data", payload);
    object.put("meta", json::dict(map));
    json::dict(object)
}

fn batch_success(
    reports: &[Json],
    property: &str,
    options: Vec<TabularResponseOptions>,
    elapsed_ms: u64,
) -> (r: Json)
    requires
        reports@.len() == options@.len(),
    ensures
        forall|data: Tree|
            data.list_field("reports"@) == Some(json::trees(reports@)) ==> r@ == #[trigger] batch_envelope(
                data,
                property@,
                options@,
                elapsed_ms,
            ),
{
    let ghost all = json::trees(reports@);
    let ghost shown = options@;
    let n: usize = options.len();
    let mut left: Vec<TabularResponseOptions> = options;
    let mut items: Vec<Json> = Vec::new();
    assert(left@ =~= shown.skip(0));
    for i in 0..n
        invariant
            n == shown.len(),
            n == reports@.len(),
            all == json::trees(reports@),
            left@ == shown.skip(i as int),
            items@.len() == i,
            forall|j: int|
                0 <= j < i ==> (#[trigger] items@[j])@ == batch_item_tree(all[j], shown[j], j),
    {
        let option: TabularResponseOptions = left.remove(0);
        assert(option == shown[i as int]);
        assert(left@ =~= shown.skip(i + 1));
        assert(all[i as int] == reports@[i as int]@);
        items.push(batch_item_value(&reports[i], option, i));
    }
    assert(json::trees(items@) =~= batch_trees(all, shown));
    let mut data = Object::new();
    data.put("reports", json::array(items));
    let mut batch = Object::new();
    batch.put("property", json::string(property));
    batch.put("request_count", json::size(n));
    batch.put("response_count", json::size(reports.len()));
    let mut meta = Object::new();
    meta.put("batch", json::dict(batch));
    contract::success_with_meta(json::dict(data), json::dict(meta), elapsed_ms)
}

/// What is said of the answer to a batch.
pub fn batch_reply(
    outcome: Result<Json, AnalyticsError>,
    elapsed_ms: u64,
    property: &str,
    options: Vec<TabularResponseOptions>,
) -> (r: Json)
    ensures
        r@ == (match outcome {
            Ok(data) => batch_envelope(data@, property@, options@, elapsed_ms),
            Err(err) => contract::error_tree(err@, elapsed_ms),
        }),
{
    match outcome {
        Err(err) => contract::error(err, elapsed_ms),
        Ok(data) => match data.array_at("reports") {
            None => contract::error(
                AnalyticsError::internal("batch_run_reports response missing 'reports' array"),
                elapsed_ms,
            ),
            Some(reports) => {
                if reports.len() != options.len() {
                    let expected: String = text::decimal_text(options.len() as u64);
                    let got: String = text::decimal_text(reports.len() as u64);
                    let message: String = error::described(
                        "batch_run_reports response count mismatch: expected ",
                        expected.as_str(),
                        ", got ",
                        got.as_str(),
                    );
                    return contract::error(AnalyticsError::internal(message.as_str()), elapsed_ms);
                }
                batch_success(reports.as_slice(), property, options, elapsed_ms)
            },
        },
    }
}

// ---------------------------------------------------------------------------
// Plain answers.
// ---------------------------------------------------------------------------

/// What is said of an answer that is shown as it is.
pub fn plain_reply(outcome: Result<Json, AnalyticsError>, elapsed_ms: u64) -> (r: Json)
    ensures
        r@ == (match outcome {
            Ok(data) => contract::success_tree(data@, contract::elapsed_only(elapsed_ms)),
            Err(err) => contract::error_tree(err@, elapsed_ms),
        }),
{
    match outcome {
        Ok(data) => contract::success(data, elapsed_ms),
        Err(err) => contract::error(err, elapsed_ms),
    }
}

/// What is said of an answer that is shown in canonical form.
pub fn sorted_reply(outcome: Result<Json, AnalyticsError>, elapsed_ms: u64) -> (r: Json)
    ensures
        r@ == (match outcome {
            Ok(data) => contract::success_tree(
                ga_client::sorted_tree(data@),
                contract::elapsed_only(elapsed_ms),
            ),
            Err(err) => contract::error_tree(err@, elapsed_ms),
        }),
{
    match outcome {
        Ok(data) => contract::success(ga_client::sort_object(&data), elapsed_ms),
        Err(err) => contract::error(err, elapsed_ms),
    }
}

// ---------------------------------------------------------------------------
// Compatibility.
// ---------------------------------------------------------------------------

/// The property of a compatibility check, or what is wrong with the request.
pub open spec fn compatibility_query(args: CheckReportCompatibilityArgs) -> Result<
    Seq<char>,
    Problem,
> {
    match report_checks::metric_lists_problem(
        text::texts(args.dimensions@),
        text::texts(args.metrics@),
    ) {
        Some(problem) => Err(problem),
        None => args.property_id.named(),
    }
}

/// Checks the request of a compatibility check.
pub fn plan_check_report_compatibility(args: &CheckReportCompatibilityArgs) -> (r: Result<
    String,
    AnalyticsError,
>)
    ensures
        ga_client::text_result(r) == compatibility_query(*args),
{
    match report_checks::validate_metric_lists(
        args.dimensions.as_slice(),
        args.metrics.as_slice(),
    ) {
        Err(err) => Err(err),
        Ok(()) => args.property_id.to_resource_name(),
    }
}

/// What a compatibility check says.
pub open spec fn compatibility_tree(
    property: Seq<char>,
    args: CheckReportCompatibilityArgs,
    compatibility: Tree,
    custom_inventory: Tree,
) -> Tree {
    Tree::Dict(
        json::fields()
            .push(("property_id"@, Tree::Text(property)))
            .push(
                (
                    "request"@,
                    Tree::Dict(
                        json::fields()
                            .push(("dimensions"@, json::text_list(text::texts(args.dimensions@))))
                            .push(("metrics"@, json::text_list(text::texts(args.metrics@)))),
                    ),
                ),
            )
            .push(("compatibility"@, compatibility::summary(compatibility)))
            .push(("custom_inventory"@, custom_inventory))
            .push(("raw"@, compatibility)),
    )
}

/// What a compatibility check says.
pub fn compatibility_payload(
    property: &str,
    args: &CheckReportCompatibilityArgs,
    compatibility: Json,
    custom_inventory: Json,
) -> (r: Json)
    ensures
        r@ == compatibility_tree(property@, *args, compatibility@, custom_inventory@),
{
    let summary: Json = compatibility::summarize_report_compatibility(&compatibility);
    let mut request = Object::new();
    request.put("dimensions", json::strings(args.dimensions.as_slice()));
    request.put("metrics", json::strings(args.metrics.as_slice()));
    let mut object = Object::new();
    object.put("property_id", json::string(property));
    object.put("request", json::dict(request));
    object.put("compatibility", summary);
    object.put("custom_inventory", custom_inventory);
    object.put("raw", compatibility);
    json::dict(object)
}

// ---------------------------------------------------------------------------
// Laws.
// ---------------------------------------------------------------------------

/// What a report asks for does not depend on the page: every page has one query hash.
pub proof fn law_pages_share_query_hash(
    property: Seq<char>,
    args: RunReportArgs,
    limit: Option<u64>,
    offset: Option<u64>,
    max_rows: Option<usize>,
    cursor: Option<String>,
)
    ensures
        query_hashes::report_signature(property, args) == query_hashes::report_signature(
            property,
            RunReportArgs { limit, offset, max_rows, cursor, ..args },
        ),
{
}

/// A tool that refuses its arguments says so in an error envelope and sends nothing; the
/// page of one that does not is within the limits.
pub proof fn law_pages_are_bounded(
    input_problem: Option<Problem>,
    query_hash: Result<Seq<char>, Problem>,
    cursor: Option<Seq<char>>,
    offset: Option<u64>,
    limit: Option<u64>,
    max_rows: Option<usize>,
    max_cell_chars: Option<usize>,
)
    ensures
        page_of(
            input_problem,
            query_hash,
            cursor,
            offset,
            limit,
            max_rows,
            max_cell_chars,
        ) matches Ok(page) ==> input_problem is None && 1 <= page.limit
            <= report_checks::MAX_TABULAR_MAX_ROWS,
{
    cursors::law_windows_are_bounded(max_rows, limit);
}

/// A report that is in order begins where it says, or where its cursor leads, and has its page.
pub proof fn law_reports_begin_where_asked(args: RunReportArgs, owner: Seq<char>)
    requires
        report_checks::report_problem(
            text::texts(args.dimensions@),
            text::texts(args.metrics@),
            json::trees(args.date_ranges@),
            args.limit,
            args.offset,
        ) is None,
        report_checks::tabular_controls_problem(
            args.max_rows,
            args.max_cell_chars,
            text::opt_text(args.cursor),
        ) is None,
        args.property_id.named() == Ok::<Seq<char>, Problem>(owner),
    ensures
        args.cursor is None ==> report_page(args) == Ok::<Page, Problem>(
            Page {
                query_hash: cursors::query_hash(query_hashes::report_signature(owner, args)),
                offset: match args.offset { Some(n) => n, None => 0, },
                limit: cursors::page_size(args.max_rows, args.limit) as u64,
            },
        ),
        args.cursor matches Some(raw) ==> (report_page(args) matches Ok(page) ==> cursors::decoded(
            raw@,
        ) == Ok::<(Seq<char>, u64), Problem>((page.query_hash, page.offset)) && page.query_hash
            == cursors::query_hash(query_hashes::report_signature(owner, args)) && page.limit == cursors::page_size(
            args.max_rows,
            args.limit,
        )),
{
    cursors::law_windows_are_bounded(args.max_rows, args.limit);
}

/// A realtime report that is in order begins where it says, or where its cursor leads.
pub proof fn law_realtime_reports_begin_where_asked(args: RunRealtimeReportArgs, owner: Seq<char>)
    requires
        report_checks::realtime_problem(
            text::texts(args.dimensions@),
            text::texts(args.metrics@),
            args.limit,
            args.offset,
        ) is None,
        report_checks::tabular_controls_problem(
            args.max_rows,
            args.max_cell_chars,
            text::opt_text(args.cursor),
        ) is None,
        args.property_id.named() == Ok::<Seq<char>, Problem>(owner),
    ensures
        args.cursor is None ==> realtime_page(args) == Ok::<Page, Problem>(
            Page {
                query_hash: cursors::query_hash(query_hashes::realtime_signature(owner, args)),
                offset: match args.offset { Some(n) => n, None => 0, },
                limit: cursors::page_size(args.max_rows, args.limit) as u64,
            },
        ),
        args.cursor matches Some(raw) ==> (realtime_page(args) matches Ok(page) ==> cursors::decoded(
            raw@,
        ) == Ok::<(Seq<char>, u64), Problem>((page.query_hash, page.offset)) && page.query_hash
            == cursors::query_hash(query_hashes::realtime_signature(owner, args)) && page.limit == cursors::page_size(
            args.max_rows,
            args.limit,
        )),
{
    cursors::law_windows_are_bounded(args.max_rows, args.limit);
}

/// A pivot report that is in order begins with its first row, or where its cursor leads.
pub proof fn law_pivot_reports_begin_at_their_cursor(args: RunPivotReportArgs, owner: Seq<char>)
    requires
        report_checks::pivot_problem(
            text::texts(args.dimensions@),
            text::texts(args.metrics@),
            json::trees(args.date_ranges@),
            json::trees(args.pivots@),
        ) is None,
        report_checks::tabular_controls_problem(
            args.max_rows,
            args.max_cell_chars,
            text::opt_text(args.cursor),
        ) is None,
        args.property_id.named() == Ok::<Seq<char>, Problem>(owner),
    ensures
        args.cursor is None ==> pivot_page(args) == Ok::<Page, Problem>(
            Page {
                query_hash: cursors::query_hash(query_hashes::pivot_signature(owner, args)),
                offset: 0,
                limit: cursors::page_size(args.max_rows, None) as u64,
            },
        ),
        args.cursor matches Some(raw) ==> (pivot_page(args) matches Ok(page) ==> cursors::decoded(
            raw@,
        ) == Ok::<(Seq<char>, u64), Problem>((page.query_hash, page.offset)) && page.query_hash
            == cursors::query_hash(query_hashes::pivot_signature(owner, args)) && page.limit == cursors::page_size(
            args.max_rows,
            None,
        )),
{
    cursors::law_windows_are_bounded(args.max_rows, None);
}

/// An access report on a property begins where it says, or where its cursor leads.
pub proof fn law_property_access_reports_begin_where_asked(
    args: RunAccessReportPropertyArgs,
    owner: Seq<char>,
)
    requires
        report_checks::report_problem(
            text::texts(args.dimensions@),
            text::texts(args.metrics@),
            json::trees(args.date_ranges@),
            args.limit,
            args.offset,
        ) is None,
        report_checks::tabular_controls_problem(
            args.max_rows,
            args.max_cell_chars,
            text::opt_text(args.cursor),
        ) is None,
        args.property_id.named() == Ok::<Seq<char>, Problem>(owner),
    ensures
        args.cursor is None ==> property_access_page(args) == Ok::<Page, Problem>(
            Page {
                query_hash: cursors::query_hash(
                    query_hashes::property_access_signature(owner, args),
                ),
                offset: match args.offset { Some(n) => n, None => 0, },
                limit: cursors::page_size(args.max_rows, args.limit) as u64,
            },
        ),
        args.cursor matches Some(raw) ==> (property_access_page(args) matches Ok(page) ==> cursors::decoded(
            raw@,
        ) == Ok::<(Seq<char>, u64), Problem>((page.query_hash, page.offset)) && page.query_hash
            == cursors::query_hash(query_hashes::property_access_signature(owner, args)) && page.limit == cursors::page_size(
            args.max_rows,
            args.limit,
        )),
{
    cursors::law_windows_are_bounded(args.max_rows, args.limit);
}

/// An access report on an account begins where it says, or where its cursor leads.
pub proof fn law_account_access_reports_begin_where_asked(
    args: RunAccessReportAccountArgs,
    owner: Seq<char>,
)
    requires
        report_checks::report_problem(
            text::texts(args.dimensions@),
            text::texts(args.metrics@),
            json::trees(args.date_ranges@),
            args.limit,
            args.offset,
        ) is None,
        report_checks::tabular_controls_problem(
            args.max_rows,
            args.max_cell_chars,
            text::opt_text(args.cursor),
        ) is None,
        args.account_id.named() == Ok::<Seq<char>, Problem>(owner),
    ensures
        args.cursor is None ==> account_access_page(args) == Ok::<Page, Problem>(
            Page {
                query_hash: cursors::query_hash(
                    query_hashes::account_access_signature(owner, args),
                ),
                offset: match args.offset { Some(n) => n, None => 0, },
                limit: cursors::page_size(args.max_rows, args.limit) as u64,
            },
        ),
        args.cursor matches Some(raw) ==> (account_access_page(args) matches Ok(page) ==> cursors::decoded(
            raw@,
        ) == Ok::<(Seq<char>, u64), Problem>((page.query_hash, page.offset)) && page.query_hash
            == cursors::query_hash(query_hashes::account_access_signature(owner, args)) && page.limit == cursors::page_size(
            args.max_rows,
            args.limit,
        )),
{
    cursors::law_windows_are_bounded(args.max_rows, args.limit);
}

/// A report of conversions begins where it says, or where its cursor leads.
pub proof fn law_conversion_reports_begin_where_asked(
    args: RunConversionsReportArgs,
    owner: Seq<char>,
)
    requires
        report_checks::conversions_problem(args) is None,
        report_checks::tabular_controls_problem(
            args.max_rows,
            args.max_cell_chars,
            text::opt_text(args.cursor),
        ) is None,
        args.property_id.named() == Ok::<Seq<char>, Problem>(owner),
    ensures
        args.cursor is None ==> conversions_page(args) == Ok::<Page, Problem>(
            Page {
                query_hash: cursors::query_hash(
                    ga_client::camel_tree(query_hashes::conversions_signature(owner, args)),
                ),
                offset: match args.offset { Some(n) => n, None => 0, },
                limit: cursors::page_size(args.max_rows, args.limit) as u64,
            },
        ),
        args.cursor matches Some(raw) ==> (conversions_page(args) matches Ok(page) ==> cursors::decoded(
            raw@,
        ) == Ok::<(Seq<char>, u64), Problem>((page.query_hash, page.offset)) && page.query_hash
            == cursors::query_hash(ga_client::camel_tree(query_hashes::conversions_signature(owner, args))) && page.limit == cursors::page_size(
            args.max_rows,
            args.limit,
        )),
{
    cursors::law_windows_are_bounded(args.max_rows, args.limit);
}

/// A page is planned only where nothing is wrong, and the first thing that is wrong is told:
/// with the report, with how it is to be shown, with its property, with its cursor.
pub proof fn law_the_first_fault_of_a_page_is_told(
    input_problem: Option<Problem>,
    query_hash: Result<Seq<char>, Problem>,
    cursor: Option<Seq<char>>,
    offset: Option<u64>,
    limit: Option<u64>,
    max_rows: Option<usize>,
    max_cell_chars: Option<usize>,
)
    ensures
        input_problem matches Some(problem) ==> page_of(
            input_problem,
            query_hash,
            cursor,
            offset,
            limit,
            max_rows,
            max_cell_chars,
        ) == Err::<Page, Problem>(problem),
        input_problem is None ==> (report_checks::tabular_controls_problem(
            max_rows,
            max_cell_chars,
            cursor,
        ) matches Some(problem) ==> page_of(
            input_problem,
            query_hash,
            cursor,
            offset,
            limit,
            max_rows,
            max_cell_chars,
        ) == Err::<Page, Problem>(problem)),
        input_problem is None && report_checks::tabular_controls_problem(
            max_rows,
            max_cell_chars,
            cursor,
        ) is None ==> (query_hash matches Err(problem) ==> page_of(
            input_problem,
            query_hash,
            cursor,
            offset,
            limit,
            max_rows,
            max_cell_chars,
        ) == Err::<Page, Problem>(problem)),
{
}

/// An answer is shown as it was asked for, and goes on behind the page that was fetched.
pub proof fn law_answers_are_shown_as_asked(
    options: TabularResponseOptions,
    page: Page,
    output_mode: Option<TabularOutputMode>,
    summary_only: bool,
    max_cell_chars: Option<usize>,
)
    requires
        shows(options, page, output_mode, summary_only, max_cell_chars),
    ensures
        options.query_hash@ == page.query_hash,
        options.cursor_offset == page.offset,
        options.summary_only == summary_only,
        options.max_cell_chars == max_cell_chars,
        options.output_mode == (match output_mode {
            None => contract::OutputMode::Rows,
            Some(TabularOutputMode::Rows) => contract::OutputMode::Rows,
            Some(TabularOutputMode::Tuples) => contract::OutputMode::Tuples,
            Some(TabularOutputMode::Scalar) => contract::OutputMode::Scalar,
            Some(TabularOutputMode::Compact) => contract::OutputMode::Compact,
        }),
{
}

/// The reports of a batch are sent in their order, each with its own page and shown as it was
/// asked for.
pub proof fn law_batches_keep_their_order(
    requests: Seq<BatchRunReportItemRequest>,
    options: Seq<TabularResponseOptions>,
    property: Seq<char>,
    items: Seq<BatchRunReportItemArgs>,
    i: int,
)
    requires
        sends_items(requests, options, property, items, items.len() as int),
        0 <= i < items.len(),
        items[i].cursor is None,
        i <= usize::MAX,
    ensures
        requests.len() == items.len(),
        options.len() == items.len(),
        requests[i].dimensions == items[i].dimensions,
        requests[i].metrics == items[i].metrics,
        requests[i].date_ranges == items[i].date_ranges,
        requests[i].dimension_filter == items[i].dimension_filter,
        requests[i].metric_filter == items[i].metric_filter,
        requests[i].order_bys == items[i].order_bys,
        requests[i].currency_code == items[i].currency_code,
        requests[i].return_property_quota == items[i].return_property_quota,
        requests[i].limit == Some(
            cursors::page_size(items[i].max_rows, items[i].limit) as u64,
        ),
        requests[i].offset == Some(
            match items[i].offset {
                Some(n) => n,
                None => 0u64,
            },
        ),
        options[i].cursor_offset == (match items[i].offset {
            Some(n) => n,
            None => 0u64,
        }),
        options[i].query_hash@ == cursors::query_hash(
            query_hashes::batch_item_signature(property, i as usize, items[i]),
        ),
        options[i].summary_only == items[i].summary_only,
        options[i].max_cell_chars == items[i].max_cell_chars,
{
    assert(sends_one(requests[i], options[i], property, items[i], i));
}

/// A batch is refused for its size, for its property, or for the first of its reports that is
/// refused.
pub proof fn law_batches_are_refused_for_their_reports(
    args: BatchRunReportsArgs,
    property: Seq<char>,
)
    requires
        1 <= args.requests@.len() <= 5,
    ensures
        args.property_id.named() matches Err(problem) ==> batch_fault(args) == Some(problem),
        args.property_id.named() == Ok::<Seq<char>, Problem>(property) ==> (batch_fault(args)
            is None <==> forall|i: int|
            0 <= i < args.requests@.len() ==> batch_item_page(
                property,
                #[trigger] args.requests@[i],
                i,
            ) is Ok),
{
    let check = batch_item_check(property, args.requests@);
    error::law_the_first_problem_is_told(args.requests@.len(), check);
    if forall|i: int| 0 <= i < args.requests@.len() ==> #[trigger] check(i) is None {
        assert forall|i: int| 0 <= i < args.requests@.len() implies batch_item_page(
            property,
            #[trigger] args.requests@[i],
            i,
        ) is Ok by {
            assert(check(i) is None);
        }
    }
    if forall|i: int|
        0 <= i < args.requests@.len() ==> batch_item_page(
            property,
            #[trigger] args.requests@[i],
            i,
        ) is Ok {
        assert forall|i: int| 0 <= i < args.requests@.len() implies #[trigger] check(i) is None by {
            assert(batch_item_page(property, args.requests@[i], i) is Ok);
        }
    }
}

/// The answer to a batch tells each report under its number, with its own rows; an answer with
/// more or fewer reports than were asked for is an error.
pub proof fn law_batches_are_answered_in_order(
    data: Tree,
    reports: Seq<Tree>,
    property: Seq<char>,
    options: Seq<TabularResponseOptions>,
    elapsed_ms: u64,
    i: int,
)
    requires
        data.field("reports"@) == Some(Tree::List(reports)),
    ensures
        reports.len() != options.len() ==> batch_envelope(
            data,
            property,
            options,
            elapsed_ms,
        ).field("ok"@) == Some(Tree::Bool(false)),
        reports.len() == options.len() ==> batch_envelope(
            data,
            property,
            options,
            elapsed_ms,
        ).field("ok"@) == Some(Tree::Bool(true)),
        reports.len() == options.len() && 0 <= i < reports.len() ==> (batch_envelope(
            data,
            property,
            options,
            elapsed_ms,
        ).field("data"@) matches Some(told) && (told.field("reports"@) matches Some(
            Tree::List(items),
        ) && items.len() == reports.len() && items[i].field("index"@) == Some(Tree::Whole(i))
            && items[i].field("data"@) == Some(
            tabular::table_payload(
                tabular::answer_table(reports[i], "batch_run_reports"@),
                options[i].output_mode,
                options[i].summary_only,
                options[i].max_cell_chars,
            ),
        ))),
        reports.len() == options.len() ==> (batch_envelope(
            data,
            property,
            options,
            elapsed_ms,
        ).field("meta"@) matches Some(meta) && (meta.field("batch"@) matches Some(batch)
            && batch.field("property"@) == Some(Tree::Text(property)) && batch.field(
            "request_count"@,
        ) == Some(Tree::Whole(options.len() as int)) && batch.field("response_count"@) == Some(
            Tree::Whole(reports.len() as int),
        ))),
{
    broadcast use json::group_found;

    reveal_strlit("reports");
    assert("reports"@.len() == 7);
    reveal_strlit("index");
    assert("index"@.len() == 5);
    reveal_strlit("data");
    assert("data"@.len() == 4);
    reveal_strlit("meta");
    assert("meta"@.len() == 4);
    reveal_strlit("batch");
    assert("batch"@.len() == 5);
    reveal_strlit("property");
    assert("property"@.len() == 8);
    reveal_strlit("request_count");
    assert("request_count"@.len() == 13);
    reveal_strlit("response_count");
    assert("response_count"@.len() == 14);
    reveal_strlit("elapsed_ms");
    assert("elapsed_ms"@.len() == 10);
    reveal_strlit("ok");
    assert("ok"@.len() == 2);
    reveal_strlit("error");
    assert("error"@.len() == 5);
    assert("index"@[0] != "batch"@[0]);
    assert("index"@[0] != "error"@[0]);
    assert("data"@[0] != "meta"@[0]);
    assert("batch"@[0] != "error"@[0]);
    let batch = Tree::Dict(
        json::fields()
            .push(("property"@, Tree::Text(property)))
            .push(("request_count"@, Tree::Whole(options.len() as int)))
            .push(("response_count"@, Tree::Whole(reports.len() as int))),
    );
    let entries = json::fields().push(("batch"@, batch));
    contract::law_successes_say_so(Tree::Null, entries, elapsed_ms);
    assert(contract::with_elapsed(Tree::Dict(entries), elapsed_ms).field("batch"@)
        == json::lookup(entries, "batch"@));
}

/// The check of a report tells what was asked, what came back, and what came of it.
pub proof fn law_checks_tell_what_was_asked(
    property: Seq<char>,
    args: CheckReportCompatibilityArgs,
    compatibility: Tree,
    custom_inventory: Tree,
)
    ensures
        compatibility_tree(property, args, compatibility, custom_inventory).field("property_id"@)
            == Some(Tree::Text(property)),
        compatibility_tree(property, args, compatibility, custom_inventory).field("raw"@) == Some(
            compatibility,
        ),
        compatibility_tree(property, args, compatibility, custom_inventory).field(
            "custom_inventory"@,
        ) == Some(custom_inventory),
        compatibility_tree(property, args, compatibility, custom_inventory).field("compatibility"@)
            == Some(compatibility::summary(compatibility)),
        compatibility_tree(property, args, compatibility, custom_inventory).field(
            "request"@,
        ) matches Some(request) && request.field("dimensions"@) == Some(
            Tree::List(
                Seq::new(
                    args.dimensions@.len(),
                    |i: int| Tree::Text(args.dimensions@[i]@),
                ),
            ),
        ) && request.field("metrics"@) == Some(
            Tree::List(
                Seq::new(args.metrics@.len(), |i: int| Tree::Text(args.metrics@[i]@)),
            ),
        ),
{
    broadcast use json::group_found;

    assert(json::text_list(text::texts(args.dimensions@))->List_0 =~= Seq::new(
        args.dimensions@.len(),
        |i: int| Tree::Text(args.dimensions@[i]@),
    ));
    assert(json::text_list(text::texts(args.metrics@))->List_0 =~= Seq::new(
        args.metrics@.len(),
        |i: int| Tree::Text(args.metrics@[i]@),
    ));
    reveal_strlit("property_id");
    assert("property_id"@.len() == 11);
    reveal_strlit("request");
    assert("request"@.len() == 7);
    reveal_strlit("compatibility");
    assert("compatibility"@.len() == 13);
    reveal_strlit("custom_inventory");
    assert("custom_inventory"@.len() == 16);
    reveal_strlit("raw");
    assert("raw"@.len() == 3);
    reveal_strlit("dimensions");
    assert("dimensions"@.len() == 10);
    reveal_strlit("metrics");
    assert("metrics"@.len() == 7);
    assert("request"@[0] != "metrics"@[0]);
}

/// What a report of conversions, or a funnel, is sent with beside its names: each part under
/// its own name, and limits as numerals.
pub proof fn law_parts_are_sent_under_their_names(
    conversions: ConversionSpecArgs,
    breakdown: FunnelBreakdownArgs,
    next_action: FunnelNextActionArgs,
)
    ensures
        sent_conversions(conversions).field("conversion_actions"@) == Some(
            Tree::List(
                Seq::new(
                    conversions.conversion_actions@.len(),
                    |i: int| Tree::Text(conversions.conversion_actions@[i]@),
                ),
            ),
        ),
        sent_conversions(conversions).field("attribution_model"@) == (
        match conversions.attribution_model {
            Some(
                crate::report_args::AttributionModel::DataDriven,
            ) => Some(Tree::Text("DATA_DRIVEN"@)),
            Some(
                crate::report_args::AttributionModel::LastClick,
            ) => Some(Tree::Text("LAST_CLICK"@)),
            None => None,
        }),
        sent_breakdown(None) is None,
        sent_next_action(None) is None,
        sent_breakdown(Some(breakdown)) matches Some(sent) && (sent.field(
            "breakdown_dimension"@,
        ) matches Some(dimension) && dimension.field("name"@) == Some(
            Tree::Text(breakdown.breakdown_dimension@),
        )) && sent.field("limit"@) == (match breakdown.limit {
            Some(n) => Some(Tree::Text(text::decimal(n as nat))),
            None => None,
        }),
        sent_next_action(Some(next_action)) matches Some(sent) && (sent.field(
            "next_action_dimension"@,
        ) matches Some(dimension) && dimension.field("name"@) == Some(
            Tree::Text(next_action.next_action_dimension@),
        )) && sent.field("limit"@) == (match next_action.limit {
            Some(n) => Some(Tree::Text(text::decimal(n as nat))),
            None => None,
        }),
{
    broadcast use json::group_found;

    assert(json::text_list(text::texts(conversions.conversion_actions@))->List_0 =~= Seq::new(
        conversions.conversion_actions@.len(),
        |i: int| Tree::Text(conversions.conversion_actions@[i]@),
    ));
    reveal_strlit("conversion_actions");
    assert("conversion_actions"@.len() == 18);
    reveal_strlit("attribution_model");
    assert("attribution_model"@.len() == 17);
    reveal_strlit("breakdown_dimension");
    assert("breakdown_dimension"@.len() == 19);
    reveal_strlit("next_action_dimension");
    assert("next_action_dimension"@.len() == 21);
    reveal_strlit("name");
    assert("name"@.len() == 4);
    reveal_strlit("limit");
    assert("limit"@.len() == 5);
}

/// A funnel is sent with the steps, the dates and the filters that it was asked with, and its
/// limit is the least of those that are asked for.
pub proof fn law_funnels_are_sent_as_asked(
    plan: PlannedFunnel,
    query_hash: Seq<char>,
    args: RunFunnelReportArgs,
    i: int,
)
    requires
        sends_funnel(plan, query_hash, args),
        0 <= i < args.funnel_steps@.len(),
    ensures
        plan.request.property_id == args.property_id,
        plan.request.date_ranges == args.date_ranges,
        plan.request.is_open_funnel == args.is_open_funnel,
        plan.request.segments == args.segments,
        plan.request.dimension_filter == args.dimension_filter,
        plan.request.return_property_quota == args.return_property_quota,
        plan.request.limit == Some(cursors::funnel_limit(args.max_rows, args.limit) as u64),
        plan.options.effective_limit == cursors::funnel_limit(args.max_rows, args.limit) as u64,
        plan.options.requested_limit == args.limit,
        plan.options.query_hash@ == query_hash,
        plan.options.summary_only == args.summary_only,
        plan.options.max_cell_chars == args.max_cell_chars,
        plan.steps@.len() == args.funnel_steps@.len(),
        plan.steps@[i]@ == query_hashes::normal_step(args.funnel_steps@[i], i),
        plan.request.funnel_steps@.len() == args.funnel_steps@.len(),
        plan.request.funnel_steps@[i]@ == query_hashes::plain_step(args.funnel_steps@[i]),
{
    assert(json::trees(plan.steps@)[i] == query_hashes::normal_steps(args.funnel_steps@)[i]);
    assert(json::trees(plan.request.funnel_steps@)[i] == plain_steps(args.funnel_steps@)[i]);
    assert(json::trees(plan.steps@).len() == plan.steps@.len());
    assert(json::trees(plan.request.funnel_steps@).len() == plan.request.funnel_steps@.len());
}

/// A funnel is planned where it is in order and can be shown, and its property has a name; its
/// hash is that of what it asks for, as it is sent.
pub proof fn law_funnels_are_planned_where_in_order(args: RunFunnelReportArgs, property: Seq<char>)
    requires
        args.property_id.named() == Ok::<Seq<char>, Problem>(property),
    ensures
        report_checks::funnel_problem(args) matches Some(problem) ==> funnel_query(args) == Err::<
            Seq<char>,
            Problem,
        >(problem),
        report_checks::funnel_problem(args) is None && report_checks::tabular_controls_problem(
            args.max_rows,
            args.max_cell_chars,
            None,
        ) is None ==> funnel_query(args) == Ok::<Seq<char>, Problem>(
            cursors::query_hash(
                ga_client::camel_tree(query_hashes::funnel_signature(property, args)),
            ),
        ),
{
}

/// Whether a report can be made is asked where its names are in order and its property has a
/// name.
pub proof fn law_checks_are_planned_where_in_order(args: CheckReportCompatibilityArgs)
    ensures
        report_checks::metric_lists_problem(
            text::texts(args.dimensions@),
            text::texts(args.metrics@),
        ) matches Some(problem) ==> compatibility_query(args) == Err::<Seq<char>, Problem>(problem),
        report_checks::metric_lists_problem(
            text::texts(args.dimensions@),
            text::texts(args.metrics@),
        ) is None ==> compatibility_query(args) == args.property_id.named(),
{
}

/// A report of a batch tells its place beside what is told of every page; and an answer that is
/// not what was asked for is said to be so.
pub proof fn law_batches_tell_the_place_of_reports(
    report: Tree,
    options: TabularResponseOptions,
    index: int,
    reports: Seq<Tree>,
    data: Tree,
    n: nat,
)
    ensures
        batch_item_tree(report, options, index).field("meta"@) matches Some(meta) && meta.field(
            "batch_index"@,
        ) == Some(Tree::Whole(index)),
        data.field("reports"@) is None ==> batch_answer_problem(data, n as int) == Some(
            Problem::Internal("batch_run_reports response missing 'reports' array"@),
        ),
        data.field("reports"@) == Some(Tree::List(reports)) && reports.len() != n
            ==> batch_answer_problem(data, n as int) == Some(
            Problem::Internal(
                "batch_run_reports response count mismatch: expected "@ + text::decimal(n)
                    + ", got "@ + text::decimal(reports.len()),
            ),
        ),
{
    broadcast use json::group_found;

    reveal_strlit("index");
    assert("index"@.len() == 5);
    reveal_strlit("data");
    assert("data"@.len() == 4);
    reveal_strlit("meta");
    assert("meta"@.len() == 4);
    assert("data"@[0] != "meta"@[0]);
    let table = tabular::answer_table(report, "batch_run_reports"@);
    json::law_entered_values_are_found(
        tabular::answer_page_meta(table, options)->Dict_0,
        "batch_index"@,
        Tree::Whole(index),
        "batch_index"@,
    );
}

} // verus!
