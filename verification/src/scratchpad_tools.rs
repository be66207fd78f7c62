//! The scratchpad tools: what each runs for its arguments, and what it says of the outcome.

use vstd::prelude::*;
use vstd::string::*;

use crate::contract;
use crate::contract::OutputMode;
use crate::cursors;
use crate::dates;
use crate::error;
use crate::error::{AnalyticsError, Problem};
use crate::ga_client;
use crate::ingest;
use crate::json;
use crate::json::{Json, Object, Tree};
use crate::release_sql;
use crate::report_args;
use crate::report_args::{
    ScratchpadEvidenceBundleArgs, ScratchpadIngestRealtimeArgs, ScratchpadIngestReportArgs,
    ScratchpadLandingParamShiftArgs, ScratchpadQueryArgs, ScratchpadReleaseRegressionArgs, ScratchpadSetRuntimeLimitsArgs,
    ScratchpadTableHelperArgs, TabularOutputMode,
};
use crate::report_checks;
use crate::scratchpad_query;
use crate::scratchpad_query::{ScratchpadQueryControls, ScratchpadTabularProjection};
use crate::sql_text;
use crate::tabular;
use crate::text;

verus! {

pub const DEFAULT_LANDING_SHIFT_TOP_N: usize = 100;

pub const MAX_LANDING_SHIFT_TOP_N: usize = 1_000;

pub const DEFAULT_EVIDENCE_SAMPLE_ROWS: usize = 20;

pub const MAX_EVIDENCE_SAMPLE_ROWS: usize = 200;

pub const MAX_EVIDENCE_TABLES: usize = 50;

/// How many shifts of landing parameters are shown.
pub fn resolve_landing_shift_top_n(value: Option<usize>) -> (r: Result<usize, AnalyticsError>)
    ensures
        report_checks::size_result(r) == report_checks::resolved_size(
            "top_n"@,
            value,
            DEFAULT_LANDING_SHIFT_TOP_N,
            MAX_LANDING_SHIFT_TOP_N,
        ),
{
    report_checks::resolve_size(
        "top_n",
        value,
        DEFAULT_LANDING_SHIFT_TOP_N,
        MAX_LANDING_SHIFT_TOP_N,
    )
}

/// How many rows of each table an evidence bundle shows.
pub fn resolve_evidence_sample_rows(value: Option<usize>) -> (r: Result<usize, AnalyticsError>)
    ensures
        report_checks::size_result(r) == report_checks::resolved_size(
            "sample_rows_per_table"@,
            value,
            DEFAULT_EVIDENCE_SAMPLE_ROWS,
            MAX_EVIDENCE_SAMPLE_ROWS,
        ),
{
    report_checks::resolve_size(
        "sample_rows_per_table",
        value,
        DEFAULT_EVIDENCE_SAMPLE_ROWS,
        MAX_EVIDENCE_SAMPLE_ROWS,
    )
}

// ---------------------------------------------------------------------------
// Queries.
// ---------------------------------------------------------------------------

/// A query that a tool runs, and where it comes from.
#[derive(Debug)]
pub struct ToolQuery {
    pub tool_name: &'static str,
    pub session_id: String,
    pub sql: String,
    pub controls: ScratchpadQueryControls,
    pub source: Option<Json>,
}

/// What a query of a tool says, beside how its answer is shown.
#[verifier::ext_equal]
pub struct Asked {
    pub tool_name: Seq<char>,
    pub session_id: Seq<char>,
    pub sql: Seq<char>,
    pub source: Option<Tree>,
}

impl ToolQuery {
    /// What the query says.
    pub open spec fn asked(self) -> Asked {
        Asked {
            tool_name: self.tool_name@,
            session_id: self.session_id@,
            sql: self.sql@,
            source: json::opt_view(self.source),
        }
    }
}

/// Whether controls are those of a request.
pub open spec fn controls_are(
    controls: ScratchpadQueryControls,
    max_rows: Option<usize>,
    cursor: Option<String>,
    output_mode: Option<TabularOutputMode>,
    summary_only: bool,
    max_cell_chars: Option<usize>,
) -> bool {
    controls == (ScratchpadQueryControls {
        max_rows,
        cursor,
        output_mode: report_args::shape_of(output_mode),
        summary_only,
        max_cell_chars,
    })
}

fn controls_for(
    max_rows: Option<usize>,
    cursor: Option<String>,
    output_mode: Option<TabularOutputMode>,
    summary_only: bool,
    max_cell_chars: Option<usize>,
) -> (r: ScratchpadQueryControls)
    ensures
        controls_are(r, max_rows, cursor, output_mode, summary_only, max_cell_chars),
{
    ScratchpadQueryControls {
        max_rows,
        cursor,
        output_mode: report_args::output_shape(output_mode),
        summary_only,
        max_cell_chars,
    }
}

/// The query of a request.
pub fn plan_query_tool(args: ScratchpadQueryArgs) -> (r: ToolQuery)
    ensures
        r.asked() == (Asked {
            tool_name: "scratchpad_query"@,
            session_id: args.session_id@,
            sql: args.sql@,
            source: None,
        }),
        controls_are(
            r.controls,
            args.max_rows,
            args.cursor,
            args.output_mode,
            args.summary_only,
            args.max_cell_chars,
        ),
{
    ToolQuery {
        tool_name: "scratchpad_query",
        session_id: args.session_id,
        sql: args.sql,
        controls: controls_for(
            args.max_rows,
            args.cursor,
            args.output_mode,
            args.summary_only,
            args.max_cell_chars,
        ),
        source: None,
    }
}

/// Where the query of a helper comes from.
pub open spec fn helper_source(
    helper: Seq<char>,
    requested: Seq<char>,
    normalized: Seq<char>,
) -> Seq<(Seq<char>, Tree)> {
    json::fields()
        .push(("helper"@, Tree::Text(helper)))
        .push(("table_name"@, ingest::table_name_tree(requested, normalized)))
}

fn helper_source_object(helper: &str, requested: &str, normalized: &str) -> (r: Object)
    ensures
        r@ == helper_source(helper@, requested@, normalized@),
{
    let mut object = Object::new();
    object.put("helper", json::string(helper));
    object.put("table_name", ingest::table_name_value(requested, normalized));
    object
}

/// The query of a helper for one table.
pub open spec fn table_helper(
    helper: Seq<char>,
    verb: Seq<char>,
    args: ScratchpadTableHelperArgs,
) -> Result<Asked, Problem> {
    match sql_text::table_identifier(args.table_name@) {
        Err(problem) => Err(problem),
        Ok(table) => Ok(
            Asked {
                tool_name: helper,
                session_id: args.session_id@,
                sql: verb + sql_text::quoted_identifier(table),
                source: Some(Tree::Dict(helper_source(helper, args.table_name@, table))),
            },
        ),
    }
}

/// Whether the outcome of planning a query is as it should be.
pub open spec fn planned(r: Result<ToolQuery, AnalyticsError>, asked: Result<Asked, Problem>) -> bool {
    match asked {
        Err(problem) => r matches Err(err) && err@ == problem,
        Ok(query) => r matches Ok(plan) && plan.asked() == query,
    }
}

fn plan_table_helper(
    helper: &'static str,
    verb: &str,
    args: ScratchpadTableHelperArgs,
) -> (r: Result<ToolQuery, AnalyticsError>)
    ensures
        planned(r, table_helper(helper@, verb@, args)),
        r matches Ok(plan) ==> controls_are(
            plan.controls,
            args.max_rows,
            args.cursor,
            args.output_mode,
            args.summary_only,
            args.max_cell_chars,
        ),
{
    let table: String = match sql_text::normalize_table_identifier(args.table_name.as_str()) {
        Ok(table) => table,
        Err(err) => {
            return Err(err);
        },
    };
    let source: Object = helper_source_object(helper, args.table_name.as_str(), table.as_str());
    let sql: String = error::labelled(
        verb,
        sql_text::quote_sql_identifier(table.as_str()).as_str(),
    );
    Ok(
        ToolQuery {
            tool_name: helper,
            session_id: args.session_id,
            sql,
            controls: controls_for(
                args.max_rows,
                args.cursor,
                args.output_mode,
                args.summary_only,
                args.max_cell_chars,
            ),
            source: Some(json::dict(source)),
        },
    )
}

/// The query that describes a table.
pub fn plan_describe_table(args: ScratchpadTableHelperArgs) -> (r: Result<
    ToolQuery,
    AnalyticsError,
>)
    ensures
        planned(
            r,
            table_helper("scratchpad_describe_table"@, "DESCRIBE SELECT * FROM "@, args),
        ),
        r matches Ok(plan) ==> controls_are(
            plan.controls,
            args.max_rows,
            args.cursor,
            args.output_mode,
            args.summary_only,
            args.max_cell_chars,
        ),
{
    plan_table_helper("scratchpad_describe_table", "DESCRIBE SELECT * FROM ", args)
}

/// The query that summarizes a table.
pub fn plan_summarize_table(args: ScratchpadTableHelperArgs) -> (r: Result<
    ToolQuery,
    AnalyticsError,
>)
    ensures
        planned(
            r,
            table_helper("scratchpad_summarize_table"@, "SUMMARIZE SELECT * FROM "@, args),
        ),
        r matches Ok(plan) ==> controls_are(
            plan.controls,
            args.max_rows,
            args.cursor,
            args.output_mode,
            args.summary_only,
            args.max_cell_chars,
        ),
{
    plan_table_helper("scratchpad_summarize_table", "SUMMARIZE SELECT * FROM ", args)
}

// ---------------------------------------------------------------------------
// Release reports.
// ---------------------------------------------------------------------------

/// The days before a release, in transition and after it.
pub struct Windows {
    pub pre_days: u32,
    pub transition_days: u32,
    pub post_days: u32,
}

/// The windows around a release, or what is wrong with them.
pub open spec fn release_windows(
    pre_days: Option<u32>,
    transition_days: Option<u32>,
    post_days: Option<u32>,
) -> Result<Windows, Problem> {
    match dates::window_days(pre_days, dates::DEFAULT_RELEASE_PRE_DAYS, "pre_days"@) {
        Err(problem) => Err(problem),
        Ok(pre_days) => match dates::window_days(
            transition_days,
            dates::DEFAULT_RELEASE_TRANSITION_DAYS,
            "transition_days"@,
        ) {
            Err(problem) => Err(problem),
            Ok(transition_days) => match dates::window_days(
                post_days,
                dates::DEFAULT_RELEASE_POST_DAYS,
                "post_days"@,
            ) {
                Err(problem) => Err(problem),
                Ok(post_days) => Ok(Windows { pre_days, transition_days, post_days }),
            },
        },
    }
}

fn resolve_windows(
    pre_days: Option<u32>,
    transition_days: Option<u32>,
    post_days: Option<u32>,
) -> (r: Result<Windows, AnalyticsError>)
    ensures
        match release_windows(pre_days, transition_days, post_days) {
            Ok(windows) => r matches Ok(found) && found == windows,
            Err(problem) => r matches Err(err) && err@ == problem,
        },
{
    let pre_days: u32 = match dates::resolve_release_window_days(
        pre_days,
        dates::DEFAULT_RELEASE_PRE_DAYS,
        "pre_days",
    ) {
        Ok(days) => days,
        Err(err) => {
            return Err(err);
        },
    };
    let transition_days: u32 = match dates::resolve_release_window_days(
        transition_days,
        dates::DEFAULT_RELEASE_TRANSITION_DAYS,
        "transition_days",
    ) {
        Ok(days) => days,
        Err(err) => {
            return Err(err);
        },
    };
    match dates::resolve_release_window_days(
        post_days,
        dates::DEFAULT_RELEASE_POST_DAYS,
        "post_days",
    ) {
        Ok(post_days) => Ok(Windows { pre_days, transition_days, post_days }),
        Err(err) => Err(err),
    }
}

/// What is wrong with the two events of a release report.
pub open spec fn events_problem(anchor: Seq<char>, comparison: Seq<char>) -> Option<Problem> {
    if anchor.len() == 0 {
        Some(Problem::InvalidArgument("anchor_event"@, "must not be empty"@))
    } else if comparison.len() == 0 {
        Some(Problem::InvalidArgument("comparison_event"@, "must not be empty"@))
    } else if anchor == comparison {
        Some(
            Problem::InvalidArgument("comparison_event"@, "must be different from anchor_event"@),
        )
    } else {
        None
    }
}

fn check_events(anchor: &str, comparison: &str) -> (r: Result<(), AnalyticsError>)
    ensures
        error::outcome(r) == events_problem(anchor@, comparison@),
{
    if anchor.is_empty() {
        return Err(AnalyticsError::invalid("anchor_event", "must not be empty"));
    }
    if comparison.is_empty() {
        return Err(AnalyticsError::invalid("comparison_event", "must not be empty"));
    }
    if text::same_text(anchor, comparison) {
        return Err(
            AnalyticsError::invalid("comparison_event", "must be different from anchor_event"),
        );
    }
    Ok(())
}

/// The identifier for a column that a request may name.
pub open spec fn named_column(name: Option<String>, default: Seq<char>, fallback: Seq<char>) -> Seq<
    char,
> {
    sql_text::identifier_of(
        match name {
            Some(held) => held@,
            None => default,
        },
        fallback,
    )
}

/// The identifier for a column, where a request names one.
pub open spec fn optional_column(name: Option<String>, fallback: Seq<char>) -> Option<Seq<char>> {
    match name {
        Some(held) => Some(sql_text::identifier_of(held@, fallback)),
        None => None,
    }
}

fn column_or(name: &Option<String>, default: &str, fallback: &str) -> (r: String)
    ensures
        r@ == named_column(*name, default@, fallback@),
{
    match name {
        Some(held) => sql_text::normalize_sql_identifier(held.as_str(), fallback),
        None => sql_text::normalize_sql_identifier(default, fallback),
    }
}

fn column_if_named(name: &Option<String>, fallback: &str) -> (r: Option<String>)
    ensures
        text::opt_text(r) == optional_column(*name, fallback@),
{
    match name {
        Some(held) => Some(sql_text::normalize_sql_identifier(held.as_str(), fallback)),
        None => None,
    }
}

fn opt_ref(held: &Option<String>) -> (r: Option<&str>)
    ensures
        text::opt_str(r) == text::opt_text(*held),
{
    match held {
        Some(t) => Some(t.as_str()),
        None => None,
    }
}

/// The query of a release report whose arguments are in order.
pub open spec fn release_asked(
    args: ScratchpadReleaseRegressionArgs,
    table: Seq<char>,
    date: Seq<char>,
    windows: Windows,
) -> Asked {
    let anchor = text::trim(args.anchor_event@);
    let comparison = text::trim(args.comparison_event@);
    let date_column = named_column(args.date_column, "date"@, "date"@);
    let event_column = named_column(args.event_column, "event_name"@, "event"@);
    let metric_column = optional_column(args.metric_column, "metric"@);
    Asked {
        tool_name: "scratchpad_release_regression_report"@,
        session_id: args.session_id@,
        sql: release_sql::release_regression_sql(
            table,
            date,
            anchor,
            comparison,
            date_column,
            event_column,
            metric_column,
            windows.pre_days,
            windows.transition_days,
            windows.post_days,
        ),
        source: Some(
            Tree::Dict(
                helper_source(
                    "scratchpad_release_regression_report"@,
                    args.table_name@,
                    table,
                ).push(
                    (
                        "release"@,
                        Tree::Dict(
                            json::fields()
                                .push(("release_date"@, Tree::Text(date)))
                                .push(("anchor_event"@, Tree::Text(anchor)))
                                .push(("comparison_event"@, Tree::Text(comparison)))
                                .push(("date_column"@, Tree::Text(date_column)))
                                .push(("event_column"@, Tree::Text(event_column)))
                                .push(("metric_column"@, json::opt_text(metric_column)))
                                .push(("pre_days"@, Tree::Whole(windows.pre_days as int)))
                                .push(
                                    (
                                        "transition_days"@,
                                        Tree::Whole(windows.transition_days as int),
                                    ),
                                )
                                .push(("post_days"@, Tree::Whole(windows.post_days as int))),
                        ),
                    ),
                ),
            ),
        ),
    }
}

/// The query of a release report, or the first thing that is wrong with the request.
pub open spec fn release_query(args: ScratchpadReleaseRegressionArgs) -> Result<Asked, Problem> {
    match sql_text::table_identifier(args.table_name@) {
        Err(problem) => Err(problem),
        Ok(table) => match dates::release_date(args.release_date@) {
            Err(problem) => Err(problem),
            Ok(date) => match events_problem(
                text::trim(args.anchor_event@),
                text::trim(args.comparison_event@),
            ) {
                Some(problem) => Err(problem),
                None => match release_windows(
                    args.pre_days,
                    args.transition_days,
                    args.post_days,
                ) {
                    Err(problem) => Err(problem),
                    Ok(windows) => Ok(release_asked(args, table, date, windows)),
                },
            },
        },
    }
}

/// The query of a release report.
pub fn plan_release_regression_report(args: ScratchpadReleaseRegressionArgs) -> (r: Result<
    ToolQuery,
    AnalyticsError,
>)
    ensures
        planned(r, release_query(args)),
        r matches Ok(plan) ==> controls_are(
            plan.controls,
            args.max_rows,
            args.cursor,
            args.output_mode,
            args.summary_only,
            args.max_cell_chars,
        ),
{
    let table: String = match sql_text::normalize_table_identifier(args.table_name.as_str()) {
        Ok(table) => table,
        Err(err) => {
            return Err(err);
        },
    };
    let date: String = match dates::parse_iso_date_literal(args.release_date.as_str()) {
        Ok(date) => date,
        Err(err) => {
            return Err(err);
        },
    };
    let anchor: String = text::trimmed(args.anchor_event.as_str());
    let comparison: String = text::trimmed(args.comparison_event.as_str());
    match check_events(anchor.as_str(), comparison.as_str()) {
        Err(err) => {
            return Err(err);
        },
        Ok(()) => {},
    }
    let windows: Windows = match resolve_windows(
        args.pre_days,
        args.transition_days,
        args.post_days,
    ) {
        Ok(windows) => windows,
        Err(err) => {
            return Err(err);
        },
    };
    let date_column: String = column_or(&args.date_column, "date", "date");
    let event_column: String = column_or(&args.event_column, "event_name", "event");
    let metric_column: Option<String> = column_if_named(&args.metric_column, "metric");
    let sql: String = release_sql::build_release_regression_sql(
        table.as_str(),
        date.as_str(),
        anchor.as_str(),
        comparison.as_str(),
        date_column.as_str(),
        event_column.as_str(),
        opt_ref(&metric_column),
        windows.pre_days,
        windows.transition_days,
        windows.post_days,
    );
    let mut release = Object::new();
    release.put("release_date", json::string(date.as_str()));
    release.put("anchor_event", json::string(anchor.as_str()));
    release.put("comparison_event", json::string(comparison.as_str()));
    release.put("date_column", json::string(date_column.as_str()));
    release.put("event_column", json::string(event_column.as_str()));
    release.put("metric_column", json::string_or_null(&metric_column));
    release.put("pre_days", json::whole(windows.pre_days as u64));
    release.put("transition_days", json::whole(windows.transition_days as u64));
    release.put("post_days", json::whole(windows.post_days as u64));
    let mut source: Object = helper_source_object(
        "scratchpad_release_regression_report",
        args.table_name.as_str(),
        table.as_str(),
    );
    source.put("release", json::dict(release));
    Ok(
        ToolQuery {
            tool_name: "scratchpad_release_regression_report",
            session_id: args.session_id,
            sql,
            controls: controls_for(
                args.max_rows,
                args.cursor,
                args.output_mode,
                args.summary_only,
                args.max_cell_chars,
            ),
            source: Some(json::dict(source)),
        },
    )
}

/// The query of a landing report whose arguments are in order.
pub open spec fn landing_asked(
    args: ScratchpadLandingParamShiftArgs,
    table: Seq<char>,
    date: Seq<char>,
    windows: Windows,
    top_n: usize,
) -> Asked {
    let date_column = named_column(args.date_column, "date_parsed"@, "date"@);
    let landing_url_column = named_column(
        args.landing_url_column,
        "landingpageplusquerystring"@,
        "landing_url"@,
    );
    let channel_column = optional_column(args.channel_column, "channel"@);
    let source_medium_column = optional_column(args.source_medium_column, "source_medium"@);
    Asked {
        tool_name: "scratchpad_landing_param_shift_report"@,
        session_id: args.session_id@,
        sql: release_sql::landing_param_shift_sql(
            table,
            date,
            date_column,
            landing_url_column,
            channel_column,
            source_medium_column,
            windows.pre_days,
            windows.transition_days,
            windows.post_days,
            top_n,
        ),
        source: Some(
            Tree::Dict(
                helper_source(
                    "scratchpad_landing_param_shift_report"@,
                    args.table_name@,
                    table,
                ).push(
                    (
                        "release"@,
                        Tree::Dict(
                            json::fields()
                                .push(("release_date"@, Tree::Text(date)))
                                .push(("date_column"@, Tree::Text(date_column)))
                                .push(("landing_url_column"@, Tree::Text(landing_url_column)))
                                .push(("channel_column"@, json::opt_text(channel_column)))
                                .push(
                                    ("source_medium_column"@, json::opt_text(source_medium_column)),
                                )
                                .push(("pre_days"@, Tree::Whole(windows.pre_days as int)))
                                .push(
                                    (
                                        "transition_days"@,
                                        Tree::Whole(windows.transition_days as int),
                                    ),
                                )
                                .push(("post_days"@, Tree::Whole(windows.post_days as int)))
                                .push(("top_n"@, Tree::Whole(top_n as int))),
                        ),
                    ),
                ),
            ),
        ),
    }
}

/// The query of a landing report, or the first thing that is wrong with the request.
pub open spec fn landing_query(args: ScratchpadLandingParamShiftArgs) -> Result<Asked, Problem> {
    match sql_text::table_identifier(args.table_name@) {
        Err(problem) => Err(problem),
        Ok(table) => match dates::release_date(args.release_date@) {
            Err(problem) => Err(problem),
            Ok(date) => match release_windows(
                args.pre_days,
                args.transition_days,
                args.post_days,
            ) {
                Err(problem) => Err(problem),
                Ok(windows) => match report_checks::resolved_size(
                    "top_n"@,
                    args.top_n,
                    DEFAULT_LANDING_SHIFT_TOP_N,
                    MAX_LANDING_SHIFT_TOP_N,
                ) {
                    Err(problem) => Err(problem),
                    Ok(top_n) => Ok(landing_asked(args, table, date, windows, top_n)),
                },
            },
        },
    }
}

/// The query of a landing report.
pub fn plan_landing_param_shift_report(args: ScratchpadLandingParamShiftArgs) -> (r: Result<
    ToolQuery,
    AnalyticsError,
>)
    ensures
        planned(r, landing_query(args)),
        r matches Ok(plan) ==> controls_are(
            plan.controls,
            args.max_rows,
            args.cursor,
            args.output_mode,
            args.summary_only,
            args.max_cell_chars,
        ),
{
    let table: String = match sql_text::normalize_table_identifier(args.table_name.as_str()) {
        Ok(table) => table,
        Err(err) => {
            return Err(err);
        },
    };
    let date: String = match dates::parse_iso_date_literal(args.release_date.as_str()) {
        Ok(date) => date,
        Err(err) => {
            return Err(err);
        },
    };
    let windows: Windows = match resolve_windows(
        args.pre_days,
        args.transition_days,
        args.post_days,
    ) {
        Ok(windows) => windows,
        Err(err) => {
            return Err(err);
        },
    };
    let top_n: usize = match resolve_landing_shift_top_n(args.top_n) {
        Ok(n) => n,
        Err(err) => {
            return Err(err);
        },
    };
    let date_column: String = column_or(&args.date_column, "date_parsed", "date");
    let landing_url_column: String = column_or(
        &args.landing_url_column,
        "landingpageplusquerystring",
        "landing_url",
    );
    let channel_column: Option<String> = column_if_named(&args.channel_column, "channel");
    let source_medium_column: Option<String> = column_if_named(
        &args.source_medium_column,
        "source_medium",
    );
    let sql: String = release_sql::build_landing_param_shift_sql(
        table.as_str(),
        date.as_str(),
        date_column.as_str(),
        landing_url_column.as_str(),
        opt_ref(&channel_column),
        opt_ref(&source_medium_column),
        windows.pre_days,
        windows.transition_days,
        windows.post_days,
        top_n,
    );
    let mut release = Object::new();
    release.put("release_date", json::string(date.as_str()));
    release.put("date_column", json::string(date_column.as_str()));
    release.put("landing_url_column", json::string(landing_url_column.as_str()));
    release.put("channel_column", json::string_or_null(&channel_column));
    release.put("source_medium_column", json::string_or_null(&source_medium_column));
    release.put("pre_days", json::whole(windows.pre_days as u64));
    release.put("transition_days", json::whole(windows.transition_days as u64));
    release.put("post_days", json::whole(windows.post_days as u64));
    release.put("top_n", json::size(top_n));
    let mut source: Object = helper_source_object(
        "scratchpad_landing_param_shift_report",
        args.table_name.as_str(),
        table.as_str(),
    );
    source.put("release", json::dict(release));
    Ok(
        ToolQuery {
            tool_name: "scratchpad_landing_param_shift_report",
            session_id: args.session_id,
            sql,
            controls: controls_for(
                args.max_rows,
                args.cursor,
                args.output_mode,
                args.summary_only,
                args.max_cell_chars,
            ),
            source: Some(json::dict(source)),
        },
    )
}

// ---------------------------------------------------------------------------
// Ingest tools.
// ---------------------------------------------------------------------------

/// What is wrong with a request that writes a table with an option that only reading
/// knows.
pub open spec fn read_option_problem(
    has_cursor: bool,
    summary_only: bool,
    tool_name: Seq<char>,
) -> Option<Problem> {
    if has_cursor {
        Some(
            Problem::InvalidArgument(
                "cursor"@,
                "cursor is not supported for "@ + tool_name + "; use offset/limit"@,
            ),
        )
    } else if summary_only {
        Some(
            Problem::InvalidArgument(
                "summary_only"@,
                "summary_only=true is not supported for "@ + tool_name,
            ),
        )
    } else {
        None
    }
}

fn check_read_options(has_cursor: bool, summary_only: bool, tool_name: &str) -> (r: Result<
    (),
    AnalyticsError,
>)
    ensures
        error::outcome(r) == read_option_problem(has_cursor, summary_only, tool_name@),
{
    if has_cursor {
        let mut message: String = error::labelled("cursor is not supported for ", tool_name);
        message.append("; use offset/limit");
        return Err(AnalyticsError::invalid("cursor", message.as_str()));
    }
    if summary_only {
        return Err(
            AnalyticsError::invalid(
                "summary_only",
                error::labelled("summary_only=true is not supported for ", tool_name).as_str(),
            ),
        );
    }
    Ok(())
}

/// The table that a request writes, or the first thing that is wrong with the request.
pub open spec fn ingest_table(problem: Option<Problem>, table_name: Seq<char>) -> Result<
    Seq<char>,
    Problem,
> {
    match problem {
        Some(problem) => Err(problem),
        None => sql_text::table_identifier(table_name),
    }
}

/// What is wrong with a request that writes the rows of a report to a table.
pub open spec fn ingest_report_problem(args: ScratchpadIngestReportArgs) -> Option<Problem> {
    error::earlier(
        read_option_problem(
            args.report.cursor is Some,
            args.report.summary_only,
            "scratchpad_ingest_report"@,
        ),
        error::earlier(
            report_checks::report_problem(
                text::texts(args.report.dimensions@),
                text::texts(args.report.metrics@),
                json::trees(args.report.date_ranges@),
                args.report.limit,
                args.report.offset,
            ),
            report_checks::tabular_controls_problem(args.report.max_rows, None, None),
        ),
    )
}

/// The table that a request writes the rows of a report to.
pub fn plan_ingest_report(args: &ScratchpadIngestReportArgs) -> (r: Result<String, AnalyticsError>)
    ensures
        ga_client::text_result(r) == ingest_table(ingest_report_problem(*args), args.table_name@),
{
    match check_read_options(
        args.report.cursor.is_some(),
        args.report.summary_only,
        "scratchpad_ingest_report",
    ) {
        Err(err) => {
            return Err(err);
        },
        Ok(()) => {},
    }
    match report_checks::validate_report_inputs(
        args.report.dimensions.as_slice(),
        args.report.metrics.as_slice(),
        args.report.date_ranges.as_slice(),
        args.report.limit,
        args.report.offset,
    ) {
        Err(err) => {
            return Err(err);
        },
        Ok(()) => {},
    }
    match report_checks::validate_tabular_controls(args.report.max_rows, None, None) {
        Err(err) => Err(err),
        Ok(()) => sql_text::normalize_table_identifier(args.table_name.as_str()),
    }
}

/// What is wrong with a request that writes the rows of a realtime report to a table.
pub open spec fn ingest_realtime_problem(args: ScratchpadIngestRealtimeArgs) -> Option<Problem> {
    error::earlier(
        read_option_problem(
            args.realtime.cursor is Some,
            args.realtime.summary_only,
            "scratchpad_ingest_realtime_report"@,
        ),
        error::earlier(
            report_checks::realtime_problem(
                text::texts(args.realtime.dimensions@),
                text::texts(args.realtime.metrics@),
                args.realtime.limit,
                args.realtime.offset,
            ),
            report_checks::tabular_controls_problem(args.realtime.max_rows, None, None),
        ),
    )
}

/// The table that a request writes the rows of a realtime report to.
pub fn plan_ingest_realtime_report(args: &ScratchpadIngestRealtimeArgs) -> (r: Result<
    String,
    AnalyticsError,
>)
    ensures
        ga_client::text_result(r) == ingest_table(
            ingest_realtime_problem(*args),
            args.table_name@,
        ),
{
    match check_read_options(
        args.realtime.cursor.is_some(),
        args.realtime.summary_only,
        "scratchpad_ingest_realtime_report",
    ) {
        Err(err) => {
            return Err(err);
        },
        Ok(()) => {},
    }
    match report_checks::validate_realtime_inputs(
        args.realtime.dimensions.as_slice(),
        args.realtime.metrics.as_slice(),
        args.realtime.limit,
        args.realtime.offset,
    ) {
        Err(err) => {
            return Err(err);
        },
        Ok(()) => {},
    }
    match report_checks::validate_tabular_controls(args.realtime.max_rows, None, None) {
        Err(err) => Err(err),
        Ok(()) => sql_text::normalize_table_identifier(args.table_name.as_str()),
    }
}

// ---------------------------------------------------------------------------
// Sessions and tables.
// ---------------------------------------------------------------------------

/// What is left of a session.
#[derive(Debug, Clone, Copy)]
pub struct SessionUsage {
    pub tables_used: usize,
    pub tables_remaining: usize,
    pub rows_used: usize,
    pub rows_remaining: usize,
}

/// A session.
#[derive(Debug)]
pub struct ScratchpadSessionInfo {
    pub session_id: String,
    pub usage: SessionUsage,
    pub ttl_seconds_remaining: u64,
}

/// The limits of sessions.
#[derive(Debug, Clone, Copy)]
pub struct ScratchpadLimits {
    pub max_sessions: usize,
    pub max_tables_per_session: usize,
    pub max_rows_per_session: usize,
    pub max_memory_mb: usize,
    pub max_sql_bytes: usize,
    pub query_timeout_ms: u64,
    pub session_ttl_secs: u64,
}

/// `entries` with what is left of a session.
pub open spec fn usage_entries(entries: Seq<(Seq<char>, Tree)>, usage: SessionUsage) -> Seq<
    (Seq<char>, Tree),
> {
    entries
        .push(("tables_used"@, Tree::Whole(usage.tables_used as int)))
        .push(("tables_remaining"@, Tree::Whole(usage.tables_remaining as int)))
        .push(("rows_used"@, Tree::Whole(usage.rows_used as int)))
        .push(("rows_remaining"@, Tree::Whole(usage.rows_remaining as int)))
}

fn put_usage(object: &mut Object, usage: SessionUsage)
    ensures
        final(object)@ == usage_entries(old(object)@, usage),
{
    object.put("tables_used", json::size(usage.tables_used));
    object.put("tables_remaining", json::size(usage.tables_remaining));
    object.put("rows_used", json::size(usage.rows_used));
    object.put("rows_remaining", json::size(usage.rows_remaining));
}

fn usage_value(usage: SessionUsage) -> (r: Json)
    ensures
        r@ == Tree::Dict(usage_entries(json::fields(), usage)),
{
    let mut object = Object::new();
    put_usage(&mut object, usage);
    json::dict(object)
}

/// What is said of a session that was opened.
pub open spec fn opened_tree(info: ScratchpadSessionInfo, limits: ScratchpadLimits) -> Tree {
    Tree::Dict(
        json::fields()
            .push(("session_id"@, Tree::Text(info.session_id@)))
            .push(("usage"@, Tree::Dict(usage_entries(json::fields(), info.usage))))
            .push(
                (
                    "ttl_seconds"@,
                    Tree::Dict(
                        json::fields()
                            .push(("default"@, Tree::Whole(limits.session_ttl_secs as int)))
                            .push(("remaining"@, Tree::Whole(info.ttl_seconds_remaining as int))),
                    ),
                ),
            )
            .push(
                (
                    "limits"@,
                    Tree::Dict(
                        json::fields()
                            .push(("max_sessions"@, Tree::Whole(limits.max_sessions as int)))
                            .push(
                                (
                                    "max_tables_per_session"@,
                                    Tree::Whole(limits.max_tables_per_session as int),
                                ),
                            )
                            .push(
                                (
                                    "max_rows_per_session"@,
                                    Tree::Whole(limits.max_rows_per_session as int),
                                ),
                            )
                            .push(("max_memory_mb"@, Tree::Whole(limits.max_memory_mb as int)))
                            .push(("max_sql_bytes"@, Tree::Whole(limits.max_sql_bytes as int)))
                            .push(
                                ("query_timeout_ms"@, Tree::Whole(limits.query_timeout_ms as int)),
                            ),
                    ),
                ),
            ),
    )
}

/// What is said of a session that was opened.
pub fn open_session_payload(info: &ScratchpadSessionInfo, limits: ScratchpadLimits) -> (r: Json)
    ensures
        r@ == opened_tree(*info, limits),
{
    let mut ttl = Object::new();
    ttl.put("default", json::whole(limits.session_ttl_secs));
    ttl.put("remaining", json::whole(info.ttl_seconds_remaining));
    let mut shown = Object::new();
    shown.put("max_sessions", json::size(limits.max_sessions));
    shown.put("max_tables_per_session", json::size(limits.max_tables_per_session));
    shown.put("max_rows_per_session", json::size(limits.max_rows_per_session));
    shown.put("max_memory_mb", json::size(limits.max_memory_mb));
    shown.put("max_sql_bytes", json::size(limits.max_sql_bytes));
    shown.put("query_timeout_ms", json::whole(limits.query_timeout_ms));
    let mut object = Object::new();
    object.put("session_id", json::string(info.session_id.as_str()));
    object.put("usage", usage_value(info.usage));
    object.put("ttl_seconds", json::dict(ttl));
    object.put("limits", json::dict(shown));
    json::dict(object)
}

/// What is said of a session that was closed.
pub fn close_session_payload(session_id: &str, closed: bool) -> (r: Json)
    ensures
        r@ == Tree::Dict(
            json::fields()
                .push(("session_id"@, Tree::Text(text::trim(session_id@))))
                .push(("closed"@, Tree::Bool(closed))),
        ),
{
    let mut object = Object::new();
    object.put("session_id", json::string(text::trimmed(session_id).as_str()));
    object.put("closed", json::boolean(closed));
    json::dict(object)
}

/// A session in a listing.
pub open spec fn session_tree(info: ScratchpadSessionInfo) -> Tree {
    Tree::Dict(
        usage_entries(
            json::fields().push(("session_id"@, Tree::Text(info.session_id@))),
            info.usage,
        ).push(("ttl_seconds_remaining"@, Tree::Whole(info.ttl_seconds_remaining as int))),
    )
}

/// Sessions in a listing.
pub open spec fn session_trees(sessions: Seq<ScratchpadSessionInfo>) -> Seq<Tree> {
    Seq::new(sessions.len(), |i: int| session_tree(sessions[i]))
}

fn session_value(info: &ScratchpadSessionInfo) -> (r: Json)
    ensures
        r@ == session_tree(*info),
{
    let mut object = Object::new();
    object.put("session_id", json::string(info.session_id.as_str()));
    put_usage(&mut object, info.usage);
    object.put("ttl_seconds_remaining", json::whole(info.ttl_seconds_remaining));
    json::dict(object)
}

/// A listing of sessions.
pub fn list_sessions_payload(sessions: &[ScratchpadSessionInfo], limit: usize) -> (r: Json)
    ensures
        r@ == Tree::Dict(
            json::fields()
                .push(("sessions"@, Tree::List(session_trees(sessions@))))
                .push(("returned"@, Tree::Whole(sessions@.len() as int)))
                .push(("limit"@, Tree::Whole(limit as int))),
        ),
{
    let mut items: Vec<Json> = Vec::new();
    for i in 0..sessions.len()
        invariant
            items@.len() == i,
            forall|j: int| 0 <= j < i ==> (#[trigger] items@[j])@ == session_tree(sessions@[j]),
    {
        items.push(session_value(&sessions[i]));
    }
    assert(json::trees(items@) =~= session_trees(sessions@));
    let mut object = Object::new();
    object.put("sessions", json::array(items));
    object.put("returned", json::size(sessions.len()));
    object.put("limit", json::size(limit));
    json::dict(object)
}

/// A column of a table.
#[derive(Debug)]
pub struct ScratchpadColumnInfo {
    pub name: String,
    pub logical_type: String,
    pub nullable: bool,
}

/// A table of a session.
#[derive(Debug)]
pub struct ScratchpadTableInfo {
    pub schema: String,
    pub name: String,
    pub table_type: String,
    pub column_count: usize,
    pub columns: Vec<ScratchpadColumnInfo>,
    pub columns_truncated: bool,
}

/// A column in a listing.
pub open spec fn column_tree(column: ScratchpadColumnInfo) -> Tree {
    Tree::Dict(
        json::fields()
            .push(("name"@, Tree::Text(column.name@)))
            .push(("logical_type"@, Tree::Text(column.logical_type@)))
            .push(("nullable"@, Tree::Bool(column.nullable))),
    )
}

/// Columns in a listing.
pub open spec fn column_trees(columns: Seq<ScratchpadColumnInfo>) -> Seq<Tree> {
    Seq::new(columns.len(), |i: int| column_tree(columns[i]))
}

/// A table in a listing.
pub open spec fn table_tree(table: ScratchpadTableInfo) -> Tree {
    Tree::Dict(
        json::fields()
            .push(("schema"@, Tree::Text(table.schema@)))
            .push(("name"@, Tree::Text(table.name@)))
            .push(("table_type"@, Tree::Text(table.table_type@)))
            .push(
                (
                    "schema_summary"@,
                    Tree::Dict(
                        json::fields()
                            .push(("column_count"@, Tree::Whole(table.column_count as int)))
                            .push(("columns_returned"@, Tree::Whole(table.columns@.len() as int)))
                            .push(("columns_truncated"@, Tree::Bool(table.columns_truncated)))
                            .push(("columns"@, Tree::List(column_trees(table.columns@)))),
                    ),
                ),
            ),
    )
}

/// Tables in a listing.
pub open spec fn table_trees(tables: Seq<ScratchpadTableInfo>) -> Seq<Tree> {
    Seq::new(tables.len(), |i: int| table_tree(tables[i]))
}

/// A table in a listing.
pub fn scratchpad_table_info_to_json(table: &ScratchpadTableInfo) -> (r: Json)
    ensures
        r@ == table_tree(*table),
{
    let mut items: Vec<Json> = Vec::new();
    for i in 0..table.columns.len()
        invariant
            items@.len() == i,
            forall|j: int|
                0 <= j < i ==> (#[trigger] items@[j])@ == column_tree(table.columns@[j]),
    {
        let column: &ScratchpadColumnInfo = &table.columns[i];
        let mut shown = Object::new();
        shown.put("name", json::string(column.name.as_str()));
        shown.put("logical_type", json::string(column.logical_type.as_str()));
        shown.put("nullable", json::boolean(column.nullable));
        items.push(json::dict(shown));
    }
    assert(json::trees(items@) =~= column_trees(table.columns@));
    let mut summary = Object::new();
    summary.put("column_count", json::size(table.column_count));
    summary.put("columns_returned", json::size(table.columns.len()));
    summary.put("columns_truncated", json::boolean(table.columns_truncated));
    summary.put("columns", json::array(items));
    let mut object = Object::new();
    object.put("schema", json::string(table.schema.as_str()));
    object.put("name", json::string(table.name.as_str()));
    object.put("table_type", json::string(table.table_type.as_str()));
    object.put("schema_summary", json::dict(summary));
    json::dict(object)
}

/// A listing of tables.
pub fn list_tables_payload(
    session_id: &str,
    tables: &[ScratchpadTableInfo],
    limit: usize,
) -> (r: Json)
    ensures
        r@ == Tree::Dict(
            json::fields()
                .push(("session_id"@, Tree::Text(text::trim(session_id@))))
                .push(("tables"@, Tree::List(table_trees(tables@))))
                .push(("returned"@, Tree::Whole(tables@.len() as int)))
                .push(("limit"@, Tree::Whole(limit as int))),
        ),
{
    let mut items: Vec<Json> = Vec::new();
    for i in 0..tables.len()
        invariant
            items@.len() == i,
            forall|j: int| 0 <= j < i ==> (#[trigger] items@[j])@ == table_tree(tables@[j]),
    {
        items.push(scratchpad_table_info_to_json(&tables[i]));
    }
    assert(json::trees(items@) =~= table_trees(tables@));
    let mut object = Object::new();
    object.put("session_id", json::string(text::trimmed(session_id).as_str()));
    object.put("tables", json::array(items));
    object.put("returned", json::size(tables.len()));
    object.put("limit", json::size(limit));
    json::dict(object)
}

/// What is said of a table that was dropped.
pub fn drop_table_payload(
    session_id: &str,
    requested: &str,
    normalized: &str,
    dropped: bool,
    rows_removed: usize,
    usage: SessionUsage,
) -> (r: Json)
    ensures
        r@ == Tree::Dict(
            json::fields()
                .push(("session_id"@, Tree::Text(text::trim(session_id@))))
                .push(("table_name"@, ingest::table_name_tree(requested@, normalized@)))
                .push(("dropped"@, Tree::Bool(dropped)))
                .push(("rows_removed"@, Tree::Whole(rows_removed as int)))
                .push(("usage"@, Tree::Dict(usage_entries(json::fields(), usage)))),
        ),
{
    let mut object = Object::new();
    object.put("session_id", json::string(text::trimmed(session_id).as_str()));
    object.put("table_name", ingest::table_name_value(requested, normalized));
    object.put("dropped", json::boolean(dropped));
    object.put("rows_removed", json::size(rows_removed));
    object.put("usage", usage_value(usage));
    json::dict(object)
}

// ---------------------------------------------------------------------------
// Runtime limits.
// ---------------------------------------------------------------------------

/// What is said of the limits of sessions.
pub fn runtime_limits_payload(
    limits: ScratchpadLimits,
    active_sessions: usize,
    memory_pressure: Json,
) -> (r: Json)
    ensures
        r@ == Tree::Dict(
            json::fields()
                .push(
                    (
                        "runtime_limits"@,
                        Tree::Dict(
                            json::fields()
                                .push(("max_sessions"@, Tree::Whole(limits.max_sessions as int)))
                                .push(
                                    (
                                        "max_tables_per_session"@,
                                        Tree::Whole(limits.max_tables_per_session as int),
                                    ),
                                )
                                .push(
                                    (
                                        "max_rows_per_session"@,
                                        Tree::Whole(limits.max_rows_per_session as int),
                                    ),
                                )
                                .push(("max_memory_mb"@, Tree::Whole(limits.max_memory_mb as int)))
                                .push(
                                    (
                                        "query_timeout_ms"@,
                                        Tree::Whole(limits.query_timeout_ms as int),
                                    ),
                                )
                                .push(
                                    ("max_sql_bytes"@, Tree::Whole(limits.max_sql_bytes as int)),
                                ),
                        ),
                    ),
                )
                .push(("active_sessions"@, Tree::Whole(active_sessions as int)))
                .push(("memory_pressure"@, memory_pressure@)),
        ),
{
    let mut shown = Object::new();
    shown.put("max_sessions", json::size(limits.max_sessions));
    shown.put("max_tables_per_session", json::size(limits.max_tables_per_session));
    shown.put("max_rows_per_session", json::size(limits.max_rows_per_session));
    shown.put("max_memory_mb", json::size(limits.max_memory_mb));
    shown.put("query_timeout_ms", json::whole(limits.query_timeout_ms));
    shown.put("max_sql_bytes", json::size(limits.max_sql_bytes));
    let mut object = Object::new();
    object.put("runtime_limits", json::dict(shown));
    object.put("active_sessions", json::size(active_sessions));
    object.put("memory_pressure", memory_pressure);
    json::dict(object)
}

/// Checks that a request changes a limit.
pub fn check_limit_update(args: &ScratchpadSetRuntimeLimitsArgs) -> (r: Result<
    (),
    AnalyticsError,
>)
    ensures
        error::outcome(r) == (if args.max_sessions is None && args.max_tables_per_session is None {
            Some(
                Problem::InvalidArgument(
                    "runtime_limits"@,
                    "provide at least one of max_sessions or max_tables_per_session"@,
                ),
            )
        } else {
            None
        }),
{
    if args.max_sessions.is_none() && args.max_tables_per_session.is_none() {
        return Err(
            AnalyticsError::invalid(
                "runtime_limits",
                "provide at least one of max_sessions or max_tables_per_session",
            ),
        );
    }
    Ok(())
}

/// A limit before and after a change.
pub open spec fn change_tree(previous: usize, updated: usize) -> Tree {
    Tree::Dict(
        json::fields()
            .push(("previous"@, Tree::Whole(previous as int)))
            .push(("updated"@, Tree::Whole(updated as int))),
    )
}

fn change_value(previous: usize, updated: usize) -> (r: Json)
    ensures
        r@ == change_tree(previous, updated),
{
    let mut object = Object::new();
    object.put("previous", json::size(previous));
    object.put("updated", json::size(updated));
    json::dict(object)
}

/// What is said of limits that were changed.
pub fn updated_limits_payload(
    previous_sessions: usize,
    updated_sessions: usize,
    previous_tables: usize,
    updated_tables: usize,
    active_sessions: usize,
) -> (r: Json)
    ensures
        r@ == Tree::Dict(
            json::fields()
                .push(
                    (
                        "runtime_limits"@,
                        Tree::Dict(
                            json::fields()
                                .push(
                                    (
                                        "max_sessions"@,
                                        change_tree(previous_sessions, updated_sessions),
                                    ),
                                )
                                .push(
                                    (
                                        "max_tables_per_session"@,
                                        change_tree(previous_tables, updated_tables),
                                    ),
                                ),
                        ),
                    ),
                )
                .push(("active_sessions"@, Tree::Whole(active_sessions as int)))
                .push(
                    (
                        "note"@,
                        if active_sessions > updated_sessions {
                            Tree::Text(
                                "active sessions currently exceed the new limit; existing sessions remain active but new sessions are blocked until usage drops"@,
                            )
                        } else {
                            Tree::Null
                        },
                    ),
                ),
        ),
{
    let mut shown = Object::new();
    shown.put("max_sessions", change_value(previous_sessions, updated_sessions));
    shown.put("max_tables_per_session", change_value(previous_tables, updated_tables));
    let mut object = Object::new();
    object.put("runtime_limits", json::dict(shown));
    object.put("active_sessions", json::size(active_sessions));
    object.put(
        "note",
        if active_sessions > updated_sessions {
            json::string(
                "active sessions currently exceed the new limit; existing sessions remain active but new sessions are blocked until usage drops",
            )
        } else {
            Json::Null
        },
    );
    json::dict(object)
}

// ---------------------------------------------------------------------------
// Evidence bundles.
// ---------------------------------------------------------------------------

/// A table of a bundle: its name as it was asked for and as it is.
#[derive(Debug)]
pub struct EvidenceTable {
    pub requested: String,
    pub normalized: String,
}

/// What is wrong with the name of the table at a position.
pub open spec fn table_name_check(names: Seq<Seq<char>>) -> spec_fn(int) -> Option<Problem> {
    |i: int|
        match sql_text::table_identifier(names[i]) {
            Ok(_) => None,
            Err(problem) => Some(problem),
        }
}

/// What is wrong with the tables that a request names.
pub open spec fn table_names_problem(names: Seq<Seq<char>>) -> Option<Problem> {
    if names.len() == 0 {
        Some(Problem::InvalidArgument("table_names"@, "must not be empty when provided"@))
    } else if names.len() > MAX_EVIDENCE_TABLES {
        Some(
            Problem::InvalidArgument(
                "table_names"@,
                "must include <= "@ + text::decimal(MAX_EVIDENCE_TABLES as nat) + " entries"@,
            ),
        )
    } else {
        error::first_problem(names.len(), table_name_check(names))
    }
}

/// Whether a pair of names has an identifier.
pub open spec fn has_identifier(
    tables: Seq<(Seq<char>, Seq<char>)>,
    identifier: Seq<char>,
) -> bool {
    exists|i: int| 0 <= i < tables.len() && (#[trigger] tables[i]).1 == identifier
}

/// The tables of the first `n` names, each identifier once.
pub open spec fn selected(names: Seq<Seq<char>>, n: nat) -> Seq<(Seq<char>, Seq<char>)>
    decreases n,
{
    if n == 0 {
        Seq::<(Seq<char>, Seq<char>)>::empty()
    } else {
        let before = selected(names, (n - 1) as nat);
        let identifier = sql_text::identifier_of(names[n - 1], "table"@);
        if has_identifier(before, identifier) {
            before
        } else {
            before.push((names[n - 1], identifier))
        }
    }
}

/// What a list of tables says.
pub open spec fn tables_view(tables: Seq<EvidenceTable>) -> Seq<(Seq<char>, Seq<char>)> {
    Seq::new(tables.len(), |i: int| (tables[i].requested@, tables[i].normalized@))
}

fn knows_identifier(tables: &[EvidenceTable], identifier: &str) -> (r: bool)
    ensures
        r == has_identifier(tables_view(tables@), identifier@),
{
    let ghost all = tables_view(tables@);
    for i in 0..tables.len()
        invariant
            all == tables_view(tables@),
            forall|j: int| 0 <= j < i ==> (#[trigger] all[j]).1 != identifier@,
    {
        assert(all[i as int].1 == tables@[i as int].normalized@);
        if text::same_text(tables[i].normalized.as_str(), identifier) {
            return true;
        }
    }
    false
}

/// The tables that a request names.
pub fn select_evidence_tables(names: &[String]) -> (r: Result<Vec<EvidenceTable>, AnalyticsError>)
    ensures
        match table_names_problem(text::texts(names@)) {
            Some(problem) => r matches Err(err) && err@ == problem,
            None => r matches Ok(tables) && tables_view(tables@) == selected(
                text::texts(names@),
                names@.len(),
            ),
        },
{
    let ghost all = text::texts(names@);
    let ghost check = table_name_check(all);
    if names.len() == 0 {
        return Err(AnalyticsError::invalid("table_names", "must not be empty when provided"));
    }
    if names.len() > MAX_EVIDENCE_TABLES {
        return Err(
            AnalyticsError::invalid(
                "table_names",
                error::numbered("must include <= ", MAX_EVIDENCE_TABLES as u64, " entries").as_str(),
            ),
        );
    }
    let mut tables: Vec<EvidenceTable> = Vec::new();
    assert(tables_view(tables@) =~= Seq::<(Seq<char>, Seq<char>)>::empty());
    let n: usize = names.len();
    for i in 0..n
        invariant
            n == names@.len(),
            0 < n <= MAX_EVIDENCE_TABLES,
            all == text::texts(names@),
            check == table_name_check(all),
            error::first_problem(i as nat, check) is None,
            tables_view(tables@) == selected(all, i as nat),
    {
        assert(all[i as int] == names@[i as int]@);
        assert(check(i as int) == (match sql_text::table_identifier(all[i as int]) {
            Ok(_) => None,
            Err(problem) => Some(problem),
        }));
        let normalized: String = match sql_text::normalize_table_identifier(names[i].as_str()) {
            Ok(normalized) => normalized,
            Err(err) => {
                proof {
                    error::lemma_first_problem(n as nat, (i + 1) as nat, check);
                }
                return Err(err);
            },
        };
        if !knows_identifier(tables.as_slice(), normalized.as_str()) {
            let ghost held = tables@;
            tables.push(EvidenceTable { requested: names[i].clone(), normalized });
            assert(tables_view(tables@) =~= tables_view(held).push(
                (all[i as int], tables@.last().normalized@),
            ));
        }
    }
    Ok(tables)
}

/// What a bundle shows: how many rows of each table, and the tables that were named.
#[derive(Debug)]
pub struct EvidencePlan {
    pub sample_rows_per_table: usize,
    pub tables: Option<Vec<EvidenceTable>>,
}

/// What is wrong with a request for a bundle.
pub open spec fn evidence_problem(args: ScratchpadEvidenceBundleArgs) -> Option<Problem> {
    match report_checks::resolved_size(
        "sample_rows_per_table"@,
        args.sample_rows_per_table,
        DEFAULT_EVIDENCE_SAMPLE_ROWS,
        MAX_EVIDENCE_SAMPLE_ROWS,
    ) {
        Err(problem) => Some(problem),
        Ok(_) => match args.table_names {
            Some(names) => table_names_problem(text::texts(names@)),
            None => None,
        },
    }
}

/// What a request for a bundle asks for. Where it names no tables, every table of the
/// session is shown.
pub fn plan_evidence_bundle(args: &ScratchpadEvidenceBundleArgs) -> (r: Result<
    EvidencePlan,
    AnalyticsError,
>)
    ensures
        match evidence_problem(*args) {
            Some(problem) => r matches Err(err) && err@ == problem,
            None => r matches Ok(plan) && plan.sample_rows_per_table == (
            match args.sample_rows_per_table {
                Some(n) => n,
                None => DEFAULT_EVIDENCE_SAMPLE_ROWS,
            }) && (match args.table_names {
                Some(names) => plan.tables matches Some(tables) && tables_view(tables@)
                    == selected(text::texts(names@), names@.len()),
                None => plan.tables is None,
            }),
        },
{
    let sample_rows_per_table: usize = match resolve_evidence_sample_rows(
        args.sample_rows_per_table,
    ) {
        Ok(n) => n,
        Err(err) => {
            return Err(err);
        },
    };
    match &args.table_names {
        Some(names) => match select_evidence_tables(names.as_slice()) {
            Ok(tables) => Ok(EvidencePlan { sample_rows_per_table, tables: Some(tables) }),
            Err(err) => Err(err),
        },
        None => Ok(EvidencePlan { sample_rows_per_table, tables: None }),
    }
}

/// The tables of a session, each under its own name.
pub fn inventory_tables(tables: &[ScratchpadTableInfo]) -> (r: Vec<EvidenceTable>)
    ensures
        tables_view(r@) == Seq::new(
            tables@.len(),
            |i: int| (tables@[i].name@, tables@[i].name@),
        ),
{
    let mut r: Vec<EvidenceTable> = Vec::new();
    for i in 0..tables.len()
        invariant
            r@.len() == i,
            forall|j: int|
                0 <= j < i ==> (#[trigger] r@[j]).requested@ == tables@[j].name@
                    && r@[j].normalized@ == tables@[j].name@,
    {
        r.push(
            EvidenceTable { requested: tables[i].name.clone(), normalized: tables[i].name.clone() },
        );
    }
    assert(tables_view(r@) =~= Seq::new(
        tables@.len(),
        |i: int| (tables@[i].name@, tables@[i].name@),
    ));
    r
}

/// Checks that there is a table for a bundle.
pub fn check_evidence_tables(tables: &[EvidenceTable]) -> (r: Result<(), AnalyticsError>)
    ensures
        error::outcome(r) == (if tables@.len() == 0 {
            Some(
                Problem::InvalidArgument(
                    "table_names"@,
                    "no scratchpad tables available; ingest or provide explicit table_names"@,
                ),
            )
        } else {
            None
        }),
{
    if tables.len() == 0 {
        return Err(
            AnalyticsError::invalid(
                "table_names",
                "no scratchpad tables available; ingest or provide explicit table_names",
            ),
        );
    }
    Ok(())
}

/// The query for the sample rows of a table.
pub open spec fn sample_sql(normalized: Seq<char>) -> Seq<char> {
    "SELECT * FROM "@ + sql_text::quoted_identifier(normalized)
}

/// The query for the sample rows of a table.
pub fn evidence_sample_sql(normalized: &str) -> (r: String)
    ensures
        r@ == sample_sql(normalized@),
{
    error::labelled("SELECT * FROM ", sql_text::quote_sql_identifier(normalized).as_str())
}

/// A table of a bundle with its sample rows.
#[derive(Debug)]
pub struct EvidenceSample {
    pub table: EvidenceTable,
    pub query_hash: String,
    pub projection: ScratchpadTabularProjection,
}

/// A table of a bundle with the rows that were read of it and the hash of the query that
/// read them.
pub fn evidence_sample(
    session_id: &str,
    table: EvidenceTable,
    projection: ScratchpadTabularProjection,
) -> (r: Result<EvidenceSample, AnalyticsError>)
    ensures
        r matches Ok(sample) && sample.table == table && sample.projection == projection
            && sample.query_hash@ == cursors::query_hash(
            scratchpad_query::query_signature(
                "scratchpad_export_evidence_bundle"@,
                session_id@,
                sample_sql(table.normalized@),
            ),
        ),
{
    let sql: String = evidence_sample_sql(table.normalized.as_str());
    match scratchpad_query::scratchpad_query_hash(
        "scratchpad_export_evidence_bundle",
        session_id,
        sql.as_str(),
    ) {
        Ok(query_hash) => Ok(EvidenceSample { table, query_hash, projection }),
        Err(err) => Err(err),
    }
}

/// A table of a bundle with its sample rows.
pub open spec fn sample_tree(sample: EvidenceSample) -> Tree {
    let page = sample.projection@;
    Tree::Dict(
        json::fields()
            .push(
                (
                    "table_name"@,
                    ingest::table_name_tree(sample.table.requested@, sample.table.normalized@),
                ),
            )
            .push(
                (
                    "sample_query"@,
                    Tree::Dict(
                        json::fields()
                            .push(("sql"@, Tree::Text(sample_sql(sample.table.normalized@))))
                            .push(("query_hash"@, Tree::Text(sample.query_hash@))),
                    ),
                ),
            )
            .push(("row_count_total"@, Tree::Whole(page.row_count_total as int)))
            .push(("row_count_sampled"@, Tree::Whole(page.rows.len() as int)))
            .push(("sample_truncated"@, Tree::Bool(page.row_count_total > page.rows.len())))
            .push(("columns"@, contract::column_trees(page.columns)))
            .push(("sample_rows"@, tabular::row_dicts(page.rows))),
    )
}

/// Tables of a bundle with their sample rows.
pub open spec fn sample_trees(samples: Seq<EvidenceSample>) -> Seq<Tree> {
    Seq::new(samples.len(), |i: int| sample_tree(samples[i]))
}

fn sample_value(sample: &EvidenceSample) -> (r: Json)
    ensures
        r@ == sample_tree(*sample),
{
    let count: usize = sample.projection.rows.len();
    let total: usize = sample.projection.row_count_total;
    let sql: String = evidence_sample_sql(sample.table.normalized.as_str());
    let mut query = Object::new();
    query.put("sql", json::string(sql.as_str()));
    query.put("query_hash", json::string(sample.query_hash.as_str()));
    let mut object = Object::new();
    object.put(
        "table_name",
        ingest::table_name_value(
            sample.table.requested.as_str(),
            sample.table.normalized.as_str(),
        ),
    );
    object.put("sample_query", json::dict(query));
    object.put("row_count_total", json::size(total));
    object.put("row_count_sampled", json::size(count));
    object.put("sample_truncated", json::boolean(total > count));
    object.put("columns", contract::columns_to_json(sample.projection.columns.as_slice()));
    object.put(
        "sample_rows",
        tabular::payload_by_mode(
            sample.projection.rows.as_slice(),
            sample.projection.columns.as_slice(),
            OutputMode::Rows,
        ),
    );
    json::dict(object)
}

/// The line of the summary for a table.
pub open spec fn summary_line(sample: EvidenceSample) -> Seq<char> {
    "- `"@ + sample.table.normalized@ + "`: total_rows="@ + text::decimal(
        sample.projection@.row_count_total as nat,
    ) + ", sampled_rows="@ + text::decimal(sample.projection@.rows.len()) + ", query_hash="@
        + sample.query_hash@ + "\n"@
}

/// The lines of the summary for the first `n` tables.
pub open spec fn summary_lines(samples: Seq<EvidenceSample>, n: nat) -> Seq<char>
    decreases n,
{
    if n == 0 {
        Seq::<char>::empty()
    } else {
        summary_lines(samples, (n - 1) as nat) + summary_line(samples[n - 1])
    }
}

/// The head of the summary of a bundle.
pub open spec fn summary_head(
    session_id: Seq<char>,
    generated_at_epoch_ms: u64,
    tables: nat,
    sample_rows: usize,
) -> Seq<char> {
    "# Scratchpad Evidence Bundle\n\n- Session: `"@ + text::trim(session_id)
        + "`\n- Generated (epoch_ms): `"@ + text::decimal(generated_at_epoch_ms as nat)
        + "`\n- Tables: `"@ + text::decimal(tables) + "`\n- Sample rows per table: `"@
        + text::decimal(sample_rows as nat) + "`\n\n"@ + "## Table Summary\n\n"@
}

fn summary_line_text(sample: &EvidenceSample) -> (r: String)
    ensures
        r@ == summary_line(*sample),
{
    let mut r: String = "- `".to_owned();
    r.append(sample.table.normalized.as_str());
    r.append("`: total_rows=");
    r.append(text::decimal_text(sample.projection.row_count_total as u64).as_str());
    r.append(", sampled_rows=");
    r.append(text::decimal_text(sample.projection.rows.len() as u64).as_str());
    r.append(", query_hash=");
    r.append(sample.query_hash.as_str());
    r.append("\n");
    r
}

fn summary_head_text(
    session_id: &str,
    generated_at_epoch_ms: u64,
    tables: usize,
    sample_rows: usize,
) -> (r: String)
    ensures
        r@ == summary_head(session_id@, generated_at_epoch_ms, tables as nat, sample_rows),
{
    let mut r: String = "# Scratchpad Evidence Bundle\n\n- Session: `".to_owned();
    r.append(text::trimmed(session_id).as_str());
    r.append("`\n- Generated (epoch_ms): `");
    r.append(text::decimal_text(generated_at_epoch_ms).as_str());
    r.append("`\n- Tables: `");
    r.append(text::decimal_text(tables as u64).as_str());
    r.append("`\n- Sample rows per table: `");
    r.append(text::decimal_text(sample_rows as u64).as_str());
    r.append("`\n\n");
    r.append("## Table Summary\n\n");
    r
}

/// A bundle.
pub fn evidence_payload(
    session_id: &str,
    generated_at_epoch_ms: u64,
    sample_rows_per_table: usize,
    samples: &[EvidenceSample],
) -> (r: Json)
    ensures
        r@ == Tree::Dict(
            json::fields()
                .push(("session_id"@, Tree::Text(text::trim(session_id@))))
                .push(("generated_at_epoch_ms"@, Tree::Whole(generated_at_epoch_ms as int)))
                .push(("sample_rows_per_table"@, Tree::Whole(sample_rows_per_table as int)))
                .push(("tables"@, Tree::List(sample_trees(samples@))))
                .push(
                    (
                        "markdown"@,
                        Tree::Text(
                            summary_head(
                                session_id@,
                                generated_at_epoch_ms,
                                samples@.len(),
                                sample_rows_per_table,
                            ) + summary_lines(samples@, samples@.len()),
                        ),
                    ),
                ),
        ),
{
    let mut items: Vec<Json> = Vec::new();
    let mut markdown: String = summary_head_text(
        session_id,
        generated_at_epoch_ms,
        samples.len(),
        sample_rows_per_table,
    );
    let ghost head = markdown@;
    assert(head + Seq::<char>::empty() =~= head);
    for i in 0..samples.len()
        invariant
            items@.len() == i,
            forall|j: int| 0 <= j < i ==> (#[trigger] items@[j])@ == sample_tree(samples@[j]),
            markdown@ == head + summary_lines(samples@, i as nat),
    {
        let ghost before = markdown@;
        items.push(sample_value(&samples[i]));
        markdown.append(summary_line_text(&samples[i]).as_str());
        assert(markdown@ =~= head + (summary_lines(samples@, i as nat) + summary_line(
            samples@[i as int],
        )));
    }
    assert(json::trees(items@) =~= sample_trees(samples@));
    let mut object = Object::new();
    object.put("session_id", json::string(text::trimmed(session_id).as_str()));
    object.put("generated_at_epoch_ms", json::whole(generated_at_epoch_ms));
    object.put("sample_rows_per_table", json::size(sample_rows_per_table));
    object.put("tables", json::array(items));
    object.put("markdown", json::string(markdown.as_str()));
    json::dict(object)
}

/// A bundle shows each table once, whatever names the request gives it.
pub proof fn law_bundles_show_tables_once(names: Seq<Seq<char>>, n: nat, i: int, j: int)
    requires
        n <= names.len(),
        0 <= i < j < selected(names, n).len(),
    ensures
        selected(names, n)[i].1 != selected(names, n)[j].1,
    decreases n,
{
    if n > 0 {
        let before = selected(names, (n - 1) as nat);
        let identifier = sql_text::identifier_of(names[n - 1], "table"@);
        if j < before.len() {
            law_bundles_show_tables_once(names, (n - 1) as nat, i, j);
        } else {
            assert(before[i].1 == selected(names, n)[i].1);
            assert(!has_identifier(before, identifier));
        }
    }
}

/// The helpers that look at a table ask about the table of that identifier, quoted, and tell which
/// table that is.
pub proof fn law_helpers_ask_about_their_table(args: ScratchpadTableHelperArgs, table: Seq<char>)
    requires
        sql_text::table_identifier(args.table_name@) == Ok::<Seq<char>, Problem>(table),
    ensures
        table_helper("scratchpad_describe_table"@, "DESCRIBE SELECT * FROM "@, args) matches Ok(
            asked,
        ) && asked.sql == "DESCRIBE SELECT * FROM "@ + ("\""@ + text::doubled(table, '"') + "\""@) && asked.session_id
            == args.session_id@ && asked.tool_name == "scratchpad_describe_table"@ && (
        asked.source matches Some(source) && source.field("helper"@) == Some(
            Tree::Text("scratchpad_describe_table"@),
        ) && (source.field("table_name"@) matches Some(named) && named.field("requested"@) == Some(
            Tree::Text(args.table_name@),
        ) && named.field("normalized"@) == Some(Tree::Text(table)))),
        table_helper("scratchpad_summarize_table"@, "SUMMARIZE SELECT * FROM "@, args) matches Ok(
            asked,
        ) && asked.sql == "SUMMARIZE SELECT * FROM "@ + ("\""@ + text::doubled(table, '"') + "\""@) && asked.session_id
            == args.session_id@ && asked.tool_name == "scratchpad_summarize_table"@,
{
    broadcast use json::group_found;

    reveal_strlit("helper");
    assert("helper"@.len() == 6);
    reveal_strlit("table_name");
    assert("table_name"@.len() == 10);
    reveal_strlit("requested");
    assert("requested"@.len() == 9);
    reveal_strlit("normalized");
    assert("normalized"@.len() == 10);
    assert("table_name"@[0] != "normalized"@[0]);
}

/// The windows around a release are seven days before it, one of transition and seven behind it,
/// unless other numbers of days are asked for, from one to ninety.
pub proof fn law_windows_around_releases(pre_days: u32, transition_days: u32, post_days: u32)
    ensures
        release_windows(None, None, None) == Ok::<Windows, Problem>(
            Windows { pre_days: 7, transition_days: 1, post_days: 7 },
        ),
        1 <= pre_days <= 90 && 1 <= transition_days <= 90 && 1 <= post_days <= 90
            ==> release_windows(Some(pre_days), Some(transition_days), Some(post_days)) == Ok::<
            Windows,
            Problem,
        >(Windows { pre_days, transition_days, post_days }),
        pre_days == 0 || pre_days > 90 ==> (release_windows(
            Some(pre_days),
            Some(transition_days),
            Some(post_days),
        ) matches Err(Problem::InvalidArgument(field, said)) && field == "pre_days"@),
        1 <= pre_days <= 90 && (transition_days == 0 || transition_days > 90) ==> (
        release_windows(Some(pre_days), Some(transition_days), Some(post_days)) matches Err(
            Problem::InvalidArgument(field, said),
        ) && field == "transition_days"@),
        1 <= pre_days <= 90 && 1 <= transition_days <= 90 && (post_days == 0 || post_days > 90)
            ==> (release_windows(
            Some(pre_days),
            Some(transition_days),
            Some(post_days),
        ) matches Err(Problem::InvalidArgument(field, said)) && field == "post_days"@),
{
}

/// Two events can be compared where both have a name, and not the same.
pub proof fn law_two_events_are_compared(anchor: Seq<char>, comparison: Seq<char>)
    ensures
        events_problem(anchor, comparison) is None <==> anchor.len() > 0 && comparison.len() > 0
            && anchor != comparison,
        anchor.len() == 0 ==> (events_problem(anchor, comparison) matches Some(
            Problem::InvalidArgument(field, said),
        ) && field == "anchor_event"@),
        anchor.len() > 0 && (comparison.len() == 0 || comparison == anchor) ==> (events_problem(
            anchor,
            comparison,
        ) matches Some(Problem::InvalidArgument(field, said)) && field == "comparison_event"@),
{
}

/// A column goes by the identifier of the name that is given, or of the usual one.
pub proof fn law_columns_have_usual_names(name: String, default: Seq<char>, fallback: Seq<char>)
    ensures
        named_column(None, default, fallback) == sql_text::identifier_of(default, fallback),
        named_column(Some(name), default, fallback) == sql_text::identifier_of(name@, fallback),
        optional_column(None, fallback) is None,
        optional_column(Some(name), fallback) == Some(sql_text::identifier_of(name@, fallback)),
{
}

/// The report on a release asks about the table, the date, the events and the columns that it
/// is given, and tells them.
pub proof fn law_release_reports_ask_what_they_are_given(
    args: ScratchpadReleaseRegressionArgs,
    table: Seq<char>,
    date: Seq<char>,
    windows: Windows,
)
    requires
        sql_text::table_identifier(args.table_name@) == Ok::<Seq<char>, Problem>(table),
        dates::release_date(args.release_date@) == Ok::<Seq<char>, Problem>(date),
        events_problem(text::trim(args.anchor_event@), text::trim(args.comparison_event@)) is None,
        release_windows(args.pre_days, args.transition_days, args.post_days) == Ok::<
            Windows,
            Problem,
        >(windows),
    ensures
        release_query(args) matches Ok(asked) && asked.session_id == args.session_id@
            && asked.tool_name == "scratchpad_release_regression_report"@ && asked.sql
            == release_sql::release_regression_sql(
            table,
            date,
            text::trim(args.anchor_event@),
            text::trim(args.comparison_event@),
            sql_text::identifier_of(
                match args.date_column {
                    Some(name) => name@,
                    None => "date"@,
                },
                "date"@,
            ),
            sql_text::identifier_of(
                match args.event_column {
                    Some(name) => name@,
                    None => "event_name"@,
                },
                "event"@,
            ),
            match args.metric_column {
                Some(name) => Some(sql_text::identifier_of(name@, "metric"@)),
                None => None,
            },
            windows.pre_days,
            windows.transition_days,
            windows.post_days,
        ) && (asked.source matches Some(source) && (source.field("release"@) matches Some(told)
            && told.field("release_date"@) == Some(Tree::Text(date)) && told.field("anchor_event"@)
            == Some(Tree::Text(text::trim(args.anchor_event@))) && told.field(
            "comparison_event"@,
        ) == Some(Tree::Text(text::trim(args.comparison_event@))) && told.field("pre_days"@)
            == Some(Tree::Whole(windows.pre_days as int)) && told.field("transition_days"@) == Some(
            Tree::Whole(windows.transition_days as int),
        ) && told.field("post_days"@) == Some(Tree::Whole(windows.post_days as int)))),
{
    broadcast use json::group_found;

    reveal_strlit("helper");
    assert("helper"@.len() == 6);
    reveal_strlit("table_name");
    assert("table_name"@.len() == 10);
    reveal_strlit("release");
    assert("release"@.len() == 7);
    reveal_strlit("release_date");
    assert("release_date"@.len() == 12);
    reveal_strlit("anchor_event");
    assert("anchor_event"@.len() == 12);
    reveal_strlit("comparison_event");
    assert("comparison_event"@.len() == 16);
    reveal_strlit("date_column");
    assert("date_column"@.len() == 11);
    reveal_strlit("event_column");
    assert("event_column"@.len() == 12);
    reveal_strlit("metric_column");
    assert("metric_column"@.len() == 13);
    reveal_strlit("pre_days");
    assert("pre_days"@.len() == 8);
    reveal_strlit("transition_days");
    assert("transition_days"@.len() == 15);
    reveal_strlit("post_days");
    assert("post_days"@.len() == 9);
    assert("release_date"@[0] != "anchor_event"@[0]);
    assert("release_date"@[0] != "event_column"@[0]);
    assert("anchor_event"@[0] != "event_column"@[0]);
}

/// The report on landing pages asks about the table, the date and the columns that it is given,
/// and tells them.
pub proof fn law_landing_reports_ask_what_they_are_given(
    args: ScratchpadLandingParamShiftArgs,
    table: Seq<char>,
    date: Seq<char>,
    windows: Windows,
    top_n: usize,
)
    requires
        sql_text::table_identifier(args.table_name@) == Ok::<Seq<char>, Problem>(table),
        dates::release_date(args.release_date@) == Ok::<Seq<char>, Problem>(date),
        release_windows(args.pre_days, args.transition_days, args.post_days) == Ok::<
            Windows,
            Problem,
        >(windows),
        1 <= top_n <= 1_000,
        args.top_n == Some(top_n) || (args.top_n is None && top_n == 100),
    ensures
        landing_query(args) matches Ok(asked) && asked.session_id == args.session_id@
            && asked.tool_name == "scratchpad_landing_param_shift_report"@ && asked.sql
            == release_sql::landing_param_shift_sql(
            table,
            date,
            sql_text::identifier_of(
                match args.date_column {
                    Some(name) => name@,
                    None => "date_parsed"@,
                },
                "date"@,
            ),
            sql_text::identifier_of(
                match args.landing_url_column {
                    Some(name) => name@,
                    None => "landingpageplusquerystring"@,
                },
                "landing_url"@,
            ),
            match args.channel_column {
                Some(name) => Some(sql_text::identifier_of(name@, "channel"@)),
                None => None,
            },
            match args.source_medium_column {
                Some(name) => Some(sql_text::identifier_of(name@, "source_medium"@)),
                None => None,
            },
            windows.pre_days,
            windows.transition_days,
            windows.post_days,
            top_n,
        ) && (asked.source matches Some(source) && (source.field("release"@) matches Some(told)
            && told.field("release_date"@) == Some(Tree::Text(date)) && told.field("top_n"@)
            == Some(Tree::Whole(top_n as int)) && told.field("pre_days"@) == Some(
            Tree::Whole(windows.pre_days as int),
        ) && told.field("transition_days"@) == Some(Tree::Whole(windows.transition_days as int))
            && told.field("post_days"@) == Some(Tree::Whole(windows.post_days as int)))),
{
    broadcast use json::group_found;

    reveal_strlit("helper");
    assert("helper"@.len() == 6);
    reveal_strlit("table_name");
    assert("table_name"@.len() == 10);
    reveal_strlit("release");
    assert("release"@.len() == 7);
    reveal_strlit("release_date");
    assert("release_date"@.len() == 12);
    reveal_strlit("date_column");
    assert("date_column"@.len() == 11);
    reveal_strlit("landing_url_column");
    assert("landing_url_column"@.len() == 18);
    reveal_strlit("channel_column");
    assert("channel_column"@.len() == 14);
    reveal_strlit("source_medium_column");
    assert("source_medium_column"@.len() == 20);
    reveal_strlit("pre_days");
    assert("pre_days"@.len() == 8);
    reveal_strlit("transition_days");
    assert("transition_days"@.len() == 15);
    reveal_strlit("post_days");
    assert("post_days"@.len() == 9);
    reveal_strlit("top_n");
    assert("top_n"@.len() == 5);
}

/// A report on a release is refused for its table, its date, its events or its windows, in this
/// order, and for nothing else.
pub proof fn law_release_reports_are_refused_for_a_reason(args: ScratchpadReleaseRegressionArgs)
    ensures
        release_query(args) matches Err(problem) ==> (sql_text::table_identifier(args.table_name@)
            == Err::<Seq<char>, Problem>(problem) || dates::release_date(args.release_date@)
            == Err::<Seq<char>, Problem>(problem) || events_problem(
            text::trim(args.anchor_event@),
            text::trim(args.comparison_event@),
        ) == Some(problem) || release_windows(
            args.pre_days,
            args.transition_days,
            args.post_days,
        ) == Err::<Windows, Problem>(problem)),
        sql_text::table_identifier(args.table_name@) is Err || dates::release_date(
            args.release_date@,
        ) is Err || events_problem(
            text::trim(args.anchor_event@),
            text::trim(args.comparison_event@),
        ) is Some || release_windows(args.pre_days, args.transition_days, args.post_days) is Err
            ==> release_query(args) is Err,
{
}

/// Rows are written from a report that is in order and read from its beginning, without a
/// cursor, and shows its rows.
pub proof fn law_reports_are_written_whole(
    args: ScratchpadIngestReportArgs,
    realtime: ScratchpadIngestRealtimeArgs,
    problem: Problem,
    table_name: Seq<char>,
)
    ensures
        ingest_report_problem(args) is None <==> (args.report.cursor is None
            && !args.report.summary_only && report_checks::report_problem(
            text::texts(args.report.dimensions@),
            text::texts(args.report.metrics@),
            json::trees(args.report.date_ranges@),
            args.report.limit,
            args.report.offset,
        ) is None && report_checks::tabular_controls_problem(
            args.report.max_rows,
            None,
            None,
        ) is None),
        ingest_realtime_problem(realtime) is None <==> (realtime.realtime.cursor is None
            && !realtime.realtime.summary_only && report_checks::realtime_problem(
            text::texts(realtime.realtime.dimensions@),
            text::texts(realtime.realtime.metrics@),
            realtime.realtime.limit,
            realtime.realtime.offset,
        ) is None && report_checks::tabular_controls_problem(
            realtime.realtime.max_rows,
            None,
            None,
        ) is None),
        ingest_table(Some(problem), table_name) == Err::<Seq<char>, Problem>(problem),
        ingest_table(None, table_name) == sql_text::table_identifier(table_name),
{
}

proof fn lemma_selected(names: Seq<Seq<char>>, n: nat, identifier: Seq<char>)
    requires
        n <= names.len(),
    ensures
        has_identifier(selected(names, n), identifier) <==> exists|i: int|
            0 <= i < n && sql_text::identifier_of(#[trigger] names[i], "table"@) == identifier,
        forall|k: int|
            0 <= k < selected(names, n).len() ==> (#[trigger] selected(names, n)[k]).1
                == sql_text::identifier_of(selected(names, n)[k].0, "table"@),
    decreases n,
{
    if n > 0 {
        lemma_selected(names, (n - 1) as nat, identifier);
        let before = selected(names, (n - 1) as nat);
        let after = selected(names, n);
        let own = sql_text::identifier_of(names[n - 1], "table"@);
        if has_identifier(after, identifier) {
            let k = choose|k: int| 0 <= k < after.len() && (#[trigger] after[k]).1 == identifier;
            if k < before.len() {
                assert(before[k].1 == identifier);
                assert(has_identifier(before, identifier));
            } else {
                assert(sql_text::identifier_of(names[n - 1], "table"@) == identifier);
            }
        }
        if exists|i: int|
            0 <= i < n && sql_text::identifier_of(#[trigger] names[i], "table"@) == identifier {
            let i = choose|i: int|
                0 <= i < n && sql_text::identifier_of(#[trigger] names[i], "table"@) == identifier;
            if has_identifier(before, identifier) {
                let k = choose|k: int|
                    0 <= k < before.len() && (#[trigger] before[k]).1 == identifier;
                assert(after[k].1 == identifier);
            } else {
                assert(i == n - 1);
                assert(after[before.len() as int].1 == identifier);
            }
        }
    }
}

/// A bundle shows every table that is asked for, by its identifier, and no other.
pub proof fn law_bundles_show_the_tables_that_are_asked_for(
    names: Seq<Seq<char>>,
    identifier: Seq<char>,
)
    ensures
        (exists|k: int|
            0 <= k < selected(names, names.len()).len() && (#[trigger] selected(
                names,
                names.len(),
            )[k]).1 == identifier) <==> exists|i: int|
            0 <= i < names.len() && sql_text::identifier_of(#[trigger] names[i], "table"@)
                == identifier,
{
    lemma_selected(names, names.len(), identifier);
}

/// A bundle shows one to fifty tables, each with a name that a table can have.
pub proof fn law_bundles_are_small(names: Seq<Seq<char>>)
    ensures
        table_names_problem(names) is None <==> 1 <= names.len() <= 50 && forall|i: int|
            0 <= i < names.len() ==> sql_text::table_identifier(#[trigger] names[i]) is Ok,
{
    let check = table_name_check(names);
    error::law_the_first_problem_is_told(names.len(), check);
    if forall|i: int| 0 <= i < names.len() ==> #[trigger] check(i) is None {
        assert forall|i: int| 0 <= i < names.len() implies sql_text::table_identifier(
            #[trigger] names[i],
        ) is Ok by {
            assert(check(i) is None);
        }
    }
    if forall|i: int|
        0 <= i < names.len() ==> sql_text::table_identifier(#[trigger] names[i]) is Ok {
        assert forall|i: int| 0 <= i < names.len() implies #[trigger] check(i) is None by {
            assert(sql_text::table_identifier(names[i]) is Ok);
        }
    }
}

/// A sample of a table is taken of all its columns, from the table itself, and so is its line in
/// the summary.
pub proof fn law_samples_are_of_their_table(sample: EvidenceSample)
    ensures
        sample_sql(sample.table.normalized@) == "SELECT * FROM "@ + ("\""@ + text::doubled(sample.table.normalized@, '"') + "\""@),
        sample_tree(sample).field("row_count_total"@) == Some(
            Tree::Whole(sample.projection@.row_count_total as int),
        ),
        sample_tree(sample).field("row_count_sampled"@) == Some(
            Tree::Whole(sample.projection@.rows.len() as int),
        ),
        sample_tree(sample).field("sample_truncated"@) == Some(
            Tree::Bool(sample.projection@.rows.len() < sample.projection@.row_count_total),
        ),
        sample_tree(sample).field("columns"@) == Some(
            contract::column_trees(sample.projection@.columns),
        ),
        sample_tree(sample).field("sample_rows"@) matches Some(Tree::List(rows)) && rows.len()
            == sample.projection@.rows.len() && forall|i: int|
            0 <= i < rows.len() ==> (#[trigger] rows[i]) == Tree::Dict(sample.projection@.rows[i]),
        sample_tree(sample).field("sample_query"@) matches Some(asked) && asked.field("sql"@)
            == Some(Tree::Text(sample_sql(sample.table.normalized@))) && asked.field("query_hash"@)
            == Some(Tree::Text(sample.query_hash@)),
        sample_tree(sample).field("table_name"@) matches Some(named) && named.field("requested"@)
            == Some(Tree::Text(sample.table.requested@)) && named.field("normalized"@) == Some(
            Tree::Text(sample.table.normalized@),
        ),
        summary_line(sample) == "- `"@ + sample.table.normalized@ + "`: total_rows="@
            + text::decimal(sample.projection@.row_count_total as nat) + ", sampled_rows="@
            + text::decimal(sample.projection@.rows.len()) + ", query_hash="@ + sample.query_hash@
            + "\n"@,
{
    broadcast use json::group_found;

    reveal_strlit("table_name");
    assert("table_name"@.len() == 10);
    reveal_strlit("sample_query");
    assert("sample_query"@.len() == 12);
    reveal_strlit("row_count_total");
    assert("row_count_total"@.len() == 15);
    reveal_strlit("row_count_sampled");
    assert("row_count_sampled"@.len() == 17);
    reveal_strlit("sample_truncated");
    assert("sample_truncated"@.len() == 16);
    reveal_strlit("columns");
    assert("columns"@.len() == 7);
    reveal_strlit("sample_rows");
    assert("sample_rows"@.len() == 11);
    reveal_strlit("sql");
    assert("sql"@.len() == 3);
    reveal_strlit("query_hash");
    assert("query_hash"@.len() == 10);
    reveal_strlit("requested");
    assert("requested"@.len() == 9);
    reveal_strlit("normalized");
    assert("normalized"@.len() == 10);
    assert("table_name"@[0] != "query_hash"@[0]);
    assert("table_name"@[0] != "normalized"@[0]);
    assert("query_hash"@[0] != "normalized"@[0]);
}

/// The summary of a bundle has one line for each of its tables, in their order.
pub proof fn law_summaries_have_a_line_for_each_table(samples: Seq<EvidenceSample>, n: nat)
    requires
        n < samples.len(),
    ensures
        summary_lines(samples, 0).len() == 0,
        summary_lines(samples, n + 1) == summary_lines(samples, n) + summary_line(
            samples[n as int],
        ),
{
}

/// A session that was opened is told with what it holds and may hold.
pub proof fn law_opened_sessions_are_told(
    info: ScratchpadSessionInfo,
    limits: ScratchpadLimits,
)
    ensures
        opened_tree(info, limits).field("session_id"@) == Some(Tree::Text(info.session_id@)),
        opened_tree(info, limits).field("usage"@) matches Some(held)
            && held.field("tables_used"@) == Some(Tree::Whole(info.usage.tables_used as int))
            && held.field("tables_remaining"@)
                == Some(Tree::Whole(info.usage.tables_remaining as int))
            && held.field("rows_used"@) == Some(Tree::Whole(info.usage.rows_used as int))
            && held.field("rows_remaining"@) == Some(Tree::Whole(info.usage.rows_remaining as int)),
        opened_tree(info, limits).field("ttl_seconds"@) matches Some(held)
            && held.field("default"@) == Some(Tree::Whole(limits.session_ttl_secs as int))
            && held.field("remaining"@) == Some(Tree::Whole(info.ttl_seconds_remaining as int)),
        opened_tree(info, limits).field("limits"@) matches Some(held)
            && held.field("max_sessions"@) == Some(Tree::Whole(limits.max_sessions as int))
            && held.field("max_tables_per_session"@)
                == Some(Tree::Whole(limits.max_tables_per_session as int))
            && held.field("max_rows_per_session"@)
                == Some(Tree::Whole(limits.max_rows_per_session as int))
            && held.field("max_memory_mb"@) == Some(Tree::Whole(limits.max_memory_mb as int))
            && held.field("max_sql_bytes"@) == Some(Tree::Whole(limits.max_sql_bytes as int))
            && held.field("query_timeout_ms"@) == Some(Tree::Whole(limits.query_timeout_ms as int)),
{
    broadcast use json::group_found;

    reveal_strlit("session_id");
    assert("session_id"@.len() == 10);
    reveal_strlit("usage");
    assert("usage"@.len() == 5);
    reveal_strlit("ttl_seconds");
    assert("ttl_seconds"@.len() == 11);
    reveal_strlit("limits");
    assert("limits"@.len() == 6);
    reveal_strlit("tables_used");
    assert("tables_used"@.len() == 11);
    reveal_strlit("tables_remaining");
    assert("tables_remaining"@.len() == 16);
    reveal_strlit("rows_used");
    assert("rows_used"@.len() == 9);
    reveal_strlit("rows_remaining");
    assert("rows_remaining"@.len() == 14);
    reveal_strlit("default");
    assert("default"@.len() == 7);
    reveal_strlit("remaining");
    assert("remaining"@.len() == 9);
    reveal_strlit("max_sessions");
    assert("max_sessions"@.len() == 12);
    reveal_strlit("max_tables_per_session");
    assert("max_tables_per_session"@.len() == 22);
    reveal_strlit("max_rows_per_session");
    assert("max_rows_per_session"@.len() == 20);
    reveal_strlit("max_memory_mb");
    assert("max_memory_mb"@.len() == 13);
    reveal_strlit("max_sql_bytes");
    assert("max_sql_bytes"@.len() == 13);
    reveal_strlit("query_timeout_ms");
    assert("query_timeout_ms"@.len() == 16);
    assert("ttl_seconds"@[1] != "tables_used"@[1]);
    assert("tables_remaining"@[0] != "query_timeout_ms"@[0]);
    assert("rows_used"@[1] != "remaining"@[1]);
    assert("max_memory_mb"@[4] != "max_sql_bytes"@[4]);
}

/// A session in a list is told with what it holds and how long it lasts.
pub proof fn law_sessions_are_told(
    info: ScratchpadSessionInfo,
)
    ensures
        session_tree(info).field("session_id"@) == Some(Tree::Text(info.session_id@)),
        session_tree(info).field("ttl_seconds_remaining"@)
            == Some(Tree::Whole(info.ttl_seconds_remaining as int)),
        session_tree(info).field("tables_used"@)
            == Some(Tree::Whole(info.usage.tables_used as int)),
        session_tree(info).field("tables_remaining"@)
            == Some(Tree::Whole(info.usage.tables_remaining as int)),
        session_tree(info).field("rows_used"@) == Some(Tree::Whole(info.usage.rows_used as int)),
        session_tree(info).field("rows_remaining"@)
            == Some(Tree::Whole(info.usage.rows_remaining as int)),
{
    broadcast use json::group_found;

    reveal_strlit("session_id");
    assert("session_id"@.len() == 10);
    reveal_strlit("ttl_seconds_remaining");
    assert("ttl_seconds_remaining"@.len() == 21);
    reveal_strlit("tables_used");
    assert("tables_used"@.len() == 11);
    reveal_strlit("tables_remaining");
    assert("tables_remaining"@.len() == 16);
    reveal_strlit("rows_used");
    assert("rows_used"@.len() == 9);
    reveal_strlit("rows_remaining");
    assert("rows_remaining"@.len() == 14);
}

/// A table in a list is told with its names and its columns.
pub proof fn law_tables_are_told(
    table: ScratchpadTableInfo,
    i: int,
)
    requires
        0 <= i < table.columns@.len(),
    ensures
        table_tree(table).field("schema"@) == Some(Tree::Text(table.schema@)),
        table_tree(table).field("name"@) == Some(Tree::Text(table.name@)),
        table_tree(table).field("table_type"@) == Some(Tree::Text(table.table_type@)),
        table_tree(table).field("schema_summary"@) matches Some(held)
            && held.field("column_count"@) == Some(Tree::Whole(table.column_count as int))
            && held.field("columns_returned"@) == Some(Tree::Whole(table.columns@.len() as int))
            && held.field("columns_truncated"@) == Some(Tree::Bool(table.columns_truncated))
            && held.field("columns"@)
                == Some(
                    Tree::List(
                        Seq::new(table.columns@.len(), |k: int| column_tree(table.columns@[k])),
                    ),
                ),
        column_tree(table.columns@[i]).field("name"@) == Some(Tree::Text(table.columns@[i].name@)),
        column_tree(table.columns@[i]).field("logical_type"@)
            == Some(Tree::Text(table.columns@[i].logical_type@)),
        column_tree(table.columns@[i]).field("nullable"@)
            == Some(Tree::Bool(table.columns@[i].nullable)),
{
    broadcast use json::group_found;

    reveal_strlit("schema");
    assert("schema"@.len() == 6);
    reveal_strlit("name");
    assert("name"@.len() == 4);
    reveal_strlit("table_type");
    assert("table_type"@.len() == 10);
    reveal_strlit("schema_summary");
    assert("schema_summary"@.len() == 14);
    reveal_strlit("column_count");
    assert("column_count"@.len() == 12);
    reveal_strlit("columns_returned");
    assert("columns_returned"@.len() == 16);
    reveal_strlit("columns_truncated");
    assert("columns_truncated"@.len() == 17);
    reveal_strlit("columns");
    assert("columns"@.len() == 7);
    reveal_strlit("logical_type");
    assert("logical_type"@.len() == 12);
    reveal_strlit("nullable");
    assert("nullable"@.len() == 8);
    assert("column_count"@[0] != "logical_type"@[0]);
}

/// A limit that was changed is told as it was and as it is.
pub proof fn law_changes_are_told(
    previous: usize,
    updated: usize,
)
    ensures
        change_tree(previous, updated).field("previous"@) == Some(Tree::Whole(previous as int)),
        change_tree(previous, updated).field("updated"@) == Some(Tree::Whole(updated as int)),
{
    broadcast use json::group_found;

    reveal_strlit("previous");
    assert("previous"@.len() == 8);
    reveal_strlit("updated");
    assert("updated"@.len() == 7);
}

/// A bundle is planned where its sample is of one to two hundred rows, and its tables are in
/// order where they are named.
pub proof fn law_bundles_are_planned_where_in_order(args: ScratchpadEvidenceBundleArgs)
    ensures
        evidence_problem(args) is None <==> (args.sample_rows_per_table matches Some(n) ==> 1 <= n
            <= 200) && (args.table_names matches Some(names) ==> table_names_problem(
            text::texts(names@),
        ) is None),
{
}

/// A query is shown as it was asked for.
pub proof fn law_queries_are_shown_as_asked(
    controls: ScratchpadQueryControls,
    max_rows: Option<usize>,
    cursor: Option<String>,
    output_mode: Option<TabularOutputMode>,
    summary_only: bool,
    max_cell_chars: Option<usize>,
)
    requires
        controls_are(controls, max_rows, cursor, output_mode, summary_only, max_cell_chars),
    ensures
        controls.max_rows == max_rows,
        controls.cursor == cursor,
        controls.summary_only == summary_only,
        controls.max_cell_chars == max_cell_chars,
        controls.output_mode == (match output_mode {
            None => contract::OutputMode::Rows,
            Some(TabularOutputMode::Rows) => contract::OutputMode::Rows,
            Some(TabularOutputMode::Tuples) => contract::OutputMode::Tuples,
            Some(TabularOutputMode::Scalar) => contract::OutputMode::Scalar,
            Some(TabularOutputMode::Compact) => contract::OutputMode::Compact,
        }),
{
}

/// A summary begins with the session, the time, the number of tables and the size of a sample.
pub proof fn law_summaries_begin_with_the_session(
    session_id: Seq<char>,
    generated_at_epoch_ms: u64,
    tables: nat,
    sample_rows: usize,
)
    ensures
        text::holds(
            summary_head(session_id, generated_at_epoch_ms, tables, sample_rows),
            text::trim(session_id) + "`\n- Generated (epoch_ms): `"@ + text::decimal(
                generated_at_epoch_ms as nat,
            ) + "`\n- Tables: `"@ + text::decimal(tables) + "`\n- Sample rows per table: `"@
                + text::decimal(sample_rows as nat),
        ),
{
    let part = text::trim(session_id) + "`\n- Generated (epoch_ms): `"@ + text::decimal(
        generated_at_epoch_ms as nat,
    ) + "`\n- Tables: `"@ + text::decimal(tables) + "`\n- Sample rows per table: `"@
        + text::decimal(sample_rows as nat);
    let before = "# Scratchpad Evidence Bundle\n\n- Session: `"@;
    let after = "`\n\n"@ + "## Table Summary\n\n"@;
    text::law_parts_are_held(before, part, after);
    assert(summary_head(session_id, generated_at_epoch_ms, tables, sample_rows) =~= before + part
        + after);
}

/// The reports tell the columns that they read.
pub proof fn law_reports_tell_their_columns(
    release: ScratchpadReleaseRegressionArgs,
    landing: ScratchpadLandingParamShiftArgs,
    table: Seq<char>,
    date: Seq<char>,
    windows: Windows,
    top_n: usize,
)
    ensures
        release_asked(release, table, date, windows).source matches Some(source) && (source.field(
            "release"@,
        ) matches Some(told) && told.field("date_column"@) == Some(
            Tree::Text(named_column(release.date_column, "date"@, "date"@)),
        ) && told.field("event_column"@) == Some(
            Tree::Text(named_column(release.event_column, "event_name"@, "event"@)),
        ) && told.field("metric_column"@) == Some(
            match optional_column(release.metric_column, "metric"@) {
                Some(name) => Tree::Text(name),
                None => Tree::Null,
            },
        )),
        landing_asked(landing, table, date, windows, top_n).source matches Some(source) && (
        source.field("release"@) matches Some(told) && told.field("date_column"@) == Some(
            Tree::Text(named_column(landing.date_column, "date_parsed"@, "date"@)),
        ) && told.field("landing_url_column"@) == Some(
            Tree::Text(
                named_column(
                    landing.landing_url_column,
                    "landingpageplusquerystring"@,
                    "landing_url"@,
                ),
            ),
        ) && told.field("channel_column"@) == Some(
            match optional_column(landing.channel_column, "channel"@) {
                Some(name) => Tree::Text(name),
                None => Tree::Null,
            },
        ) && told.field("source_medium_column"@) == Some(
            match optional_column(landing.source_medium_column, "source_medium"@) {
                Some(name) => Tree::Text(name),
                None => Tree::Null,
            },
        )),
{
    broadcast use json::group_found;

    reveal_strlit("helper");
    assert("helper"@.len() == 6);
    reveal_strlit("table_name");
    assert("table_name"@.len() == 10);
    reveal_strlit("release");
    assert("release"@.len() == 7);
    reveal_strlit("release_date");
    assert("release_date"@.len() == 12);
    reveal_strlit("anchor_event");
    assert("anchor_event"@.len() == 12);
    reveal_strlit("comparison_event");
    assert("comparison_event"@.len() == 16);
    reveal_strlit("date_column");
    assert("date_column"@.len() == 11);
    reveal_strlit("event_column");
    assert("event_column"@.len() == 12);
    reveal_strlit("metric_column");
    assert("metric_column"@.len() == 13);
    reveal_strlit("pre_days");
    assert("pre_days"@.len() == 8);
    reveal_strlit("transition_days");
    assert("transition_days"@.len() == 15);
    reveal_strlit("post_days");
    assert("post_days"@.len() == 9);
    reveal_strlit("landing_url_column");
    assert("landing_url_column"@.len() == 18);
    reveal_strlit("channel_column");
    assert("channel_column"@.len() == 14);
    reveal_strlit("source_medium_column");
    assert("source_medium_column"@.len() == 20);
    reveal_strlit("top_n");
    assert("top_n"@.len() == 5);
    assert("release_date"@[0] != "anchor_event"@[0]);
    assert("release_date"@[0] != "event_column"@[0]);
    assert("anchor_event"@[0] != "event_column"@[0]);
}

/// What is said of a report that cannot be written, of events that cannot be compared, and of
/// tables that cannot be shown.
pub proof fn law_faults_of_scratchpad_tools_are_said(
    tool: Seq<char>,
    summary_only: bool,
    anchor: Seq<char>,
)
    requires
        anchor.len() > 0,
    ensures
        read_option_problem(true, summary_only, tool) == Some(
            Problem::InvalidArgument(
                "cursor"@,
                "cursor is not supported for "@ + tool + "; use offset/limit"@,
            ),
        ),
        read_option_problem(false, true, tool) == Some(
            Problem::InvalidArgument(
                "summary_only"@,
                "summary_only=true is not supported for "@ + tool,
            ),
        ),
        read_option_problem(false, false, tool) is None,
        events_problem(anchor, anchor) == Some(
            Problem::InvalidArgument("comparison_event"@, "must be different from anchor_event"@),
        ),
        table_names_problem(Seq::<Seq<char>>::empty()) == Some(
            Problem::InvalidArgument("table_names"@, "must not be empty when provided"@),
        ),
{
}

} // verus!
