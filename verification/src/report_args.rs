//! Arguments of the tools.

use vstd::prelude::*;
use vstd::string::*;

use crate::contract;
use crate::ga_client::{AccountId, PropertyId};
use crate::json::Json;
use crate::text;

verus! {

#[derive(Debug)]
pub struct AuthStatusArgs {
    /// When true, acquire a Google access token and call GA account summaries. The token is never returned.
    pub verify_token: bool,
}

#[derive(Debug)]
pub struct AuthLoginCommandArgs {
    /// Include the headless browser flag for SSH or remote environments.
    pub headless: bool,
    /// Optional Google OAuth client id file for direct browser OAuth.
    pub client_id_file: Option<String>,
    /// Optional Google account hint for browser login.
    pub account: Option<String>,
    /// Optional fixed loopback callback port for direct browser OAuth.
    pub callback_port: Option<u16>,
    /// Optional quota project to include as a follow-up command.
    pub quota_project: Option<String>,
    /// Use the conventional shared gcloud ADC file instead of the server-specific file.
    pub shared_adc: Option<bool>,
}

#[derive(Debug, Clone, Copy, PartialEq, Eq, Structural)]
pub enum TabularOutputMode {
    Rows,
    Tuples,
    Scalar,
    Compact,
}



#[derive(Debug)]
pub struct GetAccountSummariesArgs {
    /// Optional page size used during pagination. Defaults to server max.
    pub page_size: Option<u32>,
    /// Optional max pages to fetch before stopping.
    pub max_pages: Option<u32>,
}

#[derive(Debug)]
pub struct ReportDateRangeSchema {
    /// Inclusive start date (for example `2026-02-01`, `7daysAgo`).
    pub start_date: String,
    /// Inclusive end date (for example `2026-02-07`, `yesterday`).
    pub end_date: String,
}

#[derive(Debug)]
pub struct PropertyArgs {
    /// The Google Analytics property id as integer or `properties/<id>`.
    pub property_id: PropertyId,
}

#[derive(Debug)]
pub struct CheckReportCompatibilityArgs {
    /// The Google Analytics property id as integer or `properties/<id>`.
    pub property_id: PropertyId,
    /// Requested dimensions for preflight compatibility checks.
    pub dimensions: Vec<String>,
    /// Requested metrics for preflight compatibility checks.
    pub metrics: Vec<String>,
}

#[derive(Debug)]
pub struct AccountArgs {
    /// The Google Analytics account id as integer or `accounts/<id>`.
    pub account_id: AccountId,
}

#[derive(Debug)]
pub struct PropertyListArgs {
    /// The Google Analytics property id as integer or `properties/<id>`.
    pub property_id: PropertyId,
    /// Optional page size used during pagination. Defaults to server max.
    pub page_size: Option<u32>,
    /// Optional max pages to fetch before stopping.
    pub max_pages: Option<u32>,
}

#[derive(Debug)]
pub struct RunReportArgs {
    pub property_id: PropertyId,
    pub date_ranges: Vec<Json>,
    pub dimensions: Vec<String>,
    pub metrics: Vec<String>,
    /// GA FilterExpression. Accepts an object, JSON-object string, or `field==value` shorthand.
    pub dimension_filter: Option<Json>,
    /// GA FilterExpression. Accepts an object or JSON-object string.
    pub metric_filter: Option<Json>,
    pub order_bys: Option<Vec<Json>>,
    pub limit: Option<u64>,
    pub offset: Option<u64>,
    pub currency_code: Option<String>,
    pub return_property_quota: bool,
    /// Optional response row cap for Contract V1 tabular payloads.
    pub max_rows: Option<usize>,
    /// Opaque pagination cursor from `meta.next_cursor`.
    pub cursor: Option<String>,
    /// Tabular output shape for the response payload.
    pub output_mode: Option<TabularOutputMode>,
    /// If true, omit row payload and return metadata only.
    pub summary_only: bool,
    /// Optional string clipping limit applied to response cell values.
    pub max_cell_chars: Option<usize>,
}

#[derive(Debug, Clone, Copy, PartialEq, Eq, Structural)]
pub enum AttributionModel {
    DataDriven,
    LastClick,
}


#[derive(Debug)]
pub struct ConversionSpecArgs {
    /// Conversion action resource names such as `conversionActions/1234`. An empty list means all conversions.
    pub conversion_actions: Vec<String>,
    /// Attribution model. Google defaults to DATA_DRIVEN when omitted.
    pub attribution_model: Option<AttributionModel>,
}

#[derive(Debug)]
pub struct RunConversionsReportArgs {
    pub property_id: PropertyId,
    pub date_ranges: Vec<Json>,
    /// Conversion-report dimensions. See the tool description for the supported names.
    pub dimensions: Vec<String>,
    /// Conversion-report metrics. See the tool description for the supported names.
    pub metrics: Vec<String>,
    pub conversion_spec: ConversionSpecArgs,
    /// GA FilterExpression. Accepts an object, JSON-object string, or `field==value` shorthand.
    pub dimension_filter: Option<Json>,
    /// GA FilterExpression. Accepts an object or JSON-object string.
    pub metric_filter: Option<Json>,
    pub order_bys: Option<Vec<Json>>,
    pub limit: Option<u64>,
    pub offset: Option<u64>,
    pub currency_code: Option<String>,
    pub return_property_quota: bool,
    /// Optional response row cap for Contract V1 tabular payloads.
    pub max_rows: Option<usize>,
    /// Opaque pagination cursor from `meta.next_cursor`.
    pub cursor: Option<String>,
    /// Tabular output shape for the response payload.
    pub output_mode: Option<TabularOutputMode>,
    /// If true, omit row payload and return metadata only.
    pub summary_only: bool,
    /// Optional string clipping limit applied to response cell values.
    pub max_cell_chars: Option<usize>,
}

#[derive(Debug)]
pub struct FunnelStepArgs {
    /// Display name for the funnel step.
    pub name: Option<String>,
    /// Simple event-name shorthand. Mutually exclusive with `filter_expression`.
    pub event: Option<String>,
    /// Complete GA FunnelFilterExpression. Mutually exclusive with `event`.
    pub filter_expression: Option<Json>,
    /// Require this step to directly follow the prior step.
    pub is_directly_followed_by: Option<bool>,
    /// Protobuf duration such as `3600s` relative to the prior step.
    pub within_duration_from_prior_step: Option<String>,
}

#[derive(Debug)]
pub struct FunnelBreakdownArgs {
    /// Dimension used to break down each funnel step, such as `deviceCategory`.
    pub breakdown_dimension: String,
    /// Maximum distinct breakdown values. Must be 1 through 15.
    pub limit: Option<u64>,
}

#[derive(Debug)]
pub struct FunnelNextActionArgs {
    /// Dimension used to analyze the next action, such as `eventName` or `pagePath`.
    pub next_action_dimension: String,
    /// Maximum distinct next-action values. Must be 1 through 5.
    pub limit: Option<u64>,
}

#[derive(Debug, Clone, Copy, PartialEq, Eq, Structural)]
pub enum FunnelVisualizationType {
    StandardFunnel,
    TrendedFunnel,
}


#[derive(Debug)]
pub struct RunFunnelReportArgs {
    pub property_id: PropertyId,
    /// Ordered funnel steps. Each step must set exactly one of `event` or `filter_expression`.
    pub funnel_steps: Vec<FunnelStepArgs>,
    /// Allow users to enter at any funnel step. Defaults to a closed funnel.
    pub is_open_funnel: bool,
    /// Optional report date ranges.
    pub date_ranges: Vec<Json>,
    pub funnel_breakdown: Option<FunnelBreakdownArgs>,
    pub funnel_next_action: Option<FunnelNextActionArgs>,
    pub funnel_visualization_type: Option<FunnelVisualizationType>,
    /// Optional GA segment objects. Google permits at most four.
    pub segments: Option<Vec<Json>>,
    /// GA FilterExpression applied to dimensions. Accepts an object, JSON-object string, or `field==value` shorthand.
    pub dimension_filter: Option<Json>,
    /// Maximum rows requested from Google. Must be 1 through 250,000.
    pub limit: Option<u64>,
    pub return_property_quota: bool,
    /// Per-subreport response row cap. Defaults to 200 and is also used to bound the upstream request.
    pub max_rows: Option<usize>,
    /// Tabular output shape applied independently to the table and visualization subreports.
    pub output_mode: Option<TabularOutputMode>,
    /// If true, omit both subreport row payloads and return metadata only.
    pub summary_only: bool,
    /// Optional string clipping limit applied to subreport cell values.
    pub max_cell_chars: Option<usize>,
}

#[derive(Debug)]
pub struct PreviewReportRequestArgs {
    /// GA Data API report request fields.
    pub report: RunReportArgs,
}

#[derive(Debug)]
pub struct RunAccessReportPropertyArgs {
    pub property_id: PropertyId,
    pub date_ranges: Vec<Json>,
    pub dimensions: Vec<String>,
    pub metrics: Vec<String>,
    /// GA FilterExpression. Accepts an object, JSON-object string, or `field==value` shorthand.
    pub dimension_filter: Option<Json>,
    /// GA FilterExpression. Accepts an object or JSON-object string.
    pub metric_filter: Option<Json>,
    pub order_bys: Option<Vec<Json>>,
    pub offset: Option<u64>,
    pub limit: Option<u64>,
    pub time_zone: Option<String>,
    /// Optional response row cap for Contract V1 tabular payloads.
    pub max_rows: Option<usize>,
    /// Opaque pagination cursor from `meta.next_cursor`.
    pub cursor: Option<String>,
    /// Tabular output shape for the response payload.
    pub output_mode: Option<TabularOutputMode>,
    /// If true, omit row payload and return metadata only.
    pub summary_only: bool,
    /// Optional string clipping limit applied to response cell values.
    pub max_cell_chars: Option<usize>,
}

#[derive(Debug)]
pub struct RunAccessReportAccountArgs {
    pub account_id: AccountId,
    pub date_ranges: Vec<Json>,
    pub dimensions: Vec<String>,
    pub metrics: Vec<String>,
    /// GA FilterExpression. Accepts an object, JSON-object string, or `field==value` shorthand.
    pub dimension_filter: Option<Json>,
    /// GA FilterExpression. Accepts an object or JSON-object string.
    pub metric_filter: Option<Json>,
    pub order_bys: Option<Vec<Json>>,
    pub offset: Option<u64>,
    pub limit: Option<u64>,
    pub time_zone: Option<String>,
    /// Optional response row cap for Contract V1 tabular payloads.
    pub max_rows: Option<usize>,
    /// Opaque pagination cursor from `meta.next_cursor`.
    pub cursor: Option<String>,
    /// Tabular output shape for the response payload.
    pub output_mode: Option<TabularOutputMode>,
    /// If true, omit row payload and return metadata only.
    pub summary_only: bool,
    /// Optional string clipping limit applied to response cell values.
    pub max_cell_chars: Option<usize>,
}

#[derive(Debug)]
pub struct RunRealtimeReportArgs {
    pub property_id: PropertyId,
    pub dimensions: Vec<String>,
    pub metrics: Vec<String>,
    /// GA FilterExpression. Accepts an object, JSON-object string, or `field==value` shorthand.
    pub dimension_filter: Option<Json>,
    /// GA FilterExpression. Accepts an object or JSON-object string.
    pub metric_filter: Option<Json>,
    pub order_bys: Option<Vec<Json>>,
    pub limit: Option<u64>,
    pub offset: Option<u64>,
    pub return_property_quota: bool,
    /// Optional response row cap for Contract V1 tabular payloads.
    pub max_rows: Option<usize>,
    /// Opaque pagination cursor from `meta.next_cursor`.
    pub cursor: Option<String>,
    /// Tabular output shape for the response payload.
    pub output_mode: Option<TabularOutputMode>,
    /// If true, omit row payload and return metadata only.
    pub summary_only: bool,
    /// Optional string clipping limit applied to response cell values.
    pub max_cell_chars: Option<usize>,
}

#[derive(Debug)]
pub struct RunPivotReportArgs {
    pub property_id: PropertyId,
    pub date_ranges: Vec<Json>,
    pub dimensions: Vec<String>,
    pub metrics: Vec<String>,
    pub pivots: Vec<Json>,
    /// GA FilterExpression. Accepts an object, JSON-object string, or `field==value` shorthand.
    pub dimension_filter: Option<Json>,
    /// GA FilterExpression. Accepts an object or JSON-object string.
    pub metric_filter: Option<Json>,
    pub order_bys: Option<Vec<Json>>,
    pub currency_code: Option<String>,
    pub keep_empty_rows: bool,
    pub return_property_quota: bool,
    /// Optional response row cap for Contract V1 tabular payloads.
    pub max_rows: Option<usize>,
    /// Opaque pagination cursor from `meta.next_cursor`.
    pub cursor: Option<String>,
    /// Tabular output shape for the response payload.
    pub output_mode: Option<TabularOutputMode>,
    /// If true, omit row payload and return metadata only.
    pub summary_only: bool,
    /// Optional string clipping limit applied to response cell values.
    pub max_cell_chars: Option<usize>,
}

#[derive(Debug)]
pub struct BatchRunReportItemArgs {
    pub date_ranges: Vec<Json>,
    pub dimensions: Vec<String>,
    pub metrics: Vec<String>,
    /// GA FilterExpression. Accepts an object, JSON-object string, or `field==value` shorthand.
    pub dimension_filter: Option<Json>,
    /// GA FilterExpression. Accepts an object or JSON-object string.
    pub metric_filter: Option<Json>,
    pub order_bys: Option<Vec<Json>>,
    pub limit: Option<u64>,
    pub offset: Option<u64>,
    pub currency_code: Option<String>,
    pub return_property_quota: bool,
    /// Optional response row cap for Contract V1 tabular payloads.
    pub max_rows: Option<usize>,
    /// Opaque pagination cursor from `meta.next_cursor`.
    pub cursor: Option<String>,
    /// Tabular output shape for the response payload.
    pub output_mode: Option<TabularOutputMode>,
    /// If true, omit row payload and return metadata only.
    pub summary_only: bool,
    /// Optional string clipping limit applied to response cell values.
    pub max_cell_chars: Option<usize>,
}

#[derive(Debug)]
pub struct BatchRunReportsArgs {
    pub property_id: PropertyId,
    pub requests: Vec<BatchRunReportItemArgs>,
}

#[derive(Debug)]
pub struct ScratchpadSessionArgs {
    /// Logical scratchpad session identifier.
    pub session_id: String,
}

#[derive(Debug)]
pub struct ScratchpadRuntimeLimitsArgs {}

#[derive(Debug)]
pub struct ScratchpadSetRuntimeLimitsArgs {
    /// Maximum number of active scratchpad sessions allowed at runtime.
    pub max_sessions: Option<usize>,
    /// Maximum number of tables allowed per scratchpad session at runtime.
    pub max_tables_per_session: Option<usize>,
}

#[derive(Debug)]
pub struct ScratchpadInventoryArgs {
    /// Optional row cap for inventory listing.
    pub limit: Option<usize>,
}

#[derive(Debug)]
pub struct ScratchpadTableInventoryArgs {
    /// Logical scratchpad session identifier.
    pub session_id: String,
    /// Optional row cap for table inventory listing.
    pub limit: Option<usize>,
}

#[derive(Debug)]
pub struct ScratchpadDropTableArgs {
    /// Logical scratchpad session identifier.
    pub session_id: String,
    /// Scratchpad table name to drop.
    pub table_name: String,
    /// If true, return success when the table is absent.
    pub if_exists: bool,
}

#[derive(Debug)]
pub struct ScratchpadIngestReportArgs {
    /// Logical scratchpad session identifier.
    pub session_id: String,
    /// Destination scratchpad table name.
    pub table_name: String,
    /// GA Data API report request fields.
    pub report: RunReportArgs,
    /// If true, append rows into an existing scratchpad table with identical schema.
    pub append: bool,
}

#[derive(Debug)]
pub struct ScratchpadIngestRealtimeArgs {
    /// Logical scratchpad session identifier.
    pub session_id: String,
    /// Destination scratchpad table name.
    pub table_name: String,
    /// GA realtime report request fields.
    pub realtime: RunRealtimeReportArgs,
    /// If true, append rows into an existing scratchpad table with identical schema.
    pub append: bool,
}

#[derive(Debug)]
pub struct ScratchpadQueryArgs {
    /// Logical scratchpad session identifier.
    pub session_id: String,
    /// Read-only SQL query against the scratchpad session.
    pub sql: String,
    /// Optional response row cap for Contract V1 tabular payloads.
    pub max_rows: Option<usize>,
    /// Opaque pagination cursor from `meta.next_cursor`.
    pub cursor: Option<String>,
    /// Tabular output shape for the response payload.
    pub output_mode: Option<TabularOutputMode>,
    /// If true, omit row payload and return metadata only.
    pub summary_only: bool,
    /// Optional string clipping limit applied to response cell values.
    pub max_cell_chars: Option<usize>,
}

#[derive(Debug)]
pub struct ScratchpadTableHelperArgs {
    /// Logical scratchpad session identifier.
    pub session_id: String,
    /// Scratchpad table to target.
    pub table_name: String,
    /// Optional response row cap for Contract V1 tabular payloads.
    pub max_rows: Option<usize>,
    /// Opaque pagination cursor from `meta.next_cursor`.
    pub cursor: Option<String>,
    /// Tabular output shape for the response payload.
    pub output_mode: Option<TabularOutputMode>,
    /// If true, omit row payload and return metadata only.
    pub summary_only: bool,
    /// Optional string clipping limit applied to response cell values.
    pub max_cell_chars: Option<usize>,
}

#[derive(Debug)]
pub struct ScratchpadReleaseRegressionArgs {
    /// Logical scratchpad session identifier.
    pub session_id: String,
    /// Scratchpad table to target.
    pub table_name: String,
    /// Release date in `YYYY-MM-DD`.
    pub release_date: String,
    /// Anchor event used as the instrumentation signal.
    pub anchor_event: String,
    /// Comparison event used as behavior baseline.
    pub comparison_event: String,
    /// Optional date column name (defaults to `date`).
    pub date_column: Option<String>,
    /// Optional event-name column (defaults to `event_name`).
    pub event_column: Option<String>,
    /// Optional numeric metric column (defaults to row-count weighting).
    pub metric_column: Option<String>,
    /// Number of baseline days before `release_date` (default: 7).
    pub pre_days: Option<u32>,
    /// Number of transition days from `release_date` (default: 1).
    pub transition_days: Option<u32>,
    /// Number of post-release days after transition window (default: 7).
    pub post_days: Option<u32>,
    /// Optional response row cap for Contract V1 tabular payloads.
    pub max_rows: Option<usize>,
    /// Opaque pagination cursor from `meta.next_cursor`.
    pub cursor: Option<String>,
    /// Tabular output shape for the response payload.
    pub output_mode: Option<TabularOutputMode>,
    /// If true, omit row payload and return metadata only.
    pub summary_only: bool,
    /// Optional string clipping limit applied to response cell values.
    pub max_cell_chars: Option<usize>,
}

#[derive(Debug)]
pub struct ScratchpadLandingParamShiftArgs {
    /// Logical scratchpad session identifier.
    pub session_id: String,
    /// Scratchpad table to target.
    pub table_name: String,
    /// Release date in `YYYY-MM-DD`.
    pub release_date: String,
    /// Optional date column name (defaults to `date_parsed`).
    pub date_column: Option<String>,
    /// Optional landing URL column (defaults to `landingpageplusquerystring`).
    pub landing_url_column: Option<String>,
    /// Optional channel column; when unset, all rows are grouped under `all`.
    pub channel_column: Option<String>,
    /// Optional source/medium column; when unset, all rows are grouped under `all`.
    pub source_medium_column: Option<String>,
    /// Number of baseline days before `release_date` (default: 7).
    pub pre_days: Option<u32>,
    /// Number of transition days from `release_date` (default: 1).
    pub transition_days: Option<u32>,
    /// Number of post-release days after transition window (default: 7).
    pub post_days: Option<u32>,
    /// Maximum number of ranked parameter shifts to return (default: 100).
    pub top_n: Option<usize>,
    /// Optional response row cap for Contract V1 tabular payloads.
    pub max_rows: Option<usize>,
    /// Opaque pagination cursor from `meta.next_cursor`.
    pub cursor: Option<String>,
    /// Tabular output shape for the response payload.
    pub output_mode: Option<TabularOutputMode>,
    /// If true, omit row payload and return metadata only.
    pub summary_only: bool,
    /// Optional string clipping limit applied to response cell values.
    pub max_cell_chars: Option<usize>,
}

#[derive(Debug)]
pub struct ScratchpadEvidenceBundleArgs {
    /// Logical scratchpad session identifier.
    pub session_id: String,
    /// Optional subset of tables to include; defaults to all session tables (bounded).
    pub table_names: Option<Vec<String>>,
    /// Optional number of sample rows to include per table (default: 20).
    pub sample_rows_per_table: Option<usize>,
}

/// What a flag is that a request leaves out, where leaving it out means yes.
pub fn default_true() -> (r: bool)
    ensures
        r,
{
    true
}

// ---------------------------------------------------------------------------
// Names.
// ---------------------------------------------------------------------------

/// What the `Debug` formatting of a `str` writes for a text.
pub uninterp spec fn debug_text(shown: Seq<char>) -> Seq<char>;

/// `format!` with the `Debug` form of a `str`: the text in double quotes, with escapes.
/// What is written depends on the text alone.
#[verifier::external_body]
pub(crate) fn debug_of(shown: &str) -> (r: String)
    ensures
        r@ == debug_text(shown@),
{
    format!("{:?}", shown)
}

impl TabularOutputMode {
    /// The names of the output modes.
    pub open spec fn allowed_values() -> Seq<Seq<char>> {
        seq!["rows"@, "tuples"@, "scalar"@, "compact"@]
    }

    /// The mode that a name stands for, whatever its case and the spaces around it.
    pub open spec fn named(raw: Seq<char>) -> Option<Self> {
        let name = text::lowered(text::trim(raw));
        if name == "rows"@ {
            Some(TabularOutputMode::Rows)
        } else if name == "tuples"@ {
            Some(TabularOutputMode::Tuples)
        } else if name == "scalar"@ {
            Some(TabularOutputMode::Scalar)
        } else if name == "compact"@ {
            Some(TabularOutputMode::Compact)
        } else {
            None
        }
    }

    /// The mode that a name stands for.
    pub fn parse(raw: &str) -> (r: Option<Self>)
        ensures
            r == Self::named(raw@),
    {
        let name: String = text::to_lower(text::trimmed(raw).as_str());
        if text::same_text(name.as_str(), "rows") {
            Some(TabularOutputMode::Rows)
        } else if text::same_text(name.as_str(), "tuples") {
            Some(TabularOutputMode::Tuples)
        } else if text::same_text(name.as_str(), "scalar") {
            Some(TabularOutputMode::Scalar)
        } else if text::same_text(name.as_str(), "compact") {
            Some(TabularOutputMode::Compact)
        } else {
            None
        }
    }

    /// What is said of a name that stands for no mode.
    pub fn invalid_value_message(raw: &str) -> (r: String)
        ensures
            r@ == "output_mode must be one of ["@ + text::joined(Self::allowed_values(), ", "@)
                + "]; got "@ + debug_text(raw@) + ". Example: {\"output_mode\":\"rows\"}"@,
    {
        let names: Vec<String> = text::owned(&["rows", "tuples", "scalar", "compact"]);
        assert(text::texts(names@) =~= Self::allowed_values());
        let mut r: String = "output_mode must be one of [".to_owned();
        r.append(text::join(names.as_slice(), ", ").as_str());
        r.append("]; got ");
        r.append(debug_of(raw).as_str());
        r.append(". Example: {\"output_mode\":\"rows\"}");
        r
    }

    /// The shape of a tabular answer in this mode.
    pub open spec fn shape(self) -> contract::OutputMode {
        match self {
            TabularOutputMode::Rows => contract::OutputMode::Rows,
            TabularOutputMode::Tuples => contract::OutputMode::Tuples,
            TabularOutputMode::Scalar => contract::OutputMode::Scalar,
            TabularOutputMode::Compact => contract::OutputMode::Compact,
        }
    }
}

impl From<TabularOutputMode> for contract::OutputMode {
    fn from(value: TabularOutputMode) -> (r: Self) {
        match value {
            TabularOutputMode::Rows => contract::OutputMode::Rows,
            TabularOutputMode::Tuples => contract::OutputMode::Tuples,
            TabularOutputMode::Scalar => contract::OutputMode::Scalar,
            TabularOutputMode::Compact => contract::OutputMode::Compact,
        }
    }
}

impl vstd::std_specs::convert::FromSpecImpl<TabularOutputMode> for contract::OutputMode {
    open spec fn obeys_from_spec() -> bool {
        true
    }

    open spec fn from_spec(value: TabularOutputMode) -> Self {
        value.shape()
    }
}

/// The shape of a tabular answer; rows where the request names none.
pub open spec fn shape_of(mode: Option<TabularOutputMode>) -> contract::OutputMode {
    match mode {
        Some(held) => held.shape(),
        None => contract::OutputMode::Rows,
    }
}

/// The shape of a tabular answer; rows where the request names none.
pub fn output_shape(mode: Option<TabularOutputMode>) -> (r: contract::OutputMode)
    ensures
        r == shape_of(mode),
{
    match mode {
        Some(held) => contract::OutputMode::from(held),
        None => contract::OutputMode::Rows,
    }
}

impl AttributionModel {
    /// The name of the model in requests.
    pub open spec fn name(self) -> Seq<char> {
        match self {
            AttributionModel::DataDriven => "DATA_DRIVEN"@,
            AttributionModel::LastClick => "LAST_CLICK"@,
        }
    }

    /// The name of the model in requests.
    pub fn as_str(self) -> (r: &'static str)
        ensures
            r@ == self.name(),
    {
        match self {
            AttributionModel::DataDriven => "DATA_DRIVEN",
            AttributionModel::LastClick => "LAST_CLICK",
        }
    }
}

impl FunnelVisualizationType {
    /// The name of the visualization in requests.
    pub open spec fn name(self) -> Seq<char> {
        match self {
            FunnelVisualizationType::StandardFunnel => "STANDARD_FUNNEL"@,
            FunnelVisualizationType::TrendedFunnel => "TRENDED_FUNNEL"@,
        }
    }

    /// The name of the visualization in requests.
    pub fn as_str(self) -> (r: &'static str)
        ensures
            r@ == self.name(),
    {
        match self {
            FunnelVisualizationType::StandardFunnel => "STANDARD_FUNNEL",
            FunnelVisualizationType::TrendedFunnel => "TRENDED_FUNNEL",
        }
    }
}

/// The output modes by their names, in any case and with any white space around them.
pub proof fn law_output_modes_by_name(raw: Seq<char>)
    ensures
        text::lowered(text::trim(raw)) == "rows"@ <==> TabularOutputMode::named(raw) == Some(
            TabularOutputMode::Rows,
        ),
        text::lowered(text::trim(raw)) == "tuples"@ <==> TabularOutputMode::named(raw) == Some(
            TabularOutputMode::Tuples,
        ),
        text::lowered(text::trim(raw)) == "scalar"@ <==> TabularOutputMode::named(raw) == Some(
            TabularOutputMode::Scalar,
        ),
        text::lowered(text::trim(raw)) == "compact"@ <==> TabularOutputMode::named(raw) == Some(
            TabularOutputMode::Compact,
        ),
{
    reveal_strlit("rows");
    assert("rows"@.len() == 4);
    reveal_strlit("tuples");
    assert("tuples"@.len() == 6);
    reveal_strlit("scalar");
    assert("scalar"@.len() == 6);
    reveal_strlit("compact");
    assert("compact"@.len() == 7);
    assert("tuples"@[0] != "scalar"@[0]);
}

/// Every output mode has a shape of its own, and rows are the shape where none is asked for.
pub proof fn law_shapes_of_output_modes(mode: TabularOutputMode)
    ensures
        shape_of(None) == contract::OutputMode::Rows,
        shape_of(Some(mode)) == (match mode {
            TabularOutputMode::Rows => contract::OutputMode::Rows,
            TabularOutputMode::Tuples => contract::OutputMode::Tuples,
            TabularOutputMode::Scalar => contract::OutputMode::Scalar,
            TabularOutputMode::Compact => contract::OutputMode::Compact,
        }),
{
}

} // verus!
