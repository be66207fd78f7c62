//! What a report request must satisfy before it is sent.

use vstd::prelude::*;
use vstd::string::*;

use crate::error;
use crate::error::{AnalyticsError, Problem};
use crate::json;
use crate::json::{Json, Tree};
use crate::report_args;
use crate::report_args::{
    BatchRunReportItemArgs, FunnelBreakdownArgs, FunnelNextActionArgs, FunnelStepArgs,
    RunConversionsReportArgs, RunFunnelReportArgs,
};
use crate::text;

verus! {

pub const MAX_REPORT_LIMIT: u64 = 250_000;

pub const MAX_REPORT_OFFSET: u64 = 2_500_000;

pub const MAX_FUNNEL_SEGMENTS: usize = 4;

pub const MAX_FUNNEL_BREAKDOWN_LIMIT: u64 = 15;

pub const MAX_FUNNEL_NEXT_ACTION_LIMIT: u64 = 5;

pub const MAX_BATCH_REPORT_REQUESTS: usize = 5;

pub const MAX_DIMENSIONS: usize = 50;

pub const MAX_METRICS: usize = 50;

pub const DEFAULT_TABULAR_MAX_ROWS: usize = 200;

pub const MAX_TABULAR_MAX_ROWS: usize = 25_000;

pub const MAX_CELL_CHARS_LIMIT: usize = 16_384;

pub const MAX_PIVOT_LIMIT_PRODUCT: u128 = 100_000;

pub const DEFAULT_PIVOT_LIMIT: u64 = 10;

pub const DEFAULT_SCRATCHPAD_LIST_LIMIT: usize = 50;

pub const MAX_SCRATCHPAD_LIST_LIMIT: usize = 200;

/// An argument that must not exceed `maximum`.
pub open spec fn too_high(field: Seq<char>, maximum: nat) -> Problem {
    Problem::InvalidArgument(field, "must be <= "@ + text::decimal(maximum))
}

pub(crate) fn too_high_error(field: &'static str, maximum: u64) -> (r: AnalyticsError)
    ensures
        r@ == too_high(field@, maximum as nat),
{
    AnalyticsError::invalid(
        field,
        error::labelled("must be <= ", text::decimal_text(maximum).as_str()).as_str(),
    )
}

// ---------------------------------------------------------------------------
// Lists of names.
// ---------------------------------------------------------------------------

/// Whether one of `items` is blank.
pub open spec fn has_blank(items: Seq<Seq<char>>) -> bool {
    exists|i: int| 0 <= i < items.len() && text::is_blank(#[trigger] items[i])
}

fn any_blank(items: &[String]) -> (r: bool)
    ensures
        r == has_blank(text::texts(items@)),
{
    let ghost all = text::texts(items@);
    for i in 0..items.len()
        invariant
            all == text::texts(items@),
            forall|j: int| 0 <= j < i ==> !text::is_blank(#[trigger] all[j]),
    {
        assert(all[i as int] == items@[i as int]@);
        if text::blank(items[i].as_str()) {
            return true;
        }
    }
    false
}

/// What is wrong with the dimensions and metrics of a request.
pub open spec fn metric_lists_problem(
    dimensions: Seq<Seq<char>>,
    metrics: Seq<Seq<char>>,
) -> Option<Problem> {
    if dimensions.len() == 0 {
        Some(Problem::InvalidArgument("dimensions"@, "must include at least one dimension"@))
    } else if metrics.len() == 0 {
        Some(Problem::InvalidArgument("metrics"@, "must include at least one metric"@))
    } else if dimensions.len() > MAX_DIMENSIONS {
        Some(
            Problem::InvalidArgument(
                "dimensions"@,
                "must include at most "@ + text::decimal(MAX_DIMENSIONS as nat) + " entries"@,
            ),
        )
    } else if metrics.len() > MAX_METRICS {
        Some(
            Problem::InvalidArgument(
                "metrics"@,
                "must include at most "@ + text::decimal(MAX_METRICS as nat) + " entries"@,
            ),
        )
    } else if has_blank(dimensions) {
        Some(Problem::InvalidArgument("dimensions"@, "contains an empty entry"@))
    } else if has_blank(metrics) {
        Some(Problem::InvalidArgument("metrics"@, "contains an empty entry"@))
    } else {
        None
    }
}

/// Checks the dimensions and metrics of a request.
pub fn validate_metric_lists(dimensions: &[String], metrics: &[String]) -> (r: Result<
    (),
    AnalyticsError,
>)
    ensures
        error::outcome(r) == metric_lists_problem(text::texts(dimensions@), text::texts(metrics@)),
{
    if dimensions.len() == 0 {
        return Err(AnalyticsError::invalid("dimensions", "must include at least one dimension"));
    }
    if metrics.len() == 0 {
        return Err(AnalyticsError::invalid("metrics", "must include at least one metric"));
    }
    if dimensions.len() > MAX_DIMENSIONS {
        return Err(
            AnalyticsError::invalid(
                "dimensions",
                error::numbered(
                    "must include at most ",
                    MAX_DIMENSIONS as u64,
                    " entries",
                ).as_str(),
            ),
        );
    }
    if metrics.len() > MAX_METRICS {
        return Err(
            AnalyticsError::invalid(
                "metrics",
                error::numbered("must include at most ", MAX_METRICS as u64, " entries").as_str(),
            ),
        );
    }
    if any_blank(dimensions) {
        return Err(AnalyticsError::invalid("dimensions", "contains an empty entry"));
    }
    if any_blank(metrics) {
        return Err(AnalyticsError::invalid("metrics", "contains an empty entry"));
    }
    Ok(())
}

// ---------------------------------------------------------------------------
// Limits.
// ---------------------------------------------------------------------------

/// What is wrong with a limit.
pub open spec fn limit_problem(limit: Option<u64>) -> Option<Problem> {
    match limit {
        Some(value) => if value == 0 {
            Some(Problem::InvalidArgument("limit"@, "must be greater than zero"@))
        } else if value > MAX_REPORT_LIMIT {
            Some(too_high("limit"@, MAX_REPORT_LIMIT as nat))
        } else {
            None
        },
        None => None,
    }
}

/// What is wrong with an offset.
pub open spec fn offset_problem(offset: Option<u64>) -> Option<Problem> {
    match offset {
        Some(value) => if value > MAX_REPORT_OFFSET {
            Some(
                Problem::InvalidArgument("offset"@, "is unreasonably high for a single request"@),
            )
        } else {
            None
        },
        None => None,
    }
}

/// What is wrong with the limit and the offset of a request.
pub open spec fn limit_offset_problem(limit: Option<u64>, offset: Option<u64>) -> Option<Problem> {
    error::earlier(limit_problem(limit), offset_problem(offset))
}

/// Checks the limit and the offset of a request.
pub fn validate_limit_offset(limit: Option<u64>, offset: Option<u64>) -> (r: Result<
    (),
    AnalyticsError,
>)
    ensures
        error::outcome(r) == limit_offset_problem(limit, offset),
{
    match limit {
        Some(value) => {
            if value == 0 {
                return Err(AnalyticsError::invalid("limit", "must be greater than zero"));
            }
            if value > MAX_REPORT_LIMIT {
                return Err(too_high_error("limit", MAX_REPORT_LIMIT));
            }
        },
        None => {},
    }
    match offset {
        Some(value) => {
            if value > MAX_REPORT_OFFSET {
                return Err(
                    AnalyticsError::invalid("offset", "is unreasonably high for a single request"),
                );
            }
        },
        None => {},
    }
    Ok(())
}

/// What is wrong with a number that must lie between one and `maximum`.
pub open spec fn bound_problem(
    field: Seq<char>,
    value: Option<usize>,
    maximum: usize,
) -> Option<Problem> {
    match value {
        Some(value) => if value == 0 {
            Some(Problem::InvalidArgument(field, "must be greater than zero"@))
        } else if value > maximum {
            Some(too_high(field, maximum as nat))
        } else {
            None
        },
        None => None,
    }
}

fn check_bound(field: &'static str, value: Option<usize>, maximum: usize) -> (r: Result<
    (),
    AnalyticsError,
>)
    ensures
        error::outcome(r) == bound_problem(field@, value, maximum),
{
    match value {
        Some(value) => {
            if value == 0 {
                return Err(AnalyticsError::invalid(field, "must be greater than zero"));
            }
            if value > maximum {
                return Err(too_high_error(field, maximum as u64));
            }
        },
        None => {},
    }
    Ok(())
}

/// What is wrong with the controls of a tabular answer.
pub open spec fn tabular_controls_problem(
    max_rows: Option<usize>,
    max_cell_chars: Option<usize>,
    cursor: Option<Seq<char>>,
) -> Option<Problem> {
    error::earlier(
        bound_problem("max_rows"@, max_rows, MAX_TABULAR_MAX_ROWS),
        error::earlier(
            bound_problem("max_cell_chars"@, max_cell_chars, MAX_CELL_CHARS_LIMIT),
            match cursor {
                Some(raw) => if text::is_blank(raw) {
                    Some(Problem::InvalidCursor("cursor must not be an empty string"@))
                } else {
                    None
                },
                None => None,
            },
        ),
    )
}

/// Checks the controls of a tabular answer.
pub fn validate_tabular_controls(
    max_rows: Option<usize>,
    max_cell_chars: Option<usize>,
    cursor: Option<&str>,
) -> (r: Result<(), AnalyticsError>)
    ensures
        error::outcome(r) == tabular_controls_problem(
            max_rows,
            max_cell_chars,
            text::opt_str(cursor),
        ),
{
    match check_bound("max_rows", max_rows, MAX_TABULAR_MAX_ROWS) {
        Err(err) => {
            return Err(err);
        },
        Ok(()) => {},
    }
    match check_bound("max_cell_chars", max_cell_chars, MAX_CELL_CHARS_LIMIT) {
        Err(err) => {
            return Err(err);
        },
        Ok(()) => {},
    }
    match cursor {
        Some(raw) => {
            if text::blank(raw) {
                return Err(AnalyticsError::invalid_cursor("cursor must not be an empty string"));
            }
        },
        None => {},
    }
    Ok(())
}

/// What a number, or the error in its place, says.
pub open spec fn size_result(r: Result<usize, AnalyticsError>) -> Result<usize, Problem> {
    match r {
        Ok(n) => Ok(n),
        Err(err) => Err(err@),
    }
}

/// A number between one and `maximum`; `default` where none is asked for.
pub open spec fn resolved_size(
    field: Seq<char>,
    value: Option<usize>,
    default: usize,
    maximum: usize,
) -> Result<usize, Problem> {
    let size = match value {
        Some(n) => n,
        None => default,
    };
    match bound_problem(field, Some(size), maximum) {
        Some(problem) => Err(problem),
        None => Ok(size),
    }
}

/// A number between one and `maximum`; `default` where none is asked for.
pub fn resolve_size(
    field: &'static str,
    value: Option<usize>,
    default: usize,
    maximum: usize,
) -> (r: Result<usize, AnalyticsError>)
    ensures
        size_result(r) == resolved_size(field@, value, default, maximum),
{
    let size: usize = match value {
        Some(n) => n,
        None => default,
    };
    match check_bound(field, Some(size), maximum) {
        Err(err) => Err(err),
        Ok(()) => Ok(size),
    }
}

/// How many entries a listing has at most.
pub fn resolve_scratchpad_list_limit(limit: Option<usize>) -> (r: Result<usize, AnalyticsError>)
    ensures
        size_result(r) == resolved_size(
            "limit"@,
            limit,
            DEFAULT_SCRATCHPAD_LIST_LIMIT,
            MAX_SCRATCHPAD_LIST_LIMIT,
        ),
{
    resolve_size("limit", limit, DEFAULT_SCRATCHPAD_LIST_LIMIT, MAX_SCRATCHPAD_LIST_LIMIT)
}

/// What is wrong with an optional limit inside a request.
pub open spec fn sublimit_problem(
    field: Seq<char>,
    value: Option<u64>,
    maximum: u64,
) -> Option<Problem> {
    match value {
        Some(n) => if n == 0 || n > maximum {
            Some(
                Problem::InvalidArgument(
                    field,
                    "must be between 1 and "@ + text::decimal(maximum as nat),
                ),
            )
        } else {
            None
        },
        None => None,
    }
}

/// Checks an optional limit inside a request.
pub fn validate_optional_sublimit(field: &'static str, value: Option<u64>, maximum: u64) -> (r:
    Result<(), AnalyticsError>)
    ensures
        error::outcome(r) == sublimit_problem(field@, value, maximum),
{
    match value {
        Some(n) => {
            if n == 0 || n > maximum {
                return Err(
                    AnalyticsError::invalid(
                        field,
                        error::labelled(
                            "must be between 1 and ",
                            text::decimal_text(maximum).as_str(),
                        ).as_str(),
                    ),
                );
            }
        },
        None => {},
    }
    Ok(())
}

// ---------------------------------------------------------------------------
// Date ranges.
// ---------------------------------------------------------------------------

/// Whether a field holds text that is not blank.
pub open spec fn filled_text(value: Option<Tree>) -> bool {
    match value {
        Some(Tree::Text(held)) => !text::is_blank(held),
        _ => false,
    }
}

fn holds_text(value: Option<&Json>) -> (r: bool)
    ensures
        match value {
            Some(held) => r == filled_text(Some(held@)),
            None => !r,
        },
{
    match value {
        Some(held) => match held.as_str() {
            Some(raw) => !text::blank(raw),
            None => false,
        },
        None => false,
    }
}

/// What is wrong with one date range.
pub open spec fn date_range_problem(range: Tree, idx: int) -> Option<Problem> {
    if !(range is Dict) {
        Some(
            Problem::InvalidArgument(
                "date_ranges"@,
                "date_ranges["@ + text::decimal(idx as nat)
                    + "] must be an object like {\"start_date\":\"2026-02-01\",\"end_date\":\"2026-02-07\"}"@,
            ),
        )
    } else if !filled_text(range.either_field("start_date"@, "startDate"@)) || !filled_text(
        range.either_field("end_date"@, "endDate"@),
    ) {
        Some(
            Problem::InvalidArgument(
                "date_ranges"@,
                "date_ranges["@ + text::decimal(idx as nat)
                    + "] must include non-empty start_date/startDate and end_date/endDate strings"@,
            ),
        )
    } else {
        None
    }
}

/// The check of the date range at a position.
pub open spec fn date_range_check(ranges: Seq<Tree>) -> spec_fn(int) -> Option<Problem> {
    |i: int| date_range_problem(ranges[i], i)
}

/// What is wrong with date ranges: the problem of the first that has one.
pub open spec fn date_ranges_problem(ranges: Seq<Tree>) -> Option<Problem> {
    error::first_problem(ranges.len(), date_range_check(ranges))
}

/// Checks the shape of date ranges.
pub fn validate_date_ranges_shape(date_ranges: &[Json]) -> (r: Result<(), AnalyticsError>)
    ensures
        error::outcome(r) == date_ranges_problem(json::trees(date_ranges@)),
{
    let ghost ranges = json::trees(date_ranges@);
    let n: usize = date_ranges.len();
    for idx in 0..n
        invariant
            n == date_ranges@.len(),
            ranges == json::trees(date_ranges@),
            error::first_problem(idx as nat, date_range_check(ranges)) is None,
    {
        let range: &Json = &date_ranges[idx];
        assert(ranges[idx as int] == range@);
        proof {
            if date_range_problem(range@, idx as int) is Some {
                error::lemma_first_problem(n as nat, (idx + 1) as nat, date_range_check(ranges));
            }
        }
        if !range.is_object() {
            return Err(
                AnalyticsError::invalid(
                    "date_ranges",
                    error::numbered(
                        "date_ranges[",
                        idx as u64,
                        "] must be an object like {\"start_date\":\"2026-02-01\",\"end_date\":\"2026-02-07\"}",
                    ).as_str(),
                ),
            );
        }
        if !holds_text(range.get_either("start_date", "startDate")) || !holds_text(
            range.get_either("end_date", "endDate"),
        ) {
            return Err(
                AnalyticsError::invalid(
                    "date_ranges",
                    error::numbered(
                        "date_ranges[",
                        idx as u64,
                        "] must include non-empty start_date/startDate and end_date/endDate strings",
                    ).as_str(),
                ),
            );
        }
    }
    Ok(())
}

// ---------------------------------------------------------------------------
// Reports.
// ---------------------------------------------------------------------------

/// What is wrong with a realtime request.
pub open spec fn realtime_problem(
    dimensions: Seq<Seq<char>>,
    metrics: Seq<Seq<char>>,
    limit: Option<u64>,
    offset: Option<u64>,
) -> Option<Problem> {
    error::earlier(metric_lists_problem(dimensions, metrics), limit_offset_problem(limit, offset))
}

/// Checks a realtime request.
pub fn validate_realtime_inputs(
    dimensions: &[String],
    metrics: &[String],
    limit: Option<u64>,
    offset: Option<u64>,
) -> (r: Result<(), AnalyticsError>)
    ensures
        error::outcome(r) == realtime_problem(
            text::texts(dimensions@),
            text::texts(metrics@),
            limit,
            offset,
        ),
{
    match validate_metric_lists(dimensions, metrics) {
        Err(err) => Err(err),
        Ok(()) => validate_limit_offset(limit, offset),
    }
}

/// What is wrong with a report request.
pub open spec fn report_problem(
    dimensions: Seq<Seq<char>>,
    metrics: Seq<Seq<char>>,
    date_ranges: Seq<Tree>,
    limit: Option<u64>,
    offset: Option<u64>,
) -> Option<Problem> {
    error::earlier(
        metric_lists_problem(dimensions, metrics),
        if date_ranges.len() == 0 {
            Some(Problem::InvalidArgument("date_ranges"@, "must include at least one date range"@))
        } else {
            error::earlier(date_ranges_problem(date_ranges), limit_offset_problem(limit, offset))
        },
    )
}

/// Checks a report request.
pub fn validate_report_inputs(
    dimensions: &[String],
    metrics: &[String],
    date_ranges: &[Json],
    limit: Option<u64>,
    offset: Option<u64>,
) -> (r: Result<(), AnalyticsError>)
    ensures
        error::outcome(r) == report_problem(
            text::texts(dimensions@),
            text::texts(metrics@),
            json::trees(date_ranges@),
            limit,
            offset,
        ),
{
    match validate_metric_lists(dimensions, metrics) {
        Err(err) => {
            return Err(err);
        },
        Ok(()) => {},
    }
    if date_ranges.len() == 0 {
        return Err(AnalyticsError::invalid("date_ranges", "must include at least one date range"));
    }
    match validate_date_ranges_shape(date_ranges) {
        Err(err) => Err(err),
        Ok(()) => validate_limit_offset(limit, offset),
    }
}

// ---------------------------------------------------------------------------
// Conversion reports.
// ---------------------------------------------------------------------------

/// The dimensions that a conversion report accepts.
pub open spec fn conversion_dimensions() -> Seq<Seq<char>> {
    seq![
        "campaignName"@,
        "continent"@,
        "country"@,
        "defaultChannelGroup"@,
        "deviceCategory"@,
        "medium"@,
        "platform"@,
        "primaryChannelGroup"@,
        "source"@,
        "sourceMedium"@,
        "sourcePlatform"@,
        "subcontinent"@,
    ]
}

/// The metrics that a conversion report accepts.
pub open spec fn conversion_metrics() -> Seq<Seq<char>> {
    seq![
        "advertiserAdClicks"@,
        "advertiserAdCost"@,
        "advertiserAdCostPerAllConversionsByConversionDate"@,
        "advertiserAdCostPerAllConversionsByInteractionDate"@,
        "advertiserAdCostPerClick"@,
        "advertiserAdImpressions"@,
        "allConversionsByConversionDate"@,
        "allConversionsByInteractionDate"@,
        "returnOnAdSpendByConversionDate"@,
        "returnOnAdSpendByInteractionDate"@,
        "totalRevenueByConversionDate"@,
        "totalRevenueByInteractionDate"@,
    ]
}

fn conversion_dimension_names() -> (r: Vec<String>)
    ensures
        text::texts(r@) == conversion_dimensions(),
{
    let r: Vec<String> = text::owned(
        &[
            "campaignName",
            "continent",
            "country",
            "defaultChannelGroup",
            "deviceCategory",
            "medium",
            "platform",
            "primaryChannelGroup",
            "source",
            "sourceMedium",
            "sourcePlatform",
            "subcontinent",
        ],
    );
    assert(text::texts(r@) =~= conversion_dimensions());
    r
}

fn conversion_metric_names() -> (r: Vec<String>)
    ensures
        text::texts(r@) == conversion_metrics(),
{
    let r: Vec<String> = text::owned(
        &[
            "advertiserAdClicks",
            "advertiserAdCost",
            "advertiserAdCostPerAllConversionsByConversionDate",
            "advertiserAdCostPerAllConversionsByInteractionDate",
            "advertiserAdCostPerClick",
            "advertiserAdImpressions",
            "allConversionsByConversionDate",
            "allConversionsByInteractionDate",
            "returnOnAdSpendByConversionDate",
            "returnOnAdSpendByInteractionDate",
            "totalRevenueByConversionDate",
            "totalRevenueByInteractionDate",
        ],
    );
    assert(text::texts(r@) =~= conversion_metrics());
    r
}

/// Whether `name` is one of `names`.
fn is_listed(name: &str, names: &[String]) -> (r: bool)
    ensures
        r == text::texts(names@).contains(name@),
{
    let ghost all = text::texts(names@);
    for i in 0..names.len()
        invariant
            all == text::texts(names@),
            forall|j: int| 0 <= j < i ==> #[trigger] all[j] != name@,
    {
        assert(all[i as int] == names@[i as int]@);
        if text::same_text(names[i].as_str(), name) {
            return true;
        }
    }
    false
}

/// The problem of a name that a conversion report does not know.
pub open spec fn unknown_name(
    field: Seq<char>,
    label: Seq<char>,
    name: Seq<char>,
    allowed: Seq<Seq<char>>,
) -> Option<Problem> {
    if allowed.contains(name) {
        None
    } else {
        Some(
            Problem::InvalidArgument(
                field,
                "unsupported conversion-report "@ + label + " "@ + report_args::debug_text(name)
                    + "; allowed values: "@ + text::joined(allowed, ", "@),
            ),
        )
    }
}

/// The check of the name at a position.
pub open spec fn name_check(
    field: Seq<char>,
    label: Seq<char>,
    names: Seq<Seq<char>>,
    allowed: Seq<Seq<char>>,
) -> spec_fn(int) -> Option<Problem> {
    |i: int| unknown_name(field, label, names[i], allowed)
}

fn check_names(
    field: &'static str,
    label: &str,
    names: &[String],
    allowed: &[String],
) -> (r: Result<(), AnalyticsError>)
    ensures
        error::outcome(r) == error::first_problem(
            names@.len(),
            name_check(field@, label@, text::texts(names@), text::texts(allowed@)),
        ),
{
    let ghost check = name_check(field@, label@, text::texts(names@), text::texts(allowed@));
    let n: usize = names.len();
    for idx in 0..n
        invariant
            n == names@.len(),
            check == name_check(field@, label@, text::texts(names@), text::texts(allowed@)),
            error::first_problem(idx as nat, check) is None,
    {
        assert(text::texts(names@)[idx as int] == names@[idx as int]@);
        assert(check(idx as int) == unknown_name(
            field@,
            label@,
            names@[idx as int]@,
            text::texts(allowed@),
        ));
        if !is_listed(names[idx].as_str(), allowed) {
            proof {
                error::lemma_first_problem(n as nat, (idx + 1) as nat, check);
            }
            let mut message: String = "unsupported conversion-report ".to_owned();
            message.append(label);
            message.append(" ");
            message.append(report_args::debug_of(names[idx].as_str()).as_str());
            message.append("; allowed values: ");
            message.append(text::join(allowed, ", ").as_str());
            return Err(AnalyticsError::invalid(field, message.as_str()));
        }
    }
    Ok(())
}

/// Whether a text names a conversion action: the prefix and a number.
pub open spec fn is_conversion_action(action: Seq<char>) -> bool {
    text::begins(action, "conversionActions/"@) && {
        let id = action.skip("conversionActions/"@.len() as int);
        id.len() > 0 && text::all_digits(id)
    }
}

fn names_conversion_action(action: &str) -> (r: bool)
    ensures
        r == is_conversion_action(action@),
{
    match text::strip_prefix(action, "conversionActions/") {
        Some(id) => {
            let chars: Vec<char> = text::chars_of(id.as_str());
            chars.len() > 0 && text::digits_only(chars.as_slice())
        },
        None => false,
    }
}

/// The check of the conversion action at a position.
pub open spec fn action_check(actions: Seq<Seq<char>>) -> spec_fn(int) -> Option<Problem> {
    |i: int|
        if is_conversion_action(actions[i]) {
            None
        } else {
            Some(
                Problem::InvalidArgument(
                    "conversion_spec"@,
                    "conversion_actions["@ + text::decimal(i as nat)
                        + "] must use conversionActions/<numeric-id>"@,
                ),
            )
        }
}

fn check_actions(actions: &[String]) -> (r: Result<(), AnalyticsError>)
    ensures
        error::outcome(r) == error::first_problem(
            actions@.len(),
            action_check(text::texts(actions@)),
        ),
{
    let ghost check = action_check(text::texts(actions@));
    let n: usize = actions.len();
    for idx in 0..n
        invariant
            n == actions@.len(),
            check == action_check(text::texts(actions@)),
            error::first_problem(idx as nat, check) is None,
    {
        assert(text::texts(actions@)[idx as int] == actions@[idx as int]@);
        assert(check(idx as int) is None == is_conversion_action(actions@[idx as int]@));
        if !names_conversion_action(actions[idx].as_str()) {
            proof {
                error::lemma_first_problem(n as nat, (idx + 1) as nat, check);
            }
            return Err(
                AnalyticsError::invalid(
                    "conversion_spec",
                    error::numbered(
                        "conversion_actions[",
                        idx as u64,
                        "] must use conversionActions/<numeric-id>",
                    ).as_str(),
                ),
            );
        }
    }
    Ok(())
}

/// What is wrong with a conversion report request.
pub open spec fn conversions_problem(args: RunConversionsReportArgs) -> Option<Problem> {
    let dimensions = text::texts(args.dimensions@);
    let metrics = text::texts(args.metrics@);
    let actions = text::texts(args.conversion_spec.conversion_actions@);
    error::earlier(
        report_problem(
            dimensions,
            metrics,
            json::trees(args.date_ranges@),
            args.limit,
            args.offset,
        ),
        error::earlier(
            error::first_problem(
                dimensions.len(),
                name_check("dimensions"@, "dimension"@, dimensions, conversion_dimensions()),
            ),
            error::earlier(
                error::first_problem(
                    metrics.len(),
                    name_check("metrics"@, "metric"@, metrics, conversion_metrics()),
                ),
                error::first_problem(actions.len(), action_check(actions)),
            ),
        ),
    )
}

/// Checks a conversion report request.
pub fn validate_conversions_report_inputs(args: &RunConversionsReportArgs) -> (r: Result<
    (),
    AnalyticsError,
>)
    ensures
        error::outcome(r) == conversions_problem(*args),
{
    match validate_report_inputs(
        args.dimensions.as_slice(),
        args.metrics.as_slice(),
        args.date_ranges.as_slice(),
        args.limit,
        args.offset,
    ) {
        Err(err) => {
            return Err(err);
        },
        Ok(()) => {},
    }
    match check_names(
        "dimensions",
        "dimension",
        args.dimensions.as_slice(),
        conversion_dimension_names().as_slice(),
    ) {
        Err(err) => {
            return Err(err);
        },
        Ok(()) => {},
    }
    match check_names(
        "metrics",
        "metric",
        args.metrics.as_slice(),
        conversion_metric_names().as_slice(),
    ) {
        Err(err) => Err(err),
        Ok(()) => check_actions(args.conversion_spec.conversion_actions.as_slice()),
    }
}

// ---------------------------------------------------------------------------
// Funnel reports.
// ---------------------------------------------------------------------------

/// A problem of the funnel step at a position.
pub open spec fn step_fault(idx: int, rest: Seq<char>) -> Option<Problem> {
    Some(
        Problem::InvalidArgument(
            "funnel_steps"@,
            "funnel_steps["@ + text::decimal(idx as nat) + rest,
        ),
    )
}

fn step_error(idx: usize, rest: &str) -> (r: AnalyticsError)
    ensures
        Some(r@) == step_fault(idx as int, rest@),
{
    AnalyticsError::invalid(
        "funnel_steps",
        error::numbered("funnel_steps[", idx as u64, rest).as_str(),
    )
}

/// Whether a text is a duration in seconds: digits, up to nine more after a point, and
/// an `s`.
pub open spec fn is_duration(value: Seq<char>) -> bool {
    text::ends(value, "s"@) && {
        let parts = text::split(value.take(value.len() - 1), seq!['.']);
        &&& parts[0].len() > 0
        &&& text::all_digits(parts[0])
        &&& parts.len() <= 2
        &&& parts.len() == 2 ==> 0 < parts[1].len() <= 9 && text::all_digits(parts[1])
    }
}

/// Whether a text is a duration in seconds.
pub fn is_valid_funnel_duration(value: &str) -> (r: bool)
    ensures
        r == is_duration(value@),
{
    proof {
        reveal_strlit("s");
    }
    let number: String = match text::strip_suffix(value, "s") {
        Some(number) => number,
        None => {
            return false;
        },
    };
    assert(number@ =~= value@.take(value@.len() - 1));
    let marks: [char; 1] = ['.'];
    assert(marks@ =~= seq!['.']);
    let parts: Vec<String> = text::split_text(number.as_str(), &marks);
    proof {
        text::lemma_split_not_empty(number@, seq!['.']);
    }
    let ghost pieces = text::split(number@, seq!['.']);
    assert(text::texts(parts@) =~= pieces);
    assert(pieces[0] == parts@[0]@);
    let seconds: Vec<char> = text::chars_of(parts[0].as_str());
    if seconds.len() == 0 || !text::digits_only(seconds.as_slice()) {
        return false;
    }
    if parts.len() == 1 {
        return true;
    }
    if parts.len() > 2 {
        return false;
    }
    assert(pieces[1] == parts@[1]@);
    let fraction: Vec<char> = text::chars_of(parts[1].as_str());
    fraction.len() > 0 && fraction.len() <= 9 && text::digits_only(fraction.as_slice())
}

/// What is wrong with the condition of a funnel step.
pub open spec fn step_condition_problem(step: FunnelStepArgs, idx: int) -> Option<Problem> {
    match (step.event, step.filter_expression) {
        (Some(event), None) => if text::is_blank(event@) {
            step_fault(idx, "].event must not be empty"@)
        } else if text::trim(event@) != event@ {
            step_fault(idx, "].event must not have leading or trailing whitespace"@)
        } else {
            None
        },
        (None, Some(filter)) => if filter@.has_entries() {
            None
        } else {
            step_fault(idx, "].filter_expression must be an object"@)
        },
        (Some(_), Some(_)) => step_fault(
            idx,
            "] must set exactly one of event or filter_expression"@,
        ),
        (None, None) => step_fault(idx, "] must set either event or filter_expression"@),
    }
}

/// What is wrong with how a funnel step follows the one before it.
pub open spec fn step_order_problem(step: FunnelStepArgs, idx: int) -> Option<Problem> {
    if idx == 0 && step.is_directly_followed_by == Some(true) {
        Some(
            Problem::InvalidArgument(
                "funnel_steps"@,
                "funnel_steps[0].is_directly_followed_by must be false because there is no prior step"@,
            ),
        )
    } else {
        match step.within_duration_from_prior_step {
            Some(duration) => if idx == 0 {
                Some(
                    Problem::InvalidArgument(
                        "funnel_steps"@,
                        "funnel_steps[0].within_duration_from_prior_step is invalid because there is no prior step"@,
                    ),
                )
            } else if text::is_blank(duration@) {
                step_fault(idx, "].within_duration_from_prior_step must not be empty"@)
            } else if !is_duration(duration@) {
                step_fault(
                    idx,
                    "].within_duration_from_prior_step must be a non-negative protobuf duration such as 3600s or 3.5s"@,
                )
            } else {
                None
            },
            None => None,
        }
    }
}

/// What is wrong with a funnel step.
pub open spec fn step_problem(step: FunnelStepArgs, idx: int) -> Option<Problem> {
    error::earlier(
        match step.name {
            Some(name) => if text::is_blank(name@) {
                step_fault(idx, "].name must not be empty"@)
            } else {
                None
            },
            None => None,
        },
        error::earlier(step_condition_problem(step, idx), step_order_problem(step, idx)),
    )
}

/// The check of the funnel step at a position.
pub open spec fn step_check(steps: Seq<FunnelStepArgs>) -> spec_fn(int) -> Option<Problem> {
    |i: int| step_problem(steps[i], i)
}

fn check_step_condition(step: &FunnelStepArgs, idx: usize) -> (r: Result<(), AnalyticsError>)
    ensures
        error::outcome(r) == step_condition_problem(*step, idx as int),
{
    match (&step.event, &step.filter_expression) {
        (Some(event), None) => {
            if text::blank(event.as_str()) {
                return Err(step_error(idx, "].event must not be empty"));
            }
            if !text::same_text(text::trimmed(event.as_str()).as_str(), event.as_str()) {
                return Err(
                    step_error(idx, "].event must not have leading or trailing whitespace"),
                );
            }
            Ok(())
        },
        (None, Some(filter)) => {
            if !filter.filled_object() {
                return Err(step_error(idx, "].filter_expression must be an object"));
            }
            Ok(())
        },
        (Some(_), Some(_)) => Err(
            step_error(idx, "] must set exactly one of event or filter_expression"),
        ),
        (None, None) => Err(step_error(idx, "] must set either event or filter_expression")),
    }
}

fn check_step_order(step: &FunnelStepArgs, idx: usize) -> (r: Result<(), AnalyticsError>)
    ensures
        error::outcome(r) == step_order_problem(*step, idx as int),
{
    let follows: bool = match step.is_directly_followed_by {
        Some(b) => b,
        None => false,
    };
    if idx == 0 && follows {
        return Err(
            AnalyticsError::invalid(
                "funnel_steps",
                "funnel_steps[0].is_directly_followed_by must be false because there is no prior step",
            ),
        );
    }
    match &step.within_duration_from_prior_step {
        Some(duration) => {
            if idx == 0 {
                return Err(
                    AnalyticsError::invalid(
                        "funnel_steps",
                        "funnel_steps[0].within_duration_from_prior_step is invalid because there is no prior step",
                    ),
                );
            }
            if text::blank(duration.as_str()) {
                return Err(
                    step_error(idx, "].within_duration_from_prior_step must not be empty"),
                );
            }
            if !is_valid_funnel_duration(duration.as_str()) {
                return Err(
                    step_error(
                        idx,
                        "].within_duration_from_prior_step must be a non-negative protobuf duration such as 3600s or 3.5s",
                    ),
                );
            }
            Ok(())
        },
        None => Ok(()),
    }
}

fn check_step(step: &FunnelStepArgs, idx: usize) -> (r: Result<(), AnalyticsError>)
    ensures
        error::outcome(r) == step_problem(*step, idx as int),
{
    match &step.name {
        Some(name) => {
            if text::blank(name.as_str()) {
                return Err(step_error(idx, "].name must not be empty"));
            }
        },
        None => {},
    }
    match check_step_condition(step, idx) {
        Err(err) => Err(err),
        Ok(()) => check_step_order(step, idx),
    }
}

fn check_steps(steps: &[FunnelStepArgs]) -> (r: Result<(), AnalyticsError>)
    ensures
        error::outcome(r) == error::first_problem(steps@.len(), step_check(steps@)),
{
    let n: usize = steps.len();
    for idx in 0..n
        invariant
            n == steps@.len(),
            error::first_problem(idx as nat, step_check(steps@)) is None,
    {
        assert(step_check(steps@)(idx as int) == step_problem(steps@[idx as int], idx as int));
        match check_step(&steps[idx], idx) {
            Err(err) => {
                proof {
                    error::lemma_first_problem(n as nat, (idx + 1) as nat, step_check(steps@));
                }
                return Err(err);
            },
            Ok(()) => {},
        }
    }
    Ok(())
}

/// The check of the segment at a position.
pub open spec fn segment_check(segments: Seq<Tree>) -> spec_fn(int) -> Option<Problem> {
    |i: int|
        if segments[i].has_entries() {
            None
        } else {
            Some(
                Problem::InvalidArgument(
                    "segments"@,
                    "segments["@ + text::decimal(i as nat) + "] must be a non-empty object"@,
                ),
            )
        }
}

/// What is wrong with the segments of a funnel report.
pub open spec fn segments_problem(segments: Option<Vec<Json>>) -> Option<Problem> {
    match segments {
        Some(items) => if items@.len() > MAX_FUNNEL_SEGMENTS {
            Some(
                Problem::InvalidArgument(
                    "segments"@,
                    "must include at most "@ + text::decimal(MAX_FUNNEL_SEGMENTS as nat)
                        + " segments"@,
                ),
            )
        } else {
            error::first_problem(items@.len(), segment_check(json::trees(items@)))
        },
        None => None,
    }
}

fn check_segments(segments: &Option<Vec<Json>>) -> (r: Result<(), AnalyticsError>)
    ensures
        error::outcome(r) == segments_problem(*segments),
{
    let items: &Vec<Json> = match segments {
        Some(items) => items,
        None => {
            return Ok(());
        },
    };
    let n: usize = items.len();
    if n > MAX_FUNNEL_SEGMENTS {
        return Err(
            AnalyticsError::invalid(
                "segments",
                error::numbered(
                    "must include at most ",
                    MAX_FUNNEL_SEGMENTS as u64,
                    " segments",
                ).as_str(),
            ),
        );
    }
    let ghost check = segment_check(json::trees(items@));
    for idx in 0..n
        invariant
            n == items@.len(),
            n <= MAX_FUNNEL_SEGMENTS,
            *segments == Some(*items),
            check == segment_check(json::trees(items@)),
            error::first_problem(idx as nat, check) is None,
    {
        assert(json::trees(items@)[idx as int] == items@[idx as int]@);
        assert(check(idx as int) is None == items@[idx as int]@.has_entries());
        if !items[idx].filled_object() {
            proof {
                error::lemma_first_problem(n as nat, (idx + 1) as nat, check);
            }
            return Err(
                AnalyticsError::invalid(
                    "segments",
                    error::numbered(
                        "segments[",
                        idx as u64,
                        "] must be a non-empty object",
                    ).as_str(),
                ),
            );
        }
    }
    Ok(())
}

/// What is wrong with a dimension that a funnel report names.
pub open spec fn funnel_dimension_problem(
    field: Seq<char>,
    label: Seq<char>,
    dimension: Seq<char>,
) -> Option<Problem> {
    if text::is_blank(dimension) {
        Some(Problem::InvalidArgument(field, label + " must not be empty"@))
    } else if text::trim(dimension) != dimension {
        Some(
            Problem::InvalidArgument(
                field,
                label + " must not have leading or trailing whitespace"@,
            ),
        )
    } else {
        None
    }
}

fn check_funnel_dimension(field: &'static str, label: &str, dimension: &str) -> (r: Result<
    (),
    AnalyticsError,
>)
    ensures
        error::outcome(r) == funnel_dimension_problem(field@, label@, dimension@),
{
    if text::blank(dimension) {
        return Err(
            AnalyticsError::invalid(field, error::labelled(label, " must not be empty").as_str()),
        );
    }
    if !text::same_text(text::trimmed(dimension).as_str(), dimension) {
        return Err(
            AnalyticsError::invalid(
                field,
                error::labelled(label, " must not have leading or trailing whitespace").as_str(),
            ),
        );
    }
    Ok(())
}

/// What is wrong with the breakdown of a funnel report.
pub open spec fn breakdown_problem(breakdown: Option<FunnelBreakdownArgs>) -> Option<Problem> {
    match breakdown {
        Some(held) => error::earlier(
            funnel_dimension_problem(
                "funnel_breakdown"@,
                "breakdown_dimension"@,
                held.breakdown_dimension@,
            ),
            sublimit_problem("funnel_breakdown.limit"@, held.limit, MAX_FUNNEL_BREAKDOWN_LIMIT),
        ),
        None => None,
    }
}

/// What is wrong with the next action of a funnel report.
pub open spec fn next_action_problem(next_action: Option<FunnelNextActionArgs>) -> Option<
    Problem,
> {
    match next_action {
        Some(held) => error::earlier(
            funnel_dimension_problem(
                "funnel_next_action"@,
                "next_action_dimension"@,
                held.next_action_dimension@,
            ),
            sublimit_problem(
                "funnel_next_action.limit"@,
                held.limit,
                MAX_FUNNEL_NEXT_ACTION_LIMIT,
            ),
        ),
        None => None,
    }
}

fn check_breakdown(breakdown: &Option<FunnelBreakdownArgs>) -> (r: Result<(), AnalyticsError>)
    ensures
        error::outcome(r) == breakdown_problem(*breakdown),
{
    match breakdown {
        Some(held) => {
            match check_funnel_dimension(
                "funnel_breakdown",
                "breakdown_dimension",
                held.breakdown_dimension.as_str(),
            ) {
                Err(err) => Err(err),
                Ok(()) => validate_optional_sublimit(
                    "funnel_breakdown.limit",
                    held.limit,
                    MAX_FUNNEL_BREAKDOWN_LIMIT,
                ),
            }
        },
        None => Ok(()),
    }
}

fn check_next_action(next_action: &Option<FunnelNextActionArgs>) -> (r: Result<
    (),
    AnalyticsError,
>)
    ensures
        error::outcome(r) == next_action_problem(*next_action),
{
    match next_action {
        Some(held) => {
            match check_funnel_dimension(
                "funnel_next_action",
                "next_action_dimension",
                held.next_action_dimension.as_str(),
            ) {
                Err(err) => Err(err),
                Ok(()) => validate_optional_sublimit(
                    "funnel_next_action.limit",
                    held.limit,
                    MAX_FUNNEL_NEXT_ACTION_LIMIT,
                ),
            }
        },
        None => Ok(()),
    }
}

/// What is wrong with a funnel report request.
pub open spec fn funnel_problem(args: RunFunnelReportArgs) -> Option<Problem> {
    if args.funnel_steps@.len() == 0 {
        Some(Problem::InvalidArgument("funnel_steps"@, "must include at least one funnel step"@))
    } else {
        error::earlier(
            error::first_problem(args.funnel_steps@.len(), step_check(args.funnel_steps@)),
            error::earlier(
                date_ranges_problem(json::trees(args.date_ranges@)),
                error::earlier(
                    segments_problem(args.segments),
                    error::earlier(
                        breakdown_problem(args.funnel_breakdown),
                        error::earlier(
                            next_action_problem(args.funnel_next_action),
                            limit_offset_problem(args.limit, None),
                        ),
                    ),
                ),
            ),
        )
    }
}

/// Checks a funnel report request.
pub fn validate_funnel_report_inputs(args: &RunFunnelReportArgs) -> (r: Result<
    (),
    AnalyticsError,
>)
    ensures
        error::outcome(r) == funnel_problem(*args),
{
    if args.funnel_steps.len() == 0 {
        return Err(
            AnalyticsError::invalid("funnel_steps", "must include at least one funnel step"),
        );
    }
    match check_steps(args.funnel_steps.as_slice()) {
        Err(err) => {
            return Err(err);
        },
        Ok(()) => {},
    }
    match validate_date_ranges_shape(args.date_ranges.as_slice()) {
        Err(err) => {
            return Err(err);
        },
        Ok(()) => {},
    }
    match check_segments(&args.segments) {
        Err(err) => {
            return Err(err);
        },
        Ok(()) => {},
    }
    match check_breakdown(&args.funnel_breakdown) {
        Err(err) => {
            return Err(err);
        },
        Ok(()) => {},
    }
    match check_next_action(&args.funnel_next_action) {
        Err(err) => Err(err),
        Ok(()) => validate_limit_offset(args.limit, None),
    }
}

// ---------------------------------------------------------------------------
// Batches.
// ---------------------------------------------------------------------------

/// What is wrong with the number of reports in a batch.
pub open spec fn batch_problem(n: nat) -> Option<Problem> {
    if n == 0 {
        Some(Problem::InvalidArgument("requests"@, "must include at least one report request"@))
    } else if n > MAX_BATCH_REPORT_REQUESTS {
        Some(
            Problem::InvalidArgument(
                "requests"@,
                "must include <= "@ + text::decimal(MAX_BATCH_REPORT_REQUESTS as nat)
                    + " report requests"@,
            ),
        )
    } else {
        None
    }
}

/// Checks the number of reports in a batch.
pub fn validate_batch_run_reports_inputs(requests: &[BatchRunReportItemArgs]) -> (r: Result<
    (),
    AnalyticsError,
>)
    ensures
        error::outcome(r) == batch_problem(requests@.len()),
{
    if requests.len() == 0 {
        return Err(AnalyticsError::invalid("requests", "must include at least one report request"));
    }
    if requests.len() > MAX_BATCH_REPORT_REQUESTS {
        return Err(
            AnalyticsError::invalid(
                "requests",
                error::numbered(
                    "must include <= ",
                    MAX_BATCH_REPORT_REQUESTS as u64,
                    " report requests",
                ).as_str(),
            ),
        );
    }
    Ok(())
}

// ---------------------------------------------------------------------------
// Pivots.
// ---------------------------------------------------------------------------

/// A positive number that a value holds, as a number or as text.
pub open spec fn positive_number(value: Tree) -> Option<u64> {
    match value {
        Tree::Text(raw) => match text::parsed_u64(text::trim(raw)) {
            Some(n) => if n > 0 {
                Some(n)
            } else {
                None
            },
            None => None,
        },
        _ => match value.as_u64() {
            Some(n) => if n > 0 {
                Some(n)
            } else {
                None
            },
            None => None,
        },
    }
}

/// A positive number that a value holds, as a number or as text.
pub fn parse_positive_u64(value: &Json) -> (r: Option<u64>)
    ensures
        r == positive_number(value@),
{
    match value.as_u64() {
        Some(raw) => {
            if raw > 0 {
                return Some(raw);
            }
        },
        None => {},
    }
    match value.as_str() {
        Some(raw) => match text::parse_u64(text::trimmed(raw).as_str()) {
            Some(n) => if n > 0 {
                Some(n)
            } else {
                None
            },
            None => None,
        },
        None => None,
    }
}

/// A problem of the pivot at a position.
pub open spec fn pivot_fault(idx: int, rest: Seq<char>) -> Option<Problem> {
    Some(
        Problem::InvalidArgument("pivots"@, "pivot["@ + text::decimal(idx as nat) + rest),
    )
}

fn pivot_error(idx: usize, rest: &str) -> (r: AnalyticsError)
    ensures
        Some(r@) == pivot_fault(idx as int, rest@),
{
    AnalyticsError::invalid("pivots", error::numbered("pivot[", idx as u64, rest).as_str())
}

/// Whether one of `dimensions` is `name`, but for the spaces around it.
pub open spec fn names_dimension(dimensions: Seq<Seq<char>>, name: Seq<char>) -> bool {
    exists|i: int| 0 <= i < dimensions.len() && text::trim(#[trigger] dimensions[i]) == name
}

fn is_dimension(dimensions: &[String], name: &str) -> (r: bool)
    ensures
        r == names_dimension(text::texts(dimensions@), name@),
{
    let ghost all = text::texts(dimensions@);
    for i in 0..dimensions.len()
        invariant
            all == text::texts(dimensions@),
            forall|j: int| 0 <= j < i ==> text::trim(#[trigger] all[j]) != name@,
    {
        assert(all[i as int] == dimensions@[i as int]@);
        if text::same_text(text::trimmed(dimensions[i].as_str()).as_str(), name) {
            return true;
        }
    }
    false
}

/// What is wrong with a field name of the pivot at position `idx`.
pub open spec fn field_name_problem(
    field_name: Tree,
    dimensions: Seq<Seq<char>>,
    idx: int,
) -> Option<Problem> {
    match field_name {
        Tree::Text(raw) => {
            let name = text::trim(raw);
            if name.len() == 0 {
                pivot_fault(idx, "].field_names must not include empty entries"@)
            } else if !names_dimension(dimensions, name) {
                pivot_fault(idx, "] field '"@ + name + "' must also be present in dimensions"@)
            } else {
                None
            }
        },
        _ => pivot_fault(idx, "].field_names entries must be strings"@),
    }
}

/// The check of the field name at a position of a pivot.
pub open spec fn field_name_check(
    field_names: Seq<Tree>,
    dimensions: Seq<Seq<char>>,
    idx: int,
) -> spec_fn(int) -> Option<Problem> {
    |i: int| field_name_problem(field_names[i], dimensions, idx)
}

fn check_field_names(field_names: &[Json], dimensions: &[String], idx: usize) -> (r: Result<
    (),
    AnalyticsError,
>)
    ensures
        error::outcome(r) == error::first_problem(
            field_names@.len(),
            field_name_check(json::trees(field_names@), text::texts(dimensions@), idx as int),
        ),
{
    let ghost dims = text::texts(dimensions@);
    let ghost check = field_name_check(json::trees(field_names@), dims, idx as int);
    let n: usize = field_names.len();
    for i in 0..n
        invariant
            n == field_names@.len(),
            dims == text::texts(dimensions@),
            check == field_name_check(json::trees(field_names@), dims, idx as int),
            error::first_problem(i as nat, check) is None,
    {
        assert(json::trees(field_names@)[i as int] == field_names@[i as int]@);
        assert(check(i as int) == field_name_problem(field_names@[i as int]@, dims, idx as int));
        proof {
            if check(i as int) is Some {
                error::lemma_first_problem(n as nat, (i + 1) as nat, check);
            }
        }
        match field_names[i].as_str() {
            Some(raw) => {
                let name: String = text::trimmed(raw);
                if name.as_str().is_empty() {
                    return Err(pivot_error(idx, "].field_names must not include empty entries"));
                }
                if !is_dimension(dimensions, name.as_str()) {
                    let mut rest: String = "] field '".to_owned();
                    rest.append(name.as_str());
                    rest.append("' must also be present in dimensions");
                    return Err(pivot_error(idx, rest.as_str()));
                }
            },
            None => {
                return Err(pivot_error(idx, "].field_names entries must be strings"));
            },
        }
    }
    Ok(())
}

/// How many groups a pivot asks for.
pub open spec fn pivot_limit(pivot: Tree) -> u64 {
    match pivot.field("limit"@) {
        Some(value) => match positive_number(value) {
            Some(n) => n,
            None => DEFAULT_PIVOT_LIMIT,
        },
        None => DEFAULT_PIVOT_LIMIT,
    }
}

fn limit_of_pivot(pivot: &Json) -> (r: u64)
    ensures
        r == pivot_limit(pivot@),
{
    match pivot.get("limit") {
        Some(value) => match parse_positive_u64(value) {
            Some(n) => n,
            None => DEFAULT_PIVOT_LIMIT,
        },
        None => DEFAULT_PIVOT_LIMIT,
    }
}

/// How many groups the first `n` pivots ask for together.
pub open spec fn limit_product(pivots: Seq<Tree>, n: nat) -> nat
    decreases n,
{
    if n == 0 {
        1
    } else {
        limit_product(pivots, (n - 1) as nat) * (pivot_limit(pivots[n - 1]) as nat)
    }
}

/// What is wrong with the fields of a pivot.
pub open spec fn pivot_shape_problem(
    pivot: Tree,
    dimensions: Seq<Seq<char>>,
    idx: int,
) -> Option<Problem> {
    if !(pivot is Dict) {
        pivot_fault(idx, "] must be an object"@)
    } else {
        match pivot.either_field("field_names"@, "fieldNames"@) {
            None => pivot_fault(idx, "] must include field_names"@),
            Some(Tree::List(field_names)) => if field_names.len() == 0 {
                pivot_fault(idx, "].field_names must not be empty"@)
            } else {
                error::first_problem(
                    field_names.len(),
                    field_name_check(field_names, dimensions, idx),
                )
            },
            Some(_) => pivot_fault(idx, "].field_names must be an array"@),
        }
    }
}

fn check_pivot_shape(pivot: &Json, dimensions: &[String], idx: usize) -> (r: Result<
    (),
    AnalyticsError,
>)
    ensures
        error::outcome(r) == pivot_shape_problem(pivot@, text::texts(dimensions@), idx as int),
{
    if !pivot.is_object() {
        return Err(pivot_error(idx, "] must be an object"));
    }
    match pivot.get_either("field_names", "fieldNames") {
        None => Err(pivot_error(idx, "] must include field_names")),
        Some(value) => match value.as_array() {
            None => Err(pivot_error(idx, "].field_names must be an array")),
            Some(field_names) => {
                if field_names.len() == 0 {
                    return Err(pivot_error(idx, "].field_names must not be empty"));
                }
                check_field_names(field_names.as_slice(), dimensions, idx)
            },
        },
    }
}

/// The check of the pivot at a position: its own fields, and that the pivots up to it do
/// not ask for too many groups.
pub open spec fn pivot_check(pivots: Seq<Tree>, dimensions: Seq<Seq<char>>) -> spec_fn(
    int,
) -> Option<Problem> {
    |i: int|
        error::earlier(
            pivot_shape_problem(pivots[i], dimensions, i),
            if limit_product(pivots, (i + 1) as nat) > MAX_PIVOT_LIMIT_PRODUCT {
                Some(
                    Problem::InvalidArgument("pivots"@, "pivot limit product must be <= 100000"@),
                )
            } else {
                None
            },
        )
}

/// What is wrong with the pivots of a request.
pub open spec fn pivots_problem(pivots: Seq<Tree>, dimensions: Seq<Seq<char>>) -> Option<
    Problem,
> {
    if pivots.len() == 0 {
        Some(Problem::InvalidArgument("pivots"@, "must include at least one pivot definition"@))
    } else {
        error::first_problem(pivots.len(), pivot_check(pivots, dimensions))
    }
}

/// Checks the pivots of a request.
pub fn validate_pivots(pivots: &[Json], dimensions: &[String]) -> (r: Result<(), AnalyticsError>)
    ensures
        error::outcome(r) == pivots_problem(json::trees(pivots@), text::texts(dimensions@)),
{
    if pivots.len() == 0 {
        return Err(AnalyticsError::invalid("pivots", "must include at least one pivot definition"));
    }
    let ghost all = json::trees(pivots@);
    let ghost dims = text::texts(dimensions@);
    let mut product: u128 = 1;
    let n: usize = pivots.len();
    for idx in 0..n
        invariant
            n == pivots@.len(),
            all == json::trees(pivots@),
            dims == text::texts(dimensions@),
            error::first_problem(idx as nat, pivot_check(all, dims)) is None,
            product == limit_product(all, idx as nat),
            product <= MAX_PIVOT_LIMIT_PRODUCT,
    {
        assert(all[idx as int] == pivots@[idx as int]@);
        match check_pivot_shape(&pivots[idx], dimensions, idx) {
            Err(err) => {
                proof {
                    error::lemma_first_problem(
                        n as nat,
                        (idx + 1) as nat,
                        pivot_check(all, dims),
                    );
                }
                return Err(err);
            },
            Ok(()) => {},
        }
        let limit: u128 = limit_of_pivot(&pivots[idx]) as u128;
        assert(product * limit <= 100_000 * 0xffff_ffff_ffff_ffff) by (nonlinear_arith)
            requires
                product <= 100_000,
                limit <= 0xffff_ffff_ffff_ffff,
        ;
        product = product * limit;
        assert(product == limit_product(all, (idx + 1) as nat));
        if product > MAX_PIVOT_LIMIT_PRODUCT {
            proof {
                error::lemma_first_problem(n as nat, (idx + 1) as nat, pivot_check(all, dims));
            }
            return Err(AnalyticsError::invalid("pivots", "pivot limit product must be <= 100000"));
        }
    }
    Ok(())
}

/// What is wrong with a pivot report request.
pub open spec fn pivot_problem(
    dimensions: Seq<Seq<char>>,
    metrics: Seq<Seq<char>>,
    date_ranges: Seq<Tree>,
    pivots: Seq<Tree>,
) -> Option<Problem> {
    error::earlier(
        report_problem(dimensions, metrics, date_ranges, None, None),
        pivots_problem(pivots, dimensions),
    )
}

/// Checks a pivot report request.
pub fn validate_pivot_inputs(
    dimensions: &[String],
    metrics: &[String],
    date_ranges: &[Json],
    pivots: &[Json],
) -> (r: Result<(), AnalyticsError>)
    ensures
        error::outcome(r) == pivot_problem(
            text::texts(dimensions@),
            text::texts(metrics@),
            json::trees(date_ranges@),
            json::trees(pivots@),
        ),
{
    match validate_report_inputs(dimensions, metrics, date_ranges, None, None) {
        Err(err) => Err(err),
        Ok(()) => validate_pivots(pivots, dimensions),
    }
}

// ---------------------------------------------------------------------------
// Laws.
// ---------------------------------------------------------------------------

/// Nothing is the first problem only where no position has one.
pub proof fn lemma_no_problem(n: nat, check: spec_fn(int) -> Option<Problem>, i: int)
    requires
        error::first_problem(n, check) is None,
        0 <= i < n,
    ensures
        check(i) is None,
    decreases n,
{
    if i < n - 1 {
        lemma_no_problem((n - 1) as nat, check, i);
    }
}

/// A funnel report that is accepted has at least one step; each step names exactly one of
/// an event and a filter, and only a step with one before it follows it within a duration.
pub proof fn law_accepted_funnel_steps(args: RunFunnelReportArgs, i: int)
    requires
        funnel_problem(args) is None,
        0 <= i < args.funnel_steps@.len(),
    ensures
        args.funnel_steps@.len() > 0,
        (args.funnel_steps@[i].event is Some) != (args.funnel_steps@[i].filter_expression is Some),
        args.funnel_steps@[i].within_duration_from_prior_step matches Some(duration) ==> i > 0
            && is_duration(duration@),
{
    let steps = args.funnel_steps@;
    lemma_no_problem(steps.len(), step_check(steps), i);
    assert(step_check(steps)(i) == step_problem(steps[i], i));
}

/// Pivots that are accepted ask for no more groups together than the limit.
pub proof fn law_accepted_pivots_are_bounded(pivots: Seq<Tree>, dimensions: Seq<Seq<char>>)
    requires
        pivots_problem(pivots, dimensions) is None,
    ensures
        0 < limit_product(pivots, pivots.len()) <= MAX_PIVOT_LIMIT_PRODUCT,
{
    let last = pivots.len() - 1;
    lemma_no_problem(pivots.len(), pivot_check(pivots, dimensions), last);
    assert(pivot_check(pivots, dimensions)(last) is None);
    lemma_limit_product_positive(pivots, pivots.len());
}

proof fn lemma_limit_product_positive(pivots: Seq<Tree>, n: nat)
    ensures
        limit_product(pivots, n) > 0,
    decreases n,
{
    if n > 0 {
        lemma_limit_product_positive(pivots, (n - 1) as nat);
        let before = limit_product(pivots, (n - 1) as nat);
        let limit = pivot_limit(pivots[n - 1]) as nat;
        assert(before * limit > 0) by (nonlinear_arith)
            requires
                before > 0,
                limit > 0,
        ;
    }
}

/// A list of conversion dimensions that is accepted holds known names only.
pub proof fn law_accepted_conversion_names(args: RunConversionsReportArgs, i: int)
    requires
        conversions_problem(args) is None,
        0 <= i < args.dimensions@.len(),
    ensures
        conversion_dimensions().contains(args.dimensions@[i]@),
{
    let names = text::texts(args.dimensions@);
    let check = name_check("dimensions"@, "dimension"@, names, conversion_dimensions());
    lemma_no_problem(names.len(), check, i);
    assert(check(i) == unknown_name(
        "dimensions"@,
        "dimension"@,
        names[i],
        conversion_dimensions(),
    ));
}

/// Dimensions and metrics are accepted exactly where there are one to fifty of each, none of
/// them blank.
pub proof fn law_lists_of_names_are_bounded(dimensions: Seq<Seq<char>>, metrics: Seq<Seq<char>>)
    ensures
        metric_lists_problem(dimensions, metrics) is None <==> 1 <= dimensions.len() <= 50 && 1
            <= metrics.len() <= 50 && (forall|i: int|
            0 <= i < dimensions.len() ==> text::trim(#[trigger] dimensions[i]).len() > 0) && (
        forall|i: int| 0 <= i < metrics.len() ==> text::trim(#[trigger] metrics[i]).len() > 0),
        metric_lists_problem(dimensions, metrics) matches Some(problem) ==> (
        problem matches Problem::InvalidArgument(field, said) && (field == "dimensions"@ || field
            == "metrics"@)),
        dimensions.len() == 0 || dimensions.len() > 50 && metrics.len() > 0 ==> (
        metric_lists_problem(dimensions, metrics) matches Some(
            Problem::InvalidArgument(field, said),
        ) && field == "dimensions"@),
        1 <= dimensions.len() <= 50 && (metrics.len() == 0 || metrics.len() > 50) ==> (
        metric_lists_problem(dimensions, metrics) matches Some(
            Problem::InvalidArgument(field, said),
        ) && field == "metrics"@),
{
    assert(has_blank(dimensions) <==> !(forall|i: int|
        0 <= i < dimensions.len() ==> text::trim(#[trigger] dimensions[i]).len() > 0)) by {
        if has_blank(dimensions) {
            let i = choose|i: int|
                0 <= i < dimensions.len() && text::is_blank(#[trigger] dimensions[i]);
            assert(text::trim(dimensions[i]).len() == 0);
        }
        if !(forall|i: int|
            0 <= i < dimensions.len() ==> text::trim(#[trigger] dimensions[i]).len() > 0) {
            let i = choose|i: int|
                0 <= i < dimensions.len() && !(text::trim(#[trigger] dimensions[i]).len() > 0);
            assert(text::is_blank(dimensions[i]));
        }
    }
    assert(has_blank(metrics) <==> !(forall|i: int|
        0 <= i < metrics.len() ==> text::trim(#[trigger] metrics[i]).len() > 0)) by {
        if has_blank(metrics) {
            let i = choose|i: int| 0 <= i < metrics.len() && text::is_blank(#[trigger] metrics[i]);
            assert(text::trim(metrics[i]).len() == 0);
        }
        if !(forall|i: int|
            0 <= i < metrics.len() ==> text::trim(#[trigger] metrics[i]).len() > 0) {
            let i = choose|i: int|
                0 <= i < metrics.len() && !(text::trim(#[trigger] metrics[i]).len() > 0);
            assert(text::is_blank(metrics[i]));
        }
    }
}

/// A limit is accepted from one to a quarter of a million, and an offset up to two and a half
/// million; a limit that is wrong is told before an offset that is.
pub proof fn law_limits_and_offsets_are_bounded(limit: Option<u64>, offset: Option<u64>)
    ensures
        limit_offset_problem(limit, offset) is None <==> (limit matches Some(n) ==> 1 <= n
            <= 250_000) && (offset matches Some(n) ==> n <= 2_500_000),
        limit matches Some(n) && (n == 0 || n > 250_000) ==> (limit_offset_problem(
            limit,
            offset,
        ) matches Some(Problem::InvalidArgument(field, said)) && field == "limit"@),
        (limit is None || 1 <= limit->0 <= 250_000) && (offset matches Some(n) && n > 2_500_000)
            ==> (limit_offset_problem(limit, offset) matches Some(
            Problem::InvalidArgument(field, said),
        ) && field == "offset"@),
{
}

/// How an answer is shown is accepted where it has one to twenty-five thousand rows, cells of
/// one to 16,384 characters, and a cursor that is not blank.
pub proof fn law_shown_sizes_are_bounded(
    max_rows: Option<usize>,
    max_cell_chars: Option<usize>,
    cursor: Option<Seq<char>>,
)
    ensures
        tabular_controls_problem(max_rows, max_cell_chars, cursor) is None <==> (max_rows matches
        Some(n) ==> 1 <= n <= 25_000) && (max_cell_chars matches Some(n) ==> 1 <= n <= 16_384) && (
        cursor matches Some(raw) ==> text::trim(raw).len() > 0),
        tabular_controls_problem(max_rows, max_cell_chars, cursor) matches Some(problem) ==> (
        match problem {
            Problem::InvalidArgument(field, said) => (field == "max_rows"@ && max_rows is Some) || (
            field == "max_cell_chars"@ && max_cell_chars is Some),
            Problem::InvalidCursor(said) => cursor is Some,
            _ => false,
        }),
{
}

/// A size is the one that is asked for, or the usual one, where it is from one to the largest;
/// and so is a limit of a part of a report.
pub proof fn law_sizes_are_what_is_asked_for(
    field: Seq<char>,
    n: usize,
    usual: usize,
    largest: usize,
    limit: u64,
    largest_limit: u64,
)
    requires
        1 <= usual <= largest,
    ensures
        resolved_size(field, None, usual, largest) == Ok::<usize, Problem>(usual),
        1 <= n <= largest ==> resolved_size(field, Some(n), usual, largest) == Ok::<
            usize,
            Problem,
        >(n),
        n == 0 || n > largest ==> (resolved_size(field, Some(n), usual, largest) matches Err(
            Problem::InvalidArgument(told, said),
        ) && told == field),
        sublimit_problem(field, None, largest_limit) is None,
        sublimit_problem(field, Some(limit), largest_limit) is None <==> 1 <= limit
            <= largest_limit,
        sublimit_problem(field, Some(limit), largest_limit) matches Some(problem) ==> (
        problem matches Problem::InvalidArgument(told, said) && told == field),
{
}

/// Whether a range has a text that is not blank under either of two names; the first counts
/// where there is anything under it.
pub open spec fn tells_date(range: Tree, name: Seq<char>, other: Seq<char>) -> bool {
    match range.field(name) {
        Some(Tree::Text(shown)) => text::trim(shown).len() > 0,
        Some(_) => false,
        None => match range.field(other) {
            Some(Tree::Text(shown)) => text::trim(shown).len() > 0,
            _ => false,
        },
    }
}

/// Date ranges are accepted exactly where each is an object with a first day and a last day.
pub proof fn law_date_ranges_have_two_ends(ranges: Seq<Tree>)
    ensures
        date_ranges_problem(ranges) is None <==> forall|i: int|
            0 <= i < ranges.len() ==> (#[trigger] ranges[i]) is Dict && tells_date(
                ranges[i],
                "start_date"@,
                "startDate"@,
            ) && tells_date(ranges[i], "end_date"@, "endDate"@),
        date_ranges_problem(ranges) matches Some(problem) ==> (
        problem matches Problem::InvalidArgument(field, said) && field == "date_ranges"@),
{
    let check = date_range_check(ranges);
    error::law_the_first_problem_is_told(ranges.len(), check);
    assert forall|i: int| 0 <= i < ranges.len() implies (#[trigger] check(i) is None <==> ranges[i]
        is Dict && tells_date(ranges[i], "start_date"@, "startDate"@) && tells_date(
        ranges[i],
        "end_date"@,
        "endDate"@,
    )) by {
    }
    if forall|i: int|
        0 <= i < ranges.len() ==> (#[trigger] ranges[i]) is Dict && tells_date(
            ranges[i],
            "start_date"@,
            "startDate"@,
        ) && tells_date(ranges[i], "end_date"@, "endDate"@) {
        assert forall|i: int| 0 <= i < ranges.len() implies #[trigger] check(i) is None by {
            assert(ranges[i] is Dict);
        }
    }
    if date_ranges_problem(ranges) is None {
        assert forall|i: int| 0 <= i < ranges.len() implies (#[trigger] ranges[i]) is Dict
            && tells_date(ranges[i], "start_date"@, "startDate"@) && tells_date(
            ranges[i],
            "end_date"@,
            "endDate"@,
        ) by {
            assert(check(i) is None);
        }
    }
}

/// A report is accepted exactly where its names, its dates, its limit and its offset are, and
/// it has a date range; a realtime report needs none.
pub proof fn law_reports_need_names_and_dates(
    dimensions: Seq<Seq<char>>,
    metrics: Seq<Seq<char>>,
    date_ranges: Seq<Tree>,
    limit: Option<u64>,
    offset: Option<u64>,
)
    ensures
        report_problem(dimensions, metrics, date_ranges, limit, offset) is None <==> (
        metric_lists_problem(dimensions, metrics) is None && date_ranges.len() > 0
            && date_ranges_problem(date_ranges) is None && limit_offset_problem(limit, offset)
            is None),
        realtime_problem(dimensions, metrics, limit, offset) is None <==> (metric_lists_problem(
            dimensions,
            metrics,
        ) is None && limit_offset_problem(limit, offset) is None),
        metric_lists_problem(dimensions, metrics) is None && date_ranges.len() == 0 ==> (
        report_problem(dimensions, metrics, date_ranges, limit, offset) matches Some(
            Problem::InvalidArgument(field, said),
        ) && field == "date_ranges"@),
        report_problem(dimensions, metrics, date_ranges, limit, offset) matches Some(problem) ==> (
        Some(problem) == metric_lists_problem(dimensions, metrics) || date_ranges.len() == 0
            || Some(problem) == date_ranges_problem(date_ranges) || Some(problem)
            == limit_offset_problem(limit, offset)),
{
}

/// The dimensions and the metrics that a report of conversions may have.
pub proof fn law_names_of_conversion_reports(name: Seq<char>)
    ensures
        conversion_dimensions().contains(name)
            <==> (
                name == "campaignName"@
                    || name == "continent"@
                    || name == "country"@
                    || name == "defaultChannelGroup"@
                    || name == "deviceCategory"@
                    || name == "medium"@
                    || name == "platform"@
                    || name == "primaryChannelGroup"@
                    || name == "source"@
                    || name == "sourceMedium"@
                    || name == "sourcePlatform"@
                    || name == "subcontinent"@
            ),
        conversion_metrics().contains(name)
            <==> (
                name == "advertiserAdClicks"@
                    || name == "advertiserAdCost"@
                    || name == "advertiserAdCostPerAllConversionsByConversionDate"@
                    || name == "advertiserAdCostPerAllConversionsByInteractionDate"@
                    || name == "advertiserAdCostPerClick"@
                    || name == "advertiserAdImpressions"@
                    || name == "allConversionsByConversionDate"@
                    || name == "allConversionsByInteractionDate"@
                    || name == "returnOnAdSpendByConversionDate"@
                    || name == "returnOnAdSpendByInteractionDate"@
                    || name == "totalRevenueByConversionDate"@
                    || name == "totalRevenueByInteractionDate"@
            ),
{
    let dimensions = conversion_dimensions();
    let metrics = conversion_metrics();
    assert(dimensions[0] == "campaignName"@);
    assert(dimensions[1] == "continent"@);
    assert(dimensions[2] == "country"@);
    assert(dimensions[3] == "defaultChannelGroup"@);
    assert(dimensions[4] == "deviceCategory"@);
    assert(dimensions[5] == "medium"@);
    assert(dimensions[6] == "platform"@);
    assert(dimensions[7] == "primaryChannelGroup"@);
    assert(dimensions[8] == "source"@);
    assert(dimensions[9] == "sourceMedium"@);
    assert(dimensions[10] == "sourcePlatform"@);
    assert(dimensions[11] == "subcontinent"@);
    assert(metrics[0] == "advertiserAdClicks"@);
    assert(metrics[1] == "advertiserAdCost"@);
    assert(metrics[2] == "advertiserAdCostPerAllConversionsByConversionDate"@);
    assert(metrics[3] == "advertiserAdCostPerAllConversionsByInteractionDate"@);
    assert(metrics[4] == "advertiserAdCostPerClick"@);
    assert(metrics[5] == "advertiserAdImpressions"@);
    assert(metrics[6] == "allConversionsByConversionDate"@);
    assert(metrics[7] == "allConversionsByInteractionDate"@);
    assert(metrics[8] == "returnOnAdSpendByConversionDate"@);
    assert(metrics[9] == "returnOnAdSpendByInteractionDate"@);
    assert(metrics[10] == "totalRevenueByConversionDate"@);
    assert(metrics[11] == "totalRevenueByInteractionDate"@);
}

/// A report of conversions is accepted exactly where it is as a report, all its names are ones
/// that such reports have, and each action is named by a number.
pub proof fn law_conversion_reports_have_known_names(args: RunConversionsReportArgs)
    ensures
        conversions_problem(args) is None <==> (report_problem(
            text::texts(args.dimensions@),
            text::texts(args.metrics@),
            json::trees(args.date_ranges@),
            args.limit,
            args.offset,
        ) is None && (forall|i: int|
            0 <= i < args.dimensions@.len() ==> conversion_dimensions().contains(
                (#[trigger] args.dimensions@[i])@,
            )) && (forall|i: int|
            0 <= i < args.metrics@.len() ==> conversion_metrics().contains(
                (#[trigger] args.metrics@[i])@,
            )) && (forall|i: int|
            0 <= i < args.conversion_spec.conversion_actions@.len() ==> is_conversion_action(
                (#[trigger] args.conversion_spec.conversion_actions@[i])@,
            ))),
{
    let dimensions = text::texts(args.dimensions@);
    let metrics = text::texts(args.metrics@);
    let actions = text::texts(args.conversion_spec.conversion_actions@);
    let by_dimension = name_check(
        "dimensions"@,
        "dimension"@,
        dimensions,
        conversion_dimensions(),
    );
    let by_metric = name_check("metrics"@, "metric"@, metrics, conversion_metrics());
    let by_action = action_check(actions);
    error::law_the_first_problem_is_told(dimensions.len(), by_dimension);
    error::law_the_first_problem_is_told(metrics.len(), by_metric);
    error::law_the_first_problem_is_told(actions.len(), by_action);
    if conversions_problem(args) is None {
        assert forall|i: int| 0 <= i < args.dimensions@.len() implies conversion_dimensions().contains(
            (#[trigger] args.dimensions@[i])@) by {
            assert(by_dimension(i) is None);
        }
        assert forall|i: int| 0 <= i < args.metrics@.len() implies conversion_metrics().contains(
            (#[trigger] args.metrics@[i])@) by {
            assert(by_metric(i) is None);
        }
        assert forall|i: int| 0 <= i < args.conversion_spec.conversion_actions@.len() implies is_conversion_action(
            (#[trigger] args.conversion_spec.conversion_actions@[i])@) by {
            assert(by_action(i) is None);
        }
    }
    if forall|i: int|
        0 <= i < args.dimensions@.len() ==> conversion_dimensions().contains(
            (#[trigger] args.dimensions@[i])@,
        ) {
        assert forall|i: int| 0 <= i < dimensions.len() implies #[trigger] by_dimension(i) is None by {
            assert(dimensions[i] == args.dimensions@[i]@);
        }
    }
    if forall|i: int|
        0 <= i < args.metrics@.len() ==> conversion_metrics().contains(
            (#[trigger] args.metrics@[i])@,
        ) {
        assert forall|i: int| 0 <= i < metrics.len() implies #[trigger] by_metric(i) is None by {
            assert(metrics[i] == args.metrics@[i]@);
        }
    }
    if forall|i: int|
        0 <= i < args.conversion_spec.conversion_actions@.len() ==> is_conversion_action(
            (#[trigger] args.conversion_spec.conversion_actions@[i])@,
        ) {
        assert forall|i: int| 0 <= i < actions.len() implies #[trigger] by_action(i) is None by {
            assert(actions[i] == args.conversion_spec.conversion_actions@[i]@);
        }
    }
}

/// An action is named by a number behind its prefix, and by nothing else.
pub proof fn law_actions_are_named_by_numbers(id: Seq<char>, action: Seq<char>)
    ensures
        id.len() > 0 && (forall|i: int| 0 <= i < id.len() ==> '0' <= #[trigger] id[i] <= '9')
            ==> is_conversion_action("conversionActions/"@ + id),
        is_conversion_action(action) ==> exists|found: Seq<char>|
            action == "conversionActions/"@ + found && found.len() > 0 && #[trigger] text::all_digits(
                found,
            ),
{
    let prefix = "conversionActions/"@;
    let whole = prefix + id;
    assert(whole.take(prefix.len() as int) =~= prefix);
    assert(whole.skip(prefix.len() as int) =~= id);
    if is_conversion_action(action) {
        let found = action.skip(prefix.len() as int);
        assert(action =~= prefix + found);
        assert(text::all_digits(found));
    }
}

proof fn lemma_unsplit(digits: Seq<char>)
    requires
        text::all_digits(digits),
    ensures
        text::split(digits, seq!['.']) == seq![digits],
    decreases digits.len(),
{
    if digits.len() > 0 {
        let short = digits.drop_last();
        assert forall|i: int| 0 <= i < short.len() implies text::is_digit(#[trigger] short[i]) by {
            assert(short[i] == digits[i]);
        }
        lemma_unsplit(short);
        assert(text::is_digit(digits[digits.len() - 1]));
        assert(!seq!['.'].contains(digits.last()));
        assert(short.push(digits.last()) =~= digits);
        assert(seq![short].drop_last().push(short.push(digits.last())) =~= seq![digits]);
    } else {
        assert(digits =~= Seq::<char>::empty());
    }
}

proof fn lemma_split_once(whole: Seq<char>, part: Seq<char>)
    requires
        text::all_digits(whole),
        text::all_digits(part),
    ensures
        text::split(whole + seq!['.'] + part, seq!['.']) == seq![whole, part],
    decreases part.len(),
{
    let all = whole + seq!['.'] + part;
    if part.len() > 0 {
        let short = part.drop_last();
        assert forall|i: int| 0 <= i < short.len() implies text::is_digit(#[trigger] short[i]) by {
            assert(short[i] == part[i]);
        }
        lemma_split_once(whole, short);
        assert(all.drop_last() =~= whole + seq!['.'] + short);
        assert(all.last() == part.last());
        assert(text::is_digit(part[part.len() - 1]));
        assert(!seq!['.'].contains(part.last()));
        assert(short.push(part.last()) =~= part);
        assert(seq![whole, short].drop_last().push(short.push(part.last())) =~= seq![whole, part]);
    } else {
        assert(all.drop_last() =~= whole);
        assert(all.last() == '.');
        assert(seq!['.'][0] == '.');
        assert(seq!['.'].contains('.'));
        lemma_unsplit(whole);
        assert(part =~= Seq::<char>::empty());
        assert(seq![whole].push(Seq::<char>::empty()) =~= seq![whole, part]);
    }
}

/// A duration is a number of seconds, with up to nine digits behind a point.
pub proof fn law_durations_are_seconds(whole: Seq<char>, part: Seq<char>, value: Seq<char>)
    requires
        whole.len() > 0,
        text::all_digits(whole),
        text::all_digits(part),
    ensures
        is_duration(whole + seq!['s']),
        is_duration(whole + seq!['.'] + part + seq!['s']) <==> 1 <= part.len() <= 9,
        is_duration(value) ==> value.len() >= 2 && value.last() == 's' && '0' <= value[0] <= '9',
{
    reveal_strlit("s");
    assert("s"@ =~= seq!['s']);
    let short = whole + seq!['s'];
    assert(short.skip(short.len() - 1) =~= "s"@);
    assert(short.take(short.len() - 1) =~= whole);
    lemma_unsplit(whole);
    let long = whole + seq!['.'] + part + seq!['s'];
    assert(long.skip(long.len() - 1) =~= "s"@);
    assert(long.take(long.len() - 1) =~= whole + seq!['.'] + part);
    lemma_split_once(whole, part);
    assert(seq![whole, part][0] == whole && seq![whole, part][1] == part);
    if is_duration(value) {
        let n = value.len();
        assert(value.skip(n - 1)[0] == "s"@[0]);
        assert(value.last() == 's');
        let shown = value.take(n - 1);
        lemma_first_piece(shown);
        let first = text::split(shown, seq!['.'])[0];
        assert(text::is_digit(first[0]));
        assert(shown.take(first.len() as int)[0] == value[0]);
    }
}

proof fn lemma_first_piece(shown: Seq<char>)
    ensures
        text::split(shown, seq!['.']).len() > 0,
        text::split(shown, seq!['.'])[0].len() <= shown.len(),
        text::split(shown, seq!['.'])[0] == shown.take(
            text::split(shown, seq!['.'])[0].len() as int,
        ),
    decreases shown.len(),
{
    if shown.len() > 0 {
        let short = shown.drop_last();
        lemma_first_piece(short);
        let before = text::split(short, seq!['.']);
        let after = text::split(shown, seq!['.']);
        let k = before[0].len() as int;
        assert(shown.take(k) =~= short.take(k));
        if !seq!['.'].contains(shown.last()) && before.len() == 1 {
            lemma_only_piece(short);
            assert(after[0] =~= shown.take(shown.len() as int));
        }
    } else {
        assert(shown.take(0) =~= Seq::<char>::empty());
    }
}

proof fn lemma_only_piece(shown: Seq<char>)
    ensures
        text::split(shown, seq!['.']).len() == 1 ==> text::split(shown, seq!['.'])[0] == shown,
        text::split(shown, seq!['.']).len() > 0,
    decreases shown.len(),
{
    if shown.len() > 0 {
        lemma_only_piece(shown.drop_last());
        assert(shown.drop_last().push(shown.last()) =~= shown);
    } else {
        assert(shown =~= Seq::<char>::empty());
    }
}

/// Whether a step of a funnel can stand where it stands.
pub open spec fn sound_step(step: FunnelStepArgs, idx: int) -> bool {
    &&& step.name matches Some(name) ==> text::trim(name@).len() > 0
    &&& match (step.event, step.filter_expression) {
        (Some(event), None) => event@.len() > 0 && text::trim(event@) == event@,
        (None, Some(filter)) => filter@ matches Tree::Dict(entries) && entries.len() > 0,
        _ => false,
    }
    &&& idx == 0 ==> step.is_directly_followed_by != Some(true)
        && step.within_duration_from_prior_step is None
    &&& step.within_duration_from_prior_step matches Some(duration) ==> is_duration(duration@)
}

/// A funnel is accepted exactly where it has a step and each of its steps can stand where it
/// stands, and its dates, its segments, what it is broken down by and its limits are in order.
pub proof fn law_funnels_have_sound_steps(args: RunFunnelReportArgs)
    ensures
        funnel_problem(args) is None <==> (args.funnel_steps@.len() > 0 && (forall|i: int|
            0 <= i < args.funnel_steps@.len() ==> sound_step(#[trigger] args.funnel_steps@[i], i))
            && date_ranges_problem(json::trees(args.date_ranges@)) is None && (
        args.segments matches Some(segments) ==> segments@.len() <= 4 && forall|i: int|
            0 <= i < segments@.len() ==> ((#[trigger] segments@[i])@ matches Tree::Dict(entries)
                && entries.len() > 0)) && (args.funnel_breakdown matches Some(held)
            ==> held.breakdown_dimension@.len() > 0 && text::trim(held.breakdown_dimension@)
            == held.breakdown_dimension@ && (held.limit matches Some(n) ==> 1 <= n <= 15)) && (
        args.funnel_next_action matches Some(held) ==> held.next_action_dimension@.len() > 0
            && text::trim(held.next_action_dimension@) == held.next_action_dimension@ && (
        held.limit matches Some(n) ==> 1 <= n <= 5)) && (args.limit matches Some(n) ==> 1 <= n
            <= 250_000)),
{
    let steps = args.funnel_steps@;
    let check = step_check(steps);
    error::law_the_first_problem_is_told(steps.len(), check);
    assert forall|i: int| 0 <= i < steps.len() implies (#[trigger] check(i) is None <==> sound_step(
        steps[i],
        i,
    )) by {
        lemma_sound_step(steps[i], i);
    }
    assert((forall|i: int| 0 <= i < steps.len() ==> #[trigger] check(i) is None) <==> (forall|i: int|
        0 <= i < steps.len() ==> sound_step(#[trigger] steps[i], i))) by {
        if forall|i: int| 0 <= i < steps.len() ==> #[trigger] check(i) is None {
            assert forall|i: int| 0 <= i < steps.len() implies sound_step(#[trigger] steps[i], i) by {
                assert(check(i) is None);
            }
        }
        if forall|i: int| 0 <= i < steps.len() ==> sound_step(#[trigger] steps[i], i) {
            assert forall|i: int| 0 <= i < steps.len() implies #[trigger] check(i) is None by {
                assert(sound_step(steps[i], i));
            }
        }
    }
    match args.segments {
        Some(segments) => {
            let shown = json::trees(segments@);
            let by_segment = segment_check(shown);
            error::law_the_first_problem_is_told(shown.len(), by_segment);
            if forall|i: int| 0 <= i < shown.len() ==> #[trigger] by_segment(i) is None {
                assert forall|i: int| 0 <= i < segments@.len() implies ((
                #[trigger] segments@[i])@ matches Tree::Dict(entries) && entries.len() > 0) by {
                    assert(by_segment(i) is None);
                }
            }
            if forall|i: int|
                0 <= i < segments@.len() ==> ((#[trigger] segments@[i])@ matches Tree::Dict(entries)
                    && entries.len() > 0) {
                assert forall|i: int| 0 <= i < shown.len() implies #[trigger] by_segment(i)
                    is None by {
                    assert(shown[i] == segments@[i]@);
                }
            }
        },
        None => {},
    }
    match args.funnel_breakdown {
        Some(held) => {
            lemma_blank(held.breakdown_dimension@);
        },
        None => {},
    }
    match args.funnel_next_action {
        Some(held) => {
            lemma_blank(held.next_action_dimension@);
        },
        None => {},
    }
}

proof fn lemma_blank(shown: Seq<char>)
    ensures
        shown.len() == 0 ==> text::is_blank(shown),
        text::trim(shown) == shown ==> (text::is_blank(shown) <==> shown.len() == 0),
{
    text::law_trim(shown);
}

proof fn lemma_sound_step(step: FunnelStepArgs, idx: int)
    ensures
        step_problem(step, idx) is None <==> sound_step(step, idx),
{
    match step.event {
        Some(event) => {
            lemma_blank(event@);
        },
        None => {},
    }
    match step.within_duration_from_prior_step {
        Some(duration) => {
            if is_duration(duration@) {
                lemma_duration_not_blank(duration@);
            }
        },
        None => {},
    }
}

proof fn lemma_duration_not_blank(value: Seq<char>)
    requires
        is_duration(value),
    ensures
        !text::is_blank(value),
{
    law_durations_are_seconds(seq!['0'], seq!['0'], value);
    text::law_tight_texts_are_not_trimmed(value);
}

/// A batch has one to five reports.
pub proof fn law_batches_are_small(n: nat)
    ensures
        batch_problem(n) is None <==> 1 <= n <= 5,
        batch_problem(n) matches Some(problem) ==> (
        problem matches Problem::InvalidArgument(field, said) && field == "requests"@),
{
}

/// The limit of a pivot is the number that it says, as a number or as a numeral, and ten where
/// it says none.
pub proof fn law_pivots_have_limits(pivot: Tree, n: u64)
    requires
        n > 0,
    ensures
        pivot.field("limit"@) is None ==> pivot_limit(pivot) == 10,
        pivot.field("limit"@) == Some(Tree::Whole(n as int)) ==> pivot_limit(pivot) == n,
        pivot.field("limit"@) == Some(Tree::Text(text::decimal(n as nat))) ==> pivot_limit(pivot)
            == n,
        pivot.field("limit"@) == Some(Tree::Whole(0)) ==> pivot_limit(pivot) == 10,
{
    text::law_decimal_reads_back(n);
    text::lemma_decimal(n as nat);
    let digits = text::decimal(n as nat);
    assert(text::is_digit(digits[0]) && text::is_digit(digits[digits.len() - 1]));
    text::law_tight_texts_are_not_trimmed(digits);
}

/// Whether a pivot names dimensions of its report, and at least one.
pub open spec fn sound_pivot(pivot: Tree, dimensions: Seq<Seq<char>>) -> bool {
    &&& pivot is Dict
    &&& match pivot.field("field_names"@) {
        Some(Tree::List(names)) => sound_names(names, dimensions),
        Some(_) => false,
        None => match pivot.field("fieldNames"@) {
            Some(Tree::List(names)) => sound_names(names, dimensions),
            _ => false,
        },
    }
}

/// Whether names are those of dimensions of a report.
pub open spec fn sound_names(names: Seq<Tree>, dimensions: Seq<Seq<char>>) -> bool {
    &&& names.len() > 0
    &&& forall|k: int|
        0 <= k < names.len() ==> ((#[trigger] names[k]) matches Tree::Text(raw) && text::trim(
            raw,
        ).len() > 0 && exists|d: int|
            0 <= d < dimensions.len() && text::trim(#[trigger] dimensions[d]) == text::trim(raw))
}

proof fn lemma_sound_names(names: Seq<Tree>, dimensions: Seq<Seq<char>>, idx: int)
    requires
        names.len() > 0,
    ensures
        error::first_problem(names.len(), field_name_check(names, dimensions, idx)) is None
            <==> sound_names(names, dimensions),
{
    let check = field_name_check(names, dimensions, idx);
    error::law_the_first_problem_is_told(names.len(), check);
    if forall|k: int| 0 <= k < names.len() ==> #[trigger] check(k) is None {
        assert forall|k: int| 0 <= k < names.len() implies ((#[trigger] names[k]) matches Tree::Text(
            raw,
        ) && text::trim(raw).len() > 0 && exists|d: int|
            0 <= d < dimensions.len() && text::trim(#[trigger] dimensions[d]) == text::trim(
                raw,
            )) by {
            assert(check(k) is None);
        }
    }
    if sound_names(names, dimensions) {
        assert forall|k: int| 0 <= k < names.len() implies #[trigger] check(k) is None by {
            assert(names[k] is Text);
        }
    }
}

/// Pivots are accepted exactly where there is one, each names dimensions of the report, and the
/// product of their limits never passes a hundred thousand.
pub proof fn law_pivots_name_dimensions(pivots: Seq<Tree>, dimensions: Seq<Seq<char>>)
    ensures
        pivots_problem(pivots, dimensions) is None <==> (pivots.len() > 0 && forall|i: int|
            0 <= i < pivots.len() ==> sound_pivot(#[trigger] pivots[i], dimensions)
                && limit_product(pivots, (i + 1) as nat) <= 100_000),
{
    let check = pivot_check(pivots, dimensions);
    error::law_the_first_problem_is_told(pivots.len(), check);
    assert forall|i: int| 0 <= i < pivots.len() implies (#[trigger] check(i) is None <==> (
    sound_pivot(pivots[i], dimensions) && limit_product(pivots, (i + 1) as nat) <= 100_000)) by {
        match pivots[i].either_field("field_names"@, "fieldNames"@) {
            Some(Tree::List(names)) => {
                if names.len() > 0 {
                    lemma_sound_names(names, dimensions, i);
                }
            },
            _ => {},
        }
    }
    if forall|i: int| 0 <= i < pivots.len() ==> #[trigger] check(i) is None {
        assert forall|i: int| 0 <= i < pivots.len() implies sound_pivot(
            #[trigger] pivots[i],
            dimensions,
        ) && limit_product(pivots, (i + 1) as nat) <= 100_000 by {
            assert(check(i) is None);
        }
    }
    if forall|i: int|
        0 <= i < pivots.len() ==> sound_pivot(#[trigger] pivots[i], dimensions) && limit_product(
            pivots,
            (i + 1) as nat,
        ) <= 100_000 {
        assert forall|i: int| 0 <= i < pivots.len() implies #[trigger] check(i) is None by {
            assert(sound_pivot(pivots[i], dimensions));
        }
    }
}

/// The product of limits grows by the limit of each pivot in turn.
pub proof fn law_limits_multiply(pivots: Seq<Tree>, n: nat)
    requires
        n < pivots.len(),
    ensures
        limit_product(pivots, 0) == 1,
        limit_product(pivots, n + 1) == limit_product(pivots, n) * pivot_limit(pivots[n as int]),
{
}

/// A pivot report is accepted exactly where it is as a report and its pivots are.
pub proof fn law_pivot_reports_need_both(
    dimensions: Seq<Seq<char>>,
    metrics: Seq<Seq<char>>,
    date_ranges: Seq<Tree>,
    pivots: Seq<Tree>,
)
    ensures
        pivot_problem(dimensions, metrics, date_ranges, pivots) is None <==> (report_problem(
            dimensions,
            metrics,
            date_ranges,
            None,
            None,
        ) is None && pivots_problem(pivots, dimensions) is None),
        report_problem(dimensions, metrics, date_ranges, None, None) matches Some(problem)
            ==> pivot_problem(dimensions, metrics, date_ranges, pivots) == Some(problem),
{
}

/// What is said of numbers that are out of their bounds.
pub proof fn law_bounds_are_said(field: Seq<char>, n: usize, largest: usize, m: u64, top: u64)
    requires
        n > largest,
        m == 0 || m > top,
    ensures
        limit_problem(Some(0)) == Some(
            Problem::InvalidArgument("limit"@, "must be greater than zero"@),
        ),
        m > 250_000 ==> limit_problem(Some(m)) == Some(
            Problem::InvalidArgument("limit"@, "must be <= "@ + text::decimal(250_000)),
        ),
        m > 2_500_000 ==> offset_problem(Some(m)) == Some(
            Problem::InvalidArgument("offset"@, "is unreasonably high for a single request"@),
        ),
        bound_problem(field, Some(0), largest) == Some(
            Problem::InvalidArgument(field, "must be greater than zero"@),
        ),
        bound_problem(field, Some(n), largest) == Some(
            Problem::InvalidArgument(field, "must be <= "@ + text::decimal(largest as nat)),
        ),
        sublimit_problem(field, Some(m), top) == Some(
            Problem::InvalidArgument(
                field,
                "must be between 1 and "@ + text::decimal(top as nat),
            ),
        ),
{
}

/// What is said of a step that cannot stand where it stands: which one it is, and why.
pub proof fn law_faults_of_steps_are_said(step: FunnelStepArgs, idx: int)
    requires
        step.name is None,
        idx >= 0,
    ensures
        step.event is Some && step.filter_expression is Some ==> step_problem(step, idx) == Some(
            Problem::InvalidArgument(
                "funnel_steps"@,
                "funnel_steps["@ + text::decimal(idx as nat)
                    + "] must set exactly one of event or filter_expression"@,
            ),
        ),
        step.event is None && step.filter_expression is None ==> step_problem(step, idx) == Some(
            Problem::InvalidArgument(
                "funnel_steps"@,
                "funnel_steps["@ + text::decimal(idx as nat)
                    + "] must set either event or filter_expression"@,
            ),
        ),
        step.filter_expression is None && (step.event matches Some(event) && text::trim(
            event@,
        ).len() == 0) ==> step_problem(step, idx) == Some(
            Problem::InvalidArgument(
                "funnel_steps"@,
                "funnel_steps["@ + text::decimal(idx as nat) + "].event must not be empty"@,
            ),
        ),
        step.event is None && (step.filter_expression matches Some(filter) && !(filter@ is Dict))
            ==> step_problem(step, idx) == Some(
            Problem::InvalidArgument(
                "funnel_steps"@,
                "funnel_steps["@ + text::decimal(idx as nat)
                    + "].filter_expression must be an object"@,
            ),
        ),
{
}

/// What is said of lists of names that cannot be asked for.
pub proof fn law_faults_of_lists_are_said(dimensions: Seq<Seq<char>>, metrics: Seq<Seq<char>>)
    ensures
        dimensions.len() == 0 ==> metric_lists_problem(dimensions, metrics) == Some(
            Problem::InvalidArgument("dimensions"@, "must include at least one dimension"@),
        ),
        dimensions.len() > 0 && metrics.len() == 0 ==> metric_lists_problem(dimensions, metrics)
            == Some(Problem::InvalidArgument("metrics"@, "must include at least one metric"@)),
        dimensions.len() > 50 && metrics.len() > 0 ==> metric_lists_problem(dimensions, metrics)
            == Some(
            Problem::InvalidArgument(
                "dimensions"@,
                "must include at most "@ + text::decimal(50) + " entries"@,
            ),
        ),
        1 <= dimensions.len() <= 50 && metrics.len() > 50 ==> metric_lists_problem(
            dimensions,
            metrics,
        ) == Some(
            Problem::InvalidArgument(
                "metrics"@,
                "must include at most "@ + text::decimal(50) + " entries"@,
            ),
        ),
        batch_problem(0) == Some(
            Problem::InvalidArgument("requests"@, "must include at least one report request"@),
        ),
        batch_problem(dimensions.len() + 6) == Some(
            Problem::InvalidArgument(
                "requests"@,
                "must include <= "@ + text::decimal(5) + " report requests"@,
            ),
        ),
{
}

/// What is said of a date range: which one it is, and what it lacks.
pub proof fn law_faults_of_date_ranges_are_said(range: Tree, idx: int)
    requires
        idx >= 0,
    ensures
        range is Dict && !(tells_date(range, "start_date"@, "startDate"@) && tells_date(
            range,
            "end_date"@,
            "endDate"@,
        )) ==> date_range_problem(range, idx) == Some(
            Problem::InvalidArgument(
                "date_ranges"@,
                "date_ranges["@ + text::decimal(idx as nat)
                    + "] must include non-empty start_date/startDate and end_date/endDate strings"@,
            ),
        ),
        range is Dict && tells_date(range, "start_date"@, "startDate"@) && tells_date(
            range,
            "end_date"@,
            "endDate"@,
        ) ==> date_range_problem(range, idx) is None,
        !(range is Dict) ==> date_range_problem(range, idx) is Some,
{
}

/// What is said of a pivot: which one it is, and what is wrong with it.
pub proof fn law_faults_of_pivots_are_said(
    pivot: Tree,
    dimensions: Seq<Seq<char>>,
    raw: Seq<char>,
    idx: int,
)
    requires
        idx >= 0,
    ensures
        !(pivot is Dict) ==> pivot_shape_problem(pivot, dimensions, idx) == Some(
            Problem::InvalidArgument(
                "pivots"@,
                "pivot["@ + text::decimal(idx as nat) + "] must be an object"@,
            ),
        ),
        pivot is Dict && pivot.field("field_names"@) is None && pivot.field("fieldNames"@) is None
            ==> pivot_shape_problem(pivot, dimensions, idx) == Some(
            Problem::InvalidArgument(
                "pivots"@,
                "pivot["@ + text::decimal(idx as nat) + "] must include field_names"@,
            ),
        ),
        text::trim(raw).len() > 0 && !(exists|d: int|
            0 <= d < dimensions.len() && text::trim(#[trigger] dimensions[d]) == text::trim(raw))
            ==> field_name_problem(Tree::Text(raw), dimensions, idx) == Some(
            Problem::InvalidArgument(
                "pivots"@,
                "pivot["@ + text::decimal(idx as nat) + "] field '"@ + text::trim(raw)
                    + "' must also be present in dimensions"@,
            ),
        ),
{
    let shown = text::decimal(idx as nat);
    assert("pivot["@ + shown + ("] field '"@ + text::trim(raw)
        + "' must also be present in dimensions"@) =~= "pivot["@ + shown + "] field '"@
        + text::trim(raw) + "' must also be present in dimensions"@);
}

} // verus!
