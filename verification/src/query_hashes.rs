//! What the hash of each kind of query is taken of.

use vstd::prelude::*;
use vstd::string::*;

use crate::cursors;
use crate::error::{AnalyticsError, Problem};
use crate::ga_client;
use crate::json;
use crate::json::{Json, Object, Tree};
use crate::report_args::{
    BatchRunReportItemArgs, ConversionSpecArgs, FunnelBreakdownArgs, FunnelNextActionArgs,
    FunnelStepArgs, FunnelVisualizationType, RunAccessReportAccountArgs,
    RunAccessReportPropertyArgs, RunConversionsReportArgs, RunFunnelReportArgs,
    RunPivotReportArgs, RunRealtimeReportArgs, RunReportArgs,
};
use crate::text;

verus! {

/// What the hash of a core report is taken of.
pub open spec fn report_signature(property: Seq<char>, args: RunReportArgs) -> Tree {
    Tree::Dict(
        json::fields()
            .push(("tool"@, Tree::Text("run_report"@)))
            .push(("property"@, Tree::Text(property)))
            .push(("date_ranges"@, Tree::List(json::trees(args.date_ranges@))))
            .push(("dimensions"@, json::text_list(text::texts(args.dimensions@))))
            .push(("metrics"@, json::text_list(text::texts(args.metrics@))))
            .push(("dimension_filter"@, json::opt_tree(json::opt_view(args.dimension_filter))))
            .push(("metric_filter"@, json::opt_tree(json::opt_view(args.metric_filter))))
            .push(("order_bys"@, json::opt_tree(json::opt_trees(args.order_bys))))
            .push(("currency_code"@, json::opt_text(text::opt_text(args.currency_code))))
            .push(("return_property_quota"@, Tree::Bool(args.return_property_quota))),
    )
}

/// The hash of a core report.
pub fn run_report_query_hash(args: &RunReportArgs) -> (r: Result<String, AnalyticsError>)
    ensures
        ga_client::text_result(r) == (match args.property_id.named() {
            Ok(property) => Ok(cursors::query_hash(report_signature(property, *args))),
            Err(problem) => Err(problem),
        }),
{
    let property: String = match args.property_id.to_resource_name() {
        Ok(property) => property,
        Err(err) => {
            return Err(err);
        },
    };
    let mut signature = Object::new();
    signature.put("tool", json::string("run_report"));
    signature.put("property", json::string(property.as_str()));
    signature.put("date_ranges", json::array(json::clone_values(args.date_ranges.as_slice())));
    signature.put("dimensions", json::strings(args.dimensions.as_slice()));
    signature.put("metrics", json::strings(args.metrics.as_slice()));
    signature.put("dimension_filter", json::copy_or_null(&args.dimension_filter));
    signature.put("metric_filter", json::copy_or_null(&args.metric_filter));
    signature.put("order_bys", json::copy_list_or_null(&args.order_bys));
    signature.put("currency_code", json::string_or_null(&args.currency_code));
    signature.put("return_property_quota", json::boolean(args.return_property_quota));
    cursors::stable_query_hash(&json::dict(signature))
}

/// What the hash of a realtime report is taken of.
pub open spec fn realtime_signature(property: Seq<char>, args: RunRealtimeReportArgs) -> Tree {
    Tree::Dict(
        json::fields()
            .push(("tool"@, Tree::Text("run_realtime_report"@)))
            .push(("property"@, Tree::Text(property)))
            .push(("dimensions"@, json::text_list(text::texts(args.dimensions@))))
            .push(("metrics"@, json::text_list(text::texts(args.metrics@))))
            .push(("dimension_filter"@, json::opt_tree(json::opt_view(args.dimension_filter))))
            .push(("metric_filter"@, json::opt_tree(json::opt_view(args.metric_filter))))
            .push(("order_bys"@, json::opt_tree(json::opt_trees(args.order_bys))))
            .push(("return_property_quota"@, Tree::Bool(args.return_property_quota))),
    )
}

/// The hash of a realtime report.
pub fn run_realtime_query_hash(args: &RunRealtimeReportArgs) -> (r: Result<String, AnalyticsError>)
    ensures
        ga_client::text_result(r) == (match args.property_id.named() {
            Ok(property) => Ok(cursors::query_hash(realtime_signature(property, *args))),
            Err(problem) => Err(problem),
        }),
{
    let property: String = match args.property_id.to_resource_name() {
        Ok(property) => property,
        Err(err) => {
            return Err(err);
        },
    };
    let mut signature = Object::new();
    signature.put("tool", json::string("run_realtime_report"));
    signature.put("property", json::string(property.as_str()));
    signature.put("dimensions", json::strings(args.dimensions.as_slice()));
    signature.put("metrics", json::strings(args.metrics.as_slice()));
    signature.put("dimension_filter", json::copy_or_null(&args.dimension_filter));
    signature.put("metric_filter", json::copy_or_null(&args.metric_filter));
    signature.put("order_bys", json::copy_list_or_null(&args.order_bys));
    signature.put("return_property_quota", json::boolean(args.return_property_quota));
    cursors::stable_query_hash(&json::dict(signature))
}

/// What the hash of a pivot report is taken of.
pub open spec fn pivot_signature(property: Seq<char>, args: RunPivotReportArgs) -> Tree {
    Tree::Dict(
        json::fields()
            .push(("tool"@, Tree::Text("run_pivot_report"@)))
            .push(("property"@, Tree::Text(property)))
            .push(("date_ranges"@, Tree::List(json::trees(args.date_ranges@))))
            .push(("dimensions"@, json::text_list(text::texts(args.dimensions@))))
            .push(("metrics"@, json::text_list(text::texts(args.metrics@))))
            .push(("pivots"@, Tree::List(json::trees(args.pivots@))))
            .push(("dimension_filter"@, json::opt_tree(json::opt_view(args.dimension_filter))))
            .push(("metric_filter"@, json::opt_tree(json::opt_view(args.metric_filter))))
            .push(("order_bys"@, json::opt_tree(json::opt_trees(args.order_bys))))
            .push(("currency_code"@, json::opt_text(text::opt_text(args.currency_code))))
            .push(("keep_empty_rows"@, Tree::Bool(args.keep_empty_rows)))
            .push(("return_property_quota"@, Tree::Bool(args.return_property_quota))),
    )
}

/// The hash of a pivot report.
pub fn run_pivot_query_hash(args: &RunPivotReportArgs) -> (r: Result<String, AnalyticsError>)
    ensures
        ga_client::text_result(r) == (match args.property_id.named() {
            Ok(property) => Ok(cursors::query_hash(pivot_signature(property, *args))),
            Err(problem) => Err(problem),
        }),
{
    let property: String = match args.property_id.to_resource_name() {
        Ok(property) => property,
        Err(err) => {
            return Err(err);
        },
    };
    let mut signature = Object::new();
    signature.put("tool", json::string("run_pivot_report"));
    signature.put("property", json::string(property.as_str()));
    signature.put("date_ranges", json::array(json::clone_values(args.date_ranges.as_slice())));
    signature.put("dimensions", json::strings(args.dimensions.as_slice()));
    signature.put("metrics", json::strings(args.metrics.as_slice()));
    signature.put("pivots", json::array(json::clone_values(args.pivots.as_slice())));
    signature.put("dimension_filter", json::copy_or_null(&args.dimension_filter));
    signature.put("metric_filter", json::copy_or_null(&args.metric_filter));
    signature.put("order_bys", json::copy_list_or_null(&args.order_bys));
    signature.put("currency_code", json::string_or_null(&args.currency_code));
    signature.put("keep_empty_rows", json::boolean(args.keep_empty_rows));
    signature.put("return_property_quota", json::boolean(args.return_property_quota));
    cursors::stable_query_hash(&json::dict(signature))
}

/// What the hash of an access report for a property is taken of.
pub open spec fn property_access_signature(property: Seq<char>, args: RunAccessReportPropertyArgs) -> Tree {
    Tree::Dict(
        json::fields()
            .push(("tool"@, Tree::Text("run_property_access_report"@)))
            .push(("property"@, Tree::Text(property)))
            .push(("date_ranges"@, Tree::List(json::trees(args.date_ranges@))))
            .push(("dimensions"@, json::text_list(text::texts(args.dimensions@))))
            .push(("metrics"@, json::text_list(text::texts(args.metrics@))))
            .push(("dimension_filter"@, json::opt_tree(json::opt_view(args.dimension_filter))))
            .push(("metric_filter"@, json::opt_tree(json::opt_view(args.metric_filter))))
            .push(("order_bys"@, json::opt_tree(json::opt_trees(args.order_bys))))
            .push(("time_zone"@, json::opt_text(text::opt_text(args.time_zone)))),
    )
}

/// The hash of an access report for a property.
pub fn run_property_access_query_hash(
    args: &RunAccessReportPropertyArgs,
) -> (r: Result<String, AnalyticsError>)
    ensures
        ga_client::text_result(r) == (match args.property_id.named() {
            Ok(property) => Ok(cursors::query_hash(property_access_signature(property, *args))),
            Err(problem) => Err(problem),
        }),
{
    let property: String = match args.property_id.to_resource_name() {
        Ok(property) => property,
        Err(err) => {
            return Err(err);
        },
    };
    let mut signature = Object::new();
    signature.put("tool", json::string("run_property_access_report"));
    signature.put("property", json::string(property.as_str()));
    signature.put("date_ranges", json::array(json::clone_values(args.date_ranges.as_slice())));
    signature.put("dimensions", json::strings(args.dimensions.as_slice()));
    signature.put("metrics", json::strings(args.metrics.as_slice()));
    signature.put("dimension_filter", json::copy_or_null(&args.dimension_filter));
    signature.put("metric_filter", json::copy_or_null(&args.metric_filter));
    signature.put("order_bys", json::copy_list_or_null(&args.order_bys));
    signature.put("time_zone", json::string_or_null(&args.time_zone));
    cursors::stable_query_hash(&json::dict(signature))
}

/// What the hash of an access report for an account is taken of.
pub open spec fn account_access_signature(account: Seq<char>, args: RunAccessReportAccountArgs) -> Tree {
    Tree::Dict(
        json::fields()
            .push(("tool"@, Tree::Text("run_account_access_report"@)))
            .push(("account"@, Tree::Text(account)))
            .push(("date_ranges"@, Tree::List(json::trees(args.date_ranges@))))
            .push(("dimensions"@, json::text_list(text::texts(args.dimensions@))))
            .push(("metrics"@, json::text_list(text::texts(args.metrics@))))
            .push(("dimension_filter"@, json::opt_tree(json::opt_view(args.dimension_filter))))
            .push(("metric_filter"@, json::opt_tree(json::opt_view(args.metric_filter))))
            .push(("order_bys"@, json::opt_tree(json::opt_trees(args.order_bys))))
            .push(("time_zone"@, json::opt_text(text::opt_text(args.time_zone)))),
    )
}

/// The hash of an access report for an account.
pub fn run_account_access_query_hash(
    args: &RunAccessReportAccountArgs,
) -> (r: Result<String, AnalyticsError>)
    ensures
        ga_client::text_result(r) == (match args.account_id.named() {
            Ok(account) => Ok(cursors::query_hash(account_access_signature(account, *args))),
            Err(problem) => Err(problem),
        }),
{
    let account: String = match args.account_id.to_resource_name() {
        Ok(account) => account,
        Err(err) => {
            return Err(err);
        },
    };
    let mut signature = Object::new();
    signature.put("tool", json::string("run_account_access_report"));
    signature.put("account", json::string(account.as_str()));
    signature.put("date_ranges", json::array(json::clone_values(args.date_ranges.as_slice())));
    signature.put("dimensions", json::strings(args.dimensions.as_slice()));
    signature.put("metrics", json::strings(args.metrics.as_slice()));
    signature.put("dimension_filter", json::copy_or_null(&args.dimension_filter));
    signature.put("metric_filter", json::copy_or_null(&args.metric_filter));
    signature.put("order_bys", json::copy_list_or_null(&args.order_bys));
    signature.put("time_zone", json::string_or_null(&args.time_zone));
    cursors::stable_query_hash(&json::dict(signature))
}

/// What the hash of a report of a batch is taken of.
pub open spec fn batch_item_signature(
    property: Seq<char>,
    index: usize,
    args: BatchRunReportItemArgs,
) -> Tree {
    Tree::Dict(
        json::fields()
            .push(("tool"@, Tree::Text("batch_run_reports"@)))
            .push(("property"@, Tree::Text(property)))
            .push(("index"@, Tree::Whole(index as int)))
            .push(("date_ranges"@, Tree::List(json::trees(args.date_ranges@))))
            .push(("dimensions"@, json::text_list(text::texts(args.dimensions@))))
            .push(("metrics"@, json::text_list(text::texts(args.metrics@))))
            .push(("dimension_filter"@, json::opt_tree(json::opt_view(args.dimension_filter))))
            .push(("metric_filter"@, json::opt_tree(json::opt_view(args.metric_filter))))
            .push(("order_bys"@, json::opt_tree(json::opt_trees(args.order_bys))))
            .push(("currency_code"@, json::opt_text(text::opt_text(args.currency_code))))
            .push(("return_property_quota"@, Tree::Bool(args.return_property_quota))),
    )
}

/// The hash of a report of a batch.
pub fn batch_run_report_query_hash(
    property: &str,
    index: usize,
    args: &BatchRunReportItemArgs,
) -> (r: Result<String, AnalyticsError>)
    ensures
        ga_client::text_result(r) == Ok::<Seq<char>, Problem>(
            cursors::query_hash(batch_item_signature(property@, index, *args)),
        ),
{
    let mut signature = Object::new();
    signature.put("tool", json::string("batch_run_reports"));
    signature.put("property", json::string(property));
    signature.put("index", json::size(index));
    signature.put("date_ranges", json::array(json::clone_values(args.date_ranges.as_slice())));
    signature.put("dimensions", json::strings(args.dimensions.as_slice()));
    signature.put("metrics", json::strings(args.metrics.as_slice()));
    signature.put("dimension_filter", json::copy_or_null(&args.dimension_filter));
    signature.put("metric_filter", json::copy_or_null(&args.metric_filter));
    signature.put("order_bys", json::copy_list_or_null(&args.order_bys));
    signature.put("currency_code", json::string_or_null(&args.currency_code));
    signature.put("return_property_quota", json::boolean(args.return_property_quota));
    cursors::stable_query_hash(&json::dict(signature))
}

// ---------------------------------------------------------------------------
// Conversion reports.
// ---------------------------------------------------------------------------

/// Each of `items` without white space at either end.
pub open spec fn trimmed_texts(items: Seq<Seq<char>>) -> Seq<Seq<char>> {
    Seq::new(items.len(), |i: int| text::trim(items[i]))
}

fn trimmed_all(items: &[String]) -> (r: Vec<String>)
    ensures
        text::texts(r@) == trimmed_texts(text::texts(items@)),
{
    let mut r: Vec<String> = Vec::new();
    for i in 0..items.len()
        invariant
            r@.len() == i,
            forall|j: int| 0 <= j < i ==> (#[trigger] r@[j])@ == text::trim(items@[j]@),
    {
        r.push(text::trimmed(items[i].as_str()));
    }
    assert(text::texts(r@) =~= trimmed_texts(text::texts(items@)));
    r
}

/// What the conversions of a report are, as the hash takes it.
pub open spec fn conversion_spec_tree(spec: ConversionSpecArgs) -> Tree {
    Tree::Dict(
        json::fields()
            .push(("conversion_actions"@, json::text_list(text::texts(spec.conversion_actions@))))
            .push(
                (
                    "attribution_model"@,
                    match spec.attribution_model {
                        Some(model) => Tree::Text(model.name()),
                        None => Tree::Null,
                    },
                ),
            ),
    )
}

fn conversion_spec_value(conversions: &ConversionSpecArgs) -> (r: Json)
    ensures
        r@ == conversion_spec_tree(*conversions),
{
    let mut object = Object::new();
    object.put("conversion_actions", json::strings(conversions.conversion_actions.as_slice()));
    object.put(
        "attribution_model",
        match conversions.attribution_model {
            Some(model) => json::string(model.as_str()),
            None => Json::Null,
        },
    );
    json::dict(object)
}

/// A text without white space at either end, where there is one.
pub open spec fn trimmed_option(item: Option<String>) -> Option<Seq<char>> {
    match item {
        Some(held) => Some(text::trim(held@)),
        None => None,
    }
}

/// What the hash of a conversion report is taken of, before its keys are in camel case.
pub open spec fn conversions_signature(property: Seq<char>, args: RunConversionsReportArgs) -> Tree {
    Tree::Dict(
        json::fields()
            .push(("tool"@, Tree::Text("run_conversions_report"@)))
            .push(("property"@, Tree::Text(property)))
            .push(("date_ranges"@, Tree::List(json::trees(args.date_ranges@))))
            .push(
                ("dimensions"@, json::text_list(trimmed_texts(text::texts(args.dimensions@)))),
            )
            .push(("metrics"@, json::text_list(trimmed_texts(text::texts(args.metrics@)))))
            .push(("conversion_spec"@, conversion_spec_tree(args.conversion_spec)))
            .push(("dimension_filter"@, json::opt_tree(json::opt_view(args.dimension_filter))))
            .push(("metric_filter"@, json::opt_tree(json::opt_view(args.metric_filter))))
            .push(("order_bys"@, json::opt_tree(json::opt_trees(args.order_bys))))
            .push(("currency_code"@, json::opt_text(trimmed_option(args.currency_code))))
            .push(("return_property_quota"@, Tree::Bool(args.return_property_quota))),
    )
}

/// The hash of a conversion report.
pub fn run_conversions_report_query_hash(args: &RunConversionsReportArgs) -> (r: Result<
    String,
    AnalyticsError,
>)
    ensures
        ga_client::text_result(r) == (match args.property_id.named() {
            Ok(property) => Ok(
                cursors::query_hash(
                    ga_client::camel_tree(conversions_signature(property, *args)),
                ),
            ),
            Err(problem) => Err(problem),
        }),
{
    let property: String = match args.property_id.to_resource_name() {
        Ok(property) => property,
        Err(err) => {
            return Err(err);
        },
    };
    let currency_code: Option<String> = match &args.currency_code {
        Some(code) => Some(text::trimmed(code.as_str())),
        None => None,
    };
    let mut signature = Object::new();
    signature.put("tool", json::string("run_conversions_report"));
    signature.put("property", json::string(property.as_str()));
    signature.put("date_ranges", json::array(json::clone_values(args.date_ranges.as_slice())));
    signature.put(
        "dimensions",
        json::strings(trimmed_all(args.dimensions.as_slice()).as_slice()),
    );
    signature.put("metrics", json::strings(trimmed_all(args.metrics.as_slice()).as_slice()));
    signature.put("conversion_spec", conversion_spec_value(&args.conversion_spec));
    signature.put("dimension_filter", json::copy_or_null(&args.dimension_filter));
    signature.put("metric_filter", json::copy_or_null(&args.metric_filter));
    signature.put("order_bys", json::copy_list_or_null(&args.order_bys));
    signature.put("currency_code", json::string_or_null(&currency_code));
    signature.put("return_property_quota", json::boolean(args.return_property_quota));
    cursors::stable_query_hash(&ga_client::snake_to_camel_json(&json::dict(signature)))
}

// ---------------------------------------------------------------------------
// Funnel reports.
// ---------------------------------------------------------------------------

/// The filter that an event must have a name.
pub open spec fn event_filter(event: Seq<char>) -> Tree {
    Tree::Dict(
        json::fields().push(
            (
                "funnel_event_filter"@,
                Tree::Dict(json::fields().push(("event_name"@, Tree::Text(event)))),
            ),
        ),
    )
}

/// A flag, where there is one.
pub open spec fn flag_tree(flag: Option<bool>) -> Option<Tree> {
    match flag {
        Some(b) => Some(Tree::Bool(b)),
        None => None,
    }
}

/// A text, where there is one.
pub open spec fn text_tree(held: Option<String>) -> Option<Tree> {
    match held {
        Some(t) => Some(Tree::Text(t@)),
        None => None,
    }
}

/// The entries of a funnel step that say how it follows the one before.
pub open spec fn step_order_entries(
    entries: Seq<(Seq<char>, Tree)>,
    step: FunnelStepArgs,
) -> Seq<(Seq<char>, Tree)> {
    json::optional_entry(
        json::optional_entry(
            entries,
            "is_directly_followed_by"@,
            flag_tree(step.is_directly_followed_by),
        ),
        "within_duration_from_prior_step"@,
        text_tree(step.within_duration_from_prior_step),
    )
}

/// A funnel step with a name, and with a filter in place of an event: the form that the
/// step is sent in.
pub open spec fn normal_step(step: FunnelStepArgs, index: int) -> Tree {
    let name = match step.name {
        Some(name) => name@,
        None => "Step "@ + text::decimal((index + 1) as nat),
    };
    let filter = match step.event {
        Some(event) => Some(event_filter(event@)),
        None => json::opt_view(step.filter_expression),
    };
    Tree::Dict(
        step_order_entries(
            json::optional_entry(
                json::fields().push(("name"@, Tree::Text(name))),
                "filter_expression"@,
                filter,
            ),
            step,
        ),
    )
}

/// A funnel step as the request gave it.
pub open spec fn plain_step(step: FunnelStepArgs) -> Tree {
    Tree::Dict(
        step_order_entries(
            json::optional_entry(
                json::optional_entry(
                    json::optional_entry(json::fields(), "name"@, text_tree(step.name)),
                    "event"@,
                    text_tree(step.event),
                ),
                "filter_expression"@,
                json::opt_view(step.filter_expression),
            ),
            step,
        ),
    )
}

fn event_filter_value(event: &str) -> (r: Json)
    ensures
        r@ == event_filter(event@),
{
    let mut inner = Object::new();
    inner.put("event_name", json::string(event));
    let mut outer = Object::new();
    outer.put("funnel_event_filter", json::dict(inner));
    json::dict(outer)
}

fn optional_string(held: &Option<String>) -> (r: Option<Json>)
    ensures
        json::opt_view(r) == text_tree(*held),
{
    match held {
        Some(t) => Some(json::string(t.as_str())),
        None => None,
    }
}

fn optional_copy(held: &Option<Json>) -> (r: Option<Json>)
    ensures
        json::opt_view(r) == json::opt_view(*held),
{
    match held {
        Some(value) => Some(value.clone()),
        None => None,
    }
}

fn put_step_order(object: &mut Object, step: &FunnelStepArgs)
    ensures
        final(object)@ == step_order_entries(old(object)@, *step),
{
    let flag: Option<Json> = match step.is_directly_followed_by {
        Some(b) => Some(json::boolean(b)),
        None => None,
    };
    object.put_some("is_directly_followed_by", flag);
    object.put_some(
        "within_duration_from_prior_step",
        optional_string(&step.within_duration_from_prior_step),
    );
}

/// The decimal numeral of the number behind `n`.
fn next_number(n: usize) -> (r: String)
    requires
        n < usize::MAX,
    ensures
        r@ == text::decimal((n + 1) as nat),
{
    text::decimal_text(n as u64 + 1)
}

/// A funnel step in the form that it is sent in.
pub fn normalize_funnel_step(step: &FunnelStepArgs, index: usize) -> (r: Json)
    requires
        index < usize::MAX,
    ensures
        r@ == normal_step(*step, index as int),
{
    let name: String = match &step.name {
        Some(name) => name.clone(),
        None => {
            let mut r: String = "Step ".to_owned();
            r.append(next_number(index).as_str());
            r
        },
    };
    let filter: Option<Json> = match &step.event {
        Some(event) => Some(event_filter_value(event.as_str())),
        None => optional_copy(&step.filter_expression),
    };
    let mut object = Object::new();
    object.put("name", json::string(name.as_str()));
    object.put_some("filter_expression", filter);
    put_step_order(&mut object, step);
    json::dict(object)
}

/// A funnel step as the request gave it.
pub fn funnel_step_value(step: &FunnelStepArgs) -> (r: Json)
    ensures
        r@ == plain_step(*step),
{
    let mut object = Object::new();
    object.put_some("name", optional_string(&step.name));
    object.put_some("event", optional_string(&step.event));
    object.put_some("filter_expression", optional_copy(&step.filter_expression));
    put_step_order(&mut object, step);
    json::dict(object)
}

/// The steps of a funnel in the form that they are sent in.
pub open spec fn normal_steps(steps: Seq<FunnelStepArgs>) -> Seq<Tree> {
    Seq::new(steps.len(), |i: int| normal_step(steps[i], i))
}

/// The steps of a funnel in the form that they are sent in.
pub fn normalize_funnel_steps(steps: &[FunnelStepArgs]) -> (r: Vec<Json>)
    ensures
        json::trees(r@) == normal_steps(steps@),
{
    let mut r: Vec<Json> = Vec::new();
    for i in 0..steps.len()
        invariant
            r@.len() == i,
            forall|j: int| 0 <= j < i ==> (#[trigger] r@[j])@ == normal_step(steps@[j], j),
    {
        r.push(normalize_funnel_step(&steps[i], i));
    }
    assert(json::trees(r@) =~= normal_steps(steps@));
    r
}

/// The breakdown of a funnel, as the hash takes it.
pub open spec fn breakdown_tree(breakdown: Option<FunnelBreakdownArgs>) -> Tree {
    match breakdown {
        Some(held) => Tree::Dict(
            json::fields()
                .push(("breakdown_dimension"@, Tree::Text(held.breakdown_dimension@)))
                .push(("limit"@, json::opt_whole(held.limit))),
        ),
        None => Tree::Null,
    }
}

/// The next action of a funnel, as the hash takes it.
pub open spec fn next_action_tree(next_action: Option<FunnelNextActionArgs>) -> Tree {
    match next_action {
        Some(held) => Tree::Dict(
            json::fields()
                .push(("next_action_dimension"@, Tree::Text(held.next_action_dimension@)))
                .push(("limit"@, json::opt_whole(held.limit))),
        ),
        None => Tree::Null,
    }
}

/// The visualization of a funnel, as the hash takes it.
pub open spec fn visualization_tree(visualization: Option<FunnelVisualizationType>) -> Tree {
    match visualization {
        Some(held) => Tree::Text(held.name()),
        None => Tree::Null,
    }
}

fn breakdown_value(breakdown: &Option<FunnelBreakdownArgs>) -> (r: Json)
    ensures
        r@ == breakdown_tree(*breakdown),
{
    match breakdown {
        Some(held) => {
            let mut object = Object::new();
            object.put("breakdown_dimension", json::string(held.breakdown_dimension.as_str()));
            object.put("limit", json::whole_or_null(held.limit));
            json::dict(object)
        },
        None => Json::Null,
    }
}

fn next_action_value(next_action: &Option<FunnelNextActionArgs>) -> (r: Json)
    ensures
        r@ == next_action_tree(*next_action),
{
    match next_action {
        Some(held) => {
            let mut object = Object::new();
            object.put("next_action_dimension", json::string(held.next_action_dimension.as_str()));
            object.put("limit", json::whole_or_null(held.limit));
            json::dict(object)
        },
        None => Json::Null,
    }
}

fn visualization_value(visualization: Option<FunnelVisualizationType>) -> (r: Json)
    ensures
        r@ == visualization_tree(visualization),
{
    match visualization {
        Some(held) => json::string(held.as_str()),
        None => Json::Null,
    }
}

/// What the hash of a funnel report is taken of, before its keys are in camel case.
pub open spec fn funnel_signature(property: Seq<char>, args: RunFunnelReportArgs) -> Tree {
    Tree::Dict(
        json::fields()
            .push(("tool"@, Tree::Text("run_funnel_report"@)))
            .push(("property"@, Tree::Text(property)))
            .push(("funnel_steps"@, Tree::List(normal_steps(args.funnel_steps@))))
            .push(("is_open_funnel"@, Tree::Bool(args.is_open_funnel)))
            .push(("date_ranges"@, Tree::List(json::trees(args.date_ranges@))))
            .push(("funnel_breakdown"@, breakdown_tree(args.funnel_breakdown)))
            .push(("funnel_next_action"@, next_action_tree(args.funnel_next_action)))
            .push(
                ("funnel_visualization_type"@, visualization_tree(args.funnel_visualization_type)),
            )
            .push(("segments"@, json::opt_tree(json::opt_trees(args.segments))))
            .push(("dimension_filter"@, json::opt_tree(json::opt_view(args.dimension_filter))))
            .push(("return_property_quota"@, Tree::Bool(args.return_property_quota))),
    )
}

/// The hash of a funnel report.
pub fn run_funnel_report_query_hash(args: &RunFunnelReportArgs) -> (r: Result<
    String,
    AnalyticsError,
>)
    ensures
        ga_client::text_result(r) == (match args.property_id.named() {
            Ok(property) => Ok(
                cursors::query_hash(ga_client::camel_tree(funnel_signature(property, *args))),
            ),
            Err(problem) => Err(problem),
        }),
{
    let property: String = match args.property_id.to_resource_name() {
        Ok(property) => property,
        Err(err) => {
            return Err(err);
        },
    };
    let mut signature = Object::new();
    signature.put("tool", json::string("run_funnel_report"));
    signature.put("property", json::string(property.as_str()));
    signature.put(
        "funnel_steps",
        json::array(normalize_funnel_steps(args.funnel_steps.as_slice())),
    );
    signature.put("is_open_funnel", json::boolean(args.is_open_funnel));
    signature.put("date_ranges", json::array(json::clone_values(args.date_ranges.as_slice())));
    signature.put("funnel_breakdown", breakdown_value(&args.funnel_breakdown));
    signature.put("funnel_next_action", next_action_value(&args.funnel_next_action));
    signature.put(
        "funnel_visualization_type",
        visualization_value(args.funnel_visualization_type),
    );
    signature.put("segments", json::copy_list_or_null(&args.segments));
    signature.put("dimension_filter", json::copy_or_null(&args.dimension_filter));
    signature.put("return_property_quota", json::boolean(args.return_property_quota));
    cursors::stable_query_hash(&ga_client::snake_to_camel_json(&json::dict(signature)))
}

/// A step that names an event is the step that filters for that event.
pub proof fn law_event_shorthand(
    step: FunnelStepArgs,
    event: String,
    filter: Json,
    index: int,
)
    requires
        filter@ == event_filter(event@),
    ensures
        normal_step(FunnelStepArgs { event: Some(event), filter_expression: None, ..step }, index)
            == normal_step(
            FunnelStepArgs { event: None, filter_expression: Some(filter), ..step },
            index,
        ),
{
}

/// The hash of a report is taken of what it asks for, each part under its own name.
pub proof fn law_reports_are_hashed_by_what_they_ask(property: Seq<char>, args: RunReportArgs)
    ensures
        report_signature(property, args).field("tool"@) == Some(Tree::Text("run_report"@)),
        report_signature(property, args).field("property"@) == Some(Tree::Text(property)),
        report_signature(property, args).field("date_ranges"@)
            == Some(Tree::List(json::trees(args.date_ranges@))),
        report_signature(property, args).field("dimensions"@)
            == Some(
                Tree::List(
                    Seq::new(args.dimensions@.len(), |i: int| Tree::Text(args.dimensions@[i]@)),
                ),
            ),
        report_signature(property, args).field("metrics"@)
            == Some(
                Tree::List(Seq::new(args.metrics@.len(), |i: int| Tree::Text(args.metrics@[i]@))),
            ),
        report_signature(property, args).field("dimension_filter"@)
            == Some(match args.dimension_filter { Some(filter) => filter@, None => Tree::Null, }),
        report_signature(property, args).field("metric_filter"@)
            == Some(match args.metric_filter { Some(filter) => filter@, None => Tree::Null, }),
        report_signature(property, args).field("order_bys"@)
            == Some(
                match args.order_bys {
                    Some(orders) => Tree::List(json::trees(orders@)),
                    None => Tree::Null,
                },
            ),
        report_signature(property, args).field("currency_code"@)
            == Some(
                match args.currency_code { Some(code) => Tree::Text(code@), None => Tree::Null, },
            ),
        report_signature(property, args).field("return_property_quota"@)
            == Some(Tree::Bool(args.return_property_quota)),
{
    broadcast use json::group_found;

    assert(json::text_list(text::texts(args.dimensions@))->List_0 =~= Seq::new(
        args.dimensions@.len(),
        |i: int| Tree::Text(args.dimensions@[i]@),
    ));
    assert(json::text_list(text::texts(args.metrics@))->List_0 =~= Seq::new(
        args.metrics@.len(),
        |i: int| Tree::Text(args.metrics@[i]@),
    ));
    reveal_strlit("tool");
    assert("tool"@.len() == 4);
    reveal_strlit("property");
    assert("property"@.len() == 8);
    reveal_strlit("date_ranges");
    assert("date_ranges"@.len() == 11);
    reveal_strlit("dimensions");
    assert("dimensions"@.len() == 10);
    reveal_strlit("metrics");
    assert("metrics"@.len() == 7);
    reveal_strlit("dimension_filter");
    assert("dimension_filter"@.len() == 16);
    reveal_strlit("metric_filter");
    assert("metric_filter"@.len() == 13);
    reveal_strlit("order_bys");
    assert("order_bys"@.len() == 9);
    reveal_strlit("currency_code");
    assert("currency_code"@.len() == 13);
    reveal_strlit("return_property_quota");
    assert("return_property_quota"@.len() == 21);
    assert("metric_filter"@[0] != "currency_code"@[0]);
}

/// The hash of a realtime report is taken of what it asks for, each part under its own name.
pub proof fn law_realtime_reports_are_hashed_by_what_they_ask(
    property: Seq<char>,
    args: RunRealtimeReportArgs,
)
    ensures
        realtime_signature(property, args).field("tool"@)
            == Some(Tree::Text("run_realtime_report"@)),
        realtime_signature(property, args).field("property"@) == Some(Tree::Text(property)),
        realtime_signature(property, args).field("dimensions"@)
            == Some(
                Tree::List(
                    Seq::new(args.dimensions@.len(), |i: int| Tree::Text(args.dimensions@[i]@)),
                ),
            ),
        realtime_signature(property, args).field("metrics"@)
            == Some(
                Tree::List(Seq::new(args.metrics@.len(), |i: int| Tree::Text(args.metrics@[i]@))),
            ),
        realtime_signature(property, args).field("dimension_filter"@)
            == Some(match args.dimension_filter { Some(filter) => filter@, None => Tree::Null, }),
        realtime_signature(property, args).field("metric_filter"@)
            == Some(match args.metric_filter { Some(filter) => filter@, None => Tree::Null, }),
        realtime_signature(property, args).field("order_bys"@)
            == Some(
                match args.order_bys {
                    Some(orders) => Tree::List(json::trees(orders@)),
                    None => Tree::Null,
                },
            ),
        realtime_signature(property, args).field("return_property_quota"@)
            == Some(Tree::Bool(args.return_property_quota)),
{
    broadcast use json::group_found;

    assert(json::text_list(text::texts(args.dimensions@))->List_0 =~= Seq::new(
        args.dimensions@.len(),
        |i: int| Tree::Text(args.dimensions@[i]@),
    ));
    assert(json::text_list(text::texts(args.metrics@))->List_0 =~= Seq::new(
        args.metrics@.len(),
        |i: int| Tree::Text(args.metrics@[i]@),
    ));
    reveal_strlit("tool");
    assert("tool"@.len() == 4);
    reveal_strlit("property");
    assert("property"@.len() == 8);
    reveal_strlit("dimensions");
    assert("dimensions"@.len() == 10);
    reveal_strlit("metrics");
    assert("metrics"@.len() == 7);
    reveal_strlit("dimension_filter");
    assert("dimension_filter"@.len() == 16);
    reveal_strlit("metric_filter");
    assert("metric_filter"@.len() == 13);
    reveal_strlit("order_bys");
    assert("order_bys"@.len() == 9);
    reveal_strlit("return_property_quota");
    assert("return_property_quota"@.len() == 21);
}

/// The hash of a pivot report is taken of what it asks for, each part under its own name.
pub proof fn law_pivot_reports_are_hashed_by_what_they_ask(
    property: Seq<char>,
    args: RunPivotReportArgs,
)
    ensures
        pivot_signature(property, args).field("tool"@) == Some(Tree::Text("run_pivot_report"@)),
        pivot_signature(property, args).field("property"@) == Some(Tree::Text(property)),
        pivot_signature(property, args).field("date_ranges"@)
            == Some(Tree::List(json::trees(args.date_ranges@))),
        pivot_signature(property, args).field("dimensions"@)
            == Some(
                Tree::List(
                    Seq::new(args.dimensions@.len(), |i: int| Tree::Text(args.dimensions@[i]@)),
                ),
            ),
        pivot_signature(property, args).field("metrics"@)
            == Some(
                Tree::List(Seq::new(args.metrics@.len(), |i: int| Tree::Text(args.metrics@[i]@))),
            ),
        pivot_signature(property, args).field("pivots"@)
            == Some(Tree::List(json::trees(args.pivots@))),
        pivot_signature(property, args).field("dimension_filter"@)
            == Some(match args.dimension_filter { Some(filter) => filter@, None => Tree::Null, }),
        pivot_signature(property, args).field("metric_filter"@)
            == Some(match args.metric_filter { Some(filter) => filter@, None => Tree::Null, }),
        pivot_signature(property, args).field("order_bys"@)
            == Some(
                match args.order_bys {
                    Some(orders) => Tree::List(json::trees(orders@)),
                    None => Tree::Null,
                },
            ),
        pivot_signature(property, args).field("currency_code"@)
            == Some(
                match args.currency_code { Some(code) => Tree::Text(code@), None => Tree::Null, },
            ),
        pivot_signature(property, args).field("keep_empty_rows"@)
            == Some(Tree::Bool(args.keep_empty_rows)),
        pivot_signature(property, args).field("return_property_quota"@)
            == Some(Tree::Bool(args.return_property_quota)),
{
    broadcast use json::group_found;

    assert(json::text_list(text::texts(args.dimensions@))->List_0 =~= Seq::new(
        args.dimensions@.len(),
        |i: int| Tree::Text(args.dimensions@[i]@),
    ));
    assert(json::text_list(text::texts(args.metrics@))->List_0 =~= Seq::new(
        args.metrics@.len(),
        |i: int| Tree::Text(args.metrics@[i]@),
    ));
    reveal_strlit("tool");
    assert("tool"@.len() == 4);
    reveal_strlit("property");
    assert("property"@.len() == 8);
    reveal_strlit("date_ranges");
    assert("date_ranges"@.len() == 11);
    reveal_strlit("dimensions");
    assert("dimensions"@.len() == 10);
    reveal_strlit("metrics");
    assert("metrics"@.len() == 7);
    reveal_strlit("pivots");
    assert("pivots"@.len() == 6);
    reveal_strlit("dimension_filter");
    assert("dimension_filter"@.len() == 16);
    reveal_strlit("metric_filter");
    assert("metric_filter"@.len() == 13);
    reveal_strlit("order_bys");
    assert("order_bys"@.len() == 9);
    reveal_strlit("currency_code");
    assert("currency_code"@.len() == 13);
    reveal_strlit("keep_empty_rows");
    assert("keep_empty_rows"@.len() == 15);
    reveal_strlit("return_property_quota");
    assert("return_property_quota"@.len() == 21);
    assert("metric_filter"@[0] != "currency_code"@[0]);
}

/// The hash of an access report on a property is taken of what it asks for, each part under its
/// own name.
pub proof fn law_property_access_reports_are_hashed_by_what_they_ask(
    property: Seq<char>,
    args: RunAccessReportPropertyArgs,
)
    ensures
        property_access_signature(property, args).field("tool"@)
            == Some(Tree::Text("run_property_access_report"@)),
        property_access_signature(property, args).field("property"@) == Some(Tree::Text(property)),
        property_access_signature(property, args).field("date_ranges"@)
            == Some(Tree::List(json::trees(args.date_ranges@))),
        property_access_signature(property, args).field("dimensions"@)
            == Some(
                Tree::List(
                    Seq::new(args.dimensions@.len(), |i: int| Tree::Text(args.dimensions@[i]@)),
                ),
            ),
        property_access_signature(property, args).field("metrics"@)
            == Some(
                Tree::List(Seq::new(args.metrics@.len(), |i: int| Tree::Text(args.metrics@[i]@))),
            ),
        property_access_signature(property, args).field("dimension_filter"@)
            == Some(match args.dimension_filter { Some(filter) => filter@, None => Tree::Null, }),
        property_access_signature(property, args).field("metric_filter"@)
            == Some(match args.metric_filter { Some(filter) => filter@, None => Tree::Null, }),
        property_access_signature(property, args).field("order_bys"@)
            == Some(
                match args.order_bys {
                    Some(orders) => Tree::List(json::trees(orders@)),
                    None => Tree::Null,
                },
            ),
        property_access_signature(property, args).field("time_zone"@)
            == Some(match args.time_zone { Some(zone) => Tree::Text(zone@), None => Tree::Null, }),
{
    broadcast use json::group_found;

    assert(json::text_list(text::texts(args.dimensions@))->List_0 =~= Seq::new(
        args.dimensions@.len(),
        |i: int| Tree::Text(args.dimensions@[i]@),
    ));
    assert(json::text_list(text::texts(args.metrics@))->List_0 =~= Seq::new(
        args.metrics@.len(),
        |i: int| Tree::Text(args.metrics@[i]@),
    ));
    reveal_strlit("tool");
    assert("tool"@.len() == 4);
    reveal_strlit("property");
    assert("property"@.len() == 8);
    reveal_strlit("date_ranges");
    assert("date_ranges"@.len() == 11);
    reveal_strlit("dimensions");
    assert("dimensions"@.len() == 10);
    reveal_strlit("metrics");
    assert("metrics"@.len() == 7);
    reveal_strlit("dimension_filter");
    assert("dimension_filter"@.len() == 16);
    reveal_strlit("metric_filter");
    assert("metric_filter"@.len() == 13);
    reveal_strlit("order_bys");
    assert("order_bys"@.len() == 9);
    reveal_strlit("time_zone");
    assert("time_zone"@.len() == 9);
    assert("order_bys"@[0] != "time_zone"@[0]);
}

/// The hash of an access report on an account is taken of what it asks for, each part under its
/// own name.
pub proof fn law_account_access_reports_are_hashed_by_what_they_ask(
    account: Seq<char>,
    args: RunAccessReportAccountArgs,
)
    ensures
        account_access_signature(account, args).field("tool"@)
            == Some(Tree::Text("run_account_access_report"@)),
        account_access_signature(account, args).field("account"@) == Some(Tree::Text(account)),
        account_access_signature(account, args).field("date_ranges"@)
            == Some(Tree::List(json::trees(args.date_ranges@))),
        account_access_signature(account, args).field("dimensions"@)
            == Some(
                Tree::List(
                    Seq::new(args.dimensions@.len(), |i: int| Tree::Text(args.dimensions@[i]@)),
                ),
            ),
        account_access_signature(account, args).field("metrics"@)
            == Some(
                Tree::List(Seq::new(args.metrics@.len(), |i: int| Tree::Text(args.metrics@[i]@))),
            ),
        account_access_signature(account, args).field("dimension_filter"@)
            == Some(match args.dimension_filter { Some(filter) => filter@, None => Tree::Null, }),
        account_access_signature(account, args).field("metric_filter"@)
            == Some(match args.metric_filter { Some(filter) => filter@, None => Tree::Null, }),
        account_access_signature(account, args).field("order_bys"@)
            == Some(
                match args.order_bys {
                    Some(orders) => Tree::List(json::trees(orders@)),
                    None => Tree::Null,
                },
            ),
        account_access_signature(account, args).field("time_zone"@)
            == Some(match args.time_zone { Some(zone) => Tree::Text(zone@), None => Tree::Null, }),
{
    broadcast use json::group_found;

    assert(json::text_list(text::texts(args.dimensions@))->List_0 =~= Seq::new(
        args.dimensions@.len(),
        |i: int| Tree::Text(args.dimensions@[i]@),
    ));
    assert(json::text_list(text::texts(args.metrics@))->List_0 =~= Seq::new(
        args.metrics@.len(),
        |i: int| Tree::Text(args.metrics@[i]@),
    ));
    reveal_strlit("tool");
    assert("tool"@.len() == 4);
    reveal_strlit("account");
    assert("account"@.len() == 7);
    reveal_strlit("date_ranges");
    assert("date_ranges"@.len() == 11);
    reveal_strlit("dimensions");
    assert("dimensions"@.len() == 10);
    reveal_strlit("metrics");
    assert("metrics"@.len() == 7);
    reveal_strlit("dimension_filter");
    assert("dimension_filter"@.len() == 16);
    reveal_strlit("metric_filter");
    assert("metric_filter"@.len() == 13);
    reveal_strlit("order_bys");
    assert("order_bys"@.len() == 9);
    reveal_strlit("time_zone");
    assert("time_zone"@.len() == 9);
    assert("account"@[0] != "metrics"@[0]);
    assert("order_bys"@[0] != "time_zone"@[0]);
}

/// The hash of a report in a batch is taken of its place in the batch and of what it asks for.
pub proof fn law_batch_items_are_hashed_by_what_they_ask(
    property: Seq<char>,
    index: usize,
    args: BatchRunReportItemArgs,
)
    ensures
        batch_item_signature(property, index, args).field("tool"@)
            == Some(Tree::Text("batch_run_reports"@)),
        batch_item_signature(property, index, args).field("property"@)
            == Some(Tree::Text(property)),
        batch_item_signature(property, index, args).field("index"@)
            == Some(Tree::Whole(index as int)),
        batch_item_signature(property, index, args).field("date_ranges"@)
            == Some(Tree::List(json::trees(args.date_ranges@))),
        batch_item_signature(property, index, args).field("dimensions"@)
            == Some(
                Tree::List(
                    Seq::new(args.dimensions@.len(), |i: int| Tree::Text(args.dimensions@[i]@)),
                ),
            ),
        batch_item_signature(property, index, args).field("metrics"@)
            == Some(
                Tree::List(Seq::new(args.metrics@.len(), |i: int| Tree::Text(args.metrics@[i]@))),
            ),
        batch_item_signature(property, index, args).field("dimension_filter"@)
            == Some(match args.dimension_filter { Some(filter) => filter@, None => Tree::Null, }),
        batch_item_signature(property, index, args).field("metric_filter"@)
            == Some(match args.metric_filter { Some(filter) => filter@, None => Tree::Null, }),
        batch_item_signature(property, index, args).field("order_bys"@)
            == Some(
                match args.order_bys {
                    Some(orders) => Tree::List(json::trees(orders@)),
                    None => Tree::Null,
                },
            ),
        batch_item_signature(property, index, args).field("currency_code"@)
            == Some(
                match args.currency_code { Some(code) => Tree::Text(code@), None => Tree::Null, },
            ),
        batch_item_signature(property, index, args).field("return_property_quota"@)
            == Some(Tree::Bool(args.return_property_quota)),
{
    broadcast use json::group_found;

    assert(json::text_list(text::texts(args.dimensions@))->List_0 =~= Seq::new(
        args.dimensions@.len(),
        |i: int| Tree::Text(args.dimensions@[i]@),
    ));
    assert(json::text_list(text::texts(args.metrics@))->List_0 =~= Seq::new(
        args.metrics@.len(),
        |i: int| Tree::Text(args.metrics@[i]@),
    ));
    reveal_strlit("tool");
    assert("tool"@.len() == 4);
    reveal_strlit("property");
    assert("property"@.len() == 8);
    reveal_strlit("index");
    assert("index"@.len() == 5);
    reveal_strlit("date_ranges");
    assert("date_ranges"@.len() == 11);
    reveal_strlit("dimensions");
    assert("dimensions"@.len() == 10);
    reveal_strlit("metrics");
    assert("metrics"@.len() == 7);
    reveal_strlit("dimension_filter");
    assert("dimension_filter"@.len() == 16);
    reveal_strlit("metric_filter");
    assert("metric_filter"@.len() == 13);
    reveal_strlit("order_bys");
    assert("order_bys"@.len() == 9);
    reveal_strlit("currency_code");
    assert("currency_code"@.len() == 13);
    reveal_strlit("return_property_quota");
    assert("return_property_quota"@.len() == 21);
    assert("metric_filter"@[0] != "currency_code"@[0]);
}

/// The hash of a report of conversions is taken of what it asks for, with the white space around
/// its names left out.
pub proof fn law_conversion_reports_are_hashed_by_what_they_ask(
    property: Seq<char>,
    args: RunConversionsReportArgs,
)
    ensures
        conversions_signature(property, args).field("tool"@)
            == Some(Tree::Text("run_conversions_report"@)),
        conversions_signature(property, args).field("property"@) == Some(Tree::Text(property)),
        conversions_signature(property, args).field("date_ranges"@)
            == Some(Tree::List(json::trees(args.date_ranges@))),
        conversions_signature(property, args).field("dimensions"@)
            == Some(
                Tree::List(
                    Seq::new(
                        args.dimensions@.len(),
                        |i: int| Tree::Text(text::trim(args.dimensions@[i]@)),
                    ),
                ),
            ),
        conversions_signature(property, args).field("metrics"@)
            == Some(
                Tree::List(
                    Seq::new(
                        args.metrics@.len(),
                        |i: int| Tree::Text(text::trim(args.metrics@[i]@)),
                    ),
                ),
            ),
        conversions_signature(property, args).field("dimension_filter"@)
            == Some(match args.dimension_filter { Some(filter) => filter@, None => Tree::Null, }),
        conversions_signature(property, args).field("metric_filter"@)
            == Some(match args.metric_filter { Some(filter) => filter@, None => Tree::Null, }),
        conversions_signature(property, args).field("order_bys"@)
            == Some(
                match args.order_bys {
                    Some(orders) => Tree::List(json::trees(orders@)),
                    None => Tree::Null,
                },
            ),
        conversions_signature(property, args).field("currency_code"@)
            == Some(
                match args.currency_code {
                    Some(code) => Tree::Text(text::trim(code@)),
                    None => Tree::Null,
                },
            ),
        conversions_signature(property, args).field("return_property_quota"@)
            == Some(Tree::Bool(args.return_property_quota)),
{
    broadcast use json::group_found;

    assert(json::text_list(trimmed_texts(text::texts(args.dimensions@)))->List_0 =~= Seq::new(
        args.dimensions@.len(),
        |i: int| Tree::Text(text::trim(args.dimensions@[i]@)),
    ));
    assert(json::text_list(trimmed_texts(text::texts(args.metrics@)))->List_0 =~= Seq::new(
        args.metrics@.len(),
        |i: int| Tree::Text(text::trim(args.metrics@[i]@)),
    ));
    reveal_strlit("tool");
    assert("tool"@.len() == 4);
    reveal_strlit("property");
    assert("property"@.len() == 8);
    reveal_strlit("date_ranges");
    assert("date_ranges"@.len() == 11);
    reveal_strlit("dimensions");
    assert("dimensions"@.len() == 10);
    reveal_strlit("metrics");
    assert("metrics"@.len() == 7);
    reveal_strlit("dimension_filter");
    assert("dimension_filter"@.len() == 16);
    reveal_strlit("metric_filter");
    assert("metric_filter"@.len() == 13);
    reveal_strlit("order_bys");
    assert("order_bys"@.len() == 9);
    reveal_strlit("currency_code");
    assert("currency_code"@.len() == 13);
    reveal_strlit("return_property_quota");
    assert("return_property_quota"@.len() == 21);
    reveal_strlit("conversion_spec");
    assert("conversion_spec"@.len() == 15);
    assert("metric_filter"@[0] != "currency_code"@[0]);
}

/// The hash of a funnel is taken of what it asks for, each part under its own name.
pub proof fn law_funnel_reports_are_hashed_by_what_they_ask(
    property: Seq<char>,
    args: RunFunnelReportArgs,
)
    ensures
        funnel_signature(property, args).field("tool"@) == Some(Tree::Text("run_funnel_report"@)),
        funnel_signature(property, args).field("property"@) == Some(Tree::Text(property)),
        funnel_signature(property, args).field("funnel_steps"@)
            == Some(
                Tree::List(
                    Seq::new(
                        args.funnel_steps@.len(),
                        |i: int| normal_step(args.funnel_steps@[i], i),
                    ),
                ),
            ),
        funnel_signature(property, args).field("is_open_funnel"@)
            == Some(Tree::Bool(args.is_open_funnel)),
        funnel_signature(property, args).field("date_ranges"@)
            == Some(Tree::List(json::trees(args.date_ranges@))),
        funnel_signature(property, args).field("funnel_visualization_type"@)
            == Some(
                match args.funnel_visualization_type {
                    Some(FunnelVisualizationType::StandardFunnel) => Tree::Text("STANDARD_FUNNEL"@),
                    Some(FunnelVisualizationType::TrendedFunnel) => Tree::Text("TRENDED_FUNNEL"@),
                    None => Tree::Null,
                },
            ),
        funnel_signature(property, args).field("segments"@)
            == Some(
                match args.segments {
                    Some(segments) => Tree::List(json::trees(segments@)),
                    None => Tree::Null,
                },
            ),
        funnel_signature(property, args).field("dimension_filter"@)
            == Some(match args.dimension_filter { Some(filter) => filter@, None => Tree::Null, }),
        funnel_signature(property, args).field("return_property_quota"@)
            == Some(Tree::Bool(args.return_property_quota)),
{
    broadcast use json::group_found;

    reveal_strlit("tool");
    assert("tool"@.len() == 4);
    reveal_strlit("property");
    assert("property"@.len() == 8);
    reveal_strlit("funnel_steps");
    assert("funnel_steps"@.len() == 12);
    reveal_strlit("is_open_funnel");
    assert("is_open_funnel"@.len() == 14);
    reveal_strlit("date_ranges");
    assert("date_ranges"@.len() == 11);
    reveal_strlit("funnel_visualization_type");
    assert("funnel_visualization_type"@.len() == 25);
    reveal_strlit("segments");
    assert("segments"@.len() == 8);
    reveal_strlit("dimension_filter");
    assert("dimension_filter"@.len() == 16);
    reveal_strlit("return_property_quota");
    assert("return_property_quota"@.len() == 21);
    reveal_strlit("funnel_breakdown");
    assert("funnel_breakdown"@.len() == 16);
    reveal_strlit("funnel_next_action");
    assert("funnel_next_action"@.len() == 18);
    assert("property"@[0] != "segments"@[0]);
    assert("dimension_filter"@[0] != "funnel_breakdown"@[0]);
}

/// What conversions are asked for, and what a funnel is broken down by, count for the hash too.
pub proof fn law_hashes_count_the_parts(
    property: Seq<char>,
    conversions: RunConversionsReportArgs,
    funnel: RunFunnelReportArgs,
)
    ensures
        conversions_signature(property, conversions).field("conversion_spec"@) matches Some(spec)
            && spec.field("conversion_actions"@) == Some(
            Tree::List(
                Seq::new(
                    conversions.conversion_spec.conversion_actions@.len(),
                    |i: int| Tree::Text(conversions.conversion_spec.conversion_actions@[i]@),
                ),
            ),
        ) && spec.field("attribution_model"@) == Some(
            match conversions.conversion_spec.attribution_model {
                Some(
                    crate::report_args::AttributionModel::DataDriven,
                ) => Tree::Text("DATA_DRIVEN"@),
                Some(crate::report_args::AttributionModel::LastClick) => Tree::Text("LAST_CLICK"@),
                None => Tree::Null,
            },
        ),
        funnel_signature(property, funnel).field("funnel_breakdown"@) matches Some(breakdown) && (
        match funnel.funnel_breakdown {
            Some(held) => breakdown.field("breakdown_dimension"@) == Some(
                Tree::Text(held.breakdown_dimension@),
            ) && breakdown.field("limit"@) == Some(
                match held.limit {
                    Some(n) => Tree::Whole(n as int),
                    None => Tree::Null,
                },
            ),
            None => breakdown == Tree::Null,
        }),
        funnel_signature(property, funnel).field("funnel_next_action"@) matches Some(action) && (
        match funnel.funnel_next_action {
            Some(held) => action.field("next_action_dimension"@) == Some(
                Tree::Text(held.next_action_dimension@),
            ) && action.field("limit"@) == Some(
                match held.limit {
                    Some(n) => Tree::Whole(n as int),
                    None => Tree::Null,
                },
            ),
            None => action == Tree::Null,
        }),
{
    broadcast use json::group_found;

    assert(json::text_list(text::texts(conversions.conversion_spec.conversion_actions@))->List_0 =~= Seq::new(
        conversions.conversion_spec.conversion_actions@.len(),
        |i: int| Tree::Text(conversions.conversion_spec.conversion_actions@[i]@),
    ));
    reveal_strlit("tool");
    assert("tool"@.len() == 4);
    reveal_strlit("property");
    assert("property"@.len() == 8);
    reveal_strlit("date_ranges");
    assert("date_ranges"@.len() == 11);
    reveal_strlit("dimensions");
    assert("dimensions"@.len() == 10);
    reveal_strlit("metrics");
    assert("metrics"@.len() == 7);
    reveal_strlit("conversion_spec");
    assert("conversion_spec"@.len() == 15);
    reveal_strlit("dimension_filter");
    assert("dimension_filter"@.len() == 16);
    reveal_strlit("metric_filter");
    assert("metric_filter"@.len() == 13);
    reveal_strlit("order_bys");
    assert("order_bys"@.len() == 9);
    reveal_strlit("currency_code");
    assert("currency_code"@.len() == 13);
    reveal_strlit("return_property_quota");
    assert("return_property_quota"@.len() == 21);
    reveal_strlit("conversion_actions");
    assert("conversion_actions"@.len() == 18);
    reveal_strlit("attribution_model");
    assert("attribution_model"@.len() == 17);
    reveal_strlit("funnel_steps");
    assert("funnel_steps"@.len() == 12);
    reveal_strlit("is_open_funnel");
    assert("is_open_funnel"@.len() == 14);
    reveal_strlit("funnel_breakdown");
    assert("funnel_breakdown"@.len() == 16);
    reveal_strlit("funnel_next_action");
    assert("funnel_next_action"@.len() == 18);
    reveal_strlit("funnel_visualization_type");
    assert("funnel_visualization_type"@.len() == 25);
    reveal_strlit("segments");
    assert("segments"@.len() == 8);
    reveal_strlit("breakdown_dimension");
    assert("breakdown_dimension"@.len() == 19);
    reveal_strlit("next_action_dimension");
    assert("next_action_dimension"@.len() == 21);
    reveal_strlit("limit");
    assert("limit"@.len() == 5);
    assert("property"@[0] != "segments"@[0]);
    assert("dimension_filter"@[0] != "funnel_breakdown"@[0]);
    assert("metric_filter"@[0] != "currency_code"@[0]);
    assert("return_property_quota"@[0] != "next_action_dimension"@[0]);
    assert("conversion_actions"@[0] != "funnel_next_action"@[0]);
}

/// A step of a funnel is sent with its name, or with its number where it has none; with its
/// filter, or with one for its event; and with what it says of the step before it.
pub proof fn law_steps_say_what_they_ask(step: FunnelStepArgs, index: int)
    requires
        index >= 0,
    ensures
        normal_step(step, index).field("name"@) == Some(
            Tree::Text(
                match step.name {
                    Some(name) => name@,
                    None => "Step "@ + text::decimal((index + 1) as nat),
                },
            ),
        ),
        step.event matches Some(event) ==> (normal_step(step, index).field(
            "filter_expression"@,
        ) matches Some(filter) && (filter.field("funnel_event_filter"@) matches Some(asked)
            && asked.field("event_name"@) == Some(Tree::Text(event@)))),
        step.event is None ==> normal_step(step, index).field("filter_expression"@) == (
        match step.filter_expression {
            Some(filter) => Some(filter@),
            None => None,
        }),
        normal_step(step, index).field("is_directly_followed_by"@) == (
        match step.is_directly_followed_by {
            Some(flag) => Some(Tree::Bool(flag)),
            None => None,
        }),
        normal_step(step, index).field("within_duration_from_prior_step"@) == (
        match step.within_duration_from_prior_step {
            Some(duration) => Some(Tree::Text(duration@)),
            None => None,
        }),
        plain_step(step).field("name"@) == (match step.name {
            Some(name) => Some(Tree::Text(name@)),
            None => None,
        }),
        plain_step(step).field("event"@) == (match step.event {
            Some(event) => Some(Tree::Text(event@)),
            None => None,
        }),
        plain_step(step).field("filter_expression"@) == (match step.filter_expression {
            Some(filter) => Some(filter@),
            None => None,
        }),
        plain_step(step).field("is_directly_followed_by"@) == (
        match step.is_directly_followed_by {
            Some(flag) => Some(Tree::Bool(flag)),
            None => None,
        }),
        plain_step(step).field("within_duration_from_prior_step"@) == (
        match step.within_duration_from_prior_step {
            Some(duration) => Some(Tree::Text(duration@)),
            None => None,
        }),
{
    broadcast use json::group_found;

    reveal_strlit("name");
    assert("name"@.len() == 4);
    reveal_strlit("event");
    assert("event"@.len() == 5);
    reveal_strlit("filter_expression");
    assert("filter_expression"@.len() == 17);
    reveal_strlit("is_directly_followed_by");
    assert("is_directly_followed_by"@.len() == 23);
    reveal_strlit("within_duration_from_prior_step");
    assert("within_duration_from_prior_step"@.len() == 31);
    reveal_strlit("funnel_event_filter");
    assert("funnel_event_filter"@.len() == 19);
    reveal_strlit("event_name");
    assert("event_name"@.len() == 10);
}

} // verus!
