//! Requests to the Google Analytics Admin/Data APIs and the payloads that they are sent as.

use vstd::prelude::*;
use vstd::string::*;

use crate::ga_client;
use crate::ga_client::PropertyId;
use crate::json;
use crate::json::{Object, Tree, Json};
use crate::text;

verus! {

#[derive(Debug)]
pub struct RunReportRequest {
    pub property_id: PropertyId,
    pub date_ranges: Vec<Json>,
    pub dimensions: Vec<String>,
    pub metrics: Vec<String>,
    pub dimension_filter: Option<Json>,
    pub metric_filter: Option<Json>,
    pub order_bys: Option<Vec<Json>>,
    pub limit: Option<u64>,
    pub offset: Option<u64>,
    pub currency_code: Option<String>,
    pub return_property_quota: bool,
}

#[derive(Debug)]
pub struct RunRealtimeReportRequest {
    pub property_id: PropertyId,
    pub dimensions: Vec<String>,
    pub metrics: Vec<String>,
    pub dimension_filter: Option<Json>,
    pub metric_filter: Option<Json>,
    pub order_bys: Option<Vec<Json>>,
    pub limit: Option<u64>,
    pub offset: Option<u64>,
    pub return_property_quota: bool,
}

#[derive(Debug)]
pub struct RunPivotReportRequest {
    pub property_id: PropertyId,
    pub date_ranges: Vec<Json>,
    pub dimensions: Vec<String>,
    pub metrics: Vec<String>,
    pub pivots: Vec<Json>,
    pub dimension_filter: Option<Json>,
    pub metric_filter: Option<Json>,
    pub order_bys: Option<Vec<Json>>,
    pub currency_code: Option<String>,
    pub keep_empty_rows: bool,
    pub return_property_quota: bool,
}

#[derive(Debug)]
pub struct BatchRunReportItemRequest {
    pub date_ranges: Vec<Json>,
    pub dimensions: Vec<String>,
    pub metrics: Vec<String>,
    pub dimension_filter: Option<Json>,
    pub metric_filter: Option<Json>,
    pub order_bys: Option<Vec<Json>>,
    pub limit: Option<u64>,
    pub offset: Option<u64>,
    pub currency_code: Option<String>,
    pub return_property_quota: bool,
}

#[derive(Debug)]
pub struct BatchRunReportsRequest {
    pub property_id: PropertyId,
    pub requests: Vec<BatchRunReportItemRequest>,
}

#[derive(Debug)]
pub struct RunAccessReportRequest {
    pub date_ranges: Vec<Json>,
    pub dimensions: Vec<String>,
    pub metrics: Vec<String>,
    pub dimension_filter: Option<Json>,
    pub metric_filter: Option<Json>,
    pub order_bys: Option<Vec<Json>>,
    pub offset: Option<u64>,
    pub limit: Option<u64>,
    pub time_zone: Option<String>,
}

#[derive(Debug)]
pub struct RunConversionsReportRequest {
    pub property_id: PropertyId,
    pub date_ranges: Vec<Json>,
    pub dimensions: Vec<String>,
    pub metrics: Vec<String>,
    pub conversion_spec: Json,
    pub dimension_filter: Option<Json>,
    pub metric_filter: Option<Json>,
    pub order_bys: Option<Vec<Json>>,
    pub limit: Option<u64>,
    pub offset: Option<u64>,
    pub currency_code: Option<String>,
    pub return_property_quota: bool,
}

#[derive(Debug)]
pub struct RunFunnelReportRequest {
    pub property_id: PropertyId,
    pub funnel_steps: Vec<Json>,
    pub is_open_funnel: bool,
    pub date_ranges: Vec<Json>,
    pub funnel_breakdown: Option<Json>,
    pub funnel_next_action: Option<Json>,
    pub funnel_visualization_type: Option<String>,
    pub segments: Option<Vec<Json>>,
    pub dimension_filter: Option<Json>,
    pub limit: Option<u64>,
    pub return_property_quota: bool,
}

// ---------------------------------------------------------------------------
// Parts of a payload.
// ---------------------------------------------------------------------------

/// An entry of a list of names: an object with the name under `key`.
pub open spec fn named_entry(key: Seq<char>, name: Seq<char>) -> Tree {
    Tree::Dict(json::fields().push((key, Tree::Text(text::trim(name)))))
}

/// A list of names, each as an object with the name under `key`.
pub open spec fn named_entries(key: Seq<char>, names: Seq<Seq<char>>) -> Tree {
    Tree::List(Seq::new(names.len(), |i: int| named_entry(key, names[i])))
}

/// The names in `values`, each as an object with the name under `field_name`.
pub fn as_access_named_entries(values: &[String], field_name: &str) -> (r: Json)
    ensures
        r@ == named_entries(field_name@, text::texts(values@)),
{
    let mut items: Vec<Json> = Vec::new();
    for i in 0..values.len()
        invariant
            items@.len() == i,
            forall|j: int|
                0 <= j < i ==> (#[trigger] items@[j])@ == named_entry(field_name@, values@[j]@),
    {
        let mut entry = Object::new();
        entry.put(field_name, json::string(text::trimmed(values[i].as_str()).as_str()));
        items.push(json::dict(entry));
    }
    assert(json::trees(items@) =~= named_entries(field_name@, text::texts(values@))->List_0);
    json::array(items)
}

/// The names in `values`, each as an object with the name under `name`.
pub fn as_named_entries(values: &[String]) -> (r: Json)
    ensures
        r@ == named_entries("name"@, text::texts(values@)),
{
    as_access_named_entries(values, "name")
}

/// The outbound form of an optional value.
pub open spec fn opt_camel(item: Option<Tree>) -> Option<Tree> {
    match item {
        Some(tree) => Some(ga_client::camel_tree(tree)),
        None => None,
    }
}

/// The outbound form of a list of values.
pub open spec fn camel_items(items: Seq<Json>) -> Tree {
    ga_client::camel_list(json::trees(items))
}

/// The outbound form of an optional list of values.
pub open spec fn opt_camel_items(item: Option<Vec<Json>>) -> Option<Tree> {
    match item {
        Some(items) => Some(camel_items(items@)),
        None => None,
    }
}

/// A count as the API takes it: a numeral in a string.
pub open spec fn opt_numeral(item: Option<u64>) -> Option<Tree> {
    match item {
        Some(n) => Some(Tree::Text(text::decimal(n as nat))),
        None => None,
    }
}

/// An optional text without white space at its ends.
pub open spec fn opt_trimmed(item: Option<String>) -> Option<Tree> {
    match item {
        Some(held) => Some(Tree::Text(text::trim(held@))),
        None => None,
    }
}

fn camel_some(item: &Option<Json>) -> (r: Option<Json>)
    ensures
        json::opt_view(r) == opt_camel(json::opt_view(*item)),
{
    match item {
        Some(value) => Some(ga_client::snake_to_camel_json(value)),
        None => None,
    }
}

fn camel_list_some(item: &Option<Vec<Json>>) -> (r: Option<Json>)
    ensures
        json::opt_view(r) == opt_camel_items(*item),
{
    match item {
        Some(items) => Some(ga_client::camel_values(items)),
        None => None,
    }
}

fn numeral_some(item: Option<u64>) -> (r: Option<Json>)
    ensures
        json::opt_view(r) == opt_numeral(item),
{
    match item {
        Some(n) => Some(json::string(text::decimal_text(n).as_str())),
        None => None,
    }
}

fn trimmed_some(item: &Option<String>) -> (r: Option<Json>)
    ensures
        json::opt_view(r) == opt_trimmed(*item),
{
    match item {
        Some(held) => Some(json::string(text::trimmed(held.as_str()).as_str())),
        None => None,
    }
}

// ---------------------------------------------------------------------------
// Payloads.
// ---------------------------------------------------------------------------

/// The payload of a core report.
pub open spec fn report_payload(
    date_ranges: Seq<Json>,
    dimensions: Seq<String>,
    metrics: Seq<String>,
    dimension_filter: Option<Json>,
    metric_filter: Option<Json>,
    order_bys: Option<Vec<Json>>,
    limit: Option<u64>,
    offset: Option<u64>,
    currency_code: Option<String>,
    return_property_quota: bool,
) -> Tree {
    let fixed = json::fields()
        .push(("dimensions"@, named_entries("name"@, text::texts(dimensions))))
        .push(("metrics"@, named_entries("name"@, text::texts(metrics))))
        .push(("dateRanges"@, camel_items(date_ranges)))
        .push(("returnPropertyQuota"@, Tree::Bool(return_property_quota)));
    let e1 = json::optional_entry(
        fixed,
        "dimensionFilter"@,
        opt_camel(json::opt_view(dimension_filter)),
    );
    let e2 = json::optional_entry(e1, "metricFilter"@, opt_camel(json::opt_view(metric_filter)));
    let e3 = json::optional_entry(e2, "orderBys"@, opt_camel_items(order_bys));
    let e4 = json::optional_entry(e3, "limit"@, opt_numeral(limit));
    let e5 = json::optional_entry(e4, "offset"@, opt_numeral(offset));
    let e6 = json::optional_entry(e5, "currencyCode"@, opt_trimmed(currency_code));
    Tree::Dict(e6)
}

/// The payload of a core report.
pub fn build_run_report_payload(
    date_ranges: &[Json],
    dimensions: &[String],
    metrics: &[String],
    dimension_filter: &Option<Json>,
    metric_filter: &Option<Json>,
    order_bys: &Option<Vec<Json>>,
    limit: Option<u64>,
    offset: Option<u64>,
    currency_code: &Option<String>,
    return_property_quota: bool,
) -> (r: Json)
    ensures
        r@ == report_payload(
            date_ranges@,
            dimensions@,
            metrics@,
            *dimension_filter,
            *metric_filter,
            *order_bys,
            limit,
            offset,
            *currency_code,
            return_property_quota,
        ),
{
    let mut payload = Object::new();
    payload.put("dimensions", as_named_entries(dimensions));
    payload.put("metrics", as_named_entries(metrics));
    payload.put("dateRanges", ga_client::camel_values(date_ranges));
    payload.put("returnPropertyQuota", json::boolean(return_property_quota));
    payload.put_some("dimensionFilter", camel_some(dimension_filter));
    payload.put_some("metricFilter", camel_some(metric_filter));
    payload.put_some("orderBys", camel_list_some(order_bys));
    payload.put_some("limit", numeral_some(limit));
    payload.put_some("offset", numeral_some(offset));
    payload.put_some("currencyCode", trimmed_some(currency_code));
    json::dict(payload)
}

impl RunReportRequest {
    /// The payload of the request.
    pub open spec fn payload_tree(self) -> Tree {
        report_payload(
            self.date_ranges@,
            self.dimensions@,
            self.metrics@,
            self.dimension_filter,
            self.metric_filter,
            self.order_bys,
            self.limit,
            self.offset,
            self.currency_code,
            self.return_property_quota,
        )
    }

    /// The payload of the request.
    pub fn payload(&self) -> (r: Json)
        ensures
            r@ == self.payload_tree(),
    {
        build_run_report_payload(
            &self.date_ranges,
            &self.dimensions,
            &self.metrics,
            &self.dimension_filter,
            &self.metric_filter,
            &self.order_bys,
            self.limit,
            self.offset,
            &self.currency_code,
            self.return_property_quota,
        )
    }
}

impl BatchRunReportItemRequest {
    /// The payload of the request.
    pub open spec fn payload_tree(self) -> Tree {
        report_payload(
            self.date_ranges@,
            self.dimensions@,
            self.metrics@,
            self.dimension_filter,
            self.metric_filter,
            self.order_bys,
            self.limit,
            self.offset,
            self.currency_code,
            self.return_property_quota,
        )
    }

    /// The payload of the request.
    pub fn payload(&self) -> (r: Json)
        ensures
            r@ == self.payload_tree(),
    {
        build_run_report_payload(
            &self.date_ranges,
            &self.dimensions,
            &self.metrics,
            &self.dimension_filter,
            &self.metric_filter,
            &self.order_bys,
            self.limit,
            self.offset,
            &self.currency_code,
            self.return_property_quota,
        )
    }
}

impl BatchRunReportsRequest {
    /// The payload of the batch: those of its requests, in their order.
    pub open spec fn payload_tree(self) -> Tree {
        Tree::Dict(
            json::fields().push(
                (
                    "requests"@,
                    Tree::List(
                        Seq::new(
                            self.requests@.len(),
                            |i: int| self.requests@[i].payload_tree(),
                        ),
                    ),
                ),
            ),
        )
    }

    /// The payload of the batch.
    pub fn payload(&self) -> (r: Json)
        ensures
            r@ == self.payload_tree(),
    {
        let mut items: Vec<Json> = Vec::new();
        for i in 0..self.requests.len()
            invariant
                items@.len() == i,
                forall|j: int|
                    0 <= j < i ==> (#[trigger] items@[j])@ == self.requests@[j].payload_tree(),
        {
            items.push(self.requests[i].payload());
        }
        let ghost listed = Seq::new(
            self.requests@.len(),
            |i: int| self.requests@[i].payload_tree(),
        );
        assert(json::trees(items@) =~= listed);
        let mut payload = Object::new();
        payload.put("requests", json::array(items));
        json::dict(payload)
    }
}

impl RunRealtimeReportRequest {
    /// The payload of the request.
    pub open spec fn payload_tree(self) -> Tree {
        let fixed = json::fields()
            .push(("dimensions"@, named_entries("name"@, text::texts(self.dimensions@))))
            .push(("metrics"@, named_entries("name"@, text::texts(self.metrics@))))
            .push(("returnPropertyQuota"@, Tree::Bool(self.return_property_quota)));
        let e1 = json::optional_entry(
            fixed,
            "dimensionFilter"@,
            opt_camel(json::opt_view(self.dimension_filter)),
        );
        let e2 = json::optional_entry(
            e1,
            "metricFilter"@,
            opt_camel(json::opt_view(self.metric_filter)),
        );
        let e3 = json::optional_entry(e2, "orderBys"@, opt_camel_items(self.order_bys));
        let e4 = json::optional_entry(e3, "limit"@, opt_numeral(self.limit));
        Tree::Dict(json::optional_entry(e4, "offset"@, opt_numeral(self.offset)))
    }

    /// The payload of the request.
    pub fn payload(&self) -> (r: Json)
        ensures
            r@ == self.payload_tree(),
    {
        let mut payload = Object::new();
        payload.put("dimensions", as_named_entries(&self.dimensions));
        payload.put("metrics", as_named_entries(&self.metrics));
        payload.put("returnPropertyQuota", json::boolean(self.return_property_quota));
        payload.put_some("dimensionFilter", camel_some(&self.dimension_filter));
        payload.put_some("metricFilter", camel_some(&self.metric_filter));
        payload.put_some("orderBys", camel_list_some(&self.order_bys));
        payload.put_some("limit", numeral_some(self.limit));
        payload.put_some("offset", numeral_some(self.offset));
        json::dict(payload)
    }
}

impl RunPivotReportRequest {
    /// The payload of the request.
    pub open spec fn payload_tree(self) -> Tree {
        let fixed = json::fields()
            .push(("dimensions"@, named_entries("name"@, text::texts(self.dimensions@))))
            .push(("metrics"@, named_entries("name"@, text::texts(self.metrics@))))
            .push(("dateRanges"@, camel_items(self.date_ranges@)))
            .push(("pivots"@, camel_items(self.pivots@)))
            .push(("keepEmptyRows"@, Tree::Bool(self.keep_empty_rows)))
            .push(("returnPropertyQuota"@, Tree::Bool(self.return_property_quota)));
        let e1 = json::optional_entry(
            fixed,
            "dimensionFilter"@,
            opt_camel(json::opt_view(self.dimension_filter)),
        );
        let e2 = json::optional_entry(
            e1,
            "metricFilter"@,
            opt_camel(json::opt_view(self.metric_filter)),
        );
        let e3 = json::optional_entry(e2, "orderBys"@, opt_camel_items(self.order_bys));
        Tree::Dict(json::optional_entry(e3, "currencyCode"@, opt_trimmed(self.currency_code)))
    }

    /// The payload of the request.
    pub fn payload(&self) -> (r: Json)
        ensures
            r@ == self.payload_tree(),
    {
        let mut payload = Object::new();
        payload.put("dimensions", as_named_entries(&self.dimensions));
        payload.put("metrics", as_named_entries(&self.metrics));
        payload.put("dateRanges", ga_client::camel_values(&self.date_ranges));
        payload.put("pivots", ga_client::camel_values(&self.pivots));
        payload.put("keepEmptyRows", json::boolean(self.keep_empty_rows));
        payload.put("returnPropertyQuota", json::boolean(self.return_property_quota));
        payload.put_some("dimensionFilter", camel_some(&self.dimension_filter));
        payload.put_some("metricFilter", camel_some(&self.metric_filter));
        payload.put_some("orderBys", camel_list_some(&self.order_bys));
        payload.put_some("currencyCode", trimmed_some(&self.currency_code));
        json::dict(payload)
    }
}

impl RunConversionsReportRequest {
    /// The payload of the request: that of a core report, with the conversions it is about.
    pub open spec fn payload_tree(self) -> Tree {
        match report_payload(
            self.date_ranges@,
            self.dimensions@,
            self.metrics@,
            self.dimension_filter,
            self.metric_filter,
            self.order_bys,
            self.limit,
            self.offset,
            self.currency_code,
            self.return_property_quota,
        ) {
            Tree::Dict(entries) => Tree::Dict(
                entries.push(("conversionSpec"@, ga_client::camel_tree(self.conversion_spec@))),
            ),
            other => other,
        }
    }

    /// The payload of the request.
    pub fn payload(&self) -> (r: Json)
        ensures
            r@ == self.payload_tree(),
    {
        let mut payload = Object::new();
        payload.put("dimensions", as_named_entries(&self.dimensions));
        payload.put("metrics", as_named_entries(&self.metrics));
        payload.put("dateRanges", ga_client::camel_values(&self.date_ranges));
        payload.put("returnPropertyQuota", json::boolean(self.return_property_quota));
        payload.put_some("dimensionFilter", camel_some(&self.dimension_filter));
        payload.put_some("metricFilter", camel_some(&self.metric_filter));
        payload.put_some("orderBys", camel_list_some(&self.order_bys));
        payload.put_some("limit", numeral_some(self.limit));
        payload.put_some("offset", numeral_some(self.offset));
        payload.put_some("currencyCode", trimmed_some(&self.currency_code));
        payload.put("conversionSpec", ga_client::snake_to_camel_json(&self.conversion_spec));
        json::dict(payload)
    }
}

/// An optional text as it is.
pub open spec fn opt_plain(item: Option<String>) -> Option<Tree> {
    match item {
        Some(held) => Some(Tree::Text(held@)),
        None => None,
    }
}

impl RunFunnelReportRequest {
    /// The payload of the request, with its steps in the form that they are sent in.
    pub open spec fn payload_tree(self, steps: Seq<Json>) -> Tree {
        let funnel = json::fields()
            .push(("isOpenFunnel"@, Tree::Bool(self.is_open_funnel)))
            .push(("steps"@, camel_items(steps)));
        let e0 = json::fields()
            .push(("funnel"@, Tree::Dict(funnel)))
            .push(("returnPropertyQuota"@, Tree::Bool(self.return_property_quota)));
        let e1 = json::optional_entry(
            e0,
            "dateRanges"@,
            if self.date_ranges@.len() > 0 {
                Some(camel_items(self.date_ranges@))
            } else {
                None
            },
        );
        let e2 = json::optional_entry(
            e1,
            "funnelBreakdown"@,
            opt_camel(json::opt_view(self.funnel_breakdown)),
        );
        let e3 = json::optional_entry(
            e2,
            "funnelNextAction"@,
            opt_camel(json::opt_view(self.funnel_next_action)),
        );
        let e4 = json::optional_entry(
            e3,
            "dimensionFilter"@,
            opt_camel(json::opt_view(self.dimension_filter)),
        );
        let e5 = json::optional_entry(
            e4,
            "funnelVisualizationType"@,
            opt_plain(self.funnel_visualization_type),
        );
        let e6 = json::optional_entry(e5, "segments"@, opt_camel_items(self.segments));
        Tree::Dict(json::optional_entry(e6, "limit"@, opt_numeral(self.limit)))
    }

    /// The payload of the request, with its steps in the form that they are sent in.
    pub fn payload(&self, steps: &[Json]) -> (r: Json)
        ensures
            r@ == self.payload_tree(steps@),
    {
        let mut funnel = Object::new();
        funnel.put("isOpenFunnel", json::boolean(self.is_open_funnel));
        funnel.put("steps", ga_client::camel_values(steps));
        let date_ranges: Option<Json> = if self.date_ranges.len() > 0 {
            Some(ga_client::camel_values(&self.date_ranges))
        } else {
            None
        };
        let visualization: Option<Json> = match &self.funnel_visualization_type {
            Some(held) => Some(json::string(held.as_str())),
            None => None,
        };
        let mut payload = Object::new();
        payload.put("funnel", json::dict(funnel));
        payload.put("returnPropertyQuota", json::boolean(self.return_property_quota));
        payload.put_some("dateRanges", date_ranges);
        payload.put_some("funnelBreakdown", camel_some(&self.funnel_breakdown));
        payload.put_some("funnelNextAction", camel_some(&self.funnel_next_action));
        payload.put_some("dimensionFilter", camel_some(&self.dimension_filter));
        payload.put_some("funnelVisualizationType", visualization);
        payload.put_some("segments", camel_list_some(&self.segments));
        payload.put_some("limit", numeral_some(self.limit));
        json::dict(payload)
    }
}

impl RunAccessReportRequest {
    /// The payload of the request.
    pub open spec fn payload_tree(self) -> Tree {
        let fixed = json::fields()
            .push(("dateRanges"@, camel_items(self.date_ranges@)))
            .push(("dimensions"@, named_entries("dimensionName"@, text::texts(self.dimensions@))))
            .push(("metrics"@, named_entries("metricName"@, text::texts(self.metrics@))));
        let e1 = json::optional_entry(
            fixed,
            "dimensionFilter"@,
            opt_camel(json::opt_view(self.dimension_filter)),
        );
        let e2 = json::optional_entry(
            e1,
            "metricFilter"@,
            opt_camel(json::opt_view(self.metric_filter)),
        );
        let e3 = json::optional_entry(e2, "orderBys"@, opt_camel_items(self.order_bys));
        let e4 = json::optional_entry(e3, "offset"@, opt_numeral(self.offset));
        let e5 = json::optional_entry(e4, "limit"@, opt_numeral(self.limit));
        Tree::Dict(json::optional_entry(e5, "timeZone"@, opt_trimmed(self.time_zone)))
    }
}

/// The payload of an access report.
pub fn build_access_report_payload(request: &RunAccessReportRequest) -> (r: Json)
    ensures
        r@ == request.payload_tree(),
{
    let mut payload = Object::new();
    payload.put("dateRanges", ga_client::camel_values(&request.date_ranges));
    payload.put("dimensions", as_access_named_entries(&request.dimensions, "dimensionName"));
    payload.put("metrics", as_access_named_entries(&request.metrics, "metricName"));
    payload.put_some("dimensionFilter", camel_some(&request.dimension_filter));
    payload.put_some("metricFilter", camel_some(&request.metric_filter));
    payload.put_some("orderBys", camel_list_some(&request.order_bys));
    payload.put_some("offset", numeral_some(request.offset));
    payload.put_some("limit", numeral_some(request.limit));
    payload.put_some("timeZone", trimmed_some(&request.time_zone));
    json::dict(payload)
}

/// The names of a compatibility check, as they are.
pub open spec fn plain_entries(names: Seq<Seq<char>>) -> Tree {
    Tree::List(
        Seq::new(
            names.len(),
            |i: int| Tree::Dict(json::fields().push(("name"@, Tree::Text(names[i])))),
        ),
    )
}

fn as_plain_entries(values: &[String]) -> (r: Json)
    ensures
        r@ == plain_entries(text::texts(values@)),
{
    let mut items: Vec<Json> = Vec::new();
    for i in 0..values.len()
        invariant
            items@.len() == i,
            forall|j: int|
                0 <= j < i ==> (#[trigger] items@[j])@ == Tree::Dict(
                    json::fields().push(("name"@, Tree::Text(values@[j]@))),
                ),
    {
        let mut entry = Object::new();
        entry.put("name", json::string(values[i].as_str()));
        items.push(json::dict(entry));
    }
    assert(json::trees(items@) =~= plain_entries(text::texts(values@))->List_0);
    json::array(items)
}

/// The payload of a compatibility check.
pub open spec fn compatibility_payload(dimensions: Seq<String>, metrics: Seq<String>) -> Tree {
    Tree::Dict(
        json::fields().push(("dimensions"@, plain_entries(text::texts(dimensions)))).push(
            ("metrics"@, plain_entries(text::texts(metrics))),
        ),
    )
}

/// The payload of a compatibility check.
pub fn build_compatibility_payload(dimensions: &[String], metrics: &[String]) -> (r: Json)
    ensures
        r@ == compatibility_payload(dimensions@, metrics@),
{
    let mut payload = Object::new();
    payload.put("dimensions", as_plain_entries(dimensions));
    payload.put("metrics", as_plain_entries(metrics));
    json::dict(payload)
}

// ---------------------------------------------------------------------------
// Laws.
// ---------------------------------------------------------------------------

/// A core report is sent with each part of the request under its own key: names as objects,
/// numbers as numerals, filters in outbound form, and nothing for what the request leaves out.
pub proof fn law_reports_are_sent_by_name(request: RunReportRequest)
    ensures
        request.payload_tree().field("dimensions"@) matches Some(Tree::List(items)) && items.len()
            == request.dimensions@.len() && forall|i: int|
            0 <= i < items.len() ==> (#[trigger] items[i]).field("name"@) == Some(
                Tree::Text(text::trim(request.dimensions@[i]@)),
            ),
        request.payload_tree().field("metrics"@) matches Some(Tree::List(items)) && items.len()
            == request.metrics@.len() && forall|i: int|
            0 <= i < items.len() ==> (#[trigger] items[i]).field("name"@) == Some(
                Tree::Text(text::trim(request.metrics@[i]@)),
            ),
        request.payload_tree().field("dateRanges"@) matches Some(Tree::List(items)) && items.len()
            == request.date_ranges@.len() && forall|i: int|
            0 <= i < items.len() ==> #[trigger] items[i] == ga_client::camel_tree(
                request.date_ranges@[i]@,
            ),
        request.payload_tree().field("dimensionFilter"@) == (match request.dimension_filter {
            Some(held) => Some(ga_client::camel_tree(held@)),
            None => None,
        }),
        request.payload_tree().field("metricFilter"@) == (match request.metric_filter {
            Some(held) => Some(ga_client::camel_tree(held@)),
            None => None,
        }),
        match request.order_bys {
            Some(held) => request.payload_tree().field("orderBys"@) matches Some(Tree::List(items))
                && items.len() == held@.len() && forall|i: int|
                0 <= i < items.len() ==> #[trigger] items[i] == ga_client::camel_tree(held@[i]@),
            None => request.payload_tree().field("orderBys"@) is None,
        },
        request.payload_tree().field("limit"@) == (match request.limit {
            Some(n) => Some(Tree::Text(text::decimal(n as nat))),
            None => None,
        }),
        request.payload_tree().field("offset"@) == (match request.offset {
            Some(n) => Some(Tree::Text(text::decimal(n as nat))),
            None => None,
        }),
        request.payload_tree().field("currencyCode"@) == (match request.currency_code {
            Some(held) => Some(Tree::Text(text::trim(held@))),
            None => None,
        }),
        request.payload_tree().field("returnPropertyQuota"@)
            == Some(Tree::Bool(request.return_property_quota)),
{
    broadcast use json::group_found;

    reveal_strlit("dimensions");
    assert("dimensions"@.len() == 10);
    reveal_strlit("metrics");
    assert("metrics"@.len() == 7);
    reveal_strlit("dateRanges");
    assert("dateRanges"@.len() == 10);
    reveal_strlit("returnPropertyQuota");
    assert("returnPropertyQuota"@.len() == 19);
    reveal_strlit("dimensionFilter");
    assert("dimensionFilter"@.len() == 15);
    reveal_strlit("metricFilter");
    assert("metricFilter"@.len() == 12);
    reveal_strlit("orderBys");
    assert("orderBys"@.len() == 8);
    reveal_strlit("limit");
    assert("limit"@.len() == 5);
    reveal_strlit("offset");
    assert("offset"@.len() == 6);
    reveal_strlit("currencyCode");
    assert("currencyCode"@.len() == 12);
    reveal_strlit("name");
    assert("name"@.len() == 4);
    assert("dimensions"@[1] != "dateRanges"@[1]);
    assert("metricFilter"@[0] != "currencyCode"@[0]);
}

/// Each report of a batch is sent with each part of it under its own key.
pub proof fn law_batch_items_are_sent_by_name(request: BatchRunReportItemRequest)
    ensures
        request.payload_tree().field("dimensions"@) matches Some(Tree::List(items)) && items.len()
            == request.dimensions@.len() && forall|i: int|
            0 <= i < items.len() ==> (#[trigger] items[i]).field("name"@) == Some(
                Tree::Text(text::trim(request.dimensions@[i]@)),
            ),
        request.payload_tree().field("metrics"@) matches Some(Tree::List(items)) && items.len()
            == request.metrics@.len() && forall|i: int|
            0 <= i < items.len() ==> (#[trigger] items[i]).field("name"@) == Some(
                Tree::Text(text::trim(request.metrics@[i]@)),
            ),
        request.payload_tree().field("dateRanges"@) matches Some(Tree::List(items)) && items.len()
            == request.date_ranges@.len() && forall|i: int|
            0 <= i < items.len() ==> #[trigger] items[i] == ga_client::camel_tree(
                request.date_ranges@[i]@,
            ),
        request.payload_tree().field("dimensionFilter"@) == (match request.dimension_filter {
            Some(held) => Some(ga_client::camel_tree(held@)),
            None => None,
        }),
        request.payload_tree().field("metricFilter"@) == (match request.metric_filter {
            Some(held) => Some(ga_client::camel_tree(held@)),
            None => None,
        }),
        match request.order_bys {
            Some(held) => request.payload_tree().field("orderBys"@) matches Some(Tree::List(items))
                && items.len() == held@.len() && forall|i: int|
                0 <= i < items.len() ==> #[trigger] items[i] == ga_client::camel_tree(held@[i]@),
            None => request.payload_tree().field("orderBys"@) is None,
        },
        request.payload_tree().field("limit"@) == (match request.limit {
            Some(n) => Some(Tree::Text(text::decimal(n as nat))),
            None => None,
        }),
        request.payload_tree().field("offset"@) == (match request.offset {
            Some(n) => Some(Tree::Text(text::decimal(n as nat))),
            None => None,
        }),
        request.payload_tree().field("currencyCode"@) == (match request.currency_code {
            Some(held) => Some(Tree::Text(text::trim(held@))),
            None => None,
        }),
        request.payload_tree().field("returnPropertyQuota"@)
            == Some(Tree::Bool(request.return_property_quota)),
{
    broadcast use json::group_found;

    reveal_strlit("dimensions");
    assert("dimensions"@.len() == 10);
    reveal_strlit("metrics");
    assert("metrics"@.len() == 7);
    reveal_strlit("dateRanges");
    assert("dateRanges"@.len() == 10);
    reveal_strlit("returnPropertyQuota");
    assert("returnPropertyQuota"@.len() == 19);
    reveal_strlit("dimensionFilter");
    assert("dimensionFilter"@.len() == 15);
    reveal_strlit("metricFilter");
    assert("metricFilter"@.len() == 12);
    reveal_strlit("orderBys");
    assert("orderBys"@.len() == 8);
    reveal_strlit("limit");
    assert("limit"@.len() == 5);
    reveal_strlit("offset");
    assert("offset"@.len() == 6);
    reveal_strlit("currencyCode");
    assert("currencyCode"@.len() == 12);
    reveal_strlit("name");
    assert("name"@.len() == 4);
    assert("dimensions"@[1] != "dateRanges"@[1]);
    assert("metricFilter"@[0] != "currencyCode"@[0]);
}

/// A batch is sent with its reports in their order.
pub proof fn law_batches_are_sent_in_order(request: BatchRunReportsRequest, i: int)
    requires
        0 <= i < request.requests@.len(),
    ensures
        request.payload_tree().field("requests"@) matches Some(Tree::List(items)) && items.len()
            == request.requests@.len() && items[i] == request.requests@[i].payload_tree(),
{
    broadcast use json::group_found;

}

/// A realtime report is sent with each part of the request under its own key.
pub proof fn law_realtime_reports_are_sent_by_name(request: RunRealtimeReportRequest)
    ensures
        request.payload_tree().field("dimensions"@) matches Some(Tree::List(items)) && items.len()
            == request.dimensions@.len() && forall|i: int|
            0 <= i < items.len() ==> (#[trigger] items[i]).field("name"@) == Some(
                Tree::Text(text::trim(request.dimensions@[i]@)),
            ),
        request.payload_tree().field("metrics"@) matches Some(Tree::List(items)) && items.len()
            == request.metrics@.len() && forall|i: int|
            0 <= i < items.len() ==> (#[trigger] items[i]).field("name"@) == Some(
                Tree::Text(text::trim(request.metrics@[i]@)),
            ),
        request.payload_tree().field("dimensionFilter"@) == (match request.dimension_filter {
            Some(held) => Some(ga_client::camel_tree(held@)),
            None => None,
        }),
        request.payload_tree().field("metricFilter"@) == (match request.metric_filter {
            Some(held) => Some(ga_client::camel_tree(held@)),
            None => None,
        }),
        match request.order_bys {
            Some(held) => request.payload_tree().field("orderBys"@) matches Some(Tree::List(items))
                && items.len() == held@.len() && forall|i: int|
                0 <= i < items.len() ==> #[trigger] items[i] == ga_client::camel_tree(held@[i]@),
            None => request.payload_tree().field("orderBys"@) is None,
        },
        request.payload_tree().field("limit"@) == (match request.limit {
            Some(n) => Some(Tree::Text(text::decimal(n as nat))),
            None => None,
        }),
        request.payload_tree().field("offset"@) == (match request.offset {
            Some(n) => Some(Tree::Text(text::decimal(n as nat))),
            None => None,
        }),
        request.payload_tree().field("returnPropertyQuota"@)
            == Some(Tree::Bool(request.return_property_quota)),
{
    broadcast use json::group_found;

    reveal_strlit("dimensions");
    assert("dimensions"@.len() == 10);
    reveal_strlit("metrics");
    assert("metrics"@.len() == 7);
    reveal_strlit("returnPropertyQuota");
    assert("returnPropertyQuota"@.len() == 19);
    reveal_strlit("dimensionFilter");
    assert("dimensionFilter"@.len() == 15);
    reveal_strlit("metricFilter");
    assert("metricFilter"@.len() == 12);
    reveal_strlit("orderBys");
    assert("orderBys"@.len() == 8);
    reveal_strlit("limit");
    assert("limit"@.len() == 5);
    reveal_strlit("offset");
    assert("offset"@.len() == 6);
    reveal_strlit("name");
    assert("name"@.len() == 4);
}

/// A pivot report is sent with each part of the request under its own key.
pub proof fn law_pivot_reports_are_sent_by_name(request: RunPivotReportRequest)
    ensures
        request.payload_tree().field("dimensions"@) matches Some(Tree::List(items)) && items.len()
            == request.dimensions@.len() && forall|i: int|
            0 <= i < items.len() ==> (#[trigger] items[i]).field("name"@) == Some(
                Tree::Text(text::trim(request.dimensions@[i]@)),
            ),
        request.payload_tree().field("metrics"@) matches Some(Tree::List(items)) && items.len()
            == request.metrics@.len() && forall|i: int|
            0 <= i < items.len() ==> (#[trigger] items[i]).field("name"@) == Some(
                Tree::Text(text::trim(request.metrics@[i]@)),
            ),
        request.payload_tree().field("dateRanges"@) matches Some(Tree::List(items)) && items.len()
            == request.date_ranges@.len() && forall|i: int|
            0 <= i < items.len() ==> #[trigger] items[i] == ga_client::camel_tree(
                request.date_ranges@[i]@,
            ),
        request.payload_tree().field("pivots"@) matches Some(Tree::List(items)) && items.len()
            == request.pivots@.len() && forall|i: int|
            0 <= i < items.len() ==> #[trigger] items[i] == ga_client::camel_tree(
                request.pivots@[i]@,
            ),
        request.payload_tree().field("dimensionFilter"@) == (match request.dimension_filter {
            Some(held) => Some(ga_client::camel_tree(held@)),
            None => None,
        }),
        request.payload_tree().field("metricFilter"@) == (match request.metric_filter {
            Some(held) => Some(ga_client::camel_tree(held@)),
            None => None,
        }),
        match request.order_bys {
            Some(held) => request.payload_tree().field("orderBys"@) matches Some(Tree::List(items))
                && items.len() == held@.len() && forall|i: int|
                0 <= i < items.len() ==> #[trigger] items[i] == ga_client::camel_tree(held@[i]@),
            None => request.payload_tree().field("orderBys"@) is None,
        },
        request.payload_tree().field("currencyCode"@) == (match request.currency_code {
            Some(held) => Some(Tree::Text(text::trim(held@))),
            None => None,
        }),
        request.payload_tree().field("keepEmptyRows"@) == Some(Tree::Bool(request.keep_empty_rows)),
        request.payload_tree().field("returnPropertyQuota"@)
            == Some(Tree::Bool(request.return_property_quota)),
{
    broadcast use json::group_found;

    reveal_strlit("dimensions");
    assert("dimensions"@.len() == 10);
    reveal_strlit("metrics");
    assert("metrics"@.len() == 7);
    reveal_strlit("dateRanges");
    assert("dateRanges"@.len() == 10);
    reveal_strlit("pivots");
    assert("pivots"@.len() == 6);
    reveal_strlit("keepEmptyRows");
    assert("keepEmptyRows"@.len() == 13);
    reveal_strlit("returnPropertyQuota");
    assert("returnPropertyQuota"@.len() == 19);
    reveal_strlit("dimensionFilter");
    assert("dimensionFilter"@.len() == 15);
    reveal_strlit("metricFilter");
    assert("metricFilter"@.len() == 12);
    reveal_strlit("orderBys");
    assert("orderBys"@.len() == 8);
    reveal_strlit("currencyCode");
    assert("currencyCode"@.len() == 12);
    reveal_strlit("name");
    assert("name"@.len() == 4);
    assert("dimensions"@[1] != "dateRanges"@[1]);
    assert("metricFilter"@[0] != "currencyCode"@[0]);
}

/// A conversion report is sent with each part of the request under its own key.
pub proof fn law_conversion_reports_are_sent_by_name(request: RunConversionsReportRequest)
    ensures
        request.payload_tree().field("dimensions"@) matches Some(Tree::List(items)) && items.len()
            == request.dimensions@.len() && forall|i: int|
            0 <= i < items.len() ==> (#[trigger] items[i]).field("name"@) == Some(
                Tree::Text(text::trim(request.dimensions@[i]@)),
            ),
        request.payload_tree().field("metrics"@) matches Some(Tree::List(items)) && items.len()
            == request.metrics@.len() && forall|i: int|
            0 <= i < items.len() ==> (#[trigger] items[i]).field("name"@) == Some(
                Tree::Text(text::trim(request.metrics@[i]@)),
            ),
        request.payload_tree().field("dateRanges"@) matches Some(Tree::List(items)) && items.len()
            == request.date_ranges@.len() && forall|i: int|
            0 <= i < items.len() ==> #[trigger] items[i] == ga_client::camel_tree(
                request.date_ranges@[i]@,
            ),
        request.payload_tree().field("dimensionFilter"@) == (match request.dimension_filter {
            Some(held) => Some(ga_client::camel_tree(held@)),
            None => None,
        }),
        request.payload_tree().field("metricFilter"@) == (match request.metric_filter {
            Some(held) => Some(ga_client::camel_tree(held@)),
            None => None,
        }),
        match request.order_bys {
            Some(held) => request.payload_tree().field("orderBys"@) matches Some(Tree::List(items))
                && items.len() == held@.len() && forall|i: int|
                0 <= i < items.len() ==> #[trigger] items[i] == ga_client::camel_tree(held@[i]@),
            None => request.payload_tree().field("orderBys"@) is None,
        },
        request.payload_tree().field("limit"@) == (match request.limit {
            Some(n) => Some(Tree::Text(text::decimal(n as nat))),
            None => None,
        }),
        request.payload_tree().field("offset"@) == (match request.offset {
            Some(n) => Some(Tree::Text(text::decimal(n as nat))),
            None => None,
        }),
        request.payload_tree().field("currencyCode"@) == (match request.currency_code {
            Some(held) => Some(Tree::Text(text::trim(held@))),
            None => None,
        }),
        request.payload_tree().field("returnPropertyQuota"@)
            == Some(Tree::Bool(request.return_property_quota)),
        request.payload_tree().field("conversionSpec"@) == Some(
            ga_client::camel_tree(request.conversion_spec@),
        ),
{
    broadcast use json::group_found;

    reveal_strlit("dimensions");
    assert("dimensions"@.len() == 10);
    reveal_strlit("metrics");
    assert("metrics"@.len() == 7);
    reveal_strlit("dateRanges");
    assert("dateRanges"@.len() == 10);
    reveal_strlit("returnPropertyQuota");
    assert("returnPropertyQuota"@.len() == 19);
    reveal_strlit("dimensionFilter");
    assert("dimensionFilter"@.len() == 15);
    reveal_strlit("metricFilter");
    assert("metricFilter"@.len() == 12);
    reveal_strlit("orderBys");
    assert("orderBys"@.len() == 8);
    reveal_strlit("limit");
    assert("limit"@.len() == 5);
    reveal_strlit("offset");
    assert("offset"@.len() == 6);
    reveal_strlit("currencyCode");
    assert("currencyCode"@.len() == 12);
    reveal_strlit("conversionSpec");
    assert("conversionSpec"@.len() == 14);
    reveal_strlit("name");
    assert("name"@.len() == 4);
    assert("dimensions"@[1] != "dateRanges"@[1]);
    assert("metricFilter"@[0] != "currencyCode"@[0]);
}

/// An access report is sent with each part of the request under its own key.
pub proof fn law_access_reports_are_sent_by_name(request: RunAccessReportRequest)
    ensures
        request.payload_tree().field("dimensions"@) matches Some(Tree::List(items)) && items.len()
            == request.dimensions@.len() && forall|i: int|
            0 <= i < items.len() ==> (#[trigger] items[i]).field("dimensionName"@) == Some(
                Tree::Text(text::trim(request.dimensions@[i]@)),
            ),
        request.payload_tree().field("metrics"@) matches Some(Tree::List(items)) && items.len()
            == request.metrics@.len() && forall|i: int|
            0 <= i < items.len() ==> (#[trigger] items[i]).field("metricName"@) == Some(
                Tree::Text(text::trim(request.metrics@[i]@)),
            ),
        request.payload_tree().field("dateRanges"@) matches Some(Tree::List(items)) && items.len()
            == request.date_ranges@.len() && forall|i: int|
            0 <= i < items.len() ==> #[trigger] items[i] == ga_client::camel_tree(
                request.date_ranges@[i]@,
            ),
        request.payload_tree().field("dimensionFilter"@) == (match request.dimension_filter {
            Some(held) => Some(ga_client::camel_tree(held@)),
            None => None,
        }),
        request.payload_tree().field("metricFilter"@) == (match request.metric_filter {
            Some(held) => Some(ga_client::camel_tree(held@)),
            None => None,
        }),
        match request.order_bys {
            Some(held) => request.payload_tree().field("orderBys"@) matches Some(Tree::List(items))
                && items.len() == held@.len() && forall|i: int|
                0 <= i < items.len() ==> #[trigger] items[i] == ga_client::camel_tree(held@[i]@),
            None => request.payload_tree().field("orderBys"@) is None,
        },
        request.payload_tree().field("limit"@) == (match request.limit {
            Some(n) => Some(Tree::Text(text::decimal(n as nat))),
            None => None,
        }),
        request.payload_tree().field("offset"@) == (match request.offset {
            Some(n) => Some(Tree::Text(text::decimal(n as nat))),
            None => None,
        }),
        request.payload_tree().field("timeZone"@) == (match request.time_zone {
            Some(held) => Some(Tree::Text(text::trim(held@))),
            None => None,
        }),
{
    broadcast use json::group_found;

    reveal_strlit("dateRanges");
    assert("dateRanges"@.len() == 10);
    reveal_strlit("dimensions");
    assert("dimensions"@.len() == 10);
    reveal_strlit("metrics");
    assert("metrics"@.len() == 7);
    reveal_strlit("dimensionFilter");
    assert("dimensionFilter"@.len() == 15);
    reveal_strlit("metricFilter");
    assert("metricFilter"@.len() == 12);
    reveal_strlit("orderBys");
    assert("orderBys"@.len() == 8);
    reveal_strlit("offset");
    assert("offset"@.len() == 6);
    reveal_strlit("limit");
    assert("limit"@.len() == 5);
    reveal_strlit("timeZone");
    assert("timeZone"@.len() == 8);
    reveal_strlit("name");
    assert("name"@.len() == 4);
    assert("dateRanges"@[1] != "dimensions"@[1]);
    assert("orderBys"@[0] != "timeZone"@[0]);
    reveal_strlit("dimensionName");
    reveal_strlit("metricName");
}

/// A funnel report is sent with each part of the request under its own key, its steps in their
/// order.
pub proof fn law_funnel_reports_are_sent_by_name(request: RunFunnelReportRequest, steps: Seq<Json>)
    ensures
        request.payload_tree(steps).field("funnelBreakdown"@) == (match request.funnel_breakdown {
            Some(held) => Some(ga_client::camel_tree(held@)),
            None => None,
        }),
        request.payload_tree(steps).field("funnelNextAction"@) == (match request.funnel_next_action {
            Some(held) => Some(ga_client::camel_tree(held@)),
            None => None,
        }),
        request.payload_tree(steps).field("dimensionFilter"@) == (match request.dimension_filter {
            Some(held) => Some(ga_client::camel_tree(held@)),
            None => None,
        }),
        match request.segments {
            Some(held) => request.payload_tree(steps).field("segments"@) matches Some(
                Tree::List(items),
            )
                && items.len() == held@.len() && forall|i: int|
                0 <= i < items.len() ==> #[trigger] items[i] == ga_client::camel_tree(held@[i]@),
            None => request.payload_tree(steps).field("segments"@) is None,
        },
        request.payload_tree(steps).field("limit"@) == (match request.limit {
            Some(n) => Some(Tree::Text(text::decimal(n as nat))),
            None => None,
        }),
        request.payload_tree(steps).field("returnPropertyQuota"@)
            == Some(Tree::Bool(request.return_property_quota)),
        request.payload_tree(steps).field("funnelVisualizationType"@) == (
        match request.funnel_visualization_type {
            Some(held) => Some(Tree::Text(held@)),
            None => None,
        }),
        match request.payload_tree(steps).field("dateRanges"@) {
            Some(Tree::List(items)) => request.date_ranges@.len() > 0 && items.len()
                == request.date_ranges@.len() && forall|i: int|
                0 <= i < items.len() ==> #[trigger] items[i] == ga_client::camel_tree(
                    request.date_ranges@[i]@,
                ),
            Some(_) => false,
            None => request.date_ranges@.len() == 0,
        },
        request.payload_tree(steps).field("funnel"@) matches Some(funnel) && funnel.field(
            "isOpenFunnel"@,
        ) == Some(Tree::Bool(request.is_open_funnel)) && (funnel.field("steps"@) matches Some(
            Tree::List(items),
        ) && items.len() == steps.len() && forall|i: int|
            0 <= i < items.len() ==> #[trigger] items[i] == ga_client::camel_tree(steps[i]@)),
{
    broadcast use json::group_found;

    reveal_strlit("funnel");
    assert("funnel"@.len() == 6);
    reveal_strlit("returnPropertyQuota");
    assert("returnPropertyQuota"@.len() == 19);
    reveal_strlit("dateRanges");
    assert("dateRanges"@.len() == 10);
    reveal_strlit("funnelBreakdown");
    assert("funnelBreakdown"@.len() == 15);
    reveal_strlit("funnelNextAction");
    assert("funnelNextAction"@.len() == 16);
    reveal_strlit("dimensionFilter");
    assert("dimensionFilter"@.len() == 15);
    reveal_strlit("funnelVisualizationType");
    assert("funnelVisualizationType"@.len() == 23);
    reveal_strlit("segments");
    assert("segments"@.len() == 8);
    reveal_strlit("limit");
    assert("limit"@.len() == 5);
    reveal_strlit("isOpenFunnel");
    assert("isOpenFunnel"@.len() == 12);
    reveal_strlit("steps");
    assert("steps"@.len() == 5);
    reveal_strlit("name");
    assert("name"@.len() == 4);
    assert("funnelBreakdown"@[0] != "dimensionFilter"@[0]);
    assert("limit"@[0] != "steps"@[0]);
}

/// A compatibility check is sent with the names as they are, in their order.
pub proof fn law_compatibility_checks_are_sent_by_name(
    dimensions: Seq<String>,
    metrics: Seq<String>,
)
    ensures
        compatibility_payload(dimensions, metrics).field("dimensions"@) matches Some(
            Tree::List(items),
        ) && items.len() == dimensions.len() && forall|i: int|
            0 <= i < items.len() ==> (#[trigger] items[i]).field("name"@) == Some(
                Tree::Text(dimensions[i]@),
            ),
        compatibility_payload(dimensions, metrics).field("metrics"@) matches Some(
            Tree::List(items),
        ) && items.len() == metrics.len() && forall|i: int|
            0 <= i < items.len() ==> (#[trigger] items[i]).field("name"@) == Some(
                Tree::Text(metrics[i]@),
            ),
{
    broadcast use json::group_found;

    reveal_strlit("dimensions");
    assert("dimensions"@.len() == 10);
    reveal_strlit("metrics");
    assert("metrics"@.len() == 7);
    reveal_strlit("name");
    assert("name"@.len() == 4);
}

} // verus!
