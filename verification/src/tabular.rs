//! Tables: how the answer to a report becomes rows, and how rows are shown.

use vstd::prelude::*;
use vstd::string::*;

use crate::contract;
use crate::contract::{Column, ColumnMeta, OutputMode, TableMeta, TabularMeta};
use crate::cursors;
use crate::error;
use crate::error::{AnalyticsError, Problem};
use crate::json;
use crate::json::{Json, Object, Tree};
use crate::text;

verus! {

/// A table: some of its rows, how many there are in all, its columns, and what the
/// answer said beside them.
#[derive(Debug)]
pub struct GaTabularProjection {
    pub rows: Vec<Object>,
    pub row_count_total: usize,
    pub columns: Vec<ColumnMeta>,
    pub ga_meta: Json,
}

/// What a table says.
#[verifier::ext_equal]
pub struct Table {
    pub rows: Seq<Seq<(Seq<char>, Tree)>>,
    pub row_count_total: usize,
    pub columns: Seq<Column>,
    pub ga_meta: Tree,
}

impl View for GaTabularProjection {
    type V = Table;

    open spec fn view(&self) -> Table {
        Table {
            rows: json::objects_view(self.rows@),
            row_count_total: self.row_count_total,
            columns: contract::columns_view(self.columns@),
            ga_meta: self.ga_meta@,
        }
    }
}

/// How the answer to a tabular query is shown.
#[derive(Debug)]
pub struct TabularResponseOptions {
    pub query_hash: String,
    pub output_mode: OutputMode,
    pub summary_only: bool,
    pub max_cell_chars: Option<usize>,
    pub cursor_offset: u64,
}

// ---------------------------------------------------------------------------
// Columns.
// ---------------------------------------------------------------------------

/// The name in a column header; `prefix` and the position where it has none.
pub open spec fn header_name(
    header: Tree,
    other_key: Seq<char>,
    prefix: Seq<char>,
    idx: int,
) -> Seq<char> {
    match header.either_field("name"@, other_key) {
        Some(Tree::Text(name)) => if text::is_blank(name) {
            prefix + text::decimal(idx as nat)
        } else {
            name
        },
        _ => prefix + text::decimal(idx as nat),
    }
}

/// `prefix` and a position.
pub fn fallback_column_name(prefix: &str, idx: usize) -> (r: String)
    ensures
        r@ == prefix@ + text::decimal(idx as nat),
{
    error::labelled(prefix, text::decimal_text(idx as u64).as_str())
}

fn name_in_header(header: &Json, other_key: &str, prefix: &str, idx: usize) -> (r: String)
    ensures
        r@ == header_name(header@, other_key@, prefix@, idx as int),
{
    match header.get_either("name", other_key) {
        Some(value) => match value.as_str() {
            Some(name) => if text::blank(name) {
                fallback_column_name(prefix, idx)
            } else {
                name.to_owned()
            },
            None => fallback_column_name(prefix, idx),
        },
        None => fallback_column_name(prefix, idx),
    }
}

/// The column of a dimension header.
pub open spec fn dimension_column(header: Tree, idx: int) -> Column {
    Column {
        name: header_name(header, "dimensionName"@, "dimension_"@, idx),
        logical_type: Some(
            match header.text_field("type"@) {
                Some(shown) => shown,
                None => "string"@,
            },
        ),
        nullable: Some(true),
    }
}

/// The logical type for the type of a metric.
pub open spec fn metric_logical_type(metric_type: Seq<char>) -> Seq<char> {
    if metric_type == "TYPE_INTEGER"@ || metric_type == "TYPE_STANDARD"@ || metric_type
        == "TYPE_HOURS"@ || metric_type == "TYPE_SECONDS"@ || metric_type
        == "TYPE_MILLISECONDS"@ {
        "integer"@
    } else if metric_type == "TYPE_CURRENCY"@ {
        "currency"@
    } else if metric_type == "TYPE_FEET"@ || metric_type == "TYPE_MILES"@ || metric_type
        == "TYPE_METERS"@ || metric_type == "TYPE_KILOMETERS"@ {
        "distance"@
    } else if metric_type == "TYPE_MINUTES"@ {
        "duration_minutes"@
    } else {
        "number"@
    }
}

/// The logical type for the type of a metric.
pub fn metric_header_logical_type(metric_type: &str) -> (r: &'static str)
    ensures
        r@ == metric_logical_type(metric_type@),
{
    if text::same_text(metric_type, "TYPE_INTEGER") || text::same_text(
        metric_type,
        "TYPE_STANDARD",
    ) || text::same_text(metric_type, "TYPE_HOURS") || text::same_text(
        metric_type,
        "TYPE_SECONDS",
    ) || text::same_text(metric_type, "TYPE_MILLISECONDS") {
        "integer"
    } else if text::same_text(metric_type, "TYPE_CURRENCY") {
        "currency"
    } else if text::same_text(metric_type, "TYPE_FEET") || text::same_text(
        metric_type,
        "TYPE_MILES",
    ) || text::same_text(metric_type, "TYPE_METERS") || text::same_text(
        metric_type,
        "TYPE_KILOMETERS",
    ) {
        "distance"
    } else if text::same_text(metric_type, "TYPE_MINUTES") {
        "duration_minutes"
    } else {
        "number"
    }
}

/// The column of a metric header.
pub open spec fn metric_column(header: Tree, idx: int) -> Column {
    Column {
        name: header_name(header, "metricName"@, "metric_"@, idx),
        logical_type: Some(
            match header.text_field("type"@) {
                Some(shown) => metric_logical_type(shown),
                None => "number"@,
            },
        ),
        nullable: Some(true),
    }
}

/// The items of a list in an answer; none where it has no such list.
pub open spec fn listed(response: Tree, key: Seq<char>) -> Seq<Tree> {
    match response.list_field(key) {
        Some(items) => items,
        None => Seq::<Tree>::empty(),
    }
}

/// The columns of the dimensions of an answer.
pub open spec fn dimension_columns(response: Tree) -> Seq<Column> {
    let headers = listed(response, "dimensionHeaders"@);
    Seq::new(headers.len(), |i: int| dimension_column(headers[i], i))
}

/// The columns of the metrics of an answer.
pub open spec fn metric_columns(response: Tree) -> Seq<Column> {
    let headers = listed(response, "metricHeaders"@);
    Seq::new(headers.len(), |i: int| metric_column(headers[i], i))
}

/// The columns of the dimensions of an answer.
pub fn extract_dimension_columns(response: &Json) -> (r: Vec<ColumnMeta>)
    ensures
        contract::columns_view(r@) == dimension_columns(response@),
{
    let mut r: Vec<ColumnMeta> = Vec::new();
    match response.array_at("dimensionHeaders") {
        Some(headers) => {
            for i in 0..headers.len()
                invariant
                    r@.len() == i,
                    forall|j: int|
                        0 <= j < i ==> (#[trigger] r@[j])@ == dimension_column(headers@[j]@, j),
            {
                let header: &Json = &headers[i];
                let name: String = name_in_header(header, "dimensionName", "dimension_", i);
                let logical_type: &str = match header.text_at("type") {
                    Some(shown) => shown,
                    None => "string",
                };
                let column = ColumnMeta::new(name.as_str()).with_nullable(true).with_logical_type(
                    logical_type,
                );
                r.push(column);
            }
        },
        None => {},
    }
    assert(contract::columns_view(r@) =~= dimension_columns(response@));
    r
}

/// The columns of the metrics of an answer.
pub fn extract_metric_columns(response: &Json) -> (r: Vec<ColumnMeta>)
    ensures
        contract::columns_view(r@) == metric_columns(response@),
{
    let mut r: Vec<ColumnMeta> = Vec::new();
    match response.array_at("metricHeaders") {
        Some(headers) => {
            for i in 0..headers.len()
                invariant
                    r@.len() == i,
                    forall|j: int|
                        0 <= j < i ==> (#[trigger] r@[j])@ == metric_column(headers@[j]@, j),
            {
                let header: &Json = &headers[i];
                let name: String = name_in_header(header, "metricName", "metric_", i);
                let logical_type: &str = match header.text_at("type") {
                    Some(shown) => metric_header_logical_type(shown),
                    None => "number",
                };
                let column = ColumnMeta::new(name.as_str()).with_logical_type(
                    logical_type,
                ).with_nullable(true);
                r.push(column);
            }
        },
        None => {},
    }
    assert(contract::columns_view(r@) =~= metric_columns(response@));
    r
}

// ---------------------------------------------------------------------------
// Rows.
// ---------------------------------------------------------------------------

/// The value at a position of a list in a row; null where the row has none there.
pub open spec fn cell(row: Tree, key: Seq<char>, idx: int) -> Tree {
    let values = listed(row, key);
    if 0 <= idx < values.len() {
        json::opt_tree(values[idx].field("value"@))
    } else {
        Tree::Null
    }
}

/// `entries` with the first `n` values of a list in a row, each under the name of its
/// column.
pub open spec fn with_cells(
    entries: Seq<(Seq<char>, Tree)>,
    columns: Seq<Column>,
    row: Tree,
    key: Seq<char>,
    n: nat,
) -> Seq<(Seq<char>, Tree)>
    decreases n,
{
    if n == 0 {
        entries
    } else {
        json::entered(
            with_cells(entries, columns, row, key, (n - 1) as nat),
            columns[n - 1].name,
            cell(row, key, n - 1),
        )
    }
}

/// A row of an answer as an object: its dimensions, then its metrics.
pub open spec fn row_entries(
    row: Tree,
    dimensions: Seq<Column>,
    metrics: Seq<Column>,
) -> Seq<(Seq<char>, Tree)> {
    with_cells(
        with_cells(json::fields(), dimensions, row, "dimensionValues"@, dimensions.len()),
        metrics,
        row,
        "metricValues"@,
        metrics.len(),
    )
}

/// The rows of an answer as objects.
pub open spec fn projected_rows(
    response: Tree,
    dimensions: Seq<Column>,
    metrics: Seq<Column>,
) -> Seq<Seq<(Seq<char>, Tree)>> {
    let rows = listed(response, "rows"@);
    Seq::new(rows.len(), |i: int| row_entries(rows[i], dimensions, metrics))
}

fn cell_of(row: &Json, key: &str, idx: usize) -> (r: Json)
    ensures
        r@ == cell(row@, key@, idx as int),
{
    match row.array_at(key) {
        Some(values) => {
            if idx < values.len() {
                assert(json::trees(values@)[idx as int] == values@[idx as int]@);
                values[idx].copy_at("value")
            } else {
                Json::Null
            }
        },
        None => Json::Null,
    }
}

fn put_cells(object: &mut Object, columns: &[ColumnMeta], row: &Json, key: &str)
    ensures
        final(object)@ == with_cells(
            old(object)@,
            contract::columns_view(columns@),
            row@,
            key@,
            columns@.len(),
        ),
{
    let ghost before = object@;
    for i in 0..columns.len()
        invariant
            object@ == with_cells(
                before,
                contract::columns_view(columns@),
                row@,
                key@,
                i as nat,
            ),
    {
        assert(contract::columns_view(columns@)[i as int].name == columns@[i as int].name@);
        object.insert(columns[i].name.as_str(), cell_of(row, key, i));
    }
}

/// The rows of an answer as objects.
pub fn project_ga_rows_to_objects(
    response: &Json,
    dimension_columns: &[ColumnMeta],
    metric_columns: &[ColumnMeta],
) -> (r: Vec<Object>)
    ensures
        json::objects_view(r@) == projected_rows(
            response@,
            contract::columns_view(dimension_columns@),
            contract::columns_view(metric_columns@),
        ),
{
    let ghost dimensions = contract::columns_view(dimension_columns@);
    let ghost metrics = contract::columns_view(metric_columns@);
    let mut r: Vec<Object> = Vec::new();
    match response.array_at("rows") {
        Some(rows) => {
            for i in 0..rows.len()
                invariant
                    dimensions == contract::columns_view(dimension_columns@),
                    metrics == contract::columns_view(metric_columns@),
                    r@.len() == i,
                    forall|j: int|
                        0 <= j < i ==> (#[trigger] r@[j])@ == row_entries(
                            rows@[j]@,
                            dimensions,
                            metrics,
                        ),
            {
                let mut projected = Object::new();
                put_cells(&mut projected, dimension_columns, &rows[i], "dimensionValues");
                put_cells(&mut projected, metric_columns, &rows[i], "metricValues");
                r.push(projected);
            }
        },
        None => {},
    }
    assert(json::objects_view(r@) =~= projected_rows(response@, dimensions, metrics));
    r
}

/// How many rows an answer says there are in all.
pub open spec fn row_count(response: Tree) -> Option<usize> {
    match response.field("rowCount"@) {
        Some(Tree::Text(shown)) => match text::parsed_u64(text::trim(shown)) {
            Some(n) => if n <= usize::MAX {
                Some(n as usize)
            } else {
                None
            },
            None => None,
        },
        Some(value) => match value.as_u64() {
            Some(n) => Some(n as usize),
            None => None,
        },
        None => None,
    }
}

/// How many rows an answer says there are in all.
pub fn extract_row_count(response: &Json) -> (r: Option<usize>)
    ensures
        r == row_count(response@),
{
    match response.get("rowCount") {
        Some(value) => {
            match value.as_u64() {
                Some(n) => {
                    return Some(n as usize);
                },
                None => {},
            }
            match value.as_str() {
                Some(shown) => match text::parse_u64(text::trimmed(shown).as_str()) {
                    Some(n) => if n <= usize::MAX as u64 {
                        Some(n as usize)
                    } else {
                        None
                    },
                    None => None,
                },
                None => None,
            }
        },
        None => None,
    }
}

// ---------------------------------------------------------------------------
// Tables of answers.
// ---------------------------------------------------------------------------

/// What an answer says beside its rows.
pub open spec fn answer_meta(response: Tree, report_kind: Seq<char>) -> Tree {
    Tree::Dict(
        json::fields()
            .push(("report_kind"@, Tree::Text(report_kind)))
            .push(("kind"@, json::opt_tree(response.field("kind"@))))
            .push(("metadata"@, json::opt_tree(response.field("metadata"@))))
            .push(("property_quota"@, json::opt_tree(response.field("propertyQuota"@))))
            .push(("quota"@, json::opt_tree(response.field("quota"@))))
            .push(("totals"@, json::opt_tree(response.field("totals"@))))
            .push(("maximums"@, json::opt_tree(response.field("maximums"@))))
            .push(("minimums"@, json::opt_tree(response.field("minimums"@))))
            .push(("aggregates"@, json::opt_tree(response.field("aggregates"@))))
            .push(("pivot_headers"@, json::opt_tree(response.field("pivotHeaders"@))))
            .push(("comparisons"@, json::opt_tree(response.field("comparisons"@)))),
    )
}

fn answer_meta_value(response: &Json, report_kind: &str) -> (r: Json)
    ensures
        r@ == answer_meta(response@, report_kind@),
{
    let mut object = Object::new();
    object.put("report_kind", json::string(report_kind));
    object.put("kind", response.copy_at("kind"));
    object.put("metadata", response.copy_at("metadata"));
    object.put("property_quota", response.copy_at("propertyQuota"));
    object.put("quota", response.copy_at("quota"));
    object.put("totals", response.copy_at("totals"));
    object.put("maximums", response.copy_at("maximums"));
    object.put("minimums", response.copy_at("minimums"));
    object.put("aggregates", response.copy_at("aggregates"));
    object.put("pivot_headers", response.copy_at("pivotHeaders"));
    object.put("comparisons", response.copy_at("comparisons"));
    json::dict(object)
}

/// The table of an answer.
pub open spec fn answer_table(response: Tree, report_kind: Seq<char>) -> Table {
    let dimensions = dimension_columns(response);
    let metrics = metric_columns(response);
    let rows = projected_rows(response, dimensions, metrics);
    Table {
        rows,
        row_count_total: match row_count(response) {
            Some(n) => n,
            None => rows.len() as usize,
        },
        columns: dimensions + metrics,
        ga_meta: answer_meta(response, report_kind),
    }
}

/// The table of an answer.
pub fn project_ga_tabular_response(response: &Json, report_kind: &str) -> (r: GaTabularProjection)
    ensures
        r@ == answer_table(response@, report_kind@),
{
    let mut columns: Vec<ColumnMeta> = extract_dimension_columns(response);
    let metrics: Vec<ColumnMeta> = extract_metric_columns(response);
    let rows: Vec<Object> = project_ga_rows_to_objects(
        response,
        columns.as_slice(),
        metrics.as_slice(),
    );
    let ghost dimensions = contract::columns_view(columns@);
    let row_count_total: usize = match extract_row_count(response) {
        Some(n) => n,
        None => rows.len(),
    };
    let n: usize = metrics.len();
    assert(contract::columns_view(columns@) =~= dimensions + contract::columns_view(
        metrics@,
    ).take(0));
    for i in 0..n
        invariant
            n == metrics@.len(),
            contract::columns_view(columns@) == dimensions + contract::columns_view(
                metrics@,
            ).take(i as int),
    {
        let ghost held = columns@;
        columns.push(metrics[i].clone());
        assert(contract::columns_view(columns@) =~= contract::columns_view(held).push(
            metrics@[i as int]@,
        ));
        assert(contract::columns_view(metrics@).take(i + 1) =~= contract::columns_view(
            metrics@,
        ).take(i as int).push(metrics@[i as int]@));
    }
    assert(contract::columns_view(metrics@).take(n as int) =~= contract::columns_view(metrics@));
    let r = GaTabularProjection {
        rows,
        row_count_total,
        columns,
        ga_meta: answer_meta_value(response, report_kind),
    };
    assert(r@ =~= answer_table(response@, report_kind@));
    r
}

// ---------------------------------------------------------------------------
// The shape of answers.
// ---------------------------------------------------------------------------

/// The check that the item at a position is an object.
pub open spec fn object_check(items: Seq<Tree>, label: Seq<char>) -> spec_fn(int) -> Option<
    Problem,
> {
    |i: int|
        if items[i] is Dict {
            None
        } else {
            Some(
                Problem::Internal(
                    label + "["@ + text::decimal(i as nat) + "] must be an object"@,
                ),
            )
        }
}

/// What is wrong with a list of objects in an answer; that it is missing is no fault.
pub open spec fn list_problem(
    owner: Tree,
    field: Seq<char>,
    list_label: Seq<char>,
    item_label: Seq<char>,
) -> Option<Problem> {
    match owner.field(field) {
        None => None,
        Some(Tree::List(items)) => error::first_problem(
            items.len(),
            object_check(items, item_label + field),
        ),
        Some(_) => Some(Problem::Internal(list_label + field + " must be an array"@)),
    }
}

fn check_list(owner: &Json, field: &str, list_label: &str, item_label: &str) -> (r: Result<
    (),
    AnalyticsError,
>)
    ensures
        error::outcome(r) == list_problem(owner@, field@, list_label@, item_label@),
{
    let value: &Json = match owner.get(field) {
        Some(value) => value,
        None => {
            return Ok(());
        },
    };
    let items: &Vec<Json> = match value.as_array() {
        Some(items) => items,
        None => {
            let mut message: String = error::labelled(list_label, field);
            message.append(" must be an array");
            return Err(AnalyticsError::internal(message.as_str()));
        },
    };
    let label: String = error::labelled(item_label, field);
    let ghost check = object_check(json::trees(items@), label@);
    let n: usize = items.len();
    for i in 0..n
        invariant
            n == items@.len(),
            check == object_check(json::trees(items@), label@),
            owner@.field(field@) == Some(Tree::List(json::trees(items@))),
            label@ == item_label@ + field@,
            error::first_problem(i as nat, check) is None,
    {
        assert(json::trees(items@)[i as int] == items@[i as int]@);
        assert(check(i as int) is None == (items@[i as int]@ is Dict));
        if !items[i].is_object() {
            proof {
                error::lemma_first_problem(n as nat, (i + 1) as nat, check);
            }
            let mut message: String = error::labelled(label.as_str(), "[");
            message.append(text::decimal_text(i as u64).as_str());
            message.append("] must be an object");
            return Err(AnalyticsError::internal(message.as_str()));
        }
    }
    Ok(())
}

/// The check of the values of the row at a position.
pub open spec fn row_check(rows: Seq<Tree>, label: Seq<char>) -> spec_fn(int) -> Option<Problem> {
    |i: int| row_problem(rows[i], label + "rows["@ + text::decimal(i as nat) + "]."@)
}

/// What is wrong with the values of a row.
pub open spec fn row_problem(row: Tree, label: Seq<char>) -> Option<Problem> {
    error::earlier(
        list_problem(row, "dimensionValues"@, label, label),
        list_problem(row, "metricValues"@, label, label),
    )
}

fn check_row(row: &Json, label: &str) -> (r: Result<(), AnalyticsError>)
    ensures
        error::outcome(r) == row_problem(row@, label@),
{
    match check_list(row, "dimensionValues", label, label) {
        Err(err) => Err(err),
        Ok(()) => check_list(row, "metricValues", label, label),
    }
}

/// What is wrong with the headers and rows of an answer.
pub open spec fn table_problem(
    owner: Tree,
    list_label: Seq<char>,
    item_label: Seq<char>,
) -> Option<Problem> {
    error::earlier(
        list_problem(owner, "dimensionHeaders"@, list_label, item_label),
        error::earlier(
            list_problem(owner, "metricHeaders"@, list_label, item_label),
            error::earlier(
                list_problem(owner, "rows"@, list_label, item_label),
                error::first_problem(
                    listed(owner, "rows"@).len(),
                    row_check(listed(owner, "rows"@), item_label),
                ),
            ),
        ),
    )
}

fn check_rows(owner: &Json, label: &str) -> (r: Result<(), AnalyticsError>)
    ensures
        error::outcome(r) == error::first_problem(
            listed(owner@, "rows"@).len(),
            row_check(listed(owner@, "rows"@), label@),
        ),
{
    let rows: &Vec<Json> = match owner.array_at("rows") {
        Some(rows) => rows,
        None => {
            return Ok(());
        },
    };
    let ghost all = listed(owner@, "rows"@);
    let ghost check = row_check(all, label@);
    let n: usize = rows.len();
    for i in 0..n
        invariant
            n == rows@.len(),
            all == json::trees(rows@),
            all == listed(owner@, "rows"@),
            check == row_check(all, label@),
            error::first_problem(i as nat, check) is None,
    {
        let mut place: String = error::labelled(label, "rows[");
        place.append(text::decimal_text(i as u64).as_str());
        place.append("].");
        assert(all[i as int] == rows@[i as int]@);
        assert(check(i as int) == row_problem(rows@[i as int]@, place@));
        match check_row(&rows[i], place.as_str()) {
            Err(err) => {
                proof {
                    error::lemma_first_problem(n as nat, (i + 1) as nat, check);
                }
                return Err(err);
            },
            Ok(()) => {},
        }
    }
    Ok(())
}

/// Checks the headers and rows of an answer.
pub fn check_table(owner: &Json, list_label: &str, item_label: &str) -> (r: Result<
    (),
    AnalyticsError,
>)
    ensures
        error::outcome(r) == table_problem(owner@, list_label@, item_label@),
{
    match check_list(owner, "dimensionHeaders", list_label, item_label) {
        Err(err) => {
            return Err(err);
        },
        Ok(()) => {},
    }
    match check_list(owner, "metricHeaders", list_label, item_label) {
        Err(err) => {
            return Err(err);
        },
        Ok(()) => {},
    }
    match check_list(owner, "rows", list_label, item_label) {
        Err(err) => Err(err),
        Ok(()) => check_rows(owner, item_label),
    }
}

/// What is wrong with the answer to a report.
pub open spec fn answer_problem(response: Tree, report_kind: Seq<char>) -> Option<Problem> {
    let label = "Google "@ + report_kind + " response "@;
    if !(response is Dict) {
        Some(Problem::Internal("Google "@ + report_kind + " response must be an object"@))
    } else if response.field("rowCount"@) is Some && response.field("rowCount"@)->0.as_u64() is None {
        Some(
            Problem::Internal(
                "Google "@ + report_kind
                    + " response field rowCount must be a non-negative integer"@,
            ),
        )
    } else {
        table_problem(response, "Google "@ + report_kind + " response field "@, label)
    }
}

fn answer_label(report_kind: &str, rest: &str) -> (r: String)
    ensures
        r@ == "Google "@ + report_kind@ + rest@,
{
    let mut r: String = error::labelled("Google ", report_kind);
    r.append(rest);
    r
}

/// Checks the answer to a report.
pub fn validate_ga_tabular_response_shape(response: &Json, report_kind: &str) -> (r: Result<
    (),
    AnalyticsError,
>)
    ensures
        error::outcome(r) == answer_problem(response@, report_kind@),
{
    if !response.is_object() {
        return Err(
            AnalyticsError::internal(
                answer_label(report_kind, " response must be an object").as_str(),
            ),
        );
    }
    match response.get("rowCount") {
        Some(count) => {
            if count.as_u64().is_none() {
                return Err(
                    AnalyticsError::internal(
                        answer_label(
                            report_kind,
                            " response field rowCount must be a non-negative integer",
                        ).as_str(),
                    ),
                );
            }
        },
        None => {},
    }
    check_table(
        response,
        answer_label(report_kind, " response field ").as_str(),
        answer_label(report_kind, " response ").as_str(),
    )
}

// ---------------------------------------------------------------------------
// Clipping.
// ---------------------------------------------------------------------------

/// Whether a value is a text of more than `max_chars` characters.
pub open spec fn is_long(value: Tree, max_chars: usize) -> bool {
    match value {
        Tree::Text(raw) => raw.len() > max_chars,
        _ => false,
    }
}

/// A value, cut where it is a text of more than `max_chars` characters.
pub open spec fn clipped_value(value: Tree, max_chars: usize) -> Tree {
    match value {
        Tree::Text(raw) => if raw.len() > max_chars {
            Tree::Text(raw.take(max_chars as int) + "..."@)
        } else {
            value
        },
        _ => value,
    }
}

/// A value, cut where it is a text of more than `max_chars` characters, and whether it
/// was.
pub fn clip_value(value: &Json, max_chars: usize) -> (r: (Json, bool))
    ensures
        r.0@ == clipped_value(value@, max_chars),
        r.1 == is_long(value@, max_chars),
{
    match value.as_str() {
        Some(raw) => {
            let chars: Vec<char> = text::chars_of(raw);
            if chars.len() <= max_chars {
                return (value.clone(), false);
            }
            let mut kept: String = text::text_between(chars.as_slice(), 0, max_chars);
            assert(kept@ =~= raw@.take(max_chars as int));
            kept.append("...");
            (json::string(kept.as_str()), true)
        },
        None => (value.clone(), false),
    }
}

/// The values of a row, each cut.
pub open spec fn clipped_row(row: Seq<(Seq<char>, Tree)>, max_chars: usize) -> Seq<
    (Seq<char>, Tree),
> {
    Seq::new(row.len(), |i: int| (row[i].0, clipped_value(row[i].1, max_chars)))
}

/// The values of rows, each cut.
pub open spec fn clipped_rows(
    rows: Seq<Seq<(Seq<char>, Tree)>>,
    max_chars: usize,
) -> Seq<Seq<(Seq<char>, Tree)>> {
    Seq::new(rows.len(), |i: int| clipped_row(rows[i], max_chars))
}

/// How many values of a row are cut.
pub open spec fn long_in_row(row: Seq<(Seq<char>, Tree)>, max_chars: usize) -> nat
    decreases row.len(),
{
    if row.len() == 0 {
        0
    } else {
        long_in_row(row.drop_last(), max_chars) + if is_long(row.last().1, max_chars) {
            1nat
        } else {
            0nat
        }
    }
}

/// How many values of rows are cut.
pub open spec fn long_in_rows(rows: Seq<Seq<(Seq<char>, Tree)>>, max_chars: usize) -> nat
    decreases rows.len(),
{
    if rows.len() == 0 {
        0
    } else {
        long_in_rows(rows.drop_last(), max_chars) + long_in_row(rows.last(), max_chars)
    }
}

/// `n`, or the largest number of the machine where it is larger.
pub open spec fn capped(n: nat) -> usize {
    if n > usize::MAX {
        usize::MAX
    } else {
        n as usize
    }
}

/// One row with its values cut, and `count` with those that were.
fn clip_row(row: &Object, max_chars: usize, count: usize, before: Ghost<nat>) -> (r: (
    Object,
    usize,
))
    requires
        count == capped(before@),
    ensures
        r.0@ == clipped_row(row@, max_chars),
        r.1 == capped(before@ + long_in_row(row@, max_chars)),
{
    let mut output = Object::new();
    let mut clipped_cells: usize = count;
    let n: usize = row.entries.len();
    let ghost cells = row@;
    assert(cells.take(0) =~= Seq::<(Seq<char>, Tree)>::empty());
    for i in 0..n
        invariant
            n == row.entries@.len(),
            cells == row@,
            output@.len() == i,
            forall|j: int|
                0 <= j < i ==> #[trigger] output@[j] == (
                    cells[j].0,
                    clipped_value(cells[j].1, max_chars),
                ),
            clipped_cells == capped(before@ + long_in_row(cells.take(i as int), max_chars)),
    {
        assert(cells.take(i + 1).drop_last() =~= cells.take(i as int));
        let (next, clipped): (Json, bool) = clip_value(&row.entries[i].1, max_chars);
        if clipped && clipped_cells < usize::MAX {
            clipped_cells = clipped_cells + 1;
        }
        output.put(row.entries[i].0.as_str(), next);
    }
    assert(cells.take(n as int) =~= cells);
    assert(output@ =~= clipped_row(row@, max_chars));
    (output, clipped_cells)
}

/// Rows with their values cut, and how many were.
pub fn clip_rows(rows: &[Object], max_chars: usize) -> (r: (Vec<Object>, usize))
    ensures
        json::objects_view(r.0@) == clipped_rows(json::objects_view(rows@), max_chars),
        r.1 == capped(long_in_rows(json::objects_view(rows@), max_chars)),
{
    let ghost all = json::objects_view(rows@);
    let mut output: Vec<Object> = Vec::new();
    let mut clipped_cells: usize = 0;
    assert(all.take(0) =~= Seq::<Seq<(Seq<char>, Tree)>>::empty());
    for i in 0..rows.len()
        invariant
            all == json::objects_view(rows@),
            output@.len() == i,
            forall|j: int|
                0 <= j < i ==> (#[trigger] output@[j])@ == clipped_row(all[j], max_chars),
            clipped_cells == capped(long_in_rows(all.take(i as int), max_chars)),
    {
        assert(all.take(i + 1).drop_last() =~= all.take(i as int));
        assert(all[i as int] == rows@[i as int]@);
        let (row, count): (Object, usize) = clip_row(
            &rows[i],
            max_chars,
            clipped_cells,
            Ghost(long_in_rows(all.take(i as int), max_chars)),
        );
        output.push(row);
        clipped_cells = count;
    }
    assert(all.take(rows@.len() as int) =~= all);
    assert(json::objects_view(output@) =~= clipped_rows(all, max_chars));
    (output, clipped_cells)
}

/// What is said of the clipping of values.
pub open spec fn clipping_tree(max_chars: usize, clipped_cells: usize) -> Tree {
    Tree::Dict(
        json::fields()
            .push(("enabled"@, Tree::Bool(true)))
            .push(("max_cell_chars"@, Tree::Whole(max_chars as int)))
            .push(("clipped_cells"@, Tree::Whole(clipped_cells as int)))
            .push(("applied"@, Tree::Bool(clipped_cells > 0))),
    )
}

fn clipping_value(max_chars: usize, clipped_cells: usize) -> (r: Json)
    ensures
        r@ == clipping_tree(max_chars, clipped_cells),
{
    let mut object = Object::new();
    object.put("enabled", json::boolean(true));
    object.put("max_cell_chars", json::size(max_chars));
    object.put("clipped_cells", json::size(clipped_cells));
    object.put("applied", json::boolean(clipped_cells > 0));
    json::dict(object)
}

// ---------------------------------------------------------------------------
// Payloads.
// ---------------------------------------------------------------------------

/// The value of a column in a row; null where the row has none.
pub open spec fn value_in(row: Seq<(Seq<char>, Tree)>, column: Column) -> Tree {
    json::opt_tree(json::lookup(row, column.name))
}

/// The values of a row, in the order of the columns.
pub open spec fn tuple(row: Seq<(Seq<char>, Tree)>, columns: Seq<Column>) -> Tree {
    Tree::List(Seq::new(columns.len(), |i: int| value_in(row, columns[i])))
}

/// Rows as lists of their values.
pub open spec fn tuples(rows: Seq<Seq<(Seq<char>, Tree)>>, columns: Seq<Column>) -> Tree {
    Tree::List(Seq::new(rows.len(), |i: int| tuple(rows[i], columns)))
}

/// The value of the first column in the first row.
pub open spec fn scalar(rows: Seq<Seq<(Seq<char>, Tree)>>, columns: Seq<Column>) -> Tree {
    if rows.len() == 0 || columns.len() == 0 {
        Tree::Null
    } else {
        value_in(rows[0], columns[0])
    }
}

/// The names of columns.
pub open spec fn names_of(columns: Seq<Column>) -> Seq<Seq<char>> {
    Seq::new(columns.len(), |i: int| columns[i].name)
}

/// Rows as objects.
pub open spec fn row_dicts(rows: Seq<Seq<(Seq<char>, Tree)>>) -> Tree {
    Tree::List(Seq::new(rows.len(), |i: int| Tree::Dict(rows[i])))
}

/// What rows look like in an output mode.
pub open spec fn payload(
    rows: Seq<Seq<(Seq<char>, Tree)>>,
    columns: Seq<Column>,
    output_mode: OutputMode,
) -> Tree {
    match output_mode {
        OutputMode::Rows => row_dicts(rows),
        OutputMode::Tuples => tuples(rows, columns),
        OutputMode::Scalar => scalar(rows, columns),
        OutputMode::Compact => Tree::Dict(
            json::fields()
                .push(("columns"@, json::text_list(names_of(columns))))
                .push(("tuples"@, tuples(rows, columns)))
                .push(("row_count"@, Tree::Whole(rows.len() as int))),
        ),
    }
}

fn value_or_null(row: &Object, column: &ColumnMeta) -> (r: Json)
    ensures
        r@ == value_in(row@, column@),
{
    match row.get(column.name.as_str()) {
        Some(value) => value.clone(),
        None => Json::Null,
    }
}

fn row_to_tuple(row: &Object, columns: &[ColumnMeta]) -> (r: Json)
    ensures
        r@ == tuple(row@, contract::columns_view(columns@)),
{
    let mut values: Vec<Json> = Vec::new();
    for i in 0..columns.len()
        invariant
            values@.len() == i,
            forall|j: int| 0 <= j < i ==> (#[trigger] values@[j])@ == value_in(row@, columns@[j]@),
    {
        values.push(value_or_null(row, &columns[i]));
    }
    assert(json::trees(values@) =~= tuple(row@, contract::columns_view(columns@))->List_0);
    json::array(values)
}

/// Rows as lists of their values.
pub fn rows_to_tuples(rows: &[Object], columns: &[ColumnMeta]) -> (r: Json)
    ensures
        r@ == tuples(json::objects_view(rows@), contract::columns_view(columns@)),
{
    let ghost shown = contract::columns_view(columns@);
    let mut items: Vec<Json> = Vec::new();
    for i in 0..rows.len()
        invariant
            shown == contract::columns_view(columns@),
            items@.len() == i,
            forall|j: int| 0 <= j < i ==> (#[trigger] items@[j])@ == tuple(rows@[j]@, shown),
    {
        items.push(row_to_tuple(&rows[i], columns));
    }
    assert(json::trees(items@) =~= tuples(json::objects_view(rows@), shown)->List_0);
    json::array(items)
}

/// The value of the first column in the first row.
pub fn first_scalar(rows: &[Object], columns: &[ColumnMeta]) -> (r: Json)
    ensures
        r@ == scalar(json::objects_view(rows@), contract::columns_view(columns@)),
{
    if rows.len() == 0 || columns.len() == 0 {
        return Json::Null;
    }
    value_or_null(&rows[0], &columns[0])
}

fn rows_to_objects(rows: &[Object]) -> (r: Json)
    ensures
        r@ == row_dicts(json::objects_view(rows@)),
{
    let mut items: Vec<Json> = Vec::new();
    for i in 0..rows.len()
        invariant
            items@.len() == i,
            forall|j: int| 0 <= j < i ==> (#[trigger] items@[j])@ == Tree::Dict(rows@[j]@),
    {
        items.push(json::dict(rows[i].clone()));
    }
    assert(json::trees(items@) =~= row_dicts(json::objects_view(rows@))->List_0);
    json::array(items)
}

fn column_names(columns: &[ColumnMeta]) -> (r: Vec<String>)
    ensures
        text::texts(r@) == names_of(contract::columns_view(columns@)),
{
    let mut r: Vec<String> = Vec::new();
    for i in 0..columns.len()
        invariant
            r@.len() == i,
            forall|j: int| 0 <= j < i ==> (#[trigger] r@[j])@ == columns@[j].name@,
    {
        r.push(columns[i].name.clone());
    }
    assert(text::texts(r@) =~= names_of(contract::columns_view(columns@)));
    r
}

/// What rows look like in an output mode.
pub fn payload_by_mode(rows: &[Object], columns: &[ColumnMeta], output_mode: OutputMode) -> (r:
    Json)
    ensures
        r@ == payload(
            json::objects_view(rows@),
            contract::columns_view(columns@),
            output_mode,
        ),
{
    match output_mode {
        OutputMode::Rows => rows_to_objects(rows),
        OutputMode::Tuples => rows_to_tuples(rows, columns),
        OutputMode::Scalar => first_scalar(rows, columns),
        OutputMode::Compact => {
            let mut object = Object::new();
            object.put("columns", json::strings(column_names(columns).as_slice()));
            object.put("tuples", rows_to_tuples(rows, columns));
            object.put("row_count", json::size(rows.len()));
            json::dict(object)
        },
    }
}

/// The rows of a table as they are shown.
pub open spec fn shown_rows(table: Table, max_cell_chars: Option<usize>) -> Seq<
    Seq<(Seq<char>, Tree)>,
> {
    match max_cell_chars {
        Some(max_chars) => clipped_rows(table.rows, max_chars),
        None => table.rows,
    }
}

/// The payload of a table; none in a summary.
pub open spec fn table_payload(
    table: Table,
    output_mode: OutputMode,
    summary_only: bool,
    max_cell_chars: Option<usize>,
) -> Tree {
    if summary_only {
        Tree::Null
    } else {
        payload(shown_rows(table, max_cell_chars), table.columns, output_mode)
    }
}

/// The hint that there are more rows.
pub open spec fn more_rows_hint() -> Seq<Seq<char>> {
    seq!["additional rows are available; continue with meta.next_cursor"@]
}

/// What is said of a table beside its rows.
pub open spec fn table_meta(
    table: Table,
    output_mode: OutputMode,
    summary_only: bool,
    max_cell_chars: Option<usize>,
) -> TableMeta {
    let returned = table.rows.len();
    TableMeta {
        output_mode,
        summary_only,
        row_count_total: table.row_count_total,
        row_count_returned: returned as usize,
        truncated: returned < table.row_count_total,
        next_cursor: None,
        query_hash: None,
        columns: table.columns,
        query_hints: if table.row_count_total > returned {
            Some(more_rows_hint())
        } else {
            None
        },
        cell_clipping: match max_cell_chars {
            Some(max_chars) => Some(
                clipping_tree(max_chars, capped(long_in_rows(table.rows, max_chars))),
            ),
            None => None,
        },
    }
}

fn clone_rows(rows: &[Object]) -> (r: Vec<Object>)
    ensures
        json::objects_view(r@) == json::objects_view(rows@),
{
    let mut r: Vec<Object> = Vec::new();
    for i in 0..rows.len()
        invariant
            r@.len() == i,
            forall|j: int| 0 <= j < i ==> (#[trigger] r@[j])@ == rows@[j]@,
    {
        r.push(rows[i].clone());
    }
    assert(json::objects_view(r@) =~= json::objects_view(rows@));
    r
}

/// The payload of a table, and what is said of the table beside it.
pub fn project_payload_for_mode(
    projection: &GaTabularProjection,
    output_mode: OutputMode,
    summary_only: bool,
    max_cell_chars: Option<usize>,
) -> (r: (Json, TabularMeta))
    ensures
        r.0@ == table_payload(projection@, output_mode, summary_only, max_cell_chars),
        r.1@ == table_meta(projection@, output_mode, summary_only, max_cell_chars),
        r.1.row_count_returned == projection.rows@.len(),
{
    let (rows, cell_clipping): (Vec<Object>, Option<Json>) = match max_cell_chars {
        Some(max_chars) => {
            let (rows, clipped_cells): (Vec<Object>, usize) = clip_rows(
                projection.rows.as_slice(),
                max_chars,
            );
            (rows, Some(clipping_value(max_chars, clipped_cells)))
        },
        None => (clone_rows(projection.rows.as_slice()), None),
    };
    let ghost shown = json::objects_view(rows@);
    assert(shown == shown_rows(projection@, max_cell_chars));
    assert(shown.len() == projection.rows@.len());
    let row_count_returned: usize = rows.len();
    let mut meta: TabularMeta = TabularMeta::rows(
        projection.row_count_total,
        row_count_returned,
        contract::clone_columns(projection.columns.as_slice()),
    );
    meta.output_mode = output_mode;
    meta.summary_only = summary_only;
    meta.cell_clipping = cell_clipping;
    if projection.row_count_total > row_count_returned {
        let hints: Vec<String> = text::owned(
            &["additional rows are available; continue with meta.next_cursor"],
        );
        assert(text::texts(hints@) =~= more_rows_hint());
        meta.query_hints = Some(hints);
    }
    let payload: Json = if summary_only {
        Json::Null
    } else {
        payload_by_mode(rows.as_slice(), projection.columns.as_slice(), output_mode)
    };
    assert(meta@ =~= table_meta(projection@, output_mode, summary_only, max_cell_chars));
    (payload, meta)
}

// ---------------------------------------------------------------------------
// Answers to queries.
// ---------------------------------------------------------------------------

/// `offset` and `n` more, within the machine's numbers.
pub open spec fn advanced(offset: u64, n: int) -> u64 {
    if offset + n > u64::MAX {
        u64::MAX
    } else {
        (offset + n) as u64
    }
}

/// `offset` and `n` more, within the machine's numbers.
pub fn advance(offset: u64, n: usize) -> (r: u64)
    ensures
        r == advanced(offset, n as int),
{
    match offset.checked_add(n as u64) {
        Some(sum) => sum,
        None => u64::MAX,
    }
}

/// The cursor of the next page of a table; none behind the last row, nor behind an empty
/// page.
pub open spec fn table_cursor(table: Table, query_hash: Seq<char>, offset: u64) -> Option<
    Seq<char>,
> {
    if table.rows.len() == 0 {
        None
    } else {
        cursors::following_cursor(
            query_hash,
            advanced(offset, table.rows.len() as int),
            table.row_count_total as int,
        )
    }
}

/// What is said of the answer to a query beside its rows.
pub open spec fn answer_page_meta(table: Table, options: TabularResponseOptions) -> Tree {
    let meta = table_meta(
        table,
        options.output_mode,
        options.summary_only,
        options.max_cell_chars,
    );
    Tree::Dict(
        json::entered(
            (TableMeta {
                query_hash: Some(options.query_hash@),
                next_cursor: table_cursor(table, options.query_hash@, options.cursor_offset),
                ..meta
            }).entries(),
            "ga4"@,
            table.ga_meta,
        ),
    )
}

/// The payload of the answer to a query, and what is said beside it.
pub fn ga_projection_payload_and_meta(
    projection: GaTabularProjection,
    options: TabularResponseOptions,
) -> (r: (Json, Json))
    ensures
        r.0@ == table_payload(
            projection@,
            options.output_mode,
            options.summary_only,
            options.max_cell_chars,
        ),
        r.1@ == answer_page_meta(projection@, options),
{
    let (payload, first_meta): (Json, TabularMeta) = project_payload_for_mode(
        &projection,
        options.output_mode,
        options.summary_only,
        options.max_cell_chars,
    );
    let mut tabular_meta: TabularMeta = first_meta;
    let next_offset: u64 = advance(options.cursor_offset, tabular_meta.row_count_returned);
    if tabular_meta.row_count_returned > 0 && next_offset < projection.row_count_total as u64 {
        tabular_meta.next_cursor =
        Some(cursors::encode_cursor(options.query_hash.as_str(), next_offset));
    }
    let ghost options_view = options;
    tabular_meta.query_hash = Some(options.query_hash);
    assert(tabular_meta@ =~= (TableMeta {
        query_hash: Some(options_view.query_hash@),
        next_cursor: table_cursor(
            projection@,
            options_view.query_hash@,
            options_view.cursor_offset,
        ),
        ..table_meta(
            projection@,
            options_view.output_mode,
            options_view.summary_only,
            options_view.max_cell_chars,
        )
    }));
    let mut meta: Object = tabular_meta.to_object();
    meta.insert("ga4", projection.ga_meta);
    (payload, json::dict(meta))
}

/// The envelope of the answer to a query.
pub open spec fn answer_envelope(
    table: Table,
    options: TabularResponseOptions,
    elapsed_ms: u64,
) -> Tree {
    contract::success_tree(
        table_payload(
            table,
            options.output_mode,
            options.summary_only,
            options.max_cell_chars,
        ),
        contract::with_elapsed(answer_page_meta(table, options), elapsed_ms),
    )
}

/// The envelope of the answer to a query, from its table.
pub fn contract_success_ga_projection(
    projection: GaTabularProjection,
    elapsed_ms: u64,
    options: TabularResponseOptions,
) -> (r: Json)
    ensures
        r@ == answer_envelope(projection@, options, elapsed_ms),
{
    let (payload, meta): (Json, Json) = ga_projection_payload_and_meta(projection, options);
    contract::success_with_meta(payload, meta, elapsed_ms)
}

/// The envelope of the answer to a query.
pub fn contract_success_ga_tabular(
    data: &Json,
    elapsed_ms: u64,
    report_kind: &str,
    options: TabularResponseOptions,
) -> (r: Json)
    ensures
        r@ == answer_envelope(answer_table(data@, report_kind@), options, elapsed_ms),
{
    contract_success_ga_projection(
        project_ga_tabular_response(data, report_kind),
        elapsed_ms,
        options,
    )
}

// ---------------------------------------------------------------------------
// Windows onto a table.
// ---------------------------------------------------------------------------

/// The rows of a window.
pub open spec fn window_rows(
    rows: Seq<Seq<(Seq<char>, Tree)>>,
    offset: u64,
    page_size: u64,
) -> Seq<Seq<(Seq<char>, Tree)>> {
    let from: int = if offset > rows.len() {
        rows.len() as int
    } else {
        offset as int
    };
    let to: int = if from + page_size > rows.len() {
        rows.len() as int
    } else {
        from + page_size
    };
    rows.subrange(from, to)
}

/// The metadata of a table that a window was taken of.
pub open spec fn windowed_meta(
    meta: Tree,
    pagination_mode: Seq<char>,
    available: int,
    upstream: int,
) -> Tree {
    match meta {
        Tree::Dict(entries) => Tree::Dict(
            json::entered(
                json::entered(
                    json::entered(entries, "pagination_mode"@, Tree::Text(pagination_mode)),
                    "available_row_count"@,
                    Tree::Whole(available),
                ),
                "upstream_row_count_total"@,
                Tree::Whole(upstream),
            ),
        ),
        _ => meta,
    }
}

/// A window onto a table: the table that holds only its rows.
pub open spec fn windowed(
    table: Table,
    offset: u64,
    page_size: u64,
    pagination_mode: Seq<char>,
) -> Table {
    Table {
        rows: window_rows(table.rows, offset, page_size),
        row_count_total: table.rows.len() as usize,
        columns: table.columns,
        ga_meta: windowed_meta(
            table.ga_meta,
            pagination_mode,
            table.rows.len() as int,
            table.row_count_total as int,
        ),
    }
}

/// The rows of a window.
pub fn take_window(rows: &[Object], offset: u64, page_size: u64) -> (r: Vec<Object>)
    ensures
        json::objects_view(r@) == window_rows(json::objects_view(rows@), offset, page_size),
{
    let n: usize = rows.len();
    let from: usize = if offset > n as u64 {
        n
    } else {
        offset as usize
    };
    let to: usize = if page_size > (n - from) as u64 {
        n
    } else {
        from + page_size as usize
    };
    let ghost all = json::objects_view(rows@);
    let mut kept: Vec<Object> = Vec::new();
    for i in from..to
        invariant
            n == rows@.len(),
            from <= to <= n,
            all == json::objects_view(rows@),
            kept@.len() == i - from,
            forall|j: int| 0 <= j < kept@.len() ==> (#[trigger] kept@[j])@ == all[from + j],
    {
        kept.push(rows[i].clone());
    }
    assert(json::objects_view(kept@) =~= window_rows(all, offset, page_size));
    kept
}

/// A window onto a table.
pub fn apply_local_window_to_projection(
    projection: GaTabularProjection,
    offset: u64,
    page_size: u64,
    pagination_mode: &str,
) -> (r: GaTabularProjection)
    ensures
        r@ == windowed(projection@, offset, page_size, pagination_mode@),
{
    let upstream: usize = projection.row_count_total;
    let available: usize = projection.rows.len();
    let rows: Vec<Object> = take_window(projection.rows.as_slice(), offset, page_size);
    let ghost before = projection@;
    let ga_meta: Json = match projection.ga_meta {
        Json::Object(object) => {
            proof {
                json::lemma_object_tree(object);
            }
            let mut map: Object = object;
            map.insert("pagination_mode", json::string(pagination_mode));
            map.insert("available_row_count", json::size(available));
            map.insert("upstream_row_count_total", json::size(upstream));
            json::dict(map)
        },
        other => other,
    };
    let r = GaTabularProjection {
        rows,
        row_count_total: available,
        columns: projection.columns,
        ga_meta,
    };
    assert(r@ =~= windowed(before, offset, page_size, pagination_mode@));
    r
}

// ---------------------------------------------------------------------------
// Laws.
// ---------------------------------------------------------------------------

/// A summary carries no rows, and a table of rows carries each of them.
pub proof fn law_summaries_have_no_rows(
    table: Table,
    output_mode: OutputMode,
    max_cell_chars: Option<usize>,
)
    ensures
        table_payload(table, output_mode, true, max_cell_chars) == Tree::Null,
        table_payload(table, OutputMode::Rows, false, max_cell_chars)->List_0.len()
            == table.rows.len(),
{
}

/// No value that is shown has more characters than allowed, but for the three points that
/// mark the cut; and what is short enough is shown as it is.
pub proof fn law_clipped_values_are_short(value: Tree, max_chars: usize)
    ensures
        clipped_value(value, max_chars) matches Tree::Text(shown) ==> shown.len() <= max_chars + 3,
        !is_long(value, max_chars) ==> clipped_value(value, max_chars) == value,
{
    reveal_strlit("...");
}

/// The windows of equal size of a table, one behind the other, hold its rows: where a
/// window is full, the next begins at the row behind it.
pub proof fn law_windows_join(
    rows: Seq<Seq<(Seq<char>, Tree)>>,
    offset: u64,
    page_size: u64,
)
    requires
        offset + page_size <= rows.len(),
        offset + 2 * page_size <= u64::MAX,
    ensures
        window_rows(rows, offset, page_size).len() == page_size,
        window_rows(rows, offset, page_size) + window_rows(
            rows,
            (offset + page_size) as u64,
            page_size,
        ) == window_rows(rows, offset, (2 * page_size) as u64),
{
    let first = window_rows(rows, offset, page_size);
    let next = window_rows(rows, (offset + page_size) as u64, page_size);
    assert(first + next =~= window_rows(rows, offset, (2 * page_size) as u64));
}

/// An answer names a cursor exactly where rows are left behind the page, and the cursor
/// leads the query to the row behind it.
pub proof fn law_pages_follow_each_other(
    table: Table,
    signature: Tree,
    offset: u64,
    max_rows: Option<usize>,
    limit: Option<u64>,
)
    requires
        table.rows.len() > 0,
        offset + table.rows.len() <= crate::report_checks::MAX_REPORT_OFFSET,
    ensures
        table_cursor(table, cursors::query_hash(signature), offset) is Some <==> offset
            + table.rows.len() < table.row_count_total,
        table_cursor(table, cursors::query_hash(signature), offset) matches Some(cursor)
            ==> cursors::cursor_window(
            cursors::query_hash(signature),
            Some(cursor),
            None,
            max_rows,
            limit,
        ) == Ok::<(u64, u64), Problem>(
            ((offset + table.rows.len()) as u64, cursors::page_size(max_rows, limit) as u64),
        ),
{
    cursors::law_cursors_belong_to_their_query(
        signature,
        cursors::query_hash(signature),
        (offset + table.rows.len()) as u64,
        max_rows,
        limit,
    );
}

/// What a row tells under the names of some columns does not depend on cells of others.
proof fn lemma_cells(
    entries: Seq<(Seq<char>, Tree)>,
    columns: Seq<Column>,
    row: Tree,
    key: Seq<char>,
    n: nat,
    name: Seq<char>,
)
    requires
        n <= columns.len(),
        forall|a: int, b: int|
            0 <= a < b < columns.len() ==> (#[trigger] columns[a]).name != (
            #[trigger] columns[b]).name,
    ensures
        (forall|a: int| 0 <= a < n ==> (#[trigger] columns[a]).name != name) ==> json::lookup(
            with_cells(entries, columns, row, key, n),
            name,
        ) == json::lookup(entries, name),
        forall|a: int|
            0 <= a < n && (#[trigger] columns[a]).name == name ==> json::lookup(
                with_cells(entries, columns, row, key, n),
                name,
            ) == Some(cell(row, key, a)),
    decreases n,
{
    if n > 0 {
        lemma_cells(entries, columns, row, key, (n - 1) as nat, name);
        let before = with_cells(entries, columns, row, key, (n - 1) as nat);
        json::law_entered_values_are_found(
            before,
            columns[n - 1].name,
            cell(row, key, n - 1),
            name,
        );
        assert forall|a: int| 0 <= a < n && (#[trigger] columns[a]).name == name implies json::lookup(
            with_cells(entries, columns, row, key, n),
            name,
        ) == Some(cell(row, key, a)) by {
            if a < n - 1 {
                assert(columns[a].name != columns[n - 1].name);
            }
        }
    }
}

/// What an answer holds at a position of a list of a row.
pub open spec fn held_value(row: Tree, key: Seq<char>, i: int) -> Tree {
    match row.field(key) {
        Some(Tree::List(values)) => if 0 <= i < values.len() {
            match values[i].field("value"@) {
                Some(value) => value,
                None => Tree::Null,
            }
        } else {
            Tree::Null
        },
        _ => Tree::Null,
    }
}

/// The table of an answer whose headers name their columns, each name once, has those columns
/// in that order, and one row for each row of the answer: under the name of each dimension and
/// of each metric stands the value that the answer has at the place of that header.
pub proof fn law_rows_tell_every_value(
    response: Tree,
    report_kind: Seq<char>,
    dimensions: Seq<Tree>,
    metrics: Seq<Tree>,
    rows: Seq<Tree>,
    names: Seq<Seq<char>>,
    r: int,
    i: int,
)
    requires
        response.field("dimensionHeaders"@) == Some(Tree::List(dimensions)),
        response.field("metricHeaders"@) == Some(Tree::List(metrics)),
        response.field("rows"@) == Some(Tree::List(rows)),
        names.len() == dimensions.len() + metrics.len(),
        forall|a: int|
            #![trigger dimensions[a]]
            0 <= a < dimensions.len() ==> dimensions[a].field("name"@) == Some(
                Tree::Text(names[a]),
            ),
        forall|a: int|
            #![trigger metrics[a]]
            0 <= a < metrics.len() ==> metrics[a].field("name"@) == Some(
                Tree::Text(names[dimensions.len() + a]),
            ),
        forall|a: int| 0 <= a < names.len() ==> !text::is_blank(#[trigger] names[a]),
        forall|a: int, b: int|
            0 <= a < b < names.len() ==> #[trigger] names[a] != #[trigger] names[b],
        0 <= r < rows.len(),
        0 <= i < names.len(),
    ensures
        answer_table(response, report_kind).rows.len() == rows.len(),
        answer_table(response, report_kind).columns.len() == names.len(),
        answer_table(response, report_kind).columns[i].name == names[i],
        i < dimensions.len() ==> json::lookup(
            answer_table(response, report_kind).rows[r],
            names[i],
        ) == Some(held_value(rows[r], "dimensionValues"@, i)),
        i >= dimensions.len() ==> json::lookup(
            answer_table(response, report_kind).rows[r],
            names[i],
        ) == Some(held_value(rows[r], "metricValues"@, i - dimensions.len())),
{
    let first = dimension_columns(response);
    let second = metric_columns(response);
    let n = dimensions.len();
    assert forall|a: int| 0 <= a < n implies (#[trigger] first[a]).name == names[a] by {
        assert(dimensions[a].field("name"@) == Some(Tree::Text(names[a])));
        assert(!text::is_blank(names[a]));
    }
    assert forall|a: int| 0 <= a < metrics.len() implies (#[trigger] second[a]).name == names[n
        + a] by {
        assert(metrics[a].field("name"@) == Some(Tree::Text(names[n + a])));
        assert(!text::is_blank(names[n + a]));
    }
    assert forall|a: int, b: int| 0 <= a < b < first.len() implies (#[trigger] first[a]).name != (
    #[trigger] first[b]).name by {
        assert(names[a] != names[b]);
    }
    assert forall|a: int, b: int| 0 <= a < b < second.len() implies (#[trigger] second[a]).name != (
    #[trigger] second[b]).name by {
        assert(names[n + a] != names[n + b]);
    }
    let row = rows[r];
    let with_first = with_cells(json::fields(), first, row, "dimensionValues"@, first.len());
    lemma_cells(json::fields(), first, row, "dimensionValues"@, first.len(), names[i]);
    lemma_cells(with_first, second, row, "metricValues"@, second.len(), names[i]);
    if i < n {
        assert(first[i].name == names[i]);
        assert forall|a: int| 0 <= a < second.len() implies (#[trigger] second[a]).name
            != names[i] by {
            assert(names[i] != names[n + a]);
        }
    } else {
        assert(second[i - n].name == names[i]);
    }
}

/// A header without a name gives its column a name by its kind and its place.
pub proof fn law_nameless_headers_are_numbered(
    response: Tree,
    report_kind: Seq<char>,
    dimensions: Seq<Tree>,
    metrics: Seq<Tree>,
    i: int,
)
    requires
        response.field("dimensionHeaders"@) == Some(Tree::List(dimensions)),
        response.field("metricHeaders"@) == Some(Tree::List(metrics)),
        0 <= i < dimensions.len() + metrics.len(),
    ensures
        i < dimensions.len() && dimensions[i].field("name"@) is None && dimensions[i].field(
            "dimensionName"@,
        ) is None ==> answer_table(response, report_kind).columns[i].name == "dimension_"@
            + text::decimal(i as nat),
        i < dimensions.len() && dimensions[i].field("name"@) is None && (dimensions[i].field(
            "dimensionName"@,
        ) matches Some(Tree::Text(shown)) && !text::is_blank(shown)) ==> Some(
            Tree::Text(answer_table(response, report_kind).columns[i].name),
        ) == dimensions[i].field("dimensionName"@),
        i >= dimensions.len() && metrics[i - dimensions.len()].field("name"@) is None
            && metrics[i - dimensions.len()].field("metricName"@) is None ==> answer_table(
            response,
            report_kind,
        ).columns[i].name == "metric_"@ + text::decimal((i - dimensions.len()) as nat),
        i >= dimensions.len() && metrics[i - dimensions.len()].field("name"@) is None && (
        metrics[i - dimensions.len()].field("metricName"@) matches Some(Tree::Text(shown))
            && !text::is_blank(shown)) ==> Some(
            Tree::Text(answer_table(response, report_kind).columns[i].name),
        ) == metrics[i - dimensions.len()].field("metricName"@),
{
}

/// The columns of dimensions hold texts where their headers say nothing else; those of metrics
/// hold what the type of the metric says.
pub proof fn law_columns_tell_their_type(
    response: Tree,
    report_kind: Seq<char>,
    dimensions: Seq<Tree>,
    metrics: Seq<Tree>,
    i: int,
    shown: Seq<char>,
)
    requires
        response.field("dimensionHeaders"@) == Some(Tree::List(dimensions)),
        response.field("metricHeaders"@) == Some(Tree::List(metrics)),
        0 <= i < dimensions.len() + metrics.len(),
    ensures
        answer_table(response, report_kind).columns[i].nullable == Some(true),
        i < dimensions.len() && dimensions[i].field("type"@) is None ==> answer_table(
            response,
            report_kind,
        ).columns[i].logical_type == Some("string"@),
        i < dimensions.len() && dimensions[i].field("type"@) == Some(Tree::Text(shown))
            ==> answer_table(response, report_kind).columns[i].logical_type == Some(shown),
        i >= dimensions.len() && metrics[i - dimensions.len()].field("type"@) is None
            ==> answer_table(response, report_kind).columns[i].logical_type == Some("number"@),
        i >= dimensions.len() && metrics[i - dimensions.len()].field("type"@) == Some(
            Tree::Text(shown),
        ) ==> answer_table(response, report_kind).columns[i].logical_type == Some(
            if [
                "TYPE_INTEGER"@,
                "TYPE_STANDARD"@,
                "TYPE_HOURS"@,
                "TYPE_SECONDS"@,
                "TYPE_MILLISECONDS"@,
            ]@.contains(shown) {
                "integer"@
            } else if shown == "TYPE_CURRENCY"@ {
                "currency"@
            } else if [
                "TYPE_FEET"@,
                "TYPE_MILES"@,
                "TYPE_METERS"@,
                "TYPE_KILOMETERS"@,
            ]@.contains(shown) {
                "distance"@
            } else if shown == "TYPE_MINUTES"@ {
                "duration_minutes"@
            } else {
                "number"@
            },
        ),
{
    let whole = [
        "TYPE_INTEGER"@,
        "TYPE_STANDARD"@,
        "TYPE_HOURS"@,
        "TYPE_SECONDS"@,
        "TYPE_MILLISECONDS"@,
    ]@;
    let far = ["TYPE_FEET"@, "TYPE_MILES"@, "TYPE_METERS"@, "TYPE_KILOMETERS"@]@;
    assert(whole[0] == "TYPE_INTEGER"@ && whole[1] == "TYPE_STANDARD"@ && whole[2]
        == "TYPE_HOURS"@ && whole[3] == "TYPE_SECONDS"@ && whole[4] == "TYPE_MILLISECONDS"@);
    assert(far[0] == "TYPE_FEET"@ && far[1] == "TYPE_MILES"@ && far[2] == "TYPE_METERS"@ && far[3]
        == "TYPE_KILOMETERS"@);
}

/// How many rows there are in all is what the answer says, as a number or as a numeral; where
/// it says nothing, it is the rows that it holds.
pub proof fn law_totals_are_those_of_the_answer(
    response: Tree,
    report_kind: Seq<char>,
    rows: Seq<Tree>,
    n: u64,
)
    requires
        response.field("rows"@) == Some(Tree::List(rows)),
        n <= usize::MAX,
        rows.len() <= usize::MAX,
    ensures
        response.field("rowCount"@) is None ==> answer_table(response, report_kind).row_count_total
            == rows.len(),
        response.field("rowCount"@) == Some(Tree::Whole(n as int)) ==> answer_table(
            response,
            report_kind,
        ).row_count_total == n,
        response.field("rowCount"@) == Some(Tree::Text(text::decimal(n as nat))) ==> answer_table(
            response,
            report_kind,
        ).row_count_total == n,
{
    text::law_decimal_reads_back(n);
    text::lemma_decimal(n as nat);
    let shown = text::decimal(n as nat);
    assert(text::is_digit(shown[0]));
    assert(text::is_digit(shown[shown.len() - 1]));
    assert(!text::is_space(shown[0]));
    assert(!text::is_space(shown.last()));
    assert(text::trim_start(shown) == shown);
    assert(text::trim(shown) == shown);
}

/// In every output mode the payload tells the same values: rows as objects, tuples as lists in
/// the order of the columns, a scalar as the first value of the first row, and the compact form
/// as the names of the columns with the tuples.
pub proof fn law_modes_tell_the_same_values(
    rows: Seq<Seq<(Seq<char>, Tree)>>,
    columns: Seq<Column>,
    r: int,
    i: int,
)
    requires
        0 <= r < rows.len(),
        0 <= i < columns.len(),
    ensures
        payload(rows, columns, OutputMode::Rows) matches Tree::List(items) && items.len()
            == rows.len() && items[r] == Tree::Dict(rows[r]),
        payload(rows, columns, OutputMode::Tuples) matches Tree::List(items) && items.len()
            == rows.len() && (items[r] matches Tree::List(values) && values.len() == columns.len()
            && values[i] == (match json::lookup(rows[r], columns[i].name) {
            Some(value) => value,
            None => Tree::Null,
        })),
        payload(rows, columns, OutputMode::Scalar) == (match json::lookup(
            rows[0],
            columns[0].name,
        ) {
            Some(value) => value,
            None => Tree::Null,
        }),
        payload(rows, columns, OutputMode::Compact).field("row_count"@) == Some(
            Tree::Whole(rows.len() as int),
        ),
        payload(rows, columns, OutputMode::Compact).field("tuples"@) == Some(
            payload(rows, columns, OutputMode::Tuples),
        ),
        payload(rows, columns, OutputMode::Compact).field("columns"@) matches Some(
            Tree::List(names),
        ) && names.len() == columns.len() && names[i] == Tree::Text(columns[i].name),
{
    broadcast use json::group_found;

    reveal_strlit("columns");
    assert("columns"@.len() == 7);
    reveal_strlit("tuples");
    assert("tuples"@.len() == 6);
    reveal_strlit("row_count");
    assert("row_count"@.len() == 9);
}

/// A text that is too long is shown by its beginning and three points; every other value is
/// shown as it is, and so is the whole table where no limit is set.
pub proof fn law_cut_values_keep_their_beginning(
    table: Table,
    max_chars: usize,
    r: int,
    i: int,
)
    requires
        0 <= r < table.rows.len(),
        0 <= i < table.rows[r].len(),
    ensures
        shown_rows(table, None) == table.rows,
        shown_rows(table, Some(max_chars)).len() == table.rows.len(),
        shown_rows(table, Some(max_chars))[r].len() == table.rows[r].len(),
        shown_rows(table, Some(max_chars))[r][i].0 == table.rows[r][i].0,
        match table.rows[r][i].1 {
            Tree::Text(raw) => shown_rows(table, Some(max_chars))[r][i].1 == Tree::Text(
                if raw.len() <= max_chars {
                    raw
                } else {
                    raw.take(max_chars as int).push('.').push('.').push('.')
                },
            ),
            other => shown_rows(table, Some(max_chars))[r][i].1 == other,
        },
{
    reveal_strlit("...");
    match table.rows[r][i].1 {
        Tree::Text(raw) => {
            if raw.len() > max_chars {
                let kept = raw.take(max_chars as int);
                assert(kept + "..."@ =~= kept.push('.').push('.').push('.'));
            }
        },
        _ => {},
    }
}

/// A window holds the rows from its offset on, as many as it may and as there are; and the
/// table that it makes has as many rows as could be seen.
pub proof fn law_windows_hold_their_rows(
    table: Table,
    offset: u64,
    page_size: u64,
    mode: Seq<char>,
    k: int,
)
    requires
        table.rows.len() <= usize::MAX,
    ensures
        windowed(table, offset, page_size, mode).row_count_total == table.rows.len(),
        windowed(table, offset, page_size, mode).columns == table.columns,
        offset >= table.rows.len() ==> windowed(table, offset, page_size, mode).rows.len() == 0,
        offset + page_size <= table.rows.len() ==> windowed(
            table,
            offset,
            page_size,
            mode,
        ).rows.len() == page_size,
        offset <= table.rows.len() < offset + page_size ==> windowed(
            table,
            offset,
            page_size,
            mode,
        ).rows.len() == table.rows.len() - offset,
        0 <= k < windowed(table, offset, page_size, mode).rows.len() ==> windowed(
            table,
            offset,
            page_size,
            mode,
        ).rows[k] == table.rows[offset + k],
        table.ga_meta matches Tree::Dict(entries) ==> (windowed(
            table,
            offset,
            page_size,
            mode,
        ).ga_meta.field("pagination_mode"@) == Some(Tree::Text(mode))) && (windowed(
            table,
            offset,
            page_size,
            mode,
        ).ga_meta.field("available_row_count"@) == Some(Tree::Whole(table.rows.len() as int))) && (
        windowed(table, offset, page_size, mode).ga_meta.field("upstream_row_count_total"@) == Some(
            Tree::Whole(table.row_count_total as int),
        )),
{
    match table.ga_meta {
        Tree::Dict(entries) => {
            reveal_strlit("pagination_mode");
            assert("pagination_mode"@.len() == 15);
            reveal_strlit("available_row_count");
            assert("available_row_count"@.len() == 19);
            reveal_strlit("upstream_row_count_total");
            assert("upstream_row_count_total"@.len() == 24);
            let one = json::entered(entries, "pagination_mode"@, Tree::Text(mode));
            let two = json::entered(
                one,
                "available_row_count"@,
                Tree::Whole(table.rows.len() as int),
            );
            let last = Tree::Whole(table.row_count_total as int);
            json::law_entered_values_are_found(
                entries,
                "pagination_mode"@,
                Tree::Text(mode),
                "pagination_mode"@,
            );
            json::law_entered_values_are_found(
                one,
                "available_row_count"@,
                Tree::Whole(table.rows.len() as int),
                "pagination_mode"@,
            );
            json::law_entered_values_are_found(
                two,
                "upstream_row_count_total"@,
                last,
                "pagination_mode"@,
            );
            json::law_entered_values_are_found(
                two,
                "upstream_row_count_total"@,
                last,
                "available_row_count"@,
            );
        },
        _ => {},
    }
}

/// What an answer says beside its rows is passed on under the name that it has here.
pub proof fn law_answers_keep_their_metadata(response: Tree, report_kind: Seq<char>)
    ensures
        answer_table(response, report_kind).ga_meta.field("kind"@) == Some(
            match response.field("kind"@) {
                Some(held) => held,
                None => Tree::Null,
            },
        ),
        answer_table(response, report_kind).ga_meta.field("metadata"@) == Some(
            match response.field("metadata"@) {
                Some(held) => held,
                None => Tree::Null,
            },
        ),
        answer_table(response, report_kind).ga_meta.field("property_quota"@) == Some(
            match response.field("propertyQuota"@) {
                Some(held) => held,
                None => Tree::Null,
            },
        ),
        answer_table(response, report_kind).ga_meta.field("quota"@) == Some(
            match response.field("quota"@) {
                Some(held) => held,
                None => Tree::Null,
            },
        ),
        answer_table(response, report_kind).ga_meta.field("totals"@) == Some(
            match response.field("totals"@) {
                Some(held) => held,
                None => Tree::Null,
            },
        ),
        answer_table(response, report_kind).ga_meta.field("maximums"@) == Some(
            match response.field("maximums"@) {
                Some(held) => held,
                None => Tree::Null,
            },
        ),
        answer_table(response, report_kind).ga_meta.field("minimums"@) == Some(
            match response.field("minimums"@) {
                Some(held) => held,
                None => Tree::Null,
            },
        ),
        answer_table(response, report_kind).ga_meta.field("aggregates"@) == Some(
            match response.field("aggregates"@) {
                Some(held) => held,
                None => Tree::Null,
            },
        ),
        answer_table(response, report_kind).ga_meta.field("pivot_headers"@) == Some(
            match response.field("pivotHeaders"@) {
                Some(held) => held,
                None => Tree::Null,
            },
        ),
        answer_table(response, report_kind).ga_meta.field("comparisons"@) == Some(
            match response.field("comparisons"@) {
                Some(held) => held,
                None => Tree::Null,
            },
        ),
        answer_table(response, report_kind).ga_meta.field("report_kind"@) == Some(
            Tree::Text(report_kind),
        ),
{
    broadcast use json::group_found;

    reveal_strlit("report_kind");
    assert("report_kind"@.len() == 11);
    reveal_strlit("kind");
    assert("kind"@.len() == 4);
    reveal_strlit("metadata");
    assert("metadata"@.len() == 8);
    reveal_strlit("property_quota");
    assert("property_quota"@.len() == 14);
    reveal_strlit("quota");
    assert("quota"@.len() == 5);
    reveal_strlit("totals");
    assert("totals"@.len() == 6);
    reveal_strlit("maximums");
    assert("maximums"@.len() == 8);
    reveal_strlit("minimums");
    assert("minimums"@.len() == 8);
    reveal_strlit("aggregates");
    assert("aggregates"@.len() == 10);
    reveal_strlit("pivot_headers");
    assert("pivot_headers"@.len() == 13);
    reveal_strlit("comparisons");
    assert("comparisons"@.len() == 11);
    assert("report_kind"@[0] != "comparisons"@[0]);
    assert("metadata"@[1] != "maximums"@[1]);
    assert("metadata"@[1] != "minimums"@[1]);
    assert("maximums"@[1] != "minimums"@[1]);
}

/// The envelope of a page says how much of the table it holds, whether there is more and where
/// to go on, beside the rows themselves.
pub proof fn law_pages_tell_where_they_stand(
    table: Table,
    options: TabularResponseOptions,
    elapsed_ms: u64,
)
    requires
        table.rows.len() <= usize::MAX,
    ensures
        answer_envelope(table, options, elapsed_ms).field("ok"@) == Some(Tree::Bool(true)),
        answer_envelope(table, options, elapsed_ms).field("data"@) == Some(
            if options.summary_only {
                Tree::Null
            } else {
                payload(
                    shown_rows(table, options.max_cell_chars),
                    table.columns,
                    options.output_mode,
                )
            },
        ),
        answer_envelope(table, options, elapsed_ms).field("meta"@) matches Some(meta)
            && meta.field("row_count_total"@) == Some(Tree::Whole(table.row_count_total as int))
            && meta.field("row_count_returned"@) == Some(Tree::Whole(table.rows.len() as int))
            && meta.field("truncated"@) == Some(
            Tree::Bool(table.rows.len() < table.row_count_total),
        ) && meta.field("summary_only"@) == Some(Tree::Bool(options.summary_only))
            && meta.field("query_hash"@) == Some(Tree::Text(options.query_hash@)) && meta.field(
            "ga4"@,
        ) == Some(table.ga_meta) && meta.field("elapsed_ms"@) == Some(
            Tree::Whole(elapsed_ms as int),
        ) && meta.field("columns"@) == Some(contract::column_trees(table.columns)) && meta.field(
            "next_cursor"@,
        ) == Some(
            if table.rows.len() > 0 && options.cursor_offset + table.rows.len()
                < table.row_count_total {
                Tree::Text(
                    "v1:"@ + options.query_hash@ + ":"@ + text::decimal(
                        (options.cursor_offset + table.rows.len()) as nat,
                    ),
                )
            } else {
                Tree::Null
            },
        ),
{
    broadcast use json::group_found;

    reveal_strlit("output_mode");
    assert("output_mode"@.len() == 11);
    reveal_strlit("summary_only");
    assert("summary_only"@.len() == 12);
    reveal_strlit("row_count_total");
    assert("row_count_total"@.len() == 15);
    reveal_strlit("row_count_returned");
    assert("row_count_returned"@.len() == 18);
    reveal_strlit("truncated");
    assert("truncated"@.len() == 9);
    reveal_strlit("next_cursor");
    assert("next_cursor"@.len() == 11);
    reveal_strlit("query_hash");
    assert("query_hash"@.len() == 10);
    reveal_strlit("columns");
    assert("columns"@.len() == 7);
    reveal_strlit("query_hints");
    assert("query_hints"@.len() == 11);
    reveal_strlit("cell_clipping");
    assert("cell_clipping"@.len() == 13);
    reveal_strlit("ga4");
    assert("ga4"@.len() == 3);
    reveal_strlit("elapsed_ms");
    assert("elapsed_ms"@.len() == 10);
    assert("output_mode"@[0] != "next_cursor"@[0]);
    assert("output_mode"@[0] != "query_hints"@[0]);
    assert("next_cursor"@[0] != "query_hints"@[0]);
    assert("query_hash"@[0] != "elapsed_ms"@[0]);
    let meta = table_meta(
        table,
        options.output_mode,
        options.summary_only,
        options.max_cell_chars,
    );
    let told = (TableMeta {
        query_hash: Some(options.query_hash@),
        next_cursor: table_cursor(table, options.query_hash@, options.cursor_offset),
        ..meta
    }).entries();
    let entries = json::entered(told, "ga4"@, table.ga_meta);
    assert forall|key: Seq<char>| #[trigger] json::lookup(entries, key) == (if key == "ga4"@ {
        Some(table.ga_meta)
    } else {
        json::lookup(told, key)
    }) by {
        json::law_entered_values_are_found(told, "ga4"@, table.ga_meta, key);
    }
    contract::law_successes_say_so(
        table_payload(table, options.output_mode, options.summary_only, options.max_cell_chars),
        entries,
        elapsed_ms,
    );
    let told_meta = contract::with_elapsed(Tree::Dict(entries), elapsed_ms);
    assert(told_meta.field("ga4"@) == json::lookup(entries, "ga4"@));
    assert(told_meta.field("row_count_total"@) == json::lookup(entries, "row_count_total"@));
    assert(told_meta.field("row_count_returned"@) == json::lookup(entries, "row_count_returned"@));
    assert(told_meta.field("truncated"@) == json::lookup(entries, "truncated"@));
    assert(told_meta.field("summary_only"@) == json::lookup(entries, "summary_only"@));
    assert(told_meta.field("query_hash"@) == json::lookup(entries, "query_hash"@));
    assert(told_meta.field("columns"@) == json::lookup(entries, "columns"@));
    assert(told_meta.field("next_cursor"@) == json::lookup(entries, "next_cursor"@));
}

/// Whether what an answer holds under a name is a list of objects, or nothing.
pub open spec fn lists_objects(owner: Tree, field: Seq<char>) -> bool {
    match owner.field(field) {
        None => true,
        Some(Tree::List(items)) => forall|i: int|
            0 <= i < items.len() ==> (#[trigger] items[i]) is Dict,
        Some(_) => false,
    }
}

proof fn lemma_lists_objects(
    owner: Tree,
    field: Seq<char>,
    list_label: Seq<char>,
    item_label: Seq<char>,
)
    ensures
        list_problem(owner, field, list_label, item_label) is None <==> lists_objects(owner, field),
{
    match owner.field(field) {
        Some(Tree::List(items)) => {
            let check = object_check(items, item_label + field);
            error::law_the_first_problem_is_told(items.len(), check);
            if forall|i: int| 0 <= i < items.len() ==> #[trigger] check(i) is None {
                assert forall|i: int| 0 <= i < items.len() implies (#[trigger] items[i]) is Dict by {
                    assert(check(i) is None);
                }
            }
            if forall|i: int| 0 <= i < items.len() ==> (#[trigger] items[i]) is Dict {
                assert forall|i: int| 0 <= i < items.len() implies #[trigger] check(i) is None by {
                    assert(items[i] is Dict);
                }
            }
        },
        _ => {},
    }
}

/// An answer can be shown as a table exactly where it is an object, its count is a number, its
/// headers and its rows are lists of objects, and so are the values of each row.
pub proof fn law_answers_with_a_table(response: Tree, report_kind: Seq<char>, rows: Seq<Tree>)
    requires
        response.field("rows"@) == Some(Tree::List(rows)),
    ensures
        answer_problem(response, report_kind) is None <==> response is Dict && (
        response.field("rowCount"@) matches Some(count) ==> (count matches Tree::Whole(n) && 0 <= n
            <= u64::MAX)) && lists_objects(response, "dimensionHeaders"@) && lists_objects(
            response,
            "metricHeaders"@,
        ) && lists_objects(response, "rows"@) && (forall|i: int|
            0 <= i < rows.len() ==> lists_objects(#[trigger] rows[i], "dimensionValues"@)
                && lists_objects(rows[i], "metricValues"@)),
        answer_problem(response, report_kind) matches Some(problem) ==> problem is Internal,
{
    let label = "Google "@ + report_kind + " response "@;
    let list_label = "Google "@ + report_kind + " response field "@;
    lemma_lists_objects(response, "dimensionHeaders"@, list_label, label);
    lemma_lists_objects(response, "metricHeaders"@, list_label, label);
    lemma_lists_objects(response, "rows"@, list_label, label);
    let check = row_check(rows, label);
    error::law_the_first_problem_is_told(rows.len(), check);
    assert forall|i: int| 0 <= i < rows.len() implies (#[trigger] check(i) is None
        <==> lists_objects(rows[i], "dimensionValues"@) && lists_objects(
        rows[i],
        "metricValues"@,
    )) by {
        let row_label = label + "rows["@ + text::decimal(i as nat) + "]."@;
        lemma_lists_objects(rows[i], "dimensionValues"@, row_label, row_label);
        lemma_lists_objects(rows[i], "metricValues"@, row_label, row_label);
    }
    if forall|i: int| 0 <= i < rows.len() ==> #[trigger] check(i) is None {
        assert forall|i: int| 0 <= i < rows.len() implies lists_objects(
            #[trigger] rows[i],
            "dimensionValues"@,
        ) && lists_objects(rows[i], "metricValues"@) by {
            assert(check(i) is None);
        }
    }
    if forall|i: int|
        0 <= i < rows.len() ==> lists_objects(#[trigger] rows[i], "dimensionValues"@)
            && lists_objects(rows[i], "metricValues"@) {
        assert forall|i: int| 0 <= i < rows.len() implies #[trigger] check(i) is None by {
            assert(lists_objects(rows[i], "dimensionValues"@));
        }
    }
    lemma_all_internal(response, list_label, label);
}

proof fn lemma_list_internal(
    owner: Tree,
    field: Seq<char>,
    list_label: Seq<char>,
    item_label: Seq<char>,
)
    ensures
        list_problem(owner, field, list_label, item_label) matches Some(problem)
            ==> problem is Internal,
{
    match owner.field(field) {
        Some(Tree::List(items)) => {
            error::law_the_first_problem_is_told(
                items.len(),
                object_check(items, item_label + field),
            );
        },
        _ => {},
    }
}

proof fn lemma_all_internal(owner: Tree, list_label: Seq<char>, item_label: Seq<char>)
    ensures
        table_problem(owner, list_label, item_label) matches Some(problem) ==> problem is Internal,
{
    lemma_list_internal(owner, "dimensionHeaders"@, list_label, item_label);
    lemma_list_internal(owner, "metricHeaders"@, list_label, item_label);
    lemma_list_internal(owner, "rows"@, list_label, item_label);
    let rows = listed(owner, "rows"@);
    let check = row_check(rows, item_label);
    error::law_the_first_problem_is_told(rows.len(), check);
    assert forall|i: int| 0 <= i < rows.len() implies (#[trigger] check(i) matches Some(problem)
        ==> problem is Internal) by {
        let label = item_label + "rows["@ + text::decimal(i as nat) + "]."@;
        lemma_list_internal(rows[i], "dimensionValues"@, label, label);
        lemma_list_internal(rows[i], "metricValues"@, label, label);
    }
}

/// What is told of the cells that were cut: the limit, and how many there were; nothing where no
/// limit is set.
pub proof fn law_cut_cells_are_counted(
    table: Table,
    output_mode: OutputMode,
    max_chars: usize,
    row: Seq<(Seq<char>, Tree)>,
    entry: (Seq<char>, Tree),
)
    requires
        long_in_rows(table.rows, max_chars) <= usize::MAX,
    ensures
        table_meta(table, output_mode, false, None).cell_clipping is None,
        table_meta(table, output_mode, false, Some(max_chars)).cell_clipping matches Some(told)
            && told.field("enabled"@) == Some(Tree::Bool(true)) && told.field("max_cell_chars"@)
            == Some(Tree::Whole(max_chars as int)) && told.field("clipped_cells"@) == Some(
            Tree::Whole(long_in_rows(table.rows, max_chars) as int),
        ) && told.field("applied"@) == Some(
            Tree::Bool(long_in_rows(table.rows, max_chars) > 0),
        ),
        long_in_rows(table.rows.push(row), max_chars) == long_in_rows(table.rows, max_chars)
            + long_in_row(row, max_chars),
        long_in_row(row.push(entry), max_chars) == long_in_row(row, max_chars) + (match entry.1 {
            Tree::Text(raw) => if raw.len() > max_chars {
                1int
            } else {
                0
            },
            _ => 0,
        }),
        long_in_row(Seq::<(Seq<char>, Tree)>::empty(), max_chars) == 0,
        long_in_rows(Seq::<Seq<(Seq<char>, Tree)>>::empty(), max_chars) == 0,
{
    broadcast use json::group_found;

    reveal_strlit("enabled");
    assert("enabled"@.len() == 7);
    reveal_strlit("max_cell_chars");
    assert("max_cell_chars"@.len() == 14);
    reveal_strlit("clipped_cells");
    assert("clipped_cells"@.len() == 13);
    reveal_strlit("applied");
    assert("applied"@.len() == 7);
    assert("enabled"@[0] != "applied"@[0]);
    assert(table.rows.push(row).drop_last() =~= table.rows);
    assert(row.push(entry).drop_last() =~= row);
}

/// Where rows are left, the answer hints at the cursor; where none are, it does not.
pub proof fn law_hints_lead_to_the_rest(
    table: Table,
    output_mode: OutputMode,
    summary_only: bool,
    max_cell_chars: Option<usize>,
)
    ensures
        table.rows.len() < table.row_count_total ==> table_meta(
            table,
            output_mode,
            summary_only,
            max_cell_chars,
        ).query_hints == Some(
            seq!["additional rows are available; continue with meta.next_cursor"@],
        ),
        table.rows.len() >= table.row_count_total ==> table_meta(
            table,
            output_mode,
            summary_only,
            max_cell_chars,
        ).query_hints is None,
        table_payload(table, output_mode, true, max_cell_chars) == Tree::Null,
        table_payload(table, output_mode, false, max_cell_chars) == payload(
            shown_rows(table, max_cell_chars),
            table.columns,
            output_mode,
        ),
{
}

/// What has headers and rows can be shown as a table exactly where they are lists of objects,
/// and so are the values of each row.
pub proof fn law_tables_are_lists_of_objects(
    owner: Tree,
    list_label: Seq<char>,
    item_label: Seq<char>,
)
    ensures
        table_problem(owner, list_label, item_label) is None <==> lists_objects(
            owner,
            "dimensionHeaders"@,
        ) && lists_objects(owner, "metricHeaders"@) && lists_objects(owner, "rows"@) && (forall|
            i: int,
        |
            0 <= i < listed(owner, "rows"@).len() ==> lists_objects(
                #[trigger] listed(owner, "rows"@)[i],
                "dimensionValues"@,
            ) && lists_objects(listed(owner, "rows"@)[i], "metricValues"@)),
{
    lemma_lists_objects(owner, "dimensionHeaders"@, list_label, item_label);
    lemma_lists_objects(owner, "metricHeaders"@, list_label, item_label);
    lemma_lists_objects(owner, "rows"@, list_label, item_label);
    let rows = listed(owner, "rows"@);
    let check = row_check(rows, item_label);
    error::law_the_first_problem_is_told(rows.len(), check);
    assert forall|i: int| 0 <= i < rows.len() implies (#[trigger] check(i) is None
        <==> lists_objects(rows[i], "dimensionValues"@) && lists_objects(
        rows[i],
        "metricValues"@,
    )) by {
        let label = item_label + "rows["@ + text::decimal(i as nat) + "]."@;
        lemma_lists_objects(rows[i], "dimensionValues"@, label, label);
        lemma_lists_objects(rows[i], "metricValues"@, label, label);
    }
    if forall|i: int| 0 <= i < rows.len() ==> #[trigger] check(i) is None {
        assert forall|i: int| 0 <= i < rows.len() implies lists_objects(
            #[trigger] rows[i],
            "dimensionValues"@,
        ) && lists_objects(rows[i], "metricValues"@) by {
            assert(check(i) is None);
        }
    }
    if forall|i: int|
        0 <= i < rows.len() ==> lists_objects(#[trigger] rows[i], "dimensionValues"@)
            && lists_objects(rows[i], "metricValues"@) {
        assert forall|i: int| 0 <= i < rows.len() implies #[trigger] check(i) is None by {
            assert(lists_objects(rows[i], "dimensionValues"@));
        }
    }
}

} // verus!
