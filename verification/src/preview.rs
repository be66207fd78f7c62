//! What a report would send and show, without sending it.

use vstd::prelude::*;
use vstd::string::*;

use crate::contract;
use crate::contract::{Column, ColumnMeta};
use crate::error::{AnalyticsError, Problem};
use crate::ga_client;
use crate::ingest;
use crate::ingest::IngestColumnMapping;
use crate::json;
use crate::json::{Json, Object, Tree};
use crate::report_args::{PreviewReportRequestArgs, RunReportArgs};
use crate::report_tools;
use crate::report_tools::Page;
use crate::text;

verus! {

/// A column whose values may be missing.
pub open spec fn typed_column(name: Seq<char>, logical_type: Seq<char>) -> Column {
    Column { name, logical_type: Some(logical_type), nullable: Some(true) }
}

/// The columns that a report with these dimensions and metrics will have.
pub open spec fn expected_columns(dimensions: Seq<Seq<char>>, metrics: Seq<Seq<char>>) -> Seq<
    Column,
> {
    Seq::new(
        dimensions.len() + metrics.len(),
        |i: int|
            if i < dimensions.len() {
                typed_column(dimensions[i], "string"@)
            } else {
                typed_column(metrics[i - dimensions.len()], "number"@)
            },
    )
}

/// The columns that a report with these dimensions and metrics will have.
pub fn preview_report_columns(dimensions: &[String], metrics: &[String]) -> (r: Vec<ColumnMeta>)
    ensures
        contract::columns_view(r@) == expected_columns(
            text::texts(dimensions@),
            text::texts(metrics@),
        ),
{
    let mut columns: Vec<ColumnMeta> = Vec::new();
    for i in 0..dimensions.len()
        invariant
            columns@.len() == i,
            forall|j: int|
                0 <= j < i ==> (#[trigger] columns@[j])@ == typed_column(
                    dimensions@[j]@,
                    "string"@,
                ),
    {
        columns.push(
            ColumnMeta::new(dimensions[i].as_str()).with_logical_type("string").with_nullable(true),
        );
    }
    for i in 0..metrics.len()
        invariant
            columns@.len() == dimensions@.len() + i,
            forall|j: int|
                0 <= j < dimensions@.len() ==> (#[trigger] columns@[j])@ == typed_column(
                    dimensions@[j]@,
                    "string"@,
                ),
            forall|j: int|
                dimensions@.len() <= j < columns@.len() ==> (#[trigger] columns@[j])@
                    == typed_column(metrics@[j - dimensions@.len()]@, "number"@),
    {
        columns.push(
            ColumnMeta::new(metrics[i].as_str()).with_logical_type("number").with_nullable(true),
        );
    }
    assert(contract::columns_view(columns@) =~= expected_columns(
        text::texts(dimensions@),
        text::texts(metrics@),
    ));
    columns
}

/// A column with everything that could be known of it.
pub open spec fn full_column_tree(column: Column) -> Tree {
    Tree::Dict(
        json::fields()
            .push(("name"@, Tree::Text(column.name)))
            .push(("logical_type"@, json::opt_text(column.logical_type)))
            .push(
                (
                    "nullable"@,
                    match column.nullable {
                        Some(b) => Tree::Bool(b),
                        None => Tree::Null,
                    },
                ),
            ),
    )
}

/// A column with everything that could be known of it.
pub fn column_meta_to_json(column: &ColumnMeta) -> (r: Json)
    ensures
        r@ == full_column_tree(column@),
{
    let mut object = Object::new();
    object.put("name", json::string(column.name.as_str()));
    object.put("logical_type", json::string_or_null(&column.logical_type));
    object.put(
        "nullable",
        match column.nullable {
            Some(b) => json::boolean(b),
            None => Json::Null,
        },
    );
    json::dict(object)
}

/// Columns with everything that could be known of them.
pub open spec fn full_column_trees(columns: Seq<Column>) -> Tree {
    Tree::List(Seq::new(columns.len(), |i: int| full_column_tree(columns[i])))
}

fn columns_to_json(columns: &[ColumnMeta]) -> (r: Json)
    ensures
        r@ == full_column_trees(contract::columns_view(columns@)),
{
    let mut items: Vec<Json> = Vec::new();
    for i in 0..columns.len()
        invariant
            items@.len() == i,
            forall|j: int| 0 <= j < i ==> (#[trigger] items@[j])@ == full_column_tree(columns@[j]@),
    {
        items.push(column_meta_to_json(&columns[i]));
    }
    assert(json::trees(items@) =~= full_column_trees(contract::columns_view(columns@))->List_0);
    json::array(items)
}

/// The request of a report as it is previewed.
pub open spec fn previewed_request(property: Seq<char>, args: RunReportArgs, page: Page) -> Tree {
    Tree::Dict(
        json::fields()
            .push(("property"@, Tree::Text(property)))
            .push(("date_ranges"@, Tree::List(json::trees(args.date_ranges@))))
            .push(("dimensions"@, json::text_list(text::texts(args.dimensions@))))
            .push(("metrics"@, json::text_list(text::texts(args.metrics@))))
            .push(("dimension_filter"@, json::opt_tree(json::opt_view(args.dimension_filter))))
            .push(("metric_filter"@, json::opt_tree(json::opt_view(args.metric_filter))))
            .push(("order_bys"@, json::opt_tree(json::opt_trees(args.order_bys))))
            .push(("limit"@, Tree::Whole(page.limit as int)))
            .push(("offset"@, Tree::Whole(page.offset as int)))
            .push(("currency_code"@, json::opt_text(text::opt_text(args.currency_code))))
            .push(("return_property_quota"@, Tree::Bool(args.return_property_quota))),
    )
}

/// What a preview says of the page.
pub open spec fn previewed_page(args: RunReportArgs, page: Page) -> Tree {
    Tree::Dict(
        json::fields()
            .push(("requested_limit"@, json::opt_whole(args.limit)))
            .push(
                (
                    "requested_offset"@,
                    Tree::Whole(
                        match args.offset {
                            Some(n) => n as int,
                            None => 0,
                        },
                    ),
                ),
            )
            .push(("max_rows"@, json::opt_size(args.max_rows)))
            .push(("effective_limit"@, Tree::Whole(page.limit as int)))
            .push(("effective_offset"@, Tree::Whole(page.offset as int)))
            .push(("cursor_supplied"@, Tree::Bool(args.cursor is Some))),
    )
}

/// What every preview points out.
pub open spec fn preview_hints() -> Seq<Seq<char>> {
    seq![
        "preview_report_request does not execute an upstream GA API call"@,
        "use check_report_compatibility before large pulls to preflight dimension/metric compatibility"@,
    ]
}

/// The preview of a report.
pub open spec fn preview_tree(property: Seq<char>, args: RunReportArgs, page: Page) -> Tree {
    let columns = expected_columns(text::texts(args.dimensions@), text::texts(args.metrics@));
    Tree::Dict(
        json::fields()
            .push(
                (
                    "preview"@,
                    Tree::Dict(
                        json::fields()
                            .push(("tool"@, Tree::Text("run_report"@)))
                            .push(("query_hash"@, Tree::Text(page.query_hash)))
                            .push(
                                (
                                    "request"@,
                                    ga_client::sorted_tree(
                                        previewed_request(property, args, page),
                                    ),
                                ),
                            )
                            .push(("pagination"@, previewed_page(args, page))),
                    ),
                ),
            )
            .push(
                (
                    "projection"@,
                    Tree::Dict(
                        json::fields()
                            .push(("tabular_columns"@, full_column_trees(columns)))
                            .push(
                                (
                                    "ingest_columns"@,
                                    ingest::mapping_preview_trees(
                                        ingest::mappings(columns, columns.len()),
                                    ),
                                ),
                            ),
                    ),
                ),
            )
            .push(("hints"@, json::text_list(preview_hints()))),
    )
}

fn previewed_request_value(property: &str, report: &RunReportArgs, offset: u64, limit: u64) -> (r:
    Json)
    ensures
        forall|page: Page|
            page.offset == offset && page.limit == limit ==> r@ == #[trigger] previewed_request(
                property@,
                *report,
                page,
            ),
{
    let mut request = Object::new();
    request.put("property", json::string(property));
    request.put("date_ranges", json::array(json::clone_values(report.date_ranges.as_slice())));
    request.put("dimensions", json::strings(report.dimensions.as_slice()));
    request.put("metrics", json::strings(report.metrics.as_slice()));
    request.put("dimension_filter", json::copy_or_null(&report.dimension_filter));
    request.put("metric_filter", json::copy_or_null(&report.metric_filter));
    request.put("order_bys", json::copy_list_or_null(&report.order_bys));
    request.put("limit", json::whole(limit));
    request.put("offset", json::whole(offset));
    request.put("currency_code", json::string_or_null(&report.currency_code));
    request.put("return_property_quota", json::boolean(report.return_property_quota));
    json::dict(request)
}

/// What a preview, or the error in its place, says.
pub open spec fn preview_result(r: Result<Json, AnalyticsError>) -> Result<Tree, Problem> {
    match r {
        Ok(value) => Ok(value@),
        Err(err) => Err(err@),
    }
}

/// The preview of a report.
pub fn build_run_report_preview_payload(
    report: &RunReportArgs,
    query_hash: &str,
    effective_offset: u64,
    effective_limit: u64,
) -> (r: Result<Json, AnalyticsError>)
    ensures
        preview_result(r) == (match report.property_id.named() {
            Ok(property) => Ok(
                preview_tree(
                    property,
                    *report,
                    Page {
                        query_hash: query_hash@,
                        offset: effective_offset,
                        limit: effective_limit,
                    },
                ),
            ),
            Err(problem) => Err(problem),
        }),
{
    let property: String = match report.property_id.to_resource_name() {
        Ok(property) => property,
        Err(err) => {
            return Err(err);
        },
    };
    let ghost page = Page {
        query_hash: query_hash@,
        offset: effective_offset,
        limit: effective_limit,
    };
    let request: Json = previewed_request_value(
        property.as_str(),
        report,
        effective_offset,
        effective_limit,
    );
    assert(request@ == previewed_request(property@, *report, page));
    let columns: Vec<ColumnMeta> = preview_report_columns(
        report.dimensions.as_slice(),
        report.metrics.as_slice(),
    );
    let mappings: Vec<IngestColumnMapping> = ingest::build_ingest_column_mappings(
        columns.as_slice(),
    );
    assert(contract::columns_view(columns@).len() == columns@.len());
    let mut pagination = Object::new();
    pagination.put("requested_limit", json::whole_or_null(report.limit));
    pagination.put(
        "requested_offset",
        json::whole(
            match report.offset {
                Some(n) => n,
                None => 0,
            },
        ),
    );
    pagination.put("max_rows", json::size_or_null(report.max_rows));
    pagination.put("effective_limit", json::whole(effective_limit));
    pagination.put("effective_offset", json::whole(effective_offset));
    pagination.put("cursor_supplied", json::boolean(report.cursor.is_some()));
    let mut preview = Object::new();
    preview.put("tool", json::string("run_report"));
    preview.put("query_hash", json::string(query_hash));
    preview.put("request", ga_client::sort_object(&request));
    preview.put("pagination", json::dict(pagination));
    let mut projection = Object::new();
    projection.put("tabular_columns", columns_to_json(columns.as_slice()));
    projection.put("ingest_columns", ingest::preview_mappings(mappings.as_slice()));
    let hints: Vec<String> = text::owned(
        &[
            "preview_report_request does not execute an upstream GA API call",
            "use check_report_compatibility before large pulls to preflight dimension/metric compatibility",
        ],
    );
    assert(text::texts(hints@) =~= preview_hints());
    let mut object = Object::new();
    object.put("preview", json::dict(preview));
    object.put("projection", json::dict(projection));
    object.put("hints", json::strings(hints.as_slice()));
    Ok(json::dict(object))
}

/// The envelope of the preview of a report.
pub open spec fn preview_envelope(report: RunReportArgs, elapsed_ms: u64) -> Tree {
    match report_tools::report_page(report) {
        Err(problem) => contract::error_tree(problem, elapsed_ms),
        Ok(page) => match report.property_id.named() {
            Err(problem) => contract::error_tree(problem, elapsed_ms),
            Ok(property) => contract::success_tree(
                preview_tree(property, report, page),
                contract::elapsed_only(elapsed_ms),
            ),
        },
    }
}

/// The tool that previews a report: it sends nothing.
pub fn preview_report_request(args: &PreviewReportRequestArgs, elapsed_ms: u64) -> (r: Json)
    ensures
        r@ == preview_envelope(args.report, elapsed_ms),
{
    let (query_hash, offset, limit): (String, u64, u64) = match report_tools::plan_report_page(
        &args.report,
    ) {
        Ok(found) => found,
        Err(err) => {
            return contract::error(err, elapsed_ms);
        },
    };
    match build_run_report_preview_payload(&args.report, query_hash.as_str(), offset, limit) {
        Ok(payload) => contract::success(payload, elapsed_ms),
        Err(err) => contract::error(err, elapsed_ms),
    }
}

/// A preview and the report itself agree: what one refuses the other refuses, and the
/// preview shows the query hash that the report will have.
pub proof fn law_previews_agree_with_reports(report: RunReportArgs, elapsed_ms: u64)
    ensures
        report_tools::report_page(report) matches Err(problem) ==> preview_envelope(
            report,
            elapsed_ms,
        ) == contract::error_tree(problem, elapsed_ms),
        report_tools::report_page(report) matches Ok(page) ==> report.property_id.named() is Ok
            && preview_envelope(report, elapsed_ms) == contract::success_tree(
            preview_tree(report.property_id.named()->Ok_0, report, page),
            contract::elapsed_only(elapsed_ms),
        ),
{
}

/// The columns that a report will have are its dimensions, as texts, and behind them its
/// metrics, as numbers.
pub proof fn law_dimensions_come_before_metrics(
    dimensions: Seq<Seq<char>>,
    metrics: Seq<Seq<char>>,
    i: int,
)
    ensures
        expected_columns(dimensions, metrics).len() == dimensions.len() + metrics.len(),
        0 <= i < dimensions.len() ==> expected_columns(dimensions, metrics)[i].name
            == dimensions[i] && expected_columns(dimensions, metrics)[i].logical_type == Some(
            "string"@,
        ),
        0 <= i < metrics.len() ==> expected_columns(dimensions, metrics)[dimensions.len() + i].name
            == metrics[i] && expected_columns(dimensions, metrics)[dimensions.len()
            + i].logical_type == Some("number"@),
{
}

/// A preview tells the request as it would be sent, each part under its own name.
pub proof fn law_previews_tell_the_request(property: Seq<char>, args: RunReportArgs, page: Page)
    ensures
        previewed_request(property, args, page).field("property"@) == Some(Tree::Text(property)),
        previewed_request(property, args, page).field("date_ranges"@) == Some(
            Tree::List(json::trees(args.date_ranges@)),
        ),
        previewed_request(property, args, page).field("dimensions"@) == Some(
            json::text_list(text::texts(args.dimensions@)),
        ),
        previewed_request(property, args, page).field("metrics"@) == Some(
            json::text_list(text::texts(args.metrics@)),
        ),
        previewed_request(property, args, page).field("dimension_filter"@) == Some(
            match args.dimension_filter {
                Some(filter) => filter@,
                None => Tree::Null,
            },
        ),
        previewed_request(property, args, page).field("metric_filter"@) == Some(
            match args.metric_filter {
                Some(filter) => filter@,
                None => Tree::Null,
            },
        ),
        previewed_request(property, args, page).field("order_bys"@) == Some(
            match args.order_bys {
                Some(orders) => Tree::List(json::trees(orders@)),
                None => Tree::Null,
            },
        ),
        previewed_request(property, args, page).field("limit"@) == Some(
            Tree::Whole(page.limit as int),
        ),
        previewed_request(property, args, page).field("offset"@) == Some(
            Tree::Whole(page.offset as int),
        ),
        previewed_request(property, args, page).field("currency_code"@) == Some(
            match args.currency_code {
                Some(code) => Tree::Text(code@),
                None => Tree::Null,
            },
        ),
        previewed_request(property, args, page).field("return_property_quota"@) == Some(
            Tree::Bool(args.return_property_quota),
        ),
{
    broadcast use json::group_found;

    reveal_strlit("property");
    assert("property"@.len() == 8);
    reveal_strlit("date_ranges");
    assert("date_ranges"@.len() == 11);
    reveal_strlit("dimensions");
    assert("dimensions"@.len() == 10);
    reveal_strlit("metrics");
    assert("metrics"@.len() == 7);
    reveal_strlit("dimension_filter");
    assert("dimension_filter"@.len() == 16);
    reveal_strlit("metric_filter");
    assert("metric_filter"@.len() == 13);
    reveal_strlit("order_bys");
    assert("order_bys"@.len() == 9);
    reveal_strlit("limit");
    assert("limit"@.len() == 5);
    reveal_strlit("offset");
    assert("offset"@.len() == 6);
    reveal_strlit("currency_code");
    assert("currency_code"@.len() == 13);
    reveal_strlit("return_property_quota");
    assert("return_property_quota"@.len() == 21);
    assert("metric_filter"@[0] != "currency_code"@[0]);
}

/// A preview tells where the page would begin and how long it would be, beside what was asked.
pub proof fn law_previews_tell_the_page(property: Seq<char>, args: RunReportArgs, page: Page)
    ensures
        previewed_page(args, page).field("requested_limit"@) == Some(
            match args.limit {
                Some(n) => Tree::Whole(n as int),
                None => Tree::Null,
            },
        ),
        previewed_page(args, page).field("requested_offset"@) == Some(
            Tree::Whole(
                match args.offset {
                    Some(n) => n as int,
                    None => 0,
                },
            ),
        ),
        previewed_page(args, page).field("max_rows"@) == Some(
            match args.max_rows {
                Some(n) => Tree::Whole(n as int),
                None => Tree::Null,
            },
        ),
        previewed_page(args, page).field("effective_limit"@) == Some(
            Tree::Whole(page.limit as int),
        ),
        previewed_page(args, page).field("effective_offset"@) == Some(
            Tree::Whole(page.offset as int),
        ),
        previewed_page(args, page).field("cursor_supplied"@) == Some(
            Tree::Bool(args.cursor is Some),
        ),
        preview_tree(property, args, page).field("preview"@) matches Some(preview)
            && preview.field("tool"@) == Some(Tree::Text("run_report"@)) && preview.field(
            "query_hash"@,
        ) == Some(Tree::Text(page.query_hash)) && preview.field("pagination"@) == Some(
            previewed_page(args, page),
        ) && preview.field("request"@) == Some(
            ga_client::sorted_tree(previewed_request(property, args, page)),
        ),
        preview_tree(property, args, page).field("projection"@) matches Some(projection)
            && projection.field("tabular_columns"@) == Some(
            full_column_trees(
                expected_columns(text::texts(args.dimensions@), text::texts(args.metrics@)),
            ),
        ),
{
    broadcast use json::group_found;

    reveal_strlit("requested_limit");
    assert("requested_limit"@.len() == 15);
    reveal_strlit("requested_offset");
    assert("requested_offset"@.len() == 16);
    reveal_strlit("max_rows");
    assert("max_rows"@.len() == 8);
    reveal_strlit("effective_limit");
    assert("effective_limit"@.len() == 15);
    reveal_strlit("effective_offset");
    assert("effective_offset"@.len() == 16);
    reveal_strlit("cursor_supplied");
    assert("cursor_supplied"@.len() == 15);
    reveal_strlit("preview");
    assert("preview"@.len() == 7);
    reveal_strlit("tool");
    assert("tool"@.len() == 4);
    reveal_strlit("query_hash");
    assert("query_hash"@.len() == 10);
    reveal_strlit("request");
    assert("request"@.len() == 7);
    reveal_strlit("pagination");
    assert("pagination"@.len() == 10);
    reveal_strlit("projection");
    assert("projection"@.len() == 10);
    reveal_strlit("tabular_columns");
    assert("tabular_columns"@.len() == 15);
    reveal_strlit("ingest_columns");
    assert("ingest_columns"@.len() == 14);
    reveal_strlit("hints");
    assert("hints"@.len() == 5);
    assert("requested_limit"@[0] != "effective_limit"@[0]);
    assert("requested_limit"@[0] != "cursor_supplied"@[0]);
    assert("requested_limit"@[0] != "tabular_columns"@[0]);
    assert("requested_offset"@[0] != "effective_offset"@[0]);
    assert("effective_limit"@[0] != "cursor_supplied"@[0]);
    assert("effective_limit"@[0] != "tabular_columns"@[0]);
    assert("cursor_supplied"@[0] != "tabular_columns"@[0]);
    assert("preview"@[0] != "request"@[0]);
    assert("query_hash"@[0] != "pagination"@[0]);
    assert("query_hash"@[0] != "projection"@[0]);
    assert("pagination"@[1] != "projection"@[1]);
}

/// A column in a preview is told in full.
pub proof fn law_previewed_columns_are_told_in_full(columns: Seq<Column>, i: int)
    requires
        0 <= i < columns.len(),
    ensures
        full_column_trees(columns) matches Tree::List(items) && items.len() == columns.len()
            && items[i].field("name"@) == Some(Tree::Text(columns[i].name)) && items[i].field(
            "logical_type"@,
        ) == Some(
            match columns[i].logical_type {
                Some(logical_type) => Tree::Text(logical_type),
                None => Tree::Null,
            },
        ) && items[i].field("nullable"@) == Some(
            match columns[i].nullable {
                Some(nullable) => Tree::Bool(nullable),
                None => Tree::Null,
            },
        ),
{
    broadcast use json::group_found;

    reveal_strlit("name");
    assert("name"@.len() == 4);
    reveal_strlit("logical_type");
    assert("logical_type"@.len() == 12);
    reveal_strlit("nullable");
    assert("nullable"@.len() == 8);
}

/// A preview tells how the columns would be written, and what it is for.
pub proof fn law_previews_tell_how_columns_are_written(
    property: Seq<char>,
    args: RunReportArgs,
    page: Page,
    columns: Seq<Column>,
)
    requires
        columns == expected_columns(text::texts(args.dimensions@), text::texts(args.metrics@)),
    ensures
        preview_tree(property, args, page).field("projection"@) matches Some(projection)
            && projection.field("ingest_columns"@) == Some(
            ingest::mapping_preview_trees(ingest::mappings(columns, columns.len())),
        ),
        preview_tree(property, args, page).field("hints"@) matches Some(Tree::List(hints))
            && hints.len() == 2 && hints[0] == Tree::Text(
            "preview_report_request does not execute an upstream GA API call"@,
        ) && hints[1] == Tree::Text(
            "use check_report_compatibility before large pulls to preflight dimension/metric compatibility"@,
        ),
{
    broadcast use json::group_found;

    reveal_strlit("preview");
    assert("preview"@.len() == 7);
    reveal_strlit("projection");
    assert("projection"@.len() == 10);
    reveal_strlit("tabular_columns");
    assert("tabular_columns"@.len() == 15);
    reveal_strlit("ingest_columns");
    assert("ingest_columns"@.len() == 14);
    reveal_strlit("hints");
    assert("hints"@.len() == 5);
}

/// A value of a previewed column may be missing, whichever the column is.
pub proof fn law_previewed_values_may_be_missing(
    dimensions: Seq<Seq<char>>,
    metrics: Seq<Seq<char>>,
    i: int,
)
    requires
        0 <= i < dimensions.len() + metrics.len(),
    ensures
        expected_columns(dimensions, metrics)[i].nullable == Some(true),
{
}

} // verus!
