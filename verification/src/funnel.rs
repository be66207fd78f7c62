//! Funnel reports: how the two parts of their answer are checked and shown.

use vstd::prelude::*;
use vstd::string::*;

use crate::contract;
use crate::contract::{OutputMode, TabularMeta};
use crate::error;
use crate::error::{AnalyticsError, Problem};
use crate::json;
use crate::json::{Json, Object, Tree};
use crate::tabular;
use crate::tabular::{GaTabularProjection, Table};

verus! {

/// How the answer to a funnel report is shown.
#[derive(Debug)]
pub struct FunnelResponseOptions {
    pub query_hash: String,
    pub output_mode: OutputMode,
    pub summary_only: bool,
    pub max_cell_chars: Option<usize>,
    pub effective_limit: u64,
    pub requested_limit: Option<u64>,
}

/// What is wrong with one part of the answer to a funnel report.
pub open spec fn subreport_problem(subreport: Tree, name: Seq<char>) -> Option<Problem> {
    if !(subreport is Dict) {
        Some(
            Problem::Internal(
                "Google funnel response included a non-object "@ + name + " subreport"@,
            ),
        )
    } else {
        let label = "Google funnel response "@ + name + "."@;
        tabular::table_problem(subreport, label, label)
    }
}

/// Checks one part of the answer to a funnel report.
pub fn validate_funnel_subreport_shape(subreport: &Json, subreport_name: &str) -> (r: Result<
    (),
    AnalyticsError,
>)
    ensures
        error::outcome(r) == subreport_problem(subreport@, subreport_name@),
{
    if !subreport.is_object() {
        let mut message: String = error::labelled(
            "Google funnel response included a non-object ",
            subreport_name,
        );
        message.append(" subreport");
        return Err(AnalyticsError::internal(message.as_str()));
    }
    let mut label: String = error::labelled("Google funnel response ", subreport_name);
    label.append(".");
    tabular::check_table(subreport, label.as_str(), label.as_str())
}

/// The table of one part, without the rows beyond the limit.
pub open spec fn limited_table(subreport: Tree, report_kind: Seq<char>, limit: u64) -> Table {
    let table = tabular::answer_table(subreport, report_kind);
    Table { rows: tabular::window_rows(table.rows, 0, limit), ..table }
}

/// Whether rows may be missing from one part: some were cut, or as many came as could.
pub open spec fn may_miss_rows(subreport: Tree, report_kind: Seq<char>, limit: u64) -> bool {
    let returned = limited_table(subreport, report_kind, limit).rows.len();
    tabular::answer_table(subreport, report_kind).rows.len() > returned || returned >= limit
}

/// Why rows may be missing from one part.
pub open spec fn truncation_basis(subreport: Tree, report_kind: Seq<char>, limit: u64) -> Seq<
    char,
> {
    let returned = limited_table(subreport, report_kind, limit).rows.len();
    if tabular::answer_table(subreport, report_kind).rows.len() > returned {
        "local_response_cap"@
    } else if returned >= limit {
        "response_filled_effective_limit"@
    } else {
        "response_below_effective_limit"@
    }
}

/// What is said of one part beside its rows.
pub open spec fn subreport_meta(
    subreport: Tree,
    report_kind: Seq<char>,
    output_mode: OutputMode,
    summary_only: bool,
    max_cell_chars: Option<usize>,
    limit: u64,
) -> Tree {
    let table = limited_table(subreport, report_kind, limit);
    let meta = tabular::table_meta(table, output_mode, summary_only, max_cell_chars);
    Tree::Dict(
        json::fields()
            .push(("output_mode"@, Tree::Text(output_mode.name())))
            .push(("summary_only"@, Tree::Bool(summary_only)))
            .push(("row_count_returned"@, Tree::Whole(table.rows.len() as int)))
            .push(
                (
                    "upstream_row_count_returned"@,
                    Tree::Whole(
                        tabular::answer_table(subreport, report_kind).rows.len() as int,
                    ),
                ),
            )
            .push(("row_count_total_known"@, Tree::Bool(false)))
            .push(("truncated"@, Tree::Bool(may_miss_rows(subreport, report_kind, limit))))
            .push(
                (
                    "truncation_basis"@,
                    Tree::Text(truncation_basis(subreport, report_kind, limit)),
                ),
            )
            .push(("columns"@, contract::column_trees(table.columns)))
            .push(("cell_clipping"@, json::opt_tree(meta.cell_clipping)))
            .push(("ga4"@, table.ga_meta)),
    )
}

/// One part of the answer to a funnel report: its payload, what is said beside it, and
/// whether rows may be missing.
pub fn project_funnel_subreport(
    subreport: &Json,
    report_kind: &str,
    output_mode: OutputMode,
    summary_only: bool,
    max_cell_chars: Option<usize>,
    effective_limit: u64,
) -> (r: (Json, Json, bool))
    ensures
        r.0@ == tabular::table_payload(
            limited_table(subreport@, report_kind@, effective_limit),
            output_mode,
            summary_only,
            max_cell_chars,
        ),
        r.1@ == subreport_meta(
            subreport@,
            report_kind@,
            output_mode,
            summary_only,
            max_cell_chars,
            effective_limit,
        ),
        r.2 == may_miss_rows(subreport@, report_kind@, effective_limit),
{
    let whole: GaTabularProjection = tabular::project_ga_tabular_response(subreport, report_kind);
    let upstream_row_count_returned: usize = whole.rows.len();
    let projection = GaTabularProjection {
        rows: tabular::take_window(whole.rows.as_slice(), 0, effective_limit),
        row_count_total: whole.row_count_total,
        columns: whole.columns,
        ga_meta: whole.ga_meta,
    };
    assert(projection@ =~= limited_table(subreport@, report_kind@, effective_limit));
    let row_count_returned: usize = projection.rows.len();
    let (payload, tabular_meta): (Json, TabularMeta) = tabular::project_payload_for_mode(
        &projection,
        output_mode,
        summary_only,
        max_cell_chars,
    );
    let locally_truncated: bool = upstream_row_count_returned > row_count_returned;
    let possibly_truncated: bool = locally_truncated || row_count_returned as u64
        >= effective_limit;
    let basis: &str = if locally_truncated {
        "local_response_cap"
    } else if possibly_truncated {
        "response_filled_effective_limit"
    } else {
        "response_below_effective_limit"
    };
    let mut meta = Object::new();
    meta.put("output_mode", json::string(output_mode.as_str()));
    meta.put("summary_only", json::boolean(summary_only));
    meta.put("row_count_returned", json::size(row_count_returned));
    meta.put("upstream_row_count_returned", json::size(upstream_row_count_returned));
    meta.put("row_count_total_known", json::boolean(false));
    meta.put("truncated", json::boolean(possibly_truncated));
    meta.put("truncation_basis", json::string(basis));
    meta.put("columns", contract::columns_to_json(tabular_meta.columns.as_slice()));
    meta.put("cell_clipping", json::copy_or_null(&tabular_meta.cell_clipping));
    meta.put("ga4", projection.ga_meta);
    (payload, json::dict(meta), possibly_truncated)
}

/// What is wrong with the answer to a funnel report.
pub open spec fn funnel_answer_problem(data: Tree) -> Option<Problem> {
    match data.field("funnelTable"@) {
        Some(Tree::Dict(table)) => error::earlier(
            subreport_problem(Tree::Dict(table), "funnelTable"@),
            match data.field("funnelVisualization"@) {
                Some(Tree::Dict(visualization)) => subreport_problem(
                    Tree::Dict(visualization),
                    "funnelVisualization"@,
                ),
                _ => Some(
                    Problem::Internal(
                        "Google funnel response did not include an object-valued funnelVisualization subreport"@,
                    ),
                ),
            },
        ),
        _ => Some(
            Problem::Internal(
                "Google funnel response did not include an object-valued funnelTable subreport"@,
            ),
        ),
    }
}

/// The payload of the answer to a funnel report.
pub open spec fn funnel_payload(data: Tree, options: FunnelResponseOptions) -> Tree {
    if options.summary_only {
        Tree::Null
    } else {
        Tree::Dict(
            json::fields()
                .push(
                    (
                        "funnel_table"@,
                        tabular::table_payload(
                            limited_table(
                                data.field("funnelTable"@)->0,
                                "funnel_table"@,
                                options.effective_limit,
                            ),
                            options.output_mode,
                            false,
                            options.max_cell_chars,
                        ),
                    ),
                )
                .push(
                    (
                        "funnel_visualization"@,
                        tabular::table_payload(
                            limited_table(
                                data.field("funnelVisualization"@)->0,
                                "funnel_visualization"@,
                                options.effective_limit,
                            ),
                            options.output_mode,
                            false,
                            options.max_cell_chars,
                        ),
                    ),
                ),
        )
    }
}

/// What is said of the answer to a funnel report beside its payload.
pub open spec fn funnel_meta(data: Tree, options: FunnelResponseOptions) -> Tree {
    let table = data.field("funnelTable"@)->0;
    let visualization = data.field("funnelVisualization"@)->0;
    let limit = options.effective_limit;
    Tree::Dict(
        json::fields()
            .push(("output_mode"@, Tree::Text(options.output_mode.name())))
            .push(("summary_only"@, Tree::Bool(options.summary_only)))
            .push(("query_hash"@, Tree::Text(options.query_hash@)))
            .push(("requested_limit"@, json::opt_whole(options.requested_limit)))
            .push(("effective_limit"@, Tree::Whole(limit as int)))
            .push(
                (
                    "truncated"@,
                    Tree::Bool(
                        may_miss_rows(table, "funnel_table"@, limit) || may_miss_rows(
                            visualization,
                            "funnel_visualization"@,
                            limit,
                        ),
                    ),
                ),
            )
            .push(("row_count_total_known"@, Tree::Bool(false)))
            .push(
                (
                    "subreports"@,
                    Tree::Dict(
                        json::fields()
                            .push(
                                (
                                    "funnel_table"@,
                                    subreport_meta(
                                        table,
                                        "funnel_table"@,
                                        options.output_mode,
                                        options.summary_only,
                                        options.max_cell_chars,
                                        limit,
                                    ),
                                ),
                            )
                            .push(
                                (
                                    "funnel_visualization"@,
                                    subreport_meta(
                                        visualization,
                                        "funnel_visualization"@,
                                        options.output_mode,
                                        options.summary_only,
                                        options.max_cell_chars,
                                        limit,
                                    ),
                                ),
                            ),
                    ),
                ),
            )
            .push(
                (
                    "ga4"@,
                    Tree::Dict(
                        json::fields()
                            .push(("report_kind"@, Tree::Text("run_funnel_report"@)))
                            .push(("kind"@, json::opt_tree(data.field("kind"@))))
                            .push(
                                ("property_quota"@, json::opt_tree(data.field("propertyQuota"@))),
                            ),
                    ),
                ),
            ),
    )
}

/// The envelope of the answer to a funnel report.
pub open spec fn funnel_envelope(
    data: Tree,
    options: FunnelResponseOptions,
    elapsed_ms: u64,
) -> Tree {
    match funnel_answer_problem(data) {
        Some(problem) => contract::error_tree(problem, elapsed_ms),
        None => contract::success_tree(
            funnel_payload(data, options),
            contract::with_elapsed(funnel_meta(data, options), elapsed_ms),
        ),
    }
}

/// The value under `key`, where it is an object that has the shape of a part.
fn checked_part<'a>(data: &'a Json, key: &str, missing: &str) -> (r: Result<
    &'a Json,
    AnalyticsError,
>)
    ensures
        match r {
            Ok(part) => data@.field(key@) == Some(part@) && part@ is Dict && subreport_problem(
                part@,
                key@,
            ) is None,
            Err(err) => match data@.field(key@) {
                Some(Tree::Dict(entries)) => subreport_problem(Tree::Dict(entries), key@) == Some(
                    err@,
                ),
                _ => err@ == Problem::Internal(missing@),
            },
        },
{
    match data.get(key) {
        Some(part) => {
            if !part.is_object() {
                return Err(AnalyticsError::internal(missing));
            }
            match validate_funnel_subreport_shape(part, key) {
                Err(err) => Err(err),
                Ok(()) => Ok(part),
            }
        },
        None => Err(AnalyticsError::internal(missing)),
    }
}

/// The envelope of the answer to a funnel report.
pub fn contract_success_ga_funnel(
    data: &Json,
    elapsed_ms: u64,
    options: FunnelResponseOptions,
) -> (r: Json)
    ensures
        r@ == funnel_envelope(data@, options, elapsed_ms),
{
    let table: &Json = match checked_part(
        data,
        "funnelTable",
        "Google funnel response did not include an object-valued funnelTable subreport",
    ) {
        Ok(part) => part,
        Err(err) => {
            return contract::error(err, elapsed_ms);
        },
    };
    let visualization: &Json = match checked_part(
        data,
        "funnelVisualization",
        "Google funnel response did not include an object-valued funnelVisualization subreport",
    ) {
        Ok(part) => part,
        Err(err) => {
            return contract::error(err, elapsed_ms);
        },
    };
    let (table_payload, table_meta, table_truncated): (Json, Json, bool) =
        project_funnel_subreport(
        table,
        "funnel_table",
        options.output_mode,
        options.summary_only,
        options.max_cell_chars,
        options.effective_limit,
    );
    let (visualization_payload, visualization_meta, visualization_truncated): (Json, Json, bool) =
        project_funnel_subreport(
        visualization,
        "funnel_visualization",
        options.output_mode,
        options.summary_only,
        options.max_cell_chars,
        options.effective_limit,
    );
    let payload: Json = if options.summary_only {
        Json::Null
    } else {
        let mut parts = Object::new();
        parts.put("funnel_table", table_payload);
        parts.put("funnel_visualization", visualization_payload);
        json::dict(parts)
    };
    let mut subreports = Object::new();
    subreports.put("funnel_table", table_meta);
    subreports.put("funnel_visualization", visualization_meta);
    let mut ga4 = Object::new();
    ga4.put("report_kind", json::string("run_funnel_report"));
    ga4.put("kind", data.copy_at("kind"));
    ga4.put("property_quota", data.copy_at("propertyQuota"));
    let mut meta = Object::new();
    meta.put("output_mode", json::string(options.output_mode.as_str()));
    meta.put("summary_only", json::boolean(options.summary_only));
    meta.put("query_hash", json::string(options.query_hash.as_str()));
    meta.put("requested_limit", json::whole_or_null(options.requested_limit));
    meta.put("effective_limit", json::whole(options.effective_limit));
    meta.put("truncated", json::boolean(table_truncated || visualization_truncated));
    meta.put("row_count_total_known", json::boolean(false));
    meta.put("subreports", json::dict(subreports));
    meta.put("ga4", json::dict(ga4));
    contract::success_with_meta(payload, json::dict(meta), elapsed_ms)
}

/// Neither part of a funnel answer shows more rows than the limit.
pub proof fn law_funnel_parts_are_limited(subreport: Tree, report_kind: Seq<char>, limit: u64)
    ensures
        limited_table(subreport, report_kind, limit).rows.len() <= limit,
        !may_miss_rows(subreport, report_kind, limit) ==> limited_table(
            subreport,
            report_kind,
            limit,
        ).rows == tabular::answer_table(subreport, report_kind).rows,
{
    let rows = tabular::answer_table(subreport, report_kind).rows;
    if !may_miss_rows(subreport, report_kind, limit) {
        assert(tabular::window_rows(rows, 0, limit) =~= rows);
    }
}

/// A part of a funnel is told with as many of its rows as may be, from the first on; and it
/// counts as cut where rows are left out, or where so many came that more may have been.
pub proof fn law_parts_tell_their_first_rows(
    subreport: Tree,
    report_kind: Seq<char>,
    limit: u64,
    k: int,
)
    ensures
        limited_table(subreport, report_kind, limit).rows.len() == (if tabular::answer_table(
            subreport,
            report_kind,
        ).rows.len() <= limit {
            tabular::answer_table(subreport, report_kind).rows.len() as int
        } else {
            limit as int
        }),
        0 <= k < limited_table(subreport, report_kind, limit).rows.len() ==> limited_table(
            subreport,
            report_kind,
            limit,
        ).rows[k] == tabular::answer_table(subreport, report_kind).rows[k],
        limited_table(subreport, report_kind, limit).columns == tabular::answer_table(
            subreport,
            report_kind,
        ).columns,
        may_miss_rows(subreport, report_kind, limit) <==> tabular::answer_table(
            subreport,
            report_kind,
        ).rows.len() >= limit,
        truncation_basis(subreport, report_kind, limit) == (if tabular::answer_table(
            subreport,
            report_kind,
        ).rows.len() > limit {
            "local_response_cap"@
        } else if tabular::answer_table(subreport, report_kind).rows.len() == limit {
            "response_filled_effective_limit"@
        } else {
            "response_below_effective_limit"@
        }),
{
}

/// What is told of a part of a funnel stands under the name of what it is.
pub proof fn law_parts_are_told_by_name(
    subreport: Tree,
    report_kind: Seq<char>,
    output_mode: OutputMode,
    summary_only: bool,
    max_cell_chars: Option<usize>,
    limit: u64,
)
    ensures
        subreport_meta(
            subreport,
            report_kind,
            output_mode,
            summary_only,
            max_cell_chars,
            limit,
        ).field("output_mode"@) == Some(Tree::Text(output_mode.name())),
        subreport_meta(
            subreport,
            report_kind,
            output_mode,
            summary_only,
            max_cell_chars,
            limit,
        ).field("summary_only"@) == Some(Tree::Bool(summary_only)),
        subreport_meta(
            subreport,
            report_kind,
            output_mode,
            summary_only,
            max_cell_chars,
            limit,
        ).field("row_count_returned"@) == Some(Tree::Whole(limited_table(subreport, report_kind, limit).rows.len() as int)),
        subreport_meta(
            subreport,
            report_kind,
            output_mode,
            summary_only,
            max_cell_chars,
            limit,
        ).field("upstream_row_count_returned"@) == Some(Tree::Whole(tabular::answer_table(subreport, report_kind).rows.len() as int)),
        subreport_meta(
            subreport,
            report_kind,
            output_mode,
            summary_only,
            max_cell_chars,
            limit,
        ).field("row_count_total_known"@) == Some(Tree::Bool(false)),
        subreport_meta(
            subreport,
            report_kind,
            output_mode,
            summary_only,
            max_cell_chars,
            limit,
        ).field("truncated"@) == Some(Tree::Bool(may_miss_rows(subreport, report_kind, limit))),
        subreport_meta(
            subreport,
            report_kind,
            output_mode,
            summary_only,
            max_cell_chars,
            limit,
        ).field("truncation_basis"@) == Some(Tree::Text(truncation_basis(subreport, report_kind, limit))),
        subreport_meta(
            subreport,
            report_kind,
            output_mode,
            summary_only,
            max_cell_chars,
            limit,
        ).field("columns"@) == Some(contract::column_trees(tabular::answer_table(subreport, report_kind).columns)),
        subreport_meta(
            subreport,
            report_kind,
            output_mode,
            summary_only,
            max_cell_chars,
            limit,
        ).field("ga4"@) == Some(tabular::answer_table(subreport, report_kind).ga_meta),
{
    broadcast use json::group_found;

    reveal_strlit("output_mode");
    assert("output_mode"@.len() == 11);
    reveal_strlit("summary_only");
    assert("summary_only"@.len() == 12);
    reveal_strlit("row_count_returned");
    assert("row_count_returned"@.len() == 18);
    reveal_strlit("upstream_row_count_returned");
    assert("upstream_row_count_returned"@.len() == 27);
    reveal_strlit("row_count_total_known");
    assert("row_count_total_known"@.len() == 21);
    reveal_strlit("truncated");
    assert("truncated"@.len() == 9);
    reveal_strlit("truncation_basis");
    assert("truncation_basis"@.len() == 16);
    reveal_strlit("columns");
    assert("columns"@.len() == 7);
    reveal_strlit("cell_clipping");
    assert("cell_clipping"@.len() == 13);
    reveal_strlit("ga4");
    assert("ga4"@.len() == 3);
}

/// A funnel is answered with the rows of its table and of its picture, each under its own name,
/// and with what is told of them.
pub proof fn law_funnels_are_told_by_part(
    data: Tree,
    table: Seq<(Seq<char>, Tree)>,
    visualization: Seq<(Seq<char>, Tree)>,
    options: FunnelResponseOptions,
    elapsed_ms: u64,
)
    requires
        data.field("funnelTable"@) == Some(Tree::Dict(table)),
        data.field("funnelVisualization"@) == Some(Tree::Dict(visualization)),
    ensures
        funnel_answer_problem(data) matches Some(problem) ==> funnel_envelope(
            data,
            options,
            elapsed_ms,
        ).field("ok"@) == Some(Tree::Bool(false)),
        funnel_answer_problem(data) is None ==> funnel_envelope(data, options, elapsed_ms).field(
            "ok"@,
        ) == Some(Tree::Bool(true)),
        options.summary_only ==> funnel_payload(data, options) == Tree::Null,
        !options.summary_only ==> funnel_payload(data, options).field("funnel_table"@) == Some(
            tabular::table_payload(
                limited_table(Tree::Dict(table), "funnel_table"@, options.effective_limit),
                options.output_mode,
                false,
                options.max_cell_chars,
            ),
        ) && funnel_payload(data, options).field("funnel_visualization"@) == Some(
            tabular::table_payload(
                limited_table(
                    Tree::Dict(visualization),
                    "funnel_visualization"@,
                    options.effective_limit,
                ),
                options.output_mode,
                false,
                options.max_cell_chars,
            ),
        ),
        funnel_meta(data, options).field("query_hash"@) == Some(Tree::Text(options.query_hash@)),
        funnel_meta(data, options).field("summary_only"@) == Some(
            Tree::Bool(options.summary_only),
        ),
        funnel_meta(data, options).field("effective_limit"@) == Some(
            Tree::Whole(options.effective_limit as int),
        ),
        funnel_meta(data, options).field("requested_limit"@) == Some(
            match options.requested_limit {
                Some(n) => Tree::Whole(n as int),
                None => Tree::Null,
            },
        ),
        funnel_meta(data, options).field("truncated"@) == Some(
            Tree::Bool(
                tabular::answer_table(Tree::Dict(table), "funnel_table"@).rows.len()
                    >= options.effective_limit || tabular::answer_table(
                    Tree::Dict(visualization),
                    "funnel_visualization"@,
                ).rows.len() >= options.effective_limit,
            ),
        ),
        funnel_meta(data, options).field("subreports"@) matches Some(parts) && parts.field(
            "funnel_table"@,
        ) == Some(
            subreport_meta(
                Tree::Dict(table),
                "funnel_table"@,
                options.output_mode,
                options.summary_only,
                options.max_cell_chars,
                options.effective_limit,
            ),
        ) && parts.field("funnel_visualization"@) == Some(
            subreport_meta(
                Tree::Dict(visualization),
                "funnel_visualization"@,
                options.output_mode,
                options.summary_only,
                options.max_cell_chars,
                options.effective_limit,
            ),
        ),
{
    broadcast use json::group_found;

    reveal_strlit("ok");
    assert("ok"@.len() == 2);
    reveal_strlit("data");
    assert("data"@.len() == 4);
    reveal_strlit("meta");
    assert("meta"@.len() == 4);
    reveal_strlit("error");
    assert("error"@.len() == 5);
    reveal_strlit("funnel_table");
    assert("funnel_table"@.len() == 12);
    reveal_strlit("funnel_visualization");
    assert("funnel_visualization"@.len() == 20);
    reveal_strlit("output_mode");
    assert("output_mode"@.len() == 11);
    reveal_strlit("summary_only");
    assert("summary_only"@.len() == 12);
    reveal_strlit("query_hash");
    assert("query_hash"@.len() == 10);
    reveal_strlit("requested_limit");
    assert("requested_limit"@.len() == 15);
    reveal_strlit("effective_limit");
    assert("effective_limit"@.len() == 15);
    reveal_strlit("truncated");
    assert("truncated"@.len() == 9);
    reveal_strlit("row_count_total_known");
    assert("row_count_total_known"@.len() == 21);
    reveal_strlit("subreports");
    assert("subreports"@.len() == 10);
    reveal_strlit("ga4");
    assert("ga4"@.len() == 3);
    assert("data"@[0] != "meta"@[0]);
    assert("funnel_table"@[0] != "summary_only"@[0]);
    assert("query_hash"@[0] != "subreports"@[0]);
    assert("requested_limit"@[0] != "effective_limit"@[0]);
    law_parts_tell_their_first_rows(
        Tree::Dict(table),
        "funnel_table"@,
        options.effective_limit,
        0,
    );
    law_parts_tell_their_first_rows(
        Tree::Dict(visualization),
        "funnel_visualization"@,
        options.effective_limit,
        0,
    );
}

/// An answer without both parts of a funnel is an error.
pub proof fn law_funnels_have_two_parts(data: Tree)
    ensures
        !(data.field("funnelTable"@) matches Some(Tree::Dict(_))) ==> (funnel_answer_problem(
            data,
        ) matches Some(problem) && problem is Internal),
        !(data.field("funnelVisualization"@) matches Some(Tree::Dict(_))) ==> funnel_answer_problem(
            data,
        ) is Some,
{
}

/// The answer for a funnel can be shown exactly where both its parts are objects that can be
/// shown as tables.
pub proof fn law_funnels_that_can_be_shown(
    data: Tree,
    table: Seq<(Seq<char>, Tree)>,
    visualization: Seq<(Seq<char>, Tree)>,
    label: Seq<char>,
)
    requires
        data.field("funnelTable"@) == Some(Tree::Dict(table)),
        data.field("funnelVisualization"@) == Some(Tree::Dict(visualization)),
    ensures
        funnel_answer_problem(data) is None <==> tabular::table_problem(
            Tree::Dict(table),
            label,
            label,
        ) is None && tabular::table_problem(Tree::Dict(visualization), label, label) is None,
{
    let first = "Google funnel response "@ + "funnelTable"@ + "."@;
    let second = "Google funnel response "@ + "funnelVisualization"@ + "."@;
    tabular::law_tables_are_lists_of_objects(Tree::Dict(table), label, label);
    tabular::law_tables_are_lists_of_objects(Tree::Dict(table), first, first);
    tabular::law_tables_are_lists_of_objects(Tree::Dict(visualization), label, label);
    tabular::law_tables_are_lists_of_objects(Tree::Dict(visualization), second, second);
}

} // verus!
