//! Queries against a scratchpad session: what is run, and what is said of the rows.

use vstd::prelude::*;
use vstd::string::*;

use crate::contract;
use crate::contract::{Column, ColumnMeta, OutputMode, TableMeta, TabularMeta};
use crate::cursors;
use crate::duck_values;
use crate::duck_values::{DuckType, DuckValue};
use crate::error;
use crate::error::{AnalyticsError, Problem};
use crate::ga_client;
use crate::json;
use crate::json::{Json, Object, Tree};
use crate::report_checks;
use crate::report_tools::Page;
use crate::sql_text;
use crate::tabular;
use crate::tabular::{GaTabularProjection, Table};
use crate::text;

verus! {

/// How the answer to a query is shown, and which page of it.
#[derive(Debug)]
pub struct ScratchpadQueryControls {
    pub max_rows: Option<usize>,
    pub cursor: Option<String>,
    pub output_mode: OutputMode,
    pub summary_only: bool,
    pub max_cell_chars: Option<usize>,
}

/// The rows of one page of a query.
#[derive(Debug)]
pub struct ScratchpadTabularProjection {
    pub rows: Vec<Object>,
    pub row_count_total: usize,
    pub columns: Vec<ColumnMeta>,
    pub query_hints: Vec<String>,
    pub pagination_mode: &'static str,
}

/// What the rows of one page of a query say.
#[verifier::ext_equal]
pub struct QueryPage {
    pub rows: Seq<Seq<(Seq<char>, Tree)>>,
    pub row_count_total: usize,
    pub columns: Seq<Column>,
    pub query_hints: Seq<Seq<char>>,
    pub pagination_mode: Seq<char>,
}

impl View for ScratchpadTabularProjection {
    type V = QueryPage;

    open spec fn view(&self) -> QueryPage {
        QueryPage {
            rows: json::objects_view(self.rows@),
            row_count_total: self.row_count_total,
            columns: contract::columns_view(self.columns@),
            query_hints: text::texts(self.query_hints@),
            pagination_mode: self.pagination_mode@,
        }
    }
}

// ---------------------------------------------------------------------------
// Hashes and windows.
// ---------------------------------------------------------------------------

/// What the hash of a query is taken of.
pub open spec fn query_signature(
    tool_name: Seq<char>,
    session_id: Seq<char>,
    sql: Seq<char>,
) -> Tree {
    Tree::Dict(
        json::fields()
            .push(("tool"@, Tree::Text(tool_name)))
            .push(("session_id"@, Tree::Text(text::trim(session_id))))
            .push(("sql"@, Tree::Text(sql_text::inner_sql(sql)))),
    )
}

/// The hash of a query.
pub fn scratchpad_query_hash(tool_name: &str, session_id: &str, sql: &str) -> (r: Result<
    String,
    AnalyticsError,
>)
    ensures
        ga_client::text_result(r) == Ok::<Seq<char>, Problem>(
            cursors::query_hash(query_signature(tool_name@, session_id@, sql@)),
        ),
{
    let mut signature = Object::new();
    signature.put("tool", json::string(tool_name));
    signature.put("session_id", json::string(text::trimmed(session_id).as_str()));
    signature.put("sql", json::string(sql_text::trim_sql_for_subquery(sql).as_str()));
    cursors::stable_query_hash(&json::dict(signature))
}

/// The page that a query is about, or the first thing that is wrong with the request.
pub open spec fn query_page(
    tool_name: Seq<char>,
    session_id: Seq<char>,
    sql: Seq<char>,
    controls: ScratchpadQueryControls,
) -> Result<Page, Problem> {
    let trimmed = text::trim(sql);
    let hash = cursors::query_hash(query_signature(tool_name, session_id, trimmed));
    match report_checks::tabular_controls_problem(
        controls.max_rows,
        controls.max_cell_chars,
        text::opt_text(controls.cursor),
    ) {
        Some(problem) => Err(problem),
        None => if trimmed.len() == 0 {
            Err(Problem::InvalidArgument("sql"@, "must not be empty"@))
        } else {
            match cursors::cursor_window(
                hash,
                text::opt_text(controls.cursor),
                None,
                controls.max_rows,
                None,
            ) {
                Ok((offset, size)) => Ok(Page { query_hash: hash, offset, limit: size }),
                Err(problem) => Err(problem),
            }
        },
    }
}

/// A query that is to be run.
#[derive(Debug)]
pub struct PlannedQuery {
    pub query_hash: String,
    pub sql: String,
    pub offset: u64,
    pub page_size: u64,
}

/// What is run for a query.
pub fn plan_scratchpad_query(
    tool_name: &str,
    session_id: &str,
    sql: &str,
    controls: &ScratchpadQueryControls,
) -> (r: Result<PlannedQuery, AnalyticsError>)
    ensures
        match query_page(tool_name@, session_id@, sql@, *controls) {
            Err(problem) => r matches Err(err) && err@ == problem,
            Ok(page) => r matches Ok(plan) && plan.query_hash@ == page.query_hash && plan.sql@
                == text::trim(sql@) && plan.offset == page.offset && plan.page_size == page.limit,
        },
{
    let cursor: Option<&str> = match &controls.cursor {
        Some(held) => Some(held.as_str()),
        None => None,
    };
    match report_checks::validate_tabular_controls(
        controls.max_rows,
        controls.max_cell_chars,
        cursor,
    ) {
        Err(err) => {
            return Err(err);
        },
        Ok(()) => {},
    }
    let trimmed: String = text::trimmed(sql);
    if trimmed.as_str().is_empty() {
        return Err(AnalyticsError::invalid("sql", "must not be empty"));
    }
    let query_hash: String = match scratchpad_query_hash(tool_name, session_id, trimmed.as_str()) {
        Ok(hash) => hash,
        Err(err) => {
            return Err(err);
        },
    };
    match cursors::resolve_cursor_window(
        query_hash.as_str(),
        cursor,
        None,
        controls.max_rows,
        None,
    ) {
        Ok(window) => Ok(
            PlannedQuery { query_hash, sql: trimmed, offset: window.0, page_size: window.1 },
        ),
        Err(err) => Err(err),
    }
}

// ---------------------------------------------------------------------------
// Running a query.
// ---------------------------------------------------------------------------

/// How one page of a query is read.
#[derive(Debug)]
pub enum QuerySteps {
    /// One query counts the rows, another reads the page.
    Wrapped { count_sql: String, page_sql: String },
    /// The query is run as it is, and the page is taken from its rows.
    InMemory { sql: String },
}

/// How one page of a query is read.
pub fn query_steps(sql: &str, offset: u64, page_size: u64) -> (r: QuerySteps)
    ensures
        match r {
            QuerySteps::Wrapped { count_sql, page_sql } => sql_text::can_wrap(sql@) && count_sql@
                == sql_text::row_count_sql(sql@) && page_sql@ == sql_text::page_sql(
                sql@,
                offset,
                page_size,
            ),
            QuerySteps::InMemory { sql: whole } => !sql_text::can_wrap(sql@) && whole@ == sql@,
        },
{
    if sql_text::supports_wrapped_pagination(sql) {
        QuerySteps::Wrapped {
            count_sql: sql_text::wrap_query_for_row_count(sql),
            page_sql: sql_text::wrap_query_for_page(sql, offset, page_size),
        }
    } else {
        QuerySteps::InMemory { sql: sql.to_owned() }
    }
}

/// The columns of a query.
pub open spec fn query_columns(names: Seq<Seq<char>>, types: Seq<DuckType>) -> Seq<Column> {
    Seq::new(
        types.len(),
        |i: int|
            Column {
                name: if i < names.len() {
                    names[i]
                } else {
                    "column_"@ + text::decimal((i + 1) as nat)
                },
                logical_type: Some(duck_values::logical_type(types[i])),
                nullable: Some(true),
            },
    )
}

/// The columns of a query, from their names and types.
pub fn build_query_columns(names: &[String], types: &[DuckType]) -> (r: Vec<ColumnMeta>)
    ensures
        contract::columns_view(r@) == query_columns(text::texts(names@), types@),
{
    let ghost all = query_columns(text::texts(names@), types@);
    let mut r: Vec<ColumnMeta> = Vec::new();
    let n: usize = types.len();
    for i in 0..n
        invariant
            n == types@.len(),
            all == query_columns(text::texts(names@), types@),
            r@.len() == i,
            forall|j: int| 0 <= j < i ==> (#[trigger] r@[j])@ == all[j],
    {
        let name: String = if i < names.len() {
            assert(text::texts(names@)[i as int] == names@[i as int]@);
            names[i].clone()
        } else {
            error::labelled("column_", text::decimal_text(i as u64 + 1).as_str())
        };
        let column = ColumnMeta::new(name.as_str()).with_logical_type(
            duck_values::duckdb_type_to_logical_type(types[i]),
        ).with_nullable(true);
        assert(column@ == all[i as int]);
        r.push(column);
    }
    assert(contract::columns_view(r@) =~= all);
    r
}

/// The first `n` values of a row, each under the name of its column.
pub open spec fn query_row(names: Seq<Seq<char>>, values: Seq<DuckValue>, n: nat) -> Seq<
    (Seq<char>, Tree),
>
    decreases n,
{
    if n == 0 {
        json::fields()
    } else {
        json::entered(
            query_row(names, values, (n - 1) as nat),
            names[n - 1],
            values[n - 1].tree(),
        )
    }
}

/// A row of a query. There is a name for each value.
pub fn build_query_row(names: &[String], values: &[DuckValue]) -> (r: Object)
    requires
        values@.len() <= names@.len(),
    ensures
        r@ == query_row(text::texts(names@), values@, values@.len()),
{
    let mut row = Object::new();
    for i in 0..values.len()
        invariant
            values@.len() <= names@.len(),
            row@ == query_row(text::texts(names@), values@, i as nat),
    {
        assert(text::texts(names@)[i as int] == names@[i as int]@);
        row.insert(names[i].as_str(), duck_values::duck_value_to_json(&values[i]));
    }
    row
}

/// The rows of a page that a query of its own has read.
pub fn wrapped_page(columns: Vec<ColumnMeta>, rows: Vec<Object>, row_count_total: usize) -> (r:
    ScratchpadTabularProjection)
    ensures
        r@ == (QueryPage {
            rows: json::objects_view(rows@),
            row_count_total,
            columns: contract::columns_view(columns@),
            query_hints: Seq::<Seq<char>>::empty(),
            pagination_mode: "wrapped_sql"@,
        }),
{
    let r = ScratchpadTabularProjection {
        rows,
        row_count_total,
        columns,
        query_hints: Vec::new(),
        pagination_mode: "wrapped_sql",
    };
    assert(text::texts(r.query_hints@) =~= Seq::<Seq<char>>::empty());
    r
}

/// The hint that all rows were read for one page.
pub open spec fn in_memory_hint() -> Seq<Seq<char>> {
    seq!["non-SELECT/WITH query used in-memory pagination after execution"@]
}

/// The rows of a page that is taken from all rows.
pub open spec fn in_memory(
    rows: Seq<Seq<(Seq<char>, Tree)>>,
    columns: Seq<Column>,
    offset: u64,
    page_size: u64,
) -> QueryPage {
    let kept = tabular::window_rows(rows, offset, page_size);
    QueryPage {
        rows: kept,
        row_count_total: rows.len() as usize,
        columns,
        query_hints: if offset > 0 || rows.len() > kept.len() {
            in_memory_hint()
        } else {
            Seq::<Seq<char>>::empty()
        },
        pagination_mode: "in_memory"@,
    }
}

/// The rows of a page that is taken from all rows.
pub fn in_memory_page(
    columns: Vec<ColumnMeta>,
    rows: &[Object],
    offset: u64,
    page_size: u64,
) -> (r: ScratchpadTabularProjection)
    ensures
        r@ == in_memory(
            json::objects_view(rows@),
            contract::columns_view(columns@),
            offset,
            page_size,
        ),
{
    let ghost shown = contract::columns_view(columns@);
    let total: usize = rows.len();
    let kept: Vec<Object> = tabular::take_window(rows, offset, page_size);
    assert(json::objects_view(kept@).len() == kept@.len());
    let hints: Vec<String> = if offset > 0 || total > kept.len() {
        let hints: Vec<String> = text::owned(
            &["non-SELECT/WITH query used in-memory pagination after execution"],
        );
        assert(text::texts(hints@) =~= in_memory_hint());
        hints
    } else {
        let hints: Vec<String> = Vec::new();
        assert(text::texts(hints@) =~= Seq::<Seq<char>>::empty());
        hints
    };
    let r = ScratchpadTabularProjection {
        rows: kept,
        row_count_total: total,
        columns,
        query_hints: hints,
        pagination_mode: "in_memory",
    };
    assert(r@ =~= in_memory(json::objects_view(rows@), shown, offset, page_size));
    r
}

// ---------------------------------------------------------------------------
// Answers.
// ---------------------------------------------------------------------------

/// `defaults`, and those of the first `n` extras that are not among them.
pub open spec fn merged(defaults: Seq<Seq<char>>, extras: Seq<Seq<char>>, n: nat) -> Seq<Seq<char>>
    decreases n,
{
    if n == 0 {
        defaults
    } else {
        let before = merged(defaults, extras, (n - 1) as nat);
        if before.contains(extras[n - 1]) {
            before
        } else {
            before.push(extras[n - 1])
        }
    }
}

fn is_among(items: &[String], item: &str) -> (r: bool)
    ensures
        r == text::texts(items@).contains(item@),
{
    let ghost all = text::texts(items@);
    for i in 0..items.len()
        invariant
            all == text::texts(items@),
            forall|j: int| 0 <= j < i ==> #[trigger] all[j] != item@,
    {
        assert(all[i as int] == items@[i as int]@);
        if text::same_text(items[i].as_str(), item) {
            return true;
        }
    }
    false
}

/// Hints with further ones, none of them twice.
pub fn merge_query_hints(defaults: Vec<String>, extras: &[String]) -> (r: Vec<String>)
    ensures
        text::texts(r@) == merged(text::texts(defaults@), text::texts(extras@), extras@.len()),
{
    let ghost base = text::texts(defaults@);
    let ghost more = text::texts(extras@);
    let mut r: Vec<String> = defaults;
    for i in 0..extras.len()
        invariant
            more == text::texts(extras@),
            text::texts(r@) == merged(base, more, i as nat),
    {
        assert(more[i as int] == extras@[i as int]@);
        if !is_among(r.as_slice(), extras[i].as_str()) {
            let ghost held = r@;
            r.push(extras[i].clone());
            assert(text::texts(r@) =~= text::texts(held).push(more[i as int]));
        }
    }
    r
}

/// The table of a page of a query.
pub open spec fn page_table(page: QueryPage) -> Table {
    Table {
        rows: page.rows,
        row_count_total: page.row_count_total,
        columns: page.columns,
        ga_meta: Tree::Null,
    }
}

/// The hints of the answer to a query.
pub open spec fn answer_hints(
    page: QueryPage,
    controls: ScratchpadQueryControls,
) -> Option<Seq<Seq<char>>> {
    let defaults = match tabular::table_meta(
        page_table(page),
        controls.output_mode,
        controls.summary_only,
        controls.max_cell_chars,
    ).query_hints {
        Some(hints) => hints,
        None => Seq::<Seq<char>>::empty(),
    };
    let all = merged(defaults, page.query_hints, page.query_hints.len());
    if all.len() > 0 {
        Some(all)
    } else {
        None
    }
}

/// The cursor of the next page of a query.
pub open spec fn next_query_cursor(page: QueryPage, query_hash: Seq<char>, offset: u64) -> Option<
    Seq<char>,
> {
    let next_offset = tabular::advanced(offset, page.rows.len() as int);
    if (next_offset as usize) < page.row_count_total {
        Some(cursors::cursor_text(query_hash, next_offset))
    } else {
        None
    }
}

/// What the answer to a query says of how it was run.
pub open spec fn run_tree(
    page: QueryPage,
    plan: PlannedQuery,
    session_id: Seq<char>,
) -> Tree {
    Tree::Dict(
        json::fields()
            .push(("session_id"@, Tree::Text(text::trim(session_id))))
            .push(("pagination_mode"@, Tree::Text(page.pagination_mode)))
            .push(("query_sql_bytes"@, Tree::Whole(text::byte_len(plan.sql@) as int)))
            .push(("page_size"@, Tree::Whole(plan.page_size as int)))
            .push(("offset"@, Tree::Whole(plan.offset as int))),
    )
}

/// What is said of the answer to a query beside its rows.
pub open spec fn query_meta(
    page: QueryPage,
    plan: PlannedQuery,
    session_id: Seq<char>,
    controls: ScratchpadQueryControls,
    source_meta: Option<Tree>,
) -> Tree {
    let meta = TableMeta {
        query_hash: Some(plan.query_hash@),
        next_cursor: next_query_cursor(page, plan.query_hash@, plan.offset),
        query_hints: answer_hints(page, controls),
        ..tabular::table_meta(
            page_table(page),
            controls.output_mode,
            controls.summary_only,
            controls.max_cell_chars,
        )
    };
    let entries = json::entered(meta.entries(), "scratchpad"@, run_tree(page, plan, session_id));
    Tree::Dict(
        match source_meta {
            Some(extra) => json::entered(entries, "source"@, extra),
            None => entries,
        },
    )
}

/// The envelope of the answer to a query.
pub open spec fn query_envelope(
    page: QueryPage,
    plan: PlannedQuery,
    session_id: Seq<char>,
    controls: ScratchpadQueryControls,
    source_meta: Option<Tree>,
    elapsed_ms: u64,
) -> Tree {
    contract::success_tree(
        tabular::table_payload(
            page_table(page),
            controls.output_mode,
            controls.summary_only,
            controls.max_cell_chars,
        ),
        contract::with_elapsed(
            query_meta(page, plan, session_id, controls, source_meta),
            elapsed_ms,
        ),
    )
}

fn run_value(
    pagination_mode: &str,
    plan: &PlannedQuery,
    session_id: &str,
) -> (r: Json)
    ensures
        forall|page: QueryPage|
            page.pagination_mode == pagination_mode@ ==> r@ == #[trigger] run_tree(
                page,
                *plan,
                session_id@,
            ),
{
    let mut object = Object::new();
    object.put("session_id", json::string(text::trimmed(session_id).as_str()));
    object.put("pagination_mode", json::string(pagination_mode));
    object.put("query_sql_bytes", json::size(text::bytes_in(plan.sql.as_str())));
    object.put("page_size", json::whole(plan.page_size));
    object.put("offset", json::whole(plan.offset));
    json::dict(object)
}

/// The envelope of the rows of a query.
pub fn query_success(
    projection: ScratchpadTabularProjection,
    plan: &PlannedQuery,
    session_id: &str,
    controls: &ScratchpadQueryControls,
    source_meta: Option<Json>,
    elapsed_ms: u64,
) -> (r: Json)
    ensures
        r@ == query_envelope(
            projection@,
            *plan,
            session_id@,
            *controls,
            json::opt_view(source_meta),
            elapsed_ms,
        ),
{
    let ghost page = projection@;
    let extras: Vec<String> = projection.query_hints;
    let pagination_mode: &'static str = projection.pagination_mode;
    let row_count_total: usize = projection.row_count_total;
    let table = GaTabularProjection {
        rows: projection.rows,
        row_count_total,
        columns: projection.columns,
        ga_meta: Json::Null,
    };
    assert(table@ =~= page_table(page));
    let (payload, first_meta): (Json, TabularMeta) = tabular::project_payload_for_mode(
        &table,
        controls.output_mode,
        controls.summary_only,
        controls.max_cell_chars,
    );
    let mut meta: TabularMeta = first_meta;
    let ghost base = meta@;
    meta.query_hash = Some(plan.query_hash.clone());
    let next_offset: u64 = tabular::advance(plan.offset, meta.row_count_returned);
    if (next_offset as usize) < row_count_total {
        meta.next_cursor = Some(cursors::encode_cursor(plan.query_hash.as_str(), next_offset));
    }
    let defaults: Vec<String> = match meta.query_hints {
        Some(hints) => hints,
        None => {
            let none: Vec<String> = Vec::new();
            assert(text::texts(none@) =~= Seq::<Seq<char>>::empty());
            none
        },
    };
    let hints: Vec<String> = merge_query_hints(defaults, extras.as_slice());
    assert(text::texts(hints@).len() == hints@.len());
    assert(text::texts(extras@).len() == extras@.len());
    meta.query_hints =
    if hints.len() > 0 {
        Some(hints)
    } else {
        None
    };
    assert(meta@ =~= (TableMeta {
        query_hash: Some(plan.query_hash@),
        next_cursor: next_query_cursor(page, plan.query_hash@, plan.offset),
        query_hints: answer_hints(page, *controls),
        ..base
    }));
    let mut map: Object = meta.to_object();
    map.insert("scratchpad", run_value(pagination_mode, plan, session_id));
    match source_meta {
        Some(extra) => {
            map.insert("source", extra);
        },
        None => {},
    }
    contract::success_with_meta(payload, json::dict(map), elapsed_ms)
}

/// What is said of the rows of a query, or of the error in their place.
pub fn query_reply(
    outcome: Result<ScratchpadTabularProjection, AnalyticsError>,
    plan: &PlannedQuery,
    session_id: &str,
    controls: &ScratchpadQueryControls,
    source_meta: Option<Json>,
    elapsed_ms: u64,
) -> (r: Json)
    ensures
        r@ == (match outcome {
            Ok(projection) => query_envelope(
                projection@,
                *plan,
                session_id@,
                *controls,
                json::opt_view(source_meta),
                elapsed_ms,
            ),
            Err(err) => contract::error_tree(err@, elapsed_ms),
        }),
{
    match outcome {
        Ok(projection) => query_success(
            projection,
            plan,
            session_id,
            controls,
            source_meta,
            elapsed_ms,
        ),
        Err(err) => contract::error(err, elapsed_ms),
    }
}

// ---------------------------------------------------------------------------
// Laws.
// ---------------------------------------------------------------------------

/// Semicolons and white space at the end of a query make no difference to its hash, nor
/// to the queries that read its pages.
pub proof fn law_query_hash_ignores_ends(
    tool_name: Seq<char>,
    session_id: Seq<char>,
    sql: Seq<char>,
    offset: u64,
    page_size: u64,
)
    ensures
        query_signature(tool_name, session_id, sql_text::inner_sql(sql)) == query_signature(
            tool_name,
            session_id,
            sql,
        ),
        sql_text::page_sql(sql_text::inner_sql(sql), offset, page_size) == sql_text::page_sql(
            sql,
            offset,
            page_size,
        ),
        sql_text::can_wrap(sql_text::inner_sql(sql)) == sql_text::can_wrap(sql),
{
    sql_text::law_inner_sql_is_stable(sql);
}

/// No hint is said twice.
pub proof fn law_hints_are_said_once(
    defaults: Seq<Seq<char>>,
    extras: Seq<Seq<char>>,
    n: nat,
)
    requires
        defaults.no_duplicates(),
        n <= extras.len(),
    ensures
        merged(defaults, extras, n).no_duplicates(),
        forall|i: int| 0 <= i < n ==> merged(defaults, extras, n).contains(#[trigger] extras[i]),
    decreases n,
{
    if n > 0 {
        law_hints_are_said_once(defaults, extras, (n - 1) as nat);
        let before = merged(defaults, extras, (n - 1) as nat);
        let all = merged(defaults, extras, n);
        assert forall|i: int| 0 <= i < n implies all.contains(#[trigger] extras[i]) by {
            if before.contains(extras[i]) {
                let at = choose|at: int| 0 <= at < before.len() && before[at] == extras[i];
                assert(all[at] == extras[i]);
            } else {
                assert(i == n - 1);
                assert(all[before.len() as int] == extras[i]);
            }
        }
        assert forall|i: int, j: int| 0 <= i < all.len() && 0 <= j < all.len() && i != j implies all[i]
            != all[j] by {
            if !before.contains(extras[n - 1]) {
                if i == before.len() {
                    assert(before.contains(before[j]));
                } else if j == before.len() {
                    assert(before.contains(before[i]));
                }
            }
        }
    }
}

/// The hash of a query is taken of the tool, the session and the query itself.
pub proof fn law_queries_are_hashed_by_what_they_ask(
    tool_name: Seq<char>,
    session_id: Seq<char>,
    sql: Seq<char>,
)
    ensures
        query_signature(tool_name, session_id, sql).field("tool"@) == Some(Tree::Text(tool_name)),
        query_signature(tool_name, session_id, sql).field("session_id"@)
            == Some(Tree::Text(text::trim(session_id))),
        query_signature(tool_name, session_id, sql).field("sql"@)
            == Some(Tree::Text(sql_text::inner_sql(sql))),
{
    broadcast use json::group_found;

    reveal_strlit("tool");
    assert("tool"@.len() == 4);
    reveal_strlit("session_id");
    assert("session_id"@.len() == 10);
    reveal_strlit("sql");
    assert("sql"@.len() == 3);
}

/// A query begins with its first row, or where its cursor leads; an empty one is refused.
pub proof fn law_queries_begin_at_their_cursor(
    tool_name: Seq<char>,
    session_id: Seq<char>,
    sql: Seq<char>,
    controls: ScratchpadQueryControls,
)
    requires
        report_checks::tabular_controls_problem(
            controls.max_rows,
            controls.max_cell_chars,
            text::opt_text(controls.cursor),
        ) is None,
    ensures
        text::trim(sql).len() == 0 ==> (query_page(
            tool_name,
            session_id,
            sql,
            controls,
        ) matches Err(Problem::InvalidArgument(field, said)) && field == "sql"@),
        text::trim(sql).len() > 0 && controls.cursor is None ==> query_page(
            tool_name,
            session_id,
            sql,
            controls,
        ) == Ok::<Page, Problem>(
            Page {
                query_hash: cursors::query_hash(
                    query_signature(tool_name, session_id, text::trim(sql)),
                ),
                offset: 0,
                limit: cursors::page_size(controls.max_rows, None) as u64,
            },
        ),
        query_page(tool_name, session_id, sql, controls) matches Ok(page) ==> page.query_hash
            == cursors::query_hash(query_signature(tool_name, session_id, text::trim(sql))) && (
        controls.cursor matches Some(raw) ==> cursors::decoded(raw@) == Ok::<
            (Seq<char>, u64),
            Problem,
        >((page.query_hash, page.offset))),
{
    cursors::law_windows_are_bounded(controls.max_rows, None);
}

proof fn lemma_query_row(names: Seq<Seq<char>>, values: Seq<DuckValue>, n: nat, k: int)
    requires
        0 <= k < n <= values.len() <= names.len(),
        forall|a: int, b: int|
            0 <= a < b < names.len() ==> #[trigger] names[a] != #[trigger] names[b],
    ensures
        json::lookup(query_row(names, values, n), names[k]) == Some(values[k].tree()),
    decreases n,
{
    json::law_entered_values_are_found(
        query_row(names, values, (n - 1) as nat),
        names[n - 1],
        values[n - 1].tree(),
        names[k],
    );
    if k < n - 1 {
        assert(names[k] != names[n - 1]);
        lemma_query_row(names, values, (n - 1) as nat, k);
    }
}

/// A row of an answer tells each value under the name of its column, where the names differ.
pub proof fn law_rows_tell_values_by_column(
    names: Seq<Seq<char>>,
    values: Seq<DuckValue>,
    k: int,
)
    requires
        0 <= k < values.len() <= names.len(),
        forall|a: int, b: int|
            0 <= a < b < names.len() ==> #[trigger] names[a] != #[trigger] names[b],
    ensures
        json::lookup(query_row(names, values, values.len()), names[k]) == Some(values[k].tree()),
{
    lemma_query_row(names, values, values.len(), k);
}

/// The columns of an answer go by the names of the query, or by their numbers, and tell the
/// type of their values.
pub proof fn law_columns_of_queries(names: Seq<Seq<char>>, types: Seq<DuckType>, i: int)
    requires
        0 <= i < types.len(),
    ensures
        query_columns(names, types).len() == types.len(),
        i < names.len() ==> query_columns(names, types)[i].name == names[i],
        i >= names.len() ==> query_columns(names, types)[i].name == "column_"@ + text::decimal(
            (i + 1) as nat,
        ),
        query_columns(names, types)[i].logical_type == Some(duck_values::logical_type(types[i])),
{
}

/// A query that is run as it is shows the rows of its page, and counts all rows that came; it
/// says so where the page is not all of them.
pub proof fn law_whole_answers_are_paged(
    rows: Seq<Seq<(Seq<char>, Tree)>>,
    columns: Seq<Column>,
    offset: u64,
    page_size: u64,
    k: int,
)
    requires
        rows.len() <= usize::MAX,
    ensures
        in_memory(rows, columns, offset, page_size).row_count_total == rows.len(),
        in_memory(rows, columns, offset, page_size).columns == columns,
        0 <= k < in_memory(rows, columns, offset, page_size).rows.len() ==> in_memory(
            rows,
            columns,
            offset,
            page_size,
        ).rows[k] == rows[offset + k],
        offset + page_size <= rows.len() ==> in_memory(
            rows,
            columns,
            offset,
            page_size,
        ).rows.len() == page_size,
        offset <= rows.len() < offset + page_size ==> in_memory(
            rows,
            columns,
            offset,
            page_size,
        ).rows.len() == rows.len() - offset,
        in_memory(rows, columns, offset, page_size).query_hints.len() > 0 <==> offset > 0
            || rows.len() > page_size,
{
    assert(in_memory_hint().len() == 1);
}

/// There is a cursor to go on with exactly where rows are left behind the page, and it leads
/// there.
pub proof fn law_queries_go_on_behind_the_page(page: QueryPage, query_hash: Seq<char>, offset: u64)
    requires
        offset + page.rows.len() <= usize::MAX,
        offset + page.rows.len() <= u64::MAX,
    ensures
        offset + page.rows.len() >= page.row_count_total ==> next_query_cursor(
            page,
            query_hash,
            offset,
        ) is None,
        offset + page.rows.len() < page.row_count_total ==> next_query_cursor(
            page,
            query_hash,
            offset,
        ) == Some(
            "v1:"@ + query_hash + ":"@ + text::decimal((offset + page.rows.len()) as nat),
        ),
{
}

/// The answer to a query tells its rows, how many there are and were shown, how it was run, and
/// what it was about.
pub proof fn law_answers_of_queries(
    page: QueryPage,
    plan: PlannedQuery,
    session_id: Seq<char>,
    controls: ScratchpadQueryControls,
    source_meta: Option<Tree>,
    elapsed_ms: u64,
)
    requires
        page.rows.len() <= usize::MAX,
    ensures
        query_envelope(page, plan, session_id, controls, source_meta, elapsed_ms).field("ok"@)
            == Some(Tree::Bool(true)),
        query_envelope(page, plan, session_id, controls, source_meta, elapsed_ms).field("data"@)
            == Some(
            tabular::table_payload(
                page_table(page),
                controls.output_mode,
                controls.summary_only,
                controls.max_cell_chars,
            ),
        ),
        query_meta(page, plan, session_id, controls, source_meta).field("query_hash"@) == Some(
            Tree::Text(plan.query_hash@),
        ),
        query_meta(page, plan, session_id, controls, source_meta).field("row_count_total"@)
            == Some(Tree::Whole(page.row_count_total as int)),
        query_meta(page, plan, session_id, controls, source_meta).field("row_count_returned"@)
            == Some(Tree::Whole(page.rows.len() as int)),
        query_meta(page, plan, session_id, controls, source_meta).field("truncated"@) == Some(
            Tree::Bool(page.rows.len() < page.row_count_total),
        ),
        query_meta(page, plan, session_id, controls, source_meta).field("next_cursor"@) == Some(
            match next_query_cursor(page, plan.query_hash@, plan.offset) {
                Some(cursor) => Tree::Text(cursor),
                None => Tree::Null,
            },
        ),
        query_meta(page, plan, session_id, controls, source_meta).field("columns"@) == Some(
            contract::column_trees(page.columns),
        ),
        query_meta(page, plan, session_id, controls, source_meta).field("source"@) == source_meta,
        query_meta(page, plan, session_id, controls, source_meta).field("scratchpad"@) matches Some(
            run,
        ) && run.field("session_id"@) == Some(Tree::Text(text::trim(session_id))) && run.field(
            "pagination_mode"@,
        ) == Some(Tree::Text(page.pagination_mode)) && run.field("page_size"@) == Some(
            Tree::Whole(plan.page_size as int),
        ) && run.field("offset"@) == Some(Tree::Whole(plan.offset as int)) && run.field(
            "query_sql_bytes"@,
        ) == Some(Tree::Whole(text::byte_len(plan.sql@) as int)),
{
    broadcast use json::group_found;

    reveal_strlit("output_mode");
    assert("output_mode"@.len() == 11);
    reveal_strlit("summary_only");
    assert("summary_only"@.len() == 12);
    reveal_strlit("row_count_total");
    assert("row_count_total"@.len() == 15);
    reveal_strlit("row_count_returned");
    assert("row_count_returned"@.len() == 18);
    reveal_strlit("truncated");
    assert("truncated"@.len() == 9);
    reveal_strlit("next_cursor");
    assert("next_cursor"@.len() == 11);
    reveal_strlit("query_hash");
    assert("query_hash"@.len() == 10);
    reveal_strlit("columns");
    assert("columns"@.len() == 7);
    reveal_strlit("query_hints");
    assert("query_hints"@.len() == 11);
    reveal_strlit("cell_clipping");
    assert("cell_clipping"@.len() == 13);
    reveal_strlit("scratchpad");
    assert("scratchpad"@.len() == 10);
    reveal_strlit("source");
    assert("source"@.len() == 6);
    reveal_strlit("session_id");
    assert("session_id"@.len() == 10);
    reveal_strlit("pagination_mode");
    assert("pagination_mode"@.len() == 15);
    reveal_strlit("query_sql_bytes");
    assert("query_sql_bytes"@.len() == 15);
    reveal_strlit("page_size");
    assert("page_size"@.len() == 9);
    reveal_strlit("offset");
    assert("offset"@.len() == 6);
    reveal_strlit("ok");
    assert("ok"@.len() == 2);
    reveal_strlit("data");
    assert("data"@.len() == 4);
    reveal_strlit("meta");
    assert("meta"@.len() == 4);
    assert("output_mode"@[0] != "next_cursor"@[0]);
    assert("output_mode"@[0] != "query_hints"@[0]);
    assert("row_count_total"@[0] != "pagination_mode"@[0]);
    assert("row_count_total"@[0] != "query_sql_bytes"@[0]);
    assert("truncated"@[0] != "page_size"@[0]);
    assert("next_cursor"@[0] != "query_hints"@[0]);
    assert("query_hash"@[0] != "scratchpad"@[0]);
    assert("query_hash"@[0] != "session_id"@[0]);
    assert("scratchpad"@[1] != "session_id"@[1]);
    assert("source"@[0] != "offset"@[0]);
    assert("pagination_mode"@[0] != "query_sql_bytes"@[0]);
    assert("data"@[0] != "meta"@[0]);
    let meta = TableMeta {
        query_hash: Some(plan.query_hash@),
        next_cursor: next_query_cursor(page, plan.query_hash@, plan.offset),
        query_hints: answer_hints(page, controls),
        ..tabular::table_meta(
            page_table(page),
            controls.output_mode,
            controls.summary_only,
            controls.max_cell_chars,
        )
    };
    let run = run_tree(page, plan, session_id);
    let told = meta.entries();
    let entries = json::entered(told, "scratchpad"@, run);
    contract::law_tables_are_told_by_name(meta);
    assert forall|key: Seq<char>| #[trigger] json::lookup(entries, key) == (if key
        == "scratchpad"@ {
        Some(run)
    } else {
        json::lookup(told, key)
    }) by {
        json::law_entered_values_are_found(told, "scratchpad"@, run, key);
    }
    match source_meta {
        Some(extra) => {
            let all = json::entered(entries, "source"@, extra);
            assert forall|key: Seq<char>| #[trigger] json::lookup(all, key) == (if key
                == "source"@ {
                Some(extra)
            } else {
                json::lookup(entries, key)
            }) by {
                json::law_entered_values_are_found(entries, "source"@, extra, key);
            }
        },
        None => {
            assert(json::lookup(told, "source"@) is None);
            assert(json::lookup(entries, "source"@) is None);
        },
    }
}

/// Hints keep their order: the usual ones first, and behind them those that are not there yet.
pub proof fn law_usual_hints_come_first(
    defaults: Seq<Seq<char>>,
    extras: Seq<Seq<char>>,
    n: nat,
    k: int,
)
    requires
        n <= extras.len(),
    ensures
        merged(defaults, extras, n).len() >= defaults.len(),
        merged(defaults, extras, n).take(defaults.len() as int) == defaults,
        defaults.len() <= k < merged(defaults, extras, n).len() ==> exists|i: int|
            0 <= i < n && #[trigger] extras[i] == merged(defaults, extras, n)[k],
    decreases n,
{
    let all = merged(defaults, extras, n);
    if n > 0 {
        law_usual_hints_come_first(defaults, extras, (n - 1) as nat, k);
        let before = merged(defaults, extras, (n - 1) as nat);
        assert(all.take(defaults.len() as int) =~= before.take(defaults.len() as int));
        if defaults.len() <= k < all.len() {
            if k < before.len() {
                let i = choose|i: int| 0 <= i < n - 1 && #[trigger] extras[i] == before[k];
                assert(extras[i] == all[k]);
            } else {
                assert(extras[n - 1] == all[k]);
            }
        }
    } else {
        assert(all.take(defaults.len() as int) =~= defaults);
    }
}

/// Every column of a query is told by its own name, or by its place where it has none, and its
/// values may be missing.
pub proof fn law_query_columns_are_named_in_order(
    names: Seq<Seq<char>>,
    types: Seq<DuckType>,
    i: int,
)
    requires
        0 <= i < types.len(),
    ensures
        query_columns(names, types).len() == types.len(),
        query_columns(names, types)[i].nullable == Some(true),
        i < names.len() ==> query_columns(names, types)[i].name == names[i],
        i >= names.len() ==> query_columns(names, types)[i].name == "column_"@ + text::decimal(
            (i + 1) as nat,
        ),
{
}

} // verus!
