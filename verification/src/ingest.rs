//! How the rows of reports are gathered, page by page, and written to a scratchpad table.

use vstd::prelude::*;
use vstd::string::*;

use crate::contract;
use crate::contract::{Column, ColumnMeta};
use crate::dates;
use crate::error;
use crate::error::{AnalyticsError, Problem};
use crate::json;
use crate::json::{Json, Number, Object, Tree};
use crate::report_checks::MAX_TABULAR_MAX_ROWS;
use crate::sql_text;
use crate::tabular;
use crate::tabular::{GaTabularProjection, Table};
use crate::text;

verus! {

pub const MAX_SCRATCHPAD_INGEST_COLUMNS: usize = 256;

pub const MAX_SCRATCHPAD_INGEST_ROWS: usize = 100_000;

pub const DEFAULT_SCRATCHPAD_INGEST_PAGE_SIZE: u64 = 25_000;

pub const MAX_SCRATCHPAD_INGEST_PAGES: usize = 128;

/// Whether rows go into a new table or into one that is there.
#[derive(Debug, Clone, Copy, PartialEq, Eq, Structural)]
pub enum ScratchpadIngestMode {
    Create,
    Append,
}

impl ScratchpadIngestMode {
    /// The name of the mode.
    pub open spec fn name(self) -> Seq<char> {
        match self {
            ScratchpadIngestMode::Create => "create"@,
            ScratchpadIngestMode::Append => "append"@,
        }
    }
}

/// The name of an ingest mode.
pub fn ingest_mode_label(mode: ScratchpadIngestMode) -> (r: &'static str)
    ensures
        r@ == mode.name(),
{
    match mode {
        ScratchpadIngestMode::Create => "create",
        ScratchpadIngestMode::Append => "append",
    }
}

// ---------------------------------------------------------------------------
// Pages.
// ---------------------------------------------------------------------------

/// How many rows are fetched at a time.
pub open spec fn ingest_page_size(max_rows: Option<usize>, limit: Option<u64>) -> u64 {
    let rows: u64 = match max_rows {
        Some(n) => if n < 1 {
            1
        } else if n > MAX_TABULAR_MAX_ROWS {
            MAX_TABULAR_MAX_ROWS as u64
        } else {
            n as u64
        },
        None => DEFAULT_SCRATCHPAD_INGEST_PAGE_SIZE,
    };
    match limit {
        Some(n) => if n < 1 {
            1
        } else if n < rows {
            n
        } else {
            rows
        },
        None => rows,
    }
}

/// How many rows are fetched at a time.
pub fn resolve_ingest_page_size(max_rows: Option<usize>, requested_limit: Option<u64>) -> (r: u64)
    ensures
        r == ingest_page_size(max_rows, requested_limit),
{
    let rows: u64 = match max_rows {
        Some(n) => if n < 1 {
            1
        } else if n > MAX_TABULAR_MAX_ROWS {
            MAX_TABULAR_MAX_ROWS as u64
        } else {
            n as u64
        },
        None => DEFAULT_SCRATCHPAD_INGEST_PAGE_SIZE,
    };
    match requested_limit {
        Some(n) => if n < 1 {
            1
        } else if n < rows {
            n
        } else {
            rows
        },
        None => rows,
    }
}

/// The account of how rows were gathered.
#[derive(Debug, Clone, Copy)]
pub struct IngestPaginationStats {
    pub pages_fetched: usize,
    pub page_size: u64,
    pub initial_offset: u64,
    pub final_offset: u64,
    pub requested_limit: Option<u64>,
    pub complete: bool,
}

/// The entries of the account of how rows were gathered.
pub open spec fn pagination_entries(
    entries: Seq<(Seq<char>, Tree)>,
    stats: IngestPaginationStats,
) -> Seq<(Seq<char>, Tree)> {
    entries
        .push(("pages_fetched"@, Tree::Whole(stats.pages_fetched as int)))
        .push(("page_size"@, Tree::Whole(stats.page_size as int)))
        .push(("initial_offset"@, Tree::Whole(stats.initial_offset as int)))
        .push(("final_offset"@, Tree::Whole(stats.final_offset as int)))
        .push(("requested_limit"@, json::opt_whole(stats.requested_limit)))
        .push(("complete"@, Tree::Bool(stats.complete)))
}

fn put_pagination(object: &mut Object, stats: &IngestPaginationStats)
    ensures
        final(object)@ == pagination_entries(old(object)@, *stats),
{
    object.put("pages_fetched", json::size(stats.pages_fetched));
    object.put("page_size", json::whole(stats.page_size));
    object.put("initial_offset", json::whole(stats.initial_offset));
    object.put("final_offset", json::whole(stats.final_offset));
    object.put("requested_limit", json::whole_or_null(stats.requested_limit));
    object.put("complete", json::boolean(stats.complete));
}

/// A gathering of the rows of a report: what came so far, and how it goes on.
#[derive(Debug)]
pub struct IngestCollector {
    pub page_size: u64,
    pub requested_limit: Option<u64>,
    pub initial_offset: u64,
    pub next_offset: u64,
    pub remaining: Option<u64>,
    pub pages_fetched: usize,
    pub rows: Vec<Object>,
    pub columns: Vec<ColumnMeta>,
    pub ga_meta: Option<Json>,
    pub row_count_total: usize,
    pub finished: bool,
    /// What the caller can narrow where there is too much.
    pub advice: String,
}

/// What a gathering says.
#[verifier::ext_equal]
pub struct Gathering {
    pub page_size: u64,
    pub requested_limit: Option<u64>,
    pub initial_offset: u64,
    pub next_offset: u64,
    pub remaining: Option<u64>,
    pub pages_fetched: usize,
    pub rows: Seq<Seq<(Seq<char>, Tree)>>,
    pub columns: Seq<Column>,
    pub ga_meta: Option<Tree>,
    pub row_count_total: usize,
    pub finished: bool,
    pub advice: Seq<char>,
}

impl View for IngestCollector {
    type V = Gathering;

    open spec fn view(&self) -> Gathering {
        Gathering {
            page_size: self.page_size,
            requested_limit: self.requested_limit,
            initial_offset: self.initial_offset,
            next_offset: self.next_offset,
            remaining: self.remaining,
            pages_fetched: self.pages_fetched,
            rows: json::objects_view(self.rows@),
            columns: contract::columns_view(self.columns@),
            ga_meta: json::opt_view(self.ga_meta),
            row_count_total: self.row_count_total,
            finished: self.finished,
            advice: self.advice@,
        }
    }
}

/// What the next page of a gathering asks for.
#[derive(Debug, Clone, Copy, PartialEq, Eq, Structural)]
pub enum NextPage {
    /// Nothing more is to be fetched.
    Done,
    /// A page of at most `limit` rows from `offset` on.
    Fetch { limit: u64, offset: u64 },
}

impl Gathering {
    /// The limits of every gathering.
    pub open spec fn well_formed(self) -> bool {
        &&& 1 <= self.page_size <= MAX_TABULAR_MAX_ROWS
        &&& self.pages_fetched <= MAX_SCRATCHPAD_INGEST_PAGES
        &&& self.rows.len() <= MAX_SCRATCHPAD_INGEST_ROWS
        &&& self.initial_offset <= self.next_offset
    }

    /// A gathering that begins.
    pub open spec fn start(
        max_rows: Option<usize>,
        limit: Option<u64>,
        offset: Option<u64>,
        advice: Seq<char>,
    ) -> Self {
        let from: u64 = match offset {
            Some(n) => n,
            None => 0,
        };
        Gathering {
            page_size: ingest_page_size(max_rows, limit),
            requested_limit: limit,
            initial_offset: from,
            next_offset: from,
            remaining: limit,
            pages_fetched: 0,
            rows: Seq::<Seq<(Seq<char>, Tree)>>::empty(),
            columns: Seq::<Column>::empty(),
            ga_meta: None,
            row_count_total: 0,
            finished: false,
            advice,
        }
    }

    /// How many rows the next page may have.
    pub open spec fn next_limit(self) -> u64 {
        match self.remaining {
            Some(left) => if left < self.page_size {
                left
            } else {
                self.page_size
            },
            None => self.page_size,
        }
    }

    /// What the next page asks for, or why there can be none.
    pub open spec fn next_page(self) -> Result<NextPage, Problem> {
        if self.finished {
            Ok(NextPage::Done)
        } else if self.pages_fetched >= MAX_SCRATCHPAD_INGEST_PAGES {
            Err(
                Problem::ScratchpadLimitExceeded(
                    "limit"@,
                    "ingest requires more than "@ + text::decimal(
                        MAX_SCRATCHPAD_INGEST_PAGES as nat,
                    ) + " API pages; narrow "@ + self.advice + " or set a lower limit"@,
                ),
            )
        } else if self.next_limit() == 0 {
            Ok(NextPage::Done)
        } else {
            Ok(NextPage::Fetch { limit: self.next_limit(), offset: self.next_offset })
        }
    }

    /// Whether the rows of a page are too many.
    pub open spec fn overflows(self, page: Table) -> bool {
        self.rows.len() + page.rows.len() > MAX_SCRATCHPAD_INGEST_ROWS
    }

    /// The gathering after a page.
    pub open spec fn after(self, page: Table) -> Self {
        let returned = page.rows.len();
        let total: usize = if page.row_count_total > self.row_count_total {
            page.row_count_total
        } else {
            self.row_count_total
        };
        let next_offset = tabular::advanced(self.next_offset, returned as int);
        let remaining: Option<u64> = match self.remaining {
            Some(left) => Some(
                if returned >= left {
                    0u64
                } else {
                    (left - returned) as u64
                },
            ),
            None => None,
        };
        Gathering {
            next_offset,
            remaining,
            pages_fetched: (self.pages_fetched + 1) as usize,
            rows: self.rows + page.rows,
            columns: if self.ga_meta is None {
                page.columns
            } else {
                self.columns
            },
            ga_meta: match self.ga_meta {
                Some(meta) => Some(meta),
                None => Some(page.ga_meta),
            },
            row_count_total: total,
            finished: returned == 0 || (next_offset as usize) >= total || returned
                < self.next_limit() || remaining == Some(0u64),
            ..self
        }
    }

    /// How many rows there are in all.
    pub open spec fn total(self) -> usize {
        if self.rows.len() > self.row_count_total {
            self.rows.len() as usize
        } else {
            self.row_count_total
        }
    }

    /// The account of the gathering.
    pub open spec fn stats(self) -> IngestPaginationStats {
        IngestPaginationStats {
            pages_fetched: self.pages_fetched,
            page_size: self.page_size,
            initial_offset: self.initial_offset,
            final_offset: self.next_offset,
            requested_limit: self.requested_limit,
            complete: self.remaining == Some(0u64) || (self.next_offset as usize) >= self.total(),
        }
    }

    /// The metadata of the table that was gathered.
    pub open spec fn final_meta(self) -> Tree {
        let meta = match self.ga_meta {
            Some(meta) => meta,
            None => Tree::Dict(json::fields()),
        };
        match meta {
            Tree::Dict(entries) => Tree::Dict(
                json::entered(
                    entries,
                    "ingest_pagination"@,
                    Tree::Dict(pagination_entries(json::fields(), self.stats())),
                ),
            ),
            _ => meta,
        }
    }

    /// The table that was gathered.
    pub open spec fn table(self) -> Table {
        Table {
            rows: self.rows,
            row_count_total: self.total(),
            columns: self.columns,
            ga_meta: self.final_meta(),
        }
    }
}

/// What the next page asks for, or the error in its place, says.
pub open spec fn next_page_result(r: Result<NextPage, AnalyticsError>) -> Result<
    NextPage,
    Problem,
> {
    match r {
        Ok(page) => Ok(page),
        Err(err) => Err(err@),
    }
}

impl IngestCollector {
    /// A gathering that begins.
    pub fn new(
        max_rows: Option<usize>,
        limit: Option<u64>,
        offset: Option<u64>,
        advice: &str,
    ) -> (r: Self)
        ensures
            r@ == Gathering::start(max_rows, limit, offset, advice@),
            r@.well_formed(),
    {
        let from: u64 = match offset {
            Some(n) => n,
            None => 0,
        };
        let r = IngestCollector {
            page_size: resolve_ingest_page_size(max_rows, limit),
            requested_limit: limit,
            initial_offset: from,
            next_offset: from,
            remaining: limit,
            pages_fetched: 0,
            rows: Vec::new(),
            columns: Vec::new(),
            ga_meta: None,
            row_count_total: 0,
            finished: false,
            advice: advice.to_owned(),
        };
        assert(r@ =~= Gathering::start(max_rows, limit, offset, advice@));
        r
    }

    /// How many rows the next page may have.
    fn limit_of_next(&self) -> (r: u64)
        ensures
            r == self@.next_limit(),
    {
        match self.remaining {
            Some(left) => if left < self.page_size {
                left
            } else {
                self.page_size
            },
            None => self.page_size,
        }
    }

    /// What the next page asks for.
    pub fn next_page(&self) -> (r: Result<NextPage, AnalyticsError>)
        ensures
            next_page_result(r) == self@.next_page(),
    {
        if self.finished {
            return Ok(NextPage::Done);
        }
        if self.pages_fetched >= MAX_SCRATCHPAD_INGEST_PAGES {
            let mut message: String = error::numbered(
                "ingest requires more than ",
                MAX_SCRATCHPAD_INGEST_PAGES as u64,
                " API pages; narrow ",
            );
            message.append(self.advice.as_str());
            message.append(" or set a lower limit");
            return Err(AnalyticsError::scratchpad_limit("limit", message.as_str()));
        }
        let limit: u64 = self.limit_of_next();
        if limit == 0 {
            return Ok(NextPage::Done);
        }
        Ok(NextPage::Fetch { limit, offset: self.next_offset })
    }

    /// Takes a page. A page with too many rows is refused and changes nothing.
    pub fn absorb(&mut self, data: &Json, report_kind: &str) -> (r: Result<(), AnalyticsError>)
        requires
            old(self)@.well_formed(),
            old(self)@.next_page() matches Ok(NextPage::Fetch { .. }),
        ensures
            ({
                let page = tabular::answer_table(data@, report_kind@);
                if old(self)@.overflows(page) {
                    r matches Err(err) && err@ == Problem::ScratchpadLimitExceeded(
                        "rows"@,
                        "ingest would exceed "@ + text::decimal(
                            MAX_SCRATCHPAD_INGEST_ROWS as nat,
                        ) + " rows; narrow "@ + old(self)@.advice + " or set a lower limit"@,
                    ) && *final(self) == *old(self)
                } else {
                    r is Ok && final(self)@ == old(self)@.after(page)
                }
            }),
            final(self)@.well_formed(),
    {
        let page: GaTabularProjection = tabular::project_ga_tabular_response(data, report_kind);
        let ghost before = self@;
        let ghost shown = page@;
        let returned: usize = page.rows.len();
        if returned > MAX_SCRATCHPAD_INGEST_ROWS || self.rows.len() + returned
            > MAX_SCRATCHPAD_INGEST_ROWS {
            let mut message: String = error::numbered(
                "ingest would exceed ",
                MAX_SCRATCHPAD_INGEST_ROWS as u64,
                " rows; narrow ",
            );
            message.append(self.advice.as_str());
            message.append(" or set a lower limit");
            return Err(AnalyticsError::scratchpad_limit("rows", message.as_str()));
        }
        let request_limit: u64 = self.limit_of_next();
        self.pages_fetched = self.pages_fetched + 1;
        if self.ga_meta.is_none() {
            self.columns = page.columns;
            self.ga_meta = Some(page.ga_meta);
        }
        if page.row_count_total > self.row_count_total {
            self.row_count_total = page.row_count_total;
        }
        let mut page_rows: Vec<Object> = page.rows;
        let ghost held = self.rows@;
        let ghost more = page_rows@;
        self.rows.append(&mut page_rows);
        assert(json::objects_view(self.rows@) =~= json::objects_view(held) + json::objects_view(
            more,
        ));
        self.next_offset = tabular::advance(self.next_offset, returned);
        self.remaining = match self.remaining {
            Some(left) => Some(
                if returned as u64 >= left {
                    0
                } else {
                    left - returned as u64
                },
            ),
            None => None,
        };
        let exhausted: bool = match self.remaining {
            Some(left) => left == 0,
            None => false,
        };
        self.finished = returned == 0 || self.next_offset as usize >= self.row_count_total
            || (returned as u64) < request_limit || exhausted;
        assert(self@ =~= before.after(shown));
        Ok(())
    }

    /// The table that was gathered, and the account of the gathering.
    pub fn finish(self) -> (r: (GaTabularProjection, IngestPaginationStats))
        ensures
            r.0@ == self@.table(),
            r.1 == self@.stats(),
    {
        let ghost before = self@;
        let count: usize = self.rows.len();
        let row_count_total: usize = if count > self.row_count_total {
            count
        } else {
            self.row_count_total
        };
        let exhausted: bool = match self.remaining {
            Some(left) => left == 0,
            None => false,
        };
        let stats = IngestPaginationStats {
            pages_fetched: self.pages_fetched,
            page_size: self.page_size,
            initial_offset: self.initial_offset,
            final_offset: self.next_offset,
            requested_limit: self.requested_limit,
            complete: exhausted || self.next_offset as usize >= row_count_total,
        };
        let held: Json = match self.ga_meta {
            Some(meta) => meta,
            None => json::dict(Object::new()),
        };
        let ga_meta: Json = match held {
            Json::Object(object) => {
                proof {
                    json::lemma_object_tree(object);
                }
                let mut map: Object = object;
                let mut account = Object::new();
                put_pagination(&mut account, &stats);
                map.insert("ingest_pagination", json::dict(account));
                json::dict(map)
            },
            other => other,
        };
        let table = GaTabularProjection {
            rows: self.rows,
            row_count_total,
            columns: self.columns,
            ga_meta,
        };
        assert(table@ =~= before.table());
        (table, stats)
    }
}

// ---------------------------------------------------------------------------
// Columns.
// ---------------------------------------------------------------------------

/// What is done to the values of a column.
#[derive(Debug, Clone, Copy, PartialEq, Eq, Structural)]
pub enum IngestValueTransform {
    Identity,
    ParseGaDate,
    ParseGaDateHour,
}

impl IngestValueTransform {
    /// The name of the transform.
    pub open spec fn name(self) -> Seq<char> {
        match self {
            IngestValueTransform::Identity => "identity"@,
            IngestValueTransform::ParseGaDate => "parse_ga_date"@,
            IngestValueTransform::ParseGaDateHour => "parse_ga_date_hour"@,
        }
    }
}

/// The name of a transform.
pub fn ingest_transform_label(transform: IngestValueTransform) -> (r: &'static str)
    ensures
        r@ == transform.name(),
{
    match transform {
        IngestValueTransform::Identity => "identity",
        IngestValueTransform::ParseGaDate => "parse_ga_date",
        IngestValueTransform::ParseGaDateHour => "parse_ga_date_hour",
    }
}

/// Which column of a report a column of a table comes from, and how.
#[derive(Debug)]
pub struct IngestColumnMapping {
    pub source_name: String,
    pub target_name: String,
    pub logical_type: String,
    pub transform: IngestValueTransform,
}

/// What a mapping says.
#[verifier::ext_equal]
pub struct Mapping {
    pub source_name: Seq<char>,
    pub target_name: Seq<char>,
    pub logical_type: Seq<char>,
    pub transform: IngestValueTransform,
}

impl View for IngestColumnMapping {
    type V = Mapping;

    open spec fn view(&self) -> Mapping {
        Mapping {
            source_name: self.source_name@,
            target_name: self.target_name@,
            logical_type: self.logical_type@,
            transform: self.transform,
        }
    }
}

/// What a list of mappings says.
pub open spec fn mappings_view(mappings: Seq<IngestColumnMapping>) -> Seq<Mapping> {
    Seq::new(mappings.len(), |i: int| mappings[i]@)
}

/// The letters and digits of a text, in lower case.
pub open spec fn bare(name: Seq<char>) -> Seq<char>
    decreases name.len(),
{
    if name.len() == 0 {
        name
    } else if text::is_alnum(name.last()) {
        bare(name.drop_last()).push(text::lower(name.last()))
    } else {
        bare(name.drop_last())
    }
}

/// How the values of a column that holds dates are read: the logical type of the column
/// that is added, and its transform.
pub open spec fn temporal(source_name: Seq<char>) -> Option<(Seq<char>, IngestValueTransform)> {
    if bare(source_name) == "date"@ {
        Some(("date"@, IngestValueTransform::ParseGaDate))
    } else if bare(source_name) == "datehour"@ {
        Some(("timestamp"@, IngestValueTransform::ParseGaDateHour))
    } else {
        None
    }
}

/// How the values of a column that holds dates are read.
pub fn temporal_mapping_for_source_name(source_name: &str) -> (r: Option<
    (&'static str, &'static str, IngestValueTransform),
>)
    ensures
        match r {
            Some(found) => found.0@ == "parsed"@ && temporal(source_name@) == Some(
                (found.1@, found.2),
            ),
            None => temporal(source_name@) is None,
        },
{
    let chars: Vec<char> = text::chars_of(source_name);
    let mut kept: Vec<char> = Vec::new();
    assert(chars@.take(0) =~= Seq::<char>::empty());
    for i in 0..chars.len()
        invariant
            kept@ == bare(chars@.take(i as int)),
    {
        assert(chars@.take(i + 1).drop_last() =~= chars@.take(i as int));
        if text::alnum_char(chars[i]) {
            kept.push(text::lower_char(chars[i]));
        }
    }
    assert(chars@.take(chars@.len() as int) =~= chars@);
    let normalized: String = text::text_of(kept.as_slice());
    if text::same_text(normalized.as_str(), "date") {
        Some(("parsed", "date", IngestValueTransform::ParseGaDate))
    } else if text::same_text(normalized.as_str(), "datehour") {
        Some(("parsed", "timestamp", IngestValueTransform::ParseGaDateHour))
    } else {
        None
    }
}

/// The identifier for the column at a position.
pub open spec fn column_base(column: Column, idx: int) -> Seq<char> {
    sql_text::identifier_of(column.name, "col_"@ + text::decimal((idx + 1) as nat))
}

/// The identifiers for the first `n` columns and for those that are added to them, before
/// names that occur more than once are told apart.
pub open spec fn bases(columns: Seq<Column>, n: nat) -> Seq<Seq<char>>
    decreases n,
{
    if n == 0 {
        Seq::<Seq<char>>::empty()
    } else {
        let base = column_base(columns[n - 1], n - 1);
        let with_base = bases(columns, (n - 1) as nat).push(base);
        match temporal(columns[n - 1].name) {
            Some(_) => with_base.push(base + "_"@ + "parsed"@),
            None => with_base,
        }
    }
}

/// The mapping of a column.
pub open spec fn plain_mapping(columns: Seq<Column>, idx: int) -> Mapping {
    Mapping {
        source_name: columns[idx].name,
        target_name: sql_text::distinct_name(
            bases(columns, idx as nat),
            column_base(columns[idx], idx),
        ),
        logical_type: match columns[idx].logical_type {
            Some(logical_type) => logical_type,
            None => "string"@,
        },
        transform: IngestValueTransform::Identity,
    }
}

/// The mapping that is added to that of a column of dates.
pub open spec fn parsed_mapping(
    columns: Seq<Column>,
    idx: int,
    logical_type: Seq<char>,
    transform: IngestValueTransform,
) -> Mapping {
    let base = column_base(columns[idx], idx);
    Mapping {
        source_name: columns[idx].name,
        target_name: sql_text::distinct_name(
            bases(columns, idx as nat).push(base),
            base + "_"@ + "parsed"@,
        ),
        logical_type,
        transform,
    }
}

/// The mappings of the first `n` columns.
pub open spec fn mappings(columns: Seq<Column>, n: nat) -> Seq<Mapping>
    decreases n,
{
    if n == 0 {
        Seq::<Mapping>::empty()
    } else {
        let with_plain = mappings(columns, (n - 1) as nat).push(plain_mapping(columns, n - 1));
        match temporal(columns[n - 1].name) {
            Some((logical_type, transform)) => with_plain.push(
                parsed_mapping(columns, n - 1, logical_type, transform),
            ),
            None => with_plain,
        }
    }
}

/// The mappings of the columns of a table.
pub fn build_ingest_column_mappings(columns: &[ColumnMeta]) -> (r: Vec<IngestColumnMapping>)
    ensures
        mappings_view(r@) == mappings(contract::columns_view(columns@), columns@.len()),
{
    let ghost shown = contract::columns_view(columns@);
    let mut taken: Vec<String> = Vec::new();
    let mut r: Vec<IngestColumnMapping> = Vec::new();
    assert(text::texts(taken@) =~= Seq::<Seq<char>>::empty());
    assert(mappings_view(r@) =~= Seq::<Mapping>::empty());
    let n: usize = columns.len();
    for i in 0..n
        invariant
            n == columns@.len(),
            shown == contract::columns_view(columns@),
            text::texts(taken@) == bases(shown, i as nat),
            mappings_view(r@) == mappings(shown, i as nat),
    {
        let column: &ColumnMeta = &columns[i];
        assert(shown[i as int] == column@);
        let fallback: String = error::labelled("col_", text::decimal_text(i as u64 + 1).as_str());
        let base: String = sql_text::normalize_sql_identifier(
            column.name.as_str(),
            fallback.as_str(),
        );
        let logical_type: String = match &column.logical_type {
            Some(logical_type) => logical_type.clone(),
            None => "string".to_owned(),
        };
        let target: String = sql_text::next_mapping_target(&mut taken, base.as_str());
        let ghost before = r@;
        r.push(
            IngestColumnMapping {
                source_name: column.name.clone(),
                target_name: target,
                logical_type,
                transform: IngestValueTransform::Identity,
            },
        );
        assert(mappings_view(r@) =~= mappings_view(before).push(plain_mapping(shown, i as int)));
        match temporal_mapping_for_source_name(column.name.as_str()) {
            Some((suffix, derived_type, derived_transform)) => {
                let mut derived_base: String = error::labelled(base.as_str(), "_");
                derived_base.append(suffix);
                let derived_target: String = sql_text::next_mapping_target(
                    &mut taken,
                    derived_base.as_str(),
                );
                let ghost with_plain = r@;
                r.push(
                    IngestColumnMapping {
                        source_name: column.name.clone(),
                        target_name: derived_target,
                        logical_type: derived_type.to_owned(),
                        transform: derived_transform,
                    },
                );
                assert(mappings_view(r@) =~= mappings_view(with_plain).push(
                    parsed_mapping(shown, i as int, derived_type@, derived_transform),
                ));
            },
            None => {},
        }
    }
    r
}

// ---------------------------------------------------------------------------
// Values.
// ---------------------------------------------------------------------------

/// A text or a number as text; none where it is blank or something else.
pub open spec fn shown_text(value: Tree) -> Option<Seq<char>> {
    match value {
        Tree::Text(raw) => if text::is_blank(raw) {
            None
        } else {
            Some(text::trim(raw))
        },
        Tree::Whole(n) => Some(number_text(n)),
        Tree::Real(shown) => if shown.len() == 0 {
            None
        } else {
            Some(shown)
        },
        _ => None,
    }
}

/// The decimal numeral of a number, with its sign.
pub open spec fn number_text(n: int) -> Seq<char> {
    if n < 0 {
        "-"@ + text::decimal((-n) as nat)
    } else {
        text::decimal(n as nat)
    }
}

/// The decimal numeral of a number, with its sign.
pub fn signed_text(n: i64) -> (r: String)
    ensures
        r@ == number_text(n as int),
{
    if n < 0 {
        let size: u64 = (-(n + 1)) as u64 + 1;
        error::labelled("-", text::decimal_text(size).as_str())
    } else {
        text::decimal_text(n as u64)
    }
}

/// A text or a number as text.
pub fn value_as_trimmed_string(value: &Json) -> (r: Option<String>)
    ensures
        text::opt_text(r) == shown_text(value@),
{
    match value {
        Json::Text(raw) => {
            let trimmed: String = text::trimmed(raw.as_str());
            if trimmed.as_str().is_empty() {
                None
            } else {
                Some(trimmed)
            }
        },
        Json::Number(Number::Unsigned(n)) => Some(text::decimal_text(*n)),
        Json::Number(Number::Negative(n)) => Some(signed_text(*n)),
        Json::Number(Number::Real(shown)) => {
            if shown.as_str().is_empty() {
                None
            } else {
                Some(shown.clone())
            }
        },
        _ => None,
    }
}

/// A value of a report as it is written to a table.
pub open spec fn remapped_value(value: Option<Tree>, transform: IngestValueTransform) -> Tree {
    match transform {
        IngestValueTransform::Identity => json::opt_tree(value),
        IngestValueTransform::ParseGaDate => json::opt_text(
            match value {
                Some(held) => match shown_text(held) {
                    Some(raw) => dates::ga_date(raw),
                    None => None,
                },
                None => None,
            },
        ),
        IngestValueTransform::ParseGaDateHour => json::opt_text(
            match value {
                Some(held) => match shown_text(held) {
                    Some(raw) => dates::ga_date_hour(raw),
                    None => None,
                },
                None => None,
            },
        ),
    }
}

/// A value of a report as it is written to a table.
pub fn remap_value_for_ingest_mapping(
    value: Option<&Json>,
    transform: IngestValueTransform,
) -> (r: Json)
    ensures
        r@ == remapped_value(
            match value {
                Some(held) => Some(held@),
                None => None,
            },
            transform,
        ),
{
    let held: &Json = match value {
        Some(held) => held,
        None => {
            return Json::Null;
        },
    };
    match transform {
        IngestValueTransform::Identity => held.clone(),
        IngestValueTransform::ParseGaDate => match value_as_trimmed_string(held) {
            Some(raw) => json::string_or_null(&dates::normalize_ga_date_literal(raw.as_str())),
            None => Json::Null,
        },
        IngestValueTransform::ParseGaDateHour => match value_as_trimmed_string(held) {
            Some(raw) => json::string_or_null(
                &dates::normalize_ga_date_hour_literal(raw.as_str()),
            ),
            None => Json::Null,
        },
    }
}

/// The values of a row under the names of the first `n` mappings.
pub open spec fn remapped_row(
    row: Seq<(Seq<char>, Tree)>,
    mappings: Seq<Mapping>,
    n: nat,
) -> Seq<(Seq<char>, Tree)>
    decreases n,
{
    if n == 0 {
        json::fields()
    } else {
        json::entered(
            remapped_row(row, mappings, (n - 1) as nat),
            mappings[n - 1].target_name,
            remapped_value(
                json::lookup(row, mappings[n - 1].source_name),
                mappings[n - 1].transform,
            ),
        )
    }
}

/// Rows under the names of mappings.
pub open spec fn remapped_rows(
    rows: Seq<Seq<(Seq<char>, Tree)>>,
    mappings: Seq<Mapping>,
) -> Seq<Seq<(Seq<char>, Tree)>> {
    Seq::new(rows.len(), |i: int| remapped_row(rows[i], mappings, mappings.len()))
}

fn remap_row(row: &Object, mappings: &[IngestColumnMapping]) -> (r: Object)
    ensures
        r@ == remapped_row(row@, mappings_view(mappings@), mappings@.len()),
{
    let mut output = Object::new();
    for i in 0..mappings.len()
        invariant
            output@ == remapped_row(row@, mappings_view(mappings@), i as nat),
    {
        let mapping: &IngestColumnMapping = &mappings[i];
        assert(mappings_view(mappings@)[i as int] == mapping@);
        let value: Json = remap_value_for_ingest_mapping(
            row.get(mapping.source_name.as_str()),
            mapping.transform,
        );
        output.insert(mapping.target_name.as_str(), value);
    }
    output
}

/// Rows under the names of mappings.
pub fn remap_rows_for_ingest(rows: &[Object], mappings: &[IngestColumnMapping]) -> (r: Vec<Object>)
    ensures
        json::objects_view(r@) == remapped_rows(
            json::objects_view(rows@),
            mappings_view(mappings@),
        ),
{
    let ghost shown = mappings_view(mappings@);
    let mut r: Vec<Object> = Vec::new();
    for i in 0..rows.len()
        invariant
            shown == mappings_view(mappings@),
            r@.len() == i,
            forall|j: int|
                0 <= j < i ==> (#[trigger] r@[j])@ == remapped_row(rows@[j]@, shown, shown.len()),
    {
        r.push(remap_row(&rows[i], mappings));
    }
    assert(json::objects_view(r@) =~= remapped_rows(json::objects_view(rows@), shown));
    r
}

// ---------------------------------------------------------------------------
// Writing a table.
// ---------------------------------------------------------------------------

/// A column of a table that is written.
#[derive(Debug)]
pub struct ScratchpadIngestColumn {
    pub name: String,
    pub logical_type: String,
}

/// What is written to a table.
#[derive(Debug)]
pub struct IngestPlan {
    pub mappings: Vec<IngestColumnMapping>,
    pub columns: Vec<ScratchpadIngestColumn>,
    pub rows: Vec<Object>,
}

/// What was written to a table, and what is left of the session.
#[derive(Debug, Clone, Copy)]
pub struct IngestStats {
    pub rows_inserted: usize,
    pub columns_inserted: usize,
    pub tables_used: usize,
    pub tables_remaining: usize,
    pub rows_used: usize,
    pub rows_remaining: usize,
}

/// What is wrong with a table that is to be written.
pub open spec fn plan_problem(table: Table) -> Option<Problem> {
    let n = mappings(table.columns, table.columns.len()).len();
    if n == 0 {
        Some(
            Problem::InvalidArgument(
                "columns"@,
                "ingest projection must include at least one column"@,
            ),
        )
    } else if n > MAX_SCRATCHPAD_INGEST_COLUMNS {
        Some(
            Problem::InvalidArgument(
                "columns"@,
                "must include <= "@ + text::decimal(MAX_SCRATCHPAD_INGEST_COLUMNS as nat)
                    + " columns"@,
            ),
        )
    } else if table.rows.len() > MAX_SCRATCHPAD_INGEST_ROWS {
        Some(
            Problem::InvalidArgument(
                "rows"@,
                "must include <= "@ + text::decimal(MAX_SCRATCHPAD_INGEST_ROWS as nat)
                    + " rows per ingest call"@,
            ),
        )
    } else {
        None
    }
}

/// Whether a plan writes a table.
pub open spec fn plans(plan: IngestPlan, table: Table) -> bool {
    let shown = mappings(table.columns, table.columns.len());
    &&& mappings_view(plan.mappings@) == shown
    &&& json::objects_view(plan.rows@) == remapped_rows(table.rows, shown)
    &&& plan.columns@.len() == shown.len()
    &&& forall|i: int|
        0 <= i < shown.len() ==> (#[trigger] plan.columns@[i]).name@ == shown[i].target_name
            && plan.columns@[i].logical_type@ == shown[i].logical_type
}

/// What is written to a table.
pub fn plan_ingest(projection: &GaTabularProjection) -> (r: Result<IngestPlan, AnalyticsError>)
    ensures
        match r {
            Ok(plan) => plan_problem(projection@) is None && plans(plan, projection@),
            Err(err) => plan_problem(projection@) == Some(err@),
        },
{
    let found: Vec<IngestColumnMapping> = build_ingest_column_mappings(
        projection.columns.as_slice(),
    );
    assert(mappings_view(found@).len() == found@.len());
    if found.len() == 0 {
        return Err(
            AnalyticsError::invalid(
                "columns",
                "ingest projection must include at least one column",
            ),
        );
    }
    if found.len() > MAX_SCRATCHPAD_INGEST_COLUMNS {
        return Err(
            AnalyticsError::invalid(
                "columns",
                error::numbered(
                    "must include <= ",
                    MAX_SCRATCHPAD_INGEST_COLUMNS as u64,
                    " columns",
                ).as_str(),
            ),
        );
    }
    if projection.rows.len() > MAX_SCRATCHPAD_INGEST_ROWS {
        return Err(
            AnalyticsError::invalid(
                "rows",
                error::numbered(
                    "must include <= ",
                    MAX_SCRATCHPAD_INGEST_ROWS as u64,
                    " rows per ingest call",
                ).as_str(),
            ),
        );
    }
    let rows: Vec<Object> = remap_rows_for_ingest(projection.rows.as_slice(), found.as_slice());
    let mut columns: Vec<ScratchpadIngestColumn> = Vec::new();
    for i in 0..found.len()
        invariant
            columns@.len() == i,
            forall|j: int|
                0 <= j < i ==> (#[trigger] columns@[j]).name@ == found@[j].target_name@
                    && columns@[j].logical_type@ == found@[j].logical_type@,
    {
        columns.push(
            ScratchpadIngestColumn {
                name: found[i].target_name.clone(),
                logical_type: found[i].logical_type.clone(),
            },
        );
    }
    Ok(IngestPlan { mappings: found, columns, rows })
}

/// A mapping in the answer to a request that wrote a table.
pub open spec fn mapping_tree(mapping: Mapping) -> Tree {
    Tree::Dict(
        json::fields()
            .push(("source_name"@, Tree::Text(mapping.source_name)))
            .push(("target_name"@, Tree::Text(mapping.target_name)))
            .push(("logical_type"@, Tree::Text(mapping.logical_type))),
    )
}

/// A mapping in the preview of a request.
pub open spec fn mapping_preview_tree(mapping: Mapping) -> Tree {
    Tree::Dict(
        json::fields()
            .push(("source_name"@, Tree::Text(mapping.source_name)))
            .push(("target_name"@, Tree::Text(mapping.target_name)))
            .push(("logical_type"@, Tree::Text(mapping.logical_type)))
            .push(("transform"@, Tree::Text(mapping.transform.name()))),
    )
}

/// Mappings in the answer to a request that wrote a table.
pub open spec fn mapping_trees(mappings: Seq<Mapping>) -> Tree {
    Tree::List(Seq::new(mappings.len(), |i: int| mapping_tree(mappings[i])))
}

/// Mappings in the preview of a request.
pub open spec fn mapping_preview_trees(mappings: Seq<Mapping>) -> Tree {
    Tree::List(Seq::new(mappings.len(), |i: int| mapping_preview_tree(mappings[i])))
}

fn mapping_object(mapping: &IngestColumnMapping) -> (r: Object)
    ensures
        Tree::Dict(r@) == mapping_tree(mapping@),
        Tree::Dict(r@.push(("transform"@, Tree::Text(mapping.transform.name()))))
            == mapping_preview_tree(mapping@),
{
    let mut object = Object::new();
    object.put("source_name", json::string(mapping.source_name.as_str()));
    object.put("target_name", json::string(mapping.target_name.as_str()));
    object.put("logical_type", json::string(mapping.logical_type.as_str()));
    object
}

fn mappings_to_json(mappings: &[IngestColumnMapping]) -> (r: Json)
    ensures
        r@ == mapping_trees(mappings_view(mappings@)),
{
    let mut items: Vec<Json> = Vec::new();
    for i in 0..mappings.len()
        invariant
            items@.len() == i,
            forall|j: int| 0 <= j < i ==> (#[trigger] items@[j])@ == mapping_tree(mappings@[j]@),
    {
        items.push(json::dict(mapping_object(&mappings[i])));
    }
    assert(json::trees(items@) =~= mapping_trees(mappings_view(mappings@))->List_0);
    json::array(items)
}

/// Mappings in the preview of a request.
pub fn preview_mappings(mappings: &[IngestColumnMapping]) -> (r: Json)
    ensures
        r@ == mapping_preview_trees(mappings_view(mappings@)),
{
    let mut items: Vec<Json> = Vec::new();
    for i in 0..mappings.len()
        invariant
            items@.len() == i,
            forall|j: int|
                0 <= j < i ==> (#[trigger] items@[j])@ == mapping_preview_tree(mappings@[j]@),
    {
        let mut object: Object = mapping_object(&mappings[i]);
        object.put("transform", json::string(ingest_transform_label(mappings[i].transform)));
        items.push(json::dict(object));
    }
    assert(json::trees(items@) =~= mapping_preview_trees(mappings_view(mappings@))->List_0);
    json::array(items)
}

/// The name of a table as it was asked for and as it is.
pub open spec fn table_name_tree(requested: Seq<char>, normalized: Seq<char>) -> Tree {
    Tree::Dict(
        json::fields()
            .push(("requested"@, Tree::Text(requested)))
            .push(("normalized"@, Tree::Text(normalized))),
    )
}

/// The name of a table as it was asked for and as it is.
pub fn table_name_value(requested: &str, normalized: &str) -> (r: Json)
    ensures
        r@ == table_name_tree(requested@, normalized@),
{
    let mut object = Object::new();
    object.put("requested", json::string(requested));
    object.put("normalized", json::string(normalized));
    json::dict(object)
}

/// The account of the gathering in the answer to a request that wrote a table.
pub open spec fn pagination_tree(pagination: Option<IngestPaginationStats>) -> Tree {
    match pagination {
        Some(stats) => Tree::Dict(
            pagination_entries(json::fields().push(("enabled"@, Tree::Bool(true))), stats),
        ),
        None => Tree::Null,
    }
}

/// The answer to a request that wrote a table.
pub open spec fn ingest_tree(
    session_id: Seq<char>,
    requested: Seq<char>,
    normalized: Seq<char>,
    table: Table,
    report_kind: Seq<char>,
    mode: ScratchpadIngestMode,
    pagination: Option<IngestPaginationStats>,
    stats: IngestStats,
) -> Tree {
    Tree::Dict(
        json::fields()
            .push(("session_id"@, Tree::Text(text::trim(session_id))))
            .push(("table_name"@, table_name_tree(requested, normalized)))
            .push(
                (
                    "ingest"@,
                    Tree::Dict(
                        json::fields()
                            .push(("rows_inserted"@, Tree::Whole(stats.rows_inserted as int)))
                            .push(
                                ("columns_inserted"@, Tree::Whole(stats.columns_inserted as int)),
                            ),
                    ),
                ),
            )
            .push(
                (
                    "session_usage"@,
                    Tree::Dict(
                        json::fields()
                            .push(("tables_used"@, Tree::Whole(stats.tables_used as int)))
                            .push(
                                ("tables_remaining"@, Tree::Whole(stats.tables_remaining as int)),
                            )
                            .push(("rows_used"@, Tree::Whole(stats.rows_used as int)))
                            .push(("rows_remaining"@, Tree::Whole(stats.rows_remaining as int))),
                    ),
                ),
            )
            .push(
                (
                    "source"@,
                    Tree::Dict(
                        json::fields()
                            .push(("report_kind"@, Tree::Text(report_kind)))
                            .push(("ingest_mode"@, Tree::Text(mode.name())))
                            .push(
                                ("row_count_total"@, Tree::Whole(table.row_count_total as int)),
                            )
                            .push(("row_count_returned"@, Tree::Whole(table.rows.len() as int)))
                            .push(
                                (
                                    "truncated"@,
                                    Tree::Bool(table.row_count_total > table.rows.len()),
                                ),
                            )
                            .push(("pagination"@, pagination_tree(pagination))),
                    ),
                ),
            )
            .push(
                ("column_mapping"@, mapping_trees(mappings(table.columns, table.columns.len()))),
            )
            .push(("ga4"@, table.ga_meta)),
    )
}

/// The answer to a request that wrote a table.
pub fn ingest_payload(
    session_id: &str,
    requested_table_name: &str,
    normalized_table_name: &str,
    projection: GaTabularProjection,
    report_kind: &str,
    ingest_mode: ScratchpadIngestMode,
    pagination: Option<IngestPaginationStats>,
    stats: IngestStats,
) -> (r: Json)
    ensures
        r@ == ingest_tree(
            session_id@,
            requested_table_name@,
            normalized_table_name@,
            projection@,
            report_kind@,
            ingest_mode,
            pagination,
            stats,
        ),
{
    let found: Vec<IngestColumnMapping> = build_ingest_column_mappings(
        projection.columns.as_slice(),
    );
    let row_count: usize = projection.rows.len();
    let mut ingest = Object::new();
    ingest.put("rows_inserted", json::size(stats.rows_inserted));
    ingest.put("columns_inserted", json::size(stats.columns_inserted));
    let mut usage = Object::new();
    usage.put("tables_used", json::size(stats.tables_used));
    usage.put("tables_remaining", json::size(stats.tables_remaining));
    usage.put("rows_used", json::size(stats.rows_used));
    usage.put("rows_remaining", json::size(stats.rows_remaining));
    let gathered: Json = match pagination {
        Some(account) => {
            let mut object = Object::new();
            object.put("enabled", json::boolean(true));
            put_pagination(&mut object, &account);
            json::dict(object)
        },
        None => Json::Null,
    };
    let mut source = Object::new();
    source.put("report_kind", json::string(report_kind));
    source.put("ingest_mode", json::string(ingest_mode_label(ingest_mode)));
    source.put("row_count_total", json::size(projection.row_count_total));
    source.put("row_count_returned", json::size(row_count));
    source.put("truncated", json::boolean(projection.row_count_total > row_count));
    source.put("pagination", gathered);
    let mut object = Object::new();
    object.put("session_id", json::string(text::trimmed(session_id).as_str()));
    object.put("table_name", table_name_value(requested_table_name, normalized_table_name));
    object.put("ingest", json::dict(ingest));
    object.put("session_usage", json::dict(usage));
    object.put("source", json::dict(source));
    object.put("column_mapping", mappings_to_json(found.as_slice()));
    object.put("ga4", projection.ga_meta);
    json::dict(object)
}

// ---------------------------------------------------------------------------
// Laws.
// ---------------------------------------------------------------------------

/// A gathering never asks for more than is left of the limit, and every page that it
/// takes brings it nearer to its end.
pub proof fn law_gathering_ends(gathering: Gathering, page: Table)
    requires
        gathering.well_formed(),
        gathering.next_page() matches Ok(NextPage::Fetch { .. }),
        !gathering.overflows(page),
    ensures
        gathering.next_limit() <= gathering.page_size,
        gathering.remaining matches Some(left) ==> gathering.next_limit() <= left,
        gathering.pages_fetched < MAX_SCRATCHPAD_INGEST_PAGES,
        gathering.after(page).pages_fetched == gathering.pages_fetched + 1,
        gathering.after(page).rows.len() <= MAX_SCRATCHPAD_INGEST_ROWS,
        page.rows.len() == 0 ==> gathering.after(page).next_page() == Ok::<NextPage, Problem>(
            NextPage::Done,
        ),
{
}

/// Where each page has no more rows than were asked for, a gathering holds no more rows
/// than its limit.
pub proof fn law_gathering_keeps_limit(gathering: Gathering, page: Table)
    requires
        gathering.well_formed(),
        gathering.requested_limit matches Some(limit) && gathering.remaining matches Some(left)
            && gathering.rows.len() + left == limit,
        page.rows.len() <= gathering.next_limit(),
    ensures
        gathering.after(page).remaining matches Some(left) && gathering.after(page).rows.len()
            + left == gathering.requested_limit->0,
{
}

/// The answer names each column of the table that was written, and the columns of dates
/// twice: as they came, and read.
pub proof fn law_dates_are_written_twice(columns: Seq<Column>, n: nat)
    requires
        n < columns.len(),
    ensures
        mappings(columns, n + 1).len() == mappings(columns, n).len() + (if temporal(
            columns[n as int].name,
        ) is Some {
            2nat
        } else {
            1nat
        }),
        mappings(columns, n).len() == bases(columns, n).len(),
    decreases n,
{
    if n > 0 {
        law_dates_are_written_twice(columns, (n - 1) as nat);
    }
}

proof fn lemma_mappings_grow(columns: Seq<Column>, m: nat, n: nat)
    requires
        m <= n <= columns.len(),
    ensures
        mappings(columns, m).len() <= mappings(columns, n).len(),
        mappings(columns, n).take(mappings(columns, m).len() as int) == mappings(columns, m),
    decreases n,
{
    if m < n {
        lemma_mappings_grow(columns, m, (n - 1) as nat);
        let k = mappings(columns, m).len() as int;
        assert(mappings(columns, n).take(k) =~= mappings(columns, (n - 1) as nat).take(k));
    } else {
        assert(mappings(columns, n).take(mappings(columns, n).len() as int) =~= mappings(
            columns,
            n,
        ));
    }
}

/// Every column is written as it came, under a name of its own and with its own type; only a
/// column without a type is written as text.
pub proof fn law_columns_keep_their_type(columns: Seq<Column>, idx: nat)
    requires
        idx < columns.len(),
    ensures
        mappings(columns, idx).len() < mappings(columns, columns.len()).len(),
        mappings(columns, columns.len())[mappings(columns, idx).len() as int].source_name
            == columns[idx as int].name,
        mappings(columns, columns.len())[mappings(columns, idx).len() as int].transform
            == IngestValueTransform::Identity,
        columns[idx as int].logical_type matches Some(logical_type) ==> mappings(
            columns,
            columns.len(),
        )[mappings(columns, idx).len() as int].logical_type == logical_type,
        columns[idx as int].logical_type is None ==> mappings(
            columns,
            columns.len(),
        )[mappings(columns, idx).len() as int].logical_type == "string"@,
{
    let k = mappings(columns, idx).len() as int;
    lemma_mappings_grow(columns, idx + 1, columns.len());
    let all = mappings(columns, columns.len());
    assert(mappings(columns, idx + 1).len() > k);
    assert(all.take(mappings(columns, idx + 1).len() as int)[k] == all[k]);
    assert(mappings(columns, idx + 1)[k] == plain_mapping(columns, idx as int));
}

proof fn lemma_mapping_sources(columns: Seq<Column>, n: nat, k: int)
    requires
        n <= columns.len(),
        0 <= k < mappings(columns, n).len(),
    ensures
        exists|idx: int|
            0 <= idx < n && (#[trigger] columns[idx]).name == mappings(columns, n)[k].source_name
                && (mappings(columns, n)[k].transform == IngestValueTransform::Identity
                ==> mappings(columns, n)[k].logical_type == (match columns[idx].logical_type {
                Some(logical_type) => logical_type,
                None => "string"@,
            })),
    decreases n,
{
    let before = mappings(columns, (n - 1) as nat);
    let all = mappings(columns, n);
    if k < before.len() {
        lemma_mapping_sources(columns, (n - 1) as nat, k);
        assert(all[k] == before[k]);
        let idx = choose|idx: int|
            0 <= idx < n - 1 && (#[trigger] columns[idx]).name == before[k].source_name && (
            before[k].transform == IngestValueTransform::Identity ==> before[k].logical_type == (
            match columns[idx].logical_type {
                Some(logical_type) => logical_type,
                None => "string"@,
            }));
        assert(columns[idx].name == all[k].source_name);
    } else {
        assert(columns[n - 1].name == all[k].source_name);
    }
}

/// Nothing is written but what comes from a column; what is written as it came has the type of
/// that column.
pub proof fn law_mappings_come_from_columns(columns: Seq<Column>, k: int)
    requires
        0 <= k < mappings(columns, columns.len()).len(),
    ensures
        exists|idx: int|
            0 <= idx < columns.len() && (#[trigger] columns[idx]).name == mappings(
                columns,
                columns.len(),
            )[k].source_name && (mappings(columns, columns.len())[k].transform
                == IngestValueTransform::Identity ==> mappings(
                columns,
                columns.len(),
            )[k].logical_type == (match columns[idx].logical_type {
                Some(logical_type) => logical_type,
                None => "string"@,
            })),
{
    lemma_mapping_sources(columns, columns.len(), k);
}

/// A plan has one column for each column of the table as it came, with the name that the rows
/// use and with the type of the column.
pub proof fn law_planned_columns_keep_their_type(plan: IngestPlan, table: Table, idx: nat)
    requires
        plans(plan, table),
        idx < table.columns.len(),
    ensures
        exists|k: int|
            0 <= k < plan.columns@.len() && plan.columns@.len() == plan.mappings@.len()
                && plan.mappings@[k].source_name@ == table.columns[idx as int].name
                && plan.mappings@[k].transform == IngestValueTransform::Identity && (
            #[trigger] plan.columns@[k]).name@ == plan.mappings@[k].target_name@
                && plan.columns@[k].logical_type@ == plan.mappings@[k].logical_type@ && (match table.columns[idx as int].logical_type {
                Some(logical_type) => plan.columns@[k].logical_type@ == logical_type,
                None => plan.columns@[k].logical_type@ == "string"@,
            }),
{
    law_columns_keep_their_type(table.columns, idx);
    let shown = mappings(table.columns, table.columns.len());
    let k = mappings(table.columns, idx).len() as int;
    assert(mappings_view(plan.mappings@)[k] == plan.mappings@[k]@);
    assert(plan.columns@[k].name@ == shown[k].target_name);
}

/// A column that is called a date, or a date and hour, however it is written, is written once
/// more behind itself: read as a day, or as a moment.
pub proof fn law_date_columns_are_read(columns: Seq<Column>, idx: nat)
    requires
        idx < columns.len(),
        bare(columns[idx as int].name) == "date"@ || bare(columns[idx as int].name)
            == "datehour"@,
    ensures
        mappings(columns, idx).len() + 1 < mappings(columns, columns.len()).len(),
        mappings(columns, columns.len())[(mappings(columns, idx).len() + 1) as int].source_name
            == columns[idx as int].name,
        bare(columns[idx as int].name) == "date"@ ==> mappings(
            columns,
            columns.len(),
        )[(mappings(columns, idx).len() + 1) as int].transform == IngestValueTransform::ParseGaDate
            && mappings(columns, columns.len())[
                (mappings(columns, idx).len() + 1) as int
            ].logical_type
            == "date"@,
        bare(columns[idx as int].name) == "datehour"@ ==> mappings(
            columns,
            columns.len(),
        )[(mappings(columns, idx).len() + 1) as int].transform == IngestValueTransform::ParseGaDateHour
            && mappings(columns, columns.len())[
                (mappings(columns, idx).len() + 1) as int
            ].logical_type
            == "timestamp"@,
{
    reveal_strlit("date");
    reveal_strlit("datehour");
    assert("date"@.len() == 4 && "datehour"@.len() == 8);
    let k = mappings(columns, idx).len() as int;
    lemma_mappings_grow(columns, idx + 1, columns.len());
    let all = mappings(columns, columns.len());
    assert(mappings(columns, idx + 1).len() == k + 2);
    assert(all.take(k + 2)[k + 1] == all[k + 1]);
}

/// What a name comes down to is made of its parts: letters and digits stay, in lower case, and
/// everything else goes.
pub proof fn law_bare_names_keep_letters(name: Seq<char>, ch: char)
    ensures
        bare(Seq::<char>::empty()) == Seq::<char>::empty(),
        'a' <= ch <= 'z' || '0' <= ch <= '9' ==> bare(name.push(ch)) == bare(name).push(ch),
        'A' <= ch <= 'Z' ==> bare(name.push(ch)) == bare(name).push(
            ((ch as u32 + 32) as u32) as char,
        ),
        !('a' <= ch <= 'z' || '0' <= ch <= '9' || 'A' <= ch <= 'Z') ==> bare(name.push(ch))
            == bare(name),
{
    assert(name.push(ch).drop_last() =~= name);
}

proof fn lemma_remapped(row: Seq<(Seq<char>, Tree)>, mappings: Seq<Mapping>, n: nat, k: int)
    requires
        0 <= k < n <= mappings.len(),
        forall|a: int, b: int|
            0 <= a < b < mappings.len() ==> (#[trigger] mappings[a]).target_name != (
            #[trigger] mappings[b]).target_name,
    ensures
        json::lookup(remapped_row(row, mappings, n), mappings[k].target_name) == Some(
            remapped_value(
                json::lookup(row, mappings[k].source_name),
                mappings[k].transform,
            ),
        ),
    decreases n,
{
    json::law_entered_values_are_found(
        remapped_row(row, mappings, (n - 1) as nat),
        mappings[n - 1].target_name,
        remapped_value(
            json::lookup(row, mappings[n - 1].source_name),
            mappings[n - 1].transform,
        ),
        mappings[k].target_name,
    );
    if k < n - 1 {
        assert(mappings[k].target_name != mappings[n - 1].target_name);
        lemma_remapped(row, mappings, (n - 1) as nat, k);
    }
}

/// Rows are written in their order. Where the names differ, a row has under each of them the
/// value of the column that it comes from: as it came, or as the day or the moment that it
/// stands for; nothing where there is none.
pub proof fn law_values_are_written_under_their_names(
    rows: Seq<Seq<(Seq<char>, Tree)>>,
    mappings: Seq<Mapping>,
    r: int,
    k: int,
    raw: Seq<char>,
)
    requires
        0 <= r < rows.len(),
        0 <= k < mappings.len(),
        forall|a: int, b: int|
            0 <= a < b < mappings.len() ==> (#[trigger] mappings[a]).target_name != (
            #[trigger] mappings[b]).target_name,
    ensures
        remapped_rows(rows, mappings).len() == rows.len(),
        mappings[k].transform == IngestValueTransform::Identity ==> json::lookup(
            remapped_rows(rows, mappings)[r],
            mappings[k].target_name,
        ) == Some(
            match json::lookup(rows[r], mappings[k].source_name) {
                Some(value) => value,
                None => Tree::Null,
            },
        ),
        mappings[k].transform != IngestValueTransform::Identity && json::lookup(
            rows[r],
            mappings[k].source_name,
        ) is None ==> json::lookup(
            remapped_rows(rows, mappings)[r],
            mappings[k].target_name,
        ) == Some(Tree::Null),
        mappings[k].transform == IngestValueTransform::ParseGaDate && json::lookup(
            rows[r],
            mappings[k].source_name,
        ) == Some(Tree::Text(raw)) && !text::is_blank(raw) ==> json::lookup(
            remapped_rows(rows, mappings)[r],
            mappings[k].target_name,
        ) == Some(
                match dates::ga_date(text::trim(raw)) {
                    Some(day) => Tree::Text(day),
                    None => Tree::Null,
                },
            ),
        mappings[k].transform == IngestValueTransform::ParseGaDateHour && json::lookup(
            rows[r],
            mappings[k].source_name,
        ) == Some(Tree::Text(raw)) && !text::is_blank(raw) ==> json::lookup(
            remapped_rows(rows, mappings)[r],
            mappings[k].target_name,
        ) == Some(
                match dates::ga_date_hour(text::trim(raw)) {
                    Some(moment) => Tree::Text(moment),
                    None => Tree::Null,
                },
            ),
{
    lemma_remapped(rows[r], mappings, mappings.len(), k);
}

/// A gathering begins where it is told to, with nothing; pages have as many rows as may be
/// asked for at once, or as are asked for, whichever is less.
pub proof fn law_gatherings_begin_as_asked(
    max_rows: Option<usize>,
    limit: Option<u64>,
    offset: Option<u64>,
    advice: Seq<char>,
)
    ensures
        Gathering::start(max_rows, limit, offset, advice).rows.len() == 0,
        Gathering::start(max_rows, limit, offset, advice).pages_fetched == 0,
        Gathering::start(max_rows, limit, offset, advice).remaining == limit,
        Gathering::start(max_rows, limit, offset, advice).initial_offset == (match offset {
            Some(n) => n,
            None => 0,
        }),
        Gathering::start(max_rows, limit, offset, advice).next_offset == (match offset {
            Some(n) => n,
            None => 0,
        }),
        max_rows is None && limit is None ==> Gathering::start(
            max_rows,
            limit,
            offset,
            advice,
        ).page_size == 25_000,
        limit is None ==> (max_rows matches Some(n) ==> (1 <= n <= 25_000 ==> Gathering::start(
            max_rows,
            limit,
            offset,
            advice,
        ).page_size == n) && (n > 25_000 ==> Gathering::start(
            max_rows,
            limit,
            offset,
            advice,
        ).page_size == 25_000)),
        limit matches Some(m) ==> (max_rows is None ==> (1 <= m <= 25_000 ==> Gathering::start(
            max_rows,
            limit,
            offset,
            advice,
        ).page_size == m) && (m > 25_000 ==> Gathering::start(
            max_rows,
            limit,
            offset,
            advice,
        ).page_size == 25_000)),
        match (limit, max_rows) {
            (Some(m), Some(n)) => 1 <= m && 1 <= n <= 25_000 ==> Gathering::start(
                max_rows,
                limit,
                offset,
                advice,
            ).page_size == (if m < n {
                m as int
            } else {
                n as int
            }),
            _ => true,
        },
        match Gathering::start(max_rows, limit, offset, advice).next_page() {
            Ok(NextPage::Fetch { limit: asked, offset: from }) => from == (match offset {
                Some(n) => n,
                None => 0,
            }) && asked == Gathering::start(max_rows, limit, offset, advice).page_size && limit
                != Some(0u64),
            Ok(NextPage::Done) => limit == Some(0u64),
            Err(_) => false,
        },
{
}

/// A page adds its rows behind those that came, in their order, and the gathering goes on
/// behind them, with so much less to ask for. It ends where the page has fewer rows than were
/// asked for, where nothing is left to ask for, and where all rows have come.
pub proof fn law_pages_are_gathered_in_order(gathering: Gathering, page: Table, i: int)
    requires
        gathering.well_formed(),
        !gathering.overflows(page),
        gathering.next_offset + page.rows.len() <= u64::MAX,
        gathering.next_offset + page.rows.len() <= usize::MAX,
        !gathering.finished,
    ensures
        gathering.after(page).rows.len() == gathering.rows.len() + page.rows.len(),
        0 <= i < gathering.rows.len() ==> gathering.after(page).rows[i] == gathering.rows[i],
        0 <= i < page.rows.len() ==> gathering.after(page).rows[gathering.rows.len() + i]
            == page.rows[i],
        gathering.after(page).next_offset == gathering.next_offset + page.rows.len(),
        gathering.after(page).initial_offset == gathering.initial_offset,
        gathering.after(page).page_size == gathering.page_size,
        gathering.after(page).requested_limit == gathering.requested_limit,
        gathering.remaining matches Some(left) ==> gathering.after(page).remaining == Some(
            if page.rows.len() < left {
                (left - page.rows.len()) as u64
            } else {
                0
            },
        ),
        gathering.remaining is None ==> gathering.after(page).remaining is None,
        gathering.pages_fetched == 0 && gathering.ga_meta is None ==> gathering.after(page).columns
            == page.columns && gathering.after(page).ga_meta == Some(page.ga_meta),
        gathering.ga_meta is Some ==> gathering.after(page).columns == gathering.columns
            && gathering.after(page).ga_meta == gathering.ga_meta,
        gathering.after(page).row_count_total >= gathering.row_count_total
            && gathering.after(page).row_count_total >= page.row_count_total && (gathering.after(
            page,
        ).row_count_total == gathering.row_count_total || gathering.after(page).row_count_total
            == page.row_count_total),
        gathering.after(page).finished <==> (page.rows.len() == 0 || page.rows.len()
            < gathering.next_limit() || gathering.after(page).remaining == Some(0u64)
            || gathering.next_offset + page.rows.len() >= gathering.after(page).row_count_total),
{
}

/// The next page begins behind the last, and has as many rows as a page may have, or as are
/// left to ask for, whichever is less.
pub proof fn law_next_pages_follow(gathering: Gathering)
    requires
        gathering.well_formed(),
        !gathering.finished,
        gathering.pages_fetched < 128,
        gathering.remaining != Some(0u64),
    ensures
        gathering.next_page() matches Ok(NextPage::Fetch { limit, offset }) && offset
            == gathering.next_offset && limit <= gathering.page_size && (match gathering.remaining {
            Some(left) => limit <= left && (limit == left || limit == gathering.page_size),
            None => limit == gathering.page_size,
        }),
{
}

/// The account of a gathering tells where it began and ended, how much it asked for, and
/// whether everything has come.
pub proof fn law_accounts_tell_the_gathering(gathering: Gathering)
    requires
        gathering.well_formed(),
        gathering.next_offset <= usize::MAX,
    ensures
        gathering.stats().pages_fetched == gathering.pages_fetched,
        gathering.stats().page_size == gathering.page_size,
        gathering.stats().initial_offset == gathering.initial_offset,
        gathering.stats().final_offset == gathering.next_offset,
        gathering.stats().requested_limit == gathering.requested_limit,
        gathering.stats().complete <==> (gathering.remaining == Some(0u64) || (
        gathering.next_offset >= gathering.row_count_total && gathering.next_offset
            >= gathering.rows.len())),
        gathering.table().rows == gathering.rows,
        gathering.table().columns == gathering.columns,
        gathering.table().row_count_total >= gathering.rows.len(),
        gathering.table().row_count_total >= gathering.row_count_total,
        gathering.table().row_count_total == gathering.rows.len()
            || gathering.table().row_count_total == gathering.row_count_total,
{
}

/// A table can be written where it has a column and no more columns and rows than may be.
pub proof fn law_tables_of_moderate_size_can_be_written(table: Table)
    ensures
        plan_problem(table) is None <==> (1 <= mappings(table.columns, table.columns.len()).len()
            <= 256 && table.rows.len() <= 100_000),
        mappings(table.columns, table.columns.len()).len() == 0 || mappings(
            table.columns,
            table.columns.len(),
        ).len() > 256 ==> (plan_problem(table) matches Some(Problem::InvalidArgument(field, said))
            && field == "columns"@),
        1 <= mappings(table.columns, table.columns.len()).len() <= 256 && table.rows.len()
            > 100_000 ==> (plan_problem(table) matches Some(Problem::InvalidArgument(field, said))
            && field == "rows"@),
{
}

/// A mapping is told with the name that its column came with, the name that it is written
/// under, and its type.
pub proof fn law_mappings_are_told(mappings: Seq<Mapping>, k: int)
    requires
        0 <= k < mappings.len(),
    ensures
        mapping_preview_trees(mappings) matches Tree::List(items) && items.len() == mappings.len()
            && items[k].field("source_name"@) == Some(Tree::Text(mappings[k].source_name))
            && items[k].field("target_name"@) == Some(Tree::Text(mappings[k].target_name))
            && items[k].field("logical_type"@) == Some(Tree::Text(mappings[k].logical_type))
            && items[k].field("transform"@) == Some(
            Tree::Text(
                match mappings[k].transform {
                    IngestValueTransform::Identity => "identity"@,
                    IngestValueTransform::ParseGaDate => "parse_ga_date"@,
                    IngestValueTransform::ParseGaDateHour => "parse_ga_date_hour"@,
                },
            ),
        ),
        mapping_trees(mappings) matches Tree::List(items) && items.len() == mappings.len()
            && items[k].field("source_name"@) == Some(Tree::Text(mappings[k].source_name))
            && items[k].field("target_name"@) == Some(Tree::Text(mappings[k].target_name))
            && items[k].field("logical_type"@) == Some(Tree::Text(mappings[k].logical_type)),
{
    broadcast use json::group_found;

    reveal_strlit("source_name");
    assert("source_name"@.len() == 11);
    reveal_strlit("target_name");
    assert("target_name"@.len() == 11);
    reveal_strlit("logical_type");
    assert("logical_type"@.len() == 12);
    reveal_strlit("transform");
    assert("transform"@.len() == 9);
    assert("source_name"@[0] != "target_name"@[0]);
}

/// The answer to a request that wrote a table tells what was written, what is left of the
/// session, and where the rows came from.
pub proof fn law_ingests_are_told(
    session_id: Seq<char>,
    requested: Seq<char>,
    normalized: Seq<char>,
    table: Table,
    report_kind: Seq<char>,
    mode: ScratchpadIngestMode,
    pagination: Option<IngestPaginationStats>,
    stats: IngestStats,
)
    ensures
        ingest_tree(
            session_id,
            requested,
            normalized,
            table,
            report_kind,
            mode,
            pagination,
            stats,
        ).field("session_id"@)
            == Some(Tree::Text(text::trim(session_id))),
        ingest_tree(
            session_id,
            requested,
            normalized,
            table,
            report_kind,
            mode,
            pagination,
            stats,
        ).field("ga4"@)
            == Some(table.ga_meta),
        ingest_tree(
            session_id,
            requested,
            normalized,
            table,
            report_kind,
            mode,
            pagination,
            stats,
        ).field("column_mapping"@)
            == Some(mapping_trees(mappings(table.columns, table.columns.len()))),
        ingest_tree(
            session_id,
            requested,
            normalized,
            table,
            report_kind,
            mode,
            pagination,
            stats,
        ).field("table_name"@) matches Some(held)
            && held.field("requested"@) == Some(Tree::Text(requested))
            && held.field("normalized"@) == Some(Tree::Text(normalized)),
        ingest_tree(
            session_id,
            requested,
            normalized,
            table,
            report_kind,
            mode,
            pagination,
            stats,
        ).field("ingest"@) matches Some(held)
            && held.field("rows_inserted"@) == Some(Tree::Whole(stats.rows_inserted as int))
            && held.field("columns_inserted"@) == Some(Tree::Whole(stats.columns_inserted as int)),
        ingest_tree(
            session_id,
            requested,
            normalized,
            table,
            report_kind,
            mode,
            pagination,
            stats,
        ).field("session_usage"@) matches Some(held)
            && held.field("tables_used"@) == Some(Tree::Whole(stats.tables_used as int))
            && held.field("tables_remaining"@) == Some(Tree::Whole(stats.tables_remaining as int))
            && held.field("rows_used"@) == Some(Tree::Whole(stats.rows_used as int))
            && held.field("rows_remaining"@) == Some(Tree::Whole(stats.rows_remaining as int)),
        ingest_tree(
            session_id,
            requested,
            normalized,
            table,
            report_kind,
            mode,
            pagination,
            stats,
        ).field("source"@) matches Some(held)
            && held.field("report_kind"@) == Some(Tree::Text(report_kind))
            && held.field("ingest_mode"@)
                == Some(
                    Tree::Text(
                        match mode {
                            ScratchpadIngestMode::Create => "create"@,
                            ScratchpadIngestMode::Append => "append"@,
                        },
                    ),
                )
            && held.field("row_count_total"@) == Some(Tree::Whole(table.row_count_total as int))
            && held.field("row_count_returned"@) == Some(Tree::Whole(table.rows.len() as int))
            && held.field("truncated"@)
                == Some(Tree::Bool(table.row_count_total > table.rows.len()))
            && held.field("pagination"@) == Some(pagination_tree(pagination)),
{
    broadcast use json::group_found;

    reveal_strlit("session_id");
    assert("session_id"@.len() == 10);
    reveal_strlit("table_name");
    assert("table_name"@.len() == 10);
    reveal_strlit("ingest");
    assert("ingest"@.len() == 6);
    reveal_strlit("session_usage");
    assert("session_usage"@.len() == 13);
    reveal_strlit("source");
    assert("source"@.len() == 6);
    reveal_strlit("column_mapping");
    assert("column_mapping"@.len() == 14);
    reveal_strlit("ga4");
    assert("ga4"@.len() == 3);
    reveal_strlit("requested");
    assert("requested"@.len() == 9);
    reveal_strlit("normalized");
    assert("normalized"@.len() == 10);
    reveal_strlit("rows_inserted");
    assert("rows_inserted"@.len() == 13);
    reveal_strlit("columns_inserted");
    assert("columns_inserted"@.len() == 16);
    reveal_strlit("tables_used");
    assert("tables_used"@.len() == 11);
    reveal_strlit("tables_remaining");
    assert("tables_remaining"@.len() == 16);
    reveal_strlit("rows_used");
    assert("rows_used"@.len() == 9);
    reveal_strlit("rows_remaining");
    assert("rows_remaining"@.len() == 14);
    reveal_strlit("report_kind");
    assert("report_kind"@.len() == 11);
    reveal_strlit("ingest_mode");
    assert("ingest_mode"@.len() == 11);
    reveal_strlit("row_count_total");
    assert("row_count_total"@.len() == 15);
    reveal_strlit("row_count_returned");
    assert("row_count_returned"@.len() == 18);
    reveal_strlit("truncated");
    assert("truncated"@.len() == 9);
    reveal_strlit("pagination");
    assert("pagination"@.len() == 10);
    assert("session_id"@[0] != "table_name"@[0]);
    assert("session_id"@[0] != "normalized"@[0]);
    assert("session_id"@[0] != "pagination"@[0]);
    assert("table_name"@[0] != "normalized"@[0]);
    assert("table_name"@[0] != "pagination"@[0]);
    assert("ingest"@[0] != "source"@[0]);
    assert("session_usage"@[0] != "rows_inserted"@[0]);
    assert("column_mapping"@[0] != "rows_remaining"@[0]);
    assert("requested"@[1] != "rows_used"@[1]);
    assert("requested"@[0] != "truncated"@[0]);
    assert("normalized"@[0] != "pagination"@[0]);
    assert("columns_inserted"@[0] != "tables_remaining"@[0]);
    assert("tables_used"@[0] != "report_kind"@[0]);
    assert("tables_used"@[0] != "ingest_mode"@[0]);
    assert("rows_used"@[0] != "truncated"@[0]);
    assert("report_kind"@[0] != "ingest_mode"@[0]);
}

/// The account of a gathering tells each of its numbers under its own name.
pub proof fn law_gatherings_are_told(
    stats: IngestPaginationStats,
)
    ensures
        Tree::Dict(pagination_entries(json::fields(), stats)).field("pages_fetched"@)
            == Some(Tree::Whole(stats.pages_fetched as int)),
        Tree::Dict(pagination_entries(json::fields(), stats)).field("page_size"@)
            == Some(Tree::Whole(stats.page_size as int)),
        Tree::Dict(pagination_entries(json::fields(), stats)).field("initial_offset"@)
            == Some(Tree::Whole(stats.initial_offset as int)),
        Tree::Dict(pagination_entries(json::fields(), stats)).field("final_offset"@)
            == Some(Tree::Whole(stats.final_offset as int)),
        Tree::Dict(pagination_entries(json::fields(), stats)).field("requested_limit"@)
            == Some(
                match stats.requested_limit {
                    Some(n) => Tree::Whole(n as int),
                    None => Tree::Null,
                },
            ),
        Tree::Dict(pagination_entries(json::fields(), stats)).field("complete"@)
            == Some(Tree::Bool(stats.complete)),
{
    broadcast use json::group_found;

    reveal_strlit("pages_fetched");
    assert("pages_fetched"@.len() == 13);
    reveal_strlit("page_size");
    assert("page_size"@.len() == 9);
    reveal_strlit("initial_offset");
    assert("initial_offset"@.len() == 14);
    reveal_strlit("final_offset");
    assert("final_offset"@.len() == 12);
    reveal_strlit("requested_limit");
    assert("requested_limit"@.len() == 15);
    reveal_strlit("complete");
    assert("complete"@.len() == 8);
}

/// A column is written under the identifier of its name, or of its number, told apart from those
/// before it; and where it is read as a date, under the same with a word behind it.
pub proof fn law_columns_are_written_under_identifiers(columns: Seq<Column>, idx: nat)
    requires
        idx < columns.len(),
    ensures
        mappings(columns, columns.len())[mappings(columns, idx).len() as int].target_name
            == sql_text::distinct_name(
            bases(columns, idx),
            sql_text::identifier_of(
                columns[idx as int].name,
                "col_"@ + text::decimal((idx + 1) as nat),
            ),
        ),
        bare(columns[idx as int].name) == "date"@ || bare(columns[idx as int].name) == "datehour"@
            ==> mappings(columns, columns.len())[(mappings(columns, idx).len()
            + 1) as int].target_name == sql_text::distinct_name(
            bases(columns, idx).push(
                sql_text::identifier_of(
                    columns[idx as int].name,
                    "col_"@ + text::decimal((idx + 1) as nat),
                ),
            ),
            sql_text::identifier_of(
                columns[idx as int].name,
                "col_"@ + text::decimal((idx + 1) as nat),
            ) + "_"@ + "parsed"@,
        ),
{
    let k = mappings(columns, idx).len() as int;
    lemma_mappings_grow(columns, idx + 1, columns.len());
    let all = mappings(columns, columns.len());
    let some = mappings(columns, idx + 1);
    assert(all.take(some.len() as int)[k] == all[k]);
    assert(some[k] == plain_mapping(columns, idx as int));
    if temporal(columns[idx as int].name) is Some {
        assert(some.len() == k + 2);
        assert(all.take(some.len() as int)[k + 1] == all[k + 1]);
    }
}

/// A number in a column of dates counts by its digits.
pub proof fn law_numbers_can_be_dates(n: nat, raw: Seq<char>)
    ensures
        remapped_value(
            Some(Tree::Whole(n as int)),
            IngestValueTransform::ParseGaDate,
        ) == (match dates::ga_date(text::decimal(n)) {
            Some(day) => Tree::Text(day),
            None => Tree::Null,
        }),
        remapped_value(
            Some(Tree::Whole(n as int)),
            IngestValueTransform::ParseGaDateHour,
        ) == (match dates::ga_date_hour(text::decimal(n)) {
            Some(moment) => Tree::Text(moment),
            None => Tree::Null,
        }),
        text::is_blank(raw) ==> remapped_value(
            Some(Tree::Text(raw)),
            IngestValueTransform::ParseGaDate,
        ) == Tree::Null,
{
}

/// The table that was gathered tells how it was.
pub proof fn law_gathered_tables_tell_how(gathering: Gathering)
    requires
        gathering.ga_meta matches Some(meta) ==> meta is Dict,
    ensures
        gathering.table().ga_meta.field("ingest_pagination"@) == Some(
            Tree::Dict(pagination_entries(json::fields(), gathering.stats())),
        ),
        forall|key: Seq<char>|
            key != "ingest_pagination"@ ==> #[trigger] gathering.table().ga_meta.field(key) == (
            match gathering.ga_meta {
                Some(meta) => meta.field(key),
                None => None,
            }),
{
    let meta = match gathering.ga_meta {
        Some(meta) => meta,
        None => Tree::Dict(json::fields()),
    };
    let entries = meta->Dict_0;
    let told = Tree::Dict(pagination_entries(json::fields(), gathering.stats()));
    assert forall|key: Seq<char>| #[trigger] gathering.table().ga_meta.field(key) == (if key
        == "ingest_pagination"@ {
        Some(told)
    } else {
        json::lookup(entries, key)
    }) by {
        json::law_entered_values_are_found(entries, "ingest_pagination"@, told, key);
    }
}

/// What is said where a gathering cannot go on.
pub proof fn law_long_gatherings_are_refused(gathering: Gathering)
    requires
        !gathering.finished,
        gathering.pages_fetched >= 128,
    ensures
        gathering.next_page() == Err::<NextPage, Problem>(
            Problem::ScratchpadLimitExceeded(
                "limit"@,
                "ingest requires more than "@ + text::decimal(128) + " API pages; narrow "@
                    + gathering.advice + " or set a lower limit"@,
            ),
        ),
{
}

} // verus!
