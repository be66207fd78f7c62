//! # Contract Builders
//!
//! Shared helpers for Contract V1 tool response envelopes.

use std::time::{Duration, Instant};
use vstd::prelude::*;
use vstd::string::*;

use crate::error::{AnalyticsError, Problem};
use crate::json;
use crate::json::{Object, Tree, Json};
use crate::text;

verus! {

#[derive(Debug, Clone, Copy, PartialEq, Eq, Structural)]
pub enum OutputMode {
    Rows,
    Tuples,
    Scalar,
    Compact,
}

impl OutputMode {
    /// The name of the mode.
    pub open spec fn name(self) -> Seq<char> {
        match self {
            OutputMode::Rows => "rows"@,
            OutputMode::Tuples => "tuples"@,
            OutputMode::Scalar => "scalar"@,
            OutputMode::Compact => "compact"@,
        }
    }

    /// The name of the mode.
    pub fn as_str(self) -> (r: &'static str)
        ensures
            r@ == self.name(),
    {
        match self {
            OutputMode::Rows => "rows",
            OutputMode::Tuples => "tuples",
            OutputMode::Scalar => "scalar",
            OutputMode::Compact => "compact",
        }
    }
}

/// A column of a table: its name, and what is known of its values.
#[derive(Debug, PartialEq, Eq)]
pub struct ColumnMeta {
    pub name: String,
    pub logical_type: Option<String>,
    pub nullable: Option<bool>,
}

/// What a column says.
#[verifier::ext_equal]
pub struct Column {
    pub name: Seq<char>,
    pub logical_type: Option<Seq<char>>,
    pub nullable: Option<bool>,
}

impl View for ColumnMeta {
    type V = Column;

    open spec fn view(&self) -> Column {
        Column {
            name: self.name@,
            logical_type: text::opt_text(self.logical_type),
            nullable: self.nullable,
        }
    }
}

/// What a sequence of columns says.
pub open spec fn columns_view(columns: Seq<ColumnMeta>) -> Seq<Column> {
    Seq::new(columns.len(), |i: int| columns[i]@)
}

impl Column {
    /// The JSON form of a column; what is not known is left out.
    pub open spec fn tree(self) -> Tree {
        let named = json::fields().push(("name"@, Tree::Text(self.name)));
        let typed = match self.logical_type {
            Some(logical_type) => named.push(("logical_type"@, Tree::Text(logical_type))),
            None => named,
        };
        Tree::Dict(
            match self.nullable {
                Some(nullable) => typed.push(("nullable"@, Tree::Bool(nullable))),
                None => typed,
            },
        )
    }
}

impl Clone for ColumnMeta {
    fn clone(&self) -> (copy: Self)
        ensures
            copy == *self,
    {
        ColumnMeta {
            name: self.name.clone(),
            logical_type: text::clone_opt(&self.logical_type),
            nullable: self.nullable,
        }
    }
}

impl ColumnMeta {
    /// A column of which only the name is known.
    pub fn new(name: &str) -> (column: Self)
        ensures
            column@ == (Column { name: name@, logical_type: None, nullable: None }),
    {
        ColumnMeta { name: name.to_owned(), logical_type: None, nullable: None }
    }

    /// The column with a logical type.
    pub fn with_logical_type(self, logical_type: &str) -> (column: Self)
        ensures
            column@ == (Column { logical_type: Some(logical_type@), ..self@ }),
    {
        ColumnMeta {
            name: self.name,
            logical_type: Some(logical_type.to_owned()),
            nullable: self.nullable,
        }
    }

    /// The column with the knowledge whether it may hold nulls.
    pub fn with_nullable(self, nullable: bool) -> (column: Self)
        ensures
            column@ == (Column { nullable: Some(nullable), ..self@ }),
    {
        ColumnMeta { name: self.name, logical_type: self.logical_type, nullable: Some(nullable) }
    }

    /// The JSON form of the column.
    pub fn to_json(&self) -> (r: Json)
        ensures
            r@ == self@.tree(),
    {
        let mut object = Object::new();
        object.put("name", json::string(self.name.as_str()));
        match &self.logical_type {
            Some(logical_type) => {
                object.put("logical_type", json::string(logical_type.as_str()));
            },
            None => {},
        }
        match self.nullable {
            Some(nullable) => {
                object.put("nullable", json::boolean(nullable));
            },
            None => {},
        }
        json::dict(object)
    }
}

/// A copy of a list of columns.
pub fn clone_columns(columns: &[ColumnMeta]) -> (copy: Vec<ColumnMeta>)
    ensures
        copy@ == columns@,
{
    let mut copy: Vec<ColumnMeta> = Vec::new();
    for i in 0..columns.len()
        invariant
            copy@ == columns@.take(i as int),
    {
        copy.push(columns[i].clone());
        assert(columns@.take(i + 1) =~= columns@.take(i as int).push(columns@[i as int]));
    }
    assert(columns@.take(columns.len() as int) =~= columns@);
    copy
}

/// The JSON form of a list of columns.
pub open spec fn column_trees(columns: Seq<Column>) -> Tree {
    Tree::List(Seq::new(columns.len(), |i: int| columns[i].tree()))
}

/// The JSON form of a list of columns.
pub fn columns_to_json(columns: &[ColumnMeta]) -> (r: Json)
    ensures
        r@ == column_trees(columns_view(columns@)),
{
    let mut items: Vec<Json> = Vec::new();
    for i in 0..columns.len()
        invariant
            items@.len() == i,
            forall|j: int| 0 <= j < i ==> (#[trigger] items@[j])@ == columns@[j]@.tree(),
    {
        items.push(columns[i].to_json());
    }
    assert(json::trees(items@) =~= column_trees(columns_view(columns@))->List_0);
    json::array(items)
}

/// What is said of a table beside its rows.
#[derive(Debug, PartialEq)]
pub struct TabularMeta {
    pub output_mode: OutputMode,
    pub summary_only: bool,
    pub row_count_total: usize,
    pub row_count_returned: usize,
    pub truncated: bool,
    pub next_cursor: Option<String>,
    pub query_hash: Option<String>,
    pub columns: Vec<ColumnMeta>,
    pub query_hints: Option<Vec<String>>,
    pub cell_clipping: Option<Json>,
}

/// What the metadata of a table says.
#[verifier::ext_equal]
pub struct TableMeta {
    pub output_mode: OutputMode,
    pub summary_only: bool,
    pub row_count_total: usize,
    pub row_count_returned: usize,
    pub truncated: bool,
    pub next_cursor: Option<Seq<char>>,
    pub query_hash: Option<Seq<char>>,
    pub columns: Seq<Column>,
    pub query_hints: Option<Seq<Seq<char>>>,
    pub cell_clipping: Option<Tree>,
}

impl View for TabularMeta {
    type V = TableMeta;

    open spec fn view(&self) -> TableMeta {
        TableMeta {
            output_mode: self.output_mode,
            summary_only: self.summary_only,
            row_count_total: self.row_count_total,
            row_count_returned: self.row_count_returned,
            truncated: self.truncated,
            next_cursor: text::opt_text(self.next_cursor),
            query_hash: text::opt_text(self.query_hash),
            columns: columns_view(self.columns@),
            query_hints: match self.query_hints {
                Some(hints) => Some(text::texts(hints@)),
                None => None,
            },
            cell_clipping: json::opt_view(self.cell_clipping),
        }
    }
}

impl TableMeta {
    /// The entries of the JSON form.
    pub open spec fn entries(self) -> Seq<(Seq<char>, Tree)> {
        let fixed = json::fields()
            .push(("output_mode"@, Tree::Text(self.output_mode.name())))
            .push(("summary_only"@, Tree::Bool(self.summary_only)))
            .push(("row_count_total"@, Tree::Whole(self.row_count_total as int)))
            .push(("row_count_returned"@, Tree::Whole(self.row_count_returned as int)))
            .push(("truncated"@, Tree::Bool(self.truncated)))
            .push(("next_cursor"@, json::opt_text(self.next_cursor)))
            .push(("query_hash"@, json::opt_text(self.query_hash)))
            .push(("columns"@, column_trees(self.columns)));
        let hinted = json::optional_entry(
            fixed,
            "query_hints"@,
            match self.query_hints {
                Some(hints) => Some(json::text_list(hints)),
                None => None,
            },
        );
        json::optional_entry(hinted, "cell_clipping"@, self.cell_clipping)
    }
}

impl TabularMeta {
    /// The metadata of a table that is returned as rows.
    pub fn rows(
        row_count_total: usize,
        row_count_returned: usize,
        columns: Vec<ColumnMeta>,
    ) -> (meta: Self)
        ensures
            meta == (TabularMeta {
                output_mode: OutputMode::Rows,
                summary_only: false,
                row_count_total,
                row_count_returned,
                truncated: row_count_returned < row_count_total,
                next_cursor: None,
                query_hash: None,
                columns,
                query_hints: None,
                cell_clipping: None,
            }),
    {
        TabularMeta {
            output_mode: OutputMode::Rows,
            summary_only: false,
            row_count_total,
            row_count_returned,
            truncated: row_count_returned < row_count_total,
            next_cursor: None,
            query_hash: None,
            columns,
            query_hints: None,
            cell_clipping: None,
        }
    }

    /// The JSON form of the metadata.
    pub fn to_object(&self) -> (r: Object)
        ensures
            r@ == self@.entries(),
    {
        let mut object = Object::new();
        object.put("output_mode", json::string(self.output_mode.as_str()));
        object.put("summary_only", json::boolean(self.summary_only));
        object.put("row_count_total", json::size(self.row_count_total));
        object.put("row_count_returned", json::size(self.row_count_returned));
        object.put("truncated", json::boolean(self.truncated));
        object.put("next_cursor", json::string_or_null(&self.next_cursor));
        object.put("query_hash", json::string_or_null(&self.query_hash));
        object.put("columns", columns_to_json(&self.columns));
        match &self.query_hints {
            Some(hints) => {
                object.put("query_hints", json::strings(hints));
            },
            None => {},
        }
        match &self.cell_clipping {
            Some(clipping) => {
                object.put("cell_clipping", clipping.clone());
            },
            None => {},
        }
        object
    }
}

// ---------------------------------------------------------------------------
// Time.
// ---------------------------------------------------------------------------

/// `std::time::Instant`, a point in time; nothing is stated of it.
#[verifier::external_type_specification]
#[verifier::external_body]
pub struct ExInstant(Instant);

/// `Instant::elapsed`: the time since `started`. What the clock shows is not stated.
#[verifier::external_body]
fn time_since(started: Instant) -> (passed: Duration) {
    started.elapsed()
}

/// `Duration::as_millis`: the whole milliseconds of a span of time. A span comes only from
/// the clock, so nothing is stated of their number.
#[verifier::external_body]
fn millis_of(passed: Duration) -> (millis: u128) {
    passed.as_millis()
}

/// A number of milliseconds, cut to what 64 bits hold.
pub fn clamp_ms(millis: u128) -> (r: u64)
    ensures
        r == (if millis > u64::MAX {
            u64::MAX
        } else {
            millis as u64
        }),
{
    if millis > u64::MAX as u128 {
        u64::MAX
    } else {
        millis as u64
    }
}

/// The milliseconds since `started`.
pub fn elapsed_ms(started: Instant) -> (r: u64) {
    clamp_ms(millis_of(time_since(started)))
}

// ---------------------------------------------------------------------------
// Envelopes.
// ---------------------------------------------------------------------------

/// The metadata that holds only the elapsed time.
pub open spec fn elapsed_only(elapsed_ms: u64) -> Tree {
    Tree::Dict(json::fields().push(("elapsed_ms"@, Tree::Whole(elapsed_ms as int))))
}

/// `meta` with the elapsed time; metadata that is no object is dropped.
pub open spec fn with_elapsed(meta: Tree, elapsed_ms: u64) -> Tree {
    let entries = match meta {
        Tree::Dict(entries) => entries,
        _ => Seq::<(Seq<char>, Tree)>::empty(),
    };
    Tree::Dict(json::entered(entries, "elapsed_ms"@, Tree::Whole(elapsed_ms as int)))
}

/// The envelope of a success.
pub open spec fn success_tree(data: Tree, meta: Tree) -> Tree {
    Tree::Dict(json::fields()
        .push(("ok"@, Tree::Bool(true)))
        .push(("data"@, data))
        .push(("meta"@, meta)))
}

/// The metadata that holds only the elapsed time.
fn elapsed_meta(elapsed_ms: u64) -> (r: Json)
    ensures
        r@ == elapsed_only(elapsed_ms),
{
    let mut meta = Object::new();
    meta.put("elapsed_ms", json::whole(elapsed_ms));
    json::dict(meta)
}

/// The envelope of a success.
fn envelope(data: Json, meta: Json) -> (r: Json)
    ensures
        r@ == success_tree(data@, meta@),
{
    let mut object = Object::new();
    object.put("ok", json::boolean(true));
    object.put("data", data);
    object.put("meta", meta);
    json::dict(object)
}

/// The envelope of a success with nothing to say beside the data.
pub fn success(data: Json, elapsed_ms: u64) -> (r: Json)
    ensures
        r@ == success_tree(data@, elapsed_only(elapsed_ms)),
{
    envelope(data, elapsed_meta(elapsed_ms))
}

/// `meta` with the elapsed time.
pub fn attach_elapsed(meta: Json, elapsed_ms: u64) -> (r: Json)
    ensures
        r@ == with_elapsed(meta@, elapsed_ms),
{
    let mut map: Object = match meta {
        Json::Object(existing) => {
            proof {
                json::lemma_object_tree(existing);
            }
            existing
        },
        _ => Object::new(),
    };
    map.insert("elapsed_ms", json::whole(elapsed_ms));
    json::dict(map)
}

/// The envelope of a success with metadata.
pub fn success_with_meta(data: Json, meta: Json, elapsed_ms: u64) -> (r: Json)
    ensures
        r@ == success_tree(data@, with_elapsed(meta@, elapsed_ms)),
{
    envelope(data, attach_elapsed(meta, elapsed_ms))
}

/// The envelope of a table; a summary carries no data.
pub fn success_tabular(data: Option<Json>, tabular_meta: TabularMeta, elapsed_ms: u64) -> (r:
    Json)
    ensures
        r@ == success_tree(
            if tabular_meta.summary_only {
                Tree::Null
            } else {
                json::opt_tree(json::opt_view(data))
            },
            with_elapsed(Tree::Dict(tabular_meta@.entries()), elapsed_ms),
        ),
{
    let data: Json = if tabular_meta.summary_only {
        Json::Null
    } else {
        match data {
            Some(held) => held,
            None => Json::Null,
        }
    };
    let meta: Json = attach_elapsed(json::dict(tabular_meta.to_object()), elapsed_ms);
    envelope(data, meta)
}

/// The description of an error in its envelope.
pub open spec fn error_entries(err: Problem) -> Seq<(Seq<char>, Tree)> {
    let fixed = json::fields()
        .push(("code"@, Tree::Text(err.code_text())))
        .push(("reason"@, Tree::Text(err.reason_text())))
        .push(("message"@, Tree::Text(redacted(err.message_text()))))
        .push(("category"@, Tree::Text(err.category_text())));
    let status = match err {
        Problem::UpstreamApi(status, _) => Some(Tree::Whole(status as int)),
        _ => None,
    };
    let engine = match err.engine_code_text() {
        Some(code) => Some(Tree::Text(code)),
        None => None,
    };
    let detail = match err.detail_text() {
        Some(held) => Some(Tree::Text(held)),
        None => None,
    };
    let hint = match err.hint_text() {
        Some(held) => Some(Tree::Text(held)),
        None => None,
    };
    json::optional_entry(
        json::optional_entry(
            json::optional_entry(
                json::optional_entry(fixed, "status_code"@, status),
                "engine_code"@,
                engine,
            ),
            "detail"@,
            detail,
        ),
        "hint"@,
        hint,
    )
}

/// The envelope of an error.
pub open spec fn error_tree(err: Problem, elapsed_ms: u64) -> Tree {
    Tree::Dict(
        json::fields()
            .push(("ok"@, Tree::Bool(false)))
            .push(("error"@, Tree::Dict(error_entries(err))))
            .push(("meta"@, elapsed_only(elapsed_ms))),
    )
}

/// The envelope of an error; its message never shows a secret-bearing word.
pub fn error(err: AnalyticsError, elapsed_ms: u64) -> (r: Json)
    ensures
        r@ == error_tree(err@, elapsed_ms),
{
    let mut object = Object::new();
    object.put("code", json::string(err.code()));
    object.put("reason", json::string(err.reason()));
    let message: String = err.message();
    object.put("message", json::string(redact_secret_text(message.as_str()).as_str()));
    object.put("category", json::string(err.category()));
    match err.status_code() {
        Some(status_code) => {
            object.put("status_code", json::whole(status_code as u64));
        },
        None => {},
    }
    match err.engine_code() {
        Some(engine_code) => {
            object.put("engine_code", json::string(engine_code.as_str()));
        },
        None => {},
    }
    match err.detail() {
        Some(detail) => {
            object.put("detail", json::string(detail.as_str()));
        },
        None => {},
    }
    match err.hint() {
        Some(hint) => {
            object.put("hint", json::string(hint));
        },
        None => {},
    }
    let mut outer = Object::new();
    outer.put("ok", json::boolean(false));
    outer.put("error", json::dict(object));
    outer.put("meta", elapsed_meta(elapsed_ms));
    json::dict(outer)
}

// ---------------------------------------------------------------------------
// Redaction.
// ---------------------------------------------------------------------------

/// Whether a word looks as if it carried a secret.
pub open spec fn secret_bearing(word: Seq<char>) -> bool {
    let lower = text::lowered(word);
    ||| text::holds(lower, "refresh_token"@)
    ||| text::holds(lower, "access_token"@)
    ||| text::holds(lower, "client_secret"@)
    ||| text::holds(lower, "private_key"@)
    ||| text::begins(lower, "ya29."@)
    ||| text::begins(lower, "1//"@)
    ||| text::holds(lower, "1%2f%2f"@)
}

/// What is shown of a word.
pub open spec fn shown_word(word: Seq<char>) -> Seq<char> {
    if secret_bearing(word) {
        "[redacted]"@
    } else {
        word
    }
}

/// What is shown of the words of a line.
pub open spec fn shown_words(line: Seq<char>) -> Seq<Seq<char>> {
    Seq::new(text::words(line).len(), |i: int| shown_word(text::words(line)[i]))
}

/// What is shown of a line: its words, with single blanks between them.
pub open spec fn shown_line(line: Seq<char>) -> Seq<char> {
    text::joined(shown_words(line), " "@)
}

/// What is shown of the lines of a message.
pub open spec fn shown_lines(message: Seq<char>) -> Seq<Seq<char>> {
    Seq::new(text::lines(message).len(), |i: int| shown_line(text::lines(message)[i]))
}

/// A message with its secret-bearing words blotted out, line by line.
pub open spec fn redacted(message: Seq<char>) -> Seq<char> {
    text::joined(shown_lines(message), "\n"@)
}

/// Whether a word looks as if it carried a secret.
pub fn looks_secret_bearing(token: &str) -> (r: bool)
    ensures
        r == secret_bearing(token@),
{
    let lower: String = text::to_lower(token);
    let lower: &str = lower.as_str();
    text::contains(lower, "refresh_token") || text::contains(lower, "access_token")
        || text::contains(lower, "client_secret") || text::contains(lower, "private_key")
        || text::starts_with(lower, "ya29.") || text::starts_with(lower, "1//") || text::contains(
        lower,
        "1%2f%2f",
    )
}

/// A message with its secret-bearing words blotted out, line by line.
pub fn redact_secret_text(input: &str) -> (r: String)
    ensures
        r@ == redacted(input@),
{
    let lines: Vec<String> = text::lines_of(input);
    let mut out: Vec<String> = Vec::new();
    for i in 0..lines.len()
        invariant
            text::texts(lines@) == text::lines(input@),
            text::texts(out@) == shown_lines(input@).take(i as int),
    {
        let words: Vec<String> = text::words_of(lines[i].as_str());
        let ghost line = lines@[i as int]@;
        assert(line == text::texts(lines@)[i as int]);
        let mut shown: Vec<String> = Vec::new();
        for k in 0..words.len()
            invariant
                text::texts(words@) == text::words(line),
                text::texts(shown@) == shown_words(line).take(k as int),
        {
            let ghost before = shown@;
            assert(words@[k as int]@ == text::texts(words@)[k as int]);
            if looks_secret_bearing(words[k].as_str()) {
                shown.push("[redacted]".to_owned());
            } else {
                shown.push(words[k].clone());
            }
            assert(text::texts(shown@) =~= text::texts(before).push(shown@.last()@));
            assert(shown_words(line).take(k + 1) =~= shown_words(line).take(k as int).push(
                shown_words(line)[k as int],
            ));
        }
        assert(shown_words(line).take(words@.len() as int) =~= shown_words(line));
        let ghost before = out@;
        out.push(text::join(&shown, " "));
        assert(text::texts(out@) =~= text::texts(before).push(out@.last()@));
        assert(shown_lines(input@).take(i + 1) =~= shown_lines(input@).take(i as int).push(
            shown_lines(input@)[i as int],
        ));
    }
    assert(shown_lines(input@).take(lines@.len() as int) =~= shown_lines(input@));
    text::join(&out, "\n")
}

// ---------------------------------------------------------------------------
// Laws.
// ---------------------------------------------------------------------------

proof fn lemma_blot()
    ensures
        text::is_word("[redacted]"@),
        !secret_bearing("[redacted]"@),
{
    reveal_strlit("[redacted]");
    reveal_strlit("refresh_token");
    reveal_strlit("access_token");
    reveal_strlit("client_secret");
    reveal_strlit("private_key");
    reveal_strlit("ya29.");
    reveal_strlit("1//");
    reveal_strlit("1%2f%2f");
    let blot = "[redacted]"@;
    let lower = text::lowered(blot);
    assert(lower[0] == '[');
    if text::begins(lower, "ya29."@) {
        assert(lower.take(5)[0] == "ya29."@[0]);
    }
    if text::begins(lower, "1//"@) {
        assert(lower.take(3)[0] == "1//"@[0]);
    }
    assert forall|i: int| 0 <= i < lower.len() implies lower[i] != '1' by {
        assert(blot[i] != '1');
    }
    if text::holds(lower, "1%2f%2f"@) {
        let at = choose|at: int| #[trigger] text::stands_at(lower, "1%2f%2f"@, at);
        assert(lower.subrange(at, at + 7)[0] == lower[at]);
    }
}

proof fn lemma_joined_has_no(parts: Seq<Seq<char>>, mark: Seq<char>, ch: char)
    requires
        !mark.contains(ch),
        forall|i: int| 0 <= i < parts.len() ==> !(#[trigger] parts[i]).contains(ch),
    ensures
        !text::joined(parts, mark).contains(ch),
    decreases parts.len(),
{
    if parts.len() > 1 {
        let before = parts.drop_last();
        assert forall|i: int| 0 <= i < before.len() implies !(#[trigger] before[i]).contains(
            ch,
        ) by {
            assert(before[i] == parts[i]);
        }
        lemma_joined_has_no(before, mark, ch);
        let a = text::joined(before, mark);
        let all = text::joined(parts, mark);
        assert(!parts[parts.len() - 1].contains(ch));
        if all.contains(ch) {
            let k = choose|k: int| 0 <= k < all.len() && all[k] == ch;
            if k < a.len() {
                assert(a[k] == ch);
            } else if k < a.len() + mark.len() {
                assert(mark[k - a.len()] == ch);
            } else {
                assert(parts.last()[k - a.len() - mark.len()] == ch);
            }
        }
    } else if parts.len() == 1 {
        assert(!parts[0].contains(ch));
    }
}

/// Redaction keeps the lines of a message apart, shows each line by its words, and shows
/// no word that looks as if it carried a secret.
pub proof fn law_redaction_hides_secrets(message: Seq<char>)
    requires
        text::lines(message).len() > 0,
    ensures
        text::split(redacted(message), seq!['\n']) == shown_lines(message),
        forall|i: int|
            0 <= i < shown_lines(message).len() ==> text::words(#[trigger] shown_lines(message)[i])
                == shown_words(text::lines(message)[i]),
        forall|i: int, j: int|
            #![trigger text::words(shown_lines(message)[i])[j]]
            0 <= i < shown_lines(message).len() && 0 <= j < text::words(
                shown_lines(message)[i],
            ).len() ==> !secret_bearing(text::words(shown_lines(message)[i])[j]),
{
    reveal_strlit("\n");
    reveal_strlit(" ");
    assert("\n"@ =~= seq!['\n']);
    assert(" "@ =~= seq![' ']);
    lemma_blot();
    let lines = shown_lines(message);
    assert forall|i: int| 0 <= i < lines.len() implies text::words(#[trigger] lines[i])
        == shown_words(text::lines(message)[i]) && !lines[i].contains('\n') by {
        let line = text::lines(message)[i];
        let shown = shown_words(line);
        text::law_words_are_words(line);
        assert forall|k: int| 0 <= k < shown.len() implies text::is_word(#[trigger] shown[k])
            && !shown[k].contains('\n') by {
            assert(text::is_word(text::words(line)[k]));
            if shown[k].contains('\n') {
                let m = choose|m: int| 0 <= m < shown[k].len() && shown[k][m] == '\n';
                assert(text::is_space(shown[k][m]));
            }
        }
        text::law_words_of_joined(shown, ' ');
        assert(!seq![' '].contains('\n'));
        lemma_joined_has_no(shown, seq![' '], '\n');
    }
    text::law_split_of_joined(lines, '\n');
}

/// The keys of envelopes differ.
proof fn lemma_envelope_keys()
    ensures
        "ok"@ != "data"@,
        "ok"@ != "meta"@,
        "ok"@ != "error"@,
        "data"@ != "meta"@,
        "data"@ != "error"@,
        "error"@ != "meta"@,
{
    reveal_strlit("ok");
    reveal_strlit("data");
    reveal_strlit("meta");
    reveal_strlit("error");
    assert("ok"@.len() == 2 && "data"@.len() == 4 && "meta"@.len() == 4 && "error"@.len() == 5);
    assert("data"@[0] == 'd');
    assert("meta"@[0] == 'm');
}

/// What is read in an object of three entries.
proof fn lemma_three(a: (Seq<char>, Tree), b: (Seq<char>, Tree), c: (Seq<char>, Tree))
    ensures
        forall|key: Seq<char>| #[trigger]
            json::lookup(json::fields().push(a).push(b).push(c), key) == (if key == a.0 {
                Some(a.1)
            } else if key == b.0 {
                Some(b.1)
            } else if key == c.0 {
                Some(c.1)
            } else {
                None
            }),
{
    assert forall|key: Seq<char>| #[trigger]
        json::lookup(json::fields().push(a).push(b).push(c), key) == (if key == a.0 {
            Some(a.1)
        } else if key == b.0 {
            Some(b.1)
        } else if key == c.0 {
            Some(c.1)
        } else {
            None
        }) by {
        json::lemma_lookup_push(json::fields(), a.0, a.1, key);
        json::lemma_lookup_push(json::fields().push(a), b.0, b.1, key);
        json::lemma_lookup_push(json::fields().push(a).push(b), c.0, c.1, key);
    }
}

/// The envelope of a success says so, carries the data, and says how long it took beside
/// everything else that its metadata says.
pub proof fn law_successes_say_so(data: Tree, meta: Seq<(Seq<char>, Tree)>, elapsed_ms: u64)
    ensures
        success_tree(data, with_elapsed(Tree::Dict(meta), elapsed_ms)).field("ok"@) == Some(
            Tree::Bool(true),
        ),
        success_tree(data, with_elapsed(Tree::Dict(meta), elapsed_ms)).field("data"@) == Some(data),
        success_tree(data, with_elapsed(Tree::Dict(meta), elapsed_ms)).field("error"@) is None,
        success_tree(data, with_elapsed(Tree::Dict(meta), elapsed_ms)).field("meta"@) == Some(
            with_elapsed(Tree::Dict(meta), elapsed_ms),
        ),
        with_elapsed(Tree::Dict(meta), elapsed_ms).field("elapsed_ms"@) == Some(
            Tree::Whole(elapsed_ms as int),
        ),
        forall|key: Seq<char>|
            key != "elapsed_ms"@ ==> #[trigger] with_elapsed(Tree::Dict(meta), elapsed_ms).field(key)
                == json::lookup(meta, key),
{
    lemma_envelope_keys();
    let all = with_elapsed(Tree::Dict(meta), elapsed_ms);
    lemma_three(("ok"@, Tree::Bool(true)), ("data"@, data), ("meta"@, all));
    json::law_entered_values_are_found(
        meta,
        "elapsed_ms"@,
        Tree::Whole(elapsed_ms as int),
        "elapsed_ms"@,
    );
    assert forall|key: Seq<char>| key != "elapsed_ms"@ implies #[trigger] all.field(key)
        == json::lookup(meta, key) by {
        json::law_entered_values_are_found(
            meta,
            "elapsed_ms"@,
            Tree::Whole(elapsed_ms as int),
            key,
        );
    }
}

/// The envelope of an error says so, carries no data, and describes the error: by its code,
/// its reason, its redacted message and its category.
pub proof fn law_errors_say_so(err: Problem, elapsed_ms: u64)
    ensures
        error_tree(err, elapsed_ms).field("ok"@) == Some(Tree::Bool(false)),
        error_tree(err, elapsed_ms).field("data"@) is None,
        error_tree(err, elapsed_ms).field("error"@) == Some(Tree::Dict(error_entries(err))),
        error_tree(err, elapsed_ms).field("meta"@) == Some(elapsed_only(elapsed_ms)),
        json::lookup(error_entries(err), "code"@) == Some(Tree::Text(err.code_text())),
        json::lookup(error_entries(err), "reason"@) == Some(Tree::Text(err.reason_text())),
        json::lookup(error_entries(err), "message"@) == Some(
            Tree::Text(redacted(err.message_text())),
        ),
        json::lookup(error_entries(err), "category"@) == Some(Tree::Text(err.category_text())),
{
    lemma_envelope_keys();
    lemma_three(
        ("ok"@, Tree::Bool(false)),
        ("error"@, Tree::Dict(error_entries(err))),
        ("meta"@, elapsed_only(elapsed_ms)),
    );
    reveal_strlit("code");
    reveal_strlit("reason");
    reveal_strlit("message");
    reveal_strlit("category");
    let all = error_entries(err);
    assert(all[0].0 == "code"@ && all[1].0 == "reason"@ && all[2].0 == "message"@ && all[3].0
        == "category"@);
    reveal_with_fuel(json::lookup, 5);
    assert(all.drop_first()[0] == all[1]);
    assert(all.drop_first().drop_first()[0] == all[2]);
    assert(all.drop_first().drop_first().drop_first()[0] == all[3]);
}

/// A column is told by its name, and by what is known of it.
pub proof fn law_columns_are_told_by_name(columns: Seq<Column>, i: int)
    requires
        0 <= i < columns.len(),
    ensures
        column_trees(columns) matches Tree::List(items) && items.len() == columns.len()
            && items[i].field("name"@) == Some(Tree::Text(columns[i].name)) && items[i].field(
            "logical_type"@,
        ) == (match columns[i].logical_type {
            Some(logical_type) => Some(Tree::Text(logical_type)),
            None => None,
        }) && items[i].field("nullable"@) == (match columns[i].nullable {
            Some(nullable) => Some(Tree::Bool(nullable)),
            None => None,
        }),
{
    broadcast use json::group_found;

    reveal_strlit("name");
    assert("name"@.len() == 4);
    reveal_strlit("logical_type");
    assert("logical_type"@.len() == 12);
    reveal_strlit("nullable");
    assert("nullable"@.len() == 8);
}

/// What is told of a table stands under the name of what it is.
pub proof fn law_tables_are_told_by_name(meta: TableMeta)
    ensures
        json::lookup(meta.entries(), "output_mode"@) == Some(
            Tree::Text(
                match meta.output_mode {
                    OutputMode::Rows => "rows"@,
                    OutputMode::Tuples => "tuples"@,
                    OutputMode::Scalar => "scalar"@,
                    OutputMode::Compact => "compact"@,
                },
            ),
        ),
        json::lookup(meta.entries(), "summary_only"@) == Some(Tree::Bool(meta.summary_only)),
        json::lookup(meta.entries(), "row_count_total"@) == Some(
            Tree::Whole(meta.row_count_total as int),
        ),
        json::lookup(meta.entries(), "row_count_returned"@) == Some(
            Tree::Whole(meta.row_count_returned as int),
        ),
        json::lookup(meta.entries(), "truncated"@) == Some(Tree::Bool(meta.truncated)),
        json::lookup(meta.entries(), "next_cursor"@) == Some(
            match meta.next_cursor {
                Some(cursor) => Tree::Text(cursor),
                None => Tree::Null,
            },
        ),
        json::lookup(meta.entries(), "query_hash"@) == Some(
            match meta.query_hash {
                Some(hash) => Tree::Text(hash),
                None => Tree::Null,
            },
        ),
        json::lookup(meta.entries(), "columns"@) == Some(column_trees(meta.columns)),
        json::lookup(meta.entries(), "query_hints"@) == (match meta.query_hints {
            Some(hints) => Some(
                Tree::List(Seq::new(hints.len(), |i: int| Tree::Text(hints[i]))),
            ),
            None => None,
        }),
        json::lookup(meta.entries(), "cell_clipping"@) == meta.cell_clipping,
{
    broadcast use json::group_found;

    reveal_strlit("output_mode");
    assert("output_mode"@.len() == 11);
    reveal_strlit("summary_only");
    assert("summary_only"@.len() == 12);
    reveal_strlit("row_count_total");
    assert("row_count_total"@.len() == 15);
    reveal_strlit("row_count_returned");
    assert("row_count_returned"@.len() == 18);
    reveal_strlit("truncated");
    assert("truncated"@.len() == 9);
    reveal_strlit("next_cursor");
    assert("next_cursor"@.len() == 11);
    reveal_strlit("query_hash");
    assert("query_hash"@.len() == 10);
    reveal_strlit("columns");
    assert("columns"@.len() == 7);
    reveal_strlit("query_hints");
    assert("query_hints"@.len() == 11);
    reveal_strlit("cell_clipping");
    assert("cell_clipping"@.len() == 13);
    assert("output_mode"@[0] != "next_cursor"@[0]);
    assert("output_mode"@[0] != "query_hints"@[0]);
    assert("next_cursor"@[0] != "query_hints"@[0]);
}

/// What is told of an error beside its message stands under its own name, where there is any.
pub proof fn law_errors_tell_what_is_known(err: Problem)
    ensures
        json::lookup(error_entries(err), "status_code"@) == (match err {
            Problem::UpstreamApi(status, message) => Some(Tree::Whole(status as int)),
            _ => None,
        }),
        json::lookup(error_entries(err), "engine_code"@) == (match err.engine_code_text() {
            Some(code) => Some(Tree::Text(code)),
            None => None,
        }),
        json::lookup(error_entries(err), "detail"@) == (match err.detail_text() {
            Some(detail) => Some(Tree::Text(detail)),
            None => None,
        }),
        json::lookup(error_entries(err), "hint"@) == (match err.hint_text() {
            Some(hint) => Some(Tree::Text(hint)),
            None => None,
        }),
{
    broadcast use json::group_found;

    reveal_strlit("code");
    assert("code"@.len() == 4);
    reveal_strlit("reason");
    assert("reason"@.len() == 6);
    reveal_strlit("message");
    assert("message"@.len() == 7);
    reveal_strlit("category");
    assert("category"@.len() == 8);
    reveal_strlit("status_code");
    assert("status_code"@.len() == 11);
    reveal_strlit("engine_code");
    assert("engine_code"@.len() == 11);
    reveal_strlit("detail");
    assert("detail"@.len() == 6);
    reveal_strlit("hint");
    assert("hint"@.len() == 4);
    assert("code"@[0] != "hint"@[0]);
    assert("reason"@[0] != "detail"@[0]);
    assert("status_code"@[0] != "engine_code"@[0]);
}

/// A word is hidden exactly where it holds the name of a secret, in whatever case, or begins as
/// a token does; every other word stays as it is.
pub proof fn law_words_with_secrets_are_hidden(word: Seq<char>)
    ensures
        text::holds(text::lowered(word), "refresh_token"@) || text::holds(
            text::lowered(word),
            "access_token"@,
        ) || text::holds(text::lowered(word), "client_secret"@) || text::holds(
            text::lowered(word),
            "private_key"@,
        ) || text::stands_at(text::lowered(word), "ya29."@, 0) || text::stands_at(
            text::lowered(word),
            "1//"@,
            0,
        ) || text::holds(text::lowered(word), "1%2f%2f"@) ==> shown_word(word) == "[redacted]"@,
        !(text::holds(text::lowered(word), "refresh_token"@) || text::holds(
            text::lowered(word),
            "access_token"@,
        ) || text::holds(text::lowered(word), "client_secret"@) || text::holds(
            text::lowered(word),
            "private_key"@,
        ) || text::stands_at(text::lowered(word), "ya29."@, 0) || text::stands_at(
            text::lowered(word),
            "1//"@,
            0,
        ) || text::holds(text::lowered(word), "1%2f%2f"@)) ==> shown_word(word) == word,
{
    let lower = text::lowered(word);
    assert("ya29."@.len() <= lower.len() ==> lower.subrange(0, "ya29."@.len() as int)
        =~= lower.take("ya29."@.len() as int));
    assert("1//"@.len() <= lower.len() ==> lower.subrange(0, "1//"@.len() as int) =~= lower.take(
        "1//"@.len() as int,
    ));
}

/// A message that is shown keeps its lines, and its words with one blank between each two of
/// them.
pub proof fn law_shown_messages_keep_their_words(
    message: Seq<char>,
    line: Seq<char>,
    word: Seq<char>,
)
    requires
        word.len() > 0,
        forall|i: int| 0 <= i < word.len() ==> !text::is_space(#[trigger] word[i]),
        !secret_bearing(word),
    ensures
        shown_words(line).len() == text::words(line).len(),
        shown_line(line) == text::joined(shown_words(line), seq![' ']),
        redacted(message) == text::joined(shown_lines(message), seq!['\n']),
        redacted(word) == word,
{
    reveal_strlit(" ");
    reveal_strlit("\n");
    assert(" "@ =~= seq![' ']);
    assert("\n"@ =~= seq!['\n']);
    assert forall|i: int| 0 <= i < word.len() implies word[i] != '\n' by {
        assert(!text::is_space(word[i]));
    }
    text::law_one_word_is_one_line(word);
    assert(shown_words(word) =~= seq![word]);
    text::law_joined_texts_stand_in_order(seq![word], word, " "@);
    assert(shown_line(word) == word);
    assert(shown_lines(word) =~= seq![word]);
    text::law_joined_texts_stand_in_order(seq![word], word, "\n"@);
}

} // verus!
