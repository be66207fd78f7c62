//! SQL text: identifiers, literals and the queries that wrap another query.

use vstd::prelude::*;
use vstd::string::*;

use crate::error;
use crate::error::{AnalyticsError, Problem};
use crate::ga_client;
use crate::text;

verus! {

pub const SCRATCHPAD_QUERY_ALIAS: &'static str = "ga4_scratchpad_query";

pub const MAX_TABLE_NAME_BYTES: usize = 63;

// ---------------------------------------------------------------------------
// Literals and quoted identifiers.
// ---------------------------------------------------------------------------

/// A text as it stands between the quotes of a literal.
pub fn escape_sql_literal(raw: &str) -> (r: String)
    ensures
        r@ == text::doubled(raw@, '\''),
{
    text::double_marks(raw, '\'')
}

/// An identifier in double quotes.
pub open spec fn quoted_identifier(identifier: Seq<char>) -> Seq<char> {
    "\""@ + text::doubled(identifier, '"') + "\""@
}

/// An identifier in double quotes.
pub fn quote_sql_identifier(identifier: &str) -> (r: String)
    ensures
        r@ == quoted_identifier(identifier@),
{
    let mut r: String = "\"".to_owned();
    r.append(text::double_marks(identifier, '"').as_str());
    r.append("\"");
    r
}

// ---------------------------------------------------------------------------
// Queries around a query.
// ---------------------------------------------------------------------------

/// A text without semicolons at its end, nor white space before or after them.
pub open spec fn without_semicolons(sql: Seq<char>) -> Seq<char>
    decreases sql.len(),
{
    if sql.len() > 0 && sql.last() == ';' {
        let next = text::trim_end(sql.drop_last());
        if next.len() < sql.len() {
            without_semicolons(next)
        } else {
            next
        }
    } else {
        sql
    }
}

/// A query as it stands inside another one.
pub open spec fn inner_sql(sql: Seq<char>) -> Seq<char> {
    without_semicolons(text::trim(sql))
}

proof fn lemma_trim_end_len(held: Seq<char>)
    ensures
        text::trim_end(held).len() <= held.len(),
    decreases held.len(),
{
    if held.len() > 0 && text::is_space(held.last()) {
        lemma_trim_end_len(held.drop_last());
    }
}

/// A query as it stands inside another one.
pub fn trim_sql_for_subquery(sql: &str) -> (r: String)
    ensures
        r@ == inner_sql(sql@),
{
    let mut trimmed: String = text::trimmed(sql);
    proof {
        reveal_strlit(";");
    }
    loop
        invariant
            ";"@ =~= seq![';'],
            without_semicolons(trimmed@) == inner_sql(sql@),
        ensures
            trimmed@ == inner_sql(sql@),
        decreases trimmed@.len(),
    {
        let ghost before = trimmed@;
        match text::strip_suffix(trimmed.as_str(), ";") {
            Some(next) => {
                assert(next@ =~= before.drop_last());
                assert(before.skip(before.len() - 1)[0] == ';');
                proof {
                    lemma_trim_end_len(before.drop_last());
                }
                trimmed = text::end_trimmed(next.as_str());
            },
            None => {
                proof {
                    if before.len() > 0 && before.last() == ';' {
                        assert(before.skip(before.len() - 1) =~= ";"@);
                    }
                }
                break;
            },
        }
    }
    trimmed
}

/// Whether a query can stand inside another one: it begins with `SELECT` or `WITH`.
pub open spec fn can_wrap(sql: Seq<char>) -> bool {
    let upper = text::uppered(inner_sql(sql));
    text::begins(upper, "SELECT"@) || text::begins(upper, "WITH"@)
}

/// Whether a query can stand inside another one.
pub fn supports_wrapped_pagination(sql: &str) -> (r: bool)
    ensures
        r == can_wrap(sql@),
{
    let upper: String = text::to_upper(trim_sql_for_subquery(sql).as_str());
    text::starts_with(upper.as_str(), "SELECT") || text::starts_with(upper.as_str(), "WITH")
}

/// The query for the number of rows of a query.
pub open spec fn row_count_sql(sql: Seq<char>) -> Seq<char> {
    "SELECT COUNT(*) AS row_count_total FROM ("@ + inner_sql(sql) + ") AS "@
        + SCRATCHPAD_QUERY_ALIAS@
}

/// The query for the number of rows of a query.
pub fn wrap_query_for_row_count(sql: &str) -> (r: String)
    ensures
        r@ == row_count_sql(sql@),
{
    error::described(
        "SELECT COUNT(*) AS row_count_total FROM (",
        trim_sql_for_subquery(sql).as_str(),
        ") AS ",
        SCRATCHPAD_QUERY_ALIAS,
    )
}

/// The query for one page of the rows of a query.
pub open spec fn page_sql(sql: Seq<char>, offset: u64, page_size: u64) -> Seq<char> {
    "SELECT * FROM ("@ + inner_sql(sql) + ") AS "@ + SCRATCHPAD_QUERY_ALIAS@ + " LIMIT "@
        + text::decimal(page_size as nat) + " OFFSET "@ + text::decimal(offset as nat)
}

/// The query for one page of the rows of a query.
pub fn wrap_query_for_page(sql: &str, offset: u64, page_size: u64) -> (r: String)
    ensures
        r@ == page_sql(sql@, offset, page_size),
{
    let mut r: String = error::described(
        "SELECT * FROM (",
        trim_sql_for_subquery(sql).as_str(),
        ") AS ",
        SCRATCHPAD_QUERY_ALIAS,
    );
    r.append(" LIMIT ");
    r.append(text::decimal_text(page_size).as_str());
    r.append(" OFFSET ");
    r.append(text::decimal_text(offset).as_str());
    r
}

// ---------------------------------------------------------------------------
// Plain identifiers.
// ---------------------------------------------------------------------------

/// A text in lower case with one underscore for each run of other characters than
/// letters and digits.
pub open spec fn squashed(raw: Seq<char>) -> Seq<char>
    decreases raw.len(),
{
    if raw.len() == 0 {
        raw
    } else {
        let before = squashed(raw.drop_last());
        if text::is_alnum(raw.last()) {
            before.push(text::lower(raw.last()))
        } else if before.len() > 0 && before.last() == '_' {
            before
        } else {
            before.push('_')
        }
    }
}

/// A text without the underscore that it begins with.
pub open spec fn without_first_mark(raw: Seq<char>) -> Seq<char> {
    if raw.len() > 0 && raw[0] == '_' {
        raw.drop_first()
    } else {
        raw
    }
}

/// A text without the underscore that it ends with.
pub open spec fn without_last_mark(raw: Seq<char>) -> Seq<char> {
    if raw.len() > 0 && raw.last() == '_' {
        raw.drop_last()
    } else {
        raw
    }
}

/// The words of a text, in lower case, with an underscore between each two.
pub open spec fn snake_words(raw: Seq<char>) -> Seq<char> {
    without_last_mark(without_first_mark(squashed(text::trim(raw))))
}

/// A name that does not begin with a digit.
pub open spec fn led(name: Seq<char>) -> Seq<char> {
    if name.len() > 0 && text::is_digit(name[0]) {
        seq!['_'] + name
    } else {
        name
    }
}

/// The identifier for a name; `fallback` where the name has no letter and no digit.
pub open spec fn identifier_of(raw: Seq<char>, fallback: Seq<char>) -> Seq<char> {
    let words = snake_words(raw);
    led(
        if words.len() == 0 {
            fallback
        } else {
            words
        },
    )
}

/// The identifier for a name.
pub fn normalize_sql_identifier(raw: &str, fallback: &str) -> (r: String)
    ensures
        r@ == identifier_of(raw@, fallback@),
{
    let chars: Vec<char> = text::chars_of(text::trimmed(raw).as_str());
    let mut kept: Vec<char> = Vec::new();
    let n: usize = chars.len();
    assert(chars@.take(0) =~= Seq::<char>::empty());
    for i in 0..n
        invariant
            n == chars@.len(),
            kept@ == squashed(chars@.take(i as int)),
    {
        assert(chars@.take(i + 1).drop_last() =~= chars@.take(i as int));
        let ch: char = chars[i];
        if text::alnum_char(ch) {
            kept.push(text::lower_char(ch));
        } else if kept.len() == 0 || kept[kept.len() - 1] != '_' {
            kept.push('_');
        }
    }
    assert(chars@.take(n as int) =~= chars@);
    let mut from: usize = 0;
    let mut to: usize = kept.len();
    if to > 0 && kept[0] == '_' {
        from = 1;
    }
    assert(kept@.subrange(from as int, to as int) =~= without_first_mark(kept@));
    if to > from && kept[to - 1] == '_' {
        assert(kept@.subrange(from as int, to as int).last() == '_');
        to = to - 1;
    }
    assert(kept@.subrange(from as int, to as int) =~= without_last_mark(
        without_first_mark(kept@),
    ));
    let words: String = text::text_between(kept.as_slice(), from, to);
    let name: String = if words.as_str().is_empty() {
        fallback.to_owned()
    } else {
        words
    };
    let shown: Vec<char> = text::chars_of(name.as_str());
    if shown.len() > 0 && text::digit_char(shown[0]) {
        proof {
            reveal_strlit("_");
        }
        assert("_"@ =~= seq!['_']);
        return error::labelled("_", name.as_str());
    }
    name
}

/// The identifier for a table, or what is wrong with its name.
pub open spec fn table_identifier(raw: Seq<char>) -> Result<Seq<char>, Problem> {
    let name = identifier_of(raw, "table"@);
    if text::byte_len(name) > MAX_TABLE_NAME_BYTES {
        Err(
            Problem::InvalidArgument(
                "table_name"@,
                "normalized table name must be <= 63 characters"@,
            ),
        )
    } else {
        Ok(name)
    }
}

/// The identifier for a table.
pub fn normalize_table_identifier(raw: &str) -> (r: Result<String, AnalyticsError>)
    ensures
        ga_client::text_result(r) == table_identifier(raw@),
{
    let normalized: String = normalize_sql_identifier(raw, "table");
    if text::bytes_in(normalized.as_str()) > MAX_TABLE_NAME_BYTES {
        return Err(
            AnalyticsError::invalid("table_name", "normalized table name must be <= 63 characters"),
        );
    }
    Ok(normalized)
}

// ---------------------------------------------------------------------------
// Names that occur more than once.
// ---------------------------------------------------------------------------

/// How often `name` occurs among `names`.
pub open spec fn occurrences(names: Seq<Seq<char>>, name: Seq<char>) -> nat
    decreases names.len(),
{
    if names.len() == 0 {
        0
    } else {
        occurrences(names.drop_last(), name) + if names.last() == name {
            1nat
        } else {
            0nat
        }
    }
}

/// The name for `base` after the names for `earlier`: with a number behind it where the
/// same base came before.
pub open spec fn distinct_name(earlier: Seq<Seq<char>>, base: Seq<char>) -> Seq<char> {
    let count = occurrences(earlier, base);
    if count == 0 {
        base
    } else {
        base + "_"@ + text::decimal(count + 1)
    }
}

proof fn lemma_occurrences_bound(names: Seq<Seq<char>>, name: Seq<char>)
    ensures
        occurrences(names, name) <= names.len(),
    decreases names.len(),
{
    if names.len() > 0 {
        lemma_occurrences_bound(names.drop_last(), name);
    }
}

fn count_of(names: &[String], name: &str) -> (r: usize)
    ensures
        r == occurrences(text::texts(names@), name@),
        r <= names@.len(),
{
    let ghost all = text::texts(names@);
    let mut count: usize = 0;
    assert(all.take(0) =~= Seq::<Seq<char>>::empty());
    for i in 0..names.len()
        invariant
            all == text::texts(names@),
            count == occurrences(all.take(i as int), name@),
            count <= i,
    {
        assert(all.take(i + 1).drop_last() =~= all.take(i as int));
        assert(all[i as int] == names@[i as int]@);
        if text::same_text(names[i].as_str(), name) {
            count = count + 1;
        }
    }
    assert(all.take(names@.len() as int) =~= all);
    count
}

/// Takes `base` among the bases that came before, and gives the name for it.
pub fn next_mapping_target(bases: &mut Vec<String>, base: &str) -> (r: String)
    ensures
        text::texts(final(bases)@) == text::texts(old(bases)@).push(base@),
        r@ == distinct_name(text::texts(old(bases)@), base@),
{
    let count: usize = count_of(bases.as_slice(), base);
    bases.push(base.to_owned());
    assert(text::texts(bases@) =~= text::texts(old(bases)@).push(base@));
    if count == 0 {
        base.to_owned()
    } else {
        let mut r: String = base.to_owned();
        r.append("_");
        let total: usize = bases.len();
        assert(count < total);
        r.append(text::decimal_text(count as u64 + 1).as_str());
        r
    }
}

/// The identifiers for the columns of a query, before names that occur more than once
/// are told apart.
pub open spec fn column_bases(raw: Seq<Seq<char>>) -> Seq<Seq<char>> {
    Seq::new(
        raw.len(),
        |i: int| identifier_of(raw[i], "column_"@ + text::decimal((i + 1) as nat)),
    )
}

/// The names of the columns of a query.
pub open spec fn column_names(raw: Seq<Seq<char>>) -> Seq<Seq<char>> {
    let bases = column_bases(raw);
    Seq::new(raw.len(), |i: int| distinct_name(bases.take(i), bases[i]))
}

/// The names of the columns of a query.
pub fn dedupe_column_names(raw: &[String]) -> (r: Vec<String>)
    ensures
        text::texts(r@) == column_names(text::texts(raw@)),
{
    let ghost bases = column_bases(text::texts(raw@));
    let mut seen: Vec<String> = Vec::new();
    let mut r: Vec<String> = Vec::new();
    assert(text::texts(seen@) =~= bases.take(0));
    let n: usize = raw.len();
    for i in 0..n
        invariant
            n == raw@.len(),
            bases == column_bases(text::texts(raw@)),
            r@.len() == i,
            text::texts(seen@) == bases.take(i as int),
            forall|j: int|
                0 <= j < i ==> (#[trigger] r@[j])@ == distinct_name(bases.take(j), bases[j]),
    {
        assert(text::texts(raw@)[i as int] == raw@[i as int]@);
        let fallback: String = error::labelled(
            "column_",
            text::decimal_text(i as u64 + 1).as_str(),
        );
        let base: String = normalize_sql_identifier(raw[i].as_str(), fallback.as_str());
        assert(base@ == bases[i as int]);
        let name: String = next_mapping_target(&mut seen, base.as_str());
        assert(bases.take(i + 1) =~= bases.take(i as int).push(bases[i as int]));
        r.push(name);
    }
    assert(text::texts(r@) =~= column_names(text::texts(raw@)));
    r
}

// ---------------------------------------------------------------------------
// Laws.
// ---------------------------------------------------------------------------

/// Whether a character may stand in an identifier.
pub open spec fn is_identifier_char(ch: char) -> bool {
    text::is_lower(ch) || text::is_digit(ch) || ch == '_'
}

/// Whether a text is an identifier that needs no quotes.
pub open spec fn is_plain_identifier(name: Seq<char>) -> bool {
    &&& name.len() > 0
    &&& !text::is_digit(name[0])
    &&& forall|i: int| 0 <= i < name.len() ==> is_identifier_char(#[trigger] name[i])
}

proof fn lemma_squashed_chars(raw: Seq<char>)
    ensures
        forall|i: int|
            0 <= i < squashed(raw).len() ==> is_identifier_char(#[trigger] squashed(raw)[i]),
    decreases raw.len(),
{
    if raw.len() > 0 {
        lemma_squashed_chars(raw.drop_last());
        let before = squashed(raw.drop_last());
        assert forall|i: int| 0 <= i < squashed(raw).len() implies is_identifier_char(
            #[trigger] squashed(raw)[i],
        ) by {
            if i < before.len() {
                assert(squashed(raw)[i] == before[i]);
            } else {
                assert(squashed(raw)[i] == '_' || squashed(raw)[i] == text::lower(raw.last()));
            }
        }
    }
}

/// Whatever a column or a table is called, its identifier has only lower-case letters,
/// digits and underscores, and does not begin with a digit.
pub proof fn law_identifiers_are_plain(raw: Seq<char>, fallback: Seq<char>)
    requires
        fallback.len() > 0,
        forall|i: int| 0 <= i < fallback.len() ==> is_identifier_char(#[trigger] fallback[i]),
    ensures
        is_plain_identifier(identifier_of(raw, fallback)),
{
    let all = squashed(text::trim(raw));
    lemma_squashed_chars(text::trim(raw));
    let first = without_first_mark(all);
    let words = snake_words(raw);
    assert forall|i: int| 0 <= i < words.len() implies is_identifier_char(
        #[trigger] words[i],
    ) by {
        assert(words[i] == first[i]);
        if all.len() > 0 && all[0] == '_' {
            assert(first[i] == all[i + 1]);
        } else {
            assert(first[i] == all[i]);
        }
    }
}

/// An identifier with single underscores between its words is its own identifier; one that
/// begins with an underscore has a digit after it.
pub proof fn law_identifiers_are_stable(name: Seq<char>, fallback: Seq<char>)
    requires
        is_plain_identifier(name),
        name[0] == '_' ==> name.len() > 1 && text::is_digit(name[1]),
        name.last() != '_',
        forall|i: int| 0 <= i < name.len() - 1 ==> !(#[trigger] name[i] == '_' && name[i + 1] == '_'),
    ensures
        identifier_of(name, fallback) == name,
{
    assert(text::trim(name) == name) by {
        assert(is_identifier_char(name[0]));
        assert(is_identifier_char(name[name.len() - 1]));
        assert(!text::is_space(name[0]));
        assert(!text::is_space(name.last()));
        assert(text::trim_start(name) == name);
    }
    lemma_squashed_plain(name);
    if name[0] == '_' {
        let words = name.drop_first();
        assert(words.last() == name.last());
        assert(words[0] == name[1]);
        assert(seq!['_'] + words =~= name);
    }
}

/// Whatever a column or a table is called, the identifier that was made for it is its own
/// identifier.
pub proof fn law_made_identifiers_are_stable(
    raw: Seq<char>,
    fallback: Seq<char>,
    other: Seq<char>,
)
    requires
        fallback.len() > 0,
        snake_words(fallback) == fallback,
    ensures
        identifier_of(identifier_of(raw, fallback), other) == identifier_of(raw, fallback),
{
    let named = if snake_words(raw).len() > 0 {
        raw
    } else {
        fallback
    };
    let words = snake_words(named);
    let name = identifier_of(raw, fallback);
    assert(name == led(words));
    lemma_snake_words(named);
    let lead: int = name.len() - words.len();
    assert forall|i: int| 0 <= i < name.len() implies is_identifier_char(#[trigger] name[i]) by {
        if i >= lead {
            assert(name[i] == words[i - lead]);
        }
    }
    assert forall|i: int| 0 <= i < name.len() - 1 implies !(#[trigger] name[i] == '_' && name[i + 1]
        == '_') by {
        assert(name[i + 1] == words[i + 1 - lead]);
        if i >= lead {
            assert(name[i] == words[i - lead]);
        }
    }
    assert(name.last() == words.last());
    law_identifiers_are_stable(name, other);
}

/// The words of a text have single underscores between them and none at their ends.
proof fn lemma_snake_words(raw: Seq<char>)
    ensures
        snake_words(raw).len() > 0 ==> snake_words(raw)[0] != '_' && snake_words(raw).last() != '_',
        forall|i: int|
            0 <= i < snake_words(raw).len() ==> is_identifier_char(#[trigger] snake_words(raw)[i]),
        forall|i: int|
            0 <= i < snake_words(raw).len() - 1 ==> !(#[trigger] snake_words(raw)[i] == '_'
                && snake_words(raw)[i + 1] == '_'),
{
    let all = squashed(text::trim(raw));
    lemma_squashed_chars(text::trim(raw));
    lemma_squashed_marks(text::trim(raw));
    let words = snake_words(raw);
    let lead: int = if all.len() > 0 && all[0] == '_' {
        1
    } else {
        0
    };
    assert forall|i: int| 0 <= i < words.len() implies words[i] == all[i + lead] by {}
    if words.len() > 0 {
        assert(words[0] == all[lead]);
        assert(words.last() == all[words.len() - 1 + lead]);
        if lead == 1 {
            assert(!(all[0] == '_' && all[1] == '_'));
        }
        if words.len() + lead < all.len() {
            let end: int = words.len() - 1 + lead;
            assert(!(all[end] == '_' && all[end + 1] == '_'));
        }
    }
    assert forall|i: int| 0 <= i < words.len() implies is_identifier_char(#[trigger] words[i]) by {
        assert(words[i] == all[i + lead]);
    }
    assert forall|i: int| 0 <= i < words.len() - 1 implies !(#[trigger] words[i] == '_' && words[i
        + 1] == '_') by {
        assert(words[i] == all[i + lead]);
        assert(words[i + 1] == all[i + 1 + lead]);
    }
}

proof fn lemma_squashed_marks(raw: Seq<char>)
    ensures
        forall|i: int|
            0 <= i < squashed(raw).len() - 1 ==> !(#[trigger] squashed(raw)[i] == '_'
                && squashed(raw)[i + 1] == '_'),
    decreases raw.len(),
{
    if raw.len() > 0 {
        lemma_squashed_marks(raw.drop_last());
        let before = squashed(raw.drop_last());
        assert forall|i: int| 0 <= i < squashed(raw).len() - 1 implies !(#[trigger] squashed(raw)[i]
            == '_' && squashed(raw)[i + 1] == '_') by {
            assert(squashed(raw)[i] == before[i]);
            if i + 1 < before.len() {
                assert(squashed(raw)[i + 1] == before[i + 1]);
            } else {
                assert(before.last() == before[i]);
            }
        }
    }
}

proof fn lemma_squashed_plain(name: Seq<char>)
    requires
        forall|i: int| 0 <= i < name.len() ==> is_identifier_char(#[trigger] name[i]),
        forall|i: int| 0 <= i < name.len() - 1 ==> !(#[trigger] name[i] == '_' && name[i + 1] == '_'),
    ensures
        squashed(name) == name,
    decreases name.len(),
{
    if name.len() > 0 {
        let before = name.drop_last();
        assert forall|i: int| 0 <= i < before.len() implies is_identifier_char(
            #[trigger] before[i],
        ) by {
            assert(before[i] == name[i]);
        }
        assert forall|i: int| 0 <= i < before.len() - 1 implies !(#[trigger] before[i] == '_'
            && before[i + 1] == '_') by {
            assert(before[i] == name[i]);
        }
        lemma_squashed_plain(before);
        assert(is_identifier_char(name[name.len() - 1]));
        if name.len() > 1 {
            assert(before.last() == name[name.len() - 2]);
        }
        assert(before.push(name.last()) =~= name);
    }
}

/// Columns of the same name get different names.
pub proof fn law_repeated_names_differ(bases: Seq<Seq<char>>, i: int, j: int)
    requires
        0 <= i < j < bases.len() <= u64::MAX,
        bases[i] == bases[j],
    ensures
        distinct_name(bases.take(i), bases[i]) != distinct_name(bases.take(j), bases[j]),
{
    let base = bases[i];
    let few = occurrences(bases.take(i), base);
    let many = occurrences(bases.take(j), base);
    lemma_occurrences_grow(bases, base, i, j);
    lemma_occurrences_bound(bases.take(j), base);
    assert(many >= few + 1);
    reveal_strlit("_");
    text::lemma_decimal(many + 1);
    let name = base + "_"@ + text::decimal(many + 1);
    assert(name.len() > base.len());
    if few > 0 {
        let other = base + "_"@ + text::decimal(few + 1);
        text::law_decimal_reads_back((few + 1) as u64);
        text::law_decimal_reads_back((many + 1) as u64);
        if name == other {
            let from = base.len() + 1;
            assert(name.skip(from as int) =~= text::decimal(many + 1));
            assert(other.skip(from as int) =~= text::decimal(few + 1));
        }
    }
}

proof fn lemma_occurrences_grow(bases: Seq<Seq<char>>, base: Seq<char>, i: int, j: int)
    requires
        0 <= i < j < bases.len(),
        bases[i] == base,
    ensures
        occurrences(bases.take(j), base) >= occurrences(bases.take(i), base) + 1,
    decreases j,
{
    assert(bases.take(j).drop_last() =~= bases.take(j - 1));
    assert(bases.take(j).last() == bases[j - 1]);
    if j > i + 1 {
        lemma_occurrences_grow(bases, base, i, j - 1);
    }
}

/// Inside a quoted text each mark is followed by its double: nothing in it ends the
/// quotes.
pub proof fn law_doubled_marks_come_in_pairs(raw: Seq<char>, mark: char)
    ensures
        without_pairs(text::doubled(raw, mark), mark) == Some(raw),
    decreases raw.len(),
{
    let all = text::doubled(raw, mark);
    if raw.len() > 0 {
        let before = raw.drop_last();
        law_doubled_marks_come_in_pairs(before, mark);
        if raw.last() == mark {
            assert(all.drop_last().drop_last() =~= text::doubled(before, mark));
            assert(all.last() == mark && all.drop_last().last() == mark);
        } else {
            assert(all.drop_last() =~= text::doubled(before, mark));
            assert(all.last() == raw.last());
        }
        assert(before.push(raw.last()) =~= raw);
    }
}

/// The text that a quoted text stands for: each pair of marks is one; `None` where a
/// mark stands alone.
pub open spec fn without_pairs(held: Seq<char>, mark: char) -> Option<Seq<char>>
    decreases held.len(),
{
    if held.len() == 0 {
        Some(held)
    } else if held.last() != mark {
        match without_pairs(held.drop_last(), mark) {
            Some(before) => Some(before.push(held.last())),
            None => None,
        }
    } else if held.len() >= 2 && held[held.len() - 2] == mark {
        match without_pairs(held.drop_last().drop_last(), mark) {
            Some(before) => Some(before.push(mark)),
            None => None,
        }
    } else {
        None
    }
}

/// Semicolons and white space at the end of a query make no difference to it.
pub proof fn law_inner_sql_is_stable(sql: Seq<char>)
    ensures
        inner_sql(inner_sql(sql)) == inner_sql(sql),
        inner_sql(sql).len() > 0 ==> inner_sql(sql).last() != ';',
{
    text::law_trim(sql);
    lemma_without_semicolons(text::trim(sql));
}

proof fn lemma_without_semicolons(sql: Seq<char>)
    requires
        text::trim(sql) == sql,
    ensures
        text::trim(without_semicolons(sql)) == without_semicolons(sql),
        without_semicolons(without_semicolons(sql)) == without_semicolons(sql),
        without_semicolons(sql).len() > 0 ==> without_semicolons(sql).last() != ';',
    decreases sql.len(),
{
    if sql.len() > 0 && sql.last() == ';' {
        let next = text::trim_end(sql.drop_last());
        lemma_trim_end_len(sql.drop_last());
        lemma_trimmed_ends(sql);
        lemma_trim_end_keeps_start(sql.drop_last());
        if next.len() > 0 {
            assert(next[0] == sql[0]);
            assert(text::trim_start(next) == next);
        }
        lemma_trim_end_twice(sql.drop_last());
        lemma_without_semicolons(next);
    }
}

/// A trimmed text does not begin with white space.
proof fn lemma_trimmed_ends(sql: Seq<char>)
    requires
        text::trim(sql) == sql,
        sql.len() > 0,
    ensures
        !text::is_space(sql[0]),
{
    text::law_trim(sql);
    if text::is_space(sql[0]) {
        lemma_trim_start_shorter(sql);
        lemma_trim_end_len(text::trim_start(sql));
    }
}

proof fn lemma_trim_start_shorter(held: Seq<char>)
    requires
        held.len() > 0,
        text::is_space(held[0]),
    ensures
        text::trim_start(held).len() < held.len(),
    decreases held.len(),
{
    let rest = held.drop_first();
    assert(text::trim_start(held) == text::trim_start(rest));
    if rest.len() > 0 && text::is_space(rest[0]) {
        lemma_trim_start_shorter(rest);
    }
}

proof fn lemma_trim_end_keeps_start(held: Seq<char>)
    ensures
        text::trim_end(held).len() > 0 ==> text::trim_end(held)[0] == held[0],
    decreases held.len(),
{
    if held.len() > 0 && text::is_space(held.last()) {
        lemma_trim_end_keeps_start(held.drop_last());
    }
}

proof fn lemma_trim_end_twice(held: Seq<char>)
    ensures
        text::trim_end(text::trim_end(held)) == text::trim_end(held),
    decreases held.len(),
{
    if held.len() > 0 && text::is_space(held.last()) {
        lemma_trim_end_twice(held.drop_last());
    }
}

/// A query is fetched page by page as a part of another one, which takes so many of its rows
/// behind so many others; and its rows are counted in the same way.
pub proof fn law_pages_of_queries(sql: Seq<char>, offset: u64, page_size: u64)
    ensures
        page_sql(sql, offset, page_size) == "SELECT * FROM ("@ + inner_sql(sql)
            + ") AS ga4_scratchpad_query LIMIT "@ + text::decimal(page_size as nat) + " OFFSET "@
            + text::decimal(offset as nat),
        row_count_sql(sql) == "SELECT COUNT(*) AS row_count_total FROM ("@ + inner_sql(sql)
            + ") AS ga4_scratchpad_query"@,
{
    reveal_strlit(") AS ");
    reveal_strlit("ga4_scratchpad_query");
    reveal_strlit(" LIMIT ");
    reveal_strlit(") AS ga4_scratchpad_query LIMIT ");
    reveal_strlit(") AS ga4_scratchpad_query");
    assert(") AS "@ + "ga4_scratchpad_query"@ + " LIMIT "@
        =~= ") AS ga4_scratchpad_query LIMIT "@);
    assert(") AS "@ + "ga4_scratchpad_query"@ =~= ") AS ga4_scratchpad_query"@);
    let head = "SELECT * FROM ("@ + inner_sql(sql);
    assert(head + ") AS "@ + "ga4_scratchpad_query"@ + " LIMIT "@ =~= head + (") AS "@
        + "ga4_scratchpad_query"@ + " LIMIT "@));
    let count = "SELECT COUNT(*) AS row_count_total FROM ("@ + inner_sql(sql);
    assert(count + ") AS "@ + "ga4_scratchpad_query"@ =~= count + (") AS "@
        + "ga4_scratchpad_query"@));
}

/// A query stands inside another one without the white space around it and without the
/// semicolons that it ends with.
pub proof fn law_semicolons_at_the_end_go(sql: Seq<char>)
    requires
        sql.len() > 0,
        !text::is_space(sql[0]),
        !text::is_space(sql.last()),
        sql.last() != ';',
    ensures
        inner_sql(sql) == sql,
        inner_sql(sql.push(';')) == sql,
        inner_sql(sql.push(';').push(' ')) == sql,
        inner_sql(sql.push(';').push(';')) == sql,
{
    text::law_tight_texts_are_not_trimmed(sql);
    let once = sql.push(';');
    let twice = once.push(';');
    assert(!text::is_space(';'));
    text::law_tight_texts_are_not_trimmed(once);
    text::law_tight_texts_are_not_trimmed(twice);
    assert(once.drop_last() =~= sql);
    assert(text::trim_end(sql) == sql);
    assert(without_semicolons(sql) == sql);
    assert(without_semicolons(once) == sql);
    assert(twice.drop_last() =~= once);
    assert(text::trim_end(once) == once);
    assert(without_semicolons(twice) == sql);
    let spaced = once.push(' ');
    let none = Seq::<char>::empty();
    assert(spaced =~= none + once + seq![' ']);
    assert(text::is_space(' '));
    text::law_white_space_around_is_trimmed(none, once, seq![' ']);
}

/// Only queries that begin with `SELECT` or `WITH`, in any case, are fetched page by page.
pub proof fn law_selects_are_paged(sql: Seq<char>)
    ensures
        can_wrap(sql) <==> text::stands_at(text::uppered(inner_sql(sql)), "SELECT"@, 0)
            || text::stands_at(text::uppered(inner_sql(sql)), "WITH"@, 0),
{
    let upper = text::uppered(inner_sql(sql));
    assert("SELECT"@.len() <= upper.len() ==> upper.subrange(0, "SELECT"@.len() as int)
        =~= upper.take("SELECT"@.len() as int));
    assert("WITH"@.len() <= upper.len() ==> upper.subrange(0, "WITH"@.len() as int) =~= upper.take(
        "WITH"@.len() as int,
    ));
}

proof fn lemma_squashed_word(before: Seq<char>, word: Seq<char>)
    requires
        forall|i: int| 0 <= i < word.len() ==> text::is_alnum(#[trigger] word[i]),
    ensures
        squashed(before + word) == squashed(before) + text::lowered(word),
    decreases word.len(),
{
    if word.len() > 0 {
        let short = word.drop_last();
        assert forall|i: int| 0 <= i < short.len() implies text::is_alnum(#[trigger] short[i]) by {
            assert(short[i] == word[i]);
        }
        lemma_squashed_word(before, short);
        assert((before + word).drop_last() =~= before + short);
        assert(text::is_alnum(word[word.len() - 1]));
        assert((squashed(before) + text::lowered(short)).push(text::lower(word.last()))
            =~= squashed(before) + text::lowered(word));
    } else {
        assert(before + word =~= before);
        assert(squashed(before) + text::lowered(word) =~= squashed(before));
    }
}

/// An identifier is made of the words of a name, in lower case, with one underscore between
/// each two of them, whatever stands there; one that would begin with a digit has an underscore
/// in front.
pub proof fn law_words_make_identifiers(
    first: Seq<char>,
    mark: char,
    second: Seq<char>,
    fallback: Seq<char>,
)
    requires
        first.len() > 0,
        second.len() > 0,
        forall|i: int| 0 <= i < first.len() ==> text::is_alnum(#[trigger] first[i]),
        forall|i: int| 0 <= i < second.len() ==> text::is_alnum(#[trigger] second[i]),
        !text::is_alnum(mark),
    ensures
        !text::is_digit(first[0]) ==> identifier_of(first, fallback) == text::lowered(first),
        text::is_digit(first[0]) ==> identifier_of(first, fallback) == seq!['_'] + text::lowered(
            first,
        ),
        !text::is_digit(first[0]) ==> identifier_of(first + seq![mark] + second, fallback)
            == text::lowered(first) + seq!['_'] + text::lowered(second),
        !text::is_digit(first[0]) ==> identifier_of(first + seq![mark, mark] + second, fallback)
            == text::lowered(first) + seq!['_'] + text::lowered(second),
        !text::is_digit(first[0]) ==> identifier_of(Seq::<char>::empty(), first) == first,
{
    let none = Seq::<char>::empty();
    assert(text::is_alnum(first[0]) && text::is_alnum(first[first.len() - 1]));
    assert(text::is_alnum(second[0]) && text::is_alnum(second[second.len() - 1]));
    lemma_squashed_word(none, first);
    assert(none + first =~= first);
    assert(squashed(none) + text::lowered(first) =~= text::lowered(first));
    text::law_tight_texts_are_not_trimmed(first);
    let low = text::lowered(first);
    let end = text::lowered(second);
    assert(low[0] != '_' && low.last() != '_');
    assert(text::is_digit(low[0]) == text::is_digit(first[0]));
    let one = first.push(mark);
    assert(one.drop_last() =~= first);
    assert(squashed(one) == low.push('_'));
    let two = one.push(mark);
    assert(two.drop_last() =~= one);
    assert(squashed(two) == low.push('_'));
    lemma_squashed_word(one, second);
    lemma_squashed_word(two, second);
    let whole = first + seq![mark] + second;
    let wide = first + seq![mark, mark] + second;
    assert(whole =~= one + second);
    assert(wide =~= two + second);
    text::law_tight_texts_are_not_trimmed(whole);
    text::law_tight_texts_are_not_trimmed(wide);
    let made = low.push('_') + end;
    assert(made =~= low + seq!['_'] + end);
    assert(made[0] == low[0]);
    assert(made.last() == end.last());
    assert(end.last() != '_');
    assert(text::trim(none) == none);
}

/// A name that occurs for the first time stays as it is; the second has a two behind it, the
/// third a three, and so on.
pub proof fn law_repeated_names_are_numbered(
    earlier: Seq<Seq<char>>,
    other: Seq<char>,
    base: Seq<char>,
)
    ensures
        distinct_name(Seq::<Seq<char>>::empty(), base) == base,
        occurrences(earlier, base) == 0 ==> distinct_name(earlier, base) == base,
        distinct_name(earlier.push(base), base) == base + "_"@ + text::decimal(
            occurrences(earlier, base) + 2,
        ),
        other != base ==> distinct_name(earlier.push(other), base) == distinct_name(earlier, base),
        occurrences(earlier.push(base), base) == occurrences(earlier, base) + 1,
        other != base ==> occurrences(earlier.push(other), base) == occurrences(earlier, base),
{
    assert(earlier.push(base).drop_last() =~= earlier);
    assert(earlier.push(other).drop_last() =~= earlier);
}

/// A table is called by the identifier of its name, where that is no longer than sixty-three
/// bytes.
pub proof fn law_tables_are_called_by_their_identifier(raw: Seq<char>)
    ensures
        text::byte_len(identifier_of(raw, "table"@)) <= 63 ==> table_identifier(raw) == Ok::<
            Seq<char>,
            Problem,
        >(identifier_of(raw, "table"@)),
        text::byte_len(identifier_of(raw, "table"@)) > 63 ==> (table_identifier(raw) matches Err(
            Problem::InvalidArgument(field, said),
        ) && field == "table_name"@),
{
}

/// Columns keep their places, and each goes by the identifier of its name, or by its number.
pub proof fn law_columns_go_by_their_identifiers(raw: Seq<Seq<char>>, i: int)
    requires
        0 <= i < raw.len(),
    ensures
        column_names(raw).len() == raw.len(),
        column_names(raw)[i] == distinct_name(
            Seq::new(
                i as nat,
                |k: int| identifier_of(raw[k], "column_"@ + text::decimal((k + 1) as nat)),
            ),
            identifier_of(raw[i], "column_"@ + text::decimal((i + 1) as nat)),
        ),
{
    assert(column_bases(raw).take(i) =~= Seq::new(
        i as nat,
        |k: int| identifier_of(raw[k], "column_"@ + text::decimal((k + 1) as nat)),
    ));
}

} // verus!
