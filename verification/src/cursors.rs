//! Query hashes, and the cursors that carry them from page to page.

use std::collections::hash_map::DefaultHasher;
use std::hash::Hasher;

use vstd::prelude::*;
use vstd::std_specs::hash::*;
use vstd::string::*;
use vstd::utf8::*;

use crate::error;
use crate::error::{AnalyticsError, Problem};
use crate::ga_client;
use crate::json::{Json, Tree};
use crate::json_text;
use crate::report_checks::{
    DEFAULT_TABULAR_MAX_ROWS, MAX_REPORT_OFFSET, MAX_TABULAR_MAX_ROWS,
};
use crate::text;

verus! {

pub const SUMMARY_HASH_BYTES: usize = 12;

// ---------------------------------------------------------------------------
// Query hashes.
// ---------------------------------------------------------------------------

/// The hash of a text: what the hasher makes of its bytes and of the byte that ends a
/// text, in sixteen hexadecimal digits.
pub open spec fn digest(canonical: Seq<char>) -> Seq<char> {
    text::hex(
        DefaultHasher::spec_finish(
            Seq::<Seq<u8>>::empty().push(encode_utf8(canonical)).push(seq![0xffu8]),
        ) as nat,
        16,
    )
}

/// The hash of a query: that of the text of its canonical form.
pub open spec fn query_hash(signature: Tree) -> Seq<char> {
    digest(json_text::json_text(ga_client::sorted_tree(signature)))
}

/// The hash of a text.
pub fn digest_of(canonical: &str) -> (r: String)
    ensures
        r@ == digest(canonical@),
{
    let mut hasher: DefaultHasher = DefaultHasher::new();
    hasher.write(canonical.as_bytes());
    let end: [u8; 1] = [0xff];
    assert(end@ =~= seq![0xffu8]);
    hasher.write(&end);
    text::hex_text(hasher.finish(), 16)
}

/// The hash of a query.
pub fn stable_query_hash(signature: &Json) -> (r: Result<String, AnalyticsError>)
    ensures
        ga_client::text_result(r) == Ok::<Seq<char>, Problem>(query_hash(signature@)),
{
    match json_text::write_json(&ga_client::sort_object(signature)) {
        Ok(canonical) => Ok(digest_of(canonical.as_str())),
        Err(err) => Err(
            AnalyticsError::internal(
                error::labelled("failed to serialize query signature: ", err.as_str()).as_str(),
            ),
        ),
    }
}

/// A hash as it is shown in events: whole where it is short, else its first bytes.
pub open spec fn short_hash(query_hash: Seq<char>) -> Seq<char> {
    let hash = text::trim(query_hash);
    if text::byte_len(hash) <= SUMMARY_HASH_BYTES {
        hash
    } else {
        text::fitting(hash, SUMMARY_HASH_BYTES as nat) + ".."@
    }
}

/// A hash as it is shown in events. Of a hash that is cut, the first bytes end at the end
/// of a character.
pub fn summarize_query_hash(query_hash: &str) -> (r: String)
    requires
        text::byte_len(text::trim(query_hash@)) > SUMMARY_HASH_BYTES ==> text::byte_len(
            text::fitting(text::trim(query_hash@), SUMMARY_HASH_BYTES as nat),
        ) == SUMMARY_HASH_BYTES,
    ensures
        r@ == short_hash(query_hash@),
{
    let hash: String = text::trimmed(query_hash);
    if text::bytes_in(hash.as_str()) <= SUMMARY_HASH_BYTES {
        return hash;
    }
    let mut r: String = text::fit(hash.as_str(), SUMMARY_HASH_BYTES);
    r.append("..");
    r
}

// ---------------------------------------------------------------------------
// Cursors.
// ---------------------------------------------------------------------------

/// What a cursor carries: which query it belongs to, and where its next page begins.
#[derive(Debug)]
pub struct CursorToken {
    pub query_hash: String,
    pub offset: u64,
}

/// What a cursor, or the error in its place, says.
pub open spec fn cursor_result(r: Result<CursorToken, AnalyticsError>) -> Result<
    (Seq<char>, u64),
    Problem,
> {
    match r {
        Ok(token) => Ok((token.query_hash@, token.offset)),
        Err(err) => Err(err@),
    }
}

/// The cursor for a query and an offset.
pub open spec fn cursor_text(query_hash: Seq<char>, offset: u64) -> Seq<char> {
    "v1:"@ + query_hash + ":"@ + text::decimal(offset as nat)
}

/// The cursor for a query and an offset.
pub fn encode_cursor(query_hash: &str, offset: u64) -> (r: String)
    ensures
        r@ == cursor_text(query_hash@, offset),
{
    error::described("v1:", query_hash, ":", text::decimal_text(offset).as_str())
}

/// The three parts of a cursor: up to the first colon, up to the second, and the rest.
pub open spec fn cursor_parts(raw: Seq<char>) -> Option<(Seq<char>, Seq<char>, Seq<char>)> {
    match text::split_at_first(raw, ":"@) {
        Some((version, rest)) => match text::split_at_first(rest, ":"@) {
            Some((hash, offset)) => Some((version, hash, offset)),
            None => None,
        },
        None => None,
    }
}

/// What a cursor carries, or what is wrong with it.
pub open spec fn decoded(raw: Seq<char>) -> Result<(Seq<char>, u64), Problem> {
    match cursor_parts(raw) {
        Some((version, hash, shown)) => if version != "v1"@ {
            Err(Problem::InvalidCursor("expected cursor format v1:<query_hash>:<offset>"@))
        } else {
            match text::parsed_u64(shown) {
                None => Err(
                    Problem::InvalidCursor("offset component must be a non-negative integer"@),
                ),
                Some(offset) => if text::is_blank(hash) {
                    Err(Problem::InvalidCursor("query hash component must not be empty"@))
                } else {
                    Ok((hash, offset))
                },
            }
        },
        None => Err(Problem::InvalidCursor("expected cursor format v1:<query_hash>:<offset>"@)),
    }
}

fn unreadable() -> (r: AnalyticsError)
    ensures
        r@ == Problem::InvalidCursor("expected cursor format v1:<query_hash>:<offset>"@),
{
    AnalyticsError::invalid_cursor("expected cursor format v1:<query_hash>:<offset>")
}

/// What a cursor carries.
pub fn decode_cursor(raw: &str) -> (r: Result<CursorToken, AnalyticsError>)
    ensures
        cursor_result(r) == decoded(raw@),
{
    let (version, rest): (String, String) = match text::split_once(raw, ":") {
        Some(pair) => pair,
        None => {
            return Err(unreadable());
        },
    };
    let (query_hash, shown): (String, String) = match text::split_once(rest.as_str(), ":") {
        Some(pair) => pair,
        None => {
            return Err(unreadable());
        },
    };
    if !text::same_text(version.as_str(), "v1") {
        return Err(unreadable());
    }
    match text::parse_u64(shown.as_str()) {
        None => Err(
            AnalyticsError::invalid_cursor("offset component must be a non-negative integer"),
        ),
        Some(offset) => {
            if text::blank(query_hash.as_str()) {
                return Err(
                    AnalyticsError::invalid_cursor("query hash component must not be empty"),
                );
            }
            Ok(CursorToken { query_hash, offset })
        },
    }
}

// ---------------------------------------------------------------------------
// Windows.
// ---------------------------------------------------------------------------

/// What a window, or the error in its place, says: its offset and its size.
pub open spec fn window_result(r: Result<(u64, u64), AnalyticsError>) -> Result<
    (u64, u64),
    Problem,
> {
    match r {
        Ok(window) => Ok(window),
        Err(err) => Err(err@),
    }
}

/// `n`, but at least one and at most `top`.
pub open spec fn clamped(n: int, top: int) -> int {
    if n < 1 {
        1
    } else if n > top {
        top
    } else {
        n
    }
}

/// The size of a page: what the request wants to see, within its own limit and that of
/// the server.
pub open spec fn page_size(max_rows: Option<usize>, limit: Option<u64>) -> int {
    let rows: int = match max_rows {
        Some(n) => if n < 1 {
            1
        } else {
            n as int
        },
        None => DEFAULT_TABULAR_MAX_ROWS as int,
    };
    clamped(
        match limit {
            Some(n) => if n < rows {
                n as int
            } else {
                rows
            },
            None => rows,
        },
        MAX_TABULAR_MAX_ROWS as int,
    )
}

/// The window of a query: where its page begins, and how many rows it has at most.
pub open spec fn cursor_window(
    query_hash: Seq<char>,
    cursor: Option<Seq<char>>,
    requested_offset: Option<u64>,
    max_rows: Option<usize>,
    requested_limit: Option<u64>,
) -> Result<(u64, u64), Problem> {
    let size = page_size(max_rows, requested_limit) as u64;
    match cursor {
        None => Ok(
            (
                match requested_offset {
                    Some(offset) => offset,
                    None => 0,
                },
                size,
            ),
        ),
        Some(raw) => if requested_offset is Some {
            Err(Problem::InvalidArgument("offset"@, "must be omitted when cursor is supplied"@))
        } else {
            match decoded(raw) {
                Err(problem) => Err(problem),
                Ok((hash, offset)) => if hash != query_hash {
                    Err(Problem::CursorQueryMismatch)
                } else if offset > MAX_REPORT_OFFSET {
                    Err(
                        Problem::InvalidArgument(
                            "offset"@,
                            "is unreasonably high for a single request"@,
                        ),
                    )
                } else {
                    Ok((offset, size))
                },
            }
        },
    }
}

fn page_rows(max_rows: Option<usize>, requested_limit: Option<u64>) -> (r: u64)
    ensures
        r == page_size(max_rows, requested_limit),
{
    let mut rows: u64 = match max_rows {
        Some(n) => if n < 1 {
            1
        } else {
            n as u64
        },
        None => DEFAULT_TABULAR_MAX_ROWS as u64,
    };
    match requested_limit {
        Some(limit) => {
            if limit < rows {
                rows = limit;
            }
        },
        None => {},
    }
    if rows < 1 {
        1
    } else if rows > MAX_TABULAR_MAX_ROWS as u64 {
        MAX_TABULAR_MAX_ROWS as u64
    } else {
        rows
    }
}

/// The window of a query.
pub fn resolve_cursor_window(
    query_hash: &str,
    cursor: Option<&str>,
    requested_offset: Option<u64>,
    max_rows: Option<usize>,
    requested_limit: Option<u64>,
) -> (r: Result<(u64, u64), AnalyticsError>)
    ensures
        window_result(r) == cursor_window(
            query_hash@,
            text::opt_str(cursor),
            requested_offset,
            max_rows,
            requested_limit,
        ),
{
    let size: u64 = page_rows(max_rows, requested_limit);
    match cursor {
        None => {
            let offset: u64 = match requested_offset {
                Some(offset) => offset,
                None => 0,
            };
            Ok((offset, size))
        },
        Some(raw) => {
            if requested_offset.is_some() {
                return Err(
                    AnalyticsError::invalid("offset", "must be omitted when cursor is supplied"),
                );
            }
            let token: CursorToken = match decode_cursor(raw) {
                Ok(token) => token,
                Err(err) => {
                    return Err(err);
                },
            };
            if !text::same_text(token.query_hash.as_str(), query_hash) {
                return Err(AnalyticsError::CursorQueryMismatch);
            }
            if token.offset > MAX_REPORT_OFFSET {
                return Err(
                    AnalyticsError::invalid("offset", "is unreasonably high for a single request"),
                );
            }
            Ok((token.offset, size))
        },
    }
}

/// How many rows a funnel report asks for: what the request wants to see, within its own
/// limit and that of the server.
pub open spec fn funnel_limit(max_rows: Option<usize>, limit: Option<u64>) -> int {
    let response: int = clamped(
        match max_rows {
            Some(n) => n as int,
            None => DEFAULT_TABULAR_MAX_ROWS as int,
        },
        MAX_TABULAR_MAX_ROWS as int,
    );
    match limit {
        Some(n) => clamped(n as int, response),
        None => response,
    }
}

/// How many rows a funnel report asks for.
pub fn resolve_funnel_report_limit(max_rows: Option<usize>, requested_limit: Option<u64>) -> (r:
    u64)
    ensures
        r == funnel_limit(max_rows, requested_limit),
{
    let rows: usize = match max_rows {
        Some(n) => n,
        None => DEFAULT_TABULAR_MAX_ROWS,
    };
    let response: u64 = if rows < 1 {
        1
    } else if rows > MAX_TABULAR_MAX_ROWS {
        MAX_TABULAR_MAX_ROWS as u64
    } else {
        rows as u64
    };
    match requested_limit {
        Some(limit) => if limit < 1 {
            1
        } else if limit > response {
            response
        } else {
            limit
        },
        None => response,
    }
}

/// The cursor of the next page: none where the pages so far hold every row.
pub open spec fn following_cursor(query_hash: Seq<char>, next_offset: u64, total: int) -> Option<
    Seq<char>,
> {
    if next_offset < total {
        Some(cursor_text(query_hash, next_offset))
    } else {
        None
    }
}

// ---------------------------------------------------------------------------
// Laws.
// ---------------------------------------------------------------------------

/// The first colon of a text in front of which there is none.
proof fn lemma_split_at_colon(left: Seq<char>, right: Seq<char>)
    requires
        !left.contains(':'),
    ensures
        text::split_at_first(left + ":"@ + right, ":"@) == Some((left, right)),
{
    reveal(text::split_at_first);
    reveal_strlit(":");
    let whole = left + ":"@ + right;
    let at = left.len() as int;
    assert(whole.subrange(at, at + 1) =~= ":"@);
    assert(text::stands_at(whole, ":"@, at));
    assert forall|i: int| 0 <= i < at implies !text::stands_at(whole, ":"@, i) by {
        if text::stands_at(whole, ":"@, i) {
            assert(whole.subrange(i, i + 1)[0] == ':');
            assert(left[i] == ':');
            assert(left.contains(':'));
        }
    }
    assert(text::holds(whole, ":"@));
    assert(whole.take(at) =~= left);
    assert(whole.skip(at + 1) =~= right);
}

/// A cursor is read back as the query and the offset that it was made for.
pub proof fn law_cursor_reads_back(query_hash: Seq<char>, offset: u64)
    requires
        !text::is_blank(query_hash),
        !query_hash.contains(':'),
    ensures
        decoded(cursor_text(query_hash, offset)) == Ok::<(Seq<char>, u64), Problem>(
            (query_hash, offset),
        ),
{
    reveal_strlit("v1:");
    reveal_strlit("v1");
    reveal_strlit(":");
    let shown = text::decimal(offset as nat);
    let rest = query_hash + ":"@ + shown;
    assert(cursor_text(query_hash, offset) =~= "v1"@ + ":"@ + rest);
    lemma_split_at_colon("v1"@, rest);
    lemma_split_at_colon(query_hash, shown);
    text::law_decimal_reads_back(offset);
}

proof fn lemma_hex_digits(n: nat, width: nat)
    ensures
        text::hex(n, width).len() == width,
        forall|i: int|
            0 <= i < width ==> text::is_alnum(#[trigger] text::hex(n, width)[i]),
    decreases width,
{
    if width > 0 {
        lemma_hex_digits(n / 16, (width - 1) as nat);
        let before = text::hex(n / 16, (width - 1) as nat);
        let last = text::hex_digit(n % 16);
        assert(text::is_alnum(last));
        assert forall|i: int| 0 <= i < width implies text::is_alnum(
            #[trigger] text::hex(n, width)[i],
        ) by {
            if i < width - 1 {
                assert(text::hex(n, width)[i] == before[i]);
            } else {
                assert(text::hex(n, width)[i] == last);
            }
        }
    }
}

/// The hash of a query can stand in a cursor: it is sixteen letters and digits.
pub proof fn law_query_hashes_fit_cursors(signature: Tree)
    ensures
        query_hash(signature).len() == 16,
        !text::is_blank(query_hash(signature)),
        !query_hash(signature).contains(':'),
{
    let hash = query_hash(signature);
    let n = DefaultHasher::spec_finish(
        Seq::<Seq<u8>>::empty().push(
            encode_utf8(json_text::json_text(ga_client::sorted_tree(signature))),
        ).push(seq![0xffu8]),
    ) as nat;
    lemma_hex_digits(n, 16);
    assert(text::is_alnum(hash[0]));
    assert(text::is_alnum(hash[15]));
    assert(!text::is_space(hash[0]));
    assert(!text::is_space(hash.last()));
    assert(text::trim_start(hash) == hash);
    assert(text::trim(hash) == hash);
}

/// The cursor of a page leads the same query to the page behind it, and no other query
/// anywhere.
pub proof fn law_cursors_belong_to_their_query(
    signature: Tree,
    other_hash: Seq<char>,
    offset: u64,
    max_rows: Option<usize>,
    limit: Option<u64>,
)
    requires
        offset <= MAX_REPORT_OFFSET,
    ensures
        cursor_window(
            query_hash(signature),
            Some(cursor_text(query_hash(signature), offset)),
            None,
            max_rows,
            limit,
        ) == Ok::<(u64, u64), Problem>((offset, page_size(max_rows, limit) as u64)),
        other_hash != query_hash(signature) ==> cursor_window(
            other_hash,
            Some(cursor_text(query_hash(signature), offset)),
            None,
            max_rows,
            limit,
        ) == Err::<(u64, u64), Problem>(Problem::CursorQueryMismatch),
{
    law_query_hashes_fit_cursors(signature);
    law_cursor_reads_back(query_hash(signature), offset);
}

/// A window is never empty and never larger than the server allows, nor than the request
/// asks for.
pub proof fn law_windows_are_bounded(max_rows: Option<usize>, limit: Option<u64>)
    ensures
        1 <= page_size(max_rows, limit) <= MAX_TABULAR_MAX_ROWS,
        limit matches Some(n) && n > 0 ==> page_size(max_rows, limit) <= limit->0,
        max_rows matches Some(n) && n > 0 ==> page_size(max_rows, limit) <= max_rows->0,
        1 <= funnel_limit(max_rows, limit) <= MAX_TABULAR_MAX_ROWS,
        limit matches Some(n) && n > 0 ==> funnel_limit(max_rows, limit) <= limit->0,
{
}

/// Two objects that hold the same under every key have one query hash, in whatever order
/// they hold it.
pub proof fn law_query_hash_ignores_order(
    a: Seq<(Seq<char>, Tree)>,
    b: Seq<(Seq<char>, Tree)>,
)
    requires
        ga_client::distinct_keys(a),
        ga_client::distinct_keys(b),
        forall|key: Seq<char>| crate::json::lookup(a, key) == crate::json::lookup(b, key),
    ensures
        query_hash(Tree::Dict(a)) == query_hash(Tree::Dict(b)),
{
    ga_client::law_canonical_form(a, b);
}

/// A page has as many rows as are asked for, by either limit, from one up to what one answer
/// may have; where nothing is asked for, it has two hundred.
pub proof fn law_pages_have_the_size_that_is_asked_for(n: usize, m: u64)
    requires
        n >= 1,
        m >= 1,
    ensures
        page_size(None, None) == 200,
        funnel_limit(None, None) == 200,
        page_size(Some(n), None) == (if n <= 25_000 {
            n as int
        } else {
            25_000
        }),
        funnel_limit(Some(n), None) == (if n <= 25_000 {
            n as int
        } else {
            25_000
        }),
        page_size(None, Some(m)) == (if m <= 200 {
            m as int
        } else {
            200
        }),
        funnel_limit(None, Some(m)) == (if m <= 200 {
            m as int
        } else {
            200
        }),
        page_size(Some(n), Some(m)) == (if m <= n && m <= 25_000 {
            m as int
        } else if n <= 25_000 {
            n as int
        } else {
            25_000
        }),
        funnel_limit(Some(n), Some(m)) == (if m <= n && m <= 25_000 {
            m as int
        } else if n <= 25_000 {
            n as int
        } else {
            25_000
        }),
        page_size(Some(0), None) == 1,
        page_size(Some(n), Some(0)) == 1,
        funnel_limit(Some(0), None) == 1,
        funnel_limit(Some(n), Some(0)) == 1,
{
}

/// Without a cursor a window begins where it is told to, or at the first row. With one nothing
/// else may say where, and it may not begin too far down.
pub proof fn law_windows_begin_where_they_are_told_to(
    signature: Tree,
    cursor: Seq<char>,
    offset: u64,
    max_rows: Option<usize>,
    limit: Option<u64>,
)
    ensures
        cursor_window(query_hash(signature), None, None, max_rows, limit) == Ok::<
            (u64, u64),
            Problem,
        >((0u64, page_size(max_rows, limit) as u64)),
        cursor_window(query_hash(signature), None, Some(offset), max_rows, limit) == Ok::<
            (u64, u64),
            Problem,
        >((offset, page_size(max_rows, limit) as u64)),
        cursor_window(query_hash(signature), Some(cursor), Some(offset), max_rows, limit) == Err::<
            (u64, u64),
            Problem,
        >(Problem::InvalidArgument("offset"@, "must be omitted when cursor is supplied"@)),
        offset > 2_500_000 ==> (cursor_window(
            query_hash(signature),
            Some("v1:"@ + query_hash(signature) + ":"@ + text::decimal(offset as nat)),
            None,
            max_rows,
            limit,
        ) matches Err(Problem::InvalidArgument(field, said)) && field == "offset"@),
        offset <= 2_500_000 ==> cursor_window(
            query_hash(signature),
            Some("v1:"@ + query_hash(signature) + ":"@ + text::decimal(offset as nat)),
            None,
            max_rows,
            limit,
        ) == Ok::<(u64, u64), Problem>((offset, page_size(max_rows, limit) as u64)),
        decoded(cursor) matches Err(problem) ==> cursor_window(
            query_hash(signature),
            Some(cursor),
            None,
            max_rows,
            limit,
        ) == Err::<(u64, u64), Problem>(problem),
{
    law_query_hashes_fit_cursors(signature);
    law_cursor_reads_back(query_hash(signature), offset);
}

/// A text without two colons is no cursor, nor is one of another version, nor one whose offset
/// is no number.
pub proof fn law_other_texts_are_no_cursors(
    raw: Seq<char>,
    version: Seq<char>,
    hash: Seq<char>,
    shown: Seq<char>,
)
    requires
        !version.contains(':'),
        !hash.contains(':'),
    ensures
        !raw.contains(':') ==> decoded(raw) is Err,
        version != "v1"@ ==> decoded(version + ":"@ + hash + ":"@ + shown) is Err,
        text::parsed_u64(shown) is None ==> decoded(version + ":"@ + hash + ":"@ + shown) is Err,
        text::is_blank(hash) ==> decoded(version + ":"@ + hash + ":"@ + shown) is Err,
        decoded(raw) matches Err(problem) ==> problem is InvalidCursor,
{
    reveal_strlit(":");
    text::law_first_mark_splits(version, ":"@[0], hash + ":"@ + shown);
    text::law_first_mark_splits(hash, ":"@[0], shown);
    assert(":"@ =~= seq![':']);
    assert(version + ":"@ + hash + ":"@ + shown =~= version + ":"@ + (hash + ":"@ + shown));
    if !raw.contains(':') {
        if text::holds(raw, ":"@) {
            let at = choose|at: int| #[trigger] text::stands_at(raw, ":"@, at);
            assert(raw.subrange(at, at + 1)[0] == ':');
            assert(raw[at] == ':');
        }
        text::law_texts_without_marks_do_not_split(raw, ":"@);
    }
}

/// There is a cursor to go on with exactly where rows are left, and it leads to the first of
/// them.
pub proof fn law_cursors_lead_to_the_next_row(signature: Tree, next_offset: u64, total: int)
    ensures
        next_offset >= total ==> following_cursor(query_hash(signature), next_offset, total)
            is None,
        next_offset < total ==> (following_cursor(
            query_hash(signature),
            next_offset,
            total,
        ) matches Some(cursor) && decoded(cursor) == Ok::<(Seq<char>, u64), Problem>(
            (query_hash(signature), next_offset),
        )),
{
    law_query_hashes_fit_cursors(signature);
    law_cursor_reads_back(query_hash(signature), next_offset);
}

/// A hash is shown whole where it is short, and by its first twelve bytes and two points where
/// it is not.
pub proof fn law_long_hashes_are_shown_short(hash: Seq<char>)
    requires
        text::trim(hash) == hash,
    ensures
        text::byte_len(hash) <= 12 ==> short_hash(hash) == hash,
        text::byte_len(hash) > 12 ==> short_hash(hash) == text::fitting(hash, 12) + ".."@,
{
}

/// The hash of a query is that of its signature with its keys in order, as the hasher of the
/// standard library takes it of a text.
pub proof fn law_hashes_are_taken_of_the_sorted_signature(signature: Tree, canonical: Seq<char>)
    requires
        canonical == json_text::json_text(ga_client::sorted_tree(signature)),
    ensures
        query_hash(signature) == text::hex(
            DefaultHasher::spec_finish(
                Seq::<Seq<u8>>::empty().push(encode_utf8(canonical)).push(seq![0xffu8]),
            ) as nat,
            16,
        ),
{
}

/// What is said of a text that is no cursor.
pub proof fn law_faults_of_cursors_are_said(hash: Seq<char>, shown: Seq<char>, raw: Seq<char>)
    requires
        !hash.contains(':'),
        !raw.contains(':'),
    ensures
        decoded(raw) == Err::<(Seq<char>, u64), Problem>(
            Problem::InvalidCursor("expected cursor format v1:<query_hash>:<offset>"@),
        ),
        text::parsed_u64(shown) is None ==> decoded("v1"@ + ":"@ + hash + ":"@ + shown) == Err::<
            (Seq<char>, u64),
            Problem,
        >(Problem::InvalidCursor("offset component must be a non-negative integer"@)),
        text::parsed_u64(shown) is Some && text::is_blank(hash) ==> decoded(
            "v1"@ + ":"@ + hash + ":"@ + shown,
        ) == Err::<(Seq<char>, u64), Problem>(
            Problem::InvalidCursor("query hash component must not be empty"@),
        ),
{
    reveal_strlit(":");
    reveal_strlit("v1");
    assert(":"@ =~= seq![':']);
    assert(!"v1"@.contains(':'));
    text::law_first_mark_splits("v1"@, ':', hash + ":"@ + shown);
    text::law_first_mark_splits(hash, ':', shown);
    assert("v1"@ + ":"@ + hash + ":"@ + shown =~= "v1"@ + ":"@ + (hash + ":"@ + shown));
    if text::holds(raw, ":"@) {
        let at = choose|at: int| #[trigger] text::stands_at(raw, ":"@, at);
        assert(raw.subrange(at, at + 1)[0] == ':');
        assert(raw[at] == ':');
    }
    text::law_texts_without_marks_do_not_split(raw, ":"@);
}

} // verus!
