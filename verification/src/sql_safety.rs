//! # Scratchpad SQL Safety
//!
//! Restricted SQL policy for DuckDB scratchpad execution.

use vstd::prelude::*;
use vstd::string::*;

use crate::text;

verus! {

#[derive(Debug, Clone, Copy, PartialEq, Eq, Structural)]
pub enum ScratchpadSqlPolicyCode {
    EmptySql,
    UnterminatedToken,
    MultipleStatements,
    NotReadOnlyPrefix,
    ForbiddenKeyword,
    ForbiddenFunction,
    ExplainNotReadOnly,
    ClassifierUnavailable,
    SqlTooLarge,
    DuckDbForbiddenKeyword,
    DuckDbForbiddenFunction,
}

impl ScratchpadSqlPolicyCode {
    /// The stable name of the code.
    pub open spec fn name(self) -> Seq<char> {
        match self {
            ScratchpadSqlPolicyCode::EmptySql => "EMPTY_SQL"@,
            ScratchpadSqlPolicyCode::UnterminatedToken => "UNTERMINATED_TOKEN"@,
            ScratchpadSqlPolicyCode::MultipleStatements => "MULTIPLE_STATEMENTS"@,
            ScratchpadSqlPolicyCode::NotReadOnlyPrefix => "NOT_READ_ONLY_PREFIX"@,
            ScratchpadSqlPolicyCode::ForbiddenKeyword => "FORBIDDEN_KEYWORD"@,
            ScratchpadSqlPolicyCode::ForbiddenFunction => "FORBIDDEN_FUNCTION"@,
            ScratchpadSqlPolicyCode::ExplainNotReadOnly => "EXPLAIN_NOT_READ_ONLY"@,
            ScratchpadSqlPolicyCode::ClassifierUnavailable => "CLASSIFIER_UNAVAILABLE"@,
            ScratchpadSqlPolicyCode::SqlTooLarge => "SQL_TOO_LARGE"@,
            ScratchpadSqlPolicyCode::DuckDbForbiddenKeyword => "DUCKDB_FORBIDDEN_KEYWORD"@,
            ScratchpadSqlPolicyCode::DuckDbForbiddenFunction => "DUCKDB_FORBIDDEN_FUNCTION"@,
        }
    }

    /// The stable name of the code.
    pub fn as_str(self) -> (r: &'static str)
        ensures
            r@ == self.name(),
    {
        match self {
            ScratchpadSqlPolicyCode::EmptySql => "EMPTY_SQL",
            ScratchpadSqlPolicyCode::UnterminatedToken => "UNTERMINATED_TOKEN",
            ScratchpadSqlPolicyCode::MultipleStatements => "MULTIPLE_STATEMENTS",
            ScratchpadSqlPolicyCode::NotReadOnlyPrefix => "NOT_READ_ONLY_PREFIX",
            ScratchpadSqlPolicyCode::ForbiddenKeyword => "FORBIDDEN_KEYWORD",
            ScratchpadSqlPolicyCode::ForbiddenFunction => "FORBIDDEN_FUNCTION",
            ScratchpadSqlPolicyCode::ExplainNotReadOnly => "EXPLAIN_NOT_READ_ONLY",
            ScratchpadSqlPolicyCode::ClassifierUnavailable => "CLASSIFIER_UNAVAILABLE",
            ScratchpadSqlPolicyCode::SqlTooLarge => "SQL_TOO_LARGE",
            ScratchpadSqlPolicyCode::DuckDbForbiddenKeyword => "DUCKDB_FORBIDDEN_KEYWORD",
            ScratchpadSqlPolicyCode::DuckDbForbiddenFunction => "DUCKDB_FORBIDDEN_FUNCTION",
        }
    }
}

#[derive(Debug, Clone, PartialEq, Eq)]
pub struct ScratchpadSqlPolicyError {
    pub code: ScratchpadSqlPolicyCode,
    pub message: String,
}

impl ScratchpadSqlPolicyError {
    /// A rejection with its code and the message for the caller.
    pub fn new(code: ScratchpadSqlPolicyCode, message: &str) -> (r: Self)
        ensures
            r.code == code,
            r.message@ == message@,
    {
        ScratchpadSqlPolicyError { code, message: message.to_owned() }
    }
}

// ---------------------------------------------------------------------------
// The lexical surface: SQL with everything inside literals and comments blanked.
// ---------------------------------------------------------------------------

/// What is left of a byte that stands outside literals and comments.
pub open spec fn shown(b: u8) -> char {
    if b == 10 || b == 13 || b == 9 || 0x20 <= b <= 0x7e {
        b as char
    } else {
        ' '
    }
}

/// What is left of a byte inside a literal or a block comment: only the layout.
pub open spec fn hidden(b: u8) -> char {
    if b == 10 || b == 13 || b == 9 {
        b as char
    } else {
        ' '
    }
}

/// What is left of a run of hidden bytes.
pub open spec fn all_hidden(bytes: Seq<u8>) -> Seq<char> {
    Seq::new(bytes.len(), |i: int| hidden(bytes[i]))
}

/// A run of blanks.
pub open spec fn blanks(n: nat) -> Seq<char> {
    Seq::new(n, |i: int| ' ')
}

/// A byte that may stand in a dollar-quote tag or in an identifier after its first byte.
pub open spec fn tag_byte(b: u8) -> bool {
    48 <= b <= 57 || 65 <= b <= 90 || 97 <= b <= 122 || b == 95
}

/// `n` more than a count, where there is a count.
pub open spec fn plus(count: Option<nat>, n: nat) -> Option<nat> {
    match count {
        Some(m) => Some(m + n),
        None => None,
    }
}

/// `head` before a text, where there is a text.
pub open spec fn onto(head: Seq<char>, tail: Option<Seq<char>>) -> Option<Seq<char>> {
    match tail {
        Some(after) => Some(head + after),
        None => None,
    }
}

/// The number of bytes from here to the end of a quoted token, its closing quote
/// with them; two quotes in a row stand for one that is quoted.
pub open spec fn quoted_len(rest: Seq<u8>, quote: u8) -> Option<nat>
    decreases rest.len(),
{
    if rest.len() == 0 {
        None
    } else if rest[0] != quote {
        plus(quoted_len(rest.skip(1), quote), 1)
    } else if rest.len() > 1 && rest[1] == quote {
        plus(quoted_len(rest.skip(2), quote), 2)
    } else {
        Some(1)
    }
}

/// The number of bytes from here to the end of a block comment that is `depth` deep,
/// the closing marks with them; block comments nest.
pub open spec fn comment_len(rest: Seq<u8>, depth: nat) -> Option<nat>
    decreases rest.len(),
{
    if rest.len() == 0 {
        None
    } else if rest.len() > 1 && rest[0] == 47 && rest[1] == 42 {
        plus(comment_len(rest.skip(2), depth + 1), 2)
    } else if rest.len() > 1 && rest[0] == 42 && rest[1] == 47 {
        if depth <= 1 {
            Some(2)
        } else {
            plus(comment_len(rest.skip(2), (depth - 1) as nat), 2)
        }
    } else {
        plus(comment_len(rest.skip(1), depth), 1)
    }
}

/// The number of bytes from here to the end of the line, the line feed not with them.
pub open spec fn line_len(rest: Seq<u8>) -> nat
    decreases rest.len(),
{
    if rest.len() == 0 || rest[0] == 10 {
        0
    } else {
        line_len(rest.skip(1)) + 1
    }
}

/// The number of tag bytes from here to a dollar sign, that sign with them.
pub open spec fn tag_tail(rest: Seq<u8>) -> Option<nat>
    decreases rest.len(),
{
    if rest.len() == 0 {
        None
    } else if rest[0] == 36 {
        Some(1)
    } else if tag_byte(rest[0]) {
        plus(tag_tail(rest.skip(1)), 1)
    } else {
        None
    }
}

/// The length of the dollar-quote tag, `$name$`, that begins here.
pub open spec fn tag_len(rest: Seq<u8>) -> Option<nat> {
    if rest.len() > 0 && rest[0] == 36 {
        plus(tag_tail(rest.skip(1)), 1)
    } else {
        None
    }
}

/// The number of bytes from here to the end of the next `tag`, the tag with them.
pub open spec fn until_tag(rest: Seq<u8>, tag: Seq<u8>) -> Option<nat>
    decreases rest.len(),
{
    if rest.len() == 0 {
        None
    } else if tag.len() <= rest.len() && rest.take(tag.len() as int) == tag {
        Some(tag.len())
    } else {
        plus(until_tag(rest.skip(1), tag), 1)
    }
}

/// What the SQL that is left begins with.
pub enum Token {
    /// A byte outside literals and comments.
    Plain,
    /// A line comment of so many bytes.
    Line(nat),
    /// A literal, a quoted identifier or a block comment of so many bytes.
    Hidden(nat),
    /// A literal, a quoted identifier or a block comment that does not end.
    Open,
}

/// A hidden token of `head` bytes and of the `tail` that ends it, if anything does.
pub open spec fn hidden_token(head: nat, tail: Option<nat>) -> Token {
    match tail {
        Some(n) => Token::Hidden(head + n),
        None => Token::Open,
    }
}

/// The token that `rest` begins with.
pub open spec fn first_token(rest: Seq<u8>) -> Token {
    if rest.len() > 1 && rest[0] == 45 && rest[1] == 45 {
        Token::Line(2 + line_len(rest.skip(2)))
    } else if rest.len() > 1 && rest[0] == 47 && rest[1] == 42 {
        hidden_token(2, comment_len(rest.skip(2), 1))
    } else if rest[0] == 39 || rest[0] == 34 {
        hidden_token(1, quoted_len(rest.skip(1), rest[0]))
    } else {
        match tag_len(rest) {
            Some(n) => hidden_token(n, until_tag(rest.skip(n as int), rest.take(n as int))),
            None => Token::Plain,
        }
    }
}

/// The lexical surface of SQL text, given by its bytes: one character per byte. There
/// is none where a literal, a quoted identifier or a block comment does not end.
pub open spec fn surface(rest: Seq<u8>) -> Option<Seq<char>>
    decreases rest.len(),
{
    if rest.len() == 0 {
        Some(Seq::<char>::empty())
    } else {
        match first_token(rest) {
            Token::Plain => onto(seq![shown(rest[0])], surface(rest.skip(1))),
            Token::Line(n) => if 0 < n <= rest.len() {
                onto(blanks(n), surface(rest.skip(n as int)))
            } else {
                None
            },
            Token::Hidden(n) => if 0 < n <= rest.len() {
                onto(all_hidden(rest.take(n as int)), surface(rest.skip(n as int)))
            } else {
                None
            },
            Token::Open => None,
        }
    }
}

/// Whether `b` may stand in a dollar-quote tag.
fn is_tag_byte(b: u8) -> (r: bool)
    ensures
        r == tag_byte(b),
{
    (48 <= b && b <= 57) || (65 <= b && b <= 90) || (97 <= b && b <= 122) || b == 95
}

/// What is left of a byte that stands outside literals and comments.
pub fn mask_byte(b: u8) -> (r: char)
    ensures
        r == shown(b),
{
    if b == 10 || b == 13 || b == 9 || (0x20 <= b && b <= 0x7e) {
        b as char
    } else {
        ' '
    }
}

/// What is left of a byte inside a literal or a block comment.
pub fn mask_hidden_byte(b: u8) -> (r: char)
    ensures
        r == hidden(b),
{
    if b == 10 || b == 13 || b == 9 {
        b as char
    } else {
        ' '
    }
}

/// Measures a quoted token from the byte after its opening quote.
fn measure_quoted(bytes: &[u8], from: usize, quote: u8) -> (r: Option<usize>)
    requires
        from <= bytes@.len(),
    ensures
        match r {
            Some(n) => quoted_len(bytes@.skip(from as int), quote) == Some(n as nat) && from + n
                <= bytes@.len(),
            None => quoted_len(bytes@.skip(from as int), quote) is None,
        },
{
    let end: usize = bytes.len();
    let mut i: usize = from;
    while i < end
        invariant
            end == bytes@.len(),
            from <= i <= end,
            quoted_len(bytes@.skip(from as int), quote) == plus(
                quoted_len(bytes@.skip(i as int), quote),
                (i - from) as nat,
            ),
        decreases end - i,
    {
        let ghost rest = bytes@.skip(i as int);
        assert(rest.skip(1) =~= bytes@.skip(i + 1));
        if bytes[i] != quote {
            i = i + 1;
        } else if end - i > 1 && bytes[i + 1] == quote {
            assert(rest.skip(2) =~= bytes@.skip(i + 2));
            i = i + 2;
        } else {
            return Some(i + 1 - from);
        }
    }
    None
}

/// Measures a block comment from the byte after its opening marks.
fn measure_comment(bytes: &[u8], from: usize) -> (r: Option<usize>)
    requires
        from <= bytes@.len(),
    ensures
        match r {
            Some(n) => comment_len(bytes@.skip(from as int), 1) == Some(n as nat) && from + n
                <= bytes@.len(),
            None => comment_len(bytes@.skip(from as int), 1) is None,
        },
{
    let end: usize = bytes.len();
    let mut i: usize = from;
    let mut depth: usize = 1;
    while i < end
        invariant
            end == bytes@.len(),
            from <= i <= end,
            1 <= depth <= 1 + i - from,
            comment_len(bytes@.skip(from as int), 1) == plus(
                comment_len(bytes@.skip(i as int), depth as nat),
                (i - from) as nat,
            ),
        decreases end - i,
    {
        let ghost rest = bytes@.skip(i as int);
        assert(rest.skip(1) =~= bytes@.skip(i + 1));
        assert(end - i > 1 ==> rest.skip(2) =~= bytes@.skip(i + 2));
        if end - i > 1 && bytes[i] == 47 && bytes[i + 1] == 42 {
            depth = depth + 1;
            i = i + 2;
        } else if end - i > 1 && bytes[i] == 42 && bytes[i + 1] == 47 {
            if depth == 1 {
                return Some(i + 2 - from);
            }
            depth = depth - 1;
            i = i + 2;
        } else {
            i = i + 1;
        }
    }
    None
}

/// Measures what is left of a line.
fn measure_line(bytes: &[u8], from: usize) -> (n: usize)
    requires
        from <= bytes@.len(),
    ensures
        n == line_len(bytes@.skip(from as int)),
        from + n <= bytes@.len(),
{
    let end: usize = bytes.len();
    let mut i: usize = from;
    while i < end && bytes[i] != 10
        invariant
            end == bytes@.len(),
            from <= i <= end,
            line_len(bytes@.skip(from as int)) == line_len(bytes@.skip(i as int)) + (i - from),
        decreases end - i,
    {
        assert(bytes@.skip(i as int).skip(1) =~= bytes@.skip(i + 1));
        i = i + 1;
    }
    i - from
}

/// The length of the dollar-quote tag that begins at `from`.
pub fn parse_dollar_tag(bytes: &[u8], from: usize) -> (r: Option<usize>)
    requires
        from < bytes@.len(),
    ensures
        match r {
            Some(n) => tag_len(bytes@.skip(from as int)) == Some(n as nat) && 1 < n && from + n
                <= bytes@.len(),
            None => tag_len(bytes@.skip(from as int)) is None,
        },
{
    if bytes[from] != 36 {
        return None;
    }
    let ghost rest = bytes@.skip(from as int);
    assert(rest.skip(1) =~= bytes@.skip(from + 1));
    let end: usize = bytes.len();
    let mut i: usize = from + 1;
    while i < end
        invariant
            end == bytes@.len(),
            from + 1 <= i <= end,
            tag_tail(bytes@.skip(from + 1)) == plus(
                tag_tail(bytes@.skip(i as int)),
                (i - from - 1) as nat,
            ),
            tag_len(bytes@.skip(from as int)) == plus(tag_tail(bytes@.skip(from + 1)), 1),
        decreases end - i,
    {
        assert(bytes@.skip(i as int).skip(1) =~= bytes@.skip(i + 1));
        if bytes[i] == 36 {
            return Some(i + 1 - from);
        }
        if !is_tag_byte(bytes[i]) {
            return None;
        }
        i = i + 1;
    }
    None
}

/// Whether the bytes from `at` begin with those from `tag` up to `tag + n`.
fn tag_stands_at(bytes: &[u8], tag: usize, n: usize, at: usize) -> (r: bool)
    requires
        tag + n <= bytes@.len(),
        at <= bytes@.len(),
    ensures
        r == (n <= bytes@.len() - at && bytes@.skip(at as int).take(n as int) == bytes@.subrange(
            tag as int,
            tag + n,
        )),
{
    if n > bytes.len() - at {
        return false;
    }
    let end: usize = bytes.len();
    for k in 0..n
        invariant
            end == bytes@.len(),
            tag + n <= end,
            at + n <= end,
            forall|j: int| 0 <= j < k ==> bytes@[at + j] == #[trigger] bytes@[tag + j],
    {
        if bytes[at + k] != bytes[tag + k] {
            assert(bytes@.skip(at as int).take(n as int)[k as int] != bytes@.subrange(
                tag as int,
                tag + n,
            )[k as int]);
            return false;
        }
    }
    assert forall|j: int| 0 <= j < n implies bytes@.skip(at as int).take(n as int)[j]
        == bytes@.subrange(tag as int, tag + n)[j] by {
        assert(bytes@[at + j] == bytes@[tag + j]);
    }
    assert(bytes@.skip(at as int).take(n as int) =~= bytes@.subrange(tag as int, tag + n));
    true
}

/// Measures a dollar-quoted literal whose tag begins at `tag` and is `n` long, from the
/// byte after that tag.
fn measure_dollar(bytes: &[u8], tag: usize, n: usize) -> (r: Option<usize>)
    requires
        0 < n,
        tag + n <= bytes@.len(),
    ensures
        match r {
            Some(m) => until_tag(
                bytes@.skip(tag + n),
                bytes@.subrange(tag as int, tag + n),
            ) == Some(m as nat) && tag + n + m <= bytes@.len(),
            None => until_tag(
                bytes@.skip(tag + n),
                bytes@.subrange(tag as int, tag + n),
            ) is None,
        },
{
    let end: usize = bytes.len();
    let from: usize = tag + n;
    let ghost mark = bytes@.subrange(tag as int, tag + n);
    let mut i: usize = from;
    while i < end
        invariant
            end == bytes@.len(),
            0 < n,
            from == tag + n,
            from <= i <= end,
            mark == bytes@.subrange(tag as int, tag + n),
            until_tag(bytes@.skip(from as int), mark) == plus(
                until_tag(bytes@.skip(i as int), mark),
                (i - from) as nat,
            ),
        decreases end - i,
    {
        assert(bytes@.skip(i as int).skip(1) =~= bytes@.skip(i + 1));
        if tag_stands_at(bytes, tag, n, i) {
            return Some(i + n - from);
        }
        i = i + 1;
    }
    None
}

/// Where the token at `from` ends, and whether it is a line comment.
enum Step {
    Plain,
    Line(usize),
    Hidden(usize),
    Open,
}

impl Step {
    spec fn token(self) -> Token {
        match self {
            Step::Plain => Token::Plain,
            Step::Line(n) => Token::Line(n as nat),
            Step::Hidden(n) => Token::Hidden(n as nat),
            Step::Open => Token::Open,
        }
    }
}

/// The token that begins at `from`.
fn next_step(bytes: &[u8], from: usize) -> (r: Step)
    requires
        from < bytes@.len(),
    ensures
        r.token() == first_token(bytes@.skip(from as int)),
        r matches Step::Line(n) ==> 0 < n && from + n <= bytes@.len(),
        r matches Step::Hidden(n) ==> 0 < n && from + n <= bytes@.len(),
{
    let ghost rest = bytes@.skip(from as int);
    let left: usize = bytes.len() - from;
    let b: u8 = bytes[from];
    if left > 1 {
        assert(rest.skip(2) =~= bytes@.skip(from + 2));
        if b == 45 && bytes[from + 1] == 45 {
            return Step::Line(2 + measure_line(bytes, from + 2));
        }
        if b == 47 && bytes[from + 1] == 42 {
            return match measure_comment(bytes, from + 2) {
                Some(n) => Step::Hidden(2 + n),
                None => Step::Open,
            };
        }
    }
    if b == 39 || b == 34 {
        assert(rest.skip(1) =~= bytes@.skip(from + 1));
        return match measure_quoted(bytes, from + 1, b) {
            Some(n) => Step::Hidden(1 + n),
            None => Step::Open,
        };
    }
    match parse_dollar_tag(bytes, from) {
        Some(n) => {
            assert(rest.skip(n as int) =~= bytes@.skip(from + n));
            assert(rest.take(n as int) =~= bytes@.subrange(from as int, from + n));
            match measure_dollar(bytes, from, n) {
                Some(m) => Step::Hidden(n + m),
                None => Step::Open,
            }
        },
        None => Step::Plain,
    }
}

/// The lexical surface of `sql`: literals, quoted identifiers and comments are blanked,
/// and so is every byte that is not printable ASCII or layout.
pub fn lexical_surface(sql: &str) -> (r: Result<String, ScratchpadSqlPolicyError>)
    ensures
        match r {
            Ok(out) => surface(sql.spec_bytes()) == Some(out@),
            Err(err) => surface(sql.spec_bytes()) is None && err.code
                == ScratchpadSqlPolicyCode::UnterminatedToken && err.message@
                == "scratchpad policy rejected SQL with unterminated quote/comment"@,
        },
{
    let bytes: &[u8] = sql.as_bytes();
    let end: usize = bytes.len();
    let mut out: String = String::new();
    let mut i: usize = 0;
    assert(bytes@.skip(0) =~= bytes@);
    proof {
        match surface(bytes@) {
            Some(all) => {
                assert(out@ + all =~= all);
            },
            None => {},
        }
    }
    while i < end
        invariant
            end == bytes@.len(),
            bytes@ == sql.spec_bytes(),
            i <= end,
            surface(bytes@) == onto(out@, surface(bytes@.skip(i as int))),
        decreases end - i,
    {
        let ghost rest = bytes@.skip(i as int);
        let ghost before = out@;
        match next_step(bytes, i) {
            Step::Plain => {
                assert(rest.skip(1) =~= bytes@.skip(i + 1));
                out.push(mask_byte(bytes[i]));
                proof {
                    lemma_onto(before, seq![shown(rest[0])], surface(rest.skip(1)));
                    assert(out@ =~= before + seq![shown(rest[0])]);
                }
                i = i + 1;
            },
            Step::Line(n) => {
                assert(rest.skip(n as int) =~= bytes@.skip(i + n));
                for k in 0..n
                    invariant
                        out@ == before + blanks(k as nat),
                {
                    out.push(' ');
                    assert(out@ =~= before + blanks((k + 1) as nat));
                }
                proof {
                    lemma_onto(before, blanks(n as nat), surface(rest.skip(n as int)));
                }
                i = i + n;
            },
            Step::Hidden(n) => {
                assert(rest.skip(n as int) =~= bytes@.skip(i + n));
                assert(out@ =~= before + all_hidden(rest.take(0)));
                for k in 0..n
                    invariant
                        end == bytes@.len(),
                        rest == bytes@.skip(i as int),
                        i + n <= end,
                        out@ == before + all_hidden(rest.take(k as int)),
                {
                    out.push(mask_hidden_byte(bytes[i + k]));
                    assert(out@ =~= before + all_hidden(rest.take(k + 1)));
                }
                proof {
                    lemma_onto(
                        before,
                        all_hidden(rest.take(n as int)),
                        surface(rest.skip(n as int)),
                    );
                }
                i = i + n;
            },
            Step::Open => {
                return Err(
                    ScratchpadSqlPolicyError::new(
                        ScratchpadSqlPolicyCode::UnterminatedToken,
                        "scratchpad policy rejected SQL with unterminated quote/comment",
                    ),
                );
            },
        }
    }
    assert(out@ + Seq::<char>::empty() =~= out@);
    Ok(out)
}

proof fn lemma_onto(head: Seq<char>, middle: Seq<char>, tail: Option<Seq<char>>)
    ensures
        onto(head, onto(middle, tail)) == onto(head + middle, tail),
{
    match tail {
        Some(after) => {
            assert(head + (middle + after) =~= (head + middle) + after);
        },
        None => {},
    }
}

// ---------------------------------------------------------------------------
// Forbidden words and calls on the surface.
// ---------------------------------------------------------------------------

/// A character of an identifier.
pub open spec fn word_char(ch: char) -> bool {
    text::is_alnum(ch) || ch == '_'
}

/// A character that an identifier may begin with.
pub open spec fn word_start(ch: char) -> bool {
    text::is_lower(ch) || text::is_upper(ch) || ch == '_'
}

/// Whether all characters of `line` from `i` up to `j` are identifier characters.
pub open spec fn all_word(line: Seq<char>, i: int, j: int) -> bool {
    forall|k: int| i <= k < j ==> word_char(#[trigger] line[k])
}

/// Whether the characters from `i` up to `j` are a word: a run of identifier characters
/// that none stands next to.
pub open spec fn word_at(line: Seq<char>, i: int, j: int) -> bool {
    &&& 0 <= i < j <= line.len()
    &&& all_word(line, i, j)
    &&& i > 0 ==> !word_char(line[i - 1])
    &&& j < line.len() ==> !word_char(line[j])
}

/// The DuckDB statements that reach extensions, files or other databases.
pub open spec fn forbidden_keyword(word: Seq<char>) -> bool {
    ||| word == "INSTALL"@
    ||| word == "LOAD"@
    ||| word == "ATTACH"@
    ||| word == "DETACH"@
    ||| word == "EXPORT"@
    ||| word == "IMPORT"@
}

/// Whether a forbidden keyword is one of the words of `line`.
pub open spec fn has_forbidden_keyword(line: Seq<char>) -> bool {
    exists|i: int, j: int| #[trigger] word_at(line, i, j) && forbidden_keyword(line.subrange(i, j))
}

/// The DuckDB functions that read files or other databases.
pub open spec fn forbidden_function(name: Seq<char>) -> bool {
    ||| name == "READ_CSV"@
    ||| name == "READ_CSV_AUTO"@
    ||| name == "READ_PARQUET"@
    ||| name == "READ_JSON"@
    ||| name == "READ_JSON_AUTO"@
    ||| name == "READ_NDJSON"@
    ||| name == "READ_BLOB"@
    ||| name == "READ_TEXT"@
    ||| name == "READ_XLSX"@
    ||| name == "CSV_SCAN"@
    ||| name == "PARQUET_SCAN"@
    ||| name == "JSON_SCAN"@
    ||| name == "POSTGRES_SCAN"@
    ||| name == "MYSQL_SCAN"@
    ||| name == "SQLITE_SCAN"@
}

/// Whether an identifier that begins at `m` runs on up to `i`.
pub open spec fn runs_into(line: Seq<char>, m: int, i: int) -> bool {
    0 <= m < i && word_start(line[m]) && all_word(line, m, i)
}

/// Whether the characters from `i` up to `j` are an identifier: it begins as one may, is
/// no part of one that begins before it, and ends where identifier characters end.
pub open spec fn name_at(line: Seq<char>, i: int, j: int) -> bool {
    &&& 0 <= i < j <= line.len()
    &&& word_start(line[i])
    &&& all_word(line, i, j)
    &&& j < line.len() ==> !word_char(line[j])
    &&& forall|m: int| !#[trigger] runs_into(line, m, i)
}

/// The blanks that ASCII knows.
pub open spec fn ascii_blank(ch: char) -> bool {
    ch as u32 == 32 || ch as u32 == 9 || ch as u32 == 10 || ch as u32 == 12 || ch as u32 == 13
}

/// Whether the next character from `j` on that is no blank is an opening bracket.
pub open spec fn bracket_follows(line: Seq<char>, j: int) -> bool
    decreases line.len() - j,
{
    if j < 0 || j >= line.len() {
        false
    } else if ascii_blank(line[j]) {
        bracket_follows(line, j + 1)
    } else {
        line[j] == '('
    }
}

/// Whether `line` calls a forbidden function.
pub open spec fn has_forbidden_call(line: Seq<char>) -> bool {
    exists|i: int, j: int|
        #[trigger] name_at(line, i, j) && forbidden_function(line.subrange(i, j))
            && bracket_follows(line, j)
}

/// Whether `byte` may begin an identifier.
pub fn is_identifier_start(ch: char) -> (r: bool)
    ensures
        r == word_start(ch),
{
    ('a' <= ch && ch <= 'z') || ('A' <= ch && ch <= 'Z') || ch == '_'
}

/// Whether `byte` may stand in an identifier.
pub fn is_identifier_continue(ch: char) -> (r: bool)
    ensures
        r == word_char(ch),
{
    text::alnum_char(ch) || ch == '_'
}

/// Whether `word` is a forbidden keyword.
fn is_forbidden_keyword(word: &str) -> (r: bool)
    ensures
        r == forbidden_keyword(word@),
{
    text::same_text(word, "INSTALL") || text::same_text(word, "LOAD") || text::same_text(
        word,
        "ATTACH",
    ) || text::same_text(word, "DETACH") || text::same_text(word, "EXPORT") || text::same_text(
        word,
        "IMPORT",
    )
}

/// Whether `name` is a forbidden function.
fn is_forbidden_function(name: &str) -> (r: bool)
    ensures
        r == forbidden_function(name@),
{
    text::same_text(name, "READ_CSV") || text::same_text(name, "READ_CSV_AUTO") || text::same_text(
        name,
        "READ_PARQUET",
    ) || text::same_text(name, "READ_JSON") || text::same_text(name, "READ_JSON_AUTO")
        || text::same_text(name, "READ_NDJSON") || text::same_text(name, "READ_BLOB")
        || text::same_text(name, "READ_TEXT") || text::same_text(name, "READ_XLSX")
        || text::same_text(name, "CSV_SCAN") || text::same_text(name, "PARQUET_SCAN")
        || text::same_text(name, "JSON_SCAN") || text::same_text(name, "POSTGRES_SCAN")
        || text::same_text(name, "MYSQL_SCAN") || text::same_text(name, "SQLITE_SCAN")
}

/// The end of the run of identifier characters that begins at `from`.
fn word_end(line: &[char], from: usize) -> (end: usize)
    requires
        from <= line@.len(),
    ensures
        from <= end <= line@.len(),
        all_word(line@, from as int, end as int),
        end < line@.len() ==> !word_char(line@[end as int]),
{
    let mut end: usize = from;
    while end < line.len() && is_identifier_continue(line[end])
        invariant
            from <= end <= line@.len(),
            all_word(line@, from as int, end as int),
        decreases line@.len() - end,
    {
        end = end + 1;
    }
    end
}

/// Whether a forbidden keyword is one of the words of an upper-case surface.
pub fn contains_forbidden_keyword(surface_upper: &str) -> (r: bool)
    ensures
        r == has_forbidden_keyword(surface_upper@),
{
    let line: Vec<char> = text::chars_of(surface_upper);
    let n: usize = line.len();
    let mut i: usize = 0;
    while i < n
        invariant
            n == line@.len(),
            line@ == surface_upper@,
            i <= n,
            i > 0 && i < n ==> !word_char(line@[i - 1]) || !word_char(line@[i as int]),
            forall|a: int, b: int|
                #[trigger] word_at(line@, a, b) && a < i ==> !forbidden_keyword(
                    line@.subrange(a, b),
                ),
        decreases n - i,
    {
        if is_identifier_continue(line[i]) {
            let end: usize = word_end(&line, i);
            assert(end > i);
            let word: String = text::text_between(&line, i, end);
            if is_forbidden_keyword(word.as_str()) {
                assert(word_at(line@, i as int, end as int));
                return true;
            }
            assert forall|a: int, b: int| #[trigger]
                word_at(line@, a, b) && a < end implies !forbidden_keyword(
                line@.subrange(a, b),
            ) by {
                if a >= i {
                    if a > i {
                        assert(word_char(line@[a - 1]));
                    }
                    assert(a == i);
                    if b < end {
                        assert(word_char(line@[b]));
                    }
                    if b > end {
                        assert(word_char(line@[end as int]));
                    }
                    assert(b == end);
                }
            }
            i = end;
        } else {
            assert forall|a: int, b: int| #[trigger]
                word_at(line@, a, b) && a < i + 1 implies !forbidden_keyword(
                line@.subrange(a, b),
            ) by {
                if a == i {
                    assert(word_char(line@[a]));
                }
            }
            i = i + 1;
        }
    }
    false
}

/// Whether the next character from `from` on that is no blank is an opening bracket.
fn opens_bracket(line: &[char], from: usize) -> (r: bool)
    requires
        from <= line@.len(),
    ensures
        r == bracket_follows(line@, from as int),
{
    let mut i: usize = from;
    while i < line.len()
        invariant
            from <= i <= line@.len(),
            bracket_follows(line@, from as int) == bracket_follows(line@, i as int),
        decreases line@.len() - i,
    {
        let code: u32 = line[i] as u32;
        if code == 32 || code == 9 || code == 10 || code == 12 || code == 13 {
            i = i + 1;
        } else {
            return line[i] == '(';
        }
    }
    false
}

/// Whether an upper-case surface calls a forbidden function.
pub fn contains_forbidden_function_call(surface_upper: &str) -> (r: bool)
    ensures
        r == has_forbidden_call(surface_upper@),
{
    let line: Vec<char> = text::chars_of(surface_upper);
    let n: usize = line.len();
    let mut i: usize = 0;
    while i < n
        invariant
            n == line@.len(),
            line@ == surface_upper@,
            i <= n,
            forall|m: int| i < n && word_char(line@[i as int]) ==> !#[trigger] runs_into(
                line@,
                m,
                i as int,
            ),
            forall|a: int, b: int|
                #[trigger] name_at(line@, a, b) && a < i ==> !(forbidden_function(
                    line@.subrange(a, b),
                ) && bracket_follows(line@, b)),
        decreases n - i,
    {
        if is_identifier_start(line[i]) {
            let end: usize = word_end(&line, i);
            assert(end > i);
            let name: String = text::text_between(&line, i, end);
            assert(name_at(line@, i as int, end as int));
            if opens_bracket(&line, end) && is_forbidden_function(name.as_str()) {
                return true;
            }
            assert forall|a: int, b: int| #[trigger]
                name_at(line@, a, b) && a < end implies !(forbidden_function(line@.subrange(a, b))
                && bracket_follows(line@, b)) by {
                if a >= i {
                    if a > i {
                        assert(runs_into(line@, i as int, a));
                    }
                    if b < end {
                        assert(word_char(line@[b]));
                    }
                    if b > end {
                        assert(word_char(line@[end as int]));
                    }
                    assert(a == i && b == end);
                }
            }
            i = end;
        } else {
            assert forall|m: int|
                i + 1 < n && word_char(line@[i + 1]) implies !#[trigger] runs_into(
                line@,
                m,
                i + 1,
            ) by {
                if runs_into(line@, m, i + 1) {
                    assert(word_char(line@[i as int]));
                    assert(m != i);
                    assert(runs_into(line@, m, i as int));
                }
            }
            assert forall|a: int, b: int| #[trigger]
                name_at(line@, a, b) && a < i + 1 implies !(forbidden_function(
                line@.subrange(a, b),
            ) && bracket_follows(line@, b)) by {}
            i = i + 1;
        }
    }
    false
}

// ---------------------------------------------------------------------------
// The policy.
// ---------------------------------------------------------------------------

/// The reason that the restricted SQL authority gives for a refusal.
#[derive(Debug, Clone, Copy, PartialEq, Eq, Structural)]
pub enum DecisionCode {
    EmptySql,
    UnterminatedToken,
    MultipleStatements,
    NotReadOnlyPrefix,
    ForbiddenKeyword,
    ForbiddenFunction,
    ExplainNotReadOnly,
    /// Every other reason.
    Other,
}

/// What the restricted SQL authority decided.
#[derive(Debug, Clone, Copy, PartialEq, Eq, Structural)]
pub struct PolicyAuthorityDecision {
    pub allow: bool,
    /// The reason, where the authority gives one that is known.
    pub code: Option<DecisionCode>,
}

/// The policy code of an authority's reason.
pub open spec fn policy_code(code: Option<DecisionCode>) -> ScratchpadSqlPolicyCode {
    match code {
        Some(DecisionCode::EmptySql) => ScratchpadSqlPolicyCode::EmptySql,
        Some(DecisionCode::UnterminatedToken) => ScratchpadSqlPolicyCode::UnterminatedToken,
        Some(DecisionCode::MultipleStatements) => ScratchpadSqlPolicyCode::MultipleStatements,
        Some(DecisionCode::NotReadOnlyPrefix) => ScratchpadSqlPolicyCode::NotReadOnlyPrefix,
        Some(DecisionCode::ForbiddenKeyword) => ScratchpadSqlPolicyCode::ForbiddenKeyword,
        Some(DecisionCode::ForbiddenFunction) => ScratchpadSqlPolicyCode::ForbiddenFunction,
        Some(DecisionCode::ExplainNotReadOnly) => ScratchpadSqlPolicyCode::ExplainNotReadOnly,
        Some(DecisionCode::Other) => ScratchpadSqlPolicyCode::ClassifierUnavailable,
        None => ScratchpadSqlPolicyCode::ClassifierUnavailable,
    }
}

/// The policy code of an authority's reason.
pub fn scratchpad_error_code(code: Option<DecisionCode>) -> (r: ScratchpadSqlPolicyCode)
    ensures
        r == policy_code(code),
{
    match code {
        Some(DecisionCode::EmptySql) => ScratchpadSqlPolicyCode::EmptySql,
        Some(DecisionCode::UnterminatedToken) => ScratchpadSqlPolicyCode::UnterminatedToken,
        Some(DecisionCode::MultipleStatements) => ScratchpadSqlPolicyCode::MultipleStatements,
        Some(DecisionCode::NotReadOnlyPrefix) => ScratchpadSqlPolicyCode::NotReadOnlyPrefix,
        Some(DecisionCode::ForbiddenKeyword) => ScratchpadSqlPolicyCode::ForbiddenKeyword,
        Some(DecisionCode::ForbiddenFunction) => ScratchpadSqlPolicyCode::ForbiddenFunction,
        Some(DecisionCode::ExplainNotReadOnly) => ScratchpadSqlPolicyCode::ExplainNotReadOnly,
        Some(DecisionCode::Other) => ScratchpadSqlPolicyCode::ClassifierUnavailable,
        None => ScratchpadSqlPolicyCode::ClassifierUnavailable,
    }
}

/// The message that goes with a policy code.
pub open spec fn policy_message(code: ScratchpadSqlPolicyCode) -> Seq<char> {
    match code {
        ScratchpadSqlPolicyCode::EmptySql => "sql must not be empty"@,
        ScratchpadSqlPolicyCode::UnterminatedToken =>
            "restricted mode could not parse SQL lexical surface"@,
        ScratchpadSqlPolicyCode::MultipleStatements =>
            "restricted mode allows only a single SQL statement"@,
        ScratchpadSqlPolicyCode::NotReadOnlyPrefix =>
            "restricted mode allows only allowlisted SQL prefixes"@,
        ScratchpadSqlPolicyCode::ForbiddenKeyword => "restricted mode rejected write/admin SQL"@,
        ScratchpadSqlPolicyCode::ForbiddenFunction =>
            "restricted mode rejected unsafe function call"@,
        ScratchpadSqlPolicyCode::ExplainNotReadOnly =>
            "restricted mode allows EXPLAIN only for read-only statements"@,
        ScratchpadSqlPolicyCode::ClassifierUnavailable =>
            "restricted mode policy classifier unavailable"@,
        ScratchpadSqlPolicyCode::SqlTooLarge => "sql payload exceeds scratchpad size limit"@,
        ScratchpadSqlPolicyCode::DuckDbForbiddenKeyword =>
            "scratchpad policy rejected DuckDB extension/file keyword"@,
        ScratchpadSqlPolicyCode::DuckDbForbiddenFunction =>
            "scratchpad policy rejected DuckDB external scan/read function"@,
    }
}

/// The message that goes with a policy code.
pub fn scratchpad_error_message(code: ScratchpadSqlPolicyCode) -> (r: &'static str)
    ensures
        r@ == policy_message(code),
{
    match code {
        ScratchpadSqlPolicyCode::EmptySql => "sql must not be empty",
        ScratchpadSqlPolicyCode::UnterminatedToken =>
            "restricted mode could not parse SQL lexical surface",
        ScratchpadSqlPolicyCode::MultipleStatements =>
            "restricted mode allows only a single SQL statement",
        ScratchpadSqlPolicyCode::NotReadOnlyPrefix =>
            "restricted mode allows only allowlisted SQL prefixes",
        ScratchpadSqlPolicyCode::ForbiddenKeyword => "restricted mode rejected write/admin SQL",
        ScratchpadSqlPolicyCode::ForbiddenFunction =>
            "restricted mode rejected unsafe function call",
        ScratchpadSqlPolicyCode::ExplainNotReadOnly =>
            "restricted mode allows EXPLAIN only for read-only statements",
        ScratchpadSqlPolicyCode::ClassifierUnavailable =>
            "restricted mode policy classifier unavailable",
        ScratchpadSqlPolicyCode::SqlTooLarge => "sql payload exceeds scratchpad size limit",
        ScratchpadSqlPolicyCode::DuckDbForbiddenKeyword =>
            "scratchpad policy rejected DuckDB extension/file keyword",
        ScratchpadSqlPolicyCode::DuckDbForbiddenFunction =>
            "scratchpad policy rejected DuckDB external scan/read function",
    }
}

/// The upper-case surface that the DuckDB rules look at.
pub open spec fn policy_line(seen: Seq<char>) -> Seq<char> {
    text::uppered(text::trim(seen))
}

/// Whether a refusal is overruled: DuckDB has two more read-only statements than the
/// authority knows.
pub open spec fn overruled(code: ScratchpadSqlPolicyCode, line: Seq<char>) -> bool {
    code == ScratchpadSqlPolicyCode::NotReadOnlyPrefix && (text::begins(line, "DESCRIBE"@)
        || text::begins(line, "SUMMARIZE"@))
}

/// The refusal of `sql` under a size limit and an authority's decision, if there is one:
/// its code and its message.
pub open spec fn refusal(
    sql: Seq<u8>,
    max_sql_bytes: usize,
    decision: PolicyAuthorityDecision,
) -> Option<(ScratchpadSqlPolicyCode, Seq<char>)> {
    let code = policy_code(decision.code);
    if max_sql_bytes == 0 {
        Some(
            (
                ScratchpadSqlPolicyCode::ClassifierUnavailable,
                "scratchpad sql policy is unavailable due to invalid max_sql_bytes"@,
            ),
        )
    } else if sql.len() > max_sql_bytes {
        Some(
            (
                ScratchpadSqlPolicyCode::SqlTooLarge,
                "sql payload exceeds max size of "@ + text::decimal(max_sql_bytes as nat)
                    + " bytes"@,
            ),
        )
    } else {
        match surface(sql) {
            None => Some(
                (
                    ScratchpadSqlPolicyCode::UnterminatedToken,
                    "scratchpad policy rejected SQL with unterminated quote/comment"@,
                ),
            ),
            Some(seen) => if !decision.allow && !overruled(code, policy_line(seen)) {
                Some((code, policy_message(code)))
            } else if has_forbidden_keyword(policy_line(seen)) {
                Some(
                    (
                        ScratchpadSqlPolicyCode::DuckDbForbiddenKeyword,
                        policy_message(ScratchpadSqlPolicyCode::DuckDbForbiddenKeyword),
                    ),
                )
            } else if has_forbidden_call(policy_line(seen)) {
                Some(
                    (
                        ScratchpadSqlPolicyCode::DuckDbForbiddenFunction,
                        policy_message(ScratchpadSqlPolicyCode::DuckDbForbiddenFunction),
                    ),
                )
            } else {
                None
            },
        }
    }
}

/// Checks `sql` against the scratchpad policy, given what the restricted SQL authority
/// decided of it.
pub fn validate_scratchpad_sql(
    sql: &str,
    max_sql_bytes: usize,
    decision: &PolicyAuthorityDecision,
) -> (r: Result<(), ScratchpadSqlPolicyError>)
    ensures
        match r {
            Ok(()) => refusal(sql.spec_bytes(), max_sql_bytes, *decision) is None,
            Err(err) => refusal(sql.spec_bytes(), max_sql_bytes, *decision) == Some(
                (err.code, err.message@),
            ),
        },
{
    if max_sql_bytes == 0 {
        return Err(
            ScratchpadSqlPolicyError::new(
                ScratchpadSqlPolicyCode::ClassifierUnavailable,
                "scratchpad sql policy is unavailable due to invalid max_sql_bytes",
            ),
        );
    }
    if sql.as_bytes().len() > max_sql_bytes {
        let mut message: String = "sql payload exceeds max size of ".to_owned();
        message.append(text::decimal_text(max_sql_bytes as u64).as_str());
        message.append(" bytes");
        return Err(
            ScratchpadSqlPolicyError::new(
                ScratchpadSqlPolicyCode::SqlTooLarge,
                message.as_str(),
            ),
        );
    }
    let lexical: String = match lexical_surface(sql) {
        Ok(out) => out,
        Err(err) => {
            return Err(err);
        },
    };
    let trimmed: String = text::trimmed(lexical.as_str());
    let upper: String = text::to_upper(trimmed.as_str());
    if !decision.allow {
        let code: ScratchpadSqlPolicyCode = scratchpad_error_code(decision.code);
        let allow_duckdb_prefix: bool = code == ScratchpadSqlPolicyCode::NotReadOnlyPrefix && (
        text::starts_with(upper.as_str(), "DESCRIBE") || text::starts_with(
            upper.as_str(),
            "SUMMARIZE",
        ));
        if !allow_duckdb_prefix {
            return Err(ScratchpadSqlPolicyError::new(code, scratchpad_error_message(code)));
        }
    }
    if contains_forbidden_keyword(upper.as_str()) {
        return Err(
            ScratchpadSqlPolicyError::new(
                ScratchpadSqlPolicyCode::DuckDbForbiddenKeyword,
                "scratchpad policy rejected DuckDB extension/file keyword",
            ),
        );
    }
    if contains_forbidden_function_call(upper.as_str()) {
        return Err(
            ScratchpadSqlPolicyError::new(
                ScratchpadSqlPolicyCode::DuckDbForbiddenFunction,
                "scratchpad policy rejected DuckDB external scan/read function",
            ),
        );
    }
    Ok(())
}

// ---------------------------------------------------------------------------
// Laws.
// ---------------------------------------------------------------------------

proof fn lemma_line_len(rest: Seq<u8>)
    ensures
        line_len(rest) <= rest.len(),
        forall|i: int| 0 <= i < line_len(rest) ==> rest[i] != 10,
    decreases rest.len(),
{
    if rest.len() > 0 && rest[0] != 10 {
        lemma_line_len(rest.skip(1));
        assert forall|i: int| 0 <= i < line_len(rest) implies rest[i] != 10 by {
            if i > 0 {
                assert(rest.skip(1)[i - 1] == rest[i]);
            }
        }
    }
}

/// The surface has one character per byte of the SQL; each is printable ASCII or layout,
/// and line feeds stand exactly where they stand in the SQL.
pub proof fn law_surface_keeps_layout(sql: Seq<u8>)
    requires
        surface(sql) is Some,
    ensures
        surface(sql)->0.len() == sql.len(),
        forall|i: int|
            #![trigger surface(sql)->0[i]]
            0 <= i < sql.len() ==> (surface(sql)->0[i] == '\n' <==> sql[i] == 10),
        forall|i: int|
            #![trigger surface(sql)->0[i]]
            0 <= i < sql.len() ==> surface(sql)->0[i] == shown(surface(sql)->0[i] as u8),
    decreases sql.len(),
{
    if sql.len() > 0 {
        let n: nat = match first_token(sql) {
            Token::Plain => 1,
            Token::Line(m) => m,
            Token::Hidden(m) => m,
            Token::Open => 0,
        };
        law_surface_keeps_layout(sql.skip(n as int));
        let after = surface(sql.skip(n as int))->0;
        let all = surface(sql)->0;
        if first_token(sql) is Line {
            lemma_line_len(sql.skip(2));
            assert forall|i: int| 0 <= i < n implies sql[i] != 10 by {
                if i >= 2 {
                    assert(sql.skip(2)[i - 2] == sql[i]);
                }
            }
        }
        assert forall|i: int| 0 <= i < sql.len() implies (all[i] == '\n' <==> sql[i] == 10)
            && all[i] == shown(all[i] as u8) by {
            if i >= n {
                assert(all[i] == after[i - n]);
                assert(sql.skip(n as int)[i - n] == sql[i]);
            }
        }
    }
}

/// The bytes of ASCII characters.
spec fn ascii_bytes(line: Seq<char>) -> Seq<u8> {
    Seq::new(line.len(), |i: int| line[i] as u8)
}

/// What is left of a hidden byte.
spec fn layout_char(ch: char) -> bool {
    ch == ' ' || ch == '\n' || ch == '\r' || ch == '\t'
}

proof fn lemma_shown_layout(lead: Seq<char>, after: Seq<char>)
    requires
        forall|i: int| 0 <= i < lead.len() ==> layout_char(#[trigger] lead[i]),
        surface(ascii_bytes(after)) == Some(after),
    ensures
        surface(ascii_bytes(lead + after)) == Some(lead + after),
    decreases lead.len(),
{
    let all = lead + after;
    let bytes = ascii_bytes(all);
    if lead.len() == 0 {
        assert(all =~= after);
    } else {
        assert(layout_char(lead[0]));
        lemma_shown_layout(lead.skip(1), after);
        assert(bytes.skip(1) =~= ascii_bytes(lead.skip(1) + after));
        assert(bytes[0] == lead[0] as u8);
        assert(first_token(bytes) is Plain);
        assert(seq![shown(bytes[0])] + (lead.skip(1) + after) =~= all);
    }
}

/// A character of the surface that is no layout is the byte that stands there.
proof fn lemma_seen_first(rest: Seq<u8>, after: Seq<char>)
    requires
        rest.len() > 0,
        surface(rest) == Some(after),
    ensures
        after.len() > 0,
        layout_char(after[0]) || after[0] as u8 == rest[0],
{
    match first_token(rest) {
        Token::Plain => {},
        Token::Line(n) => {
            assert(after[0] == blanks(n)[0]);
        },
        Token::Hidden(n) => {
            assert(after[0] == all_hidden(rest.take(n as int))[0]);
        },
        Token::Open => {},
    }
}

proof fn lemma_no_new_tag(rest: Seq<u8>, after: Seq<char>)
    requires
        surface(rest) == Some(after),
        tag_tail(rest) is None,
    ensures
        tag_tail(ascii_bytes(after)) is None,
    decreases rest.len(),
{
    if rest.len() > 0 {
        lemma_seen_first(rest, after);
        if tag_byte(rest[0]) {
            assert(first_token(rest) is Plain);
            let tail = surface(rest.skip(1))->0;
            assert(after =~= seq![shown(rest[0])] + tail);
            lemma_no_new_tag(rest.skip(1), tail);
            assert(ascii_bytes(after).skip(1) =~= ascii_bytes(tail));
        }
    }
}

proof fn lemma_surface_again(sql: Seq<u8>, out: Seq<char>)
    requires
        surface(sql) == Some(out),
    ensures
        surface(ascii_bytes(out)) == Some(out),
    decreases sql.len(),
{
    if sql.len() == 0 {
        assert(ascii_bytes(out) =~= Seq::<u8>::empty());
        assert(out =~= Seq::<char>::empty());
    } else {
        match first_token(sql) {
            Token::Plain => {
                let after = surface(sql.skip(1))->0;
                lemma_surface_again(sql.skip(1), after);
                let bytes = ascii_bytes(out);
                assert(out =~= seq![shown(sql[0])] + after);
                assert(bytes.skip(1) =~= ascii_bytes(after));
                if sql.len() > 1 {
                    lemma_seen_first(sql.skip(1), after);
                    assert(bytes[1] == after[0] as u8);
                }
                if sql[0] == 36 {
                    lemma_no_new_tag(sql.skip(1), after);
                }
                assert(bytes[0] == shown(sql[0]) as u8);
                assert(first_token(bytes) is Plain);
                assert(shown(bytes[0]) == shown(sql[0]));
            },
            Token::Line(n) => {
                let after = surface(sql.skip(n as int))->0;
                lemma_surface_again(sql.skip(n as int), after);
                lemma_shown_layout(blanks(n), after);
            },
            Token::Hidden(n) => {
                let after = surface(sql.skip(n as int))->0;
                lemma_surface_again(sql.skip(n as int), after);
                lemma_shown_layout(all_hidden(sql.take(n as int)), after);
            },
            Token::Open => {},
        }
    }
}

/// A surface has no literal and no comment left: the surface of a surface is that surface.
pub proof fn law_surfaces_are_stable(sql: Seq<u8>)
    requires
        surface(sql) is Some,
    ensures
        surface(vstd::utf8::encode_utf8(surface(sql)->0)) == surface(sql),
{
    let out = surface(sql)->0;
    law_surface_keeps_layout(sql);
    assert forall|i: int| 0 <= i < out.len() implies '\0' <= #[trigger] out[i] <= '\u{7f}' by {
        assert(out[i] == shown(out[i] as u8));
    }
    vstd::utf8::is_ascii_chars_encode_utf8(out);
    assert(vstd::utf8::encode_utf8(out) =~= ascii_bytes(out));
    lemma_surface_again(sql, out);
}

proof fn lemma_quoted_body(body: Seq<u8>, quote: u8, tail: Seq<u8>)
    requires
        !body.contains(quote),
        tail.len() == 0 || tail[0] != quote,
    ensures
        quoted_len(body + seq![quote] + tail, quote) == Some(body.len() + 1),
    decreases body.len(),
{
    let rest = body + seq![quote] + tail;
    if body.len() > 0 {
        assert(body.contains(body[0]));
        assert forall|x: u8| body.skip(1).contains(x) implies body.contains(x) by {
            let k = choose|k: int| 0 <= k < body.skip(1).len() && body.skip(1)[k] == x;
            assert(body[k + 1] == x);
        }
        lemma_quoted_body(body.skip(1), quote, tail);
        assert(rest.skip(1) =~= body.skip(1) + seq![quote] + tail);
    } else if tail.len() > 0 {
        assert(rest[1] == tail[0]);
    }
}

/// A string literal or quoted identifier leaves nothing on the surface but layout, and
/// what follows it is seen as if it stood alone.
pub proof fn law_quoted_text_is_blanked(body: Seq<u8>, quote: u8, tail: Seq<u8>)
    requires
        quote == 39 || quote == 34,
        !body.contains(quote),
        tail.len() == 0 || tail[0] != quote,
    ensures
        surface(seq![quote] + body + seq![quote] + tail) == onto(
            all_hidden(seq![quote] + body + seq![quote]),
            surface(tail),
        ),
{
    let sql = seq![quote] + body + seq![quote] + tail;
    assert(sql.skip(1) =~= body + seq![quote] + tail);
    lemma_quoted_body(body, quote, tail);
    let n = body.len() + 2;
    assert(sql.take(n as int) =~= seq![quote] + body + seq![quote]);
    assert(sql.skip(n as int) =~= tail);
}

/// Under one decision and one size limit that both meet, the verdict depends on the
/// surface alone: what literals and comments hold never changes it.
pub proof fn law_verdict_depends_on_surface(
    left: Seq<u8>,
    right: Seq<u8>,
    max_sql_bytes: usize,
    decision: PolicyAuthorityDecision,
)
    requires
        left.len() <= max_sql_bytes,
        right.len() <= max_sql_bytes,
        surface(left) == surface(right),
    ensures
        refusal(left, max_sql_bytes, decision) == refusal(right, max_sql_bytes, decision),
{
}

/// What the authority refuses is accepted only as a `DESCRIBE` or `SUMMARIZE` statement.
pub proof fn law_refusals_stand(
    sql: Seq<u8>,
    max_sql_bytes: usize,
    decision: PolicyAuthorityDecision,
)
    requires
        !decision.allow,
        refusal(sql, max_sql_bytes, decision) is None,
    ensures
        policy_code(decision.code) == ScratchpadSqlPolicyCode::NotReadOnlyPrefix,
        surface(sql) is Some,
        text::begins(policy_line(surface(sql)->0), "DESCRIBE"@) || text::begins(
            policy_line(surface(sql)->0),
            "SUMMARIZE"@,
        ),
{
}

/// Whether a character is a letter, a digit or an underscore.
pub open spec fn joins_words(ch: char) -> bool {
    'A' <= ch <= 'Z' || 'a' <= ch <= 'z' || '0' <= ch <= '9' || ch == '_'
}

/// Whether `word` stands by itself in `line` from position `i` on.
pub open spec fn stands_alone(line: Seq<char>, word: Seq<char>, i: int) -> bool {
    &&& text::stands_at(line, word, i)
    &&& i > 0 ==> !joins_words(line[i - 1])
    &&& i + word.len() < line.len() ==> !joins_words(line[i + word.len()])
}

/// Whether `name` stands by itself in `line` from position `i` on, with an opening bracket
/// behind it and nothing but blanks between them.
pub open spec fn stands_called(line: Seq<char>, name: Seq<char>, i: int, bracket: int) -> bool {
    &&& stands_alone(line, name, i)
    &&& i + name.len() <= bracket < line.len()
    &&& line[bracket] == '('
    &&& forall|k: int|
        i + name.len() <= k < bracket ==> (#[trigger] line[k] == ' ' || line[k] == '\t' || line[k]
            == '\n' || line[k] == '\r' || line[k] as u32 == 12)
}

/// Whether a character is a letter or an underscore.
pub open spec fn begins_names(ch: char) -> bool {
    'A' <= ch <= 'Z' || 'a' <= ch <= 'z' || ch == '_'
}

/// Whether a name that begins before position `i` runs on up to it.
pub open spec fn inside_name(line: Seq<char>, i: int) -> bool {
    exists|m: int|
        0 <= m < i && begins_names(#[trigger] line[m]) && forall|k: int|
            m <= k < i ==> joins_words(#[trigger] line[k])
}

/// The words that no statement may hold.
pub open spec fn extension_words() -> Seq<Seq<char>> {
    seq![
        "INSTALL"@,
        "LOAD"@,
        "ATTACH"@,
        "DETACH"@,
        "EXPORT"@,
        "IMPORT"@,
    ]
}

/// The functions that no statement may call.
pub open spec fn outside_readers() -> Seq<Seq<char>> {
    seq![
        "READ_CSV"@,
        "READ_CSV_AUTO"@,
        "READ_PARQUET"@,
        "READ_JSON"@,
        "READ_JSON_AUTO"@,
        "READ_NDJSON"@,
        "READ_BLOB"@,
        "READ_TEXT"@,
        "READ_XLSX"@,
        "CSV_SCAN"@,
        "PARQUET_SCAN"@,
        "JSON_SCAN"@,
        "POSTGRES_SCAN"@,
        "MYSQL_SCAN"@,
        "SQLITE_SCAN"@,
    ]
}

proof fn lemma_extension_word(word: Seq<char>)
    ensures
        forbidden_keyword(word) == extension_words().contains(word),
{
    let words = extension_words();
    assert(words[0] == "INSTALL"@);
    assert(words[1] == "LOAD"@);
    assert(words[2] == "ATTACH"@);
    assert(words[3] == "DETACH"@);
    assert(words[4] == "EXPORT"@);
    assert(words[5] == "IMPORT"@);
}

proof fn lemma_outside_reader(name: Seq<char>)
    ensures
        forbidden_function(name) == outside_readers().contains(name),
{
    let names = outside_readers();
    assert(names[0] == "READ_CSV"@);
    assert(names[1] == "READ_CSV_AUTO"@);
    assert(names[2] == "READ_PARQUET"@);
    assert(names[3] == "READ_JSON"@);
    assert(names[4] == "READ_JSON_AUTO"@);
    assert(names[5] == "READ_NDJSON"@);
    assert(names[6] == "READ_BLOB"@);
    assert(names[7] == "READ_TEXT"@);
    assert(names[8] == "READ_XLSX"@);
    assert(names[9] == "CSV_SCAN"@);
    assert(names[10] == "PARQUET_SCAN"@);
    assert(names[11] == "JSON_SCAN"@);
    assert(names[12] == "POSTGRES_SCAN"@);
    assert(names[13] == "MYSQL_SCAN"@);
    assert(names[14] == "SQLITE_SCAN"@);
}

proof fn lemma_name_shape(name: Seq<char>)
    requires
        outside_readers().contains(name),
    ensures
        name.len() > 0,
        'A' <= name[0] <= 'Z',
        forall|k: int| 0 <= k < name.len() ==> joins_words(#[trigger] name[k]),
{
    lemma_outside_reader(name);
    reveal_strlit("READ_CSV");
    reveal_strlit("READ_CSV_AUTO");
    reveal_strlit("READ_PARQUET");
    reveal_strlit("READ_JSON");
    reveal_strlit("READ_JSON_AUTO");
    reveal_strlit("READ_NDJSON");
    reveal_strlit("READ_BLOB");
    reveal_strlit("READ_TEXT");
    reveal_strlit("READ_XLSX");
    reveal_strlit("CSV_SCAN");
    reveal_strlit("PARQUET_SCAN");
    reveal_strlit("JSON_SCAN");
    reveal_strlit("POSTGRES_SCAN");
    reveal_strlit("MYSQL_SCAN");
    reveal_strlit("SQLITE_SCAN");
}

proof fn lemma_word_shape(word: Seq<char>)
    requires
        extension_words().contains(word),
    ensures
        word.len() > 0,
        forall|k: int| 0 <= k < word.len() ==> joins_words(#[trigger] word[k]),
{
    lemma_extension_word(word);
    reveal_strlit("INSTALL");
    reveal_strlit("LOAD");
    reveal_strlit("ATTACH");
    reveal_strlit("DETACH");
    reveal_strlit("EXPORT");
    reveal_strlit("IMPORT");
}

proof fn lemma_bracket(line: Seq<char>, from: int, bracket: int)
    requires
        0 <= from <= bracket < line.len(),
        line[bracket] == '(',
        forall|k: int| from <= k < bracket ==> ascii_blank(#[trigger] line[k]),
    ensures
        bracket_follows(line, from),
    decreases bracket - from,
{
    if from < bracket {
        lemma_bracket(line, from + 1, bracket);
    }
}

proof fn lemma_bracket_found(line: Seq<char>, from: int) -> (bracket: int)
    requires
        bracket_follows(line, from),
    ensures
        0 <= from <= bracket < line.len(),
        line[bracket] == '(',
        forall|k: int| from <= k < bracket ==> ascii_blank(#[trigger] line[k]),
    decreases line.len() - from,
{
    if ascii_blank(line[from]) {
        lemma_bracket_found(line, from + 1)
    } else {
        from
    }
}

/// A statement with a word that reaches extensions, files or other databases is refused for
/// it, wherever in the statement the word stands.
pub proof fn law_extension_words_are_refused(
    sql: Seq<u8>,
    seen: Seq<char>,
    max_sql_bytes: usize,
    word: Seq<char>,
    i: int,
)
    requires
        0 < sql.len() <= max_sql_bytes,
        surface(sql) == Some(seen),
        extension_words().contains(word),
        stands_alone(text::uppered(text::trim(seen)), word, i),
    ensures
        refusal(
            sql,
            max_sql_bytes,
            PolicyAuthorityDecision { allow: true, code: None },
        ) == Some(
            (
                ScratchpadSqlPolicyCode::DuckDbForbiddenKeyword,
                "scratchpad policy rejected DuckDB extension/file keyword"@,
            ),
        ),
{
    let line = policy_line(seen);
    lemma_extension_word(word);
    lemma_word_shape(word);
    let j = i + word.len();
    assert(line.subrange(i, j) == word);
    assert forall|k: int| i <= k < j implies word_char(#[trigger] line[k]) by {
        assert(word[k - i] == line[k]);
    }
    assert(word_at(line, i, j));
}

/// A statement that calls a function which reads files or other databases is refused for it.
pub proof fn law_outside_readers_are_refused(
    sql: Seq<u8>,
    seen: Seq<char>,
    max_sql_bytes: usize,
    name: Seq<char>,
    i: int,
    bracket: int,
)
    requires
        0 < sql.len() <= max_sql_bytes,
        surface(sql) == Some(seen),
        outside_readers().contains(name),
        stands_called(text::uppered(text::trim(seen)), name, i, bracket),
        forall|word: Seq<char>, k: int|
            extension_words().contains(word) ==> !#[trigger] stands_alone(
                text::uppered(text::trim(seen)),
                word,
                k,
            ),
    ensures
        refusal(
            sql,
            max_sql_bytes,
            PolicyAuthorityDecision { allow: true, code: None },
        ) == Some(
            (
                ScratchpadSqlPolicyCode::DuckDbForbiddenFunction,
                "scratchpad policy rejected DuckDB external scan/read function"@,
            ),
        ),
{
    let line = policy_line(seen);
    lemma_no_words(line);
    lemma_outside_reader(name);
    lemma_name_shape(name);
    let j = i + name.len();
    assert(line.subrange(i, j) == name);
    assert forall|k: int| i <= k < j implies word_char(#[trigger] line[k]) by {
        assert(name[k - i] == line[k]);
    }
    assert(line[i] == name[0]);
    assert forall|m: int| !#[trigger] runs_into(line, m, i) by {
        if runs_into(line, m, i) {
            assert(word_char(line[i - 1]));
        }
    }
    assert(name_at(line, i, j));
    assert forall|k: int| j <= k < bracket implies ascii_blank(#[trigger] line[k]) by {
    }
    lemma_bracket(line, j, bracket);
}

proof fn lemma_no_words(line: Seq<char>)
    requires
        forall|word: Seq<char>, k: int|
            extension_words().contains(word) ==> !#[trigger] stands_alone(line, word, k),
    ensures
        !has_forbidden_keyword(line),
{
    if has_forbidden_keyword(line) {
        let (i, j) = choose|i: int, j: int|
            #[trigger] word_at(line, i, j) && forbidden_keyword(line.subrange(i, j));
        let word = line.subrange(i, j);
        lemma_extension_word(word);
        assert(text::stands_at(line, word, i));
        assert(stands_alone(line, word, i));
    }
}

/// A statement passes where it fits the size, the authority allows it or only misses a
/// `DESCRIBE` or a `SUMMARIZE` in its list, and no word in it reaches outside, nor any function
/// that it calls.
pub proof fn law_harmless_statements_pass(
    sql: Seq<u8>,
    seen: Seq<char>,
    max_sql_bytes: usize,
    decision: PolicyAuthorityDecision,
)
    requires
        0 < sql.len() <= max_sql_bytes,
        surface(sql) == Some(seen),
        decision.allow || (decision.code == Some(DecisionCode::NotReadOnlyPrefix) && (
        text::stands_at(text::uppered(text::trim(seen)), "DESCRIBE"@, 0) || text::stands_at(
            text::uppered(text::trim(seen)),
            "SUMMARIZE"@,
            0,
        ))),
        forall|word: Seq<char>, k: int|
            extension_words().contains(word) ==> !#[trigger] stands_alone(
                text::uppered(text::trim(seen)),
                word,
                k,
            ),
        forall|name: Seq<char>, k: int|
            #![trigger text::stands_at(text::uppered(text::trim(seen)), name, k)]
            outside_readers().contains(name) && text::stands_at(
                text::uppered(text::trim(seen)),
                name,
                k,
            ) && !inside_name(text::uppered(text::trim(seen)), k) ==> !bracket_follows(
                text::uppered(text::trim(seen)),
                k + name.len(),
            ),
    ensures
        refusal(sql, max_sql_bytes, decision) is None,
{
    let line = policy_line(seen);
    lemma_no_words(line);
    if has_forbidden_call(line) {
        let (i, j) = choose|i: int, j: int|
            #[trigger] name_at(line, i, j) && forbidden_function(line.subrange(i, j))
                && bracket_follows(line, j);
        let name = line.subrange(i, j);
        lemma_outside_reader(name);
        assert(text::stands_at(line, name, i));
        if inside_name(line, i) {
            let m = choose|m: int|
                0 <= m < i && begins_names(#[trigger] line[m]) && forall|k: int|
                    m <= k < i ==> joins_words(#[trigger] line[k]);
            assert(runs_into(line, m, i));
        }
    }
    if text::stands_at(line, "DESCRIBE"@, 0) {
        assert(line.subrange(0, "DESCRIBE"@.len() as int) =~= line.take(
            "DESCRIBE"@.len() as int,
        ));
    }
    if text::stands_at(line, "SUMMARIZE"@, 0) {
        assert(line.subrange(0, "SUMMARIZE"@.len() as int) =~= line.take(
            "SUMMARIZE"@.len() as int,
        ));
    }
}

/// The codes of a blank, a tab, a line feed, a form feed and a carriage return.
pub open spec fn blank_code(code: u32) -> bool {
    code == 32 || code == 9 || code == 10 || code == 12 || code == 13
}

/// Behind a name a bracket follows exactly where nothing but blanks stands before it.
pub proof fn law_brackets_follow_blanks(line: Seq<char>, from: int)
    requires
        0 <= from,
    ensures
        bracket_follows(line, from) <==> exists|bracket: int|
            from <= bracket < line.len() && #[trigger] line[bracket] == '(' && forall|k: int|
                from <= k < bracket ==> blank_code(#[trigger] line[k] as u32),
{
    if bracket_follows(line, from) {
        let bracket = lemma_bracket_found(line, from);
        assert(line[bracket] == '(');
        assert forall|k: int| from <= k < bracket implies blank_code(#[trigger] line[k] as u32) by {
            assert(ascii_blank(line[k]));
        }
    }
    if exists|bracket: int|
        from <= bracket < line.len() && #[trigger] line[bracket] == '(' && forall|k: int|
            from <= k < bracket ==> blank_code(#[trigger] line[k] as u32) {
        let bracket = choose|bracket: int|
            from <= bracket < line.len() && #[trigger] line[bracket] == '(' && forall|k: int|
                from <= k < bracket ==> blank_code(#[trigger] line[k] as u32);
        lemma_bracket(line, from, bracket);
    }
}

/// A statement that the authority refuses is refused for the same reason, unless it is one
/// that DuckDB reads only; and one that is too large, or that does not end, is refused before
/// anything else is asked.
pub proof fn law_refusals_tell_their_reason(
    sql: Seq<u8>,
    max_sql_bytes: usize,
    decision: PolicyAuthorityDecision,
)
    requires
        max_sql_bytes > 0,
    ensures
        sql.len() > max_sql_bytes ==> (refusal(sql, max_sql_bytes, decision) matches Some(told)
            && told.0 == ScratchpadSqlPolicyCode::SqlTooLarge && told.1
            == "sql payload exceeds max size of "@ + text::decimal(max_sql_bytes as nat)
            + " bytes"@),
        sql.len() <= max_sql_bytes && surface(sql) is None ==> (refusal(
            sql,
            max_sql_bytes,
            decision,
        ) matches Some(told) && told.0 == ScratchpadSqlPolicyCode::UnterminatedToken),
        refusal(sql, 0, decision) matches Some(told) && told.0
            == ScratchpadSqlPolicyCode::ClassifierUnavailable,
        sql.len() <= max_sql_bytes && surface(sql) is Some && !decision.allow && decision.code
            != Some(DecisionCode::NotReadOnlyPrefix) ==> (refusal(
            sql,
            max_sql_bytes,
            decision,
        ) matches Some(told) && told.0 == (match decision.code {
            Some(DecisionCode::EmptySql) => ScratchpadSqlPolicyCode::EmptySql,
            Some(DecisionCode::UnterminatedToken) => ScratchpadSqlPolicyCode::UnterminatedToken,
            Some(DecisionCode::MultipleStatements) => ScratchpadSqlPolicyCode::MultipleStatements,
            Some(DecisionCode::ForbiddenKeyword) => ScratchpadSqlPolicyCode::ForbiddenKeyword,
            Some(DecisionCode::ForbiddenFunction) => ScratchpadSqlPolicyCode::ForbiddenFunction,
            Some(DecisionCode::ExplainNotReadOnly) => ScratchpadSqlPolicyCode::ExplainNotReadOnly,
            _ => ScratchpadSqlPolicyCode::ClassifierUnavailable,
        })),
        sql.len() <= max_sql_bytes && !decision.allow && decision.code == Some(
            DecisionCode::NotReadOnlyPrefix,
        ) && (surface(sql) matches Some(seen) && !text::stands_at(
            text::uppered(text::trim(seen)),
            "DESCRIBE"@,
            0,
        ) && !text::stands_at(text::uppered(text::trim(seen)), "SUMMARIZE"@, 0)) ==> (refusal(
            sql,
            max_sql_bytes,
            decision,
        ) matches Some(told) && told.0 == ScratchpadSqlPolicyCode::NotReadOnlyPrefix),
{
    if let Some(seen) = surface(sql) {
        let line = policy_line(seen);
        assert("DESCRIBE"@.len() <= line.len() ==> line.subrange(0, "DESCRIBE"@.len() as int)
            =~= line.take("DESCRIBE"@.len() as int));
        assert("SUMMARIZE"@.len() <= line.len() ==> line.subrange(0, "SUMMARIZE"@.len() as int)
            =~= line.take("SUMMARIZE"@.len() as int));
    }
}

/// A byte that neither begins nor ends anything is seen as it is.
pub proof fn law_plain_bytes_are_seen(b: u8, tail: Seq<u8>)
    requires
        0x20 <= b <= 0x7e || b == 9 || b == 10 || b == 13,
        b != 39 && b != 34 && b != 36 && b != 45 && b != 47,
    ensures
        surface(seq![b] + tail) == (match surface(tail) {
            Some(after) => Some(seq![b as char] + after),
            None => None,
        }),
{
    let sql = seq![b] + tail;
    assert(sql.skip(1) =~= tail);
}

proof fn lemma_line_body(body: Seq<u8>, tail: Seq<u8>)
    requires
        !body.contains(10u8),
        tail.len() == 0 || tail[0] == 10,
    ensures
        line_len(body + tail) == body.len(),
    decreases body.len(),
{
    if body.len() > 0 {
        assert(body.contains(body[0]));
        assert forall|x: u8| body.skip(1).contains(x) implies body.contains(x) by {
            let k = choose|k: int| 0 <= k < body.skip(1).len() && body.skip(1)[k] == x;
            assert(body[k + 1] == x);
        }
        lemma_line_body(body.skip(1), tail);
        assert((body + tail).skip(1) =~= body.skip(1) + tail);
    }
}

/// A line comment is blanked up to the end of its line, and what follows it is seen as if it
/// stood alone.
pub proof fn law_line_comments_are_blanked(body: Seq<u8>, tail: Seq<u8>)
    requires
        !body.contains(10u8),
        tail.len() == 0 || tail[0] == 10,
    ensures
        surface(seq![45u8, 45u8] + body + tail) == (match surface(tail) {
            Some(after) => Some(Seq::new(body.len() + 2, |i: int| ' ') + after),
            None => None,
        }),
{
    let sql = seq![45u8, 45u8] + body + tail;
    assert(sql.skip(2) =~= body + tail);
    lemma_line_body(body, tail);
    assert(sql.skip((body.len() + 2) as int) =~= tail);
    assert(blanks((body.len() + 2) as nat) =~= Seq::new(body.len() + 2, |i: int| ' '));
}

proof fn lemma_comment_body(body: Seq<u8>, tail: Seq<u8>)
    requires
        !body.contains(42u8),
        !body.contains(47u8),
    ensures
        comment_len(body + seq![42u8, 47u8] + tail, 1) == Some(body.len() + 2),
    decreases body.len(),
{
    let rest = body + seq![42u8, 47u8] + tail;
    if body.len() > 0 {
        assert(body.contains(body[0]));
        assert forall|x: u8| body.skip(1).contains(x) implies body.contains(x) by {
            let k = choose|k: int| 0 <= k < body.skip(1).len() && body.skip(1)[k] == x;
            assert(body[k + 1] == x);
        }
        lemma_comment_body(body.skip(1), tail);
        assert(rest.skip(1) =~= body.skip(1) + seq![42u8, 47u8] + tail);
    }
}

/// A block comment leaves nothing on the surface but layout, and what follows it is seen as if
/// it stood alone.
pub proof fn law_block_comments_are_blanked(body: Seq<u8>, tail: Seq<u8>)
    requires
        !body.contains(42u8),
        !body.contains(47u8),
    ensures
        surface(seq![47u8, 42u8] + body + seq![42u8, 47u8] + tail) == (match surface(tail) {
            Some(after) => Some(
                seq![' ', ' '] + Seq::new(
                    body.len(),
                    |i: int|
                        if body[i] == 10 || body[i] == 13 || body[i] == 9 {
                            body[i] as char
                        } else {
                            ' '
                        },
                ) + seq![' ', ' '] + after,
            ),
            None => None,
        }),
{
    let sql = seq![47u8, 42u8] + body + seq![42u8, 47u8] + tail;
    let n = body.len() + 4;
    assert(sql.skip(2) =~= body + seq![42u8, 47u8] + tail);
    lemma_comment_body(body, tail);
    assert(first_token(sql) == Token::Hidden(n as nat));
    assert(sql.skip(n as int) =~= tail);
    let kept = Seq::new(
        body.len(),
        |i: int|
            if body[i] == 10 || body[i] == 13 || body[i] == 9 {
                body[i] as char
            } else {
                ' '
            },
    );
    let head = sql.take(n as int);
    assert(head =~= seq![47u8, 42u8] + body + seq![42u8, 47u8]);
    assert(all_hidden(head) =~= seq![' ', ' '] + kept + seq![' ', ' ']);
}

/// A block comment inside another does not end it.
pub proof fn law_block_comments_nest(rest: Seq<u8>, depth: nat)
    requires
        depth > 0,
    ensures
        comment_len(seq![47u8, 42u8] + rest, depth) == (match comment_len(rest, depth + 1) {
            Some(n) => Some(n + 2),
            None => None,
        }),
        comment_len(seq![42u8, 47u8] + rest, depth + 1) == (match comment_len(rest, depth) {
            Some(n) => Some(n + 2),
            None => None,
        }),
        comment_len(seq![42u8, 47u8] + rest, 1) == Some(2nat),
{
    assert((seq![47u8, 42u8] + rest).skip(2) =~= rest);
    assert((seq![42u8, 47u8] + rest).skip(2) =~= rest);
}

proof fn lemma_tag_name(name: Seq<u8>, tail: Seq<u8>)
    requires
        forall|i: int| 0 <= i < name.len() ==> tag_byte(#[trigger] name[i]),
    ensures
        tag_tail(name + seq![36u8] + tail) == Some(name.len() + 1),
    decreases name.len(),
{
    let rest = name + seq![36u8] + tail;
    if name.len() > 0 {
        assert(rest[0] == name[0]);
        lemma_tag_name(name.skip(1), tail);
        assert(rest.skip(1) =~= name.skip(1) + seq![36u8] + tail);
    }
}

proof fn lemma_tag_body(body: Seq<u8>, tag: Seq<u8>, tail: Seq<u8>)
    requires
        tag.len() > 0,
        tag[0] == 36,
        !body.contains(36u8),
    ensures
        until_tag(body + tag + tail, tag) == Some(body.len() + tag.len()),
    decreases body.len(),
{
    let rest = body + tag + tail;
    if body.len() > 0 {
        assert(body.contains(body[0]));
        assert(rest[0] == body[0]);
        assert(rest.take(tag.len() as int)[0] != tag[0]);
        assert forall|x: u8| body.skip(1).contains(x) implies body.contains(x) by {
            let k = choose|k: int| 0 <= k < body.skip(1).len() && body.skip(1)[k] == x;
            assert(body[k + 1] == x);
        }
        lemma_tag_body(body.skip(1), tag, tail);
        assert(rest.skip(1) =~= body.skip(1) + tag + tail);
    } else {
        assert(rest.take(tag.len() as int) =~= tag);
    }
}

/// A text in dollar quotes leaves nothing on the surface but layout, and what follows it is
/// seen as if it stood alone.
pub proof fn law_dollar_quotes_are_blanked(name: Seq<u8>, body: Seq<u8>, tail: Seq<u8>)
    requires
        forall|i: int|
            0 <= i < name.len() ==> (48 <= #[trigger] name[i] <= 57 || 65 <= name[i] <= 90 || 97
                <= name[i] <= 122 || name[i] == 95),
        !body.contains(36u8),
    ensures
        surface(
            seq![36u8] + name + seq![36u8] + body + seq![36u8] + name + seq![36u8] + tail,
        ) == (match surface(tail) {
            Some(after) => Some(
                Seq::new(name.len() + 2, |i: int| ' ') + Seq::new(
                    body.len(),
                    |i: int|
                        if body[i] == 10 || body[i] == 13 || body[i] == 9 {
                            body[i] as char
                        } else {
                            ' '
                        },
                ) + Seq::new(name.len() + 2, |i: int| ' ') + after,
            ),
            None => None,
        }),
{
    let tag = seq![36u8] + name + seq![36u8];
    let sql = seq![36u8] + name + seq![36u8] + body + seq![36u8] + name + seq![36u8] + tail;
    assert(sql =~= tag + body + tag + tail);
    let rest = body + tag + tail;
    assert(sql.skip(1) =~= name + seq![36u8] + rest);
    lemma_tag_name(name, rest);
    let n = tag.len();
    assert(tag_len(sql) == Some(n));
    assert(sql.take(n as int) =~= tag);
    assert(sql.skip(n as int) =~= rest);
    lemma_tag_body(body, tag, tail);
    let all = 2 * n + body.len();
    assert(first_token(sql) == Token::Hidden(all as nat));
    assert(sql.skip(all as int) =~= tail);
    let head = sql.take(all as int);
    assert(head =~= tag + body + tag);
    let kept = Seq::new(
        body.len(),
        |i: int|
            if body[i] == 10 || body[i] == 13 || body[i] == 9 {
                body[i] as char
            } else {
                ' '
            },
    );
    let gap = Seq::new(name.len() + 2, |i: int| ' ');
    assert(all_hidden(tag) =~= gap);
    assert(all_hidden(head) =~= all_hidden(tag) + all_hidden(body) + all_hidden(tag));
    assert(all_hidden(body) =~= kept);
}

proof fn lemma_quoted_on(body: Seq<u8>, quote: u8, rest: Seq<u8>)
    requires
        !body.contains(quote),
    ensures
        quoted_len(body + rest, quote) == plus(quoted_len(rest, quote), body.len()),
    decreases body.len(),
{
    if body.len() > 0 {
        assert(body.contains(body[0]));
        assert forall|x: u8| body.skip(1).contains(x) implies body.contains(x) by {
            let k = choose|k: int| 0 <= k < body.skip(1).len() && body.skip(1)[k] == x;
            assert(body[k + 1] == x);
        }
        lemma_quoted_on(body.skip(1), quote, rest);
        assert((body + rest).skip(1) =~= body.skip(1) + rest);
    } else {
        assert(body + rest =~= rest);
    }
}

/// Two quotes in a row inside a literal do not end it; and a literal that nothing ends leaves
/// no surface.
pub proof fn law_doubled_quotes_do_not_end_literals(
    before: Seq<u8>,
    quote: u8,
    after: Seq<u8>,
    tail: Seq<u8>,
)
    requires
        quote == 39 || quote == 34,
        !before.contains(quote),
        !after.contains(quote),
        tail.len() == 0 || tail[0] != quote,
    ensures
        surface(
            seq![quote] + before + seq![quote, quote] + after + seq![quote] + tail,
        ) == (match surface(tail) {
            Some(seen) => Some(
                all_hidden(seq![quote] + before + seq![quote, quote] + after + seq![quote]) + seen,
            ),
            None => None,
        }),
        surface(seq![quote] + before) is None,
{
    let inner = after + seq![quote] + tail;
    let sql = seq![quote] + before + seq![quote, quote] + after + seq![quote] + tail;
    assert(sql.skip(1) =~= before + (seq![quote, quote] + inner));
    lemma_quoted_on(before, quote, seq![quote, quote] + inner);
    assert((seq![quote, quote] + inner).skip(2) =~= inner);
    lemma_quoted_body(after, quote, tail);
    let n = before.len() + after.len() + 4;
    assert(first_token(sql) == Token::Hidden(n as nat));
    assert(sql.take(n as int) =~= seq![quote] + before + seq![quote, quote] + after + seq![
        quote,
    ]);
    assert(sql.skip(n as int) =~= tail);
    let open = seq![quote] + before;
    assert(open.skip(1) =~= before + Seq::<u8>::empty());
    lemma_quoted_on(before, quote, Seq::<u8>::empty());
    assert(first_token(open) == Token::Open);
}

/// A refusal by the authority is told with the message of its reason.
pub proof fn law_reasons_have_their_message(code: ScratchpadSqlPolicyCode)
    ensures
        policy_message(code) == (match code {
            ScratchpadSqlPolicyCode::EmptySql => "sql must not be empty"@,
            ScratchpadSqlPolicyCode::UnterminatedToken =>
                "restricted mode could not parse SQL lexical surface"@,
            ScratchpadSqlPolicyCode::MultipleStatements =>
                "restricted mode allows only a single SQL statement"@,
            ScratchpadSqlPolicyCode::NotReadOnlyPrefix =>
                "restricted mode allows only allowlisted SQL prefixes"@,
            ScratchpadSqlPolicyCode::ForbiddenKeyword =>
                "restricted mode rejected write/admin SQL"@,
            ScratchpadSqlPolicyCode::ForbiddenFunction =>
                "restricted mode rejected unsafe function call"@,
            ScratchpadSqlPolicyCode::ExplainNotReadOnly =>
                "restricted mode allows EXPLAIN only for read-only statements"@,
            ScratchpadSqlPolicyCode::ClassifierUnavailable =>
                "restricted mode policy classifier unavailable"@,
            ScratchpadSqlPolicyCode::SqlTooLarge => "sql payload exceeds scratchpad size limit"@,
            ScratchpadSqlPolicyCode::DuckDbForbiddenKeyword =>
                "scratchpad policy rejected DuckDB extension/file keyword"@,
            ScratchpadSqlPolicyCode::DuckDbForbiddenFunction =>
                "scratchpad policy rejected DuckDB external scan/read function"@,
        }),
        code.name() == (match code {
            ScratchpadSqlPolicyCode::EmptySql => "EMPTY_SQL"@,
            ScratchpadSqlPolicyCode::UnterminatedToken => "UNTERMINATED_TOKEN"@,
            ScratchpadSqlPolicyCode::MultipleStatements => "MULTIPLE_STATEMENTS"@,
            ScratchpadSqlPolicyCode::NotReadOnlyPrefix => "NOT_READ_ONLY_PREFIX"@,
            ScratchpadSqlPolicyCode::ForbiddenKeyword => "FORBIDDEN_KEYWORD"@,
            ScratchpadSqlPolicyCode::ForbiddenFunction => "FORBIDDEN_FUNCTION"@,
            ScratchpadSqlPolicyCode::ExplainNotReadOnly => "EXPLAIN_NOT_READ_ONLY"@,
            ScratchpadSqlPolicyCode::ClassifierUnavailable => "CLASSIFIER_UNAVAILABLE"@,
            ScratchpadSqlPolicyCode::SqlTooLarge => "SQL_TOO_LARGE"@,
            ScratchpadSqlPolicyCode::DuckDbForbiddenKeyword => "DUCKDB_FORBIDDEN_KEYWORD"@,
            ScratchpadSqlPolicyCode::DuckDbForbiddenFunction => "DUCKDB_FORBIDDEN_FUNCTION"@,
        }),
{
}

/// The words and the functions that reach outside, by their names.
pub proof fn law_names_that_reach_outside(name: Seq<char>)
    ensures
        extension_words().contains(name) <==> name == "INSTALL"@
            || name == "LOAD"@
            || name == "ATTACH"@
            || name == "DETACH"@
            || name == "EXPORT"@
            || name == "IMPORT"@,
        outside_readers().contains(name) <==> name == "READ_CSV"@
            || name == "READ_CSV_AUTO"@
            || name == "READ_PARQUET"@
            || name == "READ_JSON"@
            || name == "READ_JSON_AUTO"@
            || name == "READ_NDJSON"@
            || name == "READ_BLOB"@
            || name == "READ_TEXT"@
            || name == "READ_XLSX"@
            || name == "CSV_SCAN"@
            || name == "PARQUET_SCAN"@
            || name == "JSON_SCAN"@
            || name == "POSTGRES_SCAN"@
            || name == "MYSQL_SCAN"@
            || name == "SQLITE_SCAN"@,
{
    lemma_extension_word(name);
    lemma_outside_reader(name);
}

/// What is said of a statement that is refused before the authority is heard.
pub proof fn law_early_refusals_are_said(
    sql: Seq<u8>,
    max_sql_bytes: usize,
    decision: PolicyAuthorityDecision,
)
    requires
        0 < sql.len() <= max_sql_bytes,
        surface(sql) is None,
    ensures
        refusal(sql, max_sql_bytes, decision) == Some(
            (
                ScratchpadSqlPolicyCode::UnterminatedToken,
                "scratchpad policy rejected SQL with unterminated quote/comment"@,
            ),
        ),
        refusal(sql, 0, decision) == Some(
            (
                ScratchpadSqlPolicyCode::ClassifierUnavailable,
                "scratchpad sql policy is unavailable due to invalid max_sql_bytes"@,
            ),
        ),
{
}

} // verus!
