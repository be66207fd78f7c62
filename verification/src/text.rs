//! Text primitives: everything the library does with strings is stated over the
//! sequence of characters that a string holds.

use vstd::prelude::*;
use vstd::string::*;

verus! {

/// `String::push` appends one character to the end of the string.
pub assume_specification[ String::push ](target: &mut String, ch: char)
    ensures
        final(target)@ == old(target)@.push(ch),
;

/// The characters of `text`, one after the other.
pub fn chars_of(text: &str) -> (chars: Vec<char>)
    ensures
        chars@ == text@,
{
    let mut chars: Vec<char> = Vec::new();
    for ch in it: text.chars()
        invariant
            it.seq() == text@,
            chars@ == text@.take(it.index() as int),
    {
        chars.push(ch);
    }
    chars
}

/// The string that holds exactly `chars`.
pub fn text_of(chars: &[char]) -> (text: String)
    ensures
        text@ == chars@,
{
    let mut text: String = String::new();
    for i in 0..chars.len()
        invariant
            text@ == chars@.take(i as int),
    {
        text.push(chars[i]);
        assert(chars@.take(i + 1) =~= chars@.take(i as int).push(chars@[i as int]));
    }
    assert(chars@.take(chars.len() as int) =~= chars@);
    text
}

/// The characters of `chars` from `from` up to, but not with, `to`.
pub fn text_between(chars: &[char], from: usize, to: usize) -> (text: String)
    requires
        from <= to <= chars@.len(),
    ensures
        text@ == chars@.subrange(from as int, to as int),
{
    let mut text: String = String::new();
    let mut i: usize = from;
    while i < to
        invariant
            from <= i <= to <= chars@.len(),
            text@ == chars@.subrange(from as int, i as int),
        decreases to - i,
    {
        text.push(chars[i]);
        assert(chars@.subrange(from as int, i + 1) =~= chars@.subrange(from as int, i as int).push(
            chars@[i as int],
        ));
        i = i + 1;
    }
    text
}

/// Whether two texts hold the same characters.
pub fn same_text(left: &str, right: &str) -> (same: bool)
    ensures
        same == (left@ == right@),
{
    let a: Vec<char> = chars_of(left);
    let b: Vec<char> = chars_of(right);
    same_chars(&a, &b)
}

/// Whether two runs of characters are equal.
pub fn same_chars(a: &[char], b: &[char]) -> (same: bool)
    ensures
        same == (a@ == b@),
{
    if a.len() != b.len() {
        return false;
    }
    for i in 0..a.len()
        invariant
            a@.len() == b@.len(),
            forall|j: int| 0 <= j < i ==> a@[j] == b@[j],
    {
        if a[i] != b[i] {
            return false;
        }
    }
    assert(a@ =~= b@);
    true
}

// ---------------------------------------------------------------------------
// Views of collections of strings.
// ---------------------------------------------------------------------------

/// The texts that a sequence of strings holds.
pub open spec fn texts(items: Seq<String>) -> Seq<Seq<char>> {
    Seq::new(items.len(), |i: int| items[i]@)
}

/// The text that an optional string holds.
pub open spec fn opt_text(item: Option<String>) -> Option<Seq<char>> {
    match item {
        Some(text) => Some(text@),
        None => None,
    }
}

/// The text that an optional borrowed string holds.
pub open spec fn opt_str(item: Option<&str>) -> Option<Seq<char>> {
    match item {
        Some(text) => Some(text@),
        None => None,
    }
}

/// An owned copy of a list of strings.
pub fn clone_texts(items: &[String]) -> (copy: Vec<String>)
    ensures
        texts(copy@) == texts(items@),
        copy@ == items@,
{
    let mut copy: Vec<String> = Vec::new();
    for i in 0..items.len()
        invariant
            copy@ == items@.take(i as int),
    {
        copy.push(items[i].clone());
        assert(items@.take(i + 1) =~= items@.take(i as int).push(items@[i as int]));
    }
    assert(items@.take(items.len() as int) =~= items@);
    copy
}

/// An owned copy of an optional string.
pub fn clone_opt(item: &Option<String>) -> (copy: Option<String>)
    ensures
        copy == *item,
{
    match item {
        Some(text) => Some(text.clone()),
        None => None,
    }
}

/// Each of `items` as a `String`.
pub fn owned(items: &[&str]) -> (r: Vec<String>)
    ensures
        r@.len() == items@.len(),
        forall|i: int| 0 <= i < r@.len() ==> (#[trigger] r@[i])@ == items@[i]@,
{
    let mut r: Vec<String> = Vec::new();
    for i in 0..items.len()
        invariant
            r@.len() == i,
            forall|j: int| 0 <= j < i ==> (#[trigger] r@[j])@ == items@[j]@,
    {
        r.push(items[i].to_owned());
    }
    r
}

// ---------------------------------------------------------------------------
// Character classes.
// ---------------------------------------------------------------------------

/// The characters with Unicode's White_Space property.
pub open spec fn is_space(ch: char) -> bool {
    ||| 0x09 <= ch as u32 <= 0x0d
    ||| ch as u32 == 0x20
    ||| ch as u32 == 0x85
    ||| ch as u32 == 0xa0
    ||| ch as u32 == 0x1680
    ||| 0x2000 <= ch as u32 <= 0x200a
    ||| ch as u32 == 0x2028
    ||| ch as u32 == 0x2029
    ||| ch as u32 == 0x202f
    ||| ch as u32 == 0x205f
    ||| ch as u32 == 0x3000
}

/// Whether `ch` is white space.
pub fn space_char(ch: char) -> (r: bool)
    ensures
        r == is_space(ch),
{
    let code: u32 = ch as u32;
    (0x09 <= code && code <= 0x0d) || code == 0x20 || code == 0x85 || code == 0xa0 || code == 0x1680
        || (0x2000 <= code && code <= 0x200a) || code == 0x2028 || code == 0x2029 || code == 0x202f
        || code == 0x205f || code == 0x3000
}

/// An ASCII decimal digit.
pub open spec fn is_digit(ch: char) -> bool {
    '0' <= ch && ch <= '9'
}

/// An ASCII lower-case letter.
pub open spec fn is_lower(ch: char) -> bool {
    'a' <= ch && ch <= 'z'
}

/// An ASCII upper-case letter.
pub open spec fn is_upper(ch: char) -> bool {
    'A' <= ch && ch <= 'Z'
}

/// An ASCII letter or digit.
pub open spec fn is_alnum(ch: char) -> bool {
    is_digit(ch) || is_lower(ch) || is_upper(ch)
}

/// Whether `ch` is an ASCII decimal digit.
pub fn digit_char(ch: char) -> (r: bool)
    ensures
        r == is_digit(ch),
{
    '0' <= ch && ch <= '9'
}

/// Whether `ch` is an ASCII letter or digit.
pub fn alnum_char(ch: char) -> (r: bool)
    ensures
        r == is_alnum(ch),
{
    ('0' <= ch && ch <= '9') || ('a' <= ch && ch <= 'z') || ('A' <= ch && ch <= 'Z')
}

/// The ASCII lower-case form of a character; other characters are their own.
pub open spec fn lower(ch: char) -> char {
    if is_upper(ch) {
        ((ch as u32 + 32) as u32) as char
    } else {
        ch
    }
}

/// The ASCII upper-case form of a character; other characters are their own.
pub open spec fn upper(ch: char) -> char {
    if is_lower(ch) {
        ((ch as u32 - 32) as u32) as char
    } else {
        ch
    }
}

/// The ASCII lower-case form of `ch`.
pub fn lower_char(ch: char) -> (r: char)
    ensures
        r == lower(ch),
{
    if 'A' <= ch && ch <= 'Z' {
        let code: u8 = ch as u8;
        (code + 32) as char
    } else {
        ch
    }
}

/// The ASCII upper-case form of `ch`.
pub fn upper_char(ch: char) -> (r: char)
    ensures
        r == upper(ch),
{
    if 'a' <= ch && ch <= 'z' {
        let code: u8 = ch as u8;
        (code - 32) as char
    } else {
        ch
    }
}

/// `text` with every ASCII letter in lower case.
pub open spec fn lowered(text: Seq<char>) -> Seq<char> {
    Seq::new(text.len(), |i: int| lower(text[i]))
}

/// `text` with every ASCII letter in upper case.
pub open spec fn uppered(text: Seq<char>) -> Seq<char> {
    Seq::new(text.len(), |i: int| upper(text[i]))
}

/// `text` with every ASCII letter in lower case.
pub fn to_lower(text: &str) -> (r: String)
    ensures
        r@ == lowered(text@),
{
    let chars: Vec<char> = chars_of(text);
    let mut out: String = String::new();
    for i in 0..chars.len()
        invariant
            chars@ == text@,
            out@ == lowered(text@).take(i as int),
    {
        out.push(lower_char(chars[i]));
        assert(lowered(text@).take(i + 1) =~= lowered(text@).take(i as int).push(
            lower(text@[i as int]),
        ));
    }
    assert(lowered(text@).take(text@.len() as int) =~= lowered(text@));
    out
}

/// `text` with every ASCII letter in upper case.
pub fn to_upper(text: &str) -> (r: String)
    ensures
        r@ == uppered(text@),
{
    let chars: Vec<char> = chars_of(text);
    let mut out: String = String::new();
    for i in 0..chars.len()
        invariant
            chars@ == text@,
            out@ == uppered(text@).take(i as int),
    {
        out.push(upper_char(chars[i]));
        assert(uppered(text@).take(i + 1) =~= uppered(text@).take(i as int).push(
            upper(text@[i as int]),
        ));
    }
    assert(uppered(text@).take(text@.len() as int) =~= uppered(text@));
    out
}

/// Whether every character of `text` is an ASCII digit.
pub open spec fn all_digits(text: Seq<char>) -> bool {
    forall|i: int| 0 <= i < text.len() ==> is_digit(#[trigger] text[i])
}

/// Whether every character of `chars` is an ASCII digit.
pub fn digits_only(chars: &[char]) -> (r: bool)
    ensures
        r == all_digits(chars@),
{
    for i in 0..chars.len()
        invariant
            forall|j: int| 0 <= j < i ==> is_digit(#[trigger] chars@[j]),
    {
        if !digit_char(chars[i]) {
            return false;
        }
    }
    true
}

/// Whether `text` holds a white space character.
pub open spec fn has_space(text: Seq<char>) -> bool {
    exists|i: int| 0 <= i < text.len() && is_space(#[trigger] text[i])
}

/// Whether `text` holds a white space character.
pub fn any_space(text: &str) -> (r: bool)
    ensures
        r == has_space(text@),
{
    let chars: Vec<char> = chars_of(text);
    for i in 0..chars.len()
        invariant
            chars@ == text@,
            forall|j: int| 0 <= j < i ==> !is_space(#[trigger] text@[j]),
    {
        if space_char(chars[i]) {
            assert(is_space(text@[i as int]));
            return true;
        }
    }
    false
}

// ---------------------------------------------------------------------------
// Trimming.
// ---------------------------------------------------------------------------

/// `text` without the white space that it begins with.
pub open spec fn trim_start(text: Seq<char>) -> Seq<char>
    decreases text.len(),
{
    if text.len() > 0 && is_space(text[0]) {
        trim_start(text.drop_first())
    } else {
        text
    }
}

/// `text` without the white space that it ends with.
pub open spec fn trim_end(text: Seq<char>) -> Seq<char>
    decreases text.len(),
{
    if text.len() > 0 && is_space(text.last()) {
        trim_end(text.drop_last())
    } else {
        text
    }
}

/// `text` without white space at either end.
pub open spec fn trim(text: Seq<char>) -> Seq<char> {
    trim_end(trim_start(text))
}

/// `text` without white space at either end.
pub fn trimmed(text: &str) -> (r: String)
    ensures
        r@ == trim(text@),
{
    let chars: Vec<char> = chars_of(text);
    let n: usize = chars.len();
    let mut from: usize = 0;
    assert(text@.skip(0) =~= text@);
    while from < n && space_char(chars[from])
        invariant
            n == chars@.len(),
            chars@ == text@,
            0 <= from <= n,
            trim_start(text@) == trim_start(text@.skip(from as int)),
        decreases n - from,
    {
        assert(text@.skip(from as int).drop_first() =~= text@.skip(from + 1));
        from = from + 1;
    }
    assert(trim_start(text@) =~= text@.skip(from as int));
    let mut to: usize = n;
    assert(text@.skip(from as int) =~= text@.subrange(from as int, to as int));
    while from < to && space_char(chars[to - 1])
        invariant
            n == chars@.len(),
            chars@ == text@,
            from <= to <= n,
            trim(text@) == trim_end(text@.subrange(from as int, to as int)),
        decreases to - from,
    {
        assert(text@.subrange(from as int, to as int).drop_last() =~= text@.subrange(
            from as int,
            to - 1,
        ));
        to = to - 1;
    }
    text_between(&chars, from, to)
}

/// `text` without the white space that it ends with.
pub fn end_trimmed(text: &str) -> (r: String)
    ensures
        r@ == trim_end(text@),
{
    let chars: Vec<char> = chars_of(text);
    let mut to: usize = chars.len();
    assert(text@ =~= text@.subrange(0, to as int));
    while 0 < to && space_char(chars[to - 1])
        invariant
            chars@ == text@,
            to <= chars@.len(),
            trim_end(text@) == trim_end(text@.subrange(0, to as int)),
        decreases to,
    {
        assert(text@.subrange(0, to as int).drop_last() =~= text@.subrange(0, to - 1));
        to = to - 1;
    }
    text_between(&chars, 0, to)
}

/// Whether nothing but white space is in `text`.
pub open spec fn is_blank(text: Seq<char>) -> bool {
    trim(text).len() == 0
}

/// Whether nothing but white space is in `text`.
pub fn blank(text: &str) -> (r: bool)
    ensures
        r == is_blank(text@),
{
    let t: String = trimmed(text);
    t.as_str().is_empty()
}

// ---------------------------------------------------------------------------
// Prefixes, suffixes and search.
// ---------------------------------------------------------------------------

/// Whether `text` begins with `prefix`.
pub open spec fn begins(text: Seq<char>, prefix: Seq<char>) -> bool {
    prefix.len() <= text.len() && text.take(prefix.len() as int) == prefix
}

/// Whether `text` ends with `suffix`.
pub open spec fn ends(text: Seq<char>, suffix: Seq<char>) -> bool {
    suffix.len() <= text.len() && text.skip(text.len() - suffix.len()) == suffix
}

/// Whether `needle` stands in `text` at position `at`.
pub open spec fn stands_at(text: Seq<char>, needle: Seq<char>, at: int) -> bool {
    0 <= at && at + needle.len() <= text.len() && text.subrange(at, at + needle.len()) == needle
}

/// Whether `needle` stands somewhere in `text`.
pub open spec fn holds(text: Seq<char>, needle: Seq<char>) -> bool {
    exists|at: int| #[trigger] stands_at(text, needle, at)
}

/// Whether `needle` stands in `text` at position `at`.
pub fn chars_stand_at(text: &[char], needle: &[char], at: usize) -> (r: bool)
    ensures
        r == stands_at(text@, needle@, at as int),
{
    if at > text.len() || needle.len() > text.len() - at {
        return false;
    }
    let n: usize = text.len();
    for i in 0..needle.len()
        invariant
            n == text@.len(),
            at + needle@.len() <= n,
            forall|j: int| 0 <= j < i ==> text@[at + j] == #[trigger] needle@[j],
    {
        if text[at + i] != needle[i] {
            assert(text@.subrange(at as int, at + needle@.len())[i as int] != needle@[i as int]);
            return false;
        }
    }
    assert(text@.subrange(at as int, at + needle@.len()) =~= needle@);
    true
}

/// Whether `text` begins with `prefix`.
pub fn starts_with(text: &str, prefix: &str) -> (r: bool)
    ensures
        r == begins(text@, prefix@),
{
    let a: Vec<char> = chars_of(text);
    let b: Vec<char> = chars_of(prefix);
    let r: bool = chars_stand_at(&a, &b, 0);
    assert(begins(text@, prefix@) == stands_at(text@, prefix@, 0)) by {
        if prefix@.len() <= text@.len() {
            assert(text@.take(prefix@.len() as int) =~= text@.subrange(0, prefix@.len() as int));
        }
    }
    r
}

/// Whether `text` ends with `suffix`.
pub fn ends_with(text: &str, suffix: &str) -> (r: bool)
    ensures
        r == ends(text@, suffix@),
{
    let a: Vec<char> = chars_of(text);
    let b: Vec<char> = chars_of(suffix);
    if b.len() > a.len() {
        return false;
    }
    let r: bool = chars_stand_at(&a, &b, a.len() - b.len());
    assert(text@.skip(text@.len() - suffix@.len()) =~= text@.subrange(
        text@.len() - suffix@.len(),
        text@.len() as int,
    ));
    r
}

/// What follows `prefix` in `text`, where `text` begins with it.
pub fn strip_prefix(text: &str, prefix: &str) -> (r: Option<String>)
    ensures
        r is Some <==> begins(text@, prefix@),
        r matches Some(rest) ==> rest@ == text@.skip(prefix@.len() as int),
{
    if !starts_with(text, prefix) {
        return None;
    }
    let a: Vec<char> = chars_of(text);
    let b: Vec<char> = chars_of(prefix);
    let rest: String = text_between(&a, b.len(), a.len());
    assert(rest@ =~= text@.skip(prefix@.len() as int));
    Some(rest)
}

/// What precedes `suffix` in `text`, where `text` ends with it.
pub fn strip_suffix(text: &str, suffix: &str) -> (r: Option<String>)
    ensures
        r is Some <==> ends(text@, suffix@),
        r matches Some(rest) ==> rest@ == text@.take(text@.len() - suffix@.len()),
{
    if !ends_with(text, suffix) {
        return None;
    }
    let a: Vec<char> = chars_of(text);
    let b: Vec<char> = chars_of(suffix);
    let rest: String = text_between(&a, 0, a.len() - b.len());
    assert(rest@ =~= text@.take(text@.len() - suffix@.len()));
    Some(rest)
}

/// The first position at which `needle` stands in `text`.
pub fn find(text: &[char], needle: &[char]) -> (r: Option<usize>)
    ensures
        r is Some <==> holds(text@, needle@),
        r matches Some(at) ==> stands_at(text@, needle@, at as int) && forall|j: int|
            j < at ==> !#[trigger] stands_at(text@, needle@, j),
{
    if needle.len() > text.len() {
        return None;
    }
    let last: usize = text.len() - needle.len();
    let mut at: usize = 0;
    loop
        invariant
            last + needle@.len() == text@.len(),
            0 <= at <= last,
            forall|j: int| j < at ==> !#[trigger] stands_at(text@, needle@, j),
        decreases last - at,
    {
        if chars_stand_at(text, needle, at) {
            return Some(at);
        }
        if at == last {
            return None;
        }
        at = at + 1;
    }
}

/// Whether `needle` stands somewhere in `text`.
pub fn contains(text: &str, needle: &str) -> (r: bool)
    ensures
        r == holds(text@, needle@),
{
    let a: Vec<char> = chars_of(text);
    let b: Vec<char> = chars_of(needle);
    match find(&a, &b) {
        Some(_) => true,
        None => false,
    }
}

// ---------------------------------------------------------------------------
// Splitting.
// ---------------------------------------------------------------------------

/// The pieces of `text` between the characters of `marks`, read from left to right:
/// a mark opens a new piece, any other character joins the piece that is open.
pub open spec fn split(text: Seq<char>, marks: Seq<char>) -> Seq<Seq<char>>
    decreases text.len(),
{
    if text.len() == 0 {
        seq![Seq::<char>::empty()]
    } else {
        let before = split(text.drop_last(), marks);
        if marks.contains(text.last()) {
            before.push(Seq::<char>::empty())
        } else {
            before.drop_last().push(before.last().push(text.last()))
        }
    }
}

/// The members of `pieces` that are not empty, in their order.
pub open spec fn non_empty(pieces: Seq<Seq<char>>) -> Seq<Seq<char>>
    decreases pieces.len(),
{
    if pieces.len() == 0 {
        pieces
    } else {
        let before = non_empty(pieces.drop_last());
        if pieces.last().len() == 0 {
            before
        } else {
            before.push(pieces.last())
        }
    }
}

pub proof fn lemma_split_not_empty(text: Seq<char>, marks: Seq<char>)
    ensures
        split(text, marks).len() > 0,
    decreases text.len(),
{
    if text.len() > 0 {
        lemma_split_not_empty(text.drop_last(), marks);
    }
}

/// Whether `ch` is one of `marks`.
pub fn is_mark(ch: char, marks: &[char]) -> (r: bool)
    ensures
        r == marks@.contains(ch),
{
    for i in 0..marks.len()
        invariant
            forall|j: int| 0 <= j < i ==> marks@[j] != ch,
    {
        if marks[i] == ch {
            assert(marks@.contains(ch));
            return true;
        }
    }
    false
}

/// The pieces of `text` between the characters of `marks`.
pub fn split_text(text: &str, marks: &[char]) -> (pieces: Vec<String>)
    ensures
        texts(pieces@) == split(text@, marks@),
        pieces@.len() > 0,
{
    let chars: Vec<char> = chars_of(text);
    let mut done: Vec<String> = Vec::new();
    let mut open: String = String::new();
    assert(text@.take(0) =~= Seq::<char>::empty());
    assert(texts(done@).push(open@) =~= split(text@.take(0), marks@));
    for i in 0..chars.len()
        invariant
            chars@ == text@,
            texts(done@).push(open@) == split(text@.take(i as int), marks@),
    {
        let ghost before = texts(done@).push(open@);
        assert(text@.take(i + 1).drop_last() =~= text@.take(i as int));
        assert(before.drop_last() =~= texts(done@));
        if is_mark(chars[i], marks) {
            let ghost old_done = done@;
            done.push(open);
            open = String::new();
            assert(texts(done@) =~= texts(old_done).push(old_done.push(done@.last()).last()@));
            assert(texts(done@).push(open@) =~= before.push(Seq::<char>::empty()));
        } else {
            open.push(chars[i]);
        }
    }
    assert(text@.take(text@.len() as int) =~= text@);
    let ghost old_done = done@;
    done.push(open);
    assert(texts(done@) =~= split(text@, marks@));
    done
}

/// The members of `pieces` that are not empty, in their order.
pub fn keep_non_empty(pieces: &[String]) -> (r: Vec<String>)
    ensures
        texts(r@) == non_empty(texts(pieces@)),
{
    let mut r: Vec<String> = Vec::new();
    assert(texts(r@) =~= non_empty(texts(pieces@).take(0)));
    for i in 0..pieces.len()
        invariant
            texts(r@) == non_empty(texts(pieces@).take(i as int)),
    {
        assert(texts(pieces@).take(i + 1).drop_last() =~= texts(pieces@).take(i as int));
        if !pieces[i].as_str().is_empty() {
            let ghost before = r@;
            r.push(pieces[i].clone());
            assert(texts(r@) =~= texts(before).push(pieces@[i as int]@));
        }
    }
    assert(texts(pieces@).take(pieces@.len() as int) =~= texts(pieces@));
    r
}

/// The first mark of `text`: the pieces before and after it.
#[verifier::opaque]
pub open spec fn split_at_first(text: Seq<char>, mark: Seq<char>) -> Option<(Seq<char>, Seq<char>)> {
    if holds(text, mark) {
        let at = first_at(text, mark);
        Some((text.take(at), text.skip(at + mark.len())))
    } else {
        None
    }
}

/// The first position at which `mark` stands in a text that holds it.
pub open spec fn first_at(text: Seq<char>, mark: Seq<char>) -> int {
    choose|at: int|
        stands_at(text, mark, at) && forall|j: int| j < at ==> !#[trigger] stands_at(text, mark, j)
}

/// The pieces of `text` between the characters of `marks`, without white space at their
/// ends and without those that are then empty.
pub open spec fn trimmed_pieces(text: Seq<char>, marks: Seq<char>) -> Seq<Seq<char>> {
    non_empty(Seq::new(split(text, marks).len(), |i: int| trim(split(text, marks)[i])))
}

/// The pieces of `text` between the characters of `marks`, without white space at their
/// ends and without those that are then empty.
pub fn split_trimmed(text: &str, marks: &[char]) -> (r: Vec<String>)
    ensures
        texts(r@) == trimmed_pieces(text@, marks@),
{
    let pieces: Vec<String> = split_text(text, marks);
    let mut shown: Vec<String> = Vec::new();
    for i in 0..pieces.len()
        invariant
            shown@.len() == i,
            texts(pieces@) == split(text@, marks@),
            forall|j: int|
                0 <= j < i ==> (#[trigger] shown@[j])@ == trim(split(text@, marks@)[j]),
    {
        assert(split(text@, marks@)[i as int] == pieces@[i as int]@);
        shown.push(trimmed(pieces[i].as_str()));
    }
    assert(texts(shown@) =~= Seq::new(
        split(text@, marks@).len(),
        |i: int| trim(split(text@, marks@)[i]),
    ));
    keep_non_empty(shown.as_slice())
}

/// Whether a text is one of `items`.
pub fn has_text(items: &[String], word: &str) -> (found: bool)
    ensures
        found == texts(items@).contains(word@),
{
    for i in 0..items.len()
        invariant
            forall|j: int| 0 <= j < i ==> (#[trigger] items@[j])@ != word@,
    {
        if same_text(items[i].as_str(), word) {
            assert(texts(items@)[i as int] == word@);
            return true;
        }
    }
    assert forall|j: int| 0 <= j < texts(items@).len() implies texts(items@)[j] != word@ by {
        assert(items@[j]@ != word@);
    }
    false
}

/// Adds a text to a list.
pub fn add_text(items: &mut Vec<String>, item: &str)
    ensures
        texts(final(items)@) == texts(old(items)@).push(item@),
{
    items.push(item.to_owned());
    assert(texts(items@) =~= texts(old(items)@).push(item@));
}

/// Puts a text into a list.
pub fn put_text(items: &mut Vec<String>, at: usize, item: &str)
    requires
        at <= old(items)@.len(),
    ensures
        texts(final(items)@) == texts(old(items)@).insert(at as int, item@),
{
    items.insert(at, item.to_owned());
    assert(texts(items@) =~= texts(old(items)@).insert(at as int, item@));
}

/// The pieces of `text` before and after the first `mark` in it.
pub fn split_once(text: &str, mark: &str) -> (r: Option<(String, String)>)
    ensures
        match r {
            Some(pair) => split_at_first(text@, mark@) == Some((pair.0@, pair.1@)),
            None => split_at_first(text@, mark@) is None,
        },
{
    reveal(split_at_first);
    let chars: Vec<char> = chars_of(text);
    let needle: Vec<char> = chars_of(mark);
    match find(&chars, &needle) {
        None => None,
        Some(at) => {
            let left: String = text_between(&chars, 0, at);
            let n: usize = chars.len();
            assert(at + needle@.len() <= n);
            let right: String = text_between(&chars, at + needle.len(), chars.len());
            assert(first_at(text@, mark@) == at) by {
                let f = first_at(text@, mark@);
                assert(stands_at(text@, mark@, at as int));
                assert(stands_at(text@, mark@, f) && forall|j: int|
                    j < f ==> !#[trigger] stands_at(text@, mark@, j));
            }
            assert(left@ =~= text@.take(at as int));
            assert(right@ =~= text@.skip(at + mark@.len()));
            Some((left, right))
        },
    }
}

/// The pieces of `text` between runs of white space: the words of it.
pub open spec fn words(text: Seq<char>) -> Seq<Seq<char>>
    decreases text.len(),
{
    non_empty(space_split(text))
}

/// The pieces of `text` between white space characters, the empty ones among them.
pub open spec fn space_split(text: Seq<char>) -> Seq<Seq<char>>
    decreases text.len(),
{
    if text.len() == 0 {
        seq![Seq::<char>::empty()]
    } else {
        let before = space_split(text.drop_last());
        if is_space(text.last()) {
            before.push(Seq::<char>::empty())
        } else {
            before.drop_last().push(before.last().push(text.last()))
        }
    }
}

/// The words of `text`.
pub fn words_of(text: &str) -> (r: Vec<String>)
    ensures
        texts(r@) == words(text@),
{
    let chars: Vec<char> = chars_of(text);
    let mut done: Vec<String> = Vec::new();
    let mut open: String = String::new();
    assert(text@.take(0) =~= Seq::<char>::empty());
    assert(texts(done@).push(open@) =~= space_split(text@.take(0)));
    for i in 0..chars.len()
        invariant
            chars@ == text@,
            texts(done@).push(open@) == space_split(text@.take(i as int)),
    {
        let ghost before = texts(done@).push(open@);
        assert(text@.take(i + 1).drop_last() =~= text@.take(i as int));
        assert(before.drop_last() =~= texts(done@));
        if space_char(chars[i]) {
            done.push(open);
            open = String::new();
            assert(texts(done@).push(open@) =~= before.push(Seq::<char>::empty()));
        } else {
            open.push(chars[i]);
        }
    }
    assert(text@.take(text@.len() as int) =~= text@);
    done.push(open);
    assert(texts(done@) =~= space_split(text@));
    keep_non_empty(&done)
}

/// `line` without one carriage return at its end.
pub open spec fn without_cr(line: Seq<char>) -> Seq<char> {
    if line.len() > 0 && line.last() == '\r' {
        line.drop_last()
    } else {
        line
    }
}

/// The lines of `text`: the pieces that a line feed ends, each without the carriage
/// return before that line feed, and what follows the last line feed, if anything does.
pub open spec fn lines(text: Seq<char>) -> Seq<Seq<char>> {
    let pieces = split(text, seq!['\n']);
    let ended = Seq::new((pieces.len() - 1) as nat, |i: int| without_cr(pieces[i]));
    if pieces.last().len() == 0 {
        ended
    } else {
        ended.push(pieces.last())
    }
}

/// The lines of `text`.
pub fn lines_of(text: &str) -> (r: Vec<String>)
    ensures
        texts(r@) == lines(text@),
{
    let marks: [char; 1] = ['\n'];
    let pieces: Vec<String> = split_text(text, &marks);
    assert(marks@ =~= seq!['\n']);
    let ghost view = texts(pieces@);
    let ghost ended = Seq::new((view.len() - 1) as nat, |i: int| without_cr(view[i]));
    let mut r: Vec<String> = Vec::new();
    let last: usize = pieces.len() - 1;
    assert(texts(r@) =~= ended.take(0));
    for i in 0..last
        invariant
            last == pieces@.len() - 1,
            view == texts(pieces@),
            ended == Seq::new((view.len() - 1) as nat, |k: int| without_cr(view[k])),
            texts(r@) == ended.take(i as int),
    {
        let line: Vec<char> = chars_of(pieces[i].as_str());
        let n: usize = line.len();
        let ghost before = r@;
        let stripped: String = if n > 0 && line[n - 1] == '\r' {
            text_between(&line, 0, n - 1)
        } else {
            pieces[i].clone()
        };
        assert(stripped@ =~= without_cr(view[i as int]));
        r.push(stripped);
        assert(texts(r@) =~= texts(before).push(stripped@));
        assert(ended.take(i + 1) =~= ended.take(i as int).push(ended[i as int]));
    }
    assert(ended.take(last as int) =~= ended);
    if !pieces[last].as_str().is_empty() {
        let ghost before = r@;
        r.push(pieces[last].clone());
        assert(texts(r@) =~= texts(before).push(view.last()));
    }
    r
}

/// `parts` one after the other, with `mark` between each two of them.
pub open spec fn joined(parts: Seq<Seq<char>>, mark: Seq<char>) -> Seq<char>
    decreases parts.len(),
{
    if parts.len() == 0 {
        Seq::<char>::empty()
    } else if parts.len() == 1 {
        parts[0]
    } else {
        joined(parts.drop_last(), mark) + mark + parts.last()
    }
}

/// `parts` one after the other, with `mark` between each two of them.
pub fn join(parts: &[String], mark: &str) -> (r: String)
    ensures
        r@ == joined(texts(parts@), mark@),
{
    let mut r: String = String::new();
    assert(texts(parts@).take(0) =~= Seq::<Seq<char>>::empty());
    for i in 0..parts.len()
        invariant
            r@ == joined(texts(parts@).take(i as int), mark@),
    {
        if i > 0 {
            r.append(mark);
        }
        r.append(parts[i].as_str());
        assert(texts(parts@).take(i + 1).drop_last() =~= texts(parts@).take(i as int));
        if i == 0 {
            assert(Seq::<char>::empty() + parts@[0]@ =~= parts@[0]@);
        }
    }
    assert(texts(parts@).take(parts@.len() as int) =~= texts(parts@));
    r
}

// ---------------------------------------------------------------------------
// Numbers.
// ---------------------------------------------------------------------------

/// The decimal digit of a number below ten.
pub open spec fn digit(n: nat) -> char {
    ((48 + n) as u8) as char
}

/// The number that a decimal digit stands for.
pub open spec fn digit_value(ch: char) -> nat {
    (ch as u32 - 48) as nat
}

/// The decimal numeral of `n`, without leading zeros.
pub open spec fn decimal(n: nat) -> Seq<char>
    decreases n,
{
    if n < 10 {
        seq![digit(n)]
    } else {
        decimal(n / 10).push(digit(n % 10))
    }
}

/// The number that a run of decimal digits stands for.
pub open spec fn numeral_value(digits: Seq<char>) -> nat
    decreases digits.len(),
{
    if digits.len() == 0 {
        0
    } else {
        numeral_value(digits.drop_last()) * 10 + digit_value(digits.last())
    }
}

/// The decimal numeral of `n`.
pub fn decimal_text(n: u64) -> (r: String)
    ensures
        r@ == decimal(n as nat),
    decreases n,
{
    let mut r: String = if n < 10 {
        String::new()
    } else {
        decimal_text(n / 10)
    };
    let ghost before = r@;
    let d: u8 = (n % 10) as u8;
    r.push((48 + d) as char);
    if n < 10 {
        assert(r@ =~= decimal(n as nat));
    }
    r
}

/// The decimal numeral of `n`, which may be wider than the machine's words.
pub fn wide_decimal_text(n: u128) -> (r: String)
    ensures
        r@ == decimal(n as nat),
    decreases n,
{
    if n < 10 {
        return decimal_text(n as u64);
    }
    let mut r: String = wide_decimal_text(n / 10);
    let last: String = decimal_text((n % 10) as u64);
    assert(last@ =~= seq![digit((n % 10) as nat)]);
    r.append(last.as_str());
    assert(r@ =~= decimal(n as nat));
    r
}

/// A decimal numeral is a non-empty run of digits and stands for its number.
pub proof fn lemma_decimal(n: nat)
    ensures
        decimal(n).len() > 0,
        all_digits(decimal(n)),
        numeral_value(decimal(n)) == n,
        n >= 10 ==> decimal(n)[0] != '0',
    decreases n,
{
    if n < 10 {
        reveal_with_fuel(numeral_value, 2);
        assert(decimal(n).drop_last() =~= Seq::<char>::empty());
    } else {
        lemma_decimal(n / 10);
        assert(decimal(n).drop_last() =~= decimal(n / 10));
        if n / 10 < 10 {
            assert(decimal(n / 10)[0] == digit(n / 10));
        }
        assert(decimal(n)[0] == decimal(n / 10)[0]);
    }
}

/// The number that `text` stands for when it is read as an unsigned 64-bit integer:
/// decimal digits, after one plus sign at most.
pub open spec fn parsed_u64(text: Seq<char>) -> Option<u64> {
    let digits = if text.len() > 0 && text[0] == '+' {
        text.drop_first()
    } else {
        text
    };
    if digits.len() > 0 && all_digits(digits) && numeral_value(digits) <= u64::MAX {
        Some(numeral_value(digits) as u64)
    } else {
        None
    }
}

pub proof fn lemma_numeral_prefix(digits: Seq<char>, n: int)
    requires
        0 <= n <= digits.len(),
    ensures
        numeral_value(digits.take(n)) <= numeral_value(digits),
    decreases digits.len(),
{
    if n < digits.len() {
        lemma_numeral_prefix(digits.drop_last(), n);
        assert(digits.drop_last().take(n) =~= digits.take(n));
    } else {
        assert(digits.take(n) =~= digits);
    }
}

/// Reads `text` as an unsigned 64-bit integer.
pub fn parse_u64(text: &str) -> (r: Option<u64>)
    ensures
        r == parsed_u64(text@),
{
    let chars: Vec<char> = chars_of(text);
    let from: usize = if chars.len() > 0 && chars[0] == '+' {
        1
    } else {
        0
    };
    let ghost digits = if text@.len() > 0 && text@[0] == '+' {
        text@.drop_first()
    } else {
        text@
    };
    assert(digits =~= text@.skip(from as int));
    if chars.len() == from {
        return None;
    }
    let mut value: u64 = 0;
    assert(digits.take(0) =~= Seq::<char>::empty());
    let mut i: usize = from;
    while i < chars.len()
        invariant
            chars@ == text@,
            from <= i <= chars@.len(),
            from <= 1,
            digits == text@.skip(from as int),
            digits == (if text@.len() > 0 && text@[0] == '+' {
                text@.drop_first()
            } else {
                text@
            }),
            value == numeral_value(digits.take(i - from)),
            all_digits(digits.take(i - from)),
        decreases chars@.len() - i,
    {
        let ghost k = i - from;
        assert(digits[k] == text@[i as int]);
        assert(digits.take(k + 1).drop_last() =~= digits.take(k));
        if !digit_char(chars[i]) {
            assert(!is_digit(digits[k]));
            return None;
        }
        let d: u64 = (chars[i] as u32 - 48) as u64;
        proof {
            lemma_numeral_prefix(digits, k + 1);
            assert forall|j: int| 0 <= j < k + 1 implies is_digit(
                #[trigger] digits.take(k + 1)[j],
            ) by {
                if j < k {
                    assert(digits.take(k)[j] == digits[j]);
                }
            }
        }
        match value.checked_mul(10) {
            None => {
                return None;
            },
            Some(scaled) => match scaled.checked_add(d) {
                None => {
                    return None;
                },
                Some(sum) => {
                    value = sum;
                },
            },
        }
        i = i + 1;
    }
    assert(digits.take(digits.len() as int) =~= digits);
    Some(value)
}

/// The hexadecimal digit of a number below sixteen.
pub open spec fn hex_digit(n: nat) -> char {
    if n < 10 {
        ((48 + n) as u8) as char
    } else {
        ((87 + n) as u8) as char
    }
}

/// The hexadecimal numeral of `n` in `width` digits, with leading zeros.
pub open spec fn hex(n: nat, width: nat) -> Seq<char>
    decreases width,
{
    if width == 0 {
        Seq::<char>::empty()
    } else {
        hex(n / 16, (width - 1) as nat).push(hex_digit(n % 16))
    }
}

/// The hexadecimal digit of a number below sixteen.
pub fn hex_char(n: u8) -> (r: char)
    requires
        n < 16,
    ensures
        r == hex_digit(n as nat),
{
    if n < 10 {
        (48 + n) as char
    } else {
        (87 + n) as char
    }
}

/// The hexadecimal numeral of `n` in `width` digits, with leading zeros.
pub fn hex_text(n: u64, width: u8) -> (r: String)
    ensures
        r@ == hex(n as nat, width as nat),
    decreases width,
{
    if width == 0 {
        return String::new();
    }
    let mut r: String = hex_text(n / 16, width - 1);
    r.push(hex_char((n % 16) as u8));
    r
}

// ---------------------------------------------------------------------------
// Replacement.
// ---------------------------------------------------------------------------

/// `text` with every `mark` in it written twice.
pub open spec fn doubled(text: Seq<char>, mark: char) -> Seq<char>
    decreases text.len(),
{
    if text.len() == 0 {
        text
    } else {
        let before = doubled(text.drop_last(), mark);
        if text.last() == mark {
            before.push(mark).push(mark)
        } else {
            before.push(text.last())
        }
    }
}

/// `text` with every `mark` in it written twice.
pub fn double_marks(text: &str, mark: char) -> (r: String)
    ensures
        r@ == doubled(text@, mark),
{
    let chars: Vec<char> = chars_of(text);
    let mut r: String = String::new();
    assert(r@ =~= doubled(text@.take(0), mark));
    for i in 0..chars.len()
        invariant
            chars@ == text@,
            r@ == doubled(text@.take(i as int), mark),
    {
        assert(text@.take(i + 1).drop_last() =~= text@.take(i as int));
        if chars[i] == mark {
            r.push(mark);
            r.push(mark);
        } else {
            r.push(chars[i]);
        }
    }
    assert(text@.take(text@.len() as int) =~= text@);
    r
}

// ---------------------------------------------------------------------------
// Order.
// ---------------------------------------------------------------------------

/// The dictionary order of texts, by the code points of their characters.
pub open spec fn precedes(a: Seq<char>, b: Seq<char>) -> bool
    decreases a.len(),
{
    if b.len() == 0 {
        false
    } else if a.len() == 0 {
        true
    } else if a[0] != b[0] {
        (a[0] as u32) < (b[0] as u32)
    } else {
        precedes(a.drop_first(), b.drop_first())
    }
}

/// Whether `left` stands before `right` in dictionary order.
pub fn stands_before(left: &str, right: &str) -> (r: bool)
    ensures
        r == precedes(left@, right@),
{
    let a: Vec<char> = chars_of(left);
    let b: Vec<char> = chars_of(right);
    let mut i: usize = 0;
    assert(left@.skip(0) =~= left@);
    assert(right@.skip(0) =~= right@);
    loop
        invariant
            a@ == left@,
            b@ == right@,
            i <= a@.len(),
            i <= b@.len(),
            precedes(left@, right@) == precedes(left@.skip(i as int), right@.skip(i as int)),
        decreases a@.len() - i,
    {
        if i == b.len() {
            return false;
        }
        if i == a.len() {
            return true;
        }
        if a[i] != b[i] {
            return (a[i] as u32) < (b[i] as u32);
        }
        assert(left@.skip(i as int).drop_first() =~= left@.skip(i + 1));
        assert(right@.skip(i as int).drop_first() =~= right@.skip(i + 1));
        i = i + 1;
    }
}

proof fn lemma_char_code(a: char, b: char)
    ensures
        a as u32 == b as u32 ==> a == b,
{
}

/// Dictionary order is a strict total order.
pub proof fn lemma_precedes(a: Seq<char>, b: Seq<char>, c: Seq<char>)
    ensures
        !precedes(a, a),
        precedes(a, b) ==> !precedes(b, a),
        a == b || precedes(a, b) || precedes(b, a),
        precedes(a, b) && precedes(b, c) ==> precedes(a, c),
    decreases a.len() + b.len() + c.len(),
{
    if a.len() > 0 {
        lemma_precedes_irreflexive(a);
    }
    if a.len() > 0 && b.len() > 0 && a[0] == b[0] {
        let x = a.drop_first();
        let y = b.drop_first();
        lemma_precedes(x, y, Seq::<char>::empty());
        if x == y {
            assert(seq![a[0]] + x =~= a);
            assert(seq![b[0]] + y =~= b);
            assert(a == b);
        }
        if c.len() > 0 && b[0] == c[0] {
            lemma_precedes(x, y, c.drop_first());
        }
    } else if a.len() == 0 && b.len() == 0 {
        assert(a =~= b);
    } else if a.len() > 0 && b.len() > 0 {
        lemma_char_code(a[0], b[0]);
    }
}

proof fn lemma_precedes_irreflexive(a: Seq<char>)
    ensures
        !precedes(a, a),
    decreases a.len(),
{
    if a.len() > 0 {
        lemma_precedes_irreflexive(a.drop_first());
    }
}

// ---------------------------------------------------------------------------
// Bytes.
// ---------------------------------------------------------------------------

/// The number of bytes that UTF-8 takes for a character.
pub open spec fn width(ch: char) -> nat {
    if ch as u32 <= 0x7f {
        1
    } else if ch as u32 <= 0x7ff {
        2
    } else if ch as u32 <= 0xffff {
        3
    } else {
        4
    }
}

/// The number of bytes that UTF-8 takes for a text.
pub open spec fn byte_len(text: Seq<char>) -> nat
    decreases text.len(),
{
    if text.len() == 0 {
        0
    } else {
        byte_len(text.drop_last()) + width(text.last())
    }
}

proof fn lemma_byte_len_first(text: Seq<char>)
    requires
        text.len() > 0,
    ensures
        byte_len(text) == width(text[0]) + byte_len(text.drop_first()),
    decreases text.len(),
{
    if text.len() == 1 {
        reveal_with_fuel(byte_len, 2);
        assert(text.drop_last() =~= text.drop_first());
    } else {
        lemma_byte_len_first(text.drop_last());
        assert(text.drop_last().drop_first() =~= text.drop_first().drop_last());
        assert(text.drop_first().last() == text.last());
    }
}

proof fn lemma_scalar_width(ch: char)
    ensures
        vstd::utf8::encode_scalar(ch as u32).len() == width(ch),
{
    let code = ch as u32;
    assert(code <= 0x10ffff && !(0xd800 <= code <= 0xdfff));
}

/// The encoding of a text has as many bytes as its characters take.
pub proof fn lemma_byte_len(text: Seq<char>)
    ensures
        vstd::utf8::encode_utf8(text).len() == byte_len(text),
    decreases text.len(),
{
    if text.len() > 0 {
        lemma_byte_len(text.drop_first());
        lemma_byte_len_first(text);
        lemma_scalar_width(text[0]);
    }
}

/// The number of bytes that a text takes.
pub fn bytes_in(text: &str) -> (n: usize)
    ensures
        n == byte_len(text@),
{
    proof {
        lemma_byte_len(text@);
    }
    text.as_bytes().len()
}

/// The number of bytes that UTF-8 takes for a character.
pub fn char_width(ch: char) -> (n: usize)
    ensures
        n == width(ch),
{
    let code: u32 = ch as u32;
    if code <= 0x7f {
        1
    } else if code <= 0x7ff {
        2
    } else if code <= 0xffff {
        3
    } else {
        4
    }
}

/// The longest beginning of `text` that takes at most `limit` bytes.
pub open spec fn fitting(text: Seq<char>, limit: nat) -> Seq<char>
    decreases text.len(),
{
    if byte_len(text) <= limit {
        text
    } else {
        fitting(text.drop_last(), limit)
    }
}

/// The longest beginning of `text` that takes at most `limit` bytes.
pub fn fit(text: &str, limit: usize) -> (r: String)
    ensures
        r@ == fitting(text@, limit as nat),
{
    let chars: Vec<char> = chars_of(text);
    let mut left: usize = bytes_in(text);
    let mut to: usize = chars.len();
    assert(text@ =~= text@.subrange(0, to as int));
    while left > limit
        invariant
            chars@ == text@,
            to <= chars@.len(),
            left == byte_len(text@.subrange(0, to as int)),
            fitting(text@, limit as nat) == fitting(text@.subrange(0, to as int), limit as nat),
        decreases to,
    {
        assert(to > 0) by {
            if to == 0 {
                assert(text@.subrange(0, 0) =~= Seq::<char>::empty());
            }
        }
        assert(text@.subrange(0, to as int).drop_last() =~= text@.subrange(0, to - 1));
        to = to - 1;
        left = left - char_width(chars[to]);
    }
    text_between(&chars, 0, to)
}

/// A beginning that fits is a beginning, and it fits.
pub proof fn lemma_fitting(text: Seq<char>, limit: nat)
    ensures
        byte_len(fitting(text, limit)) <= limit,
        fitting(text, limit).len() <= text.len(),
        fitting(text, limit) == text.take(fitting(text, limit).len() as int),
    decreases text.len(),
{
    if byte_len(text) > limit {
        lemma_fitting(text.drop_last(), limit);
        let n = fitting(text, limit).len();
        assert(text.drop_last().take(n as int) =~= text.take(n as int));
    } else {
        assert(text.take(text.len() as int) =~= text);
    }
}

pub proof fn lemma_byte_len_concat(a: Seq<char>, b: Seq<char>)
    ensures
        byte_len(a + b) == byte_len(a) + byte_len(b),
    decreases b.len(),
{
    if b.len() == 0 {
        assert(a + b =~= a);
    } else {
        lemma_byte_len_concat(a, b.drop_last());
        assert((a + b).drop_last() =~= a + b.drop_last());
    }
}

// ---------------------------------------------------------------------------
// Laws.
// ---------------------------------------------------------------------------

proof fn lemma_trim_start(text: Seq<char>)
    ensures
        trim_start(text).len() <= text.len(),
        trim_start(text).len() > 0 ==> !is_space(trim_start(text)[0]),
        trim_start(text) == text.skip(text.len() - trim_start(text).len()),
    decreases text.len(),
{
    if text.len() > 0 && is_space(text[0]) {
        lemma_trim_start(text.drop_first());
        assert(trim_start(text) =~= text.skip(text.len() - trim_start(text).len()));
    } else {
        assert(text.skip(0) =~= text);
    }
}

proof fn lemma_trim_end(text: Seq<char>)
    ensures
        trim_end(text).len() <= text.len(),
        trim_end(text).len() > 0 ==> !is_space(trim_end(text).last()),
        trim_end(text) == text.take(trim_end(text).len() as int),
    decreases text.len(),
{
    if text.len() > 0 && is_space(text.last()) {
        lemma_trim_end(text.drop_last());
        assert(trim_end(text) =~= text.take(trim_end(text).len() as int));
    } else {
        assert(text.take(text.len() as int) =~= text);
    }
}

/// What was trimmed has no white space at either end, and trimming it again changes
/// nothing.
pub proof fn law_trim(text: Seq<char>)
    ensures
        trim(text).len() <= text.len(),
        trim(text).len() > 0 ==> !is_space(trim(text)[0]) && !is_space(trim(text).last()),
        trim(trim(text)) == trim(text),
{
    lemma_trim_start(text);
    lemma_trim_end(trim_start(text));
    let once = trim(text);
    if once.len() > 0 {
        assert(once[0] == trim_start(text)[0]);
    }
}

/// The ASCII lower-case form is its own lower-case form.
pub proof fn law_lowered(text: Seq<char>)
    ensures
        lowered(lowered(text)) == lowered(text),
{
    assert(lowered(lowered(text)) =~= lowered(text));
}

/// A number's decimal numeral is read back as that number.
pub proof fn law_decimal_reads_back(n: u64)
    ensures
        parsed_u64(decimal(n as nat)) == Some(n),
{
    lemma_decimal(n as nat);
    assert(is_digit(decimal(n as nat)[0]));
}

pub proof fn lemma_split_plain(text: Seq<char>, marks: Seq<char>)
    requires
        forall|i: int| 0 <= i < text.len() ==> !marks.contains(#[trigger] text[i]),
    ensures
        split(text, marks) == seq![text],
    decreases text.len(),
{
    if text.len() > 0 {
        let before = text.drop_last();
        assert forall|i: int| 0 <= i < before.len() implies !marks.contains(
            #[trigger] before[i],
        ) by {
            assert(before[i] == text[i]);
        }
        lemma_split_plain(before, marks);
        assert(before.push(text.last()) =~= text);
        assert(split(text, marks) =~= seq![text]);
    } else {
        assert(text =~= Seq::<char>::empty());
    }
}

proof fn lemma_split_tail(head: Seq<char>, mark: char, tail: Seq<char>, marks: Seq<char>)
    requires
        marks.contains(mark),
        forall|i: int| 0 <= i < tail.len() ==> !marks.contains(#[trigger] tail[i]),
    ensures
        split(head + seq![mark] + tail, marks) == split(head, marks).push(tail),
    decreases tail.len(),
{
    let all = head + seq![mark] + tail;
    if tail.len() == 0 {
        assert(all.drop_last() =~= head);
        assert(tail =~= Seq::<char>::empty());
    } else {
        let short = tail.drop_last();
        assert forall|i: int| 0 <= i < short.len() implies !marks.contains(#[trigger] short[i]) by {
            assert(short[i] == tail[i]);
        }
        lemma_split_tail(head, mark, short, marks);
        assert(all.drop_last() =~= head + seq![mark] + short);
        let before = split(head, marks).push(short);
        assert(before.drop_last() =~= split(head, marks));
        assert(short.push(tail.last()) =~= tail);
        assert(!marks.contains(tail[tail.len() - 1]));
    }
}

/// Pieces that hold no mark, joined with a mark between them, are split into those pieces.
pub proof fn law_split_of_joined(parts: Seq<Seq<char>>, mark: char)
    requires
        parts.len() > 0,
        forall|i: int| 0 <= i < parts.len() ==> !(#[trigger] parts[i]).contains(mark),
    ensures
        split(joined(parts, seq![mark]), seq![mark]) == parts,
    decreases parts.len(),
{
    let marks = seq![mark];
    assert(marks.contains(mark)) by {
        assert(marks[0] == mark);
    }
    let last = parts.last();
    assert(!parts[parts.len() - 1].contains(mark));
    assert forall|i: int| 0 <= i < last.len() implies !marks.contains(#[trigger] last[i]) by {
        assert(last.contains(last[i]));
    }
    if parts.len() == 1 {
        lemma_split_plain(last, marks);
        assert(split(joined(parts, marks), marks) =~= parts);
    } else {
        let before = parts.drop_last();
        assert forall|i: int| 0 <= i < before.len() implies !(#[trigger] before[i]).contains(
            mark,
        ) by {
            assert(before[i] == parts[i]);
        }
        law_split_of_joined(before, mark);
        lemma_split_tail(joined(before, marks), mark, last, marks);
        assert(before.push(last) =~= parts);
    }
}

proof fn lemma_space_split_plain(text: Seq<char>)
    requires
        !has_space(text),
    ensures
        space_split(text) == seq![text],
    decreases text.len(),
{
    if text.len() > 0 {
        let before = text.drop_last();
        if has_space(before) {
            let i = choose|i: int| 0 <= i < before.len() && is_space(#[trigger] before[i]);
            assert(is_space(text[i]));
        }
        lemma_space_split_plain(before);
        assert(before.push(text.last()) =~= text);
        assert(!is_space(text[text.len() - 1]));
        assert(space_split(text) =~= seq![text]);
    } else {
        assert(text =~= Seq::<char>::empty());
    }
}

proof fn lemma_space_split_tail(head: Seq<char>, gap: char, tail: Seq<char>)
    requires
        is_space(gap),
        !has_space(tail),
    ensures
        space_split(head + seq![gap] + tail) == space_split(head).push(tail),
    decreases tail.len(),
{
    let all = head + seq![gap] + tail;
    if tail.len() == 0 {
        assert(all.drop_last() =~= head);
        assert(tail =~= Seq::<char>::empty());
    } else {
        let short = tail.drop_last();
        if has_space(short) {
            let i = choose|i: int| 0 <= i < short.len() && is_space(#[trigger] short[i]);
            assert(is_space(tail[i]));
        }
        lemma_space_split_tail(head, gap, short);
        assert(all.drop_last() =~= head + seq![gap] + short);
        let before = space_split(head).push(short);
        assert(before.drop_last() =~= space_split(head));
        assert(short.push(tail.last()) =~= tail);
        assert(!is_space(tail[tail.len() - 1]));
    }
}

/// A word: text that is not empty and holds no white space.
pub open spec fn is_word(text: Seq<char>) -> bool {
    text.len() > 0 && !has_space(text)
}

proof fn lemma_space_split_of_joined(parts: Seq<Seq<char>>, gap: char)
    requires
        parts.len() > 0,
        is_space(gap),
        forall|i: int| 0 <= i < parts.len() ==> is_word(#[trigger] parts[i]),
    ensures
        space_split(joined(parts, seq![gap])) == parts,
    decreases parts.len(),
{
    let last = parts.last();
    assert(is_word(parts[parts.len() - 1]));
    if parts.len() == 1 {
        lemma_space_split_plain(last);
        assert(space_split(joined(parts, seq![gap])) =~= parts);
    } else {
        let before = parts.drop_last();
        assert forall|i: int| 0 <= i < before.len() implies is_word(#[trigger] before[i]) by {
            assert(before[i] == parts[i]);
        }
        lemma_space_split_of_joined(before, gap);
        lemma_space_split_tail(joined(before, seq![gap]), gap, last);
        assert(before.push(last) =~= parts);
    }
}

proof fn lemma_non_empty_words(parts: Seq<Seq<char>>)
    requires
        forall|i: int| 0 <= i < parts.len() ==> is_word(#[trigger] parts[i]),
    ensures
        non_empty(parts) == parts,
    decreases parts.len(),
{
    if parts.len() > 0 {
        let before = parts.drop_last();
        assert forall|i: int| 0 <= i < before.len() implies is_word(#[trigger] before[i]) by {
            assert(before[i] == parts[i]);
        }
        lemma_non_empty_words(before);
        assert(is_word(parts[parts.len() - 1]));
        assert(before.push(parts.last()) =~= parts);
    }
}

/// Words joined with a blank between them have those words as their words.
pub proof fn law_words_of_joined(parts: Seq<Seq<char>>, gap: char)
    requires
        is_space(gap),
        forall|i: int| 0 <= i < parts.len() ==> is_word(#[trigger] parts[i]),
    ensures
        words(joined(parts, seq![gap])) == parts,
{
    if parts.len() == 0 {
        assert(words(Seq::<char>::empty()) =~= parts) by {
            reveal_with_fuel(non_empty, 2);
            assert(seq![Seq::<char>::empty()].drop_last() =~= Seq::<Seq<char>>::empty());
        }
    } else {
        lemma_space_split_of_joined(parts, gap);
        lemma_non_empty_words(parts);
    }
}

proof fn lemma_space_split_pieces(text: Seq<char>)
    ensures
        space_split(text).len() > 0,
        forall|i: int| 0 <= i < space_split(text).len() ==> !has_space(#[trigger] space_split(text)[i]),
    decreases text.len(),
{
    if text.len() > 0 {
        lemma_space_split_pieces(text.drop_last());
        let before = space_split(text.drop_last());
        let now = space_split(text);
        assert forall|i: int| 0 <= i < now.len() implies !has_space(#[trigger] now[i]) by {
            if i < now.len() - 1 {
                assert(now[i] == before[i]);
            } else if !is_space(text.last()) {
                let piece = before.last();
                assert(!has_space(before[before.len() - 1]));
                if has_space(now[i]) {
                    let k = choose|k: int| 0 <= k < now[i].len() && is_space(#[trigger] now[i][k]);
                    if k < piece.len() {
                        assert(is_space(piece[k]));
                    }
                }
            }
        }
    }
}

proof fn lemma_non_empty_keeps(parts: Seq<Seq<char>>)
    requires
        forall|i: int| 0 <= i < parts.len() ==> !has_space(#[trigger] parts[i]),
    ensures
        forall|i: int| 0 <= i < non_empty(parts).len() ==> is_word(#[trigger] non_empty(parts)[i]),
    decreases parts.len(),
{
    if parts.len() > 0 {
        let before = parts.drop_last();
        assert forall|i: int| 0 <= i < before.len() implies !has_space(#[trigger] before[i]) by {
            assert(before[i] == parts[i]);
        }
        lemma_non_empty_keeps(before);
        assert(!has_space(parts[parts.len() - 1]));
        let kept = non_empty(parts);
        assert forall|i: int| 0 <= i < kept.len() implies is_word(#[trigger] kept[i]) by {
            if i < non_empty(before).len() {
                assert(kept[i] == non_empty(before)[i]);
            }
        }
    }
}

/// The words of a text are words.
pub proof fn law_words_are_words(text: Seq<char>)
    ensures
        forall|i: int| 0 <= i < words(text).len() ==> is_word(#[trigger] words(text)[i]),
{
    lemma_space_split_pieces(text);
    lemma_non_empty_keeps(space_split(text));
}

/// A text holds each of its parts.
pub proof fn law_parts_are_held(before: Seq<char>, part: Seq<char>, after: Seq<char>)
    ensures
        holds(before + part + after, part),
{
    let whole = before + part + after;
    let at = before.len() as int;
    assert(whole.subrange(at, at + part.len()) =~= part);
    assert(stands_at(whole, part, at));
}

/// A text holds what each of its parts holds.
pub proof fn law_held_parts_stay_held(
    before: Seq<char>,
    part: Seq<char>,
    after: Seq<char>,
    needle: Seq<char>,
)
    requires
        holds(part, needle),
    ensures
        holds(before + part + after, needle),
{
    let whole = before + part + after;
    let at = choose|at: int| #[trigger] stands_at(part, needle, at);
    let there = before.len() + at;
    assert(whole.subrange(there, there + needle.len()) =~= part.subrange(
        at,
        at + needle.len(),
    ));
    assert(stands_at(whole, needle, there));
}

/// A text that neither begins nor ends with white space has nothing to trim.
pub proof fn law_tight_texts_are_not_trimmed(text: Seq<char>)
    requires
        text.len() > 0 ==> !is_space(text[0]) && !is_space(text.last()),
    ensures
        trim(text) == text,
{
    assert(trim_start(text) == text);
}

proof fn lemma_trim_start_skips(before: Seq<char>, text: Seq<char>)
    requires
        forall|i: int| 0 <= i < before.len() ==> is_space(#[trigger] before[i]),
        text.len() > 0 ==> !is_space(text[0]),
    ensures
        trim_start(before + text) == text,
    decreases before.len(),
{
    let whole = before + text;
    if before.len() > 0 {
        assert(whole[0] == before[0]);
        assert(whole.drop_first() =~= before.drop_first() + text);
        lemma_trim_start_skips(before.drop_first(), text);
    } else {
        assert(whole =~= text);
    }
}

proof fn lemma_trim_end_skips(text: Seq<char>, after: Seq<char>)
    requires
        forall|i: int| 0 <= i < after.len() ==> is_space(#[trigger] after[i]),
        text.len() > 0 ==> !is_space(text.last()),
    ensures
        trim_end(text + after) == text,
    decreases after.len(),
{
    let whole = text + after;
    if after.len() > 0 {
        assert(whole.last() == after.last());
        assert(whole.drop_last() =~= text + after.drop_last());
        lemma_trim_end_skips(text, after.drop_last());
    } else {
        assert(whole =~= text);
    }
}

/// What is trimmed is the white space around a text, and nothing else.
pub proof fn law_white_space_around_is_trimmed(
    before: Seq<char>,
    text: Seq<char>,
    after: Seq<char>,
)
    requires
        forall|i: int| 0 <= i < before.len() ==> is_space(#[trigger] before[i]),
        forall|i: int| 0 <= i < after.len() ==> is_space(#[trigger] after[i]),
        text.len() > 0,
        !is_space(text[0]),
        !is_space(text.last()),
    ensures
        trim(before + text + after) == text,
{
    assert(before + text + after =~= before + (text + after));
    lemma_trim_start_skips(before, text + after);
    lemma_trim_end_skips(text, after);
}

/// A numeral stands for its digits in their places.
pub proof fn law_digits_count_by_their_place(text: Seq<char>, digit: char)
    requires
        '0' <= digit <= '9',
    ensures
        numeral_value(text.push(digit)) == 10 * numeral_value(text) + (digit as u32 - 48),
        numeral_value(Seq::<char>::empty()) == 0,
{
    assert(text.push(digit).drop_last() =~= text);
}

/// A text splits at the first of its marks, whatever follows.
pub proof fn law_first_mark_splits(before: Seq<char>, mark: char, after: Seq<char>)
    requires
        !before.contains(mark),
    ensures
        split_at_first(before + seq![mark] + after, seq![mark]) == Some((before, after)),
{
    reveal(split_at_first);
    let whole = before + seq![mark] + after;
    let at = before.len() as int;
    assert(whole.subrange(at, at + 1) =~= seq![mark]);
    assert(stands_at(whole, seq![mark], at));
    assert forall|j: int| j < at implies !#[trigger] stands_at(whole, seq![mark], j) by {
        if stands_at(whole, seq![mark], j) {
            assert(whole.subrange(j, j + 1)[0] == mark);
            assert(before[j] == mark);
        }
    }
    let found = first_at(whole, seq![mark]);
    assert(stands_at(whole, seq![mark], found) && forall|j: int|
        j < found ==> !#[trigger] stands_at(whole, seq![mark], j));
    assert(found == at) by {
        if found < at {
            assert(!stands_at(whole, seq![mark], found));
        }
        if at < found {
            assert(!stands_at(whole, seq![mark], at));
        }
    }
    assert(whole.take(at) =~= before);
    assert(whole.skip(at + 1) =~= after);
}

/// The characters that count as white space, by their codes.
pub proof fn law_white_space_by_code(ch: char)
    ensures
        is_space(ch) <==> seq![
            0x09u32,
            0x0a,
            0x0b,
            0x0c,
            0x0d,
            0x20,
            0x85,
            0xa0,
            0x1680,
            0x2000,
            0x2001,
            0x2002,
            0x2003,
            0x2004,
            0x2005,
            0x2006,
            0x2007,
            0x2008,
            0x2009,
            0x200a,
            0x2028,
            0x2029,
            0x202f,
            0x205f,
            0x3000,
        ].contains(ch as u32),
{
    let codes = seq![
        0x09u32,
        0x0a,
        0x0b,
        0x0c,
        0x0d,
        0x20,
        0x85,
        0xa0,
        0x1680,
        0x2000,
        0x2001,
        0x2002,
        0x2003,
        0x2004,
        0x2005,
        0x2006,
        0x2007,
        0x2008,
        0x2009,
        0x200a,
        0x2028,
        0x2029,
        0x202f,
        0x205f,
        0x3000,
    ];
    assert(codes[0] == 0x09);
    assert(codes[1] == 0x0a);
    assert(codes[2] == 0x0b);
    assert(codes[3] == 0x0c);
    assert(codes[4] == 0x0d);
    assert(codes[5] == 0x20);
    assert(codes[6] == 0x85);
    assert(codes[7] == 0xa0);
    assert(codes[8] == 0x1680);
    assert(codes[9] == 0x2000);
    assert(codes[10] == 0x2001);
    assert(codes[11] == 0x2002);
    assert(codes[12] == 0x2003);
    assert(codes[13] == 0x2004);
    assert(codes[14] == 0x2005);
    assert(codes[15] == 0x2006);
    assert(codes[16] == 0x2007);
    assert(codes[17] == 0x2008);
    assert(codes[18] == 0x2009);
    assert(codes[19] == 0x200a);
    assert(codes[20] == 0x2028);
    assert(codes[21] == 0x2029);
    assert(codes[22] == 0x202f);
    assert(codes[23] == 0x205f);
    assert(codes[24] == 0x3000);
}

/// Case changes letters of the Latin alphabet and nothing else, and it changes them back and
/// forth.
pub proof fn law_case_changes_letters_only(ch: char)
    ensures
        'a' <= ch <= 'z' ==> lower(ch) == ch && 'A' <= upper(ch) <= 'Z' && upper(ch) as u32 + 32
            == ch as u32,
        'A' <= ch <= 'Z' ==> upper(ch) == ch && 'a' <= lower(ch) <= 'z' && lower(ch) as u32 == ch
            as u32 + 32,
        !('a' <= ch <= 'z') && !('A' <= ch <= 'Z') ==> lower(ch) == ch && upper(ch) == ch,
{
}

/// A numeral has no digits in front that count for nothing, and each of its digits counts ten
/// times as much as the one behind it.
pub proof fn law_numerals_grow_by_a_digit(n: nat, d: nat)
    requires
        d < 10,
    ensures
        decimal(d) == seq![((48 + d) as u8) as char],
        n > 0 ==> decimal(10 * n + d) == decimal(n) + decimal(d),
{
    if n > 0 {
        assert((10 * n + d) / 10 == n && (10 * n + d) % 10 == d);
        assert(decimal(n) + decimal(d) =~= decimal(n).push(digit(d)));
    }
}

/// Texts that are joined stand in their order, with the mark between each two of them.
pub proof fn law_joined_texts_stand_in_order(
    parts: Seq<Seq<char>>,
    part: Seq<char>,
    mark: Seq<char>,
)
    ensures
        joined(Seq::<Seq<char>>::empty(), mark) == Seq::<char>::empty(),
        joined(seq![part], mark) == part,
        parts.len() > 0 ==> joined(parts.push(part), mark) == joined(parts, mark) + mark + part,
{
    assert(parts.push(part).drop_last() =~= parts);
}

/// A mark ends a piece and begins the next; every other character belongs to its piece.
pub proof fn law_marks_part_texts(text: Seq<char>, marks: Seq<char>, ch: char)
    ensures
        split(Seq::<char>::empty(), marks) == seq![Seq::<char>::empty()],
        marks.contains(ch) ==> split(text.push(ch), marks) == split(text, marks).push(
            Seq::<char>::empty(),
        ),
        !marks.contains(ch) ==> split(text.push(ch), marks).len() == split(text, marks).len()
            && split(text.push(ch), marks).last() == split(text, marks).last().push(ch)
            && split(text.push(ch), marks).drop_last() == split(text, marks).drop_last(),
{
    lemma_split_not_empty(text, marks);
    assert(text.push(ch).drop_last() =~= text);
    if !marks.contains(ch) {
        assert(split(text.push(ch), marks).drop_last() =~= split(text, marks).drop_last());
    }
}

/// A text without the mark does not split.
pub proof fn law_texts_without_marks_do_not_split(text: Seq<char>, mark: Seq<char>)
    requires
        !holds(text, mark),
    ensures
        split_at_first(text, mark) is None,
{
    reveal(split_at_first);
}

/// A text holds itself.
pub proof fn law_texts_hold_themselves(text: Seq<char>)
    ensures
        holds(text, text),
{
    assert(text.subrange(0, text.len() as int) =~= text);
    assert(stands_at(text, text, 0));
}

/// Texts that are joined hold what each of them holds.
pub proof fn law_joined_texts_hold_their_parts(
    parts: Seq<Seq<char>>,
    mark: Seq<char>,
    i: int,
    needle: Seq<char>,
)
    requires
        0 <= i < parts.len(),
        holds(parts[i], needle),
    ensures
        holds(joined(parts, mark), needle),
    decreases parts.len(),
{
    if parts.len() > 1 {
        let none = Seq::<char>::empty();
        let before = joined(parts.drop_last(), mark);
        let whole = joined(parts, mark);
        if i < parts.len() - 1 {
            law_joined_texts_hold_their_parts(parts.drop_last(), mark, i, needle);
            law_held_parts_stay_held(none, before, mark + parts.last(), needle);
            assert(whole =~= none + before + (mark + parts.last()));
        } else {
            law_held_parts_stay_held(before + mark, parts.last(), none, needle);
            assert(whole =~= before + mark + parts.last() + none);
        }
    }
}

proof fn lemma_joined_apart(a: Seq<Seq<char>>, b: Seq<Seq<char>>)
    ensures
        joined(a + b, ""@) == joined(a, ""@) + joined(b, ""@),
    decreases b.len(),
{
    reveal_strlit("");
    let both = a + b;
    if b.len() == 0 {
        assert(both =~= a);
        assert(joined(a, ""@) + joined(b, ""@) =~= joined(a, ""@));
    } else {
        lemma_joined_apart(a, b.drop_last());
        assert(both.drop_last() =~= a + b.drop_last());
        assert(both.last() == b.last());
        if b.len() == 1 {
            assert(b.drop_last().len() == 0);
            if a.len() > 0 {
                assert(joined(both, ""@) =~= joined(a, ""@) + joined(b, ""@));
            } else {
                assert(both =~= b);
                assert(joined(a, ""@) + joined(b, ""@) =~= joined(b, ""@));
            }
        } else {
            assert(joined(both, ""@) =~= joined(a, ""@) + joined(b, ""@));
        }
    }
}

proof fn lemma_run(parts: Seq<Seq<char>>, i: int, j: int)
    requires
        0 <= i <= j <= parts.len(),
    ensures
        holds(joined(parts, ""@), joined(parts.subrange(i, j), ""@)),
{
    let before = parts.take(i);
    let run = parts.subrange(i, j);
    let after = parts.skip(j);
    assert(parts =~= before + run + after);
    lemma_joined_apart(before, run);
    lemma_joined_apart(before + run, after);
    law_parts_are_held(joined(before, ""@), joined(run, ""@), joined(after, ""@));
}

/// Texts that are joined without a mark hold each run of two of them.
pub proof fn law_runs_of_two_are_held(parts: Seq<Seq<char>>, i: int)
    requires
        0 <= i,
        i + 2 <= parts.len(),
    ensures
        holds(joined(parts, ""@), parts[i] + parts[i + 1]),
{
    reveal_with_fuel(joined, 3);
    let run = parts.subrange(i, i + 2);
    lemma_run(parts, i, i + 2);
    assert(joined(run, ""@) =~= parts[i] + parts[i + 1]) by {
        reveal_strlit("");
        assert(run.last() == parts[i + 1]);
        assert(run.drop_last()[0] == parts[i]);
    }
}

/// Texts that are joined without a mark hold each run of three of them.
pub proof fn law_runs_of_three_are_held(parts: Seq<Seq<char>>, i: int)
    requires
        0 <= i,
        i + 3 <= parts.len(),
    ensures
        holds(joined(parts, ""@), parts[i] + parts[i + 1] + parts[i + 2]),
{
    reveal_with_fuel(joined, 4);
    let run = parts.subrange(i, i + 3);
    lemma_run(parts, i, i + 3);
    assert(joined(run, ""@) =~= parts[i] + parts[i + 1] + parts[i + 2]) by {
        reveal_strlit("");
        assert(run.last() == parts[i + 2]);
        assert(run.drop_last().last() == parts[i + 1]);
        assert(run.drop_last().drop_last()[0] == parts[i]);
    }
}

/// Texts that are joined without a mark hold each run of seven of them.
pub proof fn law_runs_of_seven_are_held(parts: Seq<Seq<char>>, i: int)
    requires
        0 <= i,
        i + 7 <= parts.len(),
    ensures
        holds(
            joined(parts, ""@),
            parts[i]
                + parts[i + 1]
                + parts[i + 2]
                + parts[i + 3]
                + parts[i + 4]
                + parts[i + 5]
                + parts[i + 6],
        ),
{
    reveal_with_fuel(joined, 8);
    let run = parts.subrange(i, i + 7);
    lemma_run(parts, i, i + 7);
    assert(joined(run, ""@) =~= parts[i] + parts[i + 1] + parts[i + 2] + parts[i + 3] + parts[i + 4] + parts[i + 5] + parts[i + 6]) by {
        reveal_strlit("");
        assert(run.last() == parts[i + 6]);
        assert(run.drop_last().last() == parts[i + 5]);
        assert(run.drop_last().drop_last().last() == parts[i + 4]);
        assert(run.drop_last().drop_last().drop_last().last() == parts[i + 3]);
        assert(run.drop_last().drop_last().drop_last().drop_last().last() == parts[i + 2]);
        assert(
            run.drop_last().drop_last().drop_last().drop_last().drop_last().last() == parts[i + 1]
        );
        assert(
            run.drop_last().drop_last().drop_last().drop_last().drop_last().drop_last()[0]
                == parts[i]
        );
    }
}

/// Texts that are joined without a mark hold each run of nine of them.
pub proof fn law_runs_of_nine_are_held(parts: Seq<Seq<char>>, i: int)
    requires
        0 <= i,
        i + 9 <= parts.len(),
    ensures
        holds(
            joined(parts, ""@),
            parts[i]
                + parts[i + 1]
                + parts[i + 2]
                + parts[i + 3]
                + parts[i + 4]
                + parts[i + 5]
                + parts[i + 6]
                + parts[i + 7]
                + parts[i + 8],
        ),
{
    reveal_with_fuel(joined, 10);
    let run = parts.subrange(i, i + 9);
    lemma_run(parts, i, i + 9);
    assert(joined(run, ""@) =~= parts[i] + parts[i + 1] + parts[i + 2] + parts[i + 3] + parts[i + 4] + parts[i + 5] + parts[i + 6] + parts[i + 7] + parts[i + 8]) by {
        reveal_strlit("");
        assert(run.last() == parts[i + 8]);
        assert(run.drop_last().last() == parts[i + 7]);
        assert(run.drop_last().drop_last().last() == parts[i + 6]);
        assert(run.drop_last().drop_last().drop_last().last() == parts[i + 5]);
        assert(run.drop_last().drop_last().drop_last().drop_last().last() == parts[i + 4]);
        assert(
            run.drop_last().drop_last().drop_last().drop_last().drop_last().last() == parts[i + 3]
        );
        assert(
            run.drop_last().drop_last().drop_last().drop_last().drop_last().drop_last().last()
                == parts[i + 2]
        );
        assert(
            run.drop_last().drop_last().drop_last().drop_last().drop_last().drop_last().drop_last().last()
                == parts[i + 1]
        );
        assert(
            run.drop_last().drop_last().drop_last().drop_last().drop_last().drop_last().drop_last().drop_last()[
                0
            ]
                == parts[i]
        );
    }
}

/// Texts stand in order by their first characters that differ, and a text stands behind each of
/// its beginnings.
pub proof fn law_texts_stand_in_order(
    before: Seq<char>,
    a: char,
    b: char,
    x: Seq<char>,
    y: Seq<char>,
)
    ensures
        (a as u32) < (b as u32) ==> precedes(before + seq![a] + x, before + seq![b] + y)
            && !precedes(before + seq![b] + y, before + seq![a] + x),
        precedes(before, before + seq![a] + x),
        !precedes(before, before),
    decreases before.len(),
{
    let left = before + seq![a] + x;
    let right = before + seq![b] + y;
    if before.len() > 0 {
        let rest = before.drop_first();
        law_texts_stand_in_order(rest, a, b, x, y);
        assert(left.drop_first() =~= rest + seq![a] + x);
        assert(right.drop_first() =~= rest + seq![b] + y);
    } else {
        assert(left[0] == a && right[0] == b);
    }
}

/// A number is written with sixteen digits, ten of them letters, the last digit for the units.
pub proof fn law_hex_digits_count_by_their_place(n: nat, d: nat, width: nat)
    requires
        d < 16,
    ensures
        hex(16 * n + d, width + 1) == hex(n, width).push(hex_digit(d)),
        hex(n, width).len() == width,
        d < 10 ==> hex_digit(d) == ((48 + d) as u8) as char,
        d >= 10 ==> hex_digit(d) == ((97 + (d - 10)) as u8) as char,
    decreases width,
{
    assert((16 * n + d) / 16 == n && (16 * n + d) % 16 == d) by (nonlinear_arith)
        requires
            d < 16,
    ;
    if width > 0 {
        law_hex_digits_count_by_their_place(n / 16, n % 16, (width - 1) as nat);
    }
}

/// Lines end at line feeds, with or without a carriage return before them.
pub proof fn law_lines_end_at_line_feeds(line: Seq<char>, other: Seq<char>)
    requires
        !line.contains('\n'),
        !other.contains('\n'),
        other.len() > 0,
        line.len() > 0 ==> line.last() != '\r',
    ensures
        lines(Seq::<char>::empty()).len() == 0,
        lines(other) == seq![other],
        lines(line + seq!['\n'] + other) == seq![line, other],
        lines(line + seq!['\r', '\n'] + other) == seq![line, other],
{
    let marks = seq!['\n'];
    assert(marks[0] == '\n');
    let none = Seq::<char>::empty();
    assert(split(none, marks) == seq![none]);
    assert(lines(none).len() == 0);
    lemma_no_line_feed(other);
    assert(lines(other) =~= seq![other]);
    lemma_line_feed(line, other);
    assert(split(line + seq!['\n'] + other, marks).last() == other);
    assert(lines(line + seq!['\n'] + other) =~= seq![line, other]);
    let returned = line.push('\r');
    assert forall|i: int| 0 <= i < returned.len() implies returned[i] != '\n' by {
        if i < line.len() {
            assert(line.contains(line[i]));
        }
    }
    lemma_line_feed(returned, other);
    assert(line + seq!['\r', '\n'] + other =~= returned + seq!['\n'] + other);
    assert(returned.drop_last() =~= line);
    assert(split(returned + seq!['\n'] + other, marks).last() == other);
    assert(lines(line + seq!['\r', '\n'] + other) =~= seq![line, other]);
}

proof fn lemma_no_line_feed(line: Seq<char>)
    requires
        !line.contains('\n'),
    ensures
        split(line, seq!['\n']) == seq![line],
    decreases line.len(),
{
    if line.len() > 0 {
        let short = line.drop_last();
        assert forall|ch: char| short.contains(ch) implies line.contains(ch) by {
            let k = choose|k: int| 0 <= k < short.len() && short[k] == ch;
            assert(line[k] == ch);
        }
        lemma_no_line_feed(short);
        assert(line.contains(line.last()));
        assert(!seq!['\n'].contains(line.last()));
        assert(short.push(line.last()) =~= line);
        assert(seq![short].drop_last().push(short.push(line.last())) =~= seq![line]);
    } else {
        assert(line =~= Seq::<char>::empty());
    }
}

proof fn lemma_line_feed(line: Seq<char>, other: Seq<char>)
    requires
        !line.contains('\n'),
        !other.contains('\n'),
    ensures
        split(line + seq!['\n'] + other, seq!['\n']) == seq![line, other],
    decreases other.len(),
{
    let whole = line + seq!['\n'] + other;
    assert(seq!['\n'][0] == '\n');
    if other.len() > 0 {
        let short = other.drop_last();
        assert forall|ch: char| short.contains(ch) implies other.contains(ch) by {
            let k = choose|k: int| 0 <= k < short.len() && short[k] == ch;
            assert(other[k] == ch);
        }
        lemma_line_feed(line, short);
        assert(whole.drop_last() =~= line + seq!['\n'] + short);
        assert(whole.last() == other.last());
        assert(other.contains(other.last()));
        assert(!seq!['\n'].contains(other.last()));
        assert(short.push(other.last()) =~= other);
        assert(seq![line, short].drop_last().push(short.push(other.last())) =~= seq![line, other]);
    } else {
        assert(whole.drop_last() =~= line);
        assert(whole.last() == '\n');
        assert(seq!['\n'].contains('\n'));
        lemma_no_line_feed(line);
        assert(other =~= Seq::<char>::empty());
        assert(seq![line].push(Seq::<char>::empty()) =~= seq![line, other]);
    }
}

/// What is kept of a text that is too long is its longest beginning that fits.
pub proof fn law_the_longest_beginning_fits(text: Seq<char>, limit: nat)
    ensures
        byte_len(text) <= limit ==> fitting(text, limit) == text,
        byte_len(fitting(text, limit)) <= limit,
        fitting(text, limit).len() <= text.len(),
        fitting(text, limit) == text.take(fitting(text, limit).len() as int),
        fitting(text, limit).len() < text.len() ==> byte_len(
            text.take((fitting(text, limit).len() + 1) as int),
        ) > limit,
    decreases text.len(),
{
    if byte_len(text) > limit {
        let short = text.drop_last();
        law_the_longest_beginning_fits(short, limit);
        let n = fitting(short, limit).len() as int;
        assert(short.take(n) =~= text.take(n));
        if n < short.len() {
            assert(short.take(n + 1) =~= text.take(n + 1));
        } else {
            assert(text.take(n + 1) =~= text);
        }
    } else {
        assert(text.take(text.len() as int) =~= text);
    }
}

/// The bytes of a text are those of its characters: one for those of ASCII, and two, three or
/// four for the others.
pub proof fn law_bytes_of_characters(text: Seq<char>, ch: char)
    ensures
        byte_len(Seq::<char>::empty()) == 0,
        byte_len(text.push(ch)) == byte_len(text) + (if (ch as u32) < 0x80 {
            1int
        } else if (ch as u32) < 0x800 {
            2
        } else if (ch as u32) < 0x1_0000 {
            3
        } else {
            4
        }),
{
    assert(text.push(ch).drop_last() =~= text);
}

/// A word by itself is one line and one word.
pub proof fn law_one_word_is_one_line(word: Seq<char>)
    requires
        word.len() > 0,
        forall|i: int| 0 <= i < word.len() ==> !is_space(#[trigger] word[i]),
    ensures
        lines(word) == seq![word],
        words(word) == seq![word],
{
    assert forall|i: int| 0 <= i < word.len() implies word[i] != '\n' by {
        assert(!is_space(word[i]));
    }
    assert(!word.contains('\n'));
    lemma_no_line_feed(word);
    assert(lines(word) =~= seq![word]);
    lemma_unspaced(word);
    assert(seq![word].drop_last() =~= Seq::<Seq<char>>::empty());
    assert(non_empty(Seq::<Seq<char>>::empty()).len() == 0);
    assert(words(word) =~= seq![word]);
}

proof fn lemma_unspaced(word: Seq<char>)
    requires
        forall|i: int| 0 <= i < word.len() ==> !is_space(#[trigger] word[i]),
    ensures
        space_split(word) == seq![word],
    decreases word.len(),
{
    if word.len() > 0 {
        let short = word.drop_last();
        assert forall|i: int| 0 <= i < short.len() implies !is_space(#[trigger] short[i]) by {
            assert(short[i] == word[i]);
        }
        lemma_unspaced(short);
        assert(!is_space(word[word.len() - 1]));
        assert(short.push(word.last()) =~= word);
        assert(seq![short].drop_last().push(short.push(word.last())) =~= seq![word]);
    } else {
        assert(word =~= Seq::<char>::empty());
    }
}

/// A text is read as a number exactly where it has digits only, behind a plus sign or without
/// one, and the number is not too large.
pub proof fn law_numbers_are_read_from_digits(digits: Seq<char>)
    requires
        digits.len() > 0,
    ensures
        digits[0] != '+' ==> (parsed_u64(digits) is Some <==> (forall|i: int|
            0 <= i < digits.len() ==> '0' <= #[trigger] digits[i] <= '9') && numeral_value(digits)
            <= u64::MAX),
        digits[0] != '+' ==> parsed_u64(seq!['+'] + digits) == parsed_u64(digits),
        digits[0] != '+' ==> (parsed_u64(digits) matches Some(n) ==> n == numeral_value(digits)),
        parsed_u64(Seq::<char>::empty()) is None,
        parsed_u64(seq!['+']) is None,
{
    assert((seq!['+'] + digits).drop_first() =~= digits);
    assert(seq!['+'].drop_first().len() == 0);
    if all_digits(digits) {
        assert forall|i: int| 0 <= i < digits.len() implies '0' <= #[trigger] digits[i] <= '9' by {
            assert(is_digit(digits[i]));
        }
    }
}

} // verus!
