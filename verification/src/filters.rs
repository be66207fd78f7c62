//! Filters of a report: an object, the text of an object, or a short expression.

use vstd::prelude::*;
use vstd::string::*;

use crate::error;
use crate::json;
use crate::json::{Json, Object, Tree};
use crate::json_text;
use crate::text;

verus! {

/// What a reading of a filter says.
pub open spec fn filter_result(r: Result<Json, String>) -> Result<Tree, Seq<char>> {
    match r {
        Ok(value) => Ok(value@),
        Err(message) => Err(message@),
    }
}

/// Whether a text stands between two double quotes or two single quotes.
pub open spec fn is_quoted(raw: Seq<char>) -> bool {
    raw.len() >= 2 && raw[0] == raw.last() && (raw[0] == '"' || raw[0] == '\'')
}

/// A text without the quotes that it stands in.
pub open spec fn unquoted(raw: Seq<char>) -> Seq<char> {
    if is_quoted(raw) {
        raw.subrange(1, raw.len() - 1)
    } else {
        raw
    }
}

/// The filter that a field must equal a value.
pub open spec fn exact_filter(field_name: Seq<char>, value: Seq<char>) -> Tree {
    let string_filter = Tree::Dict(
        json::fields()
            .push(("match_type"@, Tree::Text("EXACT"@)))
            .push(("value"@, Tree::Text(value))),
    );
    let filter = Tree::Dict(
        json::fields()
            .push(("field_name"@, Tree::Text(field_name)))
            .push(("string_filter"@, string_filter)),
    );
    Tree::Dict(json::fields().push(("filter"@, filter)))
}

/// The two sides of an expression and the operator between them.
pub open spec fn sides(raw: Seq<char>) -> Option<(Seq<char>, Seq<char>, Seq<char>)> {
    match text::split_at_first(raw, "=="@) {
        Some((name, value)) => Some((name, value, "=="@)),
        None => match text::split_at_first(raw, "="@) {
            Some((name, value)) => Some((name, value, "="@)),
            None => None,
        },
    }
}

/// The filter that an expression like `field==value` stands for.
pub open spec fn expression_filter(raw: Seq<char>, field: Seq<char>) -> Result<Tree, Seq<char>> {
    match sides(raw) {
        None => Err(field + " expression must use `field==value` (or `field=value`)"@),
        Some((name, value, operator)) => {
            let value = text::trim(value);
            if text::trim(name).len() == 0 {
                Err(field + " expression has an empty field name before `"@ + operator + "`"@)
            } else if text::has_space(value) && !is_quoted(value) {
                Err(
                    field
                        + " values containing spaces should be quoted (for example `sessionDefaultChannelGroup==\"Paid Other\"`) or expressed as a JSON FilterExpression object"@,
                )
            } else if unquoted(value).len() == 0 {
                Err(field + " expression has an empty value after `"@ + operator + "`"@)
            } else {
                Ok(exact_filter(text::trim(name), unquoted(value)))
            }
        },
    }
}

/// The filter that a reading of JSON text gives.
pub open spec fn decoded_filter(
    parsed: Result<Tree, Seq<char>>,
    field: Seq<char>,
) -> Result<Tree, Seq<char>> {
    match parsed {
        Ok(tree) => if tree is Dict {
            Ok(tree)
        } else {
            Err(field + " JSON form must decode to an object"@)
        },
        Err(message) => Err(field + " JSON parse failed: "@ + text::trim(message)),
    }
}

/// The filter that a text stands for.
pub open spec fn text_filter(
    raw: Seq<char>,
    field: Seq<char>,
    shorthand: bool,
) -> Result<Tree, Seq<char>> {
    let trimmed = text::trim(raw);
    if trimmed.len() == 0 {
        Err(field + " must not be an empty string"@)
    } else if text::begins(trimmed, "{"@) {
        decoded_filter(json_text::json_of(trimmed), field)
    } else if shorthand {
        expression_filter(trimmed, field)
    } else {
        Err(field + " string form must be a JSON object like `{\"filter\": ...}`"@)
    }
}

/// The filter that a value of a request stands for.
pub open spec fn value_filter(
    value: Option<Tree>,
    field: Seq<char>,
    shorthand: bool,
) -> Result<Option<Tree>, Seq<char>> {
    match value {
        None => Ok(None),
        Some(Tree::Null) => Ok(None),
        Some(Tree::Dict(entries)) => Ok(Some(Tree::Dict(entries))),
        Some(Tree::Text(raw)) => match text_filter(raw, field, shorthand) {
            Ok(tree) => Ok(Some(tree)),
            Err(message) => Err(message),
        },
        Some(_) => Err(
            field + " must be an object, JSON-object string"@ + if shorthand {
                ", or `field==value`"@
            } else {
                ""@
            },
        ),
    }
}

/// What a reading of an optional filter says.
pub open spec fn optional_filter_result(r: Result<Option<Json>, String>) -> Result<
    Option<Tree>,
    Seq<char>,
> {
    match r {
        Ok(value) => Ok(json::opt_view(value)),
        Err(message) => Err(message@),
    }
}

/// Whether a text stands between two double quotes or two single quotes.
pub fn is_wrapped_in_matching_quotes(raw: &str) -> (r: bool)
    ensures
        r == is_quoted(raw@),
{
    let chars: Vec<char> = text::chars_of(raw);
    let n: usize = chars.len();
    n >= 2 && chars[0] == chars[n - 1] && (chars[0] == '"' || chars[0] == '\'')
}

/// A text without the quotes that it stands in.
pub fn strip_optional_quotes(raw: &str) -> (r: String)
    ensures
        r@ == unquoted(raw@),
{
    if is_wrapped_in_matching_quotes(raw) {
        let chars: Vec<char> = text::chars_of(raw);
        return text::text_between(chars.as_slice(), 1, chars.len() - 1);
    }
    raw.to_owned()
}

/// The filter that a field must equal a value.
fn exact_filter_value(field_name: &str, value: &str) -> (r: Json)
    ensures
        r@ == exact_filter(field_name@, value@),
{
    let mut string_filter = Object::new();
    string_filter.put("match_type", json::string("EXACT"));
    string_filter.put("value", json::string(value));
    let mut filter = Object::new();
    filter.put("field_name", json::string(field_name));
    filter.put("string_filter", json::dict(string_filter));
    let mut whole = Object::new();
    whole.put("filter", json::dict(filter));
    json::dict(whole)
}

/// The filter that an expression like `field==value` stands for.
pub fn parse_simple_dimension_filter_expression(raw: &str, field: &str) -> (r: Result<
    Json,
    String,
>)
    ensures
        filter_result(r) == expression_filter(raw@, field@),
{
    let (raw_name, raw_value, operator): (String, String, &str) = match text::split_once(
        raw,
        "==",
    ) {
        Some((name, value)) => (name, value, "=="),
        None => match text::split_once(raw, "=") {
            Some((name, value)) => (name, value, "="),
            None => {
                return Err(
                    error::labelled(
                        field,
                        " expression must use `field==value` (or `field=value`)",
                    ),
                );
            },
        },
    };
    let field_name: String = text::trimmed(raw_name.as_str());
    if field_name.as_str().is_empty() {
        return Err(
            error::described(
                field,
                " expression has an empty field name before `",
                operator,
                "`",
            ),
        );
    }
    let raw_value: String = text::trimmed(raw_value.as_str());
    if text::any_space(raw_value.as_str()) && !is_wrapped_in_matching_quotes(raw_value.as_str()) {
        return Err(
            error::labelled(
                field,
                " values containing spaces should be quoted (for example `sessionDefaultChannelGroup==\"Paid Other\"`) or expressed as a JSON FilterExpression object",
            ),
        );
    }
    let value: String = strip_optional_quotes(raw_value.as_str());
    if value.as_str().is_empty() {
        return Err(
            error::described(field, " expression has an empty value after `", operator, "`"),
        );
    }
    Ok(exact_filter_value(field_name.as_str(), value.as_str()))
}

/// The filter that a reading of JSON text gives.
pub fn check_filter_json(parsed: Result<Json, String>, field: &str) -> (r: Result<Json, String>)
    ensures
        filter_result(r) == decoded_filter(filter_result(parsed), field@),
{
    match parsed {
        Ok(value) => {
            if !value.is_object() {
                return Err(error::labelled(field, " JSON form must decode to an object"));
            }
            Ok(value)
        },
        Err(message) => {
            let mut r: String = field.to_owned();
            r.append(" JSON parse failed: ");
            r.append(text::trimmed(message.as_str()).as_str());
            Err(r)
        },
    }
}

/// The filter that the text of an object gives.
pub fn parse_filter_json_string(raw: &str, field: &str) -> (r: Result<Json, String>)
    ensures
        filter_result(r) == decoded_filter(json_text::json_of(raw@), field@),
{
    check_filter_json(json_text::parse_json(raw), field)
}

/// The filter that a text stands for.
pub fn parse_filter_string_value(
    raw: &str,
    field: &str,
    allow_expression_shorthand: bool,
) -> (r: Result<Json, String>)
    ensures
        filter_result(r) == text_filter(raw@, field@, allow_expression_shorthand),
{
    let trimmed: String = text::trimmed(raw);
    if trimmed.as_str().is_empty() {
        return Err(error::labelled(field, " must not be an empty string"));
    }
    if text::starts_with(trimmed.as_str(), "{") {
        return parse_filter_json_string(trimmed.as_str(), field);
    }
    if allow_expression_shorthand {
        return parse_simple_dimension_filter_expression(trimmed.as_str(), field);
    }
    Err(error::labelled(field, " string form must be a JSON object like `{\"filter\": ...}`"))
}

/// The filter that a value of a request stands for.
pub fn normalize_optional_filter(
    value: Option<Json>,
    field: &str,
    allow_expression_shorthand: bool,
) -> (r: Result<Option<Json>, String>)
    ensures
        optional_filter_result(r) == value_filter(
            json::opt_view(value),
            field@,
            allow_expression_shorthand,
        ),
{
    let value: Json = match value {
        Some(held) => held,
        None => {
            return Ok(None);
        },
    };
    match value {
        Json::Null => Ok(None),
        Json::Object(object) => Ok(Some(Json::Object(object))),
        Json::Text(raw) => match parse_filter_string_value(
            raw.as_str(),
            field,
            allow_expression_shorthand,
        ) {
            Ok(filter) => Ok(Some(filter)),
            Err(message) => Err(message),
        },
        _ => {
            let mut r: String = error::labelled(field, " must be an object, JSON-object string");
            r.append(
                if allow_expression_shorthand {
                    ", or `field==value`"
                } else {
                    ""
                },
            );
            Err(r)
        },
    }
}

// ---------------------------------------------------------------------------
// Laws.
// ---------------------------------------------------------------------------

/// A filter that is accepted is an object, whatever form the request gave it in.
pub proof fn law_accepted_filters_are_objects(
    value: Option<Tree>,
    field: Seq<char>,
    shorthand: bool,
)
    ensures
        value_filter(value, field, shorthand) matches Ok(Some(tree)) ==> tree is Dict,
{
}

/// Quotes around a value make no difference, but for what spaces in the value need.
pub proof fn law_quotes_are_optional(name: Seq<char>, value: Seq<char>, field: Seq<char>)
    requires
        value.len() > 0,
        text::trim(value) == value,
        !text::has_space(value),
        !is_quoted(value),
        text::trim(name).len() > 0,
        !name.contains('='),
    ensures
        expression_filter(name + "=="@ + value, field) == Ok::<Tree, Seq<char>>(
            exact_filter(text::trim(name), value),
        ),
        expression_filter(name + "==\""@ + value + "\""@, field) == Ok::<Tree, Seq<char>>(
            exact_filter(text::trim(name), value),
        ),
{
    reveal_strlit("==");
    reveal_strlit("==\"");
    reveal_strlit("\"");
    lemma_split_after_name(name, value);
    let quoted = "\""@ + value + "\""@;
    assert(name + "==\""@ + value + "\""@ =~= name + "=="@ + quoted);
    lemma_split_after_name(name, quoted);
    assert(quoted[0] == '"' && quoted.last() == '"');
    assert(text::trim_start(quoted) == quoted);
    assert(text::trim(quoted) == quoted);
    assert(quoted.subrange(1, quoted.len() - 1) =~= value);
}

/// The first `==` after a name without `=` stands right behind the name.
proof fn lemma_split_after_name(name: Seq<char>, value: Seq<char>)
    requires
        !name.contains('='),
    ensures
        text::split_at_first(name + "=="@ + value, "=="@) == Some((name, value)),
{
    reveal(text::split_at_first);
    reveal_strlit("==");
    let whole = name + "=="@ + value;
    let at = name.len() as int;
    assert(whole.subrange(at, at + 2) =~= "=="@);
    assert(text::stands_at(whole, "=="@, at));
    assert forall|i: int| 0 <= i < at implies !text::stands_at(whole, "=="@, i) by {
        if text::stands_at(whole, "=="@, i) {
            assert(whole.subrange(i, i + 2)[0] == '=');
            assert(name[i] == '=');
            assert(name.contains('='));
        }
    }
    assert(text::holds(whole, "=="@));
    assert(whole.take(at) =~= name);
    assert(whole.skip(at + 2) =~= value);
}

/// A filter for one value tells the field and the value, and asks for the value exactly.
pub proof fn law_expressions_ask_for_their_value(
    name: Seq<char>,
    value: Seq<char>,
    field: Seq<char>,
    mark: Seq<char>,
)
    requires
        value.len() > 0,
        !text::has_space(value),
        !is_quoted(value),
        name.len() > 0,
        !text::has_space(name),
        !name.contains('='),
        !value.contains('='),
        mark == "=="@ || mark == "="@,
    ensures
        expression_filter(name + mark + value, field) matches Ok(told) && (told.field(
            "filter"@,
        ) matches Some(filter) && filter.field("field_name"@) == Some(Tree::Text(name)) && (
        filter.field("string_filter"@) matches Some(asked) && asked.field("match_type"@) == Some(
            Tree::Text("EXACT"@),
        ) && asked.field("value"@) == Some(Tree::Text(value)))),
{
    assert(!text::is_space(name[0]) && !text::is_space(name[name.len() - 1]));
    assert(!text::is_space(value[0]) && !text::is_space(value[value.len() - 1]));
    text::law_tight_texts_are_not_trimmed(name);
    text::law_tight_texts_are_not_trimmed(value);
    lemma_split_after_name(name, value);
    lemma_split_after_single(name, value);
    assert(expression_filter(name + mark + value, field) == Ok::<Tree, Seq<char>>(
        exact_filter(name, value),
    ));
    lemma_exact_filter(name, value);
}

proof fn lemma_exact_filter(name: Seq<char>, value: Seq<char>)
    ensures
        exact_filter(name, value).field("filter"@) matches Some(filter) && filter.field(
            "field_name"@,
        ) == Some(Tree::Text(name)) && (filter.field("string_filter"@) matches Some(asked)
            && asked.field("match_type"@) == Some(Tree::Text("EXACT"@)) && asked.field("value"@)
            == Some(Tree::Text(value))),
{
    broadcast use json::group_found;

    reveal_strlit("filter");
    assert("filter"@.len() == 6);
    reveal_strlit("field_name");
    assert("field_name"@.len() == 10);
    reveal_strlit("string_filter");
    assert("string_filter"@.len() == 13);
    reveal_strlit("match_type");
    assert("match_type"@.len() == 10);
    reveal_strlit("value");
    assert("value"@.len() == 5);
    assert("field_name"@[0] != "match_type"@[0]);
}

proof fn lemma_split_after_single(name: Seq<char>, value: Seq<char>)
    requires
        !name.contains('='),
        !value.contains('='),
    ensures
        text::split_at_first(name + "="@ + value, "="@) == Some((name, value)),
        text::split_at_first(name + "="@ + value, "=="@) is None,
{
    reveal_strlit("=");
    reveal_strlit("==");
    assert("="@ =~= seq!['=']);
    text::law_first_mark_splits(name, '=', value);
    let single = name + "="@ + value;
    if text::holds(single, "=="@) {
        let at = choose|at: int| #[trigger] text::stands_at(single, "=="@, at);
        assert(single.subrange(at, at + 2)[0] == '=' && single.subrange(at, at + 2)[1] == '=');
        assert(single[at] == '=' && single[at + 1] == '=');
        if at < name.len() {
            assert(name[at] == '=');
        } else if at > name.len() {
            assert(value[at - name.len() - 1] == '=');
        } else {
            assert(value[0] == '=');
        }
    }
    text::law_texts_without_marks_do_not_split(single, "=="@);
}

/// A filter that is an object stays as it is; none stays none; what is neither an object nor a
/// text is refused; and a text is read as JSON where it begins with a brace, and as an
/// expression only where those are allowed.
pub proof fn law_filters_by_their_form(
    entries: Seq<(Seq<char>, Tree)>,
    raw: Seq<char>,
    value: Tree,
    field: Seq<char>,
    shorthand: bool,
)
    ensures
        value_filter(None, field, shorthand) == Ok::<Option<Tree>, Seq<char>>(None),
        value_filter(Some(Tree::Null), field, shorthand) == Ok::<Option<Tree>, Seq<char>>(None),
        value_filter(Some(Tree::Dict(entries)), field, shorthand) == Ok::<Option<Tree>, Seq<char>>(
            Some(Tree::Dict(entries)),
        ),
        value is Bool || value is Whole || value is Real || value is List ==> value_filter(
            Some(value),
            field,
            shorthand,
        ) is Err,
        text::is_blank(raw) ==> text_filter(raw, field, shorthand) is Err,
        !text::is_blank(raw) && text::trim(raw)[0] == '{' ==> (match json_text::json_of(
            text::trim(raw),
        ) {
            Ok(Tree::Dict(held)) => text_filter(raw, field, shorthand) == Ok::<Tree, Seq<char>>(
                Tree::Dict(held),
            ),
            _ => text_filter(raw, field, shorthand) is Err,
        }),
        !text::is_blank(raw) && text::trim(raw)[0] != '{' ==> text_filter(raw, field, true)
            == expression_filter(text::trim(raw), field) && text_filter(raw, field, false) is Err,
{
    reveal_strlit("{");
    let trimmed = text::trim(raw);
    if trimmed.len() > 0 {
        assert("{"@[0] == '{');
        if trimmed[0] == '{' {
            assert(trimmed.take(1) =~= "{"@);
        } else {
            assert(trimmed.take(1)[0] != "{"@[0]);
        }
    }
}

/// A value in quotes counts without them, and may hold blanks; one that holds blanks needs them;
/// and neither the name nor the value may be missing.
pub proof fn law_quoted_values_may_hold_blanks(
    name: Seq<char>,
    value: Seq<char>,
    field: Seq<char>,
    mark: char,
)
    requires
        name.len() > 0,
        !text::has_space(name),
        !name.contains('='),
        value.len() > 0,
        mark == '"' || mark == '\'',
    ensures
        expression_filter(name + "=="@ + (seq![mark] + value + seq![mark]), field) == Ok::<
            Tree,
            Seq<char>,
        >(exact_filter(name, value)),
        text::has_space(value) && text::trim(value) == value && !is_quoted(value)
            ==> expression_filter(name + "=="@ + value, field) is Err,
        expression_filter(name + "=="@ + Seq::<char>::empty(), field) is Err,
{
    let quoted = seq![mark] + value + seq![mark];
    assert(!text::is_space(name[0]) && !text::is_space(name[name.len() - 1]));
    text::law_tight_texts_are_not_trimmed(name);
    assert(quoted[0] == mark && quoted.last() == mark);
    assert(!text::is_space(mark));
    text::law_tight_texts_are_not_trimmed(quoted);
    lemma_split_after_name(name, quoted);
    lemma_split_after_name(name, value);
    let none = Seq::<char>::empty();
    lemma_split_after_name(name, none);
    text::law_tight_texts_are_not_trimmed(none);
    assert(quoted.subrange(1, quoted.len() - 1) =~= value);
}

/// What is said of a filter that is not accepted, and of which.
pub proof fn law_faults_of_filters_are_said(
    field: Seq<char>,
    raw: Seq<char>,
    value: Tree,
    message: Seq<char>,
)
    requires
        text::trim(raw).len() == 0,
        value is Bool || value is Whole || value is Real || value is List,
    ensures
        text_filter(raw, field, true) == Err::<Tree, Seq<char>>(
            field + " must not be an empty string"@,
        ),
        decoded_filter(Ok(value), field) == Err::<Tree, Seq<char>>(
            field + " JSON form must decode to an object"@,
        ),
        decoded_filter(Err(message), field) == Err::<Tree, Seq<char>>(
            field + " JSON parse failed: "@ + text::trim(message),
        ),
        value_filter(Some(value), field, true) == Err::<Option<Tree>, Seq<char>>(
            field + " must be an object, JSON-object string"@ + ", or `field==value`"@,
        ),
        value_filter(Some(value), field, false) == Err::<Option<Tree>, Seq<char>>(
            field + " must be an object, JSON-object string"@ + ""@,
        ),
{
}

} // verus!
