//! Which dimensions and metrics of a report go together.

use vstd::prelude::*;
use vstd::string::*;

use crate::json;
use crate::json::{Json, Object, Tree};
use crate::tabular;
use crate::text;

verus! {

// ---------------------------------------------------------------------------
// Ordered names.
// ---------------------------------------------------------------------------

/// Names in order with one more among them; a name that is there already stays alone.
pub open spec fn placed(names: Seq<Seq<char>>, name: Seq<char>) -> Seq<Seq<char>>
    decreases names.len(),
{
    if names.len() == 0 {
        seq![name]
    } else if names[0] == name {
        names
    } else if text::precedes(name, names[0]) {
        seq![name] + names
    } else {
        seq![names[0]] + placed(names.drop_first(), name)
    }
}

/// Names in order, each once.
pub open spec fn arranged(names: Seq<Seq<char>>) -> Seq<Seq<char>>
    decreases names.len(),
{
    if names.len() == 0 {
        names
    } else {
        placed(arranged(names.drop_last()), names.last())
    }
}

/// Whether each name stands before the next.
pub open spec fn in_order(names: Seq<Seq<char>>) -> bool {
    forall|i: int, j: int|
        0 <= i < j < names.len() ==> text::precedes(#[trigger] names[i], #[trigger] names[j])
}

/// Takes one more name among names in order.
fn place(names: Vec<String>, name: String) -> (r: Vec<String>)
    ensures
        text::texts(r@) == placed(text::texts(names@), name@),
{
    let ghost all = text::texts(names@);
    let n: usize = names.len();
    let mut at: usize = 0;
    assert(all.take(0) =~= Seq::<Seq<char>>::empty());
    assert(all.skip(0) =~= all);
    assert(all.take(0) + placed(all.skip(0), name@) =~= placed(all, name@));
    while at < n && !text::same_text(names[at].as_str(), name.as_str()) && !text::stands_before(
        name.as_str(),
        names[at].as_str(),
    )
        invariant
            n == names@.len(),
            at <= n,
            all == text::texts(names@),
            all.take(at as int) + placed(all.skip(at as int), name@) == placed(all, name@),
        decreases n - at,
    {
        assert(all.skip(at as int).drop_first() =~= all.skip(at + 1));
        assert(all.take(at + 1) + placed(all.skip(at + 1), name@) =~= all.take(at as int) + (seq![
            all[at as int],
        ] + placed(all.skip(at + 1), name@)));
        at = at + 1;
    }
    if at < n && text::same_text(names[at].as_str(), name.as_str()) {
        assert(all.take(at as int) + all.skip(at as int) =~= all);
        return names;
    }
    let mut r: Vec<String> = names;
    r.insert(at, name);
    assert(text::texts(r@) =~= all.take(at as int) + (seq![name@] + all.skip(at as int)));
    if at == n {
        assert(all.skip(at as int) =~= Seq::<Seq<char>>::empty());
        assert(seq![name@] + all.skip(at as int) =~= seq![name@]);
    }
    r
}

// ---------------------------------------------------------------------------
// Entries.
// ---------------------------------------------------------------------------

/// The name of a dimension or metric in an entry of a compatibility answer.
pub open spec fn entry_name(entry: Tree, metadata_key: Seq<char>) -> Seq<char> {
    let named = match entry.field(metadata_key) {
        Some(Tree::Dict(meta)) => match json::lookup(meta, "apiName"@) {
            Some(value) => Some(value),
            None => match json::lookup(meta, "uiName"@) {
                Some(value) => Some(value),
                None => json::lookup(meta, "name"@),
            },
        },
        _ => None,
    };
    match named {
        Some(Tree::Text(name)) => name,
        _ => "<unknown>"@,
    }
}

/// Whether an entry says that its dimension or metric goes with the others.
pub open spec fn is_compatible(entry: Tree) -> bool {
    match entry.text_field("compatibility"@) {
        Some(shown) => text::uppered(shown) == "COMPATIBLE"@,
        None => false,
    }
}

/// The names of those entries that go with the others, or that do not.
pub open spec fn names_that(entries: Seq<Tree>, metadata_key: Seq<char>, compatible: bool) -> Seq<
    Seq<char>,
>
    decreases entries.len(),
{
    if entries.len() == 0 {
        Seq::<Seq<char>>::empty()
    } else {
        let before = names_that(entries.drop_last(), metadata_key, compatible);
        if is_compatible(entries.last()) == compatible {
            before.push(entry_name(entries.last(), metadata_key))
        } else {
            before
        }
    }
}

fn name_of_entry(entry: &Json, metadata_key: &str) -> (r: String)
    ensures
        r@ == entry_name(entry@, metadata_key@),
{
    let meta: &Object = match entry.get(metadata_key) {
        Some(value) => match value.as_object() {
            Some(meta) => meta,
            None => {
                return "<unknown>".to_owned();
            },
        },
        None => {
            return "<unknown>".to_owned();
        },
    };
    let named: Option<&Json> = match meta.get("apiName") {
        Some(value) => Some(value),
        None => match meta.get("uiName") {
            Some(value) => Some(value),
            None => meta.get("name"),
        },
    };
    match named {
        Some(value) => match value.as_str() {
            Some(name) => name.to_owned(),
            None => "<unknown>".to_owned(),
        },
        None => "<unknown>".to_owned(),
    }
}

fn entry_is_compatible(entry: &Json) -> (r: bool)
    ensures
        r == is_compatible(entry@),
{
    match entry.text_at("compatibility") {
        Some(shown) => text::same_text(text::to_upper(shown).as_str(), "COMPATIBLE"),
        None => false,
    }
}

/// The names that go with the others and those that do not, each in order and once.
pub fn split_compatibility_names(entries: &[Json], metadata_key: &str) -> (r: (
    Vec<String>,
    Vec<String>,
))
    ensures
        text::texts(r.0@) == arranged(names_that(json::trees(entries@), metadata_key@, true)),
        text::texts(r.1@) == arranged(names_that(json::trees(entries@), metadata_key@, false)),
{
    let ghost all = json::trees(entries@);
    let mut compatible: Vec<String> = Vec::new();
    let mut incompatible: Vec<String> = Vec::new();
    assert(all.take(0) =~= Seq::<Tree>::empty());
    assert(text::texts(compatible@) =~= Seq::<Seq<char>>::empty());
    assert(text::texts(incompatible@) =~= Seq::<Seq<char>>::empty());
    for i in 0..entries.len()
        invariant
            all == json::trees(entries@),
            text::texts(compatible@) == arranged(
                names_that(all.take(i as int), metadata_key@, true),
            ),
            text::texts(incompatible@) == arranged(
                names_that(all.take(i as int), metadata_key@, false),
            ),
    {
        assert(all.take(i + 1).drop_last() =~= all.take(i as int));
        assert(all[i as int] == entries@[i as int]@);
        let ghost yes = names_that(all.take(i as int), metadata_key@, true);
        let ghost no = names_that(all.take(i as int), metadata_key@, false);
        let name: String = name_of_entry(&entries[i], metadata_key);
        assert(yes.push(name@).drop_last() =~= yes);
        assert(no.push(name@).drop_last() =~= no);
        if entry_is_compatible(&entries[i]) {
            compatible = place(compatible, name);
        } else {
            incompatible = place(incompatible, name);
        }
    }
    assert(all.take(entries@.len() as int) =~= all);
    (compatible, incompatible)
}

// ---------------------------------------------------------------------------
// Summaries.
// ---------------------------------------------------------------------------

/// What an answer says of dimensions.
pub open spec fn dimension_names(compatibility: Tree, compatible: bool) -> Seq<Seq<char>> {
    arranged(
        names_that(
            tabular::listed(compatibility, "dimensionCompatibilities"@),
            "dimensionMetadata"@,
            compatible,
        ),
    )
}

/// What an answer says of metrics.
pub open spec fn metric_names(compatibility: Tree, compatible: bool) -> Seq<Seq<char>> {
    arranged(
        names_that(
            tabular::listed(compatibility, "metricCompatibilities"@),
            "metricMetadata"@,
            compatible,
        ),
    )
}

/// Whether an answer says nothing of dimensions, or nothing of metrics.
pub open spec fn lacks_metadata(compatibility: Tree) -> bool {
    tabular::listed(compatibility, "dimensionCompatibilities"@).len() == 0 || tabular::listed(
        compatibility,
        "metricCompatibilities"@,
    ).len() == 0
}

/// Whether all dimensions and metrics go together.
pub open spec fn fully_compatible(compatibility: Tree) -> bool {
    &&& dimension_names(compatibility, false).len() == 0
    &&& metric_names(compatibility, false).len() == 0
    &&& !lacks_metadata(compatibility)
}

/// `codes`, and one more where `said`.
pub open spec fn with_code(codes: Seq<Seq<char>>, said: bool, code: Seq<char>) -> Seq<Seq<char>> {
    if said {
        codes.push(code)
    } else {
        codes
    }
}

/// Why a report is compatible or is not.
pub open spec fn reason_codes(compatibility: Tree) -> Seq<Seq<char>> {
    with_code(
        with_code(
            with_code(
                with_code(
                    Seq::<Seq<char>>::empty(),
                    lacks_metadata(compatibility),
                    "MISSING_COMPATIBILITY_METADATA"@,
                ),
                dimension_names(compatibility, false).len() > 0,
                "INCOMPATIBLE_DIMENSIONS"@,
            ),
            metric_names(compatibility, false).len() > 0,
            "INCOMPATIBLE_METRICS"@,
        ),
        fully_compatible(compatibility),
        "COMPATIBLE"@,
    )
}

/// The summary of a compatibility answer.
pub open spec fn summary(compatibility: Tree) -> Tree {
    Tree::Dict(
        json::fields()
            .push(("is_fully_compatible"@, Tree::Bool(fully_compatible(compatibility))))
            .push(("reason_codes"@, json::text_list(reason_codes(compatibility))))
            .push(
                (
                    "compatible_dimensions"@,
                    json::text_list(dimension_names(compatibility, true)),
                ),
            )
            .push(
                (
                    "incompatible_dimensions"@,
                    json::text_list(dimension_names(compatibility, false)),
                ),
            )
            .push(("compatible_metrics"@, json::text_list(metric_names(compatibility, true))))
            .push(
                ("incompatible_metrics"@, json::text_list(metric_names(compatibility, false))),
            ),
    )
}

fn push_code(codes: &mut Vec<String>, said: bool, code: &str)
    ensures
        text::texts(final(codes)@) == with_code(text::texts(old(codes)@), said, code@),
{
    if said {
        codes.push(code.to_owned());
        assert(text::texts(codes@) =~= text::texts(old(codes)@).push(code@));
    }
}

fn list_copy(response: &Json, key: &str) -> (r: Vec<Json>)
    ensures
        json::trees(r@) == tabular::listed(response@, key@),
{
    match response.array_at(key) {
        Some(items) => json::clone_values(items.as_slice()),
        None => {
            let r: Vec<Json> = Vec::new();
            assert(json::trees(r@) =~= Seq::<Tree>::empty());
            r
        },
    }
}

/// The summary of a compatibility answer.
pub fn summarize_report_compatibility(compatibility: &Json) -> (r: Json)
    ensures
        r@ == summary(compatibility@),
{
    let dimensions: Vec<Json> = list_copy(compatibility, "dimensionCompatibilities");
    let metrics: Vec<Json> = list_copy(compatibility, "metricCompatibilities");
    let (compatible_dimensions, incompatible_dimensions): (Vec<String>, Vec<String>) =
        split_compatibility_names(dimensions.as_slice(), "dimensionMetadata");
    let (compatible_metrics, incompatible_metrics): (Vec<String>, Vec<String>) =
        split_compatibility_names(metrics.as_slice(), "metricMetadata");
    assert(json::trees(dimensions@).len() == dimensions@.len());
    assert(json::trees(metrics@).len() == metrics@.len());
    assert(text::texts(incompatible_dimensions@).len() == incompatible_dimensions@.len());
    assert(text::texts(incompatible_metrics@).len() == incompatible_metrics@.len());
    let missing_metadata: bool = dimensions.len() == 0 || metrics.len() == 0;
    let is_fully_compatible: bool = incompatible_dimensions.len() == 0
        && incompatible_metrics.len() == 0 && !missing_metadata;
    let mut codes: Vec<String> = Vec::new();
    assert(text::texts(codes@) =~= Seq::<Seq<char>>::empty());
    push_code(&mut codes, missing_metadata, "MISSING_COMPATIBILITY_METADATA");
    push_code(&mut codes, incompatible_dimensions.len() > 0, "INCOMPATIBLE_DIMENSIONS");
    push_code(&mut codes, incompatible_metrics.len() > 0, "INCOMPATIBLE_METRICS");
    push_code(&mut codes, is_fully_compatible, "COMPATIBLE");
    let mut object = Object::new();
    object.put("is_fully_compatible", json::boolean(is_fully_compatible));
    object.put("reason_codes", json::strings(codes.as_slice()));
    object.put("compatible_dimensions", json::strings(compatible_dimensions.as_slice()));
    object.put("incompatible_dimensions", json::strings(incompatible_dimensions.as_slice()));
    object.put("compatible_metrics", json::strings(compatible_metrics.as_slice()));
    object.put("incompatible_metrics", json::strings(incompatible_metrics.as_slice()));
    json::dict(object)
}

// ---------------------------------------------------------------------------
// Laws.
// ---------------------------------------------------------------------------

proof fn lemma_placed(names: Seq<Seq<char>>, name: Seq<char>)
    requires
        in_order(names),
    ensures
        in_order(placed(names, name)),
        forall|other: Seq<char>|
            #[trigger] placed(names, name).contains(other) <==> names.contains(other) || other
                == name,
    decreases names.len(),
{
    let all = placed(names, name);
    if names.len() == 0 {
        assert(all[0] == name);
        assert forall|other: Seq<char>| #[trigger] all.contains(other) <==> names.contains(other)
            || other == name by {
            if other == name {
                assert(all[0] == other);
            }
        }
    } else if names[0] == name {
        assert(names.contains(name)) by {
            assert(names[0] == name);
        }
    } else if text::precedes(name, names[0]) {
        assert forall|i: int, j: int| 0 <= i < j < all.len() implies text::precedes(
            #[trigger] all[i],
            #[trigger] all[j],
        ) by {
            assert(all[j] == names[j - 1]);
            if i == 0 {
                if j > 1 {
                    text::lemma_precedes(name, names[0], names[j - 1]);
                }
            } else {
                assert(all[i] == names[i - 1]);
            }
        }
        assert forall|other: Seq<char>| #[trigger] all.contains(other) <==> names.contains(other)
            || other == name by {
            if names.contains(other) {
                let at = choose|at: int| 0 <= at < names.len() && names[at] == other;
                assert(all[at + 1] == other);
            }
            if other == name {
                assert(all[0] == other);
            }
            if all.contains(other) {
                let at = choose|at: int| 0 <= at < all.len() && all[at] == other;
                if at > 0 {
                    assert(names[at - 1] == other);
                }
            }
        }
    } else {
        let rest = names.drop_first();
        let tail = placed(rest, name);
        assert forall|i: int, j: int| 0 <= i < j < rest.len() implies text::precedes(
            #[trigger] rest[i],
            #[trigger] rest[j],
        ) by {
            assert(rest[i] == names[i + 1]);
            assert(rest[j] == names[j + 1]);
        }
        lemma_placed(rest, name);
        text::lemma_precedes(names[0], name, name);
        assert forall|i: int, j: int| 0 <= i < j < all.len() implies text::precedes(
            #[trigger] all[i],
            #[trigger] all[j],
        ) by {
            assert(all[j] == tail[j - 1]);
            if i > 0 {
                assert(all[i] == tail[i - 1]);
            } else {
                assert(tail.contains(all[j]));
                if rest.contains(all[j]) {
                    let at = choose|at: int| 0 <= at < rest.len() && rest[at] == all[j];
                    assert(names[at + 1] == all[j]);
                }
            }
        }
        assert forall|other: Seq<char>| #[trigger] all.contains(other) <==> names.contains(other)
            || other == name by {
            if names.contains(other) {
                let at = choose|at: int| 0 <= at < names.len() && names[at] == other;
                if at == 0 {
                    assert(all[0] == other);
                } else {
                    assert(rest[at - 1] == other);
                    assert(rest.contains(other));
                }
            }
            if tail.contains(other) {
                let at = choose|at: int| 0 <= at < tail.len() && tail[at] == other;
                assert(all[at + 1] == other);
            }
            if all.contains(other) {
                let at = choose|at: int| 0 <= at < all.len() && all[at] == other;
                if at > 0 {
                    assert(tail[at - 1] == other);
                    assert(tail.contains(other));
                    if rest.contains(other) {
                        let k = choose|k: int| 0 <= k < rest.len() && rest[k] == other;
                        assert(names[k + 1] == other);
                    }
                } else {
                    assert(names[0] == other);
                }
            }
        }
    }
}

/// The names that are shown are those that were found, in order and each once.
pub proof fn law_arranged_names(names: Seq<Seq<char>>)
    ensures
        in_order(arranged(names)),
        forall|name: Seq<char>|
            #[trigger] arranged(names).contains(name) <==> names.contains(name),
    decreases names.len(),
{
    if names.len() > 0 {
        let before = names.drop_last();
        law_arranged_names(before);
        lemma_placed(arranged(before), names.last());
        assert forall|name: Seq<char>| #[trigger] arranged(names).contains(name) <==> names.contains(
            name,
        ) by {
            assert(arranged(names).contains(name) <==> arranged(before).contains(name) || name
                == names.last());
            if names.contains(name) {
                let at = choose|at: int| 0 <= at < names.len() && names[at] == name;
                if at < before.len() {
                    assert(before[at] == name);
                    assert(before.contains(name));
                }
            }
            if before.contains(name) {
                let at = choose|at: int| 0 <= at < before.len() && before[at] == name;
                assert(names[at] == name);
            }
            if name == names.last() {
                assert(names[names.len() - 1] == name);
            }
        }
    }
}

/// A report is fully compatible exactly where that is the only thing said of it.
pub proof fn law_compatible_reports_say_so(compatibility: Tree)
    ensures
        fully_compatible(compatibility) <==> reason_codes(compatibility) == seq!["COMPATIBLE"@],
        reason_codes(compatibility).len() > 0,
{
    reveal_strlit("COMPATIBLE");
    reveal_strlit("MISSING_COMPATIBILITY_METADATA");
    reveal_strlit("INCOMPATIBLE_DIMENSIONS");
    reveal_strlit("INCOMPATIBLE_METRICS");
    assert("COMPATIBLE"@.len() == 10);
    assert("MISSING_COMPATIBILITY_METADATA"@.len() == 30);
    assert("INCOMPATIBLE_DIMENSIONS"@.len() == 23);
    assert("INCOMPATIBLE_METRICS"@.len() == 20);
    let codes = reason_codes(compatibility);
    if fully_compatible(compatibility) {
        assert(codes =~= seq!["COMPATIBLE"@]);
    } else if codes == seq!["COMPATIBLE"@] {
        assert(codes[0] == "COMPATIBLE"@);
    }
}

/// The names of one kind are those of the entries of that kind, and no others.
pub proof fn law_names_go_by_their_kind(
    entries: Seq<Tree>,
    metadata_key: Seq<char>,
    compatible: bool,
    name: Seq<char>,
)
    ensures
        names_that(entries, metadata_key, compatible).contains(name) <==> exists|i: int|
            0 <= i < entries.len() && is_compatible(#[trigger] entries[i]) == compatible
                && entry_name(entries[i], metadata_key) == name,
    decreases entries.len(),
{
    let all = names_that(entries, metadata_key, compatible);
    if entries.len() > 0 {
        let short = entries.drop_last();
        law_names_go_by_their_kind(short, metadata_key, compatible, name);
        let before = names_that(short, metadata_key, compatible);
        if all.contains(name) {
            let k = choose|k: int| 0 <= k < all.len() && all[k] == name;
            if k < before.len() {
                assert(before[k] == name);
                let i = choose|i: int|
                    0 <= i < short.len() && is_compatible(#[trigger] short[i]) == compatible
                        && entry_name(short[i], metadata_key) == name;
                assert(is_compatible(entries[i]) == compatible);
            } else {
                assert(is_compatible(entries[entries.len() - 1]) == compatible);
            }
        }
        if exists|i: int|
            0 <= i < entries.len() && is_compatible(#[trigger] entries[i]) == compatible
                && entry_name(entries[i], metadata_key) == name {
            let i = choose|i: int|
                0 <= i < entries.len() && is_compatible(#[trigger] entries[i]) == compatible
                    && entry_name(entries[i], metadata_key) == name;
            if i < short.len() {
                assert(is_compatible(short[i]) == compatible);
                let k = choose|k: int| 0 <= k < before.len() && before[k] == name;
                assert(all[k] == name);
            } else {
                assert(all[all.len() - 1] == name);
            }
        }
    }
}

/// An entry is compatible where it says so, in any case; and it goes by the name that requests
/// use, or else by the name that people see.
pub proof fn law_entries_say_what_they_are(
    entry: Tree,
    metadata_key: Seq<char>,
    meta: Seq<(Seq<char>, Tree)>,
    shown: Seq<char>,
)
    ensures
        entry.field("compatibility"@) == Some(Tree::Text(shown)) ==> (is_compatible(entry)
            <==> text::uppered(shown) == "COMPATIBLE"@),
        entry.field("compatibility"@) is None ==> !is_compatible(entry),
        entry.field(metadata_key) == Some(Tree::Dict(meta)) && json::lookup(meta, "apiName"@)
            == Some(Tree::Text(shown)) ==> entry_name(entry, metadata_key) == shown,
        entry.field(metadata_key) == Some(Tree::Dict(meta)) && json::lookup(meta, "apiName"@)
            is None && json::lookup(meta, "uiName"@) == Some(Tree::Text(shown)) ==> entry_name(
            entry,
            metadata_key,
        ) == shown,
        entry.field(metadata_key) == Some(Tree::Dict(meta)) && json::lookup(meta, "apiName"@)
            is None && json::lookup(meta, "uiName"@) is None && json::lookup(meta, "name"@)
            == Some(Tree::Text(shown)) ==> entry_name(entry, metadata_key) == shown,
        entry.field(metadata_key) is None ==> entry_name(entry, metadata_key) == "<unknown>"@,
{
}

/// A summary tells the names of dimensions and of metrics that go with each other, and of those
/// that do not, each list under its own name; and the report as a whole is compatible where
/// nothing in it is not, and both lists came.
pub proof fn law_summaries_tell_names_by_kind(
    compatibility: Tree,
    dimensions: Seq<Tree>,
    metrics: Seq<Tree>,
)
    requires
        compatibility.field("dimensionCompatibilities"@) == Some(Tree::List(dimensions)),
        compatibility.field("metricCompatibilities"@) == Some(Tree::List(metrics)),
    ensures
        summary(compatibility).field("compatible_dimensions"@) == Some(
            json::text_list(arranged(names_that(dimensions, "dimensionMetadata"@, true))),
        ),
        summary(compatibility).field("incompatible_dimensions"@) == Some(
            json::text_list(arranged(names_that(dimensions, "dimensionMetadata"@, false))),
        ),
        summary(compatibility).field("compatible_metrics"@) == Some(
            json::text_list(arranged(names_that(metrics, "metricMetadata"@, true))),
        ),
        summary(compatibility).field("incompatible_metrics"@) == Some(
            json::text_list(arranged(names_that(metrics, "metricMetadata"@, false))),
        ),
        summary(compatibility).field("is_fully_compatible"@) == Some(
            Tree::Bool(
                dimensions.len() > 0 && metrics.len() > 0 && (forall|i: int|
                    0 <= i < dimensions.len() ==> is_compatible(#[trigger] dimensions[i])) && (
                forall|i: int|
                    0 <= i < metrics.len() ==> is_compatible(#[trigger] metrics[i])),
            ),
        ),
        summary(compatibility).field("reason_codes"@) == Some(
            json::text_list(reason_codes(compatibility)),
        ),
        reason_codes(compatibility).contains("INCOMPATIBLE_DIMENSIONS"@) <==> exists|i: int|
            0 <= i < dimensions.len() && !is_compatible(#[trigger] dimensions[i]),
        reason_codes(compatibility).contains("INCOMPATIBLE_METRICS"@) <==> exists|i: int|
            0 <= i < metrics.len() && !is_compatible(#[trigger] metrics[i]),
        reason_codes(compatibility).contains("MISSING_COMPATIBILITY_METADATA"@)
            <==> dimensions.len() == 0 || metrics.len() == 0,
{
    broadcast use json::group_found;

    reveal_strlit("is_fully_compatible");
    assert("is_fully_compatible"@.len() == 19);
    reveal_strlit("reason_codes");
    assert("reason_codes"@.len() == 12);
    reveal_strlit("compatible_dimensions");
    assert("compatible_dimensions"@.len() == 21);
    reveal_strlit("incompatible_dimensions");
    assert("incompatible_dimensions"@.len() == 23);
    reveal_strlit("compatible_metrics");
    assert("compatible_metrics"@.len() == 18);
    reveal_strlit("incompatible_metrics");
    assert("incompatible_metrics"@.len() == 20);
    reveal_strlit("MISSING_COMPATIBILITY_METADATA");
    assert("MISSING_COMPATIBILITY_METADATA"@.len() == 30);
    reveal_strlit("INCOMPATIBLE_DIMENSIONS");
    assert("INCOMPATIBLE_DIMENSIONS"@.len() == 23);
    reveal_strlit("INCOMPATIBLE_METRICS");
    assert("INCOMPATIBLE_METRICS"@.len() == 20);
    reveal_strlit("COMPATIBLE");
    assert("COMPATIBLE"@.len() == 10);
    lemma_any_incompatible(dimensions, "dimensionMetadata"@);
    lemma_any_incompatible(metrics, "metricMetadata"@);
    let codes = reason_codes(compatibility);
    let missing = lacks_metadata(compatibility);
    let wrong_dimensions = dimension_names(compatibility, false).len() > 0;
    let wrong_metrics = metric_names(compatibility, false).len() > 0;
    if missing {
        assert(codes[0] == "MISSING_COMPATIBILITY_METADATA"@);
    }
    let before: int = if missing {
        1
    } else {
        0
    };
    if wrong_dimensions {
        assert(codes[before] == "INCOMPATIBLE_DIMENSIONS"@);
    }
    let next: int = if wrong_dimensions {
        before + 1
    } else {
        before
    };
    if wrong_metrics {
        assert(codes[next] == "INCOMPATIBLE_METRICS"@);
    }
}

proof fn lemma_any_incompatible(entries: Seq<Tree>, metadata_key: Seq<char>)
    ensures
        arranged(names_that(entries, metadata_key, false)).len() > 0 <==> exists|i: int|
            0 <= i < entries.len() && !is_compatible(#[trigger] entries[i]),
{
    let names = names_that(entries, metadata_key, false);
    law_arranged_names(names);
    if arranged(names).len() > 0 {
        let name = arranged(names)[0];
        assert(arranged(names).contains(name));
        law_names_go_by_their_kind(entries, metadata_key, false, name);
    }
    if exists|i: int| 0 <= i < entries.len() && !is_compatible(#[trigger] entries[i]) {
        let i = choose|i: int| 0 <= i < entries.len() && !is_compatible(#[trigger] entries[i]);
        let name = entry_name(entries[i], metadata_key);
        law_names_go_by_their_kind(entries, metadata_key, false, name);
        assert(names.contains(name));
        assert(arranged(names).contains(name));
    }
}

} // verus!
