//! Text with fields to fill in.

use vstd::prelude::*;
use vstd::string::*;

use crate::text;

verus! {

/// The value of the first field called `name`; nothing where there is none.
pub open spec fn value_of(fields: Seq<(Seq<char>, Seq<char>)>, name: Seq<char>) -> Seq<char>
    decreases fields.len(),
{
    if fields.len() == 0 {
        Seq::<char>::empty()
    } else if fields[0].0 == name {
        fields[0].1
    } else {
        value_of(fields.drop_first(), name)
    }
}

/// The position of the first closing brace at or behind `from`.
pub open spec fn closing(template: Seq<char>, from: int) -> Option<int>
    decreases template.len() - from,
{
    if from < 0 || from >= template.len() {
        None
    } else if template[from] == '}' {
        Some(from)
    } else {
        closing(template, from + 1)
    }
}

/// What `template` is from position `from` on, with the value of a field for its name in
/// braces.
pub open spec fn filled_from(
    template: Seq<char>,
    fields: Seq<(Seq<char>, Seq<char>)>,
    from: int,
) -> Seq<char>
    decreases template.len() - from,
{
    if from < 0 || from >= template.len() {
        Seq::<char>::empty()
    } else if template[from] == '{' {
        match closing(template, from + 1) {
            Some(end) => if from < end < template.len() {
                value_of(fields, template.subrange(from + 1, end)) + filled_from(
                    template,
                    fields,
                    end + 1,
                )
            } else {
                Seq::<char>::empty()
            },
            None => template.skip(from),
        }
    } else {
        seq![template[from]] + filled_from(template, fields, from + 1)
    }
}

/// `template` with the value of a field for its name in braces.
pub open spec fn filled(template: Seq<char>, fields: Seq<(Seq<char>, Seq<char>)>) -> Seq<char> {
    filled_from(template, fields, 0)
}

/// The fields of a template.
pub struct Fields {
    pub held: Vec<(String, String)>,
}

impl View for Fields {
    type V = Seq<(Seq<char>, Seq<char>)>;

    open spec fn view(&self) -> Seq<(Seq<char>, Seq<char>)> {
        Seq::new(self.held@.len(), |i: int| (self.held@[i].0@, self.held@[i].1@))
    }
}

impl Fields {
    /// No fields.
    pub fn new() -> (r: Self)
        ensures
            r@ == Seq::<(Seq<char>, Seq<char>)>::empty(),
    {
        let r = Fields { held: Vec::new() };
        assert(r@ =~= Seq::<(Seq<char>, Seq<char>)>::empty());
        r
    }

    /// Gives one more field its value.
    pub fn set(&mut self, name: &str, value: String)
        ensures
            final(self)@ == old(self)@.push((name@, value@)),
    {
        self.held.push((name.to_owned(), value));
        assert(self@ =~= old(self)@.push((name@, value@)));
    }

    /// The value of a field.
    fn get(&self, name: &str) -> (r: String)
        ensures
            r@ == value_of(self@, name@),
    {
        let n: usize = self.held.len();
        assert(self@.skip(0) =~= self@);
        for i in 0..n
            invariant
                n == self.held@.len(),
                value_of(self@, name@) == value_of(self@.skip(i as int), name@),
        {
            assert(self@.skip(i as int).drop_first() =~= self@.skip(i + 1));
            if text::same_text(self.held[i].0.as_str(), name) {
                return self.held[i].1.clone();
            }
        }
        String::new()
    }
}

fn closing_at(template: &[char], from: usize) -> (r: Option<usize>)
    requires
        from <= template@.len(),
    ensures
        match r {
            Some(end) => closing(template@, from as int) == Some(end as int) && from <= end
                < template@.len(),
            None => closing(template@, from as int) is None,
        },
{
    let n: usize = template.len();
    let mut at: usize = from;
    while at < n
        invariant
            n == template@.len(),
            from <= at <= n,
            closing(template@, from as int) == closing(template@, at as int),
        decreases n - at,
    {
        if template[at] == '}' {
            return Some(at);
        }
        at = at + 1;
    }
    None
}

/// `template` with the value of a field for its name in braces.
pub fn fill(template: &str, fields: &Fields) -> (r: String)
    ensures
        r@ == filled(template@, fields@),
{
    let chars: Vec<char> = text::chars_of(template);
    let n: usize = chars.len();
    let mut r: String = String::new();
    let mut at: usize = 0;
    assert(r@ + filled_from(template@, fields@, 0) =~= filled(template@, fields@));
    while at < n
        invariant
            n == chars@.len(),
            chars@ == template@,
            at <= n,
            r@ + filled_from(template@, fields@, at as int) == filled(template@, fields@),
        decreases n - at,
    {
        let ghost before = r@;
        if chars[at] == '{' {
            match closing_at(chars.as_slice(), at + 1) {
                Some(end) => {
                    let name: String = text::text_between(chars.as_slice(), at + 1, end);
                    let value: String = fields.get(name.as_str());
                    r.append(value.as_str());
                    assert(r@ + filled_from(template@, fields@, end + 1) =~= before + (value@
                        + filled_from(template@, fields@, end + 1)));
                    at = end + 1;
                },
                None => {
                    let rest: String = text::text_between(chars.as_slice(), at, n);
                    r.append(rest.as_str());
                    assert(rest@ =~= template@.skip(at as int));
                    return r;
                },
            }
        } else {
            r.push(chars[at]);
            assert(r@ + filled_from(template@, fields@, at + 1) =~= before + (seq![
                template@[at as int],
            ] + filled_from(template@, fields@, at + 1)));
            at = at + 1;
        }
    }
    assert(r@ + filled_from(template@, fields@, n as int) =~= r@);
    r
}

/// A template without braces is what it says.
pub proof fn law_plain_templates(template: Seq<char>, fields: Seq<(Seq<char>, Seq<char>)>)
    requires
        !template.contains('{'),
    ensures
        filled(template, fields) == template,
{
    lemma_plain_from(template, fields, 0);
    assert(template.skip(0) =~= template);
}

proof fn lemma_plain_from(template: Seq<char>, fields: Seq<(Seq<char>, Seq<char>)>, from: int)
    requires
        !template.contains('{'),
        0 <= from <= template.len(),
    ensures
        filled_from(template, fields, from) == template.skip(from),
    decreases template.len() - from,
{
    if from < template.len() {
        assert(template.contains(template[from]));
        lemma_plain_from(template, fields, from + 1);
        assert(seq![template[from]] + template.skip(from + 1) =~= template.skip(from));
    } else {
        assert(template.skip(from) =~= Seq::<char>::empty());
    }
}

proof fn lemma_plain_before(
    template: Seq<char>,
    fields: Seq<(Seq<char>, Seq<char>)>,
    from: int,
    until: int,
)
    requires
        0 <= from <= until <= template.len(),
        forall|i: int| from <= i < until ==> #[trigger] template[i] != '{',
    ensures
        filled_from(template, fields, from) == template.subrange(from, until) + filled_from(
            template,
            fields,
            until,
        ),
    decreases until - from,
{
    let rest = filled_from(template, fields, until);
    if from < until {
        lemma_plain_before(template, fields, from + 1, until);
        assert(template[from] != '{');
        assert(seq![template[from]] + (template.subrange(from + 1, until) + rest)
            =~= template.subrange(from, until) + rest);
    } else {
        assert(template.subrange(from, until) + rest =~= rest);
    }
}

proof fn lemma_closing_after(template: Seq<char>, from: int, end: int)
    requires
        0 <= from <= end < template.len(),
        template[end] == '}',
        forall|i: int| from <= i < end ==> #[trigger] template[i] != '}',
    ensures
        closing(template, from) == Some(end),
    decreases end - from,
{
    if from < end {
        lemma_closing_after(template, from + 1, end);
    }
}

proof fn lemma_filled_tail(
    before: Seq<char>,
    after: Seq<char>,
    fields: Seq<(Seq<char>, Seq<char>)>,
    from: int,
)
    requires
        0 <= from <= after.len(),
    ensures
        filled_from(before + after, fields, before.len() + from) == filled_from(
            after,
            fields,
            from,
        ),
    decreases after.len() - from,
{
    let whole = before + after;
    let at = before.len() + from;
    if from < after.len() {
        assert(whole[at] == after[from]);
        if after[from] == '{' {
            lemma_closing_tail(before, after, from + 1);
            match closing(after, from + 1) {
                Some(end) => {
                    if from < end < after.len() {
                        lemma_filled_tail(before, after, fields, end + 1);
                        assert(whole.subrange(at + 1, before.len() + end) =~= after.subrange(
                            from + 1,
                            end,
                        ));
                    }
                },
                None => {
                    assert(whole.skip(at) =~= after.skip(from));
                },
            }
        } else {
            lemma_filled_tail(before, after, fields, from + 1);
        }
    }
}

proof fn lemma_closing_tail(before: Seq<char>, after: Seq<char>, from: int)
    requires
        0 <= from <= after.len(),
    ensures
        closing(before + after, before.len() + from) == (match closing(after, from) {
            Some(end) => Some(before.len() + end),
            None => None,
        }),
    decreases after.len() - from,
{
    if from < after.len() && after[from] != '}' {
        lemma_closing_tail(before, after, from + 1);
    }
}

/// Whether nothing in a text begins a name.
pub open spec fn is_plain(held: Seq<char>) -> bool {
    forall|i: int| 0 <= i < held.len() ==> #[trigger] held[i] != '{'
}

/// Whether a text is a name in braces.
pub open spec fn is_slot(slot: Seq<char>, name: Seq<char>) -> bool {
    &&& slot.len() >= 2
    &&& slot[0] == '{'
    &&& slot.last() == '}'
    &&& slot.subrange(1, slot.len() - 1) == name
    &&& forall|i: int| 1 <= i < slot.len() - 1 ==> #[trigger] slot[i] != '}'
}

/// A name in braces gives way to the value of its field: what stands before it stays, and what
/// stands behind it is filled in turn.
pub proof fn law_names_give_way_to_values(
    before: Seq<char>,
    slot: Seq<char>,
    name: Seq<char>,
    after: Seq<char>,
    fields: Seq<(Seq<char>, Seq<char>)>,
)
    requires
        is_plain(before),
        is_slot(slot, name),
    ensures
        filled(before + slot + after, fields) == before + value_of(fields, name) + filled(
            after,
            fields,
        ),
{
    let whole = before + slot + after;
    let n = before.len() as int;
    let end = n + slot.len() - 1;
    assert forall|i: int| 0 <= i < n implies #[trigger] whole[i] != '{' by {
        assert(whole[i] == before[i]);
    }
    lemma_plain_before(whole, fields, 0, n);
    assert(whole[n] == slot[0]);
    assert(whole[end] == slot.last());
    assert forall|i: int| n + 1 <= i < end implies #[trigger] whole[i] != '}' by {
        assert(whole[i] == slot[i - n]);
    }
    lemma_closing_after(whole, n + 1, end);
    assert(whole.subrange(n + 1, end) =~= slot.subrange(1, slot.len() - 1));
    lemma_filled_tail(before + slot, after, fields, 0);
    let value = value_of(fields, slot.subrange(1, slot.len() - 1));
    let rest = filled(after, fields);
    assert(filled_from(whole, fields, n) == value + rest);
    assert(whole.subrange(0, n) =~= before);
    assert(before + (value + rest) =~= before + value + rest);
}

/// The value of a field is the one that was set for its name first, whatever is set behind it.
pub proof fn law_fields_keep_their_first_value(
    fields: Seq<(Seq<char>, Seq<char>)>,
    field: (Seq<char>, Seq<char>),
    name: Seq<char>,
)
    ensures
        value_of(fields.push(field), name) == (if is_set(fields, name) {
            value_of(fields, name)
        } else if field.0 == name {
            field.1
        } else {
            Seq::<char>::empty()
        }),
    decreases fields.len(),
{
    let more = fields.push(field);
    if fields.len() > 0 {
        let rest = fields.drop_first();
        assert(more.drop_first() =~= rest.push(field));
        assert(more[0] == fields[0]);
        law_fields_keep_their_first_value(rest, field, name);
        if fields[0].0 != name {
            if is_set(fields, name) {
                let i = choose|i: int| 0 <= i < fields.len() && (#[trigger] fields[i]).0 == name;
                assert(rest[i - 1].0 == name);
            }
            if is_set(rest, name) {
                let i = choose|i: int| 0 <= i < rest.len() && (#[trigger] rest[i]).0 == name;
                assert(fields[i + 1].0 == name);
            }
        }
    } else {
        assert(more.drop_first() =~= Seq::<(Seq<char>, Seq<char>)>::empty());
        assert(value_of(more.drop_first(), name) == Seq::<char>::empty());
        assert(more[0] == field);
    }
}

/// Whether a field has a value.
pub open spec fn is_set(fields: Seq<(Seq<char>, Seq<char>)>, name: Seq<char>) -> bool {
    exists|i: int| 0 <= i < fields.len() && (#[trigger] fields[i]).0 == name
}

} // verus!
