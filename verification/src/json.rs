//! JSON values as plain data.
//!
//! A [`Json`] stands for what a JSON document says; its view is a [`Tree`], over which
//! contracts speak. An object is the list of its entries, in the order in which the map
//! that holds them is walked.

use vstd::prelude::*;

use crate::text;

verus! {

/// A JSON number.
#[derive(Debug, PartialEq)]
pub enum Number {
    /// A whole number from zero up.
    Unsigned(u64),
    /// A whole number below zero.
    Negative(i64),
    /// Any other number, by the decimal text that it is written as.
    Real(String),
}

/// A JSON value.
#[derive(Debug, PartialEq)]
pub enum Json {
    Null,
    Bool(bool),
    Number(Number),
    Text(String),
    Array(Vec<Json>),
    Object(Object),
}

/// The entries of a JSON object.
#[derive(Debug, PartialEq)]
pub struct Object {
    pub entries: Vec<(String, Json)>,
}

/// What a JSON value says.
#[verifier::ext_equal]
pub enum Tree {
    Null,
    Bool(bool),
    Whole(int),
    Real(Seq<char>),
    Text(Seq<char>),
    List(Seq<Tree>),
    Dict(Seq<(Seq<char>, Tree)>),
}

impl Number {
    /// The tree of a number.
    pub open spec fn tree(self) -> Tree {
        match self {
            Number::Unsigned(n) => Tree::Whole(n as int),
            Number::Negative(n) => Tree::Whole(n as int),
            Number::Real(shown) => Tree::Real(shown@),
        }
    }
}

impl Json {
    /// What the value says.
    pub open spec fn tree(self) -> Tree
        decreases self,
    {
        match self {
            Json::Null => Tree::Null,
            Json::Bool(b) => Tree::Bool(b),
            Json::Number(n) => n.tree(),
            Json::Text(s) => Tree::Text(s@),
            Json::Array(items) => Tree::List(
                Seq::new(
                    items@.len(),
                    |i: int|
                        if 0 <= i < items@.len() {
                            items@[i].tree()
                        } else {
                            Tree::Null
                        },
                ),
            ),
            Json::Object(object) => Tree::Dict(
                Seq::new(
                    object.entries@.len(),
                    |i: int|
                        if 0 <= i < object.entries@.len() {
                            (object.entries@[i].0@, object.entries@[i].1.tree())
                        } else {
                            (Seq::<char>::empty(), Tree::Null)
                        },
                ),
            ),
        }
    }
}

impl View for Json {
    type V = Tree;

    open spec fn view(&self) -> Tree {
        self.tree()
    }
}

impl View for Object {
    type V = Seq<(Seq<char>, Tree)>;

    open spec fn view(&self) -> Seq<(Seq<char>, Tree)> {
        Seq::new(self.entries@.len(), |i: int| (self.entries@[i].0@, self.entries@[i].1@))
    }
}

/// What a sequence of values says.
pub open spec fn trees(items: Seq<Json>) -> Seq<Tree> {
    Seq::new(items.len(), |i: int| items[i]@)
}

pub broadcast proof fn lemma_array_tree(items: Vec<Json>)
    ensures
        #[trigger] Json::Array(items)@ == Tree::List(trees(items@)),
{
    assert(Json::Array(items)@->List_0 =~= trees(items@));
}

pub broadcast proof fn lemma_object_tree(object: Object)
    ensures
        #[trigger] Json::Object(object)@ == Tree::Dict(object@),
{
    assert(Json::Object(object)@->Dict_0 =~= object@);
}

pub proof fn lemma_item_smaller(value: Json, i: int)
    requires
        value is Array,
        0 <= i < value->Array_0@.len(),
    ensures
        decreases_to!(value => value->Array_0@[i]),
{
    let items = value->Array_0;
    assert(decreases_to!(value => items));
    assert(decreases_to!(items => items@));
    assert(decreases_to!(items@ => items@[i]));
}

pub proof fn lemma_entry_smaller(value: Json, i: int)
    requires
        value is Object,
        0 <= i < value->Object_0.entries@.len(),
    ensures
        decreases_to!(value => value->Object_0.entries@[i].1),
{
    let entries = value->Object_0.entries;
    assert(decreases_to!(value => value->Object_0));
    assert(decreases_to!(value->Object_0 => entries));
    assert(decreases_to!(entries => entries@));
    assert(decreases_to!(entries@ => entries@[i]));
    assert(decreases_to!(entries@[i] => entries@[i].1));
}

impl Clone for Number {
    fn clone(&self) -> (copy: Self)
        ensures
            copy == *self,
    {
        match self {
            Number::Unsigned(n) => Number::Unsigned(*n),
            Number::Negative(n) => Number::Negative(*n),
            Number::Real(shown) => Number::Real(shown.clone()),
        }
    }
}

impl Clone for Json {
    fn clone(&self) -> (copy: Self)
        ensures
            copy@ == self@,
        decreases self,
    {
        broadcast use {lemma_array_tree, lemma_object_tree};

        match self {
            Json::Null => Json::Null,
            Json::Bool(b) => Json::Bool(*b),
            Json::Number(n) => Json::Number(n.clone()),
            Json::Text(s) => Json::Text(s.clone()),
            Json::Array(items) => {
                let mut copy: Vec<Json> = Vec::new();
                for i in 0..items.len()
                    invariant
                        *self == Json::Array(*items),
                        copy@.len() == i,
                        forall|j: int| 0 <= j < i ==> (#[trigger] copy@[j])@ == items@[j]@,
                {
                    proof {
                        lemma_item_smaller(*self, i as int);
                    }
                    copy.push(items[i].clone());
                }
                assert(trees(copy@) =~= trees(items@));
                Json::Array(copy)
            },
            Json::Object(object) => {
                let mut copy: Vec<(String, Json)> = Vec::new();
                let n: usize = object.entries.len();
                for i in 0..n
                    invariant
                        *self == Json::Object(*object),
                        n == object.entries@.len(),
                        copy@.len() == i,
                        forall|j: int|
                            0 <= j < i ==> (#[trigger] copy@[j]).0@ == object.entries@[j].0@
                                && copy@[j].1@ == object.entries@[j].1@,
                {
                    let entry: &(String, Json) = &object.entries[i];
                    proof {
                        lemma_entry_smaller(*self, i as int);
                    }
                    copy.push((entry.0.clone(), entry.1.clone()));
                }
                let copied = Object { entries: copy };
                assert(copied@ =~= object@);
                Json::Object(copied)
            },
        }
    }
}

// ---------------------------------------------------------------------------
// Trees.
// ---------------------------------------------------------------------------

/// The value of the first entry with `key`.
pub open spec fn lookup(entries: Seq<(Seq<char>, Tree)>, key: Seq<char>) -> Option<Tree>
    decreases entries.len(),
{
    if entries.len() == 0 {
        None
    } else if entries[0].0 == key {
        Some(entries[0].1)
    } else {
        lookup(entries.drop_first(), key)
    }
}

/// `entries` after `key` was given `value`: the first entry with that key takes the
/// value, and where there is none, one more entry stands at the end.
pub open spec fn entered(
    entries: Seq<(Seq<char>, Tree)>,
    key: Seq<char>,
    value: Tree,
) -> Seq<(Seq<char>, Tree)>
    decreases entries.len(),
{
    if entries.len() == 0 {
        seq![(key, value)]
    } else if entries[0].0 == key {
        seq![(key, value)] + entries.drop_first()
    } else {
        seq![entries[0]] + entered(entries.drop_first(), key, value)
    }
}

/// The fields of an object that has none yet.
pub open spec fn fields() -> Seq<(Seq<char>, Tree)> {
    Seq::<(Seq<char>, Tree)>::empty()
}

/// `entries` with one more entry, where there is a value for it.
pub open spec fn optional_entry(
    entries: Seq<(Seq<char>, Tree)>,
    key: Seq<char>,
    value: Option<Tree>,
) -> Seq<(Seq<char>, Tree)> {
    match value {
        Some(tree) => entries.push((key, tree)),
        None => entries,
    }
}

/// A list of texts.
pub open spec fn text_list(items: Seq<Seq<char>>) -> Tree {
    Tree::List(Seq::new(items.len(), |i: int| Tree::Text(items[i])))
}

/// A text, or null for none.
pub open spec fn opt_text(item: Option<Seq<char>>) -> Tree {
    match item {
        Some(held) => Tree::Text(held),
        None => Tree::Null,
    }
}

/// A whole number, or null for none.
pub open spec fn opt_whole(item: Option<u64>) -> Tree {
    match item {
        Some(n) => Tree::Whole(n as int),
        None => Tree::Null,
    }
}

/// A whole number, or null for none.
pub open spec fn opt_size(item: Option<usize>) -> Tree {
    match item {
        Some(n) => Tree::Whole(n as int),
        None => Tree::Null,
    }
}

/// A tree, or null for none.
pub open spec fn opt_tree(item: Option<Tree>) -> Tree {
    match item {
        Some(tree) => tree,
        None => Tree::Null,
    }
}

impl Tree {
    /// The value under `key`, where the tree is an object that has it.
    pub open spec fn field(self, key: Seq<char>) -> Option<Tree> {
        match self {
            Tree::Dict(entries) => lookup(entries, key),
            _ => None,
        }
    }

    /// The text of a string.
    pub open spec fn as_text(self) -> Option<Seq<char>> {
        match self {
            Tree::Text(held) => Some(held),
            _ => None,
        }
    }

    /// The items of an array.
    pub open spec fn as_list(self) -> Option<Seq<Tree>> {
        match self {
            Tree::List(items) => Some(items),
            _ => None,
        }
    }

    /// The number of a whole number that fits an unsigned 64-bit integer.
    pub open spec fn as_u64(self) -> Option<u64> {
        match self {
            Tree::Whole(n) => if 0 <= n <= u64::MAX {
                Some(n as u64)
            } else {
                None
            },
            _ => None,
        }
    }

    /// The text under `key`, where the tree is an object that has a string there.
    pub open spec fn text_field(self, key: Seq<char>) -> Option<Seq<char>> {
        match self.field(key) {
            Some(tree) => tree.as_text(),
            None => None,
        }
    }

    /// The value under `key`, or else under `other`.
    pub open spec fn either_field(self, key: Seq<char>, other: Seq<char>) -> Option<Tree> {
        match self.field(key) {
            Some(tree) => Some(tree),
            None => self.field(other),
        }
    }

    /// Whether this is an object that has entries.
    pub open spec fn has_entries(self) -> bool {
        match self {
            Tree::Dict(entries) => entries.len() > 0,
            _ => false,
        }
    }

    /// The items under `key`, where the tree is an object that has an array there.
    pub open spec fn list_field(self, key: Seq<char>) -> Option<Seq<Tree>> {
        match self.field(key) {
            Some(tree) => tree.as_list(),
            None => None,
        }
    }
}

// ---------------------------------------------------------------------------
// Objects.
// ---------------------------------------------------------------------------

impl Object {
    /// No entries.
    pub fn new() -> (object: Self)
        ensures
            object@ == Seq::<(Seq<char>, Tree)>::empty(),
    {
        let object = Object { entries: Vec::new() };
        assert(object@ =~= Seq::<(Seq<char>, Tree)>::empty());
        object
    }

    /// Appends an entry.
    pub fn put(&mut self, key: &str, value: Json)
        ensures
            final(self)@ == old(self)@.push((key@, value@)),
    {
        self.entries.push((key.to_owned(), value));
        assert(self@ =~= old(self)@.push((key@, value@)));
    }

    /// Appends an entry, where there is a value for it.
    pub fn put_some(&mut self, key: &str, value: Option<Json>)
        ensures
            final(self)@ == optional_entry(old(self)@, key@, opt_view(value)),
    {
        match value {
            Some(held) => self.put(key, held),
            None => {},
        }
    }

    /// The position of the first entry with `key`.
    pub fn position(&self, key: &str) -> (r: Option<usize>)
        ensures
            match r {
                Some(at) => at < self@.len() && self@[at as int].0 == key@ && (forall|j: int|
                    0 <= j < at ==> (#[trigger] self@[j]).0 != key@) && lookup(self@, key@) == Some(
                    self@[at as int].1,
                ),
                None => (forall|j: int| 0 <= j < self@.len() ==> (#[trigger] self@[j]).0 != key@)
                    && lookup(self@, key@) is None,
            },
    {
        let n: usize = self.entries.len();
        assert(self@.skip(0) =~= self@);
        for i in 0..n
            invariant
                n == self.entries@.len(),
                forall|j: int| 0 <= j < i ==> (#[trigger] self@[j]).0 != key@,
                lookup(self@, key@) == lookup(self@.skip(i as int), key@),
        {
            assert(self@.skip(i as int).drop_first() =~= self@.skip(i + 1));
            if text::same_text(self.entries[i].0.as_str(), key) {
                return Some(i);
            }
        }
        None
    }

    /// The value of the first entry with `key`.
    pub fn get(&self, key: &str) -> (r: Option<&Json>)
        ensures
            match r {
                Some(value) => lookup(self@, key@) == Some(value@),
                None => lookup(self@, key@) is None,
            },
    {
        match self.position(key) {
            Some(at) => Some(&self.entries[at].1),
            None => None,
        }
    }

    /// Gives `key` the value `value`.
    pub fn insert(&mut self, key: &str, value: Json)
        ensures
            final(self)@ == entered(old(self)@, key@, value@),
    {
        match self.position(key) {
            Some(at) => {
                let ghost before = self@;
                self.entries.set(at, (key.to_owned(), value));
                proof {
                    lemma_entered_at(before, key@, value@, at as int);
                    assert(self@ =~= before.update(at as int, (key@, value@)));
                }
            },
            None => {
                proof {
                    lemma_entered_absent(self@, key@, value@);
                }
                self.put(key, value);
            },
        }
    }

    /// The number of entries.
    pub fn len(&self) -> (n: usize)
        ensures
            n == self@.len(),
    {
        self.entries.len()
    }
}

pub proof fn lemma_entered_at(
    entries: Seq<(Seq<char>, Tree)>,
    key: Seq<char>,
    value: Tree,
    at: int,
)
    requires
        0 <= at < entries.len(),
        entries[at].0 == key,
        forall|j: int| 0 <= j < at ==> (#[trigger] entries[j]).0 != key,
    ensures
        entered(entries, key, value) == entries.update(at, (key, value)),
    decreases entries.len(),
{
    if at == 0 {
        assert(seq![(key, value)] + entries.drop_first() =~= entries.update(0, (key, value)));
    } else {
        assert(entries[0].0 != key);
        assert forall|j: int| 0 <= j < at - 1 implies (#[trigger] entries.drop_first()[j]).0
            != key by {
            assert(entries.drop_first()[j] == entries[j + 1]);
        }
        lemma_entered_at(entries.drop_first(), key, value, at - 1);
        assert(seq![entries[0]] + entries.drop_first().update(at - 1, (key, value))
            =~= entries.update(at, (key, value)));
    }
}

pub proof fn lemma_entered_absent(entries: Seq<(Seq<char>, Tree)>, key: Seq<char>, value: Tree)
    requires
        forall|j: int| 0 <= j < entries.len() ==> (#[trigger] entries[j]).0 != key,
    ensures
        entered(entries, key, value) == entries.push((key, value)),
    decreases entries.len(),
{
    if entries.len() > 0 {
        assert(entries[0].0 != key);
        assert forall|j: int| 0 <= j < entries.len() - 1 implies (
        #[trigger] entries.drop_first()[j]).0 != key by {
            assert(entries.drop_first()[j] == entries[j + 1]);
        }
        lemma_entered_absent(entries.drop_first(), key, value);
        assert(seq![entries[0]] + entries.drop_first().push((key, value)) =~= entries.push(
            (key, value),
        ));
    } else {
        assert(seq![(key, value)] =~= entries.push((key, value)));
    }
}

/// What is read under `other` where one more entry stands at the end.
pub proof fn lemma_lookup_push(
    entries: Seq<(Seq<char>, Tree)>,
    key: Seq<char>,
    value: Tree,
    other: Seq<char>,
)
    ensures
        lookup(entries.push((key, value)), other) == (match lookup(entries, other) {
            Some(tree) => Some(tree),
            None => if other == key {
                Some(value)
            } else {
                None
            },
        }),
    decreases entries.len(),
{
    let all = entries.push((key, value));
    if entries.len() == 0 {
        assert(all.drop_first() =~= entries);
    } else if entries[0].0 != other {
        lemma_lookup_push(entries.drop_first(), key, value, other);
        assert(all.drop_first() =~= entries.drop_first().push((key, value)));
    }
}

/// What is read under `other` in an object with one more entry.
pub broadcast proof fn lemma_found_push(
    entries: Seq<(Seq<char>, Tree)>,
    entry: (Seq<char>, Tree),
    other: Seq<char>,
)
    ensures
        #[trigger] lookup(entries.push(entry), other) == (match lookup(entries, other) {
            Some(tree) => Some(tree),
            None => if other == entry.0 {
                Some(entry.1)
            } else {
                None
            },
        }),
{
    lemma_lookup_push(entries, entry.0, entry.1, other);
    assert(entry == (entry.0, entry.1));
}

/// What is read under `other` in an object with one more entry, where there is a value
/// for it.
pub broadcast proof fn lemma_found_optional(
    entries: Seq<(Seq<char>, Tree)>,
    key: Seq<char>,
    value: Option<Tree>,
    other: Seq<char>,
)
    ensures
        #[trigger] lookup(optional_entry(entries, key, value), other) == (match lookup(
            entries,
            other,
        ) {
            Some(tree) => Some(tree),
            None => if other == key {
                value
            } else {
                None
            },
        }),
{
    match value {
        Some(tree) => lemma_lookup_push(entries, key, tree, other),
        None => {},
    }
}

/// Nothing is read in an object that has no entries.
pub broadcast proof fn lemma_found_nothing(other: Seq<char>)
    ensures
        #[trigger] lookup(fields(), other) is None,
{
}

pub broadcast group group_found {
    lemma_found_push,
    lemma_found_optional,
    lemma_found_nothing,
}

/// What was entered under a key is what is read there; other keys keep their values.
pub proof fn law_entered_values_are_found(
    entries: Seq<(Seq<char>, Tree)>,
    key: Seq<char>,
    value: Tree,
    other: Seq<char>,
)
    ensures
        lookup(entered(entries, key, value), key) == Some(value),
        other != key ==> lookup(entered(entries, key, value), other) == lookup(entries, other),
    decreases entries.len(),
{
    let after = entered(entries, key, value);
    if entries.len() == 0 {
        assert(after.drop_first() =~= entries);
    } else if entries[0].0 == key {
        assert(after.drop_first() =~= entries.drop_first());
    } else {
        law_entered_values_are_found(entries.drop_first(), key, value, other);
        assert(after.drop_first() =~= entered(entries.drop_first(), key, value));
    }
}

// ---------------------------------------------------------------------------
// Values.
// ---------------------------------------------------------------------------

/// What a list of objects says.
pub open spec fn objects_view(objects: Seq<Object>) -> Seq<Seq<(Seq<char>, Tree)>> {
    Seq::new(objects.len(), |i: int| objects[i]@)
}

impl Clone for Object {
    fn clone(&self) -> (copy: Self)
        ensures
            copy@ == self@,
    {
        let mut copy = Object::new();
        let n: usize = self.entries.len();
        assert(self@.take(0) =~= copy@);
        for i in 0..n
            invariant
                n == self.entries@.len(),
                copy@ == self@.take(i as int),
        {
            copy.put(self.entries[i].0.as_str(), self.entries[i].1.clone());
            assert(self@.take(i + 1) =~= self@.take(i as int).push(self@[i as int]));
        }
        assert(self@.take(n as int) =~= self@);
        copy
    }
}

/// A JSON string.
pub fn string(held: &str) -> (value: Json)
    ensures
        value@ == Tree::Text(held@),
{
    Json::Text(held.to_owned())
}

/// A JSON number.
pub fn whole(n: u64) -> (value: Json)
    ensures
        value@ == Tree::Whole(n as int),
{
    Json::Number(Number::Unsigned(n))
}

/// A JSON number with a sign.
pub fn signed(n: i64) -> (value: Json)
    ensures
        value@ == Tree::Whole(n as int),
{
    if n < 0 {
        Json::Number(Number::Negative(n))
    } else {
        Json::Number(Number::Unsigned(n as u64))
    }
}

/// A JSON number.
pub fn size(n: usize) -> (value: Json)
    ensures
        value@ == Tree::Whole(n as int),
{
    Json::Number(Number::Unsigned(n as u64))
}

/// A JSON truth value.
pub fn boolean(b: bool) -> (value: Json)
    ensures
        value@ == Tree::Bool(b),
{
    Json::Bool(b)
}

/// A JSON array.
pub fn array(items: Vec<Json>) -> (value: Json)
    ensures
        value@ == Tree::List(trees(items@)),
{
    proof {
        lemma_array_tree(items);
    }
    Json::Array(items)
}

/// A JSON object.
pub fn dict(object: Object) -> (value: Json)
    ensures
        value@ == Tree::Dict(object@),
{
    proof {
        lemma_object_tree(object);
    }
    Json::Object(object)
}

/// A JSON string, or null for none.
pub fn string_or_null(item: &Option<String>) -> (value: Json)
    ensures
        value@ == opt_text(text::opt_text(*item)),
{
    match item {
        Some(held) => string(held.as_str()),
        None => Json::Null,
    }
}

/// A JSON string, or null for none.
pub fn str_or_null(item: Option<&str>) -> (value: Json)
    ensures
        value@ == opt_text(text::opt_str(item)),
{
    match item {
        Some(held) => string(held),
        None => Json::Null,
    }
}

/// A JSON number, or null for none.
pub fn whole_or_null(item: Option<u64>) -> (value: Json)
    ensures
        value@ == opt_whole(item),
{
    match item {
        Some(n) => whole(n),
        None => Json::Null,
    }
}

/// A JSON number, or null for none.
pub fn size_or_null(item: Option<usize>) -> (value: Json)
    ensures
        value@ == opt_size(item),
{
    match item {
        Some(n) => size(n),
        None => Json::Null,
    }
}

/// What an optional value says.
pub open spec fn opt_view(item: Option<Json>) -> Option<Tree> {
    match item {
        Some(value) => Some(value@),
        None => None,
    }
}

/// What an optional list of values says.
pub open spec fn opt_trees(item: Option<Vec<Json>>) -> Option<Tree> {
    match item {
        Some(items) => Some(Tree::List(trees(items@))),
        None => None,
    }
}

/// A copy of an optional value, or null for none.
pub fn copy_or_null(item: &Option<Json>) -> (value: Json)
    ensures
        value@ == opt_tree(opt_view(*item)),
{
    match item {
        Some(held) => held.clone(),
        None => Json::Null,
    }
}

/// A copy of a list of values.
pub fn clone_values(items: &[Json]) -> (copy: Vec<Json>)
    ensures
        trees(copy@) == trees(items@),
{
    let mut copy: Vec<Json> = Vec::new();
    for i in 0..items.len()
        invariant
            copy@.len() == i,
            forall|j: int| 0 <= j < i ==> (#[trigger] copy@[j])@ == items@[j]@,
    {
        copy.push(items[i].clone());
    }
    assert(trees(copy@) =~= trees(items@));
    copy
}

/// A copy of an optional list of values, or null for none.
pub fn copy_list_or_null(item: &Option<Vec<Json>>) -> (value: Json)
    ensures
        value@ == opt_tree(opt_trees(*item)),
{
    match item {
        Some(items) => array(clone_values(items)),
        None => Json::Null,
    }
}

/// A JSON array of strings.
pub fn strings(items: &[String]) -> (value: Json)
    ensures
        value@ == text_list(text::texts(items@)),
{
    let mut list: Vec<Json> = Vec::new();
    for i in 0..items.len()
        invariant
            list@.len() == i,
            forall|j: int| 0 <= j < i ==> (#[trigger] list@[j])@ == Tree::Text(items@[j]@),
    {
        list.push(string(items[i].as_str()));
    }
    assert(trees(list@) =~= text_list(text::texts(items@))->List_0);
    array(list)
}

impl Json {
    /// The value under `key`, where this is an object that has it.
    pub fn get(&self, key: &str) -> (r: Option<&Json>)
        ensures
            match r {
                Some(value) => self@.field(key@) == Some(value@),
                None => self@.field(key@) is None,
            },
    {
        match self {
            Json::Object(object) => {
                proof {
                    lemma_object_tree(*object);
                }
                object.get(key)
            },
            _ => None,
        }
    }

    /// The text of a string.
    pub fn as_str(&self) -> (r: Option<&str>)
        ensures
            text::opt_str(r) == self@.as_text(),
    {
        match self {
            Json::Text(held) => Some(held.as_str()),
            _ => None,
        }
    }

    /// The items of an array.
    pub fn as_array(&self) -> (r: Option<&Vec<Json>>)
        ensures
            match r {
                Some(items) => self@.as_list() == Some(trees(items@)),
                None => self@.as_list() is None,
            },
    {
        match self {
            Json::Array(items) => {
                proof {
                    lemma_array_tree(*items);
                }
                Some(items)
            },
            _ => None,
        }
    }

    /// The entries of an object.
    pub fn as_object(&self) -> (r: Option<&Object>)
        ensures
            match r {
                Some(object) => self@ == Tree::Dict(object@),
                None => !(self@ is Dict),
            },
    {
        match self {
            Json::Object(object) => {
                proof {
                    lemma_object_tree(*object);
                }
                Some(object)
            },
            _ => None,
        }
    }

    /// The number of a whole number that fits an unsigned 64-bit integer.
    pub fn as_u64(&self) -> (r: Option<u64>)
        ensures
            r == self@.as_u64(),
    {
        match self {
            Json::Number(Number::Unsigned(n)) => Some(*n),
            Json::Number(Number::Negative(n)) => if *n >= 0 {
                Some(*n as u64)
            } else {
                None
            },
            _ => None,
        }
    }

    /// Whether this is an object.
    pub fn is_object(&self) -> (r: bool)
        ensures
            r == self@ is Dict,
    {
        match self {
            Json::Object(_) => true,
            _ => false,
        }
    }

    /// The text under `key`, where this is an object that has a string there.
    pub fn text_at(&self, key: &str) -> (r: Option<&str>)
        ensures
            text::opt_str(r) == self@.text_field(key@),
    {
        match self.get(key) {
            Some(value) => value.as_str(),
            None => None,
        }
    }

    /// The value under `key`, or else under `other`.
    pub fn get_either(&self, key: &str, other: &str) -> (r: Option<&Json>)
        ensures
            match r {
                Some(value) => self@.either_field(key@, other@) == Some(value@),
                None => self@.either_field(key@, other@) is None,
            },
    {
        match self.get(key) {
            Some(value) => Some(value),
            None => self.get(other),
        }
    }

    /// Whether this is an object that has entries.
    pub fn filled_object(&self) -> (r: bool)
        ensures
            r == self@.has_entries(),
    {
        match self.as_object() {
            Some(object) => object.len() > 0,
            None => false,
        }
    }

    /// The items under `key`, where this is an object that has an array there.
    pub fn array_at(&self, key: &str) -> (r: Option<&Vec<Json>>)
        ensures
            match r {
                Some(items) => self@.list_field(key@) == Some(trees(items@)),
                None => self@.list_field(key@) is None,
            },
    {
        match self.get(key) {
            Some(value) => value.as_array(),
            None => None,
        }
    }

    /// A copy of the value under `key`, or null where there is none.
    pub fn copy_at(&self, key: &str) -> (value: Json)
        ensures
            value@ == opt_tree(self@.field(key@)),
    {
        match self.get(key) {
            Some(value) => value.clone(),
            None => Json::Null,
        }
    }
}

} // verus!
