//! Values and types of the scratchpad engine, as the tools show them.

use vstd::prelude::*;
use vstd::string::*;

use crate::error;
use crate::ingest;
use crate::json;
use crate::json::{Json, Number, Object, Tree};
use crate::text;

verus! {

/// The type of a column of a query.
#[derive(Debug, Clone, Copy, PartialEq, Eq, Structural)]
pub enum DuckType {
    Boolean,
    Int8,
    Int16,
    Int32,
    Int64,
    UInt8,
    UInt16,
    UInt32,
    UInt64,
    Float16,
    Float32,
    Float64,
    Decimal128,
    Decimal256,
    Date32,
    Date64,
    Timestamp,
    Time32,
    Time64,
    Binary,
    LargeBinary,
    FixedSizeBinary,
    ListOf,
    LargeListOf,
    FixedSizeListOf,
    StructOf,
    MapOf,
    UnionOf,
    Dictionary,
    Other,
}

/// The logical type for the type of a column.
pub open spec fn logical_type(data_type: DuckType) -> Seq<char> {
    match data_type {
        DuckType::Boolean => "boolean"@,
        DuckType::Int8 | DuckType::Int16 | DuckType::Int32 | DuckType::Int64 | DuckType::UInt8
        | DuckType::UInt16 | DuckType::UInt32 | DuckType::UInt64 => "integer"@,
        DuckType::Float16 | DuckType::Float32 | DuckType::Float64 | DuckType::Decimal128
        | DuckType::Decimal256 => "number"@,
        DuckType::Date32 | DuckType::Date64 => "date"@,
        DuckType::Timestamp => "datetime"@,
        DuckType::Time32 | DuckType::Time64 => "time"@,
        DuckType::Binary | DuckType::LargeBinary | DuckType::FixedSizeBinary => "blob"@,
        DuckType::ListOf | DuckType::LargeListOf | DuckType::FixedSizeListOf | DuckType::StructOf
        | DuckType::MapOf | DuckType::UnionOf | DuckType::Dictionary => "json"@,
        DuckType::Other => "string"@,
    }
}

/// The logical type for the type of a column.
pub fn duckdb_type_to_logical_type(data_type: DuckType) -> (r: &'static str)
    ensures
        r@ == logical_type(data_type),
{
    match data_type {
        DuckType::Boolean => "boolean",
        DuckType::Int8 | DuckType::Int16 | DuckType::Int32 | DuckType::Int64 | DuckType::UInt8
        | DuckType::UInt16 | DuckType::UInt32 | DuckType::UInt64 => "integer",
        DuckType::Float16 | DuckType::Float32 | DuckType::Float64 | DuckType::Decimal128
        | DuckType::Decimal256 => "number",
        DuckType::Date32 | DuckType::Date64 => "date",
        DuckType::Timestamp => "datetime",
        DuckType::Time32 | DuckType::Time64 => "time",
        DuckType::Binary | DuckType::LargeBinary | DuckType::FixedSizeBinary => "blob",
        DuckType::ListOf | DuckType::LargeListOf | DuckType::FixedSizeListOf | DuckType::StructOf
        | DuckType::MapOf | DuckType::UnionOf | DuckType::Dictionary => "json",
        DuckType::Other => "string",
    }
}

/// A number that is no whole number: the text of the JSON number where it has one, the
/// text that it is shown as, and the count that it stands for.
#[derive(Debug)]
pub struct DuckReal {
    pub number: Option<String>,
    pub shown: String,
    pub count: usize,
}

/// A value of a query.
#[derive(Debug)]
pub enum DuckValue {
    Null,
    Boolean(bool),
    TinyInt(i8),
    SmallInt(i16),
    Int(i32),
    BigInt(i64),
    HugeInt(i128),
    UTinyInt(u8),
    USmallInt(u16),
    UInt(u32),
    UBigInt(u64),
    Float(DuckReal),
    Double(DuckReal),
    Decimal(String),
    Timestamp(i64),
    Text(String),
    Blob(Vec<u8>),
    Date32(i32),
    Time64(i64),
    Interval { months: i32, days: i32, nanos: i64 },
    ListOf(Vec<DuckValue>),
    ArrayOf(Vec<DuckValue>),
    StructOf(Vec<(String, DuckValue)>),
    MapOf(Vec<(DuckValue, DuckValue)>),
    UnionOf(Box<DuckValue>),
    EnumOf(String),
}

/// The hexadecimal digits of bytes, two for each.
pub open spec fn hex_of(bytes: Seq<u8>) -> Seq<char>
    decreases bytes.len(),
{
    if bytes.len() == 0 {
        Seq::<char>::empty()
    } else {
        hex_of(bytes.drop_last()) + text::hex(bytes.last() as nat, 2)
    }
}

/// The hexadecimal digits of bytes, two for each.
pub fn bytes_to_hex(raw: &[u8]) -> (r: String)
    ensures
        r@ == hex_of(raw@),
{
    let mut r: String = String::new();
    assert(raw@.take(0) =~= Seq::<u8>::empty());
    for i in 0..raw.len()
        invariant
            r@ == hex_of(raw@.take(i as int)),
    {
        assert(raw@.take(i + 1).drop_last() =~= raw@.take(i as int));
        r.append(text::hex_text(raw[i] as u64, 2).as_str());
    }
    assert(raw@.take(raw@.len() as int) =~= raw@);
    r
}

/// A number that is no whole number, as a JSON value.
pub open spec fn real_tree(held: DuckReal) -> Tree {
    match held.number {
        Some(number) => Tree::Real(number@),
        None => Tree::Text(held.shown@),
    }
}

/// A key and a value of a map, as a JSON value.
pub open spec fn pair_tree(key: Tree, value: Tree) -> Tree {
    Tree::Dict(json::fields().push(("key"@, key)).push(("value"@, value)))
}

/// The parts of an interval, as a JSON value.
pub open spec fn interval_tree(months: i32, days: i32, nanos: i64) -> Tree {
    Tree::Dict(
        json::fields()
            .push(("months"@, Tree::Whole(months as int)))
            .push(("days"@, Tree::Whole(days as int)))
            .push(("nanos"@, Tree::Whole(nanos as int))),
    )
}

impl DuckValue {
    /// The value as a JSON value.
    pub open spec fn tree(self) -> Tree
        decreases self,
    {
        match self {
            DuckValue::Null => Tree::Null,
            DuckValue::Boolean(b) => Tree::Bool(b),
            DuckValue::TinyInt(n) => Tree::Whole(n as int),
            DuckValue::SmallInt(n) => Tree::Whole(n as int),
            DuckValue::Int(n) => Tree::Whole(n as int),
            DuckValue::BigInt(n) => Tree::Whole(n as int),
            DuckValue::HugeInt(n) => Tree::Text(ingest::number_text(n as int)),
            DuckValue::UTinyInt(n) => Tree::Whole(n as int),
            DuckValue::USmallInt(n) => Tree::Whole(n as int),
            DuckValue::UInt(n) => Tree::Whole(n as int),
            DuckValue::UBigInt(n) => Tree::Whole(n as int),
            DuckValue::Float(held) => real_tree(held),
            DuckValue::Double(held) => real_tree(held),
            DuckValue::Decimal(shown) => Tree::Text(shown@),
            DuckValue::Timestamp(n) => Tree::Whole(n as int),
            DuckValue::Text(shown) => Tree::Text(shown@),
            DuckValue::Blob(bytes) => Tree::Text("0x"@ + hex_of(bytes@)),
            DuckValue::Date32(n) => Tree::Whole(n as int),
            DuckValue::Time64(n) => Tree::Whole(n as int),
            DuckValue::Interval { months, days, nanos } => interval_tree(months, days, nanos),
            DuckValue::ListOf(items) => Tree::List(
                Seq::new(
                    items@.len(),
                    |i: int|
                        if 0 <= i < items@.len() {
                            items@[i].tree()
                        } else {
                            Tree::Null
                        },
                ),
            ),
            DuckValue::ArrayOf(items) => Tree::List(
                Seq::new(
                    items@.len(),
                    |i: int|
                        if 0 <= i < items@.len() {
                            items@[i].tree()
                        } else {
                            Tree::Null
                        },
                ),
            ),
            DuckValue::StructOf(entries) => Tree::Dict(
                Seq::new(
                    entries@.len(),
                    |i: int|
                        if 0 <= i < entries@.len() {
                            (entries@[i].0@, entries@[i].1.tree())
                        } else {
                            (Seq::<char>::empty(), Tree::Null)
                        },
                ),
            ),
            DuckValue::MapOf(entries) => Tree::List(
                Seq::new(
                    entries@.len(),
                    |i: int|
                        if 0 <= i < entries@.len() {
                            pair_tree(entries@[i].0.tree(), entries@[i].1.tree())
                        } else {
                            Tree::Null
                        },
                ),
            ),
            DuckValue::UnionOf(inner) => (*inner).tree(),
            DuckValue::EnumOf(shown) => Tree::Text(shown@),
        }
    }
}

proof fn lemma_field_smaller(value: DuckValue, i: int)
    requires
        value is StructOf,
        0 <= i < value->StructOf_0@.len(),
    ensures
        decreases_to!(value => value->StructOf_0@[i].1),
{
    let entries = value->StructOf_0;
    assert(decreases_to!(value => entries));
    assert(decreases_to!(entries => entries@));
    assert(decreases_to!(entries@ => entries@[i]));
    assert(decreases_to!(entries@[i] => entries@[i].1));
}

proof fn lemma_pair_smaller(value: DuckValue, i: int)
    requires
        value is MapOf,
        0 <= i < value->MapOf_0@.len(),
    ensures
        decreases_to!(value => value->MapOf_0@[i].0),
        decreases_to!(value => value->MapOf_0@[i].1),
{
    let entries = value->MapOf_0;
    assert(decreases_to!(value => entries));
    assert(decreases_to!(entries => entries@));
    assert(decreases_to!(entries@ => entries@[i]));
    assert(decreases_to!(entries@[i] => entries@[i].0));
    assert(decreases_to!(entries@[i] => entries@[i].1));
}

/// The numeral of a wide number, with its sign.
fn wide_signed_text(n: i128) -> (r: String)
    ensures
        r@ == ingest::number_text(n as int),
{
    if n < 0 {
        let size: u128 = (-(n + 1)) as u128 + 1;
        error::labelled("-", text::wide_decimal_text(size).as_str())
    } else {
        text::wide_decimal_text(n as u128)
    }
}

/// Values as JSON values.
fn items_to_json(items: &Vec<DuckValue>) -> (r: Vec<Json>)
    ensures
        r@.len() == items@.len(),
        forall|i: int| 0 <= i < items@.len() ==> (#[trigger] r@[i])@ == items@[i].tree(),
    decreases items,
{
    let mut r: Vec<Json> = Vec::new();
    for i in 0..items.len()
        invariant
            r@.len() == i,
            forall|j: int| 0 <= j < i ==> (#[trigger] r@[j])@ == items@[j].tree(),
    {
        assert(decreases_to!(items@ => items@[i as int]));
        r.push(duck_value_to_json(&items[i]));
    }
    r
}

/// A value as a JSON value.
pub fn duck_value_to_json(value: &DuckValue) -> (r: Json)
    ensures
        r@ == value.tree(),
    decreases value,
{
    match value {
        DuckValue::Null => Json::Null,
        DuckValue::Boolean(b) => json::boolean(*b),
        DuckValue::TinyInt(n) => json::signed(*n as i64),
        DuckValue::SmallInt(n) => json::signed(*n as i64),
        DuckValue::Int(n) => json::signed(*n as i64),
        DuckValue::BigInt(n) => json::signed(*n),
        DuckValue::HugeInt(n) => Json::Text(wide_signed_text(*n)),
        DuckValue::UTinyInt(n) => json::whole(*n as u64),
        DuckValue::USmallInt(n) => json::whole(*n as u64),
        DuckValue::UInt(n) => json::whole(*n as u64),
        DuckValue::UBigInt(n) => json::whole(*n),
        DuckValue::Float(held) => real_to_json(held),
        DuckValue::Double(held) => real_to_json(held),
        DuckValue::Decimal(shown) => json::string(shown.as_str()),
        DuckValue::Timestamp(n) => json::signed(*n),
        DuckValue::Text(shown) => json::string(shown.as_str()),
        DuckValue::Blob(bytes) => Json::Text(
            error::labelled("0x", bytes_to_hex(bytes.as_slice()).as_str()),
        ),
        DuckValue::Date32(n) => json::signed(*n as i64),
        DuckValue::Time64(n) => json::signed(*n),
        DuckValue::Interval { months, days, nanos } => {
            let mut object = Object::new();
            object.put("months", json::signed(*months as i64));
            object.put("days", json::signed(*days as i64));
            object.put("nanos", json::signed(*nanos));
            json::dict(object)
        },
        DuckValue::ListOf(items) => {
            let list: Vec<Json> = items_to_json(items);
            assert(json::trees(list@) =~= value.tree()->List_0);
            json::array(list)
        },
        DuckValue::ArrayOf(items) => {
            let list: Vec<Json> = items_to_json(items);
            assert(json::trees(list@) =~= value.tree()->List_0);
            json::array(list)
        },
        DuckValue::StructOf(entries) => {
            let mut object = Object::new();
            for i in 0..entries.len()
                invariant
                    *value == DuckValue::StructOf(*entries),
                    object@.len() == i,
                    forall|j: int|
                        0 <= j < i ==> #[trigger] object@[j] == (
                            entries@[j].0@,
                            entries@[j].1.tree(),
                        ),
            {
                proof {
                    lemma_field_smaller(*value, i as int);
                }
                object.put(entries[i].0.as_str(), duck_value_to_json(&entries[i].1));
            }
            assert(object@ =~= value.tree()->Dict_0);
            json::dict(object)
        },
        DuckValue::MapOf(entries) => {
            let mut list: Vec<Json> = Vec::new();
            for i in 0..entries.len()
                invariant
                    *value == DuckValue::MapOf(*entries),
                    list@.len() == i,
                    forall|j: int|
                        0 <= j < i ==> (#[trigger] list@[j])@ == pair_tree(
                            entries@[j].0.tree(),
                            entries@[j].1.tree(),
                        ),
            {
                proof {
                    lemma_pair_smaller(*value, i as int);
                }
                let mut object = Object::new();
                object.put("key", duck_value_to_json(&entries[i].0));
                object.put("value", duck_value_to_json(&entries[i].1));
                list.push(json::dict(object));
            }
            assert(json::trees(list@) =~= value.tree()->List_0);
            json::array(list)
        },
        DuckValue::UnionOf(inner) => duck_value_to_json(inner),
        DuckValue::EnumOf(shown) => json::string(shown.as_str()),
    }
}

fn real_to_json(held: &DuckReal) -> (r: Json)
    ensures
        r@ == real_tree(*held),
{
    match &held.number {
        Some(number) => Json::Number(Number::Real(number.clone())),
        None => Json::Text(held.shown.clone()),
    }
}

/// A whole number as a count: zero below zero.
pub open spec fn signed_count(n: int) -> usize {
    if n < 0 {
        0
    } else {
        (n as u64) as usize
    }
}

/// The count that a value stands for.
pub open spec fn count_of(value: DuckValue) -> usize {
    match value {
        DuckValue::TinyInt(n) => signed_count(n as int),
        DuckValue::SmallInt(n) => signed_count(n as int),
        DuckValue::Int(n) => signed_count(n as int),
        DuckValue::BigInt(n) => signed_count(n as int),
        DuckValue::HugeInt(n) => if 0 <= n <= usize::MAX {
            n as usize
        } else {
            usize::MAX
        },
        DuckValue::UTinyInt(n) => n as usize,
        DuckValue::USmallInt(n) => n as usize,
        DuckValue::UInt(n) => n as usize,
        DuckValue::UBigInt(n) => if n <= usize::MAX {
            n as usize
        } else {
            usize::MAX
        },
        DuckValue::Float(held) => held.count,
        DuckValue::Double(held) => held.count,
        DuckValue::Text(shown) => match text::parsed_u64(text::trim(shown@)) {
            Some(n) => if n <= usize::MAX {
                n as usize
            } else {
                0
            },
            None => 0,
        },
        _ => 0,
    }
}

fn count_signed(n: i64) -> (r: usize)
    ensures
        r == signed_count(n as int),
{
    if n < 0 {
        0
    } else {
        n as u64 as usize
    }
}

/// The count that a value stands for.
pub fn duck_value_to_usize(value: &DuckValue) -> (r: usize)
    ensures
        r == count_of(*value),
{
    match value {
        DuckValue::TinyInt(n) => count_signed(*n as i64),
        DuckValue::SmallInt(n) => count_signed(*n as i64),
        DuckValue::Int(n) => count_signed(*n as i64),
        DuckValue::BigInt(n) => count_signed(*n),
        DuckValue::HugeInt(n) => if *n >= 0 && *n <= usize::MAX as i128 {
            *n as usize
        } else {
            usize::MAX
        },
        DuckValue::UTinyInt(n) => *n as usize,
        DuckValue::USmallInt(n) => *n as usize,
        DuckValue::UInt(n) => *n as usize,
        DuckValue::UBigInt(n) => if *n <= usize::MAX as u64 {
            *n as usize
        } else {
            usize::MAX
        },
        DuckValue::Float(held) => held.count,
        DuckValue::Double(held) => held.count,
        DuckValue::Text(shown) => match text::parse_u64(text::trimmed(shown.as_str()).as_str()) {
            Some(n) => if n <= usize::MAX as u64 {
                n as usize
            } else {
                0
            },
            None => 0,
        },
        _ => 0,
    }
}

// ---------------------------------------------------------------------------
// Sizes.
// ---------------------------------------------------------------------------

/// How the engine writes a number of bytes: as a number, or as a number and a unit.
#[derive(Debug)]
pub enum SizeReading {
    /// So many bytes.
    Exact(u64),
    /// The number that `number` is, times `multiplier`.
    Scaled { number: String, multiplier: u64 },
}

/// What a reading of a size says.
#[verifier::ext_equal]
pub enum Size {
    Exact(u64),
    Scaled(Seq<char>, u64),
}

impl View for SizeReading {
    type V = Size;

    open spec fn view(&self) -> Size {
        match *self {
            SizeReading::Exact(n) => Size::Exact(n),
            SizeReading::Scaled { number, multiplier } => Size::Scaled(number@, multiplier),
        }
    }
}

/// How many bytes a unit has.
pub open spec fn unit_bytes(unit: Seq<char>) -> Option<u64> {
    if unit == "b"@ {
        Some(1)
    } else if unit == "kb"@ || unit == "kib"@ {
        Some(1024)
    } else if unit == "mb"@ || unit == "mib"@ {
        Some(1_048_576)
    } else if unit == "gb"@ || unit == "gib"@ {
        Some(1_073_741_824)
    } else if unit == "tb"@ || unit == "tib"@ {
        Some(1_099_511_627_776)
    } else {
        None
    }
}

/// A text without `suffix` at its end.
pub open spec fn without_suffix(held: Seq<char>, suffix: Seq<char>) -> Seq<char> {
    if text::ends(held, suffix) {
        held.take(held.len() - suffix.len())
    } else {
        held
    }
}

/// How a number of bytes is written; the number itself is not looked into.
pub open spec fn size_of(raw: Seq<char>) -> Option<Size> {
    let trimmed = text::trim(raw);
    match text::parsed_u64(trimmed) {
        Some(n) => Some(Size::Exact(n)),
        None => {
            let parts = text::words(
                without_suffix(without_suffix(text::lowered(trimmed), "bytes"@), "byte"@),
            );
            if parts.len() == 0 {
                None
            } else {
                match unit_bytes(
                    if parts.len() > 1 {
                        parts[1]
                    } else {
                        "b"@
                    },
                ) {
                    Some(multiplier) => Some(Size::Scaled(parts[0], multiplier)),
                    None => None,
                }
            }
        },
    }
}

/// What an optional reading says.
pub open spec fn opt_size(item: Option<SizeReading>) -> Option<Size> {
    match item {
        Some(reading) => Some(reading@),
        None => None,
    }
}

fn bytes_of_unit(unit: &str) -> (r: Option<u64>)
    ensures
        r == unit_bytes(unit@),
{
    if text::same_text(unit, "b") {
        Some(1)
    } else if text::same_text(unit, "kb") || text::same_text(unit, "kib") {
        Some(1024)
    } else if text::same_text(unit, "mb") || text::same_text(unit, "mib") {
        Some(1_048_576)
    } else if text::same_text(unit, "gb") || text::same_text(unit, "gib") {
        Some(1_073_741_824)
    } else if text::same_text(unit, "tb") || text::same_text(unit, "tib") {
        Some(1_099_511_627_776)
    } else {
        None
    }
}

fn strip_one(held: String, suffix: &str) -> (r: String)
    ensures
        r@ == without_suffix(held@, suffix@),
{
    match text::strip_suffix(held.as_str(), suffix) {
        Some(rest) => rest,
        None => held,
    }
}

/// How a number of bytes is written.
pub fn read_duckdb_size(raw: &str) -> (r: Option<SizeReading>)
    ensures
        opt_size(r) == size_of(raw@),
{
    let trimmed: String = text::trimmed(raw);
    match text::parse_u64(trimmed.as_str()) {
        Some(n) => {
            return Some(SizeReading::Exact(n));
        },
        None => {},
    }
    let normalized: String = strip_one(
        strip_one(text::to_lower(trimmed.as_str()), "bytes"),
        "byte",
    );
    let parts: Vec<String> = text::words_of(normalized.as_str());
    let ghost shown = text::texts(parts@);
    assert(shown.len() == parts@.len());
    if parts.len() == 0 {
        return None;
    }
    assert(shown[0] == parts@[0]@);
    let multiplier: Option<u64> = if parts.len() > 1 {
        assert(shown[1] == parts@[1]@);
        bytes_of_unit(parts[1].as_str())
    } else {
        bytes_of_unit("b")
    };
    match multiplier {
        Some(multiplier) => Some(SizeReading::Scaled { number: parts[0].clone(), multiplier }),
        None => None,
    }
}

/// Every value keeps what it says: numbers stay numbers, where JSON has them exactly, and are
/// shown by their digits where it does not; texts stay texts; lists keep their items in order.
pub proof fn law_values_keep_what_they_say(
    wide: i128,
    small: i64,
    large: u64,
    shown: String,
    bytes: Vec<u8>,
    items: Vec<DuckValue>,
    held: DuckReal,
    i: int,
)
    ensures
        DuckValue::Null.tree() == Tree::Null,
        DuckValue::Boolean(true).tree() == Tree::Bool(true),
        DuckValue::Boolean(false).tree() == Tree::Bool(false),
        DuckValue::BigInt(small).tree() == Tree::Whole(small as int),
        DuckValue::UBigInt(large).tree() == Tree::Whole(large as int),
        DuckValue::Timestamp(small).tree() == Tree::Whole(small as int),
        DuckValue::Time64(small).tree() == Tree::Whole(small as int),
        wide >= 0 ==> DuckValue::HugeInt(wide).tree() == Tree::Text(text::decimal(wide as nat)),
        wide < 0 ==> DuckValue::HugeInt(wide).tree() == Tree::Text(
            "-"@ + text::decimal((-wide) as nat),
        ),
        DuckValue::Text(shown).tree() == Tree::Text(shown@),
        DuckValue::Decimal(shown).tree() == Tree::Text(shown@),
        DuckValue::EnumOf(shown).tree() == Tree::Text(shown@),
        DuckValue::Blob(bytes).tree() == Tree::Text("0x"@ + hex_of(bytes@)),
        held.number matches Some(number) ==> DuckValue::Double(held).tree() == Tree::Real(number@)
            && DuckValue::Float(held).tree() == Tree::Real(number@),
        held.number is None ==> DuckValue::Double(held).tree() == Tree::Text(held.shown@)
            && DuckValue::Float(held).tree() == Tree::Text(held.shown@),
        DuckValue::ListOf(items).tree() matches Tree::List(told) && told.len() == items@.len() && (
        0 <= i < items@.len() ==> told[i] == items@[i].tree()),
        DuckValue::ArrayOf(items).tree() matches Tree::List(told) && told.len() == items@.len() && (
        0 <= i < items@.len() ==> told[i] == items@[i].tree()),
{
}

/// Small numbers keep their value, whatever their width.
pub proof fn law_small_numbers_keep_their_value(
    a: i8,
    b: i16,
    c: i32,
    d: u8,
    e: u16,
    f: u32,
)
    ensures
        DuckValue::TinyInt(a).tree() == Tree::Whole(a as int),
        DuckValue::SmallInt(b).tree() == Tree::Whole(b as int),
        DuckValue::Int(c).tree() == Tree::Whole(c as int),
        DuckValue::UTinyInt(d).tree() == Tree::Whole(d as int),
        DuckValue::USmallInt(e).tree() == Tree::Whole(e as int),
        DuckValue::UInt(f).tree() == Tree::Whole(f as int),
        DuckValue::Date32(c).tree() == Tree::Whole(c as int),
{
}

/// What is made of parts tells each of them: fields under their names, pairs as keys and
/// values, intervals by months, days and nanoseconds; and a union tells what it holds.
pub proof fn law_compound_values_tell_their_parts(
    fields: Vec<(String, DuckValue)>,
    pairs: Vec<(DuckValue, DuckValue)>,
    inner: Box<DuckValue>,
    months: i32,
    days: i32,
    nanos: i64,
    i: int,
)
    ensures
        DuckValue::UnionOf(inner).tree() == (*inner).tree(),
        DuckValue::StructOf(fields).tree() matches Tree::Dict(entries) && entries.len()
            == fields@.len() && (0 <= i < fields@.len() ==> entries[i].0 == fields@[i].0@
            && entries[i].1 == fields@[i].1.tree()),
        DuckValue::MapOf(pairs).tree() matches Tree::List(told) && told.len() == pairs@.len() && (0
            <= i < pairs@.len() ==> told[i].field("key"@) == Some(pairs@[i].0.tree())
            && told[i].field("value"@) == Some(pairs@[i].1.tree())),
        (DuckValue::Interval { months, days, nanos }).tree().field("months"@) == Some(
            Tree::Whole(months as int),
        ),
        (DuckValue::Interval { months, days, nanos }).tree().field("days"@) == Some(
            Tree::Whole(days as int),
        ),
        (DuckValue::Interval { months, days, nanos }).tree().field("nanos"@) == Some(
            Tree::Whole(nanos as int),
        ),
{
    broadcast use json::group_found;

    reveal_strlit("key");
    assert("key"@.len() == 3);
    reveal_strlit("value");
    assert("value"@.len() == 5);
    reveal_strlit("months");
    assert("months"@.len() == 6);
    reveal_strlit("days");
    assert("days"@.len() == 4);
    reveal_strlit("nanos");
    assert("nanos"@.len() == 5);
    assert("value"@[0] != "nanos"@[0]);
}

/// Bytes are shown by two digits each, the greater one first.
pub proof fn law_bytes_are_shown_by_two_digits(bytes: Seq<u8>, b: u8)
    ensures
        hex_of(Seq::<u8>::empty()).len() == 0,
        hex_of(bytes.push(b)) == hex_of(bytes) + seq![
            text::hex_digit((b / 16) as nat),
            text::hex_digit((b % 16) as nat),
        ],
        hex_of(bytes).len() == 2 * bytes.len(),
    decreases bytes.len(),
{
    assert(bytes.push(b).drop_last() =~= bytes);
    lemma_two_hex_digits(b);
    if bytes.len() > 0 {
        law_bytes_are_shown_by_two_digits(bytes.drop_last(), bytes.last());
        lemma_two_hex_digits(bytes.last());
    }
}

proof fn lemma_two_hex_digits(b: u8)
    ensures
        text::hex(b as nat, 2) == seq![
            text::hex_digit((b / 16) as nat),
            text::hex_digit((b % 16) as nat),
        ],
{
    reveal_with_fuel(text::hex, 3);
    assert(((b as nat) / 16) % 16 == (b as nat) / 16);
    assert(text::hex(b as nat, 2) =~= seq![
        text::hex_digit((b / 16) as nat),
        text::hex_digit((b % 16) as nat),
    ]);
}

/// The types of columns, by what their values are.
pub proof fn law_logical_types_go_by_the_values(data_type: DuckType)
    ensures
        logical_type(data_type) == "boolean"@ <==> data_type is Boolean,
        logical_type(data_type) == "integer"@ <==> (data_type is Int8 || data_type is Int16
            || data_type is Int32 || data_type is Int64 || data_type is UInt8 || data_type is UInt16
            || data_type is UInt32 || data_type is UInt64),
        logical_type(data_type) == "number"@ <==> (data_type is Float16 || data_type is Float32
            || data_type is Float64 || data_type is Decimal128 || data_type is Decimal256),
        logical_type(data_type) == "date"@ <==> (data_type is Date32 || data_type is Date64),
        logical_type(data_type) == "datetime"@ <==> data_type is Timestamp,
        logical_type(data_type) == "time"@ <==> (data_type is Time32 || data_type is Time64),
        logical_type(data_type) == "blob"@ <==> (data_type is Binary || data_type is LargeBinary
            || data_type is FixedSizeBinary),
        logical_type(data_type) == "string"@ <==> data_type is Other,
{
    reveal_strlit("boolean");
    assert("boolean"@.len() == 7);
    reveal_strlit("integer");
    assert("integer"@.len() == 7);
    reveal_strlit("number");
    assert("number"@.len() == 6);
    reveal_strlit("date");
    assert("date"@.len() == 4);
    reveal_strlit("datetime");
    assert("datetime"@.len() == 8);
    reveal_strlit("time");
    assert("time"@.len() == 4);
    reveal_strlit("blob");
    assert("blob"@.len() == 4);
    reveal_strlit("json");
    assert("json"@.len() == 4);
    reveal_strlit("string");
    assert("string"@.len() == 6);
    assert("boolean"@[0] != "integer"@[0]);
    assert("number"@[0] != "string"@[0]);
    assert("date"@[0] != "time"@[0]);
    assert("date"@[0] != "blob"@[0]);
    assert("date"@[0] != "json"@[0]);
    assert("time"@[0] != "blob"@[0]);
    assert("time"@[0] != "json"@[0]);
    assert("blob"@[0] != "json"@[0]);
}

/// A count is the number that a value is, from zero up.
pub proof fn law_counts_are_numbers(n: i64, m: u64, shown: String, k: u64)
    requires
        shown@ == text::decimal(k as nat),
        k <= usize::MAX,
    ensures
        0 <= n <= usize::MAX ==> count_of(DuckValue::BigInt(n)) == n,
        n < 0 ==> count_of(DuckValue::BigInt(n)) == 0,
        m <= usize::MAX ==> count_of(DuckValue::UBigInt(m)) == m,
        count_of(DuckValue::Text(shown)) == k,
        count_of(DuckValue::Null) == 0,
{
    text::law_decimal_reads_back(k);
    text::lemma_decimal(k as nat);
    let digits = text::decimal(k as nat);
    assert(text::is_digit(digits[0]) && text::is_digit(digits[digits.len() - 1]));
    text::law_tight_texts_are_not_trimmed(digits);
}

/// Units of memory, each a thousand and twenty-four times the one before.
pub proof fn law_units_of_memory(unit: Seq<char>)
    ensures
        unit_bytes("b"@) == Some(1u64),
        unit_bytes("kb"@) == Some(1024u64) && unit_bytes("kib"@) == Some(1024u64),
        unit_bytes("mb"@) == Some((1024 * 1024) as u64) && unit_bytes("mib"@) == unit_bytes("mb"@),
        unit_bytes("gb"@) == Some((1024 * 1024 * 1024) as u64) && unit_bytes("gib"@)
            == unit_bytes("gb"@),
        unit_bytes("tb"@) == Some((1024 * 1024 * 1024 * 1024) as u64) && unit_bytes("tib"@)
            == unit_bytes("tb"@),
        unit != "b"@ && unit != "kb"@ && unit != "kib"@ && unit != "mb"@ && unit != "mib"@ && unit
            != "gb"@ && unit != "gib"@ && unit != "tb"@ && unit != "tib"@ ==> unit_bytes(unit)
            is None,
{
    reveal_strlit("b");
    assert("b"@.len() == 1);
    reveal_strlit("kb");
    assert("kb"@.len() == 2);
    reveal_strlit("kib");
    assert("kib"@.len() == 3);
    reveal_strlit("mb");
    assert("mb"@.len() == 2);
    reveal_strlit("mib");
    assert("mib"@.len() == 3);
    reveal_strlit("gb");
    assert("gb"@.len() == 2);
    reveal_strlit("gib");
    assert("gib"@.len() == 3);
    reveal_strlit("tb");
    assert("tb"@.len() == 2);
    reveal_strlit("tib");
    assert("tib"@.len() == 3);
    assert("kb"@[0] != "mb"@[0]);
    assert("kb"@[0] != "gb"@[0]);
    assert("kb"@[0] != "tb"@[0]);
    assert("kib"@[0] != "mib"@[0]);
    assert("kib"@[0] != "gib"@[0]);
    assert("kib"@[0] != "tib"@[0]);
    assert("mb"@[0] != "gb"@[0]);
    assert("mb"@[0] != "tb"@[0]);
    assert("mib"@[0] != "gib"@[0]);
    assert("mib"@[0] != "tib"@[0]);
    assert("gb"@[0] != "tb"@[0]);
    assert("gib"@[0] != "tib"@[0]);
}

/// A numeral is a size in bytes.
pub proof fn law_numerals_are_sizes(n: u64)
    ensures
        size_of(text::decimal(n as nat)) == Some(Size::Exact(n)),
{
    text::law_decimal_reads_back(n);
    text::lemma_decimal(n as nat);
    let digits = text::decimal(n as nat);
    assert(text::is_digit(digits[0]) && text::is_digit(digits[digits.len() - 1]));
    text::law_tight_texts_are_not_trimmed(digits);
}

} // verus!
