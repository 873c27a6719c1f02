//! JSON values and their compact text.

use vstd::prelude::*;
use vstd::string::*;

use crate::ids::hex_digit;
use crate::text::{decimal, decimal_int, show_i64, show_u64};
use crate::text::same_text;

verus! {

/// A JSON number. A number with a fraction or an exponent is held by its
/// shortest decimal text.
#[derive(Debug, PartialEq, Eq)]
pub enum JsonNumber {
    /// A number from zero up.
    Unsigned(u64),
    /// A number below zero.
    Signed(i64),
    /// A number that is no integer, by its text.
    Float(String),
}

/// A JSON value. The entries of an object stand in the order in which they
/// are written.
#[derive(Debug, PartialEq, Eq)]
pub enum JsonValue {
    Null,
    Bool(bool),
    Number(JsonNumber),
    Text(String),
    Array(Vec<JsonValue>),
    Object(Vec<(String, JsonValue)>),
}

/// What a JSON value stands for.
pub enum Json {
    Null,
    Bool(bool),
    /// A number, by its numeral.
    Number(Seq<char>),
    Text(Seq<char>),
    Array(Seq<Json>),
    Object(Seq<(Seq<char>, Json)>),
}

/// The numeral of a JSON number.
pub open spec fn numeral(n: JsonNumber) -> Seq<char> {
    match n {
        JsonNumber::Unsigned(n) => decimal(n as nat),
        JsonNumber::Signed(n) => decimal_int(n as int),
        JsonNumber::Float(text) => text@,
    }
}

/// What a JSON value stands for.
pub open spec fn json_model(value: JsonValue) -> Json
    decreases value,
{
    match value {
        JsonValue::Null => Json::Null,
        JsonValue::Bool(b) => Json::Bool(b),
        JsonValue::Number(n) => Json::Number(numeral(n)),
        JsonValue::Text(s) => Json::Text(s@),
        JsonValue::Array(items) => Json::Array(items_model(items@)),
        JsonValue::Object(entries) => Json::Object(entries_model(entries@)),
    }
}

/// What the items of an array stand for.
pub open spec fn items_model(items: Seq<JsonValue>) -> Seq<Json>
    decreases items,
{
    if items.len() == 0 {
        Seq::empty()
    } else {
        items_model(items.drop_last()).push(json_model(items.last()))
    }
}

/// What the entries of an object stand for.
pub open spec fn entries_model(entries: Seq<(String, JsonValue)>) -> Seq<(Seq<char>, Json)>
    decreases entries,
{
    if entries.len() == 0 {
        Seq::empty()
    } else {
        entries_model(entries.drop_last()).push((entries.last().0@, json_model(entries.last().1)))
    }
}

impl View for JsonValue {
    type V = Json;

    open spec fn view(&self) -> Json {
        json_model(*self)
    }
}

/// The model of a list of items goes item by item.
pub proof fn items_model_index(items: Seq<JsonValue>)
    ensures
        items_model(items).len() == items.len(),
        forall|i: int| 0 <= i < items.len() ==> #[trigger] items_model(items)[i] == items[i]@,
    decreases items.len(),
{
    if items.len() > 0 {
        items_model_index(items.drop_last());
    }
}

/// The model of a list of entries goes entry by entry.
pub proof fn entries_model_index(entries: Seq<(String, JsonValue)>)
    ensures
        entries_model(entries).len() == entries.len(),
        forall|i: int|
            0 <= i < entries.len() ==> #[trigger] entries_model(entries)[i] == (
                entries[i].0@,
                entries[i].1@,
            ),
    decreases entries.len(),
{
    if entries.len() > 0 {
        entries_model_index(entries.drop_last());
    }
}

proof fn items_model_take(items: Seq<JsonValue>, n: int)
    requires
        0 <= n < items.len(),
    ensures
        items_model(items.take(n + 1)) == items_model(items.take(n)).push(items[n]@),
{
    assert(items.take(n + 1).drop_last() =~= items.take(n));
}

proof fn entries_model_take(entries: Seq<(String, JsonValue)>, n: int)
    requires
        0 <= n < entries.len(),
    ensures
        entries_model(entries.take(n + 1)) == entries_model(entries.take(n)).push(
            (entries[n].0@, entries[n].1@),
        ),
{
    assert(entries.take(n + 1).drop_last() =~= entries.take(n));
}

fn copy_number(n: &JsonNumber) -> (r: JsonNumber)
    ensures
        r == *n,
{
    match n {
        JsonNumber::Unsigned(n) => JsonNumber::Unsigned(*n),
        JsonNumber::Signed(n) => JsonNumber::Signed(*n),
        JsonNumber::Float(text) => JsonNumber::Float(text.clone()),
    }
}

impl JsonValue {
    /// A copy of the value.
    pub fn copy(&self) -> (r: JsonValue)
        ensures
            r@ == self@,
        decreases self,
    {
        match self {
            JsonValue::Null => JsonValue::Null,
            JsonValue::Bool(b) => JsonValue::Bool(*b),
            JsonValue::Number(n) => JsonValue::Number(copy_number(n)),
            JsonValue::Text(s) => JsonValue::Text(s.clone()),
            JsonValue::Array(items) => {
                let mut out: Vec<JsonValue> = Vec::new();
                let mut i: usize = 0;
                while i < items.len()
                    invariant
                        i <= items@.len(),
                        *self is Array,
                        self->Array_0 == *items,
                        items_model(out@) == items_model(items@.take(i as int)),
                    decreases items.len() - i,
                {
                    assert(decreases_to!(*self => self->Array_0));
                    assert(decreases_to!(*items => items[i as int]));
                    let item = items[i].copy();
                    proof {
                        items_model_take(items@, i as int);
                        assert(out@.push(item).drop_last() =~= out@);
                    }
                    out.push(item);
                    i += 1;
                }
                assert(items@.take(i as int) =~= items@);
                JsonValue::Array(out)
            },
            JsonValue::Object(entries) => {
                let mut out: Vec<(String, JsonValue)> = Vec::new();
                let mut i: usize = 0;
                while i < entries.len()
                    invariant
                        i <= entries@.len(),
                        *self is Object,
                        self->Object_0 == *entries,
                        entries_model(out@) == entries_model(entries@.take(i as int)),
                    decreases entries.len() - i,
                {
                    assert(decreases_to!(*self => self->Object_0));
                    assert(decreases_to!(*entries => entries[i as int]));
                    let value = entries[i].1.copy();
                    let entry = (entries[i].0.clone(), value);
                    proof {
                        entries_model_take(entries@, i as int);
                        assert(out@.push(entry).drop_last() =~= out@);
                    }
                    out.push(entry);
                    i += 1;
                }
                assert(entries@.take(i as int) =~= entries@);
                JsonValue::Object(out)
            },
        }
    }
}

/// A character as it stands in a JSON string: quote, backslash and the control
/// characters are escaped, five of them by a letter.
pub open spec fn escaped_char(c: char) -> Seq<char> {
    if c == '"' {
        seq!['\\', '"']
    } else if c == '\\' {
        seq!['\\', '\\']
    } else if c == '\u{8}' {
        seq!['\\', 'b']
    } else if c == '\t' {
        seq!['\\', 't']
    } else if c == '\n' {
        seq!['\\', 'n']
    } else if c == '\u{c}' {
        seq!['\\', 'f']
    } else if c == '\r' {
        seq!['\\', 'r']
    } else if ' ' > c {
        seq!['\\', 'u', '0', '0', hex_digit(c as int / 16), hex_digit(c as int % 16)]
    } else {
        seq![c]
    }
}

/// The characters of a text as they stand in a JSON string.
pub open spec fn escaped(text: Seq<char>) -> Seq<char>
    decreases text.len(),
{
    if text.len() == 0 {
        Seq::empty()
    } else {
        escaped(text.drop_last()) + escaped_char(text.last())
    }
}

/// The JSON string literal of a text, quotes and escapes included.
pub open spec fn string_literal(text: Seq<char>) -> Seq<char> {
    seq!['"'] + escaped(text) + seq!['"']
}

/// `serde_json::to_string` on a string writes its JSON string literal: the
/// text between double quotes, with quote, backslash and control characters
/// escaped.
#[verifier::external_body]
fn quoted(text: &str) -> (r: String)
    ensures
        r@ == string_literal(text@),
{
    serde_json::to_string(text).unwrap_or_default()
}

/// The compact text of a JSON value.
pub open spec fn json_text(value: Json) -> Seq<char>
    decreases value,
{
    match value {
        Json::Null => "null"@,
        Json::Bool(b) => if b {
            "true"@
        } else {
            "false"@
        },
        Json::Number(n) => n,
        Json::Text(s) => string_literal(s),
        Json::Array(items) => "["@ + items_text(items) + "]"@,
        Json::Object(entries) => "{"@ + entries_text(entries) + "}"@,
    }
}

/// The texts of array items, joined by commas.
pub open spec fn items_text(items: Seq<Json>) -> Seq<char>
    decreases items,
{
    if items.len() == 0 {
        Seq::empty()
    } else if items.len() == 1 {
        json_text(items.last())
    } else {
        items_text(items.drop_last()) + ","@ + json_text(items.last())
    }
}

/// The text of one object entry.
pub open spec fn entry_text(key: Seq<char>, value: Seq<char>) -> Seq<char> {
    string_literal(key) + ":"@ + value
}

/// The texts of object entries, joined by commas.
pub open spec fn entries_text(entries: Seq<(Seq<char>, Json)>) -> Seq<char>
    decreases entries,
{
    if entries.len() == 0 {
        Seq::empty()
    } else if entries.len() == 1 {
        entry_text(entries.last().0, json_text(entries.last().1))
    } else {
        entries_text(entries.drop_last()) + ","@ + entry_text(
            entries.last().0,
            json_text(entries.last().1),
        )
    }
}

impl JsonValue {
    /// The compact text of the value.
    pub fn to_text(&self) -> (r: String)
        ensures
            r@ == json_text(self@),
        decreases self,
    {
        match self {
            JsonValue::Null => "null".to_owned(),
            JsonValue::Bool(b) => if *b {
                "true".to_owned()
            } else {
                "false".to_owned()
            },
            JsonValue::Number(n) => match n {
                JsonNumber::Unsigned(n) => show_u64(*n),
                JsonNumber::Signed(n) => show_i64(*n),
                JsonNumber::Float(text) => text.clone(),
            },
            JsonValue::Text(s) => quoted(s.as_str()),
            JsonValue::Array(items) => {
                let mut out = String::new();
                let mut i: usize = 0;
                while i < items.len()
                    invariant
                        i <= items@.len(),
                        *self is Array,
                        self->Array_0 == *items,
                        out@ == items_text(items_model(items@.take(i as int))),
                        items_model(items@.take(i as int)).len() == i,
                    decreases items.len() - i,
                {
                    assert(decreases_to!(*self => self->Array_0));
                    assert(decreases_to!(*items => items[i as int]));
                    let item = items[i].to_text();
                    proof {
                        items_model_take(items@, i as int);
                        let m = items_model(items@.take(i as int));
                        assert(m.push(items@[i as int]@).drop_last() =~= m);
                    }
                    if i > 0 {
                        out.append(",");
                    }
                    out.append(item.as_str());
                    assert(i == 0 ==> out@ =~= item@);
                    i += 1;
                }
                assert(items@.take(i as int) =~= items@);
                let mut r = "[".to_owned();
                r.append(out.as_str());
                r.append("]");
                r
            },
            JsonValue::Object(entries) => {
                let mut out = String::new();
                let mut i: usize = 0;
                while i < entries.len()
                    invariant
                        i <= entries@.len(),
                        *self is Object,
                        self->Object_0 == *entries,
                        out@ == entries_text(entries_model(entries@.take(i as int))),
                        entries_model(entries@.take(i as int)).len() == i,
                    decreases entries.len() - i,
                {
                    assert(decreases_to!(*self => self->Object_0));
                    assert(decreases_to!(*entries => entries[i as int]));
                    let value = entries[i].1.to_text();
                    let mut entry = quoted(entries[i].0.as_str());
                    entry.append(":");
                    entry.append(value.as_str());
                    proof {
                        entries_model_take(entries@, i as int);
                        let m = entries_model(entries@.take(i as int));
                        assert(m.push((entries@[i as int].0@, entries@[i as int].1@)).drop_last()
                            =~= m);
                    }
                    if i > 0 {
                        out.append(",");
                    }
                    out.append(entry.as_str());
                    assert(i == 0 ==> out@ =~= entry@);
                    i += 1;
                }
                assert(entries@.take(i as int) =~= entries@);
                let mut r = "{".to_owned();
                r.append(out.as_str());
                r.append("}");
                r
            },
        }
    }

    /// The value of a key of an object; nothing on another kind of value.
    pub fn get(&self, key: &str) -> (r: Option<&JsonValue>)
        ensures
            match r {
                Some(v) => self@ matches Json::Object(entries) && lookup(entries, key@) == Some(v@),
                None => self@ matches Json::Object(entries) ==> lookup(entries, key@) is None,
            },
    {
        match self {
            JsonValue::Object(entries) => {
                proof {
                    entries_model_index(entries@);
                    assert(entries_model(entries@).take(entries@.len() as int) =~= entries_model(
                        entries@,
                    ));
                }
                let mut i: usize = entries.len();
                while i > 0
                    invariant
                        i <= entries@.len(),
                        self@ == Json::Object(entries_model(entries@)),
                        entries_model(entries@).len() == entries@.len(),
                        forall|j: int|
                            0 <= j < entries@.len() ==> #[trigger] entries_model(entries@)[j] == (
                                entries@[j].0@,
                                entries@[j].1@,
                            ),
                        lookup(entries_model(entries@), key@) == lookup(
                            entries_model(entries@).take(i as int),
                            key@,
                        ),
                    decreases i,
                {
                    i -= 1;
                    assert(entries_model(entries@).take(i + 1).drop_last() =~= entries_model(
                        entries@,
                    ).take(i as int));
                    assert(entries_model(entries@).take(i + 1).last() == entries_model(
                        entries@,
                    )[i as int]);
                    if same_text(entries[i].0.as_str(), key) {
                        return Some(&entries[i].1);
                    }
                }
                None
            },
            _ => None,
        }
    }

    /// The text of a JSON string; nothing on another kind of value.
    pub fn as_str(&self) -> (r: Option<&str>)
        ensures
            match r {
                Some(s) => self@ == Json::Text(s@),
                None => !(self@ is Text),
            },
    {
        match self {
            JsonValue::Text(s) => Some(s.as_str()),
            _ => None,
        }
    }
}

/// The value of the last entry of a key.
pub open spec fn lookup(entries: Seq<(Seq<char>, Json)>, key: Seq<char>) -> Option<Json>
    decreases entries.len(),
{
    if entries.len() == 0 {
        None
    } else if entries.last().0 == key {
        Some(entries.last().1)
    } else {
        lookup(entries.drop_last(), key)
    }
}

/// The outside form of a JSON value.
#[verifier::external_type_specification]
#[verifier::external_body]
pub struct ExTree(serde_json::Value);

/// The JSON value that a text reads as, where it reads as one.
pub uninterp spec fn parsed_json(text: Seq<char>) -> Option<Json>;

/// What an outside JSON value holds.
pub uninterp spec fn tree_content(tree: serde_json::Value) -> Json;

/// `serde_json::from_str` into `serde_json::Value` reads a text as JSON, by the
/// text alone; nothing where it is none.
#[verifier::external_body]
fn read_tree(text: &str) -> (r: Option<serde_json::Value>)
    ensures
        match r {
            Some(tree) => parsed_json(text@) == Some(tree_content(tree)),
            None => parsed_json(text@) is None,
        },
{
    serde_json::from_str(text).ok()
}

/// Takes a `serde_json::Value` apart, variant by variant: a number that is no
/// integer is held by the text that `serde_json::Number` writes.
#[verifier::external_body]
fn value_of(tree: serde_json::Value) -> (r: JsonValue)
    ensures
        r@ == tree_content(tree),
{
    match tree {
        serde_json::Value::Null => JsonValue::Null,
        serde_json::Value::Bool(b) => JsonValue::Bool(b),
        serde_json::Value::Number(n) => JsonValue::Number(match (n.as_u64(), n.as_i64()) {
            (Some(u), _) => JsonNumber::Unsigned(u),
            (None, Some(i)) => JsonNumber::Signed(i),
            (None, None) => JsonNumber::Float(n.to_string()),
        }),
        serde_json::Value::String(s) => JsonValue::Text(s),
        serde_json::Value::Array(a) => JsonValue::Array(a.into_iter().map(value_of).collect()),
        serde_json::Value::Object(o) => JsonValue::Object(
            o.into_iter().map(|e| (e.0, value_of(e.1))).collect(),
        ),
    }
}

/// Reads a text as JSON; nothing where it is none.
pub fn parse_json(text: &str) -> (r: Option<JsonValue>)
    ensures
        match r {
            Some(value) => parsed_json(text@) == Some(value@),
            None => parsed_json(text@) is None,
        },
{
    match read_tree(text) {
        Some(tree) => Some(value_of(tree)),
        None => None,
    }
}

/// An object gives back what was put under a key last, and putting under one
/// key changes no other.
pub proof fn last_entry_of_a_key_counts(
    entries: Seq<(Seq<char>, Json)>,
    key: Seq<char>,
    value: Json,
    other: Seq<char>,
)
    requires
        other != key,
    ensures
        lookup(Seq::empty(), key) is None,
        lookup(entries.push((key, value)), key) == Some(value),
        lookup(entries.push((key, value)), other) == lookup(entries, other),
{
    assert(entries.push((key, value)).drop_last() =~= entries);
}

/// The text of a JSON string holds no control character and ends in the quote
/// that it begins with.
pub proof fn string_literals_are_one_line(text: Seq<char>, i: int)
    ensures
        string_literal(text).len() >= 2,
        string_literal(text)[0] == '"',
        string_literal(text).last() == '"',
        0 <= i < string_literal(text).len() ==> string_literal(text)[i] >= ' ',
{
    escaped_is_printable(text);
}

proof fn escaped_char_is_printable(c: char)
    ensures
        forall|i: int| 0 <= i < escaped_char(c).len() ==> #[trigger] escaped_char(c)[i] >= ' ',
{
    assert forall|i: int| 0 <= i < escaped_char(c).len() implies #[trigger] escaped_char(c)[i]
        >= ' ' by {
        if ' ' > c {
            assert(0 <= c as int / 16 < 16);
            assert(0 <= c as int % 16 < 16);
            assert(hex_digit(c as int / 16) >= ' ');
            assert(hex_digit(c as int % 16) >= ' ');
        }
    }
}

proof fn escaped_is_printable(text: Seq<char>)
    ensures
        forall|i: int| 0 <= i < escaped(text).len() ==> #[trigger] escaped(text)[i] >= ' ',
    decreases text.len(),
{
    if text.len() > 0 {
        let rest = escaped(text.drop_last());
        let c = text.last();
        escaped_is_printable(text.drop_last());
        escaped_char_is_printable(c);
        assert forall|i: int| 0 <= i < escaped(text).len() implies #[trigger] escaped(text)[i]
            >= ' ' by {
            if i < rest.len() {
                assert(escaped(text)[i] == rest[i]);
            } else {
                assert(escaped(text)[i] == escaped_char(c)[i - rest.len()]);
            }
        }
    }
}

/// The text of an array lists the texts of its items in order, that of an object
/// its keys with the texts of their values, with commas between them.
pub proof fn texts_list_items_and_entries(
    items: Seq<Json>,
    item: Json,
    entries: Seq<(Seq<char>, Json)>,
    key: Seq<char>,
    value: Json,
)
    ensures
        json_text(Json::Array(items)) == "["@ + items_text(items) + "]"@,
        json_text(Json::Object(entries)) == "{"@ + entries_text(entries) + "}"@,
        items_text(Seq::empty()).len() == 0,
        items_text(seq![item]) == json_text(item),
        items.len() > 0 ==> items_text(items.push(item)) == items_text(items) + ","@ + json_text(
            item,
        ),
        entries_text(Seq::empty()).len() == 0,
        entries_text(seq![(key, value)]) == string_literal(key) + ":"@ + json_text(value),
        entries.len() > 0 ==> entries_text(entries.push((key, value))) == entries_text(entries)
            + ","@ + (string_literal(key) + ":"@ + json_text(value)),
        json_text(Json::Bool(true)) == "true"@,
        json_text(Json::Bool(false)) == "false"@,
        json_text(Json::Null) == "null"@,
        json_text(Json::Text(key)) == string_literal(key),
        json_text(Json::Number(key)) == key,
{
    assert(items.push(item).drop_last() =~= items);
    assert(entries.push((key, value)).drop_last() =~= entries);
    assert(seq![item].last() == item);
    assert(seq![(key, value)].last() == (key, value));
}

/// What a JSON value stands for is of its own kind and content.
pub proof fn values_stand_for_themselves(value: JsonValue)
    ensures
        value is Null <==> value@ is Null,
        value is Bool <==> value@ is Bool,
        value is Number <==> value@ is Number,
        value is Text <==> value@ is Text,
        value is Array <==> value@ is Array,
        value is Object <==> value@ is Object,
        value matches JsonValue::Bool(b) ==> value@ == Json::Bool(b),
        value matches JsonValue::Text(s) ==> value@ == Json::Text(s@),
        value matches JsonValue::Number(JsonNumber::Unsigned(n)) ==> value@ == Json::Number(
            decimal(n as nat),
        ),
        value matches JsonValue::Number(JsonNumber::Float(text)) ==> value@ == Json::Number(text@),
{
}

} // verus!
