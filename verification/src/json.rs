//! The JSON values that the message schema is decoded from.

use vstd::prelude::*;
use crate::error::{CargoError, CargoErrorView, ErrorKind};

verus! {

/// A JSON value as mathematics sees it.
pub enum JsonView {
    Null,
    Bool(bool),
    Unsigned(u64),
    Number,
    Str(Seq<char>),
    Array(Seq<JsonView>),
    Object(Seq<(Seq<char>, JsonView)>),
}

/// A JSON value. A number that is no unsigned integer of 64 bits (a negative
/// or a fractional one) is kept as `Number`: no field of the schema reads it.
#[derive(Debug, PartialEq, Eq)]
pub enum Json {
    Null,
    Bool(bool),
    Unsigned(u64),
    Number,
    Str(String),
    Array(Vec<Json>),
    Object(Vec<(String, Json)>),
}

impl View for Json {
    type V = JsonView;

    open spec fn view(&self) -> JsonView
        decreases self,
    {
        match self {
            Json::Null => JsonView::Null,
            Json::Bool(b) => JsonView::Bool(*b),
            Json::Unsigned(n) => JsonView::Unsigned(*n),
            Json::Number => JsonView::Number,
            Json::Str(s) => JsonView::Str(s@),
            Json::Array(items) => JsonView::Array(items_view(items@)),
            Json::Object(entries) => JsonView::Object(entries_view(entries@)),
        }
    }
}

/// The views of the items of an array, in their order.
pub open spec fn items_view(items: Seq<Json>) -> Seq<JsonView>
    decreases items,
{
    if items.len() == 0 {
        Seq::empty()
    } else {
        items_view(items.drop_last()).push(items.last()@)
    }
}

/// The entries of an object, in their order, each key with the view of its
/// value.
pub open spec fn entries_view(entries: Seq<(String, Json)>) -> Seq<(Seq<char>, JsonView)>
    decreases entries,
{
    if entries.len() == 0 {
        Seq::empty()
    } else {
        entries_view(entries.drop_last()).push((entries.last().0@, entries.last().1@))
    }
}

/// `items_view` item by item.
pub proof fn lemma_items_view(items: Seq<Json>)
    ensures
        items_view(items).len() == items.len(),
        forall|i: int| 0 <= i < items.len() ==> items_view(items)[i] == (#[trigger] items[i])@,
    decreases items.len(),
{
    if items.len() > 0 {
        lemma_items_view(items.drop_last());
        assert(items_view(items) == items_view(items.drop_last()).push(items.last()@));
        assert(items_view(items).len() == items.len());
        assert forall|i: int| 0 <= i < items.len() implies items_view(items)[i] == (
        #[trigger] items[i])@ by {
            if i < items.len() - 1 {
                assert(items.drop_last()[i] == items[i]);
            }
        }
    }
}

/// `entries_view` entry by entry.
pub proof fn lemma_entries_view(entries: Seq<(String, Json)>)
    ensures
        entries_view(entries).len() == entries.len(),
        forall|i: int|
            0 <= i < entries.len() ==> entries_view(entries)[i] == (
                (#[trigger] entries[i]).0@,
                entries[i].1@,
            ),
    decreases entries.len(),
{
    if entries.len() > 0 {
        lemma_entries_view(entries.drop_last());
        assert(entries_view(entries) == entries_view(entries.drop_last()).push(
            (entries.last().0@, entries.last().1@),
        ));
        assert forall|i: int| 0 <= i < entries.len() implies entries_view(entries)[i] == (
            (#[trigger] entries[i]).0@,
            entries[i].1@,
        ) by {
            if i < entries.len() - 1 {
                assert(entries.drop_last()[i] == entries[i]);
            }
        }
    }
}

/// The view of an array, item by item.
pub proof fn lemma_array_view(j: Json)
    requires
        j is Array,
    ensures
        j@ == JsonView::Array(items_view(j->Array_0@)),
        j@->Array_0.len() == j->Array_0@.len(),
        forall|i: int|
            #![trigger j@->Array_0[i]]
            #![trigger j->Array_0@[i]]
            0 <= i < j->Array_0@.len() ==> j@->Array_0[i] == j->Array_0@[i]@,
{
    lemma_items_view(j->Array_0@);
}

/// The view of an object, entry by entry.
pub proof fn lemma_object_view(j: Json)
    requires
        j is Object,
    ensures
        j@ == JsonView::Object(entries_view(j->Object_0@)),
        j@->Object_0.len() == j->Object_0@.len(),
        forall|i: int|
            #![trigger j@->Object_0[i]]
            #![trigger j->Object_0@[i]]
            0 <= i < j->Object_0@.len() ==> j@->Object_0[i] == (
                j->Object_0@[i].0@,
                j->Object_0@[i].1@,
            ),
{
    lemma_entries_view(j->Object_0@);
}

/// `serde_json::Value`, the tree that the JSON parser builds. Nothing of it is
/// visible here: `value_json` names what it holds.
#[verifier::external_type_specification]
#[verifier::external_body]
pub struct ExValue(serde_json::Value);

/// The JSON value that a `serde_json::Value` holds.
pub uninterp spec fn value_json(v: serde_json::Value) -> JsonView;

/// What `serde_json::from_str` makes of a text: the JSON value it holds, or
/// `None` where the parser rejects it.
pub uninterp spec fn text_json(text: Seq<char>) -> Option<JsonView>;

/// The words with which `serde_json::from_str` rejects a text: what its
/// error displays. Nothing is said of them where the parser accepts the text.
pub uninterp spec fn text_error(text: Seq<char>) -> Seq<char>;

/// `serde_json::from_str` at the type `serde_json::Value`, and `to_string`
/// on the error it returns. Not proved: that it succeeds exactly on the texts
/// on which `text_json` is defined, that the tree it returns holds that
/// value, and that the words of its error depend on the text alone.
#[verifier::external_body]
fn parse_value(text: &str) -> (r: Result<serde_json::Value, String>)
    ensures
        r is Ok <==> text_json(text@) is Some,
        r is Ok ==> value_json(r->Ok_0) == text_json(text@)->Some_0,
        r is Err ==> r->Err_0@ == text_error(text@),
{
    match serde_json::from_str::<serde_json::Value>(text) {
        Ok(v) => Ok(v),
        Err(e) => Err(e.to_string()),
    }
}

/// `serde_json::Value::is_null`. Not proved: that it tells `null` from every
/// other value.
#[verifier::external_body]
fn value_is_null(v: &serde_json::Value) -> (r: bool)
    ensures
        r == (value_json(*v) is Null),
{
    v.is_null()
}

/// `serde_json::Value::as_bool`. Not proved: that it returns the boolean of a
/// JSON boolean and `None` for every other value.
#[verifier::external_body]
fn value_as_bool(v: &serde_json::Value) -> (r: Option<bool>)
    ensures
        r == (match value_json(*v) {
            JsonView::Bool(b) => Some(b),
            _ => None,
        }),
{
    v.as_bool()
}

/// `serde_json::Value::as_u64`. Not proved: that it returns the number of a
/// JSON number that is an unsigned integer of 64 bits and `None` for every
/// other value.
#[verifier::external_body]
fn value_as_u64(v: &serde_json::Value) -> (r: Option<u64>)
    ensures
        r == (match value_json(*v) {
            JsonView::Unsigned(n) => Some(n),
            _ => None,
        }),
{
    v.as_u64()
}

/// `serde_json::Value::as_str`. Not proved: that it returns the characters of
/// a JSON string and `None` for every other value.
#[verifier::external_body]
fn value_as_str(v: &serde_json::Value) -> (r: Option<&str>)
    ensures
        r is Some <==> value_json(*v) is Str,
        r is Some ==> r->Some_0@ == value_json(*v)->Str_0,
{
    v.as_str()
}

/// `serde_json::Value::as_array`. Not proved: that it returns the items of a
/// JSON array, in their order, and `None` for every other value.
#[verifier::external_body]
fn value_as_array(v: &serde_json::Value) -> (r: Option<&Vec<serde_json::Value>>)
    ensures
        r is Some <==> value_json(*v) is Array,
        r is Some ==> r->Some_0@.len() == value_json(*v)->Array_0.len(),
        r is Some ==> forall|i: int|
            0 <= i < r->Some_0@.len() ==> value_json(#[trigger] r->Some_0@[i]) == value_json(
                *v,
            )->Array_0[i],
{
    v.as_array()
}

/// `serde_json::Value::as_object`, and `serde_json::Map::iter` on the map it
/// returns. Not proved: that they give the entries of a JSON object, each key
/// with its value, in the map's order, and `None` for every other value.
#[verifier::external_body]
fn value_entries(v: &serde_json::Value) -> (r: Option<Vec<(&String, &serde_json::Value)>>)
    ensures
        r is Some <==> value_json(*v) is Object,
        r is Some ==> r->Some_0@.len() == value_json(*v)->Object_0.len(),
        r is Some ==> forall|i: int|
            0 <= i < r->Some_0@.len() ==> (#[trigger] r->Some_0@[i]).0@ == value_json(
                *v,
            )->Object_0[i].0 && value_json(*r->Some_0@[i].1) == value_json(*v)->Object_0[i].1,
{
    v.as_object().map(|m| m.iter().collect())
}

/// Copies a parsed tree into a `Json`.
fn lift(v: &serde_json::Value) -> (j: Json)
    ensures
        j@ == value_json(*v),
    decreases value_json(*v),
{
    if value_is_null(v) {
        return Json::Null;
    }
    if let Some(b) = value_as_bool(v) {
        return Json::Bool(b);
    }
    if let Some(n) = value_as_u64(v) {
        return Json::Unsigned(n);
    }
    if let Some(s) = value_as_str(v) {
        return Json::Str(s.to_owned());
    }
    if let Some(values) = value_as_array(v) {
        let ghost model = value_json(*v)->Array_0;
        let mut items: Vec<Json> = Vec::new();
        let mut i: usize = 0;
        while i < values.len()
            invariant
                i <= values@.len(),
                values@.len() == model.len(),
                value_json(*v) == JsonView::Array(model),
                forall|k: int| 0 <= k < values@.len() ==> value_json(#[trigger] values@[k]) == model[k],
                items@.len() == i,
                forall|k: int| 0 <= k < i ==> (#[trigger] items@[k])@ == model[k],
            decreases values@.len() - i,
        {
            proof {
                assert(value_json(values@[i as int]) == model[i as int]);
                vstd::seq::axiom_seq_index_decreases(model, i as int);
                assert(value_json(*v) is Array);
                assert(decreases_to!(value_json(*v) => value_json(*v)->Array_0));
            }
            let item = lift(&values[i]);
            items.push(item);
            i += 1;
        }
        let j = Json::Array(items);
        proof {
            lemma_array_view(j);
            assert(j@->Array_0 =~= model);
        }
        return j;
    }
    if let Some(pairs) = value_entries(v) {
        let ghost model = value_json(*v)->Object_0;
        let mut entries: Vec<(String, Json)> = Vec::new();
        let mut i: usize = 0;
        while i < pairs.len()
            invariant
                i <= pairs@.len(),
                pairs@.len() == model.len(),
                value_json(*v) == JsonView::Object(model),
                forall|k: int|
                    0 <= k < pairs@.len() ==> (#[trigger] pairs@[k]).0@ == model[k].0 && value_json(
                        *pairs@[k].1,
                    ) == model[k].1,
                entries@.len() == i,
                forall|k: int|
                    0 <= k < i ==> (#[trigger] entries@[k]).0@ == model[k].0 && entries@[k].1@
                        == model[k].1,
            decreases pairs@.len() - i,
        {
            proof {
                assert(pairs@[i as int].0@ == model[i as int].0);
                vstd::seq::axiom_seq_index_decreases(model, i as int);
                assert(value_json(*v) is Object);
                assert(decreases_to!(value_json(*v) => value_json(*v)->Object_0));
                assert(decreases_to!(model[i as int] => model[i as int].1));
            }
            let key: String = pairs[i].0.clone();
            let value = lift(pairs[i].1);
            entries.push((key, value));
            i += 1;
        }
        let j = Json::Object(entries);
        proof {
            lemma_object_view(j);
            assert(j@->Object_0 =~= model);
        }
        return j;
    }
    Json::Number
}

/// The failure to parse a text: `InvalidOutput`, no context, and the
/// parser's own words as the cause.
pub open spec fn parse_failure(text: Seq<char>) -> CargoErrorView {
    CargoErrorView {
        kind: ErrorKind::InvalidOutput,
        context: None,
        cause: Some(text_error(text)),
    }
}

impl Json {
    /// Parses one JSON value out of `text`. Succeeds exactly on the texts that
    /// the parser accepts; every other text is `InvalidOutput`, with the
    /// parser's words as the cause.
    pub fn parse(text: &str) -> (r: Result<Json, CargoError>)
        ensures
            r is Ok <==> text_json(text@) is Some,
            r is Ok ==> r->Ok_0@ == text_json(text@)->Some_0,
            r is Err ==> r->Err_0@ == parse_failure(text@),
    {
        match parse_value(text) {
            Ok(v) => Ok(lift(&v)),
            Err(words) => Err(CargoError::new(ErrorKind::InvalidOutput).set_cause(words)),
        }
    }
}

/// The value of the first entry at or after `from` whose key is `key`.
pub open spec fn find(entries: Seq<(Seq<char>, JsonView)>, key: Seq<char>, from: int) -> Option<
    JsonView,
>
    decreases entries.len() - from,
{
    if from < 0 || from >= entries.len() {
        None
    } else if entries[from].0 == key {
        Some(entries[from].1)
    } else {
        find(entries, key, from + 1)
    }
}

impl JsonView {
    /// The member `key` of an object: the value of its first entry with that
    /// key. `None` where there is no such entry, or the value is no object.
    pub open spec fn member(self, key: Seq<char>) -> Option<JsonView> {
        match self {
            JsonView::Object(entries) => find(entries, key, 0),
            _ => None,
        }
    }

    /// The characters of a string; `None` for every other value.
    pub open spec fn text(self) -> Option<Seq<char>> {
        match self {
            JsonView::Str(s) => Some(s),
            _ => None,
        }
    }

    /// The boolean of a boolean; `None` for every other value.
    pub open spec fn flag(self) -> Option<bool> {
        match self {
            JsonView::Bool(b) => Some(b),
            _ => None,
        }
    }

    /// The number of an unsigned integer; `None` for every other value.
    pub open spec fn unsigned(self) -> Option<u64> {
        match self {
            JsonView::Unsigned(n) => Some(n),
            _ => None,
        }
    }

    /// The items of an array; `None` for every other value.
    pub open spec fn items(self) -> Option<Seq<JsonView>> {
        match self {
            JsonView::Array(items) => Some(items),
            _ => None,
        }
    }
}

/// The entry found is the first one with the key.
pub proof fn lemma_find_first(entries: Seq<(Seq<char>, JsonView)>, key: Seq<char>, from: int, at: int)
    requires
        0 <= from <= at < entries.len(),
        entries[at].0 == key,
        forall|k: int| from <= k < at ==> entries[k].0 != key,
    ensures
        find(entries, key, from) == Some(entries[at].1),
    decreases at - from,
{
    if from < at {
        lemma_find_first(entries, key, from + 1, at);
    }
}

impl Json {
    /// The member `key` of an object.
    pub fn get(&self, key: &str) -> (r: Option<&Json>)
        ensures
            r is Some <==> self@.member(key@) is Some,
            r is Some ==> r->Some_0@ == self@.member(key@)->Some_0,
    {
        match self {
            Json::Object(entries) => {
                let wanted: String = key.to_owned();
                let mut i: usize = 0;
                proof {
                    lemma_object_view(*self);
                }
                while i < entries.len()
                    invariant
                        i <= entries@.len(),
                        wanted@ == key@,
                        self@ is Object,
                        self@->Object_0.len() == entries@.len(),
                        forall|k: int|
                            0 <= k < entries@.len() ==> (#[trigger] self@->Object_0[k]) == (
                                entries@[k].0@,
                                entries@[k].1@,
                            ),
                        find(self@->Object_0, key@, 0) == find(self@->Object_0, key@, i as int),
                    decreases entries@.len() - i,
                {
                    if entries[i].0 == wanted {
                        proof {
                            assert(self@->Object_0[i as int].0 == key@);
                        }
                        return Some(&entries[i].1);
                    }
                    proof {
                        assert(self@->Object_0[i as int].0 != key@);
                    }
                    i += 1;
                }
                None
            },
            _ => None,
        }
    }

    /// The characters of a string.
    pub fn as_str(&self) -> (r: Option<&str>)
        ensures
            r is Some <==> self@.text() is Some,
            r is Some ==> r->Some_0@ == self@.text()->Some_0,
    {
        match self {
            Json::Str(s) => Some(s.as_str()),
            _ => None,
        }
    }

    /// The boolean of a boolean.
    pub fn as_bool(&self) -> (r: Option<bool>)
        ensures
            r == self@.flag(),
    {
        match self {
            Json::Bool(b) => Some(*b),
            _ => None,
        }
    }

    /// The number of an unsigned integer.
    pub fn as_u64(&self) -> (r: Option<u64>)
        ensures
            r == self@.unsigned(),
    {
        match self {
            Json::Unsigned(n) => Some(*n),
            _ => None,
        }
    }

    /// The items of an array.
    pub fn as_array(&self) -> (r: Option<&Vec<Json>>)
        ensures
            r is Some <==> self@.items() is Some,
            r is Some ==> items_view(r->Some_0@) == self@.items()->Some_0,
    {
        match self {
            Json::Array(items) => {
                proof {
                    lemma_array_view(*self);
                }
                Some(items)
            },
            _ => None,
        }
    }

    /// Whether this is `null`.
    pub fn is_null(&self) -> (r: bool)
        ensures
            r == (self@ is Null),
    {
        match self {
            Json::Null => true,
            _ => false,
        }
    }
}

} // verus!
