//! JSON documents as plain values, and their way into and out of `serde_json`.

use crate::text;
use serde_json::{Number, Value};
use vstd::prelude::*;

verus! {

/// A JSON document.
///
/// An object is the list of its entries; of entries with the same key the last one counts.
#[derive(Debug)]
pub enum Json {
    Null,
    Bool(bool),
    /// An integer that fits in 64 bits with a sign.
    Int(i64),
    /// Any other number, carried as `serde_json` holds it.
    Number(Number),
    Str(String),
    Array(Vec<Json>),
    Object(Vec<(String, Json)>),
}

/// What a [`Json`] stands for.
pub enum JsonView {
    Null,
    Bool(bool),
    Int(i64),
    Number(Number),
    Str(Seq<char>),
    Array(Seq<JsonView>),
    Object(Map<Seq<char>, JsonView>),
}

/// One level of a [`Value`].
pub(crate) enum Parts {
    Null,
    Bool(bool),
    Number(Number),
    Str(String),
    Array(Vec<Value>),
    Object(Vec<(String, Value)>),
}

/// `serde_json::Value`, a JSON document of that crate.
#[verifier::external_type_specification]
#[verifier::external_body]
pub struct ExValue(serde_json::Value);

/// `serde_json::Number`, a JSON number of that crate.
#[verifier::external_type_specification]
#[verifier::external_body]
pub struct ExNumber(serde_json::Number);

/// The document that a `Value` holds.
pub uninterp spec fn document(v: Value) -> JsonView;

/// What `Number::as_i64` returns.
pub uninterp spec fn number_i64(n: Number) -> Option<i64>;

/// What `serde_json::from_str` makes of a text: a document, or the text of its error.
pub uninterp spec fn json_parse(text: Seq<char>) -> Result<JsonView, Seq<char>>;

/// The compact text that `Value::to_string` writes for a document.
pub uninterp spec fn json_text(doc: JsonView) -> Seq<char>;

/// A number by its integer value where it has one.
pub open spec fn number_model(n: Number) -> JsonView {
    match number_i64(n) {
        Some(i) => JsonView::Int(i),
        None => JsonView::Number(n),
    }
}

pub(crate) open spec fn parts_model(p: Parts) -> JsonView {
    match p {
        Parts::Null => JsonView::Null,
        Parts::Bool(b) => JsonView::Bool(b),
        Parts::Number(n) => number_model(n),
        Parts::Str(s) => JsonView::Str(s@),
        Parts::Array(items) => JsonView::Array(
            Seq::new(items@.len(), |i: int| document(items@[i])),
        ),
        Parts::Object(entries) => JsonView::Object(value_entries(entries@)),
    }
}

/// Whether no two entries have the same key.
pub open spec fn distinct_keys(entries: Seq<(String, Value)>) -> bool {
    forall|i: int, j: int|
        0 <= i < j < entries.len() ==> #[trigger] entries[i].0@ != #[trigger] entries[j].0@
}

/// The map of a list of entries, of which a later one replaces an earlier one.
pub open spec fn value_entries(entries: Seq<(String, Value)>) -> Map<Seq<char>, JsonView>
    decreases entries.len(),
{
    if entries.len() == 0 {
        Map::empty()
    } else {
        value_entries(entries.drop_last()).insert(entries.last().0@, document(entries.last().1))
    }
}

impl Json {
    /// The document as a mathematical value.
    pub open spec fn model(self) -> JsonView
        decreases self,
    {
        match self {
            Json::Null => JsonView::Null,
            Json::Bool(b) => JsonView::Bool(b),
            Json::Int(i) => JsonView::Int(i),
            Json::Number(n) => number_model(n),
            Json::Str(s) => JsonView::Str(s@),
            Json::Array(items) => JsonView::Array(items_model(items@)),
            Json::Object(entries) => JsonView::Object(entries_model(entries@)),
        }
    }
}

/// The documents of a list.
pub open spec fn items_model(items: Seq<Json>) -> Seq<JsonView>
    decreases items,
{
    if items.len() == 0 {
        Seq::empty()
    } else {
        items_model(items.drop_last()).push(items.last().model())
    }
}

/// The map of a list of entries, of which a later one replaces an earlier one.
pub open spec fn entries_model(entries: Seq<(String, Json)>) -> Map<Seq<char>, JsonView>
    decreases entries,
{
    if entries.len() == 0 {
        Map::empty()
    } else {
        entries_model(entries.drop_last()).insert(entries.last().0@, entries.last().1.model())
    }
}

impl DeepView for Json {
    type V = JsonView;

    open spec fn deep_view(&self) -> JsonView {
        self.model()
    }
}

impl JsonView {
    /// The value under a key, as `value[key]` reads it: null where the document is no object or
    /// has no such key.
    pub open spec fn at(self, key: Seq<char>) -> JsonView {
        match self {
            JsonView::Object(m) => if m.contains_key(key) {
                m[key]
            } else {
                JsonView::Null
            },
            _ => JsonView::Null,
        }
    }

    /// The text of a string document.
    pub open spec fn as_str(self) -> Option<Seq<char>> {
        match self {
            JsonView::Str(s) => Some(s),
            _ => None,
        }
    }

    /// The integer of a number document.
    pub open spec fn as_i64(self) -> Option<i64> {
        match self {
            JsonView::Int(i) => Some(i),
            JsonView::Number(n) => number_i64(n),
            _ => None,
        }
    }
}

/// The object with one entry.
pub open spec fn object1(key: Seq<char>, value: JsonView) -> JsonView {
    JsonView::Object(Map::empty().insert(key, value))
}

/// The object without entries.
pub open spec fn object0() -> JsonView {
    JsonView::Object(Map::empty())
}

/// `Clone` of `serde_json::Number`: the same number.
pub assume_specification[ <serde_json::Number as Clone>::clone ](
    n: &serde_json::Number,
) -> (r: serde_json::Number)
    ensures
        r == *n,
;

/// `Number::as_i64`, under the name [`number_i64`].
#[verifier::external_body]
fn number_as_i64(n: &Number) -> (r: Option<i64>)
    ensures
        r == number_i64(*n),
{
    n.as_i64()
}

/// `Number::from` of an `i64`: a number that `as_i64` reads back.
#[verifier::external_body]
fn number_from_i64(i: i64) -> (r: Number)
    ensures
        number_i64(r) == Some(i),
{
    Number::from(i)
}

/// Takes a `Value` apart at its top: which kind it is, and what the variant holds. The entries
/// of an object come with distinct keys.
#[verifier::external_body]
fn value_into_parts(v: Value) -> (r: Parts)
    ensures
        parts_model(r) == document(v),
        r matches Parts::Object(entries) ==> distinct_keys(entries@),
{
    match v {
        Value::Null => Parts::Null,
        Value::Bool(b) => Parts::Bool(b),
        Value::Number(n) => Parts::Number(n),
        Value::String(s) => Parts::Str(s),
        Value::Array(items) => Parts::Array(items),
        Value::Object(map) => Parts::Object(map.into_iter().collect()),
    }
}

/// Puts a `Value` together from its kind and what the variant holds. The keys of an object are
/// distinct.
#[verifier::external_body]
fn value_from_parts(p: Parts) -> (r: Value)
    requires
        p matches Parts::Object(entries) ==> distinct_keys(entries@),
    ensures
        document(r) == parts_model(p),
{
    match p {
        Parts::Null => Value::Null,
        Parts::Bool(b) => Value::Bool(b),
        Parts::Number(n) => Value::Number(n),
        Parts::Str(s) => Value::String(s),
        Parts::Array(items) => Value::Array(items),
        Parts::Object(entries) => Value::Object(entries.into_iter().collect()),
    }
}

/// `IndexMut` of a `Value` that is an object, with a text as the index: writes an entry, which
/// replaces the one under its key where there is one. On a `Value` of another kind but null it
/// panics.
#[verifier::external_body]
fn value_set(v: &mut Value, key: &str, value: Value)
    requires
        document(*old(v)) is Object,
    ensures
        document(*final(v)) == JsonView::Object(
            document(*old(v))->Object_0.insert(key@, document(value)),
        ),
{
    v[key] = value;
}

/// `serde_json::from_str` into a `Value`, under the name [`json_parse`]; the error comes as its
/// text.
#[verifier::external_body]
fn value_from_str(text: &str) -> (r: Result<Value, String>)
    ensures
        match r {
            Ok(v) => json_parse(text@) == Ok::<JsonView, Seq<char>>(document(v)),
            Err(e) => json_parse(text@) == Err::<JsonView, Seq<char>>(e@),
        },
{
    serde_json::from_str(text).map_err(|e| e.to_string())
}

/// `Value::to_string`, under the name [`json_text`].
#[verifier::external_body]
fn value_to_string(v: &Value) -> (r: String)
    ensures
        r@ == json_text(document(*v)),
{
    v.to_string()
}

proof fn lemma_value_entries_finite(entries: Seq<(String, Value)>)
    ensures
        value_entries(entries).dom().finite(),
    decreases entries.len(),
{
    if entries.len() > 0 {
        lemma_value_entries_finite(entries.drop_last());
    }
}

proof fn lemma_value_entries_at(entries: Seq<(String, Value)>, i: int)
    requires
        0 <= i < entries.len(),
        distinct_keys(entries),
    ensures
        value_entries(entries).contains_key(entries[i].0@),
        value_entries(entries)[entries[i].0@] == document(entries[i].1),
        value_entries(entries).dom().finite(),
    decreases entries.len(),
{
    lemma_value_entries_finite(entries);
    if i < entries.len() - 1 {
        let rest = entries.drop_last();
        assert(rest[i] == entries[i]);
        assert forall|a: int, b: int| 0 <= a < b < rest.len() implies #[trigger] rest[a].0@
            != #[trigger] rest[b].0@ by {
            assert(entries[a].0@ != entries[b].0@);
        }
        lemma_value_entries_at(rest, i);
        assert(entries[i].0@ != entries[entries.len() - 1].0@);
    }
}

impl Clone for Json {
    fn clone(&self) -> (r: Self)
        ensures
            r.deep_view() == self.deep_view(),
        decreases self,
    {
        match self {
            Json::Null => Json::Null,
            Json::Bool(b) => Json::Bool(*b),
            Json::Int(i) => Json::Int(*i),
            Json::Number(n) => Json::Number(n.clone()),
            Json::Str(s) => Json::Str(s.clone()),
            Json::Array(items) => {
                let mut copy: Vec<Json> = Vec::new();
                let mut i: usize = 0;
                assert(items@.take(0) =~= Seq::empty());
                while i < items.len()
                    invariant
                        i <= items@.len(),
                        *self == Json::Array(*items),
                        items_model(copy@) == items_model(items@.take(i as int)),
                    decreases items@.len() - i,
                {
                    assert(decreases_to!(*self => self->Array_0));
                    assert(decreases_to!(self->Array_0 => self->Array_0@[i as int]));
                    let item: Json = items[i].clone();
                    let ghost before = copy@;
                    copy.push(item);
                    proof {
                        assert(copy@.drop_last() =~= before);
                        assert(items@.take(i + 1).drop_last() =~= items@.take(i as int));
                    }
                    i += 1;
                }
                assert(items@.take(i as int) =~= items@);
                Json::Array(copy)
            },
            Json::Object(entries) => {
                let mut copy: Vec<(String, Json)> = Vec::new();
                let mut i: usize = 0;
                assert(entries@.take(0) =~= Seq::empty());
                while i < entries.len()
                    invariant
                        i <= entries@.len(),
                        *self == Json::Object(*entries),
                        entries_model(copy@) == entries_model(entries@.take(i as int)),
                    decreases entries@.len() - i,
                {
                    assert(decreases_to!(*self => self->Object_0));
                    assert(decreases_to!(self->Object_0 => self->Object_0@[i as int]));
                    let item: Json = entries[i].1.clone();
                    let ghost before = copy@;
                    copy.push((entries[i].0.clone(), item));
                    proof {
                        assert(copy@.drop_last() =~= before);
                        assert(entries@.take(i + 1).drop_last() =~= entries@.take(i as int));
                    }
                    i += 1;
                }
                assert(entries@.take(i as int) =~= entries@);
                Json::Object(copy)
            },
        }
    }
}

pub(crate) proof fn lemma_items_model(items: Seq<Json>)
    ensures
        items_model(items).len() == items.len(),
        forall|i: int|
            0 <= i < items.len() ==> #[trigger] items_model(items)[i] == items[i].model(),
    decreases items.len(),
{
    if items.len() > 0 {
        let rest = items.drop_last();
        lemma_items_model(rest);
        assert forall|i: int| 0 <= i < items.len() implies #[trigger] items_model(items)[i]
            == items[i].model() by {
            if i < rest.len() {
                assert(items_model(rest)[i] == rest[i].model());
            }
        }
    }
}

impl Json {
    /// The document of a `serde_json::Value`.
    pub fn from_value(v: Value) -> (r: Json)
        ensures
            r.deep_view() == document(v),
        decreases document(v),
    {
        let ghost doc = document(v);
        match value_into_parts(v) {
            Parts::Null => Json::Null,
            Parts::Bool(b) => Json::Bool(b),
            Parts::Number(n) => match number_as_i64(&n) {
                Some(i) => Json::Int(i),
                None => Json::Number(n),
            },
            Parts::Str(s) => Json::Str(s),
            Parts::Array(values) => {
                let ghost all = values@;
                let mut left: Vec<Value> = values;
                let mut items: Vec<Json> = Vec::new();
                while left.len() > 0
                    invariant
                        doc == document(v),
                        doc == JsonView::Array(Seq::new(all.len(), |i: int| document(all[i]))),
                        items@.len() + left@.len() == all.len(),
                        left@ == all.skip(items@.len() as int),
                        forall|i: int|
                            0 <= i < items@.len() ==> (#[trigger] items@[i]).model() == document(
                                all[i],
                            ),
                    decreases left@.len(),
                {
                    let ghost n = items@.len() as int;
                    let value: Value = left.remove(0);
                    proof {
                        assert(value == all[n]);
                        assert(doc->Array_0[n] == document(all[n]));
                        assert(decreases_to!(doc => doc->Array_0));
                        assert(decreases_to!(doc->Array_0 => doc->Array_0[n]));
                    }
                    items.push(Json::from_value(value));
                    assert(left@ =~= all.skip(n + 1));
                }
                proof {
                    lemma_items_model(items@);
                    assert(items_model(items@) =~= doc->Array_0);
                }
                Json::Array(items)
            },
            Parts::Object(values) => {
                let ghost all = values@;
                let mut left: Vec<(String, Value)> = values;
                let mut entries: Vec<(String, Json)> = Vec::new();
                assert(all.take(0) =~= Seq::empty());
                while left.len() > 0
                    invariant
                        doc == document(v),
                        doc == JsonView::Object(value_entries(all)),
                        distinct_keys(all),
                        entries@.len() + left@.len() == all.len(),
                        left@ == all.skip(entries@.len() as int),
                        entries_model(entries@) == value_entries(all.take(entries@.len() as int)),
                    decreases left@.len(),
                {
                    let ghost n = entries@.len() as int;
                    let ghost before = entries@;
                    let (key, value): (String, Value) = left.remove(0);
                    proof {
                        assert((key, value) == all[n]);
                        lemma_value_entries_at(all, n);
                        assert(decreases_to!(doc => doc->Object_0));
                        assert(decreases_to!(doc->Object_0 => doc->Object_0[all[n].0@]));
                    }
                    entries.push((key, Json::from_value(value)));
                    proof {
                        assert(left@ =~= all.skip(n + 1));
                        assert(entries@.drop_last() =~= before);
                        assert(all.take(n + 1).drop_last() =~= all.take(n));
                    }
                }
                assert(all.take(all.len() as int) =~= all);
                Json::Object(entries)
            },
        }
    }

    /// The `serde_json::Value` of a document.
    pub fn to_value(&self) -> (r: Value)
        ensures
            document(r) == self.deep_view(),
        decreases self,
    {
        match self {
            Json::Null => value_from_parts(Parts::Null),
            Json::Bool(b) => value_from_parts(Parts::Bool(*b)),
            Json::Int(i) => value_from_parts(Parts::Number(number_from_i64(*i))),
            Json::Number(n) => value_from_parts(Parts::Number(n.clone())),
            Json::Str(s) => value_from_parts(Parts::Str(s.clone())),
            Json::Array(items) => {
                let mut values: Vec<Value> = Vec::new();
                let mut i: usize = 0;
                while i < items.len()
                    invariant
                        i <= items@.len(),
                        *self == Json::Array(*items),
                        values@.len() == i,
                        forall|k: int|
                            0 <= k < i ==> document(#[trigger] values@[k]) == items@[k].model(),
                    decreases items@.len() - i,
                {
                    assert(decreases_to!(*self => self->Array_0));
                    assert(decreases_to!(self->Array_0 => self->Array_0@[i as int]));
                    values.push(items[i].to_value());
                    i += 1;
                }
                proof {
                    lemma_items_model(items@);
                    assert(Seq::new(values@.len(), |k: int| document(values@[k])) =~= items_model(
                        items@,
                    ));
                }
                value_from_parts(Parts::Array(values))
            },
            Json::Object(entries) => {
                let mut r: Value = value_from_parts(Parts::Object(Vec::new()));
                let mut i: usize = 0;
                assert(entries@.take(0) =~= Seq::empty());
                while i < entries.len()
                    invariant
                        i <= entries@.len(),
                        *self == Json::Object(*entries),
                        document(r) == JsonView::Object(entries_model(entries@.take(i as int))),
                    decreases entries@.len() - i,
                {
                    proof {
                        assert(decreases_to!(*self => self->Object_0));
                        assert(decreases_to!(self->Object_0 => self->Object_0@[i as int]));
                        assert(entries@.take(i + 1).drop_last() =~= entries@.take(i as int));
                    }
                    value_set(&mut r, &entries[i].0, entries[i].1.to_value());
                    i += 1;
                }
                assert(entries@.take(i as int) =~= entries@);
                r
            },
        }
    }

    /// Reads a document from its text; the error is the parser's own text.
    pub fn parse(text: &str) -> (r: Result<Json, String>)
        ensures
            match r {
                Ok(doc) => json_parse(text@) == Ok::<JsonView, Seq<char>>(doc.deep_view()),
                Err(e) => json_parse(text@) == Err::<JsonView, Seq<char>>(e@),
            },
    {
        match value_from_str(text) {
            Ok(v) => Ok(Json::from_value(v)),
            Err(e) => Err(e),
        }
    }

    /// The compact text of the document.
    pub fn text(&self) -> (r: String)
        ensures
            r@ == json_text(self.deep_view()),
    {
        value_to_string(&self.to_value())
    }

    /// The value under a key, where the document is an object that has the key.
    pub fn get(&self, key: &str) -> (r: Option<&Json>)
        ensures
            match r {
                Some(v) => {
                    &&& self.deep_view() is Object
                    &&& self.deep_view()->Object_0.contains_key(key@)
                    &&& self.deep_view()->Object_0[key@] == v.deep_view()
                },
                None => self.deep_view() is Object ==> !self.deep_view()->Object_0.contains_key(
                    key@,
                ),
            },
    {
        match self {
            Json::Object(entries) => {
                let mut i: usize = entries.len();
                assert(entries@.take(i as int) =~= entries@);
                while i > 0
                    invariant
                        i <= entries@.len(),
                        *self == Json::Object(*entries),
                        self.deep_view()->Object_0.contains_key(key@) == entries_model(
                            entries@.take(i as int),
                        ).contains_key(key@),
                        self.deep_view()->Object_0.contains_key(key@)
                            ==> self.deep_view()->Object_0[key@] == entries_model(
                            entries@.take(i as int),
                        )[key@],
                    decreases i,
                {
                    i -= 1;
                    assert(entries@.take(i + 1).drop_last() =~= entries@.take(i as int));
                    if text::same(&entries[i].0, key) {
                        return Some(&entries[i].1);
                    }
                }
                None
            },
            _ => None,
        }
    }

    /// The text under a key, where there is one.
    pub fn get_str(&self, key: &str) -> (r: Option<String>)
        ensures
            r.deep_view() == self.deep_view().at(key@).as_str(),
    {
        match self.get(key) {
            Some(Json::Str(s)) => Some(s.clone()),
            _ => None,
        }
    }

    /// The integer under a key, where there is one.
    pub fn get_i64(&self, key: &str) -> (r: Option<i64>)
        ensures
            r == self.deep_view().at(key@).as_i64(),
    {
        match self.get(key) {
            Some(Json::Int(i)) => Some(*i),
            Some(Json::Number(n)) => number_as_i64(n),
            _ => None,
        }
    }

    /// A copy of the value under a key, null where there is none.
    pub fn get_or_null(&self, key: &str) -> (r: Json)
        ensures
            r.deep_view() == self.deep_view().at(key@),
    {
        match self.get(key) {
            Some(v) => v.clone(),
            None => Json::Null,
        }
    }

    /// Whether a key can be written under: in an object, or in null, which becomes one.
    pub fn takes_keys(&self) -> (r: bool)
        ensures
            r == (self.deep_view() is Object || self.deep_view() is Null),
    {
        match self {
            Json::Null => true,
            Json::Object(_) => true,
            _ => false,
        }
    }

    /// The object without entries.
    pub fn empty_object() -> (r: Json)
        ensures
            r.deep_view() == object0(),
    {
        Json::Object(Vec::new())
    }

    /// The object with one entry.
    pub fn object(key: &str, value: Json) -> (r: Json)
        ensures
            r.deep_view() == object1(key@, value.deep_view()),
    {
        Json::empty_object().with(key, value)
    }

    /// The object with one entry more, which replaces one with the same key.
    pub fn with(self, key: &str, value: Json) -> (r: Json)
        requires
            self.deep_view() is Object,
        ensures
            r.deep_view() == JsonView::Object(
                self.deep_view()->Object_0.insert(key@, value.deep_view()),
            ),
    {
        match self {
            Json::Object(entries) => {
                let ghost before = entries@;
                let mut entries: Vec<(String, Json)> = entries;
                entries.push((key.to_owned(), value));
                assert(entries@.drop_last() =~= before);
                Json::Object(entries)
            },
            other => other,
        }
    }
}

/// A key of an object reads its entry; a key that is missing, and any key of another document,
/// reads null.
pub proof fn keys_read_entries(doc: JsonView, key: Seq<char>)
    ensures
        doc matches JsonView::Object(m) && m.contains_key(key) ==> doc.at(key)
            == doc->Object_0[key],
        doc matches JsonView::Object(m) && !m.contains_key(key) ==> doc.at(key) is Null,
        !(doc is Object) ==> doc.at(key) is Null,
{
}

/// Only a string has a text, and only a number has an integer, where it has one.
pub proof fn values_are_read_by_kind(doc: JsonView, s: Seq<char>, i: i64)
    ensures
        doc.as_str() == Some(s) <==> doc == JsonView::Str(s),
        JsonView::Int(i).as_i64() == Some(i),
        doc.as_i64() is Some ==> doc is Int || doc is Number,
{
}

/// An object of one entry reads that entry, and nothing else.
pub proof fn one_entry_is_read(key: Seq<char>, value: JsonView, other: Seq<char>)
    ensures
        object1(key, value).at(key) == value,
        other != key ==> object1(key, value).at(other) is Null,
        object0().at(key) is Null,
        object1(key, value) is Object,
        object0() is Object,
{
}

/// Of the entries with a key the last one counts.
pub proof fn later_entries_count(entries: Seq<(String, Json)>, entry: (String, Json))
    ensures
        entries_model(entries.push(entry)) == entries_model(entries).insert(
            entry.0@,
            entry.1.model(),
        ),
        entries_model(Seq::empty()) == Map::<Seq<char>, JsonView>::empty(),
{
    assert(entries.push(entry).drop_last() =~= entries);
}

/// A list holds its items in their order.
pub proof fn items_keep_their_order(items: Seq<Json>, i: int)
    requires
        0 <= i < items.len(),
    ensures
        items_model(items).len() == items.len(),
        items_model(items)[i] == items[i].model(),
{
    lemma_items_model(items);
}

/// Each kind of value stands for what it holds.
pub proof fn values_stand_for_what_they_hold(b: bool, i: i64, s: String)
    ensures
        Json::Null.model() is Null,
        Json::Bool(b).model() == JsonView::Bool(b),
        Json::Int(i).model() == JsonView::Int(i),
        Json::Str(s).model() == JsonView::Str(s@),
{
}

} // verus!
