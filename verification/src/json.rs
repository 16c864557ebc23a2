//! JSON values: the data that codecs read and build.
//!
//! [`Value`] holds a JSON document and [`JsonMap`] one object of it, its fields in key order.
//! Contracts speak of [`Json`], the mathematical value of a document. Text is parsed and
//! printed by `serde_json`.
use serde_json::Value as SerdeValue;
use vstd::prelude::*;
use vstd::std_specs::cmp::PartialEqSpecImpl;
use vstd::string::*;

use crate::text::{
    before, ends_with, has_suffix, law_order_irreflexive, law_order_total, law_order_transitive,
    opt_str, text_before, text_eq,
};

verus! {

/// Mathematical value of a JSON number.
pub enum JsonNumber {
    /// Integer from zero up.
    PosInt(u64),
    /// Integer below zero.
    NegInt(i64),
    /// Any other number, by its JSON text.
    Float(Seq<char>),
}

/// Mathematical value of a JSON document.
pub enum Json {
    /// `null`.
    Null,
    /// `true` or `false`.
    Bool(bool),
    /// Number.
    Number(JsonNumber),
    /// String.
    String(Seq<char>),
    /// Array.
    Array(Seq<Json>),
    /// Object.
    Object(Map<Seq<char>, Json>),
}

impl Json {
    /// Characters of a string.
    pub open spec fn as_str(self) -> Option<Seq<char>> {
        match self {
            Json::String(text) => Some(text),
            _ => None,
        }
    }

    /// Value of an integer from zero up.
    pub open spec fn as_u64(self) -> Option<u64> {
        match self {
            Json::Number(JsonNumber::PosInt(n)) => Some(n),
            _ => None,
        }
    }

    /// Elements of an array.
    pub open spec fn as_array(self) -> Option<Seq<Json>> {
        match self {
            Json::Array(items) => Some(items),
            _ => None,
        }
    }

    /// Fields of an object.
    pub open spec fn as_object(self) -> Option<Map<Seq<char>, Json>> {
        match self {
            Json::Object(fields) => Some(fields),
            _ => None,
        }
    }

    /// Field of an object; nothing for any other value.
    pub open spec fn get(self, key: Seq<char>) -> Option<Json> {
        match self {
            Json::Object(fields) => field(fields, key),
            _ => None,
        }
    }
}

/// Field of an object.
pub open spec fn field(fields: Map<Seq<char>, Json>, key: Seq<char>) -> Option<Json> {
    if fields.contains_key(key) {
        Some(fields[key])
    } else {
        None
    }
}

/// String field of an object.
pub open spec fn str_field(fields: Map<Seq<char>, Json>, key: Seq<char>) -> Option<Seq<char>> {
    match field(fields, key) {
        Some(value) => value.as_str(),
        None => None,
    }
}

/// Field of an object that holds an integer from zero up.
pub open spec fn u64_field(fields: Map<Seq<char>, Json>, key: Seq<char>) -> Option<u64> {
    match field(fields, key) {
        Some(value) => value.as_u64(),
        None => None,
    }
}

/// Array field of an object.
pub open spec fn array_field(fields: Map<Seq<char>, Json>, key: Seq<char>) -> Option<Seq<Json>> {
    match field(fields, key) {
        Some(value) => value.as_array(),
        None => None,
    }
}

/// Object field of an object.
pub open spec fn object_field(
    fields: Map<Seq<char>, Json>,
    key: Seq<char>,
) -> Option<Map<Seq<char>, Json>> {
    match field(fields, key) {
        Some(value) => value.as_object(),
        None => None,
    }
}

/// String field of a document.
pub open spec fn string_of(value: Json, key: Seq<char>) -> Option<Seq<char>> {
    match value.get(key) {
        Some(field) => field.as_str(),
        None => None,
    }
}

/// JSON number.
#[derive(Clone, Debug, Eq)]
pub enum Number {
    /// Integer from zero up.
    PosInt(u64),
    /// Integer below zero.
    NegInt(i64),
    /// Any other number, by the text that `serde_json` prints for it.
    Float(String),
}

/// The texts of two finite floats stand for the same number. Each number has one text, but for
/// zero, which has one for each sign.
pub open spec fn same_float(a: Seq<char>, b: Seq<char>) -> bool {
    a == b || (is_zero_text(a) && is_zero_text(b))
}

/// A text stands for the float zero.
pub open spec fn is_zero_text(text: Seq<char>) -> bool {
    text == "0.0"@ || text == "-0.0"@
}

/// Whether the texts of two finite floats stand for the same number.
fn float_text_eq(a: &str, b: &str) -> (equal: bool)
    ensures
        equal == same_float(a@, b@),
{
    text_eq(a, b) || ((text_eq(a, "0.0") || text_eq(a, "-0.0")) && (text_eq(b, "0.0") || text_eq(
        b,
        "-0.0",
    )))
}

impl PartialEq for Number {
    /// Whether two numbers of one kind are equal; numbers of different kinds never are.
    fn eq(&self, other: &Self) -> (equal: bool) {
        match (self, other) {
            (Number::PosInt(a), Number::PosInt(b)) => *a == *b,
            (Number::NegInt(a), Number::NegInt(b)) => *a == *b,
            (Number::Float(a), Number::Float(b)) => float_text_eq(a.as_str(), b.as_str()),
            _ => false,
        }
    }
}

impl PartialEqSpecImpl for Number {
    open spec fn obeys_eq_spec() -> bool {
        true
    }

    open spec fn eq_spec(&self, other: &Self) -> bool {
        match (self@, other@) {
            (JsonNumber::PosInt(a), JsonNumber::PosInt(b)) => a == b,
            (JsonNumber::NegInt(a), JsonNumber::NegInt(b)) => a == b,
            (JsonNumber::Float(a), JsonNumber::Float(b)) => same_float(a, b),
            _ => false,
        }
    }
}

impl View for Number {
    type V = JsonNumber;

    open spec fn view(&self) -> JsonNumber {
        match self {
            Number::PosInt(n) => JsonNumber::PosInt(*n),
            Number::NegInt(n) => JsonNumber::NegInt(*n),
            Number::Float(text) => JsonNumber::Float(text@),
        }
    }
}

/// JSON document.
#[derive(Debug, PartialEq)]
pub enum Value {
    /// `null`.
    Null,
    /// `true` or `false`.
    Bool(bool),
    /// Number.
    Number(Number),
    /// String.
    String(String),
    /// Array.
    Array(Vec<Value>),
    /// Object.
    Object(JsonMap),
}

/// Fields of a JSON object, each key once and in ascending order.
#[derive(Debug, PartialEq)]
pub struct JsonMap {
    entries: Vec<(String, Value)>,
}

spec fn value_json(value: Value) -> Json
    decreases value,
{
    match value {
        Value::Null => Json::Null,
        Value::Bool(b) => Json::Bool(b),
        Value::Number(n) => Json::Number(n@),
        Value::String(text) => Json::String(text@),
        Value::Array(items) => Json::Array(values_json(items@)),
        Value::Object(map) => Json::Object(entries_json(map.entries@)),
    }
}

spec fn values_json(items: Seq<Value>) -> Seq<Json>
    decreases items,
{
    Seq::new(
        items.len(),
        |i: int|
            if 0 <= i < items.len() {
                value_json(items[i])
            } else {
                Json::Null
            },
    )
}

spec fn entries_json(entries: Seq<(String, Value)>) -> Map<Seq<char>, Json>
    decreases entries,
{
    if entries.len() == 0 {
        Map::empty()
    } else {
        entries_json(entries.drop_last()).insert(entries.last().0@, value_json(entries.last().1))
    }
}

spec fn ascending(entries: Seq<(String, Value)>) -> bool {
    forall|i: int, j: int|
        0 <= i < j < entries.len() ==> before(#[trigger] entries[i].0@, #[trigger] entries[j].0@)
}

impl View for Value {
    type V = Json;

    closed spec fn view(&self) -> Json {
        value_json(*self)
    }
}

impl View for JsonMap {
    type V = Map<Seq<char>, Json>;

    closed spec fn view(&self) -> Map<Seq<char>, Json> {
        entries_json(self.entries@)
    }
}

/// Mathematical values of a sequence of documents.
pub open spec fn jsons(items: Seq<Value>) -> Seq<Json> {
    items.map_values(|item: Value| item@)
}

/// Mathematical value of an optional document.
pub open spec fn opt_json(value: Option<Value>) -> Option<Json> {
    match value {
        Some(value) => Some(value@),
        None => None,
    }
}

/// Mathematical value of an optional borrowed document.
pub open spec fn opt_json_ref(value: Option<&Value>) -> Option<Json> {
    match value {
        Some(value) => Some(value@),
        None => None,
    }
}

/// The value of a document, kind by kind.
pub broadcast proof fn lemma_value_view(value: Value)
    ensures
        (#[trigger] value@) == (match value {
            Value::Null => Json::Null,
            Value::Bool(b) => Json::Bool(b),
            Value::Number(n) => Json::Number(n@),
            Value::String(text) => Json::String(text@),
            Value::Array(items) => Json::Array(jsons(items@)),
            Value::Object(map) => Json::Object(map@),
        }),
{
    if let Value::Array(items) = value {
        assert(values_json(items@) =~= jsons(items@));
    }
}

proof fn lemma_entries_json(entries: Seq<(String, Value)>)
    requires
        ascending(entries),
    ensures
        forall|i: int|
            #![trigger entries[i]]
            0 <= i < entries.len() ==> entries_json(entries).contains_key(entries[i].0@)
                && entries_json(entries)[entries[i].0@] == value_json(entries[i].1),
        forall|key: Seq<char>| #[trigger]
            entries_json(entries).contains_key(key) ==> exists|i: int|
                0 <= i < entries.len() && entries[i].0@ == key,
    decreases entries.len(),
{
    if entries.len() > 0 {
        let rest = entries.drop_last();
        let last = entries.len() - 1;
        assert(ascending(rest)) by {
            assert forall|i: int, j: int| 0 <= i < j < rest.len() implies before(
                #[trigger] rest[i].0@,
                #[trigger] rest[j].0@,
            ) by {
                assert(rest[i] == entries[i] && rest[j] == entries[j]);
            }
        }
        lemma_entries_json(rest);
        assert forall|i: int|
            #![trigger entries[i]]
            0 <= i < entries.len() implies entries_json(entries).contains_key(entries[i].0@)
            && entries_json(entries)[entries[i].0@] == value_json(entries[i].1) by {
            if i < last {
                assert(rest[i] == entries[i]);
                law_order_irreflexive(entries[i].0@);
                assert(before(entries[i].0@, entries[last].0@));
            }
        }
        assert forall|key: Seq<char>| #[trigger]
            entries_json(entries).contains_key(key) implies exists|i: int|
            0 <= i < entries.len() && entries[i].0@ == key by {
            if key == entries[last].0@ {
            } else {
                assert(entries_json(rest).contains_key(key));
                let i = choose|i: int| 0 <= i < rest.len() && rest[i].0@ == key;
                assert(entries[i].0@ == key);
            }
        }
    }
}

impl JsonMap {
    #[verifier::type_invariant]
    spec fn inv(self) -> bool {
        ascending(self.entries@)
    }

    /// Creates an object without fields.
    pub fn new() -> (map: Self)
        ensures
            map@ == Map::<Seq<char>, Json>::empty(),
    {
        JsonMap { entries: Vec::new() }
    }

    /// Whether the object has no field.
    pub fn is_empty(&self) -> (empty: bool)
        ensures
            empty == (self@ == Map::<Seq<char>, Json>::empty()),
    {
        proof {
            use_type_invariant(self);
            lemma_entries_json(self.entries@);
            if self.entries@.len() > 0 {
                assert(self@.contains_key(self.entries@[0].0@));
            }
        }
        self.entries.len() == 0
    }

    /// The fields in ascending order of their keys.
    pub fn entries(&self) -> (entries: &Vec<(String, Value)>)
        ensures
            forall|i: int, j: int|
                0 <= i < j < entries@.len() ==> before(
                    #[trigger] entries@[i].0@,
                    #[trigger] entries@[j].0@,
                ),
            forall|i: int|
                #![trigger entries@[i]]
                0 <= i < entries@.len() ==> field(self@, entries@[i].0@) == Some(entries@[i].1@),
            forall|key: Seq<char>| #[trigger]
                self@.contains_key(key) ==> exists|i: int|
                    0 <= i < entries@.len() && entries@[i].0@ == key,
    {
        proof {
            use_type_invariant(self);
            lemma_entries_json(self.entries@);
        }
        &self.entries
    }

    /// Position of the first key that is not before `key`.
    fn position(&self, key: &str) -> (at: usize)
        ensures
            at <= self.entries@.len(),
            forall|i: int| 0 <= i < at ==> before(#[trigger] self.entries@[i].0@, key@),
            at < self.entries@.len() ==> !before(self.entries@[at as int].0@, key@),
    {
        let mut at: usize = 0;
        while at < self.entries.len()
            invariant
                at <= self.entries@.len(),
                forall|i: int| 0 <= i < at ==> before(#[trigger] self.entries@[i].0@, key@),
            ensures
                at <= self.entries@.len(),
                forall|i: int| 0 <= i < at ==> before(#[trigger] self.entries@[i].0@, key@),
                at < self.entries@.len() ==> !before(self.entries@[at as int].0@, key@),
            decreases self.entries@.len() - at,
        {
            if !text_before(self.entries[at].0.as_str(), key) {
                break;
            }
            at += 1;
        }
        at
    }

    /// Field with the given key.
    pub fn get(&self, key: &str) -> (value: Option<&Value>)
        ensures
            opt_json_ref(value) == field(self@, key@),
    {
        let at = self.position(key);
        proof {
            use_type_invariant(self);
            lemma_entries_json(self.entries@);
        }
        if at < self.entries.len() && text_eq(self.entries[at].0.as_str(), key) {
            assert(self.entries@[at as int].0@ == key@);
            Some(&self.entries[at].1)
        } else {
            proof {
                if self@.contains_key(key@) {
                    let i = choose|i: int|
                        0 <= i < self.entries@.len() && self.entries@[i].0@ == key@;
                    law_order_irreflexive(key@);
                    if i > at {
                        assert(before(self.entries@[at as int].0@, self.entries@[i].0@));
                    }
                }
            }
            None
        }
    }

    /// Sets a field, replacing the value that its key had.
    pub fn insert(&mut self, key: String, value: Value)
        ensures
            final(self)@ == old(self)@.insert(key@, value@),
    {
        let at = self.position(key.as_str());
        let ghost was = self.entries@;
        proof {
            use_type_invariant(&*self);
            lemma_entries_json(was);
        }
        let mut entries: Vec<(String, Value)> = Vec::new();
        std::mem::swap(&mut entries, &mut self.entries);
        if at < entries.len() && text_eq(entries[at].0.as_str(), key.as_str()) {
            let ghost new = was.update(at as int, (key, value));
            entries.set(at, (key, value));
            proof {
                assert(entries@ == new);
                assert(was[at as int].0@ == key@);
                assert forall|i: int, j: int| 0 <= i < j < new.len() implies before(
                    #[trigger] new[i].0@,
                    #[trigger] new[j].0@,
                ) by {
                    assert(before(was[i].0@, was[j].0@));
                }
                lemma_entries_json(new);
                lemma_inserted(was, new, key@, value@, at as int, false);
            }
        } else {
            let ghost new = was.insert(at as int, (key, value));
            entries.insert(at, (key, value));
            proof {
                assert(entries@ == new);
                assert forall|i: int| at <= i < was.len() implies before(
                    key@,
                    #[trigger] was[i].0@,
                ) by {
                    law_order_total(key@, was[at as int].0@);
                    if i > at {
                        assert(before(was[at as int].0@, was[i].0@));
                        law_order_transitive(key@, was[at as int].0@, was[i].0@);
                    }
                }
                assert forall|i: int, j: int| 0 <= i < j < new.len() implies before(
                    #[trigger] new[i].0@,
                    #[trigger] new[j].0@,
                ) by {
                    let a = if i < at { i } else { i - 1 };
                    let b = if j < at { j } else { j - 1 };
                    if i == at {
                        assert(new[j] == was[b]);
                    } else if j == at {
                        assert(new[i] == was[a]);
                    } else {
                        assert(new[i] == was[a] && new[j] == was[b]);
                        assert(before(was[a].0@, was[b].0@));
                    }
                }
                lemma_entries_json(new);
                lemma_inserted(was, new, key@, value@, at as int, true);
            }
        }
        self.entries = entries;
    }
}

proof fn lemma_inserted(
    was: Seq<(String, Value)>,
    new: Seq<(String, Value)>,
    key: Seq<char>,
    value: Json,
    at: int,
    added: bool,
)
    requires
        ascending(was),
        ascending(new),
        0 <= at < new.len(),
        new[at].0@ == key,
        value_json(new[at].1) == value,
        added ==> at <= was.len() && new == was.insert(at, new[at]),
        !added ==> at < was.len() && new == was.update(at, new[at]) && was[at].0@ == key,
    ensures
        entries_json(new) == entries_json(was).insert(key, value),
{
    lemma_entries_json(was);
    lemma_entries_json(new);
    let result = entries_json(was).insert(key, value);
    assert forall|k: Seq<char>| #[trigger]
        entries_json(new).contains_key(k) <==> result.contains_key(k) by {
        if entries_json(new).contains_key(k) {
            let i = choose|i: int| 0 <= i < new.len() && new[i].0@ == k;
            if i != at {
                let b = if added && i > at { i - 1 } else { i };
                assert(new[i] == was[b]);
                assert(entries_json(was).contains_key(was[b].0@));
            }
        }
        if result.contains_key(k) && k != key {
            let i = choose|i: int| 0 <= i < was.len() && was[i].0@ == k;
            let b = if added && i >= at { i + 1 } else { i };
            assert(new[b] == was[i]);
            assert(entries_json(new).contains_key(new[b].0@));
        }
    }
    assert forall|k: Seq<char>| #[trigger] entries_json(new).contains_key(k) implies entries_json(
        new,
    )[k] == result[k] by {
        let i = choose|i: int| 0 <= i < new.len() && new[i].0@ == k;
        if i != at {
            let b = if added && i > at { i - 1 } else { i };
            assert(new[i] == was[b]);
            law_order_irreflexive(k);
            if i < at {
                assert(before(new[i].0@, new[at].0@));
            } else {
                assert(before(new[at].0@, new[i].0@));
            }
        }
    }
    assert(entries_json(new) =~= result);
}

proof fn lemma_same_entries(a: Seq<(String, Value)>, b: Seq<(String, Value)>)
    requires
        a.len() == b.len(),
        forall|i: int|
            #![trigger a[i]]
            0 <= i < a.len() ==> a[i].0@ == b[i].0@ && value_json(a[i].1) == value_json(b[i].1),
    ensures
        entries_json(a) == entries_json(b),
    decreases a.len(),
{
    if a.len() > 0 {
        assert forall|i: int| #![trigger a.drop_last()[i]] 0 <= i < a.len() - 1 implies
            a.drop_last()[i].0@ == b.drop_last()[i].0@
            && value_json(a.drop_last()[i].1) == value_json(b.drop_last()[i].1) by {
            assert(a.drop_last()[i] == a[i]);
        }
        lemma_same_entries(a.drop_last(), b.drop_last());
        assert(a.last() == a[a.len() - 1]);
    }
}

impl Clone for Value {
    /// Copies a document.
    fn clone(&self) -> (copy: Self)
        ensures
            copy@ == self@,
        decreases self,
    {
        broadcast use lemma_value_view;

        match self {
            Value::Null => Value::Null,
            Value::Bool(b) => Value::Bool(*b),
            Value::Number(n) => Value::Number(
                match n {
                    Number::PosInt(n) => Number::PosInt(*n),
                    Number::NegInt(n) => Number::NegInt(*n),
                    Number::Float(text) => Number::Float(text.clone()),
                },
            ),
            Value::String(text) => Value::String(text.clone()),
            Value::Array(items) => Value::Array(clone_values(items)),
            Value::Object(map) => Value::Object(map.clone()),
        }
    }
}

/// Copies a sequence of documents.
pub fn clone_values(items: &Vec<Value>) -> (copies: Vec<Value>)
    ensures
        jsons(copies@) == jsons(items@),
    decreases items,
{
    let mut copies: Vec<Value> = Vec::new();
    let n = items.len();
    let mut i: usize = 0;
    while i < n
        invariant
            n == items@.len(),
            i <= n,
            copies@.len() == i,
            forall|j: int| 0 <= j < i ==> (#[trigger] copies@[j])@ == items@[j]@,
        decreases n - i,
    {
        copies.push(items[i].clone());
        i += 1;
    }
    assert(jsons(copies@) =~= jsons(items@));
    copies
}

impl Clone for JsonMap {
    /// Copies an object.
    fn clone(&self) -> (copy: Self)
        ensures
            copy@ == self@,
        decreases self,
    {
        proof {
            use_type_invariant(self);
        }
        let mut copies: Vec<(String, Value)> = Vec::new();
        let n = self.entries.len();
        let mut i: usize = 0;
        while i < n
            invariant
                n == self.entries@.len(),
                i <= n,
                copies@.len() == i,
                forall|j: int|
                    #![trigger copies@[j]]
                    0 <= j < i ==> copies@[j].0@ == self.entries@[j].0@ && value_json(copies@[j].1)
                        == value_json(self.entries@[j].1),
            decreases n - i,
        {
            copies.push((self.entries[i].0.clone(), self.entries[i].1.clone()));
            i += 1;
        }
        proof {
            assert forall|i: int, j: int| 0 <= i < j < copies@.len() implies before(
                #[trigger] copies@[i].0@,
                #[trigger] copies@[j].0@,
            ) by {
                assert(before(self.entries@[i].0@, self.entries@[j].0@));
            }
            lemma_same_entries(copies@, self.entries@);
        }
        JsonMap { entries: copies }
    }
}

/// `key` is the first key of an object, in key order, that ends with `suffix`.
pub open spec fn is_first_with_suffix(
    fields: Map<Seq<char>, Json>,
    suffix: Seq<char>,
    key: Seq<char>,
) -> bool {
    &&& fields.contains_key(key)
    &&& has_suffix(key, suffix)
    &&& forall|other: Seq<char>| #[trigger]
        fields.contains_key(other) && has_suffix(other, suffix) && other != key ==> before(
            key,
            other,
        )
}

/// First key of an object, in key order, that ends with `suffix`.
pub open spec fn first_with_suffix(
    fields: Map<Seq<char>, Json>,
    suffix: Seq<char>,
) -> Option<Seq<char>> {
    if exists|key: Seq<char>| is_first_with_suffix(fields, suffix, key) {
        Some(choose|key: Seq<char>| is_first_with_suffix(fields, suffix, key))
    } else {
        None
    }
}

/// At most one key is the first with a suffix.
proof fn lemma_first_with_suffix_unique(
    fields: Map<Seq<char>, Json>,
    suffix: Seq<char>,
    a: Seq<char>,
    b: Seq<char>,
)
    requires
        is_first_with_suffix(fields, suffix, a),
        is_first_with_suffix(fields, suffix, b),
    ensures
        a == b,
{
    if a != b {
        assert(before(a, b) && before(b, a));
        law_order_transitive(a, b, a);
        law_order_irreflexive(a);
    }
}

/// The keys that a list of strings names.
pub open spec fn key_set(keys: Seq<&str>) -> Set<Seq<char>> {
    Set::new(|key: Seq<char>| names(keys, key))
}

/// A list of strings holds `key`.
pub open spec fn names(keys: Seq<&str>, key: Seq<char>) -> bool {
    exists|i: int| 0 <= i < keys.len() && (#[trigger] keys[i])@ == key
}

/// Whether a list of strings holds `key`.
fn is_named(keys: &[&str], key: &str) -> (found: bool)
    ensures
        found == names(keys@, key@),
{
    let n = keys.len();
    let mut i: usize = 0;
    while i < n
        invariant
            n == keys@.len(),
            i <= n,
            forall|j: int| 0 <= j < i ==> (#[trigger] keys@[j])@ != key@,
        decreases n - i,
    {
        if text_eq(keys[i], key) {
            assert(keys@[i as int]@ == key@);
            return true;
        }
        i += 1;
    }
    false
}

impl JsonMap {
    /// Sets a field and hands the object on.
    pub fn with(self, key: &str, value: Value) -> (map: Self)
        ensures
            map@ == self@.insert(key@, value@),
    {
        let mut map = self;
        map.insert(key.to_owned(), value);
        map
    }

    /// Copies the fields of `other` into this object; they replace fields with the same key.
    pub fn extend(&mut self, other: &JsonMap)
        ensures
            final(self)@ == old(self)@.union_prefer_right(other@),
    {
        let n = other.entries.len();
        let mut i: usize = 0;
        let ghost all = other.entries@;
        assert(self@ =~= old(self)@.union_prefer_right(entries_json(all.take(0))));
        while i < n
            invariant
                n == other.entries@.len(),
                all == other.entries@,
                i <= n,
                self@ == old(self)@.union_prefer_right(entries_json(all.take(i as int))),
            decreases n - i,
        {
            proof {
                assert(all.take(i + 1).drop_last() =~= all.take(i as int));
            }
            self.insert(other.entries[i].0.clone(), other.entries[i].1.clone());
            i += 1;
            assert(self@ =~= old(self)@.union_prefer_right(entries_json(all.take(i as int))));
        }
        assert(all.take(n as int) =~= all);
    }

    /// Copies the fields whose keys are not listed.
    pub fn without(&self, keys: &[&str]) -> (rest: JsonMap)
        ensures
            rest@ == self@.remove_keys(key_set(keys@)),
    {
        let mut rest = JsonMap::new();
        let n = self.entries.len();
        let mut i: usize = 0;
        let ghost all = self.entries@;
        assert(rest@ =~= entries_json(all.take(0)).remove_keys(key_set(keys@)));
        while i < n
            invariant
                n == self.entries@.len(),
                all == self.entries@,
                i <= n,
                rest@ == entries_json(all.take(i as int)).remove_keys(key_set(keys@)),
            decreases n - i,
        {
            proof {
                assert(all.take(i + 1).drop_last() =~= all.take(i as int));
            }
            if !is_named(keys, self.entries[i].0.as_str()) {
                rest.insert(self.entries[i].0.clone(), self.entries[i].1.clone());
            }
            i += 1;
            assert(rest@ =~= entries_json(all.take(i as int)).remove_keys(key_set(keys@)));
        }
        assert(all.take(n as int) =~= all);
        rest
    }

    /// First key, in key order, that ends with `suffix`.
    pub fn first_key_with_suffix(&self, suffix: &str) -> (key: Option<&str>)
        ensures
            opt_str(key) == first_with_suffix(self@, suffix@),
    {
        proof {
            use_type_invariant(self);
            lemma_entries_json(self.entries@);
        }
        let n = self.entries.len();
        let mut i: usize = 0;
        while i < n
            invariant
                n == self.entries@.len(),
                i <= n,
                ascending(self.entries@),
                forall|j: int| 0 <= j < i ==> !has_suffix(#[trigger] self.entries@[j].0@, suffix@),
            decreases n - i,
        {
            let key = self.entries[i].0.as_str();
            if ends_with(key, suffix) {
                proof {
                    lemma_entries_json(self.entries@);
                    assert(self@.contains_key(self.entries@[i as int].0@));
                    assert forall|other: Seq<char>| #[trigger]
                        self@.contains_key(other) && has_suffix(other, suffix@) && other
                            != key@ implies before(key@, other) by {
                        let j = choose|j: int|
                            0 <= j < self.entries@.len() && self.entries@[j].0@ == other;
                        assert(i < j);
                    }
                    assert(is_first_with_suffix(self@, suffix@, key@));
                    let chosen = choose|key: Seq<char>| is_first_with_suffix(self@, suffix@, key);
                    lemma_first_with_suffix_unique(self@, suffix@, key@, chosen);
                }
                return Some(key);
            }
            i += 1;
        }
        None
    }

    /// String field with the given key.
    pub fn str_field(&self, key: &str) -> (text: Option<&str>)
        ensures
            opt_str(text) == str_field(self@, key@),
    {
        match self.get(key) {
            Some(value) => value.as_str(),
            None => None,
        }
    }

    /// Field with the given key that holds an integer from zero up.
    pub fn u64_field(&self, key: &str) -> (n: Option<u64>)
        ensures
            n == u64_field(self@, key@),
    {
        match self.get(key) {
            Some(value) => value.as_u64(),
            None => None,
        }
    }

    /// Array field with the given key.
    pub fn array_field(&self, key: &str) -> (items: Option<&Vec<Value>>)
        ensures
            opt_jsons(items) == array_field(self@, key@),
    {
        match self.get(key) {
            Some(value) => value.as_array(),
            None => None,
        }
    }

    /// Object field with the given key.
    pub fn object_field(&self, key: &str) -> (map: Option<&JsonMap>)
        ensures
            opt_fields(map) == object_field(self@, key@),
    {
        match self.get(key) {
            Some(value) => value.as_object(),
            None => None,
        }
    }
}

/// Mathematical values of an optional array.
pub open spec fn opt_jsons(items: Option<&Vec<Value>>) -> Option<Seq<Json>> {
    match items {
        Some(items) => Some(jsons(items@)),
        None => None,
    }
}

/// Mathematical value of an optional object.
pub open spec fn opt_fields(map: Option<&JsonMap>) -> Option<Map<Seq<char>, Json>> {
    match map {
        Some(map) => Some(map@),
        None => None,
    }
}

impl Value {
    /// Creates a string value.
    pub fn text(text: &str) -> (value: Self)
        ensures
            value@ == Json::String(text@),
    {
        broadcast use lemma_value_view;

        Value::String(text.to_owned())
    }

    /// Creates an integer value.
    pub fn integer(n: u64) -> (value: Self)
        ensures
            value@ == Json::Number(JsonNumber::PosInt(n)),
    {
        broadcast use lemma_value_view;

        Value::Number(Number::PosInt(n))
    }

    /// Characters of a string value.
    pub fn as_str(&self) -> (text: Option<&str>)
        ensures
            opt_str(text) == self@.as_str(),
    {
        broadcast use lemma_value_view;

        match self {
            Value::String(text) => Some(text.as_str()),
            _ => None,
        }
    }

    /// Value of an integer from zero up.
    pub fn as_u64(&self) -> (n: Option<u64>)
        ensures
            n == self@.as_u64(),
    {
        broadcast use lemma_value_view;

        match self {
            Value::Number(Number::PosInt(n)) => Some(*n),
            _ => None,
        }
    }

    /// Elements of an array.
    pub fn as_array(&self) -> (items: Option<&Vec<Value>>)
        ensures
            opt_jsons(items) == self@.as_array(),
    {
        broadcast use lemma_value_view;

        match self {
            Value::Array(items) => Some(items),
            _ => None,
        }
    }

    /// Fields of an object.
    pub fn as_object(&self) -> (map: Option<&JsonMap>)
        ensures
            opt_fields(map) == self@.as_object(),
    {
        broadcast use lemma_value_view;

        match self {
            Value::Object(map) => Some(map),
            _ => None,
        }
    }

    /// Field of an object; nothing for any other value.
    pub fn get(&self, key: &str) -> (value: Option<&Value>)
        ensures
            opt_json_ref(value) == self@.get(key@),
    {
        match self.as_object() {
            Some(map) => map.get(key),
            None => None,
        }
    }
}

/// String field of a document.
pub fn string_field<'a>(value: &'a Value, key: &str) -> (text: Option<&'a str>)
    ensures
        opt_str(text) == string_of(value@, key@),
{
    match value.get(key) {
        Some(field) => field.as_str(),
        None => None,
    }
}

/// Outside JSON value of `serde_json`, opaque to proofs.
#[verifier::external_type_specification]
#[verifier::external_body]
pub struct ExSerdeValue(SerdeValue);

/// Converts a `serde_json::Value` variant by variant; nothing is claimed of the result here, the
/// callers state what they need.
#[verifier::external_body]
fn from_serde(value: SerdeValue) -> Value {
    match value {
        SerdeValue::Null => Value::Null,
        SerdeValue::Bool(b) => Value::Bool(b),
        SerdeValue::Number(n) => Value::Number(match (n.as_u64(), n.as_i64()) {
            (Some(n), _) => Number::PosInt(n),
            (None, Some(n)) => Number::NegInt(n),
            (None, None) => Number::Float(n.to_string()),
        }),
        SerdeValue::String(text) => Value::String(text),
        SerdeValue::Array(items) => Value::Array(items.into_iter().map(from_serde).collect()),
        SerdeValue::Object(map) => Value::Object(
            map.into_iter().fold(JsonMap::new(), |map, (k, v)| map.with(&k, from_serde(v))),
        ),
    }
}

/// Converts to a `serde_json::Value` variant by variant; nothing is claimed of the result here,
/// the callers state what they need. A float is read from its JSON text by std, which rounds
/// exactly.
#[verifier::external_body]
fn to_serde(value: &Value) -> SerdeValue {
    match value {
        Value::Null => SerdeValue::Null,
        Value::Bool(b) => SerdeValue::Bool(*b),
        Value::Number(Number::PosInt(n)) => SerdeValue::from(*n),
        Value::Number(Number::NegInt(n)) => SerdeValue::from(*n),
        Value::Number(Number::Float(text)) => {
            SerdeValue::from(text.parse().ok().and_then(serde_json::Number::from_f64))
        },
        Value::String(text) => SerdeValue::from(text.as_str()),
        Value::Array(items) => items.iter().map(to_serde).collect(),
        Value::Object(map) => {
            map.entries.iter().map(|entry| (entry.0.clone(), to_serde(&entry.1))).collect()
        },
    }
}

/// What `serde_json::from_str` reads from a text: the document, or nothing where it reports an
/// error.
pub uninterp spec fn parsed(text: Seq<char>) -> Option<Json>;

/// Calls `serde_json::from_str`. The result is named [`parsed`]: it depends on the text alone.
#[verifier::external_body]
pub(crate) fn parse_json(text: &str) -> (value: Option<Value>)
    ensures
        opt_json(value) == parsed(text@),
{
    serde_json::from_str(text).ok().map(from_serde)
}

/// The compact text that `serde_json` prints for a document.
pub uninterp spec fn printed(json: Json) -> Seq<char>;

/// Calls `serde_json::Value::to_string`, which prints what `serde_json::to_string` returns. The
/// result is named [`printed`]: it depends on the document alone. Printing a document cannot fail,
/// because the keys of its objects are strings.
#[verifier::external_body]
pub(crate) fn print_json(value: &Value) -> (text: String)
    ensures
        text@ == printed(value@),
{
    to_serde(value).to_string()
}

/// Text that `format!` prints for a `serde_json` document with the debug placeholder.
pub uninterp spec fn json_debug(json: Json) -> Seq<char>;

/// Calls `format!` with the debug placeholder on a `serde_json::Value`. The result is named
/// [`json_debug`]: it depends on the document alone.
#[verifier::external_body]
pub(crate) fn debug_json(value: &Value) -> (text: String)
    ensures
        text@ == json_debug(value@),
{
    format!("{:?}", to_serde(value))
}

/// The text that `serde_json` prints for an integer taken as a float.
pub uninterp spec fn integer_as_float(n: i128) -> Seq<char>;

/// Calls `serde_json::Number::as_f64` on an integer and prints the float. The result is named
/// [`integer_as_float`]: it depends on the integer alone.
#[verifier::external_body]
fn print_integer_as_float(n: i128) -> (text: String)
    requires
        i64::MIN <= n <= u64::MAX,
    ensures
        text@ == integer_as_float(n),
{
    SerdeValue::from(serde_json::Number::from_i128(n).and_then(|n| n.as_f64())).to_string()
}

/// Mathematical value of a float.
pub enum FloatView {
    /// Finite float, by its JSON text.
    Finite(Seq<char>),
    /// Infinity.
    Infinite { negative: bool },
    /// Not a number.
    NotANumber,
}

/// Floating-point number. JSON has a number for the finite ones alone.
#[derive(Clone, Debug)]
pub enum Float {
    /// Finite float, by the text that `serde_json` prints for it.
    Finite(String),
    /// Infinity.
    Infinite {
        /// Whether it is the negative one.
        negative: bool,
    },
    /// Not a number.
    NotANumber,
}

impl PartialEq for Float {
    /// Whether two floats are equal as numbers: zero has two texts, and what is not a number
    /// equals nothing.
    fn eq(&self, other: &Self) -> (equal: bool) {
        match (self, other) {
            (Float::Finite(a), Float::Finite(b)) => float_text_eq(a.as_str(), b.as_str()),
            (Float::Infinite { negative: a }, Float::Infinite { negative: b }) => *a == *b,
            _ => false,
        }
    }
}

impl PartialEqSpecImpl for Float {
    open spec fn obeys_eq_spec() -> bool {
        true
    }

    open spec fn eq_spec(&self, other: &Self) -> bool {
        match (self@, other@) {
            (FloatView::Finite(a), FloatView::Finite(b)) => same_float(a, b),
            (FloatView::Infinite { negative: a }, FloatView::Infinite { negative: b }) => a == b,
            _ => false,
        }
    }
}

impl View for Float {
    type V = FloatView;

    open spec fn view(&self) -> FloatView {
        match self {
            Float::Finite(text) => FloatView::Finite(text@),
            Float::Infinite { negative } => FloatView::Infinite { negative: *negative },
            Float::NotANumber => FloatView::NotANumber,
        }
    }
}

impl FloatView {
    /// JSON value of a float: a number, or `null` where JSON has none.
    pub open spec fn json(self) -> Json {
        match self {
            FloatView::Finite(text) => Json::Number(JsonNumber::Float(text)),
            FloatView::Infinite { .. } | FloatView::NotANumber => Json::Null,
        }
    }
}

/// Float that a JSON number stands for.
pub open spec fn number_float(n: JsonNumber) -> FloatView {
    match n {
        JsonNumber::PosInt(n) => FloatView::Finite(integer_as_float(n as i128)),
        JsonNumber::NegInt(n) => FloatView::Finite(integer_as_float(n as i128)),
        JsonNumber::Float(text) => FloatView::Finite(text),
    }
}

/// Float field of an object.
pub open spec fn float_field(fields: Map<Seq<char>, Json>, key: Seq<char>) -> Option<FloatView> {
    match field(fields, key) {
        Some(Json::Number(n)) => Some(number_float(n)),
        _ => None,
    }
}

/// Mathematical value of an optional float.
pub open spec fn opt_float(float: Option<Float>) -> Option<FloatView> {
    match float {
        Some(float) => Some(float@),
        None => None,
    }
}

impl Float {
    /// JSON value of the float: a number, or `null` where JSON has none.
    pub fn to_value(&self) -> (value: Value)
        ensures
            value@ == self@.json(),
    {
        broadcast use lemma_value_view;

        match self {
            Float::Finite(text) => Value::Number(Number::Float(text.clone())),
            Float::Infinite { .. } | Float::NotANumber => Value::Null,
        }
    }
}

impl Number {
    /// Float that the number stands for.
    pub fn to_float(&self) -> (float: Float)
        ensures
            float@ == number_float(self@),
    {
        match self {
            Number::PosInt(n) => Float::Finite(print_integer_as_float(*n as i128)),
            Number::NegInt(n) => Float::Finite(print_integer_as_float(*n as i128)),
            Number::Float(text) => Float::Finite(text.clone()),
        }
    }
}

impl JsonMap {
    /// Number field with the given key, as a float.
    pub fn float_field(&self, key: &str) -> (float: Option<Float>)
        ensures
            opt_float(float) == float_field(self@, key@),
    {
        broadcast use lemma_value_view;

        match self.get(key) {
            Some(Value::Number(n)) => Some(n.to_float()),
            _ => None,
        }
    }
}

/// A field reads as a value of one kind exactly where the object holds such a value under its key.
pub proof fn law_fields_read_by_kind(fields: Map<Seq<char>, Json>, key: Seq<char>)
    ensures
        forall|value: Json|
            #![trigger fields.contains_pair(key, value)]
            field(fields, key) == Some(value) <==> fields.contains_pair(key, value),
        field(fields, key) is None <==> !fields.contains_key(key),
        forall|text: Seq<char>|
            #![trigger fields.contains_pair(key, Json::String(text))]
            str_field(fields, key) == Some(text) <==> fields.contains_pair(key, Json::String(text)),
        forall|n: u64|
            #![trigger fields.contains_pair(key, Json::Number(JsonNumber::PosInt(n)))]
            u64_field(fields, key) == Some(n) <==> fields.contains_pair(
                key,
                Json::Number(JsonNumber::PosInt(n)),
            ),
        forall|items: Seq<Json>|
            #![trigger fields.contains_pair(key, Json::Array(items))]
            array_field(fields, key) == Some(items) <==> fields.contains_pair(
                key,
                Json::Array(items),
            ),
        forall|inner: Map<Seq<char>, Json>|
            #![trigger fields.contains_pair(key, Json::Object(inner))]
            object_field(fields, key) == Some(inner) <==> fields.contains_pair(
                key,
                Json::Object(inner),
            ),
        string_of(Json::Object(fields), key) == str_field(fields, key),
{
}

/// Only objects have fields.
pub proof fn law_other_kinds_have_no_fields(value: Json, key: Seq<char>)
    requires
        !(value is Object),
    ensures
        value.get(key) is None,
        string_of(value, key) is None,
        value.as_object() is None,
{
}

/// A finite float survives as a JSON number; one that JSON has no number for becomes `null`.
pub proof fn law_finite_floats_survive(
    fields: Map<Seq<char>, Json>,
    key: Seq<char>,
    float: FloatView,
)
    ensures
        float is Finite ==> float_field(fields.insert(key, float.json()), key) == Some(float),
        !(float is Finite) ==> float.json() == Json::Null,
        fields.contains_pair(key, Json::Null) ==> float_field(fields, key) is None,
        float_field(fields, key) is Some <==> fields.contains_key(key) && fields[key] is Number,
        forall|n: u64|
            #![trigger fields.contains_pair(key, Json::Number(JsonNumber::PosInt(n)))]
            fields.contains_pair(key, Json::Number(JsonNumber::PosInt(n))) ==> float_field(
                fields,
                key,
            ) == Some(FloatView::Finite(integer_as_float(n as i128))),
        forall|n: i64|
            #![trigger fields.contains_pair(key, Json::Number(JsonNumber::NegInt(n)))]
            fields.contains_pair(key, Json::Number(JsonNumber::NegInt(n))) ==> float_field(
                fields,
                key,
            ) == Some(FloatView::Finite(integer_as_float(n as i128))),
        forall|text: Seq<char>|
            #![trigger fields.contains_pair(key, Json::Number(JsonNumber::Float(text)))]
            fields.contains_pair(key, Json::Number(JsonNumber::Float(text))) ==> float_field(
                fields,
                key,
            ) == Some(FloatView::Finite(text)),
{
}

/// Some text of a finite set of texts comes before all others.
proof fn lemma_least(texts: Set<Seq<char>>) -> (least: Seq<char>)
    requires
        texts.finite(),
        texts.len() > 0,
    ensures
        texts.contains(least),
        forall|other: Seq<char>| #[trigger]
            texts.contains(other) && other != least ==> before(least, other),
    decreases texts.len(),
{
    let one = texts.choose();
    let rest = texts.remove(one);
    if rest.len() == 0 {
        assert forall|other: Seq<char>| #[trigger] texts.contains(other) implies other == one by {
            if other != one {
                assert(rest.contains(other));
            }
        }
        one
    } else {
        let least = lemma_least(rest);
        assert(least != one);
        law_order_total(one, least);
        if before(one, least) {
            assert forall|other: Seq<char>| #[trigger]
                texts.contains(other) && other != one implies before(one, other) by {
                assert(rest.contains(other));
                if other != least {
                    law_order_transitive(one, least, other);
                }
            }
            one
        } else {
            assert forall|other: Seq<char>| #[trigger]
                texts.contains(other) && other != least implies before(least, other) by {
                if other != one {
                    assert(rest.contains(other));
                }
            }
            least
        }
    }
}

/// Where a key has a suffix, the first such key is found: it has the suffix, and no key with the
/// suffix comes before it. Where no key has it, none is found.
pub proof fn law_first_key_with_suffix(fields: Map<Seq<char>, Json>, suffix: Seq<char>)
    requires
        fields.dom().finite(),
    ensures
        match first_with_suffix(fields, suffix) {
            Some(first) => {
                &&& fields.contains_key(first)
                &&& has_suffix(first, suffix)
                &&& forall|key: Seq<char>| #[trigger]
                    fields.contains_key(key) && has_suffix(key, suffix) && key != first ==> before(
                        first,
                        key,
                    )
            },
            None => forall|key: Seq<char>| #[trigger]
                fields.contains_key(key) ==> !has_suffix(key, suffix),
        },
{
    let named = fields.dom().filter(|key: Seq<char>| has_suffix(key, suffix));
    if exists|key: Seq<char>| #[trigger] fields.contains_key(key) && has_suffix(key, suffix) {
        let key = choose|key: Seq<char>| #[trigger]
            fields.contains_key(key) && has_suffix(key, suffix);
        assert(named.contains(key));
        assert(named.len() > 0) by {
            vstd::set_lib::lemma_len_subset(named, fields.dom());
            if named.len() == 0 {
                assert(named =~= Set::empty());
            }
        }
        let least = lemma_least(named);
        assert forall|other: Seq<char>| #[trigger]
            fields.contains_key(other) && has_suffix(other, suffix) && other != least implies before(
            least,
            other,
        ) by {
            assert(named.contains(other));
        }
        assert(is_first_with_suffix(fields, suffix, least));
    }
}

} // verus!
