//! JSON values as the wire format sees them.
//!
//! The tree itself is `serde_json::Value`. Verified code never looks inside
//! one: it reads and builds values through the functions of this module, whose
//! contracts are stated over [`JsonModel`], the mathematical content of a
//! value. None of those contracts is proved; each one restates what
//! `serde_json` documents.

use vstd::prelude::*;

verus! {

/// What a JSON number holds.
pub enum NumberModel {
    /// An integer from zero up.
    Unsigned(u64),
    /// An integer below zero.
    Negative(i64),
    /// Any other finite number, told apart by its binary pattern.
    Real(u64),
}

/// What a JSON value holds. The members of an object are listed in the order
/// in which the value walks them, and no key occurs twice among them.
pub enum JsonModel {
    Null,
    Bool(bool),
    Number(NumberModel),
    Text(Seq<char>),
    Array(Seq<JsonModel>),
    Object(Seq<(Seq<char>, JsonModel)>),
}

/// `serde_json::Value`, a JSON value. The verifier does not see inside one;
/// what it holds is spoken of through [`value_of`].
#[verifier::external_type_specification]
#[verifier::external_body]
pub struct ExValue(serde_json::Value);

/// The content of a `serde_json::Value`.
pub uninterp spec fn value_of(v: serde_json::Value) -> JsonModel;

/// The value that `serde_json::from_str` reads from a text, if it reads one.
pub uninterp spec fn parsed(text: Seq<char>) -> Option<JsonModel>;

/// The compact text that `serde_json` writes for a value.
pub uninterp spec fn printed(json: JsonModel) -> Seq<char>;

/// The contents of a list of values, one by one.
pub open spec fn values_of(items: Seq<serde_json::Value>) -> Seq<JsonModel> {
    items.map_values(|v: serde_json::Value| value_of(v))
}

/// The contents of a list of keyed values, one by one.
pub open spec fn members_of(members: Seq<(String, serde_json::Value)>) -> Seq<(Seq<char>, JsonModel)> {
    members.map_values(|m: (String, serde_json::Value)| (m.0@, value_of(m.1)))
}

/// No key occurs twice.
pub open spec fn distinct_keys(members: Seq<(Seq<char>, JsonModel)>) -> bool {
    forall|i: int, j: int|
        0 <= i < j < members.len() ==> (#[trigger] members[i]).0 != (#[trigger] members[j]).0
}

/// The member under a key. An object names no key twice; in a list that does,
/// the last one counts.
pub open spec fn lookup(members: Seq<(Seq<char>, JsonModel)>, key: Seq<char>) -> Option<JsonModel>
    decreases members.len(),
{
    if members.len() == 0 {
        None
    } else if members.last().0 == key {
        Some(members.last().1)
    } else {
        lookup(members.drop_last(), key)
    }
}

/// The member of an object under a key; nothing for a value that is no object.
pub open spec fn member_of(json: JsonModel, key: Seq<char>) -> Option<JsonModel> {
    match json {
        JsonModel::Object(members) => lookup(members, key),
        _ => None,
    }
}

/// `serde_json::from_str` at `Value`: the value read from the text, or
/// nothing where the text is not one JSON document.
#[verifier::external_body]
pub(crate) fn parse(text: &str) -> (r: Option<serde_json::Value>)
    ensures
        r matches Some(v) ==> parsed(text@) == Some(value_of(v)),
        r is None ==> parsed(text@) is None,
{
    serde_json::from_str::<serde_json::Value>(text).ok()
}

/// `Value`'s `Display`: the compact JSON text of the value.
#[verifier::external_body]
pub(crate) fn print(v: &serde_json::Value) -> (r: String)
    ensures
        r@ == printed(value_of(*v)),
{
    v.to_string()
}

/// `Value::get` with a string index: the member of an object under `key`.
#[verifier::external_body]
pub(crate) fn member<'a>(v: &'a serde_json::Value, key: &str) -> (r: Option<&'a serde_json::Value>)
    ensures
        r matches Some(m) ==> member_of(value_of(*v), key@) == Some(value_of(*m)),
        r is None ==> member_of(value_of(*v), key@) is None,
{
    v.get(key)
}

/// `Value::as_str`: the text of a string value.
pub assume_specification[ serde_json::Value::as_str ](v: &serde_json::Value) -> (r: Option<&str>)
    ensures
        r matches Some(s) ==> value_of(*v) == JsonModel::Text(s@),
        r is None ==> !(value_of(*v) is Text),
;

/// `Value::as_u64`: the integer of a number that is one from zero up.
pub assume_specification[ serde_json::Value::as_u64 ](v: &serde_json::Value) -> (r: Option<u64>)
    ensures
        r matches Some(n) ==> value_of(*v) == JsonModel::Number(NumberModel::Unsigned(n)),
        r is None ==> !(value_of(*v) matches JsonModel::Number(NumberModel::Unsigned(_))),
;

/// `Value::as_bool`: the truth value of a boolean.
pub assume_specification[ serde_json::Value::as_bool ](v: &serde_json::Value) -> (r: Option<bool>)
    ensures
        r matches Some(b) ==> value_of(*v) == JsonModel::Bool(b),
        r is None ==> !(value_of(*v) is Bool),
;

/// `Value::as_array`: the elements of an array.
pub assume_specification[ serde_json::Value::as_array ](v: &serde_json::Value) -> (r: Option<&Vec<serde_json::Value>>)
    ensures
        r matches Some(items) ==> value_of(*v) == JsonModel::Array(values_of(items@)),
        r is None ==> !(value_of(*v) is Array),
;

/// `Value::is_null`.
pub assume_specification[ serde_json::Value::is_null ](v: &serde_json::Value) -> (r: bool)
    ensures
        r == (value_of(*v) is Null),
;

/// `Value::is_object`.
pub assume_specification[ serde_json::Value::is_object ](v: &serde_json::Value) -> (r: bool)
    ensures
        r == (value_of(*v) is Object),
;

/// `Value::is_number`.
pub assume_specification[ serde_json::Value::is_number ](v: &serde_json::Value) -> (r: bool)
    ensures
        r == (value_of(*v) is Number),
;

/// `Value`'s `Clone`: a value with the same content.
pub assume_specification[ <serde_json::Value as Clone>::clone ](v: &serde_json::Value) -> (r: serde_json::Value)
    ensures
        value_of(r) == value_of(*v),
;

/// `Value::default`: the null value.
#[verifier::external_body]
pub(crate) fn null_value() -> (r: serde_json::Value)
    ensures
        value_of(r) == JsonModel::Null,
{
    serde_json::Value::default()
}

/// `Value::from` at `bool`.
#[verifier::external_body]
pub(crate) fn bool_value(b: bool) -> (r: serde_json::Value)
    ensures
        value_of(r) == JsonModel::Bool(b),
{
    serde_json::Value::from(b)
}

/// `Value::from` at `u64`.
#[verifier::external_body]
pub(crate) fn unsigned_value(n: u64) -> (r: serde_json::Value)
    ensures
        value_of(r) == JsonModel::Number(NumberModel::Unsigned(n)),
{
    serde_json::Value::from(n)
}

/// `Value::from` at `String`.
#[verifier::external_body]
pub(crate) fn text_value(s: String) -> (r: serde_json::Value)
    ensures
        value_of(r) == JsonModel::Text(s@),
{
    serde_json::Value::from(s)
}

/// `Value::from` at a vector of values: the array of them, in order.
#[verifier::external_body]
pub(crate) fn array_value(items: Vec<serde_json::Value>) -> (r: serde_json::Value)
    ensures
        value_of(r) == JsonModel::Array(values_of(items@)),
{
    serde_json::Value::from(items)
}

/// `Value::from_iter` at keyed values: the object that holds them. With no
/// key given twice the members stand in the order given; of another list
/// nothing is said here.
#[verifier::external_body]
pub(crate) fn object_value(members: Vec<(String, serde_json::Value)>) -> (r: serde_json::Value)
    ensures
        distinct_keys(members_of(members@)) ==> value_of(r) == JsonModel::Object(
            members_of(members@),
        ),
{
    serde_json::Value::from_iter(members)
}

/// The member of an object under a key, where it is there and not null: the
/// reading of a field that may be left out.
pub open spec fn field_of(json: JsonModel, key: Seq<char>) -> Option<JsonModel> {
    match member_of(json, key) {
        Some(JsonModel::Null) => None,
        found => found,
    }
}

/// The text of a string value.
pub open spec fn text_of(json: JsonModel) -> Option<Seq<char>> {
    match json {
        JsonModel::Text(s) => Some(s),
        _ => None,
    }
}

/// The integer of a number from zero up.
pub open spec fn unsigned_of(json: JsonModel) -> Option<u64> {
    match json {
        JsonModel::Number(NumberModel::Unsigned(n)) => Some(n),
        _ => None,
    }
}

/// The truth value of a boolean.
pub open spec fn bool_of(json: JsonModel) -> Option<bool> {
    match json {
        JsonModel::Bool(b) => Some(b),
        _ => None,
    }
}

/// The number of a number value.
pub open spec fn number_of(json: JsonModel) -> Option<NumberModel> {
    match json {
        JsonModel::Number(n) => Some(n),
        _ => None,
    }
}

/// The reading of a field that may be left out: nothing found reads as
/// "not set"; something found must read through `read`, or the whole reading
/// fails (the outer `None`).
pub open spec fn optional<T>(found: Option<JsonModel>, read: spec_fn(JsonModel) -> Option<T>) -> Option<Option<T>> {
    match found {
        None => Some(None),
        Some(json) => match read(json) {
            Some(t) => Some(Some(t)),
            None => None,
        },
    }
}

/// The writing of a field that may be left out.
pub open spec fn written<T>(field: Option<T>, write: spec_fn(T) -> JsonModel) -> Option<JsonModel> {
    match field {
        Some(t) => Some(write(t)),
        None => None,
    }
}

/// Whether two texts are the same.
pub fn same_text(a: &str, b: &str) -> (r: bool)
    ensures
        r == (a@ == b@),
{
    a.to_owned() == b.to_owned()
}

/// The member of an object under a key, where it is there and not null.
pub(crate) fn field<'a>(v: &'a serde_json::Value, key: &str) -> (r: Option<&'a serde_json::Value>)
    ensures
        r matches Some(m) ==> field_of(value_of(*v), key@) == Some(value_of(*m)),
        r is None ==> field_of(value_of(*v), key@) is None,
{
    match member(v, key) {
        Some(m) => if m.is_null() {
            None
        } else {
            Some(m)
        },
        None => None,
    }
}

/// Adds a field to the members of an object in the making, or leaves them as
/// they are where the field is not set.
pub(crate) fn put(members: &mut Vec<(String, serde_json::Value)>, key: &str, value: Option<serde_json::Value>)
    ensures
        members_of(final(members)@) == match value {
            Some(v) => members_of(old(members)@).push((key@, value_of(v))),
            None => members_of(old(members)@),
        },
{
    if let Some(v) = value {
        members.push((key.to_owned(), v));
        assert(members_of(members@) =~= members_of(old(members)@).push((key@, value_of(v))));
    }
}

/// What was found for a field, as content.
pub open spec fn found_of(found: Option<&serde_json::Value>) -> Option<JsonModel> {
    match found {
        Some(v) => Some(value_of(*v)),
        None => None,
    }
}

/// Reads a text field that may be left out.
pub(crate) fn read_text(found: Option<&serde_json::Value>) -> (r: Option<Option<String>>)
    ensures
        match optional(found_of(found), |j: JsonModel| text_of(j)) {
            Some(Some(s)) => r matches Some(Some(t)) && t@ == s,
            Some(None) => r == Some(None::<String>),
            None => r is None,
        },
{
    match found {
        None => Some(None),
        Some(v) => match v.as_str() {
            Some(s) => Some(Some(s.to_owned())),
            None => None,
        },
    }
}

/// Reads an integer field that may be left out.
pub(crate) fn read_unsigned(found: Option<&serde_json::Value>) -> (r: Option<Option<u64>>)
    ensures
        r == optional(found_of(found), |j: JsonModel| unsigned_of(j)),
{
    match found {
        None => Some(None),
        Some(v) => match v.as_u64() {
            Some(n) => Some(Some(n)),
            None => None,
        },
    }
}

/// Reads a boolean field that may be left out.
pub(crate) fn read_bool(found: Option<&serde_json::Value>) -> (r: Option<Option<bool>>)
    ensures
        r == optional(found_of(found), |j: JsonModel| bool_of(j)),
{
    match found {
        None => Some(None),
        Some(v) => match v.as_bool() {
            Some(b) => Some(Some(b)),
            None => None,
        },
    }
}

/// Reads a number field that may be left out.
pub(crate) fn read_number(found: Option<&serde_json::Value>) -> (r: Option<Option<Number>>)
    ensures
        match optional(found_of(found), |j: JsonModel| number_of(j)) {
            Some(Some(n)) => r matches Some(Some(m)) && m@ == n,
            Some(None) => r matches Some(None),
            None => r is None,
        },
{
    match found {
        None => Some(None),
        Some(v) => match Number::from_value(v.clone()) {
            Some(n) => Some(Some(n)),
            None => None,
        },
    }
}

/// Reads a text member that must be there.
pub(crate) fn need_text(v: &serde_json::Value, key: &str) -> (r: Option<String>)
    ensures
        match member_of(value_of(*v), key@) {
            Some(JsonModel::Text(s)) => r matches Some(t) && t@ == s,
            _ => r is None,
        },
{
    match member(v, key) {
        Some(m) => match m.as_str() {
            Some(s) => Some(s.to_owned()),
            None => None,
        },
        None => None,
    }
}

/// Reads an integer member that must be there.
pub(crate) fn need_unsigned(v: &serde_json::Value, key: &str) -> (r: Option<u64>)
    ensures
        r == match member_of(value_of(*v), key@) {
            Some(JsonModel::Number(NumberModel::Unsigned(n))) => Some(n),
            _ => None,
        },
{
    match member(v, key) {
        Some(m) => m.as_u64(),
        None => None,
    }
}

/// A JSON number, carried as the wire holds it. The library passes such a
/// number on without looking into it, which is all it ever does with a
/// threshold, a temperature or a speed.
#[derive(Debug, PartialEq)]
pub struct Number {
    value: serde_json::Value,
}

impl View for Number {
    type V = NumberModel;

    closed spec fn view(&self) -> NumberModel {
        match value_of(self.value) {
            JsonModel::Number(n) => n,
            _ => NumberModel::Unsigned(0),
        }
    }
}

impl Clone for Number {
    fn clone(&self) -> (r: Self)
        ensures
            r@ == self@,
    {
        proof {
            use_type_invariant(self);
        }
        Number { value: self.value.clone() }
    }
}

impl Number {
    #[verifier::type_invariant]
    spec fn holds_number(self) -> bool {
        value_of(self.value) is Number
    }

    /// Takes a value for a number, if it is one.
    pub fn from_value(value: serde_json::Value) -> (r: Option<Number>)
        ensures
            r matches Some(n) ==> value_of(value) == JsonModel::Number(n@),
            r is None ==> !(value_of(value) is Number),
    {
        if value.is_number() {
            Some(Number { value })
        } else {
            None
        }
    }

    /// The integer `n` as a number.
    pub fn from_unsigned(n: u64) -> (r: Number)
        ensures
            r@ == NumberModel::Unsigned(n),
    {
        Number { value: unsigned_value(n) }
    }

    /// Reads a number from its JSON text, such as `0.5`. Nothing comes back
    /// where the text is no JSON document or holds something else than one
    /// number.
    pub fn parse(text: &str) -> (r: Option<Number>)
        ensures
            r matches Some(n) ==> parsed(text@) == Some(JsonModel::Number(n@)),
            r is None ==> !(parsed(text@) matches Some(JsonModel::Number(_))),
    {
        match parse(text) {
            Some(value) => Number::from_value(value),
            None => None,
        }
    }

    /// The number as a JSON value.
    pub fn to_value(&self) -> (r: serde_json::Value)
        ensures
            value_of(r) == JsonModel::Number(self@),
    {
        proof {
            use_type_invariant(self);
        }
        self.value.clone()
    }

    /// The JSON text of the number.
    pub fn to_text(&self) -> (r: String)
        ensures
            r@ == printed(JsonModel::Number(self@)),
    {
        proof {
            use_type_invariant(self);
        }
        print(&self.value)
    }
}

/// The fields of an object as a type writes them down: each key with the
/// value of the field, or with nothing where the field is left out.
pub open spec fn present(fields: Seq<(Seq<char>, Option<JsonModel>)>) -> Seq<(Seq<char>, JsonModel)>
    decreases fields.len(),
{
    if fields.len() == 0 {
        Seq::empty()
    } else {
        let rest = present(fields.drop_last());
        match fields.last().1 {
            Some(json) => rest.push((fields.last().0, json)),
            None => rest,
        }
    }
}

/// No field is written down twice.
pub open spec fn distinct_fields(fields: Seq<(Seq<char>, Option<JsonModel>)>) -> bool {
    forall|i: int, j: int|
        0 <= i < j < fields.len() ==> (#[trigger] fields[i]).0 != (#[trigger] fields[j]).0
}

/// A key is the key of one of the fields.
pub open spec fn names_field(fields: Seq<(Seq<char>, Option<JsonModel>)>, key: Seq<char>) -> bool {
    exists|i: int| 0 <= i < fields.len() && (#[trigger] fields[i]).0 == key
}

/// Every member that `present` keeps comes from a field of that key.
pub proof fn lemma_present_keys(fields: Seq<(Seq<char>, Option<JsonModel>)>)
    ensures
        forall|k: int|
            0 <= k < present(fields).len() ==> names_field(
                fields,
                (#[trigger] present(fields)[k]).0,
            ),
    decreases fields.len(),
{
    if fields.len() > 0 {
        let front = fields.drop_last();
        lemma_present_keys(front);
        assert forall|k: int| 0 <= k < present(fields).len() implies names_field(
            fields,
            (#[trigger] present(fields)[k]).0,
        ) by {
            if k < present(front).len() {
                let i = choose|i: int| 0 <= i < front.len() && (#[trigger] front[i]).0 == present(front)[k].0;
                assert(fields[i] == front[i]);
            } else {
                assert(fields[fields.len() - 1].0 == present(fields)[k].0);
            }
        }
    }
}

/// Fields with distinct keys read back as written: the object that `present`
/// makes of them names no key twice, holds under each field's key what the
/// field holds, and holds nothing under any other key.
pub proof fn lemma_present_reads_back(fields: Seq<(Seq<char>, Option<JsonModel>)>)
    requires
        distinct_fields(fields),
    ensures
        distinct_keys(present(fields)),
        forall|i: int| 0 <= i < fields.len() ==> lookup(present(fields), (#[trigger] fields[i]).0) == fields[i].1,
        forall|key: Seq<char>| !names_field(fields, key) ==> lookup(present(fields), key) is None,
    decreases fields.len(),
{
    if fields.len() > 0 {
        let front = fields.drop_last();
        let last = fields.last();
        assert forall|i: int, j: int| 0 <= i < j < front.len() implies (#[trigger] front[i]).0 != (#[trigger] front[j]).0 by {
            assert(fields[i] == front[i] && fields[j] == front[j]);
        }
        lemma_present_reads_back(front);
        lemma_present_keys(front);
        assert(!names_field(front, last.0)) by {
            if names_field(front, last.0) {
                let i = choose|i: int| 0 <= i < front.len() && (#[trigger] front[i]).0 == last.0;
                assert(fields[i] == front[i]);
                assert(fields[fields.len() - 1] == last);
            }
        }
        let made = present(fields);
        if last.1 is Some {
            assert(made.drop_last() == present(front));
        }
        assert forall|i: int, j: int| 0 <= i < j < made.len() implies (#[trigger] made[i]).0 != (#[trigger] made[j]).0 by {
            if j == present(front).len() {
                assert(names_field(front, present(front)[i].0));
            }
        }
        assert forall|i: int| 0 <= i < fields.len() implies lookup(made, (#[trigger] fields[i]).0) == fields[i].1 by {
            if i < front.len() {
                assert(fields[i] == front[i]);
                assert(names_field(front, front[i].0));
            }
        }
        assert forall|key: Seq<char>| !names_field(fields, key) implies lookup(made, key) is None by {
            assert(fields[fields.len() - 1].0 != key);
            if names_field(front, key) {
                let i = choose|i: int| 0 <= i < front.len() && (#[trigger] front[i]).0 == key;
                assert(fields[i] == front[i]);
            }
        }
    }
}

} // verus!
