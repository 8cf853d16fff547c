//! The structured wire value that every message shape is encoded into and
//! decoded from, its mathematical model, and the trusted boundary between
//! wire values and JSON text.

use vstd::prelude::*;

use serde_json::Value as SerdeValue;

verus! {

/// A structured wire value: the JSON-like document tree carrying a message.
/// Numbers are restricted to integers, which is all the protocol ever
/// inspects; a signed and an unsigned variant together cover every integer
/// the wire can hold.
#[derive(Debug, PartialEq)]
pub enum JsonValue {
    /// The null value.
    Null,
    /// A boolean value.
    Bool(bool),
    /// An integer in the signed 64-bit range.
    Int(i64),
    /// An unsigned integer too large for `Int`.
    UInt(u64),
    /// A text string.
    Text(String),
    /// An ordered sequence of values.
    Array(Vec<JsonValue>),
    /// An object: key/value fields in order of appearance.
    Object(Vec<(String, JsonValue)>),
}

/// The mathematical model of a wire value: numbers are unbounded integers
/// and text is a sequence of characters, so contracts never speak of
/// representation details.
#[verifier::ext_equal]
pub enum JsonModel {
    Null,
    Bool(bool),
    Int(int),
    Text(Seq<char>),
    Array(Seq<JsonModel>),
    Object(Seq<(Seq<char>, JsonModel)>),
}

/// The model of a wire value.
pub open spec fn json_model_of(v: JsonValue) -> JsonModel
    decreases v,
{
    match v {
        JsonValue::Null => JsonModel::Null,
        JsonValue::Bool(b) => JsonModel::Bool(b),
        JsonValue::Int(i) => JsonModel::Int(i as int),
        JsonValue::UInt(u) => JsonModel::Int(u as int),
        JsonValue::Text(s) => JsonModel::Text(s@),
        JsonValue::Array(a) => JsonModel::Array(elems_model(a@)),
        JsonValue::Object(fields) => JsonModel::Object(fields_model(fields@)),
    }
}

/// The models of the elements of a sequence of wire values.
pub open spec fn elems_model(s: Seq<JsonValue>) -> Seq<JsonModel>
    decreases s,
{
    if s.len() == 0 {
        Seq::empty()
    } else {
        seq![json_model_of(s.first())] + elems_model(s.drop_first())
    }
}

/// The models of the fields of an object.
pub open spec fn fields_model(s: Seq<(String, JsonValue)>) -> Seq<(Seq<char>, JsonModel)>
    decreases s,
{
    if s.len() == 0 {
        Seq::empty()
    } else {
        seq![(s.first().0@, json_model_of(s.first().1))] + fields_model(s.drop_first())
    }
}

impl View for JsonValue {
    type V = JsonModel;

    open spec fn view(&self) -> JsonModel {
        json_model_of(*self)
    }
}

/// The model of a sequence of wire values, element by element.
pub broadcast proof fn lemma_elems_model(s: Seq<JsonValue>)
    ensures
        (#[trigger] elems_model(s)).len() == s.len(),
        forall|i: int| 0 <= i < s.len() ==> #[trigger] elems_model(s)[i] == s[i]@,
    decreases s,
{
    if s.len() > 0 {
        lemma_elems_model(s.drop_first());
        assert(forall|i: int|
            0 < i < s.len() ==> s.drop_first()[i - 1] == #[trigger] s[i]);
    }
}

/// The model of an object's field list, field by field.
pub broadcast proof fn lemma_fields_model(s: Seq<(String, JsonValue)>)
    ensures
        (#[trigger] fields_model(s)).len() == s.len(),
        forall|i: int|
            0 <= i < s.len() ==> #[trigger] fields_model(s)[i] == (s[i].0@, s[i].1@),
    decreases s,
{
    if s.len() > 0 {
        lemma_fields_model(s.drop_first());
        assert(forall|i: int|
            0 < i < s.len() ==> s.drop_first()[i - 1] == #[trigger] s[i]);
    }
}

/// Why a decode failed.
#[derive(Debug, PartialEq, Eq, Clone, Copy)]
pub enum DecodeError {
    /// The input text is not a structured-text document this codec accepts.
    Syntax,
    /// The document does not match the shape of the target type.
    Shape,
}

/// The value under `key` in an object's field list: the first field whose
/// key matches, if any.
pub open spec fn lookup(fields: Seq<(Seq<char>, JsonModel)>, key: Seq<char>) -> Option<JsonModel>
    decreases fields.len(),
{
    if fields.len() == 0 {
        None
    } else if fields[0].0 == key {
        Some(fields[0].1)
    } else {
        lookup(fields.drop_first(), key)
    }
}

/// A lookup finds the value at the first index whose key matches.
pub proof fn lemma_lookup_found(
    fields: Seq<(Seq<char>, JsonModel)>,
    key: Seq<char>,
    i: int,
)
    requires
        0 <= i < fields.len(),
        fields[i].0 == key,
        forall|j: int| 0 <= j < i ==> (#[trigger] fields[j]).0 != key,
    ensures
        lookup(fields, key) == Some(fields[i].1),
    decreases i,
{
    if i > 0 {
        assert(fields[0].0 != key);
        assert(fields.drop_first()[i - 1] == fields[i]);
        assert(forall|j: int| 0 <= j < i - 1 ==> (#[trigger] fields.drop_first()[j]).0 != key)
            by {
            assert(forall|j: int| 0 <= j < i - 1 ==> fields.drop_first()[j] == fields[j + 1]);
        }
        lemma_lookup_found(fields.drop_first(), key, i - 1);
    }
}

/// A lookup succeeds exactly when some field carries the key.
pub proof fn lemma_lookup_is_some(fields: Seq<(Seq<char>, JsonModel)>, key: Seq<char>)
    ensures
        (lookup(fields, key) is Some) <==> (exists|j: int|
            0 <= j < fields.len() && (#[trigger] fields[j]).0 == key),
    decreases fields.len(),
{
    if fields.len() == 0 {
    } else if fields[0].0 == key {
        assert(fields[0].0 == key);
    } else {
        let rest = fields.drop_first();
        lemma_lookup_is_some(rest, key);
        if lookup(fields, key) is Some {
            let j = choose|j: int| 0 <= j < rest.len() && (#[trigger] rest[j]).0 == key;
            assert(fields[j + 1] == rest[j]);
        }
        if exists|j: int| 0 <= j < fields.len() && (#[trigger] fields[j]).0 == key {
            let j = choose|j: int| 0 <= j < fields.len() && (#[trigger] fields[j]).0 == key;
            assert(rest[j - 1] == fields[j]);
        }
    }
}

impl Clone for JsonValue {
    /// A clone keeps the modeled value.
    fn clone(&self) -> (res: Self)
        ensures
            res@ == self@,
        decreases self,
    {
        match self {
            JsonValue::Null => JsonValue::Null,
            JsonValue::Bool(b) => JsonValue::Bool(*b),
            JsonValue::Int(i) => JsonValue::Int(*i),
            JsonValue::UInt(u) => JsonValue::UInt(*u),
            JsonValue::Text(s) => JsonValue::Text(s.clone()),
            JsonValue::Array(a) => JsonValue::Array(clone_values(a)),
            JsonValue::Object(fields) => JsonValue::Object(clone_fields(fields)),
        }
    }
}

/// Clones a sequence of wire values, keeping each modeled value.
pub fn clone_values(a: &Vec<JsonValue>) -> (res: Vec<JsonValue>)
    ensures
        elems_model(res@) == elems_model(a@),
    decreases a,
{
    broadcast use lemma_elems_model;

    let mut res: Vec<JsonValue> = Vec::new();
    let mut i: usize = 0;
    while i < a.len()
        invariant
            i <= a.len(),
            res@.len() == i,
            forall|j: int| 0 <= j < i ==> (#[trigger] res@[j])@ == a@[j]@,
        decreases a.len() - i,
    {
        let elem = &a[i];
        res.push(elem.clone());
        i += 1;
    }
    proof {
        assert(elems_model(res@) =~= elems_model(a@));
    }
    res
}

/// Clones an object's field list, keeping each key and each modeled value.
pub fn clone_fields(fields: &Vec<(String, JsonValue)>) -> (res: Vec<(String, JsonValue)>)
    ensures
        fields_model(res@) == fields_model(fields@),
    decreases fields,
{
    broadcast use lemma_fields_model;

    let mut res: Vec<(String, JsonValue)> = Vec::new();
    let mut i: usize = 0;
    while i < fields.len()
        invariant
            i <= fields.len(),
            res@.len() == i,
            forall|j: int|
                0 <= j < i ==> (#[trigger] res@[j]).0@ == fields@[j].0@ && res@[j].1@
                    == fields@[j].1@,
        decreases fields.len() - i,
    {
        let pair = &fields[i];
        res.push((pair.0.clone(), pair.1.clone()));
        i += 1;
    }
    proof {
        assert(fields_model(res@) =~= fields_model(fields@));
    }
    res
}

/// Borrows the value under `key` in an object's field list, following the
/// model-level `lookup`.
pub fn get_field<'a>(fields: &'a Vec<(String, JsonValue)>, key: &str) -> (r: Option<
    &'a JsonValue,
>)
    ensures
        match r {
            Some(v) => lookup(fields_model(fields@), key@) == Some(v@),
            None => lookup(fields_model(fields@), key@) is None,
        },
{
    broadcast use lemma_fields_model;

    let wanted: String = key.to_owned();
    let mut i: usize = 0;
    while i < fields.len()
        invariant
            i <= fields.len(),
            wanted@ == key@,
            forall|j: int| 0 <= j < i ==> (#[trigger] fields@[j]).0@ != key@,
        decreases fields.len() - i,
    {
        if fields[i].0 == wanted {
            proof {
                broadcast use lemma_fields_model;

                assert(fields_model(fields@)[i as int].0 == key@);
                assert(forall|j: int|
                    0 <= j < i ==> (#[trigger] fields_model(fields@)[j]).0 != key@);
                lemma_lookup_found(fields_model(fields@), key@, i as int);
            }
            return Some(&fields[i].1);
        }
        i += 1;
    }
    proof {
        lemma_lookup_is_some(fields_model(fields@), key@);
    }
    None
}

/// The wire value that JSON text parses to, or `None` where the text is not
/// a JSON document every number of which is an integer.
pub uninterp spec fn parsed_json(text: Seq<char>) -> Option<JsonModel>;

/// The JSON text that a wire value is written as.
pub uninterp spec fn json_text(v: JsonModel) -> Seq<char>;

/// Declares serde_json's value type so that the trusted text boundary can
/// carry it.
#[verifier::external_type_specification]
#[verifier::external_body]
pub struct ExSerdeValue(serde_json::Value);

/// Builds the serde_json form of a wire value. Only the trusted text
/// boundary calls it; both integer variants of equal value take the same
/// serde_json form, so the text written for a value depends on its model
/// alone.
#[verifier::external_body]
fn json_to_value(v: &JsonValue) -> SerdeValue {
    match v {
        JsonValue::Null => SerdeValue::Null,
        JsonValue::Bool(b) => SerdeValue::Bool(*b),
        JsonValue::Int(i) => SerdeValue::Number(serde_json::Number::from(*i)),
        JsonValue::UInt(u) => SerdeValue::Number(serde_json::Number::from(*u)),
        JsonValue::Text(s) => SerdeValue::String(s.clone()),
        JsonValue::Array(a) => SerdeValue::Array(a.iter().map(json_to_value).collect()),
        JsonValue::Object(f) => SerdeValue::Object(
            f.iter().map(|p| (p.0.clone(), json_to_value(&p.1))).collect(),
        ),
    }
}

/// Reads a serde_json value as a wire value, failing on any number that is
/// not an integer. Only the trusted text boundary calls it.
#[verifier::external_body]
fn value_to_json(v: SerdeValue) -> Option<JsonValue> {
    match v {
        SerdeValue::Null => Some(JsonValue::Null),
        SerdeValue::Bool(b) => Some(JsonValue::Bool(b)),
        SerdeValue::Number(n) => n.as_i64().map(JsonValue::Int).or_else(
            || n.as_u64().map(JsonValue::UInt),
        ),
        SerdeValue::String(s) => Some(JsonValue::Text(s)),
        SerdeValue::Array(a) => a.into_iter().map(value_to_json).collect::<Option<Vec<_>>>().map(
            JsonValue::Array,
        ),
        SerdeValue::Object(m) => m.into_iter().map(
            |p| Some((p.0, value_to_json(p.1)?)),
        ).collect::<Option<Vec<_>>>().map(JsonValue::Object),
    }
}

/// Relies on serde_json::from_str::<serde_json::Value>: parsing is a
/// function of the input text alone, and yields the document the text
/// spells.
#[verifier::external_body]
pub(crate) fn parse_text(text: &str) -> (r: Option<JsonValue>)
    ensures
        match r {
            Some(v) => parsed_json(text@) == Some(v@),
            None => parsed_json(text@) is None,
        },
{
    match serde_json::from_str::<SerdeValue>(text) {
        Ok(v) => value_to_json(v),
        Err(_) => None,
    }
}

/// Relies on serde_json::to_string on a serde_json::Value: it writes the
/// value as JSON text, as a function of the value alone, and cannot fail on
/// a value built by `json_to_value`.
#[verifier::external_body]
pub(crate) fn print_text(v: &JsonValue) -> (r: String)
    ensures
        r@ == json_text(v@),
{
    match serde_json::to_string(&json_to_value(v)) {
        Ok(text) => text,
        Err(_) => String::new(),
    }
}

} // verus!
