//! The correlation identifier that links a call to its eventual response.

use vstd::prelude::*;

use crate::json::{json_text, parse_text, parsed_json, print_text, DecodeError, JsonModel,
    JsonValue};

verus! {

/// A correlation identifier: a non-negative integer.
#[derive(Debug, PartialEq, Eq, Hash, Clone, Copy)]
pub enum Id {
    /// A numeric identifier.
    Number(u64),
}

impl View for Id {
    type V = int;

    open spec fn view(&self) -> int {
        match self {
            Id::Number(n) => *n as int,
        }
    }
}

/// An identifier value the schema admits: a non-negative integer in the
/// unsigned 64-bit range.
pub open spec fn id_wf(i: int) -> bool {
    0 <= i <= u64::MAX
}

/// The wire form of an identifier: a plain integer.
pub open spec fn id_to_wire(i: int) -> JsonModel {
    JsonModel::Int(i)
}

/// The identifier a wire value decodes to: the integer itself where the
/// value is an admissible integer, nothing otherwise.
pub open spec fn id_from_wire(v: JsonModel) -> Option<int> {
    match v {
        JsonModel::Int(i) => if id_wf(i) {
            Some(i)
        } else {
            None
        },
        _ => None,
    }
}

/// Every constructible identifier is admissible.
pub proof fn lemma_id_view_wf(id: Id)
    ensures
        id_wf(id@),
{
}

/// Decoding inverts encoding on every admissible identifier.
pub proof fn lemma_id_round_trip(i: int)
    requires
        id_wf(i),
    ensures
        id_from_wire(id_to_wire(i)) == Some(i),
{
}

/// Encoding is injective on admissible identifiers.
pub proof fn lemma_id_encoding_injective(a: int, b: int)
    requires
        id_wf(a),
        id_wf(b),
        id_to_wire(a) == id_to_wire(b),
    ensures
        a == b,
{
}

impl Id {
    /// The wire value this identifier is written as.
    pub fn encode(&self) -> (r: JsonValue)
        ensures
            r@ == id_to_wire(self@),
    {
        match self {
            Id::Number(n) => JsonValue::UInt(*n),
        }
    }

    /// The identifier a wire value decodes to; an error exactly where the
    /// value is not an admissible integer.
    pub fn decode(v: &JsonValue) -> (r: Result<Id, DecodeError>)
        ensures
            match r {
                Ok(id) => id_from_wire(v@) == Some(id@),
                Err(e) => id_from_wire(v@) is None && e == DecodeError::Shape,
            },
    {
        match v {
            JsonValue::Int(i) => if *i >= 0 {
                Ok(Id::Number(*i as u64))
            } else {
                Err(DecodeError::Shape)
            },
            JsonValue::UInt(u) => Ok(Id::Number(*u)),
            _ => Err(DecodeError::Shape),
        }
    }

    /// Writes this identifier as JSON text.
    pub fn to_json(&self) -> (r: String)
        ensures
            r@ == json_text(id_to_wire(self@)),
    {
        print_text(&self.encode())
    }

    /// Reads an identifier from JSON text.
    pub fn from_json(text: &str) -> (r: Result<Id, DecodeError>)
        ensures
            match parsed_json(text@) {
                Some(w) => match r {
                    Ok(id) => id_from_wire(w) == Some(id@),
                    Err(e) => id_from_wire(w) is None && e == DecodeError::Shape,
                },
                None => r matches Err(e) && e == DecodeError::Syntax,
            },
    {
        match parse_text(text) {
            Some(v) => Id::decode(&v),
            None => Err(DecodeError::Syntax),
        }
    }
}

} // verus!
