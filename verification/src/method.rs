//! The name of the operation a request invokes.

use vstd::prelude::*;

use crate::json::{json_text, parse_text, parsed_json, print_text, DecodeError, JsonModel,
    JsonValue};

verus! {

/// A method name: a text string, kept exactly as given (case-sensitive,
/// untrimmed, possibly empty).
#[derive(Debug, PartialEq, Eq, Hash)]
pub enum Method {
    /// A textual method name.
    Name(String),
}

impl View for Method {
    type V = Seq<char>;

    open spec fn view(&self) -> Seq<char> {
        match self {
            Method::Name(s) => s@,
        }
    }
}

impl Clone for Method {
    /// A clone keeps the name.
    fn clone(&self) -> (res: Self)
        ensures
            res@ == self@,
    {
        match self {
            Method::Name(s) => Method::Name(s.clone()),
        }
    }
}

/// The wire form of a method name: a plain string.
pub open spec fn method_to_wire(m: Seq<char>) -> JsonModel {
    JsonModel::Text(m)
}

/// The method name a wire value decodes to: the string itself where the
/// value is a string, nothing otherwise.
pub open spec fn method_from_wire(v: JsonModel) -> Option<Seq<char>> {
    match v {
        JsonModel::Text(s) => Some(s),
        _ => None,
    }
}

/// Decoding inverts encoding on every method name.
pub proof fn lemma_method_round_trip(m: Seq<char>)
    ensures
        method_from_wire(method_to_wire(m)) == Some(m),
{
}

/// Encoding is injective on method names.
pub proof fn lemma_method_encoding_injective(a: Seq<char>, b: Seq<char>)
    requires
        method_to_wire(a) == method_to_wire(b),
    ensures
        a == b,
{
}

impl Method {
    /// The name as a string slice.
    pub fn name(&self) -> (r: &str)
        ensures
            r@ == self@,
    {
        match self {
            Method::Name(s) => s.as_str(),
        }
    }

    /// The wire value this method name is written as.
    pub fn encode(&self) -> (r: JsonValue)
        ensures
            r@ == method_to_wire(self@),
    {
        match self {
            Method::Name(s) => JsonValue::Text(s.clone()),
        }
    }

    /// The method name a wire value decodes to; an error exactly where the
    /// value is not a string.
    pub fn decode(v: &JsonValue) -> (r: Result<Method, DecodeError>)
        ensures
            match r {
                Ok(m) => method_from_wire(v@) == Some(m@),
                Err(e) => method_from_wire(v@) is None && e == DecodeError::Shape,
            },
    {
        match v {
            JsonValue::Text(s) => Ok(Method::Name(s.clone())),
            _ => Err(DecodeError::Shape),
        }
    }

    /// Writes this method name as JSON text.
    pub fn to_json(&self) -> (r: String)
        ensures
            r@ == json_text(method_to_wire(self@)),
    {
        print_text(&self.encode())
    }

    /// Reads a method name from JSON text.
    pub fn from_json(text: &str) -> (r: Result<Method, DecodeError>)
        ensures
            match parsed_json(text@) {
                Some(w) => match r {
                    Ok(m) => method_from_wire(w) == Some(m@),
                    Err(e) => method_from_wire(w) is None && e == DecodeError::Shape,
                },
                None => r matches Err(e) && e == DecodeError::Syntax,
            },
    {
        match parse_text(text) {
            Some(v) => Method::decode(&v),
            None => Err(DecodeError::Syntax),
        }
    }
}

} // verus!
