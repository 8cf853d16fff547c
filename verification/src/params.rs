//! The argument payload handed to an invoked method.

use vstd::prelude::*;

use crate::json::{clone_fields, clone_values, elems_model, fields_model, json_text, parse_text,
    parsed_json, print_text, DecodeError, JsonModel, JsonValue};

verus! {

/// Request parameters: either an ordered sequence of positional values or a
/// keyed collection of named values. Absent parameters are distinct from an
/// empty sequence or collection, so absence is represented by the caller,
/// not here.
#[derive(Debug, PartialEq)]
pub enum Params {
    /// Positional parameters.
    Array(Vec<JsonValue>),
    /// Named parameters.
    Object(Vec<(String, JsonValue)>),
}

/// The mathematical model of a parameter payload.
#[verifier::ext_equal]
pub enum ParamsModel {
    Array(Seq<JsonModel>),
    Object(Seq<(Seq<char>, JsonModel)>),
}

impl View for Params {
    type V = ParamsModel;

    open spec fn view(&self) -> ParamsModel {
        match self {
            Params::Array(a) => ParamsModel::Array(elems_model(a@)),
            Params::Object(f) => ParamsModel::Object(fields_model(f@)),
        }
    }
}

/// The wire form of a parameter payload: the sequence or the keyed
/// collection itself.
pub open spec fn params_to_wire(p: ParamsModel) -> JsonModel {
    match p {
        ParamsModel::Array(s) => JsonModel::Array(s),
        ParamsModel::Object(f) => JsonModel::Object(f),
    }
}

/// The parameter payload a wire value decodes to: an array decodes to the
/// positional form, an object to the named form, and any other shape to
/// nothing.
pub open spec fn params_from_wire(v: JsonModel) -> Option<ParamsModel> {
    match v {
        JsonModel::Array(s) => Some(ParamsModel::Array(s)),
        JsonModel::Object(f) => Some(ParamsModel::Object(f)),
        _ => None,
    }
}

/// Decoding inverts encoding on every parameter payload.
pub proof fn lemma_params_round_trip(p: ParamsModel)
    ensures
        params_from_wire(params_to_wire(p)) == Some(p),
{
}

/// Encoding is injective on parameter payloads.
pub proof fn lemma_params_encoding_injective(a: ParamsModel, b: ParamsModel)
    requires
        params_to_wire(a) == params_to_wire(b),
    ensures
        a == b,
{
    lemma_params_round_trip(a);
    lemma_params_round_trip(b);
}

impl Params {
    /// The wire value this parameter payload is written as.
    pub fn encode(&self) -> (r: JsonValue)
        ensures
            r@ == params_to_wire(self@),
    {
        match self {
            Params::Array(a) => JsonValue::Array(clone_values(a)),
            Params::Object(f) => JsonValue::Object(clone_fields(f)),
        }
    }

    /// The parameter payload a wire value decodes to; an error exactly
    /// where the value is neither an array nor an object.
    pub fn decode(v: &JsonValue) -> (r: Result<Params, DecodeError>)
        ensures
            match r {
                Ok(p) => params_from_wire(v@) == Some(p@),
                Err(e) => params_from_wire(v@) is None && e == DecodeError::Shape,
            },
    {
        match v {
            JsonValue::Array(a) => Ok(Params::Array(clone_values(a))),
            JsonValue::Object(f) => Ok(Params::Object(clone_fields(f))),
            _ => Err(DecodeError::Shape),
        }
    }

    /// Writes this parameter payload as JSON text.
    pub fn to_json(&self) -> (r: String)
        ensures
            r@ == json_text(params_to_wire(self@)),
    {
        print_text(&self.encode())
    }

    /// Reads a parameter payload from JSON text.
    pub fn from_json(text: &str) -> (r: Result<Params, DecodeError>)
        ensures
            match parsed_json(text@) {
                Some(w) => match r {
                    Ok(p) => params_from_wire(w) == Some(p@),
                    Err(e) => params_from_wire(w) is None && e == DecodeError::Shape,
                },
                None => r matches Err(e) && e == DecodeError::Syntax,
            },
    {
        match parse_text(text) {
            Some(v) => Params::decode(&v),
            None => Err(DecodeError::Syntax),
        }
    }
}

} // verus!
