//! A successful response to a call.

use vstd::prelude::*;

use crate::id::{id_from_wire, id_to_wire, id_wf, lemma_id_round_trip, Id};
use crate::json::{fields_model, get_field, json_text, lemma_fields_model, lookup, parse_text,
    parsed_json, print_text, DecodeError, JsonModel, JsonValue};

verus! {

/// A success: the correlation identifier of the answered call together
/// with the invocation's result, an arbitrary structured value whose shape
/// is out of scope for this layer.
#[derive(Debug, PartialEq)]
pub struct Success {
    /// The identifier of the call being answered.
    pub id: Id,
    /// The invocation's result.
    pub result: JsonValue,
}

/// The mathematical model of a success.
#[verifier::ext_equal]
pub struct SuccessModel {
    pub id: int,
    pub result: JsonModel,
}

impl View for Success {
    type V = SuccessModel;

    open spec fn view(&self) -> SuccessModel {
        SuccessModel { id: self.id@, result: self.result@ }
    }
}

/// A success the wire can carry: its identifier is admissible.
pub open spec fn success_wf(s: SuccessModel) -> bool {
    id_wf(s.id)
}

/// The wire form of a success: an object with exactly the fields `id` and
/// `result`, in that order.
pub open spec fn success_to_wire(s: SuccessModel) -> JsonModel {
    JsonModel::Object(seq![("id"@, id_to_wire(s.id)), ("result"@, s.result)])
}

/// The success a wire value decodes to: an object with exactly the two
/// fields `id` (an admissible identifier) and `result` (any value), and no
/// other field.
pub open spec fn success_from_wire(v: JsonModel) -> Option<SuccessModel> {
    match v {
        JsonModel::Object(fs) => if fs.len() == 2 {
            match (lookup(fs, "id"@), lookup(fs, "result"@)) {
                (Some(iv), Some(rv)) => match id_from_wire(iv) {
                    Some(i) => Some(SuccessModel { id: i, result: rv }),
                    None => None,
                },
                _ => None,
            }
        } else {
            None
        },
        _ => None,
    }
}

/// Decoding inverts encoding on every well-formed success.
pub proof fn lemma_success_round_trip(s: SuccessModel)
    requires
        success_wf(s),
    ensures
        success_from_wire(success_to_wire(s)) == Some(s),
{
    reveal_strlit("id");
    reveal_strlit("result");
    reveal_with_fuel(lookup, 3);
    let fs = success_to_wire(s)->Object_0;
    assert("id"@.len() == 2);
    assert("result"@.len() == 6);
    assert(fs.drop_first()[0] == fs[1]);
    assert(lookup(fs, "id"@) == Some(id_to_wire(s.id)));
    assert(lookup(fs, "result"@) == Some(s.result));
    lemma_id_round_trip(s.id);
}

impl Success {
    /// The wire value this success is written as.
    pub fn encode(&self) -> (r: JsonValue)
        ensures
            r@ == success_to_wire(self@),
    {
        let mut fields: Vec<(String, JsonValue)> = Vec::new();
        fields.push(("id".to_owned(), self.id.encode()));
        fields.push(("result".to_owned(), self.result.clone()));
        let r = JsonValue::Object(fields);
        proof {
            broadcast use lemma_fields_model;

            assert(fields_model(fields@) =~= success_to_wire(self@)->Object_0);
        }
        r
    }

    /// The success a wire value decodes to; an error exactly where the
    /// value is not an object with the exact field set `id` (an admissible
    /// identifier) and `result`.
    pub fn decode(v: &JsonValue) -> (r: Result<Success, DecodeError>)
        ensures
            match r {
                Ok(s) => success_from_wire(v@) == Some(s@),
                Err(e) => success_from_wire(v@) is None && e == DecodeError::Shape,
            },
    {
        broadcast use lemma_fields_model;

        match v {
            JsonValue::Object(fields) => {
                if fields.len() != 2 {
                    return Err(DecodeError::Shape);
                }
                let iv = match get_field(fields, "id") {
                    Some(w) => w,
                    None => return Err(DecodeError::Shape),
                };
                let rv = match get_field(fields, "result") {
                    Some(w) => w,
                    None => return Err(DecodeError::Shape),
                };
                let id = match Id::decode(iv) {
                    Ok(x) => x,
                    Err(e) => return Err(e),
                };
                Ok(Success { id, result: rv.clone() })
            },
            _ => Err(DecodeError::Shape),
        }
    }

    /// Writes this success as JSON text.
    pub fn to_json(&self) -> (r: String)
        ensures
            r@ == json_text(success_to_wire(self@)),
    {
        print_text(&self.encode())
    }

    /// Reads a success from JSON text.
    pub fn from_json(text: &str) -> (r: Result<Success, DecodeError>)
        ensures
            match parsed_json(text@) {
                Some(w) => match r {
                    Ok(s) => success_from_wire(w) == Some(s@),
                    Err(e) => success_from_wire(w) is None && e == DecodeError::Shape,
                },
                None => r matches Err(e) && e == DecodeError::Syntax,
            },
    {
        match parse_text(text) {
            Some(v) => Success::decode(&v),
            None => Err(DecodeError::Syntax),
        }
    }
}

} // verus!
