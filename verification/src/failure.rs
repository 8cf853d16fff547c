//! An unsuccessful response.

use vstd::prelude::*;

use crate::error::{error_from_wire, error_to_wire, lemma_error_round_trip, code_wf, Error,
    ErrorModel};
use crate::id::{id_from_wire, id_to_wire, id_wf, lemma_id_round_trip, Id};
use crate::json::{fields_model, get_field, json_text, lemma_fields_model, lookup, parse_text,
    parsed_json, print_text, DecodeError, JsonModel, JsonValue};

verus! {

/// A failure: the reason a call could not be served, together with the
/// identifier of the failed call where one could be read. The identifier
/// is absent where the failure struck before an identifier was parsed, and
/// an absent identifier is omitted from the wire form entirely.
#[derive(Debug, PartialEq)]
pub struct Failure {
    /// The failure reason.
    pub error: Error,
    /// The identifier of the failed call, where one is known.
    pub id: Option<Id>,
}

/// The mathematical model of a failure.
#[verifier::ext_equal]
pub struct FailureModel {
    pub error: ErrorModel,
    pub id: Option<int>,
}

impl View for Failure {
    type V = FailureModel;

    open spec fn view(&self) -> FailureModel {
        FailureModel {
            error: self.error@,
            id: match self.id {
                Some(i) => Some(i@),
                None => None,
            },
        }
    }
}

/// A failure the wire can carry: its code is well-formed and its
/// identifier, if present, is admissible.
pub open spec fn failure_wf(f: FailureModel) -> bool {
    &&& code_wf(f.error.code)
    &&& f.id matches Some(i) ==> id_wf(i)
}

/// The wire form of a failure: an object carrying `error` and, only where
/// an identifier is present, `id`; an absent identifier leaves no field
/// behind.
pub open spec fn failure_to_wire(f: FailureModel) -> JsonModel {
    match f.id {
        Some(i) => JsonModel::Object(
            seq![("error"@, error_to_wire(f.error)), ("id"@, id_to_wire(i))],
        ),
        None => JsonModel::Object(seq![("error"@, error_to_wire(f.error))]),
    }
}

/// The failure a wire value decodes to: an object whose field set is
/// exactly `error`, or exactly `error` and `id`, each of the right shape.
pub open spec fn failure_from_wire(v: JsonModel) -> Option<FailureModel> {
    match v {
        JsonModel::Object(fs) => match lookup(fs, "error"@) {
            Some(ev) => match error_from_wire(ev) {
                Some(e) => if fs.len() == 1 {
                    Some(FailureModel { error: e, id: None })
                } else if fs.len() == 2 {
                    match lookup(fs, "id"@) {
                        Some(iv) => match id_from_wire(iv) {
                            Some(i) => Some(FailureModel { error: e, id: Some(i) }),
                            None => None,
                        },
                        None => None,
                    }
                } else {
                    None
                },
                None => None,
            },
            None => None,
        },
        _ => None,
    }
}

/// Decoding inverts encoding on every well-formed failure.
pub proof fn lemma_failure_round_trip(f: FailureModel)
    requires
        failure_wf(f),
    ensures
        failure_from_wire(failure_to_wire(f)) == Some(f),
{
    reveal_strlit("error");
    reveal_strlit("id");
    reveal_with_fuel(lookup, 3);
    let fs = failure_to_wire(f)->Object_0;
    assert("error"@.len() == 5);
    assert("id"@.len() == 2);
    assert(lookup(fs, "error"@) == Some(error_to_wire(f.error)));
    lemma_error_round_trip(f.error);
    if let Some(i) = f.id {
        assert(fs.drop_first()[0] == fs[1]);
        assert(lookup(fs, "id"@) == Some(id_to_wire(i)));
        lemma_id_round_trip(i);
    }
}

/// Encoding a failure without an identifier yields an object with the
/// single field `error`: the `id` key is absent, not null.
pub proof fn lemma_failure_omits_absent_id(f: FailureModel)
    requires
        f.id is None,
    ensures
        failure_to_wire(f) matches JsonModel::Object(fs) && fs.len() == 1 && fs[0].0 == "error"@
            && lookup(fs, "id"@) is None,
{
    reveal_strlit("error");
    reveal_strlit("id");
    reveal_with_fuel(lookup, 2);
    let fs = failure_to_wire(f)->Object_0;
    assert("error"@.len() == 5);
    assert("id"@.len() == 2);
    assert(lookup(fs, "id"@) is None);
}

impl Failure {
    /// The wire value this failure is written as.
    pub fn encode(&self) -> (r: JsonValue)
        ensures
            r@ == failure_to_wire(self@),
    {
        let mut fields: Vec<(String, JsonValue)> = Vec::new();
        fields.push(("error".to_owned(), self.error.encode()));
        match &self.id {
            Some(i) => fields.push(("id".to_owned(), i.encode())),
            None => (),
        }
        let r = JsonValue::Object(fields);
        proof {
            broadcast use lemma_fields_model;

            assert(fields_model(fields@) =~= failure_to_wire(self@)->Object_0);
        }
        r
    }

    /// The failure a wire value decodes to; an error exactly where the
    /// value is not an object whose field set is `error`, or `error` and
    /// `id`, each of the right shape.
    pub fn decode(v: &JsonValue) -> (r: Result<Failure, DecodeError>)
        ensures
            match r {
                Ok(f) => failure_from_wire(v@) == Some(f@),
                Err(e) => failure_from_wire(v@) is None && e == DecodeError::Shape,
            },
    {
        broadcast use lemma_fields_model;

        match v {
            JsonValue::Object(fields) => {
                let ev = match get_field(fields, "error") {
                    Some(w) => w,
                    None => return Err(DecodeError::Shape),
                };
                let error = match Error::decode(ev) {
                    Ok(x) => x,
                    Err(e) => return Err(e),
                };
                if fields.len() == 1 {
                    Ok(Failure { error, id: None })
                } else if fields.len() == 2 {
                    let iv = match get_field(fields, "id") {
                        Some(w) => w,
                        None => return Err(DecodeError::Shape),
                    };
                    let id = match Id::decode(iv) {
                        Ok(x) => x,
                        Err(e) => return Err(e),
                    };
                    Ok(Failure { error, id: Some(id) })
                } else {
                    Err(DecodeError::Shape)
                }
            },
            _ => Err(DecodeError::Shape),
        }
    }

    /// Writes this failure as JSON text.
    pub fn to_json(&self) -> (r: String)
        ensures
            r@ == json_text(failure_to_wire(self@)),
    {
        print_text(&self.encode())
    }

    /// Reads a failure from JSON text.
    pub fn from_json(text: &str) -> (r: Result<Failure, DecodeError>)
        ensures
            match parsed_json(text@) {
                Some(w) => match r {
                    Ok(f) => failure_from_wire(w) == Some(f@),
                    Err(e) => failure_from_wire(w) is None && e == DecodeError::Shape,
                },
                None => r matches Err(e) && e == DecodeError::Syntax,
            },
    {
        match parse_text(text) {
            Some(v) => Failure::decode(&v),
            None => Err(DecodeError::Syntax),
        }
    }
}

} // verus!
