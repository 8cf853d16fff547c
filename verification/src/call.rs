//! A request that expects exactly one correlated response.

use vstd::prelude::*;

use crate::id::{id_from_wire, id_to_wire, id_wf, lemma_id_round_trip, Id};
use crate::json::{fields_model, get_field, json_text, lemma_fields_model, lemma_lookup_is_some,
    lookup, parse_text,
    parsed_json, print_text, DecodeError, JsonModel, JsonValue};
use crate::method::{method_from_wire, method_to_wire, Method};
use crate::params::{params_from_wire, params_to_wire, Params, ParamsModel};

verus! {

/// A call: a request carrying a correlation identifier, a method name and
/// parameters, and expecting exactly one correlated response.
#[derive(Debug, PartialEq)]
pub struct Call {
    /// The correlation identifier of this call.
    pub id: Id,
    /// The name of the method to invoke.
    pub method: Method,
    /// The parameters handed to the method.
    pub params: Params,
}

/// The mathematical model of a call.
#[verifier::ext_equal]
pub struct CallModel {
    pub id: int,
    pub method: Seq<char>,
    pub params: ParamsModel,
}

impl View for Call {
    type V = CallModel;

    open spec fn view(&self) -> CallModel {
        CallModel { id: self.id@, method: self.method@, params: self.params@ }
    }
}

/// A call the wire can carry: its identifier is admissible.
pub open spec fn call_wf(c: CallModel) -> bool {
    id_wf(c.id)
}

/// The wire form of a call: an object with exactly the fields `id`,
/// `method` and `params`, in that order.
pub open spec fn call_to_wire(c: CallModel) -> JsonModel {
    JsonModel::Object(
        seq![
            ("id"@, id_to_wire(c.id)),
            ("method"@, method_to_wire(c.method)),
            ("params"@, params_to_wire(c.params)),
        ],
    )
}

/// The call a wire value decodes to: an object with exactly the three
/// fields `id`, `method` and `params`, each of the right shape, and no
/// other field.
pub open spec fn call_from_wire(v: JsonModel) -> Option<CallModel> {
    match v {
        JsonModel::Object(fs) => if fs.len() == 3 {
            match (lookup(fs, "id"@), lookup(fs, "method"@), lookup(fs, "params"@)) {
                (Some(iv), Some(mv), Some(pv)) => match (
                    id_from_wire(iv),
                    method_from_wire(mv),
                    params_from_wire(pv),
                ) {
                    (Some(i), Some(m), Some(p)) => Some(
                        CallModel { id: i, method: m, params: p },
                    ),
                    _ => None,
                },
                _ => None,
            }
        } else {
            None
        },
        _ => None,
    }
}

/// Strict field closure: a document that decodes as a call carries exactly
/// the fields `id`, `method` and `params`, and no other.
pub proof fn lemma_call_field_closure(v: JsonModel)
    requires
        call_from_wire(v) is Some,
    ensures
        v is Object,
        v->Object_0.len() == 3,
        forall|j: int|
            0 <= j < v->Object_0.len() ==> ((#[trigger] v->Object_0[j]).0 == "id"@
                || v->Object_0[j].0 == "method"@ || v->Object_0[j].0 == "params"@),
{
    reveal_strlit("id");
    reveal_strlit("method");
    reveal_strlit("params");
    let fs = v->Object_0;
    lemma_lookup_is_some(fs, "id"@);
    lemma_lookup_is_some(fs, "method"@);
    lemma_lookup_is_some(fs, "params"@);
    assert("id"@.len() == 2);
    assert("method"@.len() == 6);
    assert("method"@[0] == 'm');
    assert("params"@[0] == 'p');
    let ji = choose|j: int| 0 <= j < fs.len() && (#[trigger] fs[j]).0 == "id"@;
    let jm = choose|j: int| 0 <= j < fs.len() && (#[trigger] fs[j]).0 == "method"@;
    let jp = choose|j: int| 0 <= j < fs.len() && (#[trigger] fs[j]).0 == "params"@;
    assert(ji != jm && ji != jp && jm != jp);
    assert forall|j: int| 0 <= j < fs.len() implies ((#[trigger] fs[j]).0 == "id"@ || fs[j].0
        == "method"@ || fs[j].0 == "params"@) by {
        assert(j == ji || j == jm || j == jp);
    }
}

/// Every constructible call is well-formed.
pub proof fn lemma_call_view_wf(c: &Call)
    ensures
        call_wf(c@),
{
}

/// Decoding inverts encoding on every well-formed call.
pub proof fn lemma_call_round_trip(c: CallModel)
    requires
        call_wf(c),
    ensures
        call_from_wire(call_to_wire(c)) == Some(c),
{
    reveal_strlit("id");
    reveal_strlit("method");
    reveal_strlit("params");
    reveal_with_fuel(lookup, 4);
    let fs = call_to_wire(c)->Object_0;
    assert("id"@.len() == 2);
    assert("method"@.len() == 6);
    assert("method"@[0] == 'm');
    assert("params"@[0] == 'p');
    assert(fs.drop_first()[0] == fs[1]);
    assert(fs.drop_first().drop_first()[0] == fs[2]);
    assert(lookup(fs, "id"@) == Some(id_to_wire(c.id)));
    assert(lookup(fs, "method"@) == Some(method_to_wire(c.method)));
    assert(lookup(fs, "params"@) == Some(params_to_wire(c.params)));
    lemma_id_round_trip(c.id);
}

impl Call {
    /// The wire value this call is written as.
    pub fn encode(&self) -> (r: JsonValue)
        ensures
            r@ == call_to_wire(self@),
    {
        let mut fields: Vec<(String, JsonValue)> = Vec::new();
        fields.push(("id".to_owned(), self.id.encode()));
        fields.push(("method".to_owned(), self.method.encode()));
        fields.push(("params".to_owned(), self.params.encode()));
        let r = JsonValue::Object(fields);
        proof {
            broadcast use lemma_fields_model;

            assert(fields_model(fields@) =~= call_to_wire(self@)->Object_0);
        }
        r
    }

    /// The call a wire value decodes to; an error exactly where the value
    /// is not an object with the exact field set `id`, `method`, `params`,
    /// each of the right shape.
    pub fn decode(v: &JsonValue) -> (r: Result<Call, DecodeError>)
        ensures
            match r {
                Ok(c) => call_from_wire(v@) == Some(c@),
                Err(e) => call_from_wire(v@) is None && e == DecodeError::Shape,
            },
    {
        broadcast use lemma_fields_model;

        match v {
            JsonValue::Object(fields) => {
                if fields.len() != 3 {
                    return Err(DecodeError::Shape);
                }
                let iv = match get_field(fields, "id") {
                    Some(w) => w,
                    None => return Err(DecodeError::Shape),
                };
                let mv = match get_field(fields, "method") {
                    Some(w) => w,
                    None => return Err(DecodeError::Shape),
                };
                let pv = match get_field(fields, "params") {
                    Some(w) => w,
                    None => return Err(DecodeError::Shape),
                };
                let id = match Id::decode(iv) {
                    Ok(x) => x,
                    Err(e) => return Err(e),
                };
                let method = match Method::decode(mv) {
                    Ok(x) => x,
                    Err(e) => return Err(e),
                };
                let params = match Params::decode(pv) {
                    Ok(x) => x,
                    Err(e) => return Err(e),
                };
                Ok(Call { id, method, params })
            },
            _ => Err(DecodeError::Shape),
        }
    }

    /// Writes this call as JSON text.
    pub fn to_json(&self) -> (r: String)
        ensures
            r@ == json_text(call_to_wire(self@)),
    {
        print_text(&self.encode())
    }

    /// Reads a call from JSON text.
    pub fn from_json(text: &str) -> (r: Result<Call, DecodeError>)
        ensures
            match parsed_json(text@) {
                Some(w) => match r {
                    Ok(c) => call_from_wire(w) == Some(c@),
                    Err(e) => call_from_wire(w) is None && e == DecodeError::Shape,
                },
                None => r matches Err(e) && e == DecodeError::Syntax,
            },
    {
        match parse_text(text) {
            Some(v) => Call::decode(&v),
            None => Err(DecodeError::Syntax),
        }
    }
}

} // verus!
