//! The response envelope: a single payload or an ordered batch.

use vstd::prelude::*;

use crate::failure::{failure_from_wire, failure_to_wire, failure_wf, lemma_failure_round_trip,
    Failure, FailureModel};
use crate::json::{elems_model, json_text, lemma_elems_model, lemma_lookup_is_some, lookup,
    parse_text, parsed_json, print_text, DecodeError, JsonModel, JsonValue};
use crate::success::{lemma_success_round_trip, success_from_wire, success_to_wire, success_wf,
    Success, SuccessModel};

verus! {

/// A response payload: a failure or a success, told apart on the wire by
/// the presence of the `error` field against the `result` field, not by a
/// tag.
#[derive(Debug, PartialEq)]
pub enum Payload {
    /// An unsuccessful response.
    Failure(Failure),
    /// A successful response.
    Success(Success),
}

/// The mathematical model of a response payload.
#[verifier::ext_equal]
pub enum PayloadModel {
    Failure(FailureModel),
    Success(SuccessModel),
}

impl View for Payload {
    type V = PayloadModel;

    open spec fn view(&self) -> PayloadModel {
        match self {
            Payload::Failure(f) => PayloadModel::Failure(f@),
            Payload::Success(s) => PayloadModel::Success(s@),
        }
    }
}

/// A response payload the wire can carry.
pub open spec fn payload_wf(p: PayloadModel) -> bool {
    match p {
        PayloadModel::Failure(f) => failure_wf(f),
        PayloadModel::Success(s) => success_wf(s),
    }
}

/// The wire form of a response payload: the wire form of the failure or of
/// the success itself, with no added tag.
pub open spec fn response_payload_to_wire(p: PayloadModel) -> JsonModel {
    match p {
        PayloadModel::Failure(f) => failure_to_wire(f),
        PayloadModel::Success(s) => success_to_wire(s),
    }
}

/// The response payload a wire value decodes to: the failure shape is
/// tried first, then the success shape; a value matching neither decodes
/// to nothing. Under strict field closure a document carrying both `error`
/// and `result` matches neither shape and is rejected rather than read as
/// one of the two.
pub open spec fn response_payload_from_wire(v: JsonModel) -> Option<PayloadModel> {
    match failure_from_wire(v) {
        Some(f) => Some(PayloadModel::Failure(f)),
        None => match success_from_wire(v) {
            Some(s) => Some(PayloadModel::Success(s)),
            None => None,
        },
    }
}

/// Decoding inverts encoding on every well-formed response payload.
pub proof fn lemma_response_payload_round_trip(p: PayloadModel)
    requires
        payload_wf(p),
    ensures
        response_payload_from_wire(response_payload_to_wire(p)) == Some(p),
{
    match p {
        PayloadModel::Failure(f) => lemma_failure_round_trip(f),
        PayloadModel::Success(s) => {
            reveal_strlit("error");
            reveal_strlit("id");
            reveal_strlit("result");
            let fs = success_to_wire(s)->Object_0;
            assert("error"@.len() == 5);
            assert("id"@.len() == 2);
            assert("result"@.len() == 6);
            lemma_lookup_is_some(fs, "error"@);
            assert(failure_from_wire(success_to_wire(s)) is None);
            lemma_success_round_trip(s);
        },
    }
}

/// A decoded response payload is a failure exactly when the document
/// carries an `error` field, and a success exactly when it does not.
pub proof fn lemma_response_payload_discrimination(v: JsonModel)
    requires
        response_payload_from_wire(v) is Some,
    ensures
        v is Object,
        response_payload_from_wire(v).unwrap() is Failure <==> lookup(v->Object_0, "error"@)
            is Some,
{
    reveal_strlit("error");
    reveal_strlit("id");
    reveal_strlit("result");
    let fs = v->Object_0;
    match response_payload_from_wire(v).unwrap() {
        PayloadModel::Failure(_) => {
            assert(lookup(fs, "error"@) is Some);
        },
        PayloadModel::Success(_) => {
            assert(fs.len() == 2);
            lemma_lookup_is_some(fs, "id"@);
            lemma_lookup_is_some(fs, "result"@);
            lemma_lookup_is_some(fs, "error"@);
            assert("error"@.len() == 5);
            assert("id"@.len() == 2);
            assert("result"@.len() == 6);
            if lookup(fs, "error"@) is Some {
                let ji = choose|j: int| 0 <= j < fs.len() && (#[trigger] fs[j]).0 == "id"@;
                let jr = choose|j: int| 0 <= j < fs.len() && (#[trigger] fs[j]).0 == "result"@;
                let je = choose|j: int| 0 <= j < fs.len() && (#[trigger] fs[j]).0 == "error"@;
                assert(ji != jr);
                assert(je == ji || je == jr);
                assert(false);
            }
        },
    }
}

/// A response envelope: a single payload or an ordered batch of payloads.
#[derive(Debug, PartialEq)]
pub enum Response {
    /// An ordered batch of response payloads.
    Batch(Vec<Payload>),
    /// A single response payload.
    Single(Payload),
}

/// The mathematical model of a response envelope.
#[verifier::ext_equal]
pub enum ResponseModel {
    Batch(Seq<PayloadModel>),
    Single(PayloadModel),
}

/// The models of the payloads of a response batch.
pub open spec fn response_payloads_model(s: Seq<Payload>) -> Seq<PayloadModel> {
    Seq::new(s.len(), |i: int| s[i]@)
}

impl View for Response {
    type V = ResponseModel;

    open spec fn view(&self) -> ResponseModel {
        match self {
            Response::Batch(ps) => ResponseModel::Batch(response_payloads_model(ps@)),
            Response::Single(p) => ResponseModel::Single(p@),
        }
    }
}

/// A response envelope the wire can carry.
pub open spec fn response_wf(r: ResponseModel) -> bool {
    match r {
        ResponseModel::Batch(ps) => forall|i: int|
            0 <= i < ps.len() ==> payload_wf(#[trigger] ps[i]),
        ResponseModel::Single(p) => payload_wf(p),
    }
}

/// The wire form of a response: a batch becomes the array of its payloads'
/// wire forms in the same order; a single payload becomes its own wire
/// form, with no wrapping array.
pub open spec fn response_to_wire(r: ResponseModel) -> JsonModel {
    match r {
        ResponseModel::Batch(ps) => JsonModel::Array(
            Seq::new(ps.len(), |i: int| response_payload_to_wire(ps[i])),
        ),
        ResponseModel::Single(p) => response_payload_to_wire(p),
    }
}

/// The response a wire value decodes to: an array decodes element by
/// element into a batch, in input order, failing as a whole if any element
/// fails; any other value decodes as a single payload.
pub open spec fn response_from_wire(v: JsonModel) -> Option<ResponseModel> {
    match v {
        JsonModel::Array(elems) => if forall|i: int|
            0 <= i < elems.len() ==> (#[trigger] response_payload_from_wire(elems[i])) is Some {
            Some(ResponseModel::Batch(
                Seq::new(elems.len(), |i: int| response_payload_from_wire(elems[i]).unwrap()),
            ))
        } else {
            None
        },
        _ => match response_payload_from_wire(v) {
            Some(p) => Some(ResponseModel::Single(p)),
            None => None,
        },
    }
}

/// Decoding inverts encoding on every well-formed response envelope.
pub proof fn lemma_response_round_trip(r: ResponseModel)
    requires
        response_wf(r),
    ensures
        response_from_wire(response_to_wire(r)) == Some(r),
{
    match r {
        ResponseModel::Single(p) => {
            assert(response_payload_to_wire(p) is Object);
            lemma_response_payload_round_trip(p);
        },
        ResponseModel::Batch(ps) => {
            let elems = response_to_wire(r)->Array_0;
            assert forall|i: int| 0 <= i < elems.len() implies (#[trigger]
            response_payload_from_wire(elems[i])) is Some by {
                lemma_response_payload_round_trip(ps[i]);
            }
            let decoded = response_from_wire(response_to_wire(r)).unwrap()->Batch_0;
            assert forall|i: int| 0 <= i < ps.len() implies decoded[i] == ps[i] by {
                lemma_response_payload_round_trip(ps[i]);
            }
            assert(decoded =~= ps);
        },
    }
}

/// Decoding an array and encoding the result keeps the batch order: the
/// i-th payload of the decoded batch is the decoding of the i-th element
/// of the input, and the i-th element of the re-encoded array is its
/// re-encoding.
pub proof fn lemma_response_batch_order(elems: Seq<JsonModel>)
    requires
        response_from_wire(JsonModel::Array(elems)) is Some,
    ensures
        ({
            let r = response_from_wire(JsonModel::Array(elems)).unwrap();
            &&& r is Batch
            &&& r->Batch_0.len() == elems.len()
            &&& forall|i: int|
                0 <= i < elems.len() ==> Some(#[trigger] r->Batch_0[i])
                    == response_payload_from_wire(elems[i])
            &&& response_to_wire(r) is Array
            &&& response_to_wire(r)->Array_0.len() == elems.len()
            &&& forall|i: int|
                0 <= i < elems.len() ==> #[trigger] response_to_wire(r)->Array_0[i]
                    == response_payload_to_wire(r->Batch_0[i])
        }),
{
}

impl Payload {
    /// The wire value this response payload is written as.
    pub fn encode(&self) -> (r: JsonValue)
        ensures
            r@ == response_payload_to_wire(self@),
    {
        match self {
            Payload::Failure(f) => f.encode(),
            Payload::Success(s) => s.encode(),
        }
    }

    /// The response payload a wire value decodes to, trying the failure
    /// shape first; an error exactly where the value matches neither
    /// shape.
    pub fn decode(v: &JsonValue) -> (r: Result<Payload, DecodeError>)
        ensures
            match r {
                Ok(p) => response_payload_from_wire(v@) == Some(p@),
                Err(e) => response_payload_from_wire(v@) is None && e == DecodeError::Shape,
            },
    {
        match Failure::decode(v) {
            Ok(f) => Ok(Payload::Failure(f)),
            Err(_) => match Success::decode(v) {
                Ok(s) => Ok(Payload::Success(s)),
                Err(e) => Err(e),
            },
        }
    }

    /// Writes this response payload as JSON text.
    pub fn to_json(&self) -> (r: String)
        ensures
            r@ == json_text(response_payload_to_wire(self@)),
    {
        print_text(&self.encode())
    }

    /// Reads a response payload from JSON text.
    pub fn from_json(text: &str) -> (r: Result<Payload, DecodeError>)
        ensures
            match parsed_json(text@) {
                Some(w) => match r {
                    Ok(p) => response_payload_from_wire(w) == Some(p@),
                    Err(e) => response_payload_from_wire(w) is None && e == DecodeError::Shape,
                },
                None => r matches Err(e) && e == DecodeError::Syntax,
            },
    {
        match parse_text(text) {
            Some(v) => Payload::decode(&v),
            None => Err(DecodeError::Syntax),
        }
    }
}

impl Response {
    /// The wire value this response is written as.
    pub fn encode(&self) -> (r: JsonValue)
        ensures
            r@ == response_to_wire(self@),
    {
        match self {
            Response::Single(p) => p.encode(),
            Response::Batch(ps) => {
                let mut out: Vec<JsonValue> = Vec::new();
                let mut i: usize = 0;
                while i < ps.len()
                    invariant
                        i <= ps.len(),
                        out@.len() == i,
                        forall|j: int|
                            0 <= j < i ==> (#[trigger] out@[j])@ == response_payload_to_wire(
                                ps@[j]@,
                            ),
                    decreases ps.len() - i,
                {
                    let p = &ps[i];
                    out.push(p.encode());
                    i += 1;
                }
                let r = JsonValue::Array(out);
                proof {
                    broadcast use lemma_elems_model;

                    assert(elems_model(out@) =~= response_to_wire(self@)->Array_0);
                }
                r
            },
        }
    }

    /// The response a wire value decodes to: an array decodes element by
    /// element into a batch, in input order; any other value decodes as a
    /// single payload. An error exactly where an element, or the single
    /// value, matches no payload shape.
    #[verifier::loop_isolation(false)]
    pub fn decode(v: &JsonValue) -> (r: Result<Response, DecodeError>)
        ensures
            match r {
                Ok(resp) => response_from_wire(v@) == Some(resp@),
                Err(e) => response_from_wire(v@) is None && e == DecodeError::Shape,
            },
    {
        broadcast use lemma_elems_model;

        match v {
            JsonValue::Array(elems) => {
                let ghost ws = elems_model(elems@);
                let mut out: Vec<Payload> = Vec::new();
                let mut i: usize = 0;
                while i < elems.len()
                    invariant
                        i <= elems.len(),
                        out@.len() == i,
                        ws == elems_model(elems@),
                        ws.len() == elems@.len(),
                        forall|j: int|
                            0 <= j < i ==> (#[trigger] response_payload_from_wire(ws[j]))
                                == Some(out@[j]@),
                    decreases elems.len() - i,
                {
                    let e = &elems[i];
                    match Payload::decode(e) {
                        Ok(p) => out.push(p),
                        Err(_) => {
                            proof {
                                assert(response_payload_from_wire(ws[i as int]) is None);
                                assert(!(forall|k: int|
                                    0 <= k < ws.len() ==> (#[trigger] response_payload_from_wire(
                                        ws[k],
                                    )) is Some));
                            }
                            return Err(DecodeError::Shape);
                        },
                    }
                    i += 1;
                }
                let r = Response::Batch(out);
                proof {
                    assert(forall|k: int|
                        0 <= k < ws.len() ==> (#[trigger] response_payload_from_wire(ws[k]))
                            is Some);
                    assert(response_payloads_model(out@) =~= Seq::new(
                        ws.len(),
                        |k: int| response_payload_from_wire(ws[k]).unwrap(),
                    ));
                }
                Ok(r)
            },
            _ => match Payload::decode(v) {
                Ok(p) => Ok(Response::Single(p)),
                Err(e) => Err(e),
            },
        }
    }

    /// Writes this response as JSON text.
    pub fn to_json(&self) -> (r: String)
        ensures
            r@ == json_text(response_to_wire(self@)),
    {
        print_text(&self.encode())
    }

    /// Reads a response from JSON text.
    pub fn from_json(text: &str) -> (r: Result<Response, DecodeError>)
        ensures
            match parsed_json(text@) {
                Some(w) => match r {
                    Ok(resp) => response_from_wire(w) == Some(resp@),
                    Err(e) => response_from_wire(w) is None && e == DecodeError::Shape,
                },
                None => r matches Err(e) && e == DecodeError::Syntax,
            },
    {
        match parse_text(text) {
            Some(v) => Response::decode(&v),
            None => Err(DecodeError::Syntax),
        }
    }
}

} // verus!
