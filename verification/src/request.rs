//! The request envelope: a single payload or an ordered batch.

use vstd::prelude::*;

use crate::call::{call_from_wire, call_to_wire, call_wf, lemma_call_round_trip, Call, CallModel};
use crate::json::{elems_model, json_text, lemma_elems_model, lemma_lookup_is_some, lookup,
    parse_text, parsed_json, print_text, DecodeError, JsonModel, JsonValue};
use crate::notification::{lemma_notification_round_trip, notification_from_wire,
    notification_to_wire, Notification, NotificationModel};

verus! {

/// A request payload: a notification or a call, told apart on the wire by
/// the presence of the correlation identifier field alone, not by a tag.
#[derive(Debug, PartialEq)]
pub enum Payload {
    /// A fire-and-forget notification.
    Notification(Notification),
    /// A call expecting a response.
    Call(Call),
}

/// The mathematical model of a request payload.
#[verifier::ext_equal]
pub enum PayloadModel {
    Notification(NotificationModel),
    Call(CallModel),
}

impl View for Payload {
    type V = PayloadModel;

    open spec fn view(&self) -> PayloadModel {
        match self {
            Payload::Notification(n) => PayloadModel::Notification(n@),
            Payload::Call(c) => PayloadModel::Call(c@),
        }
    }
}

/// A request payload the wire can carry.
pub open spec fn payload_wf(p: PayloadModel) -> bool {
    match p {
        PayloadModel::Notification(_) => true,
        PayloadModel::Call(c) => call_wf(c),
    }
}

/// The wire form of a request payload: the wire form of the notification
/// or of the call itself, with no added tag.
pub open spec fn request_payload_to_wire(p: PayloadModel) -> JsonModel {
    match p {
        PayloadModel::Notification(n) => notification_to_wire(n),
        PayloadModel::Call(c) => call_to_wire(c),
    }
}

/// The request payload a wire value decodes to: the call shape is tried
/// first, then the notification shape; a value matching neither decodes to
/// nothing. The order matters only in that the call comes first: the
/// notification's field set is a strict subset of the call's, so a
/// document carrying `id` is never read as a notification.
pub open spec fn request_payload_from_wire(v: JsonModel) -> Option<PayloadModel> {
    match call_from_wire(v) {
        Some(c) => Some(PayloadModel::Call(c)),
        None => match notification_from_wire(v) {
            Some(n) => Some(PayloadModel::Notification(n)),
            None => None,
        },
    }
}

/// Decoding inverts encoding on every well-formed request payload.
pub proof fn lemma_request_payload_round_trip(p: PayloadModel)
    requires
        payload_wf(p),
    ensures
        request_payload_from_wire(request_payload_to_wire(p)) == Some(p),
{
    match p {
        PayloadModel::Call(c) => lemma_call_round_trip(c),
        PayloadModel::Notification(n) => {
            assert(call_from_wire(notification_to_wire(n)) is None);
            lemma_notification_round_trip(n);
        },
    }
}

/// A decoded request payload is a call exactly when the document carries
/// an `id` field, and a notification exactly when it does not.
pub proof fn lemma_request_payload_discrimination(v: JsonModel)
    requires
        request_payload_from_wire(v) is Some,
    ensures
        v is Object,
        request_payload_from_wire(v).unwrap() is Call <==> lookup(v->Object_0, "id"@)
            is Some,
{
    reveal_strlit("id");
    reveal_strlit("method");
    reveal_strlit("params");
    let fs = v->Object_0;
    match request_payload_from_wire(v).unwrap() {
        PayloadModel::Call(_) => {
            assert(lookup(fs, "id"@) is Some);
        },
        PayloadModel::Notification(_) => {
            assert(fs.len() == 2);
            lemma_lookup_is_some(fs, "method"@);
            lemma_lookup_is_some(fs, "params"@);
            lemma_lookup_is_some(fs, "id"@);
            assert("id"@.len() == 2);
            assert("method"@.len() == 6);
            assert("method"@[0] == 'm');
            assert("params"@[0] == 'p');
            if lookup(fs, "id"@) is Some {
                let jm = choose|j: int| 0 <= j < fs.len() && (#[trigger] fs[j]).0 == "method"@;
                let jp = choose|j: int| 0 <= j < fs.len() && (#[trigger] fs[j]).0 == "params"@;
                let ji = choose|j: int| 0 <= j < fs.len() && (#[trigger] fs[j]).0 == "id"@;
                assert(jm != jp);
                assert(ji == jm || ji == jp);
                assert(false);
            }
        },
    }
}

/// A request envelope: a single payload or an ordered batch of payloads.
#[derive(Debug, PartialEq)]
pub enum Request {
    /// An ordered batch of request payloads.
    Batch(Vec<Payload>),
    /// A single request payload.
    Single(Payload),
}

/// The mathematical model of a request envelope.
#[verifier::ext_equal]
pub enum RequestModel {
    Batch(Seq<PayloadModel>),
    Single(PayloadModel),
}

/// The models of the payloads of a request batch.
pub open spec fn request_payloads_model(s: Seq<Payload>) -> Seq<PayloadModel> {
    Seq::new(s.len(), |i: int| s[i]@)
}

impl View for Request {
    type V = RequestModel;

    open spec fn view(&self) -> RequestModel {
        match self {
            Request::Batch(ps) => RequestModel::Batch(request_payloads_model(ps@)),
            Request::Single(p) => RequestModel::Single(p@),
        }
    }
}

/// A request envelope the wire can carry.
pub open spec fn request_wf(r: RequestModel) -> bool {
    match r {
        RequestModel::Batch(ps) => forall|i: int|
            0 <= i < ps.len() ==> payload_wf(#[trigger] ps[i]),
        RequestModel::Single(p) => payload_wf(p),
    }
}

/// The wire form of a request: a batch becomes the array of its payloads'
/// wire forms in the same order; a single payload becomes its own wire
/// form, with no wrapping array.
pub open spec fn request_to_wire(r: RequestModel) -> JsonModel {
    match r {
        RequestModel::Batch(ps) => JsonModel::Array(
            Seq::new(ps.len(), |i: int| request_payload_to_wire(ps[i])),
        ),
        RequestModel::Single(p) => request_payload_to_wire(p),
    }
}

/// The request a wire value decodes to: an array decodes element by
/// element into a batch, in input order, failing as a whole if any element
/// fails; any other value decodes as a single payload.
pub open spec fn request_from_wire(v: JsonModel) -> Option<RequestModel> {
    match v {
        JsonModel::Array(elems) => if forall|i: int|
            0 <= i < elems.len() ==> (#[trigger] request_payload_from_wire(elems[i])) is Some {
            Some(RequestModel::Batch(
                Seq::new(elems.len(), |i: int| request_payload_from_wire(elems[i]).unwrap()),
            ))
        } else {
            None
        },
        _ => match request_payload_from_wire(v) {
            Some(p) => Some(RequestModel::Single(p)),
            None => None,
        },
    }
}

/// Every constructible request envelope is well-formed, so decoding
/// inverts encoding on every constructible request.
pub proof fn lemma_request_view_wf(r: &Request)
    ensures
        request_wf(r@),
{
    match r {
        Request::Batch(ps) => {
            assert forall|i: int| 0 <= i < ps@.len() implies payload_wf(
                #[trigger] request_payloads_model(ps@)[i],
            ) by {
                assert(request_payloads_model(ps@)[i] == ps@[i]@);
            }
        },
        Request::Single(_) => {},
    }
}

/// Decoding inverts encoding on every well-formed request envelope.
pub proof fn lemma_request_round_trip(r: RequestModel)
    requires
        request_wf(r),
    ensures
        request_from_wire(request_to_wire(r)) == Some(r),
{
    match r {
        RequestModel::Single(p) => {
            assert(request_payload_to_wire(p) is Object);
            lemma_request_payload_round_trip(p);
        },
        RequestModel::Batch(ps) => {
            let elems = request_to_wire(r)->Array_0;
            assert forall|i: int| 0 <= i < elems.len() implies (#[trigger]
            request_payload_from_wire(elems[i])) is Some by {
                lemma_request_payload_round_trip(ps[i]);
            }
            let decoded = request_from_wire(request_to_wire(r)).unwrap()->Batch_0;
            assert forall|i: int| 0 <= i < ps.len() implies decoded[i] == ps[i] by {
                lemma_request_payload_round_trip(ps[i]);
            }
            assert(decoded =~= ps);
        },
    }
}

/// Decoding an array and encoding the result keeps the batch order: the
/// i-th payload of the decoded batch is the decoding of the i-th element
/// of the input, and the i-th element of the re-encoded array is its
/// re-encoding.
pub proof fn lemma_request_batch_order(elems: Seq<JsonModel>)
    requires
        request_from_wire(JsonModel::Array(elems)) is Some,
    ensures
        ({
            let r = request_from_wire(JsonModel::Array(elems)).unwrap();
            &&& r is Batch
            &&& r->Batch_0.len() == elems.len()
            &&& forall|i: int|
                0 <= i < elems.len() ==> Some(#[trigger] r->Batch_0[i])
                    == request_payload_from_wire(elems[i])
            &&& request_to_wire(r) is Array
            &&& request_to_wire(r)->Array_0.len() == elems.len()
            &&& forall|i: int|
                0 <= i < elems.len() ==> #[trigger] request_to_wire(r)->Array_0[i]
                    == request_payload_to_wire(r->Batch_0[i])
        }),
{
}

impl Payload {
    /// The wire value this request payload is written as.
    pub fn encode(&self) -> (r: JsonValue)
        ensures
            r@ == request_payload_to_wire(self@),
    {
        match self {
            Payload::Notification(n) => n.encode(),
            Payload::Call(c) => c.encode(),
        }
    }

    /// The request payload a wire value decodes to, trying the call shape
    /// first; an error exactly where the value matches neither shape.
    pub fn decode(v: &JsonValue) -> (r: Result<Payload, DecodeError>)
        ensures
            match r {
                Ok(p) => request_payload_from_wire(v@) == Some(p@),
                Err(e) => request_payload_from_wire(v@) is None && e == DecodeError::Shape,
            },
    {
        match Call::decode(v) {
            Ok(c) => Ok(Payload::Call(c)),
            Err(_) => match Notification::decode(v) {
                Ok(n) => Ok(Payload::Notification(n)),
                Err(e) => Err(e),
            },
        }
    }

    /// Writes this request payload as JSON text.
    pub fn to_json(&self) -> (r: String)
        ensures
            r@ == json_text(request_payload_to_wire(self@)),
    {
        print_text(&self.encode())
    }

    /// Reads a request payload from JSON text.
    pub fn from_json(text: &str) -> (r: Result<Payload, DecodeError>)
        ensures
            match parsed_json(text@) {
                Some(w) => match r {
                    Ok(p) => request_payload_from_wire(w) == Some(p@),
                    Err(e) => request_payload_from_wire(w) is None && e == DecodeError::Shape,
                },
                None => r matches Err(e) && e == DecodeError::Syntax,
            },
    {
        match parse_text(text) {
            Some(v) => Payload::decode(&v),
            None => Err(DecodeError::Syntax),
        }
    }
}

impl Request {
    /// The wire value this request is written as.
    pub fn encode(&self) -> (r: JsonValue)
        ensures
            r@ == request_to_wire(self@),
    {
        match self {
            Request::Single(p) => p.encode(),
            Request::Batch(ps) => {
                let mut out: Vec<JsonValue> = Vec::new();
                let mut i: usize = 0;
                while i < ps.len()
                    invariant
                        i <= ps.len(),
                        out@.len() == i,
                        forall|j: int|
                            0 <= j < i ==> (#[trigger] out@[j])@ == request_payload_to_wire(
                                ps@[j]@,
                            ),
                    decreases ps.len() - i,
                {
                    let p = &ps[i];
                    out.push(p.encode());
                    i += 1;
                }
                let r = JsonValue::Array(out);
                proof {
                    broadcast use lemma_elems_model;

                    assert(elems_model(out@) =~= request_to_wire(self@)->Array_0);
                }
                r
            },
        }
    }

    /// The request a wire value decodes to: an array decodes element by
    /// element into a batch, in input order; any other value decodes as a
    /// single payload. An error exactly where an element, or the single
    /// value, matches no payload shape.
    #[verifier::loop_isolation(false)]
    pub fn decode(v: &JsonValue) -> (r: Result<Request, DecodeError>)
        ensures
            match r {
                Ok(req) => request_from_wire(v@) == Some(req@),
                Err(e) => request_from_wire(v@) is None && e == DecodeError::Shape,
            },
    {
        broadcast use lemma_elems_model;

        match v {
            JsonValue::Array(elems) => {
                let ghost ws = elems_model(elems@);
                let mut out: Vec<Payload> = Vec::new();
                let mut i: usize = 0;
                while i < elems.len()
                    invariant
                        i <= elems.len(),
                        out@.len() == i,
                        ws == elems_model(elems@),
                        ws.len() == elems@.len(),
                        forall|j: int|
                            0 <= j < i ==> (#[trigger] request_payload_from_wire(ws[j]))
                                == Some(out@[j]@),
                    decreases elems.len() - i,
                {
                    let e = &elems[i];
                    match Payload::decode(e) {
                        Ok(p) => out.push(p),
                        Err(_) => {
                            proof {
                                assert(request_payload_from_wire(ws[i as int]) is None);
                                assert(!(forall|k: int|
                                    0 <= k < ws.len() ==> (#[trigger] request_payload_from_wire(
                                        ws[k],
                                    )) is Some));
                            }
                            return Err(DecodeError::Shape);
                        },
                    }
                    i += 1;
                }
                let r = Request::Batch(out);
                proof {
                    assert(forall|k: int|
                        0 <= k < ws.len() ==> (#[trigger] request_payload_from_wire(ws[k]))
                            is Some);
                    assert(request_payloads_model(out@) =~= Seq::new(
                        ws.len(),
                        |k: int| request_payload_from_wire(ws[k]).unwrap(),
                    ));
                }
                Ok(r)
            },
            _ => match Payload::decode(v) {
                Ok(p) => Ok(Request::Single(p)),
                Err(e) => Err(e),
            },
        }
    }

    /// Writes this request as JSON text.
    pub fn to_json(&self) -> (r: String)
        ensures
            r@ == json_text(request_to_wire(self@)),
    {
        print_text(&self.encode())
    }

    /// Reads a request from JSON text.
    pub fn from_json(text: &str) -> (r: Result<Request, DecodeError>)
        ensures
            match parsed_json(text@) {
                Some(w) => match r {
                    Ok(req) => request_from_wire(w) == Some(req@),
                    Err(e) => request_from_wire(w) is None && e == DecodeError::Shape,
                },
                None => r matches Err(e) && e == DecodeError::Syntax,
            },
    {
        match parse_text(text) {
            Some(v) => Request::decode(&v),
            None => Err(DecodeError::Syntax),
        }
    }
}

} // verus!
