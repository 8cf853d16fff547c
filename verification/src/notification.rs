//! A fire-and-forget request.

use vstd::prelude::*;

use crate::json::{fields_model, get_field, json_text, lemma_fields_model, lookup, parse_text,
    parsed_json, print_text, DecodeError, JsonModel, JsonValue};
use crate::method::{method_from_wire, method_to_wire, Method};
use crate::params::{params_from_wire, params_to_wire, Params, ParamsModel};

verus! {

/// A notification: a request with a method name and parameters but no
/// correlation identifier, so no response is ever produced or expected.
#[derive(Debug, PartialEq)]
pub struct Notification {
    /// The name of the method to invoke.
    pub method: Method,
    /// The parameters handed to the method.
    pub params: Params,
}

/// The mathematical model of a notification.
#[verifier::ext_equal]
pub struct NotificationModel {
    pub method: Seq<char>,
    pub params: ParamsModel,
}

impl View for Notification {
    type V = NotificationModel;

    open spec fn view(&self) -> NotificationModel {
        NotificationModel { method: self.method@, params: self.params@ }
    }
}

/// The wire form of a notification: an object with exactly the fields
/// `method` and `params`, in that order.
pub open spec fn notification_to_wire(n: NotificationModel) -> JsonModel {
    JsonModel::Object(
        seq![("method"@, method_to_wire(n.method)), ("params"@, params_to_wire(n.params))],
    )
}

/// The notification a wire value decodes to: an object with exactly the
/// two fields `method` and `params`, each of the right shape, and no other
/// field.
pub open spec fn notification_from_wire(v: JsonModel) -> Option<NotificationModel> {
    match v {
        JsonModel::Object(fs) => if fs.len() == 2 {
            match (lookup(fs, "method"@), lookup(fs, "params"@)) {
                (Some(mv), Some(pv)) => match (method_from_wire(mv), params_from_wire(pv)) {
                    (Some(m), Some(p)) => Some(NotificationModel { method: m, params: p }),
                    _ => None,
                },
                _ => None,
            }
        } else {
            None
        },
        _ => None,
    }
}

/// Decoding inverts encoding on every notification.
pub proof fn lemma_notification_round_trip(n: NotificationModel)
    ensures
        notification_from_wire(notification_to_wire(n)) == Some(n),
{
    reveal_strlit("method");
    reveal_strlit("params");
    reveal_with_fuel(lookup, 3);
    let fs = notification_to_wire(n)->Object_0;
    assert("method"@[0] == 'm');
    assert("params"@[0] == 'p');
    assert(fs.drop_first()[0] == fs[1]);
    assert(lookup(fs, "method"@) == Some(method_to_wire(n.method)));
    assert(lookup(fs, "params"@) == Some(params_to_wire(n.params)));
}

impl Notification {
    /// The wire value this notification is written as.
    pub fn encode(&self) -> (r: JsonValue)
        ensures
            r@ == notification_to_wire(self@),
    {
        let mut fields: Vec<(String, JsonValue)> = Vec::new();
        fields.push(("method".to_owned(), self.method.encode()));
        fields.push(("params".to_owned(), self.params.encode()));
        let r = JsonValue::Object(fields);
        proof {
            broadcast use lemma_fields_model;

            assert(fields_model(fields@) =~= notification_to_wire(self@)->Object_0);
        }
        r
    }

    /// The notification a wire value decodes to; an error exactly where
    /// the value is not an object with the exact field set `method`,
    /// `params`, each of the right shape.
    pub fn decode(v: &JsonValue) -> (r: Result<Notification, DecodeError>)
        ensures
            match r {
                Ok(n) => notification_from_wire(v@) == Some(n@),
                Err(e) => notification_from_wire(v@) is None && e == DecodeError::Shape,
            },
    {
        broadcast use lemma_fields_model;

        match v {
            JsonValue::Object(fields) => {
                if fields.len() != 2 {
                    return Err(DecodeError::Shape);
                }
                let mv = match get_field(fields, "method") {
                    Some(w) => w,
                    None => return Err(DecodeError::Shape),
                };
                let pv = match get_field(fields, "params") {
                    Some(w) => w,
                    None => return Err(DecodeError::Shape),
                };
                let method = match Method::decode(mv) {
                    Ok(x) => x,
                    Err(e) => return Err(e),
                };
                let params = match Params::decode(pv) {
                    Ok(x) => x,
                    Err(e) => return Err(e),
                };
                Ok(Notification { method, params })
            },
            _ => Err(DecodeError::Shape),
        }
    }

    /// Writes this notification as JSON text.
    pub fn to_json(&self) -> (r: String)
        ensures
            r@ == json_text(notification_to_wire(self@)),
    {
        print_text(&self.encode())
    }

    /// Reads a notification from JSON text.
    pub fn from_json(text: &str) -> (r: Result<Notification, DecodeError>)
        ensures
            match parsed_json(text@) {
                Some(w) => match r {
                    Ok(n) => notification_from_wire(w) == Some(n@),
                    Err(e) => notification_from_wire(w) is None && e == DecodeError::Shape,
                },
                None => r matches Err(e) && e == DecodeError::Syntax,
            },
    {
        match parse_text(text) {
            Some(v) => Notification::decode(&v),
            None => Err(DecodeError::Syntax),
        }
    }
}

} // verus!
