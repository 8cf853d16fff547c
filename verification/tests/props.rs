//! Property and edge-case tests: round trips, shape discrimination, strict
//! field closure, batch order, code mapping, and decode failures.

use minirpc::{Call, Code, DecodeError, Error, Failure, Id, JsonValue, Method, Notification,
    Params, Request, RequestPayload, Response, ResponsePayload, Success};

#[test]
fn id_round_trip_largest() {
    let input = Id::Number(u64::MAX);
    let text = input.to_json();
    assert_eq!(text, "18446744073709551615");
    assert_eq!(Id::from_json(&text).unwrap(), input);
}

#[test]
fn id_rejects_negative_and_non_integer() {
    assert_eq!(Id::from_json("-1"), Err(DecodeError::Shape));
    assert_eq!(Id::from_json(r#""1""#), Err(DecodeError::Shape));
    assert_eq!(Id::from_json("{}"), Err(DecodeError::Shape));
}

#[test]
fn method_round_trip_empty_string() {
    let input = Method::Name(String::new());
    let text = input.to_json();
    assert_eq!(text, r#""""#);
    assert_eq!(Method::from_json(&text).unwrap(), input);
}

#[test]
fn params_round_trip_empty_forms() {
    let empty_array = Params::Array(vec![]);
    let text = empty_array.to_json();
    assert_eq!(text, "[]");
    assert_eq!(Params::from_json(&text).unwrap(), empty_array);

    let empty_object = Params::Object(vec![]);
    let text = empty_object.to_json();
    assert_eq!(text, "{}");
    assert_eq!(Params::from_json(&text).unwrap(), empty_object);
}

#[test]
fn params_round_trip_nested_values() {
    let input = Params::Array(vec![
        JsonValue::Null,
        JsonValue::Bool(false),
        JsonValue::Int(-7),
        JsonValue::Text("x".to_string()),
        JsonValue::Array(vec![JsonValue::Int(1), JsonValue::Array(vec![])]),
        JsonValue::Object(vec![("k".to_string(), JsonValue::Null)]),
    ]);
    let text = input.to_json();
    assert_eq!(text, r#"[null,false,-7,"x",[1,[]],{"k":null}]"#);
    assert_eq!(Params::from_json(&text).unwrap(), input);
}

#[test]
fn params_rejects_scalars_and_null() {
    assert_eq!(Params::from_json("null"), Err(DecodeError::Shape));
    assert_eq!(Params::from_json("3"), Err(DecodeError::Shape));
    assert_eq!(Params::from_json(r#""s""#), Err(DecodeError::Shape));
    assert_eq!(Params::from_json("true"), Err(DecodeError::Shape));
}

#[test]
fn code_values_are_exact() {
    assert_eq!(Code::ParseError.to_json(), "-32700");
    assert_eq!(Code::InvalidRequest.to_json(), "-32600");
    assert_eq!(Code::MethodNotFound.to_json(), "-32601");
    assert_eq!(Code::InvalidParams.to_json(), "-32602");
    assert_eq!(Code::InternalError.to_json(), "-32603");
    assert_eq!(Code::ServerError(-32000).to_json(), "-32000");
}

#[test]
fn code_mapping_is_two_way() {
    assert_eq!(Code::from_json("-32700").unwrap(), Code::ParseError);
    assert_eq!(Code::from_json("-32600").unwrap(), Code::InvalidRequest);
    assert_eq!(Code::from_json("-32601").unwrap(), Code::MethodNotFound);
    assert_eq!(Code::from_json("-32602").unwrap(), Code::InvalidParams);
    assert_eq!(Code::from_json("-32603").unwrap(), Code::InternalError);
    assert_eq!(Code::from_json("-32000").unwrap(), Code::ServerError(-32000));
    assert_eq!(Code::from_json("0").unwrap(), Code::ServerError(0));
}

#[test]
fn code_message_texts_are_exact() {
    assert_eq!(Code::ParseError.message(), "Parse error");
    assert_eq!(Code::InvalidRequest.message(), "Invalid request");
    assert_eq!(Code::MethodNotFound.message(), "Method not found");
    assert_eq!(Code::InvalidParams.message(), "Invalid params");
    assert_eq!(Code::InternalError.message(), "Internal error");
    assert_eq!(Code::ServerError(-32000).message(), "Server error");
}

#[test]
fn error_round_trip_diverged_message() {
    let input = Error {
        code: Code::ParseError,
        message: "something else".to_string(),
    };
    let text = input.to_json();
    assert_eq!(text, r#"{"code":-32700,"message":"something else"}"#);
    assert_eq!(Error::from_json(&text).unwrap(), input);
}

#[test]
fn error_rejects_wrong_field_sets() {
    assert_eq!(Error::from_json(r#"{"code":-32700}"#), Err(DecodeError::Shape));
    assert_eq!(Error::from_json(r#"{"message":"m"}"#), Err(DecodeError::Shape));
    assert_eq!(
        Error::from_json(r#"{"code":-32700,"message":"m","extra":0}"#),
        Err(DecodeError::Shape)
    );
    assert_eq!(Error::from_json(r#"{"code":"x","message":"m"}"#), Err(DecodeError::Shape));
}

#[test]
fn call_round_trip_scenario() {
    let input = r#"{"id":1,"method":"test_method","params":[1,2,3]}"#;
    let decoded = Call::from_json(input).unwrap();
    assert_eq!(decoded.id, Id::Number(1));
    assert_eq!(decoded.method, Method::Name("test_method".to_string()));
    assert_eq!(
        decoded.params,
        Params::Array(vec![JsonValue::Int(1), JsonValue::Int(2), JsonValue::Int(3)])
    );
    assert_eq!(decoded.to_json(), input);
}

#[test]
fn call_rejects_extra_field() {
    let input = r#"{"id":1,"method":"m","params":[],"extra":true}"#;
    assert_eq!(Call::from_json(input), Err(DecodeError::Shape));
    assert_eq!(RequestPayload::from_json(input), Err(DecodeError::Shape));
    assert_eq!(Request::from_json(input), Err(DecodeError::Shape));
}

#[test]
fn call_accepts_any_field_order() {
    let input = r#"{"params":[],"id":1,"method":"m"}"#;
    let decoded = Call::from_json(input).unwrap();
    assert_eq!(decoded.id, Id::Number(1));
    assert_eq!(decoded.to_json(), r#"{"id":1,"method":"m","params":[]}"#);
}

#[test]
fn request_payload_with_id_is_a_call() {
    let input = r#"{"id":1,"method":"m","params":[]}"#;
    let decoded = RequestPayload::from_json(input).unwrap();
    assert!(matches!(decoded, RequestPayload::Call(_)));
}

#[test]
fn request_payload_without_id_is_a_notification() {
    let input = r#"{"method":"m","params":[]}"#;
    let decoded = RequestPayload::from_json(input).unwrap();
    assert!(matches!(decoded, RequestPayload::Notification(_)));
}

#[test]
fn notification_rejects_extra_and_missing_fields() {
    assert_eq!(
        Notification::from_json(r#"{"method":"m","params":[],"id":1}"#),
        Err(DecodeError::Shape)
    );
    assert_eq!(Notification::from_json(r#"{"method":"m"}"#), Err(DecodeError::Shape));
}

#[test]
fn request_batch_preserves_order() {
    let input = r#"[{"method":"m","params":[1,2,3]},{"id":1,"method":"m","params":[1,2,3]}]"#;
    let decoded = Request::from_json(input).unwrap();
    match &decoded {
        Request::Batch(payloads) => {
            assert_eq!(payloads.len(), 2);
            assert!(matches!(payloads[0], RequestPayload::Notification(_)));
            assert!(matches!(payloads[1], RequestPayload::Call(_)));
        }
        Request::Single(_) => panic!("a batch decoded as a single payload"),
    }
    assert_eq!(decoded.to_json(), input);
}

#[test]
fn request_batch_fails_as_a_whole() {
    let input = r#"[{"method":"m","params":[]},{"bad":true}]"#;
    assert_eq!(Request::from_json(input), Err(DecodeError::Shape));
}

#[test]
fn request_empty_batch_round_trip() {
    let decoded = Request::from_json("[]").unwrap();
    assert_eq!(decoded, Request::Batch(vec![]));
    assert_eq!(decoded.to_json(), "[]");
}

#[test]
fn response_payload_with_error_is_a_failure() {
    let input = r#"{"error":{"code":-32700,"message":"Parse error"},"id":1}"#;
    let decoded = ResponsePayload::from_json(input).unwrap();
    match decoded {
        ResponsePayload::Failure(f) => {
            assert_eq!(f.error, Error::new(Code::ParseError));
            assert_eq!(f.id, Some(Id::Number(1)));
        }
        ResponsePayload::Success(_) => panic!("a failure decoded as a success"),
    }
}

#[test]
fn response_payload_with_result_is_a_success() {
    let input = r#"{"id":1,"result":true}"#;
    let decoded = ResponsePayload::from_json(input).unwrap();
    assert!(matches!(decoded, ResponsePayload::Success(_)));
}

#[test]
fn response_payload_with_both_error_and_result_is_rejected() {
    let input = r#"{"error":{"code":-32700,"message":"m"},"id":1,"result":true}"#;
    assert_eq!(ResponsePayload::from_json(input), Err(DecodeError::Shape));
}

#[test]
fn response_batch_preserves_order() {
    let input =
        r#"[{"id":1,"result":true},{"error":{"code":-32700,"message":"Parse error"},"id":2}]"#;
    let decoded = Response::from_json(input).unwrap();
    match &decoded {
        Response::Batch(payloads) => {
            assert_eq!(payloads.len(), 2);
            assert!(matches!(payloads[0], ResponsePayload::Success(_)));
            assert!(matches!(payloads[1], ResponsePayload::Failure(_)));
        }
        Response::Single(_) => panic!("a batch decoded as a single payload"),
    }
    assert_eq!(decoded.to_json(), input);
}

#[test]
fn failure_without_id_omits_the_key() {
    let input = Failure {
        error: Error::new_internal_error(),
        id: None,
    };
    let text = input.to_json();
    assert_eq!(text, r#"{"error":{"code":-32603,"message":"Internal error"}}"#);
    assert_eq!(Failure::from_json(&text).unwrap(), input);
}

#[test]
fn failure_with_null_id_is_rejected() {
    let input = r#"{"error":{"code":-32700,"message":"m"},"id":null}"#;
    assert_eq!(Failure::from_json(input), Err(DecodeError::Shape));
}

#[test]
fn success_round_trip_structured_result() {
    let input = Success {
        id: Id::Number(2),
        result: JsonValue::Object(vec![
            ("ok".to_string(), JsonValue::Bool(true)),
            ("values".to_string(), JsonValue::Array(vec![JsonValue::Int(5)])),
        ]),
    };
    let text = input.to_json();
    assert_eq!(text, r#"{"id":2,"result":{"ok":true,"values":[5]}}"#);
    assert_eq!(Success::from_json(&text).unwrap(), input);
}

#[test]
fn success_requires_both_fields() {
    assert_eq!(Success::from_json(r#"{"id":1}"#), Err(DecodeError::Shape));
    assert_eq!(Success::from_json(r#"{"result":true}"#), Err(DecodeError::Shape));
}

#[test]
fn unparseable_text_is_a_syntax_error() {
    assert_eq!(Call::from_json("not json"), Err(DecodeError::Syntax));
    assert_eq!(Request::from_json(""), Err(DecodeError::Syntax));
    assert_eq!(Response::from_json("{"), Err(DecodeError::Syntax));
    assert_eq!(Id::from_json("1.5"), Err(DecodeError::Syntax));
}
