//! Wire-format tests: each schema type against its JSON text form.

use minirpc::{Call, Code, Error, Failure, Id, JsonValue, Method, Notification, Params, Request,
    RequestPayload, Response, ResponsePayload, Success};

fn sample_params() -> Params {
    Params::Array(vec![JsonValue::Int(1), JsonValue::Int(2), JsonValue::Int(3)])
}

fn sample_call() -> Call {
    Call {
        id: Id::Number(1),
        method: Method::Name("test_method".to_owned()),
        params: sample_params(),
    }
}

fn sample_notification() -> Notification {
    Notification {
        method: Method::Name("test_method".to_owned()),
        params: sample_params(),
    }
}

#[test]
fn call_deserialization() {
    let input = r#"{"id":1,"method":"test_method","params":[1,2,3]}"#;
    let expected = sample_call();

    let result: Call = Call::from_json(input).unwrap();
    assert_eq!(result, expected);
}

#[test]
fn call_serialization() {
    let input = sample_call();
    let expected = r#"{"id":1,"method":"test_method","params":[1,2,3]}"#;

    let result = input.to_json();
    assert_eq!(result, expected);
}

#[test]
fn code_deserialization() {
    let input = r#"-32700"#;
    let expected = Code::ParseError;

    let result: Code = Code::from_json(input).unwrap();
    assert_eq!(result, expected);
}

#[test]
fn code_serialization() {
    let input = Code::ParseError;
    let expected = r#"-32700"#;

    let result = input.to_json();
    assert_eq!(result, expected);
}

#[test]
fn error_deserialization() {
    let input = r#"{"code":-32700,"message":"Parse error"}"#;
    let expected = Error::new(Code::ParseError);

    let result: Error = Error::from_json(input).unwrap();
    assert_eq!(result, expected);
}

#[test]
fn error_serialization() {
    let input = Error::new(Code::ParseError);
    let expected = r#"{"code":-32700,"message":"Parse error"}"#;

    let result = input.to_json();
    assert_eq!(result, expected);
}

#[test]
fn failure_deserialization() {
    let input = r#"{"error":{"code":-32700,"message":"Parse error"},"id":1}"#;
    let expected = Failure {
        error: Error::new_parse_error(),
        id: Some(Id::Number(1)),
    };

    let result: Failure = Failure::from_json(input).unwrap();
    assert_eq!(result, expected);
}

#[test]
fn failure_serialization() {
    let input = Failure {
        error: Error::new_parse_error(),
        id: Some(Id::Number(1)),
    };
    let expected = r#"{"error":{"code":-32700,"message":"Parse error"},"id":1}"#;

    let result = input.to_json();
    assert_eq!(result, expected);
}

#[test]
fn id_deserialization() {
    let input = r#"1"#;
    let expected = Id::Number(1);

    let result: Id = Id::from_json(input).unwrap();
    assert_eq!(result, expected);
}

#[test]
fn id_serialization() {
    let input = Id::Number(1);
    let expected = r#"1"#;

    let result = input.to_json();
    assert_eq!(result, expected);
}

#[test]
fn method_deserialization() {
    let input = r#""text_method""#;
    let expected = Method::Name("text_method".to_owned());

    let result: Method = Method::from_json(input).unwrap();
    assert_eq!(result, expected);
}

#[test]
fn method_serialization() {
    let input = Method::Name("text_method".to_owned());
    let expected = r#""text_method""#;

    let result = input.to_json();
    assert_eq!(result, expected);
}

#[test]
fn notification_deserialization() {
    let input = r#"{"method":"test_method","params":[1,2,3]}"#;
    let expected = sample_notification();

    let result: Notification = Notification::from_json(input).unwrap();
    assert_eq!(result, expected);
}

#[test]
fn notification_serialization() {
    let input = sample_notification();
    let expected = r#"{"method":"test_method","params":[1,2,3]}"#;

    let result = input.to_json();
    assert_eq!(result, expected);
}

#[test]
fn params_deserialization() {
    // Array.
    let input = r#"[1,true]"#;
    let expected = Params::Array(vec![JsonValue::Int(1), JsonValue::Bool(true)]);

    let result: Params = Params::from_json(input).unwrap();
    assert_eq!(result, expected);

    // Object.
    let input = r#"{"foo":"bar"}"#;
    let expected = Params::Object(vec![("foo".to_string(), JsonValue::Text("bar".to_string()))]);

    let result: Params = Params::from_json(input).unwrap();
    assert_eq!(result, expected);
}

#[test]
fn params_serialization() {
    // Array.
    let input = Params::Array(vec![JsonValue::Int(1), JsonValue::Bool(true)]);
    let expected = r#"[1,true]"#;

    let result = input.to_json();
    assert_eq!(result, expected);

    // Object.
    let input = Params::Object(vec![("foo".to_string(), JsonValue::Text("bar".to_string()))]);
    let expected = r#"{"foo":"bar"}"#;

    let result = input.to_json();
    assert_eq!(result, expected);
}

#[test]
fn request_deserialization() {
    // Single Notification.
    let input = r#"{"method":"test_method","params":[1,2,3]}"#;
    let expected = Request::Single(RequestPayload::Notification(sample_notification()));

    let result: Request = Request::from_json(input).unwrap();
    assert_eq!(result, expected);

    // Single Call.
    let input = r#"{"id":1,"method":"test_method","params":[1,2,3]}"#;
    let expected = Request::Single(RequestPayload::Call(sample_call()));

    let result: Request = Request::from_json(input).unwrap();
    assert_eq!(result, expected);

    // Batch Notification and Call.
    let input =
        r#"[{"method":"test_method","params":[1,2,3]},{"id":1,"method":"test_method","params":[1,2,3]}]"#;
    let expected = Request::Batch(vec![
        RequestPayload::Notification(sample_notification()),
        RequestPayload::Call(sample_call()),
    ]);

    let result: Request = Request::from_json(input).unwrap();
    assert_eq!(result, expected);
}

#[test]
fn request_serialization() {
    // Single Notification.
    let input = Request::Single(RequestPayload::Notification(sample_notification()));
    let expected = r#"{"method":"test_method","params":[1,2,3]}"#;

    let result = input.to_json();
    assert_eq!(result, expected);

    // Single Call.
    let input = Request::Single(RequestPayload::Call(sample_call()));
    let expected = r#"{"id":1,"method":"test_method","params":[1,2,3]}"#;

    let result = input.to_json();
    assert_eq!(result, expected);

    // Batch Notification and Call.
    let input = Request::Batch(vec![
        RequestPayload::Notification(sample_notification()),
        RequestPayload::Call(sample_call()),
    ]);
    let expected =
        r#"[{"method":"test_method","params":[1,2,3]},{"id":1,"method":"test_method","params":[1,2,3]}]"#;

    let result = input.to_json();
    assert_eq!(result, expected);
}

#[test]
fn response_deserialization() {
    // Single Failure.
    let input = r#"{"error":{"code":-32700,"message":"Parse error"},"id":1}"#;
    let expected = Response::Single(ResponsePayload::Failure(Failure {
        error: Error::new_parse_error(),
        id: Some(Id::Number(1)),
    }));

    let result: Response = Response::from_json(input).unwrap();
    assert_eq!(result, expected);

    // Single Success.
    let input = r#"{"id":1,"result":true}"#;
    let expected = Response::Single(ResponsePayload::Success(Success {
        id: Id::Number(1),
        result: JsonValue::Bool(true),
    }));

    let result: Response = Response::from_json(input).unwrap();
    assert_eq!(result, expected);

    // Batch Failure and Success.
    let input =
        r#"[{"error":{"code":-32700,"message":"Parse error"},"id":1},{"id":1,"result":true}]"#;
    let expected = Response::Batch(vec![
        ResponsePayload::Failure(Failure {
            error: Error::new_parse_error(),
            id: Some(Id::Number(1)),
        }),
        ResponsePayload::Success(Success {
            id: Id::Number(1),
            result: JsonValue::Bool(true),
        }),
    ]);

    let result: Response = Response::from_json(input).unwrap();
    assert_eq!(result, expected);
}

#[test]
fn response_serialization() {
    // Single Failure.
    let input = Response::Single(ResponsePayload::Failure(Failure {
        error: Error::new_parse_error(),
        id: Some(Id::Number(1)),
    }));
    let expected = r#"{"error":{"code":-32700,"message":"Parse error"},"id":1}"#;

    let result = input.to_json();
    assert_eq!(result, expected);

    // Single Success.
    let input = Response::Single(ResponsePayload::Success(Success {
        id: Id::Number(1),
        result: JsonValue::Bool(true),
    }));
    let expected = r#"{"id":1,"result":true}"#;

    let result = input.to_json();
    assert_eq!(result, expected);

    // Batch Failure and Success.
    let input = Response::Batch(vec![
        ResponsePayload::Failure(Failure {
            error: Error::new_parse_error(),
            id: Some(Id::Number(1)),
        }),
        ResponsePayload::Success(Success {
            id: Id::Number(1),
            result: JsonValue::Bool(true),
        }),
    ]);
    let expected =
        r#"[{"error":{"code":-32700,"message":"Parse error"},"id":1},{"id":1,"result":true}]"#;

    let result = input.to_json();
    assert_eq!(result, expected);
}

#[test]
fn success_deserialization() {
    let input = r#"{"id":1,"result":true}"#;
    let expected = Success {
        id: Id::Number(1),
        result: JsonValue::Bool(true),
    };

    let result: Success = Success::from_json(input).unwrap();
    assert_eq!(result, expected);
}

#[test]
fn success_serialization() {
    let input = Success {
        id: Id::Number(1),
        result: JsonValue::Bool(true),
    };
    let expected = r#"{"id":1,"result":true}"#;

    let result = input.to_json();
    assert_eq!(result, expected);
}
