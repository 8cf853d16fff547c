//! Constructor tests: each helper yields the code with its canonical
//! message.

use minirpc::{Code, Error};

#[test]
fn error_new() {
    let result = Error::new(Code::ParseError);
    let expected = Error {
        code: Code::ParseError,
        message: "Parse error".to_owned(),
    };

    assert_eq!(result, expected);
}

#[test]
fn error_new_parse_error() {
    let result = Error::new_parse_error();
    let expected = Error {
        code: Code::ParseError,
        message: "Parse error".to_owned(),
    };

    assert_eq!(result, expected);
}

#[test]
fn error_new_invalid_request() {
    let result = Error::new_invalid_request();
    let expected = Error {
        code: Code::InvalidRequest,
        message: "Invalid request".to_owned(),
    };

    assert_eq!(result, expected);
}

#[test]
fn error_new_method_not_found() {
    let result = Error::new_method_not_found();
    let expected = Error {
        code: Code::MethodNotFound,
        message: "Method not found".to_owned(),
    };

    assert_eq!(result, expected);
}

#[test]
fn error_new_invalid_params() {
    let result = Error::new_invalid_params();
    let expected = Error {
        code: Code::InvalidParams,
        message: "Invalid params".to_owned(),
    };

    assert_eq!(result, expected);
}

#[test]
fn error_new_internal_error() {
    let result = Error::new_internal_error();
    let expected = Error {
        code: Code::InternalError,
        message: "Internal error".to_owned(),
    };

    assert_eq!(result, expected);
}

#[test]
fn error_new_server_error() {
    let result = Error::new_server_error(-32000, "Test error");
    let expected = Error {
        code: Code::ServerError(-32000),
        message: "Test error".to_owned(),
    };

    assert_eq!(result, expected);
}
