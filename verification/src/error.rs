//! The structured failure reason a response can carry.

use vstd::prelude::*;

use crate::json::{fields_model, get_field, json_text, lemma_fields_model, lookup, parse_text,
    parsed_json, print_text, DecodeError, JsonModel, JsonValue};

verus! {

/// An error classification: five fixed sentinels, each with a canonical
/// integer on the wire, and an open-ended server-defined code for every
/// other integer.
#[derive(Debug, PartialEq, Eq, Clone, Copy)]
pub enum Code {
    /// The received text is not a well-formed document.
    ParseError,
    /// The document is not a valid request.
    InvalidRequest,
    /// The invoked method does not exist or is unavailable.
    MethodNotFound,
    /// The method parameters are invalid.
    InvalidParams,
    /// An internal failure while serving the request.
    InternalError,
    /// A server-defined error carrying its own integer code.
    ServerError(i64),
}

/// The integer a code is written as on the wire.
pub open spec fn code_value(c: Code) -> int {
    match c {
        Code::ParseError => -32700,
        Code::InvalidRequest => -32600,
        Code::MethodNotFound => -32601,
        Code::InvalidParams => -32602,
        Code::InternalError => -32603,
        Code::ServerError(n) => n as int,
    }
}

/// Whether an integer is one of the five fixed sentinel values.
pub open spec fn sentinel_code(n: int) -> bool {
    n == -32700 || n == -32600 || n == -32601 || n == -32602 || n == -32603
}

/// The code an integer decodes to: each sentinel integer maps to its fixed
/// variant, every other integer to a server-defined code.
pub open spec fn code_of_value(n: int) -> Code {
    if n == -32700 {
        Code::ParseError
    } else if n == -32600 {
        Code::InvalidRequest
    } else if n == -32601 {
        Code::MethodNotFound
    } else if n == -32602 {
        Code::InvalidParams
    } else if n == -32603 {
        Code::InternalError
    } else {
        Code::ServerError(n as i64)
    }
}

/// A code whose wire form decodes back to it: a server-defined code never
/// reuses a sentinel integer, since that integer decodes to the fixed
/// variant instead.
pub open spec fn code_wf(c: Code) -> bool {
    c matches Code::ServerError(n) ==> !sentinel_code(n as int)
}

/// The wire form of a code: a plain integer.
pub open spec fn code_to_wire(c: Code) -> JsonModel {
    JsonModel::Int(code_value(c))
}

/// The code a wire value decodes to: defined exactly on integers in the
/// signed 64-bit range.
pub open spec fn code_from_wire(v: JsonModel) -> Option<Code> {
    match v {
        JsonModel::Int(n) => if i64::MIN <= n <= i64::MAX {
            Some(code_of_value(n))
        } else {
            None
        },
        _ => None,
    }
}

/// Decoding inverts encoding on every well-formed code.
pub proof fn lemma_code_round_trip(c: Code)
    requires
        code_wf(c),
    ensures
        code_from_wire(code_to_wire(c)) == Some(c),
{
}

/// Encoding inverts decoding on every integer in the signed 64-bit range:
/// the code-to-integer mapping is a bijection between well-formed codes and
/// those integers.
pub proof fn lemma_code_value_round_trip(n: int)
    requires
        i64::MIN <= n <= i64::MAX,
    ensures
        code_value(code_of_value(n)) == n,
        code_wf(code_of_value(n)),
{
}

/// Encoding is injective on well-formed codes.
pub proof fn lemma_code_encoding_injective(a: Code, b: Code)
    requires
        code_wf(a),
        code_wf(b),
        code_to_wire(a) == code_to_wire(b),
    ensures
        a == b,
{
    lemma_code_round_trip(a);
    lemma_code_round_trip(b);
}

impl Code {
    /// The canonical human-readable message for this code.
    pub fn message(&self) -> (r: &str)
        ensures
            r@ == code_message(*self),
    {
        match self {
            Code::ParseError => "Parse error",
            Code::InvalidRequest => "Invalid request",
            Code::MethodNotFound => "Method not found",
            Code::InvalidParams => "Invalid params",
            Code::InternalError => "Internal error",
            Code::ServerError(_) => "Server error",
        }
    }

    /// The wire value this code is written as.
    pub fn encode(&self) -> (r: JsonValue)
        ensures
            r@ == code_to_wire(*self),
    {
        match self {
            Code::ParseError => JsonValue::Int(-32700),
            Code::InvalidRequest => JsonValue::Int(-32600),
            Code::MethodNotFound => JsonValue::Int(-32601),
            Code::InvalidParams => JsonValue::Int(-32602),
            Code::InternalError => JsonValue::Int(-32603),
            Code::ServerError(n) => JsonValue::Int(*n),
        }
    }

    /// The code a wire value decodes to; an error exactly where the value
    /// is not an integer in the signed 64-bit range.
    pub fn decode(v: &JsonValue) -> (r: Result<Code, DecodeError>)
        ensures
            match r {
                Ok(c) => code_from_wire(v@) == Some(c),
                Err(e) => code_from_wire(v@) is None && e == DecodeError::Shape,
            },
    {
        match v {
            JsonValue::Int(i) => Ok(Code::of_int(*i)),
            JsonValue::UInt(u) => if *u <= i64::MAX as u64 {
                Ok(Code::of_int(*u as i64))
            } else {
                Err(DecodeError::Shape)
            },
            _ => Err(DecodeError::Shape),
        }
    }

    /// The code a signed 64-bit integer decodes to.
    fn of_int(n: i64) -> (c: Code)
        ensures
            c == code_of_value(n as int),
    {
        if n == -32700 {
            Code::ParseError
        } else if n == -32600 {
            Code::InvalidRequest
        } else if n == -32601 {
            Code::MethodNotFound
        } else if n == -32602 {
            Code::InvalidParams
        } else if n == -32603 {
            Code::InternalError
        } else {
            Code::ServerError(n)
        }
    }

    /// Writes this code as JSON text.
    pub fn to_json(&self) -> (r: String)
        ensures
            r@ == json_text(code_to_wire(*self)),
    {
        print_text(&self.encode())
    }

    /// Reads a code from JSON text.
    pub fn from_json(text: &str) -> (r: Result<Code, DecodeError>)
        ensures
            match parsed_json(text@) {
                Some(w) => match r {
                    Ok(c) => code_from_wire(w) == Some(c),
                    Err(e) => code_from_wire(w) is None && e == DecodeError::Shape,
                },
                None => r matches Err(e) && e == DecodeError::Syntax,
            },
    {
        match parse_text(text) {
            Some(v) => Code::decode(&v),
            None => Err(DecodeError::Syntax),
        }
    }
}

/// The canonical message text for a code.
pub open spec fn code_message(c: Code) -> Seq<char> {
    match c {
        Code::ParseError => "Parse error"@,
        Code::InvalidRequest => "Invalid request"@,
        Code::MethodNotFound => "Method not found"@,
        Code::InvalidParams => "Invalid params"@,
        Code::InternalError => "Internal error"@,
        Code::ServerError(_) => "Server error"@,
    }
}

/// A structured failure reason: a code together with a message. The message
/// travels on the wire independently of the code, so the two may diverge in
/// a forged document; the constructors below keep them consistent.
#[derive(Debug, PartialEq)]
pub struct Error {
    pub code: Code,
    pub message: String,
}

/// The mathematical model of a failure reason.
#[verifier::ext_equal]
pub struct ErrorModel {
    pub code: Code,
    pub message: Seq<char>,
}

impl View for Error {
    type V = ErrorModel;

    open spec fn view(&self) -> ErrorModel {
        ErrorModel { code: self.code, message: self.message@ }
    }
}

impl Clone for Error {
    /// A clone keeps the code and the message.
    fn clone(&self) -> (res: Self)
        ensures
            res@ == self@,
    {
        Error { code: self.code, message: self.message.clone() }
    }
}

/// The wire form of a failure reason: an object with exactly the fields
/// `code` and `message`, in that order.
pub open spec fn error_to_wire(e: ErrorModel) -> JsonModel {
    JsonModel::Object(
        seq![("code"@, code_to_wire(e.code)), ("message"@, JsonModel::Text(e.message))],
    )
}

/// The failure reason a wire value decodes to: an object with exactly the
/// two fields `code` (an integer code) and `message` (a string), and
/// nothing else.
pub open spec fn error_from_wire(v: JsonModel) -> Option<ErrorModel> {
    match v {
        JsonModel::Object(fs) => if fs.len() == 2 {
            match (lookup(fs, "code"@), lookup(fs, "message"@)) {
                (Some(cv), Some(JsonModel::Text(m))) => match code_from_wire(cv) {
                    Some(c) => Some(ErrorModel { code: c, message: m }),
                    None => None,
                },
                _ => None,
            }
        } else {
            None
        },
        _ => None,
    }
}

/// Decoding inverts encoding on every failure reason with a well-formed
/// code.
pub proof fn lemma_error_round_trip(e: ErrorModel)
    requires
        code_wf(e.code),
    ensures
        error_from_wire(error_to_wire(e)) == Some(e),
{
    reveal_strlit("code");
    reveal_strlit("message");
    reveal_with_fuel(lookup, 3);
    let fs = error_to_wire(e)->Object_0;
    assert("code"@.len() == 4);
    assert("message"@.len() == 7);
    assert(lookup(fs, "code"@) == Some(code_to_wire(e.code)));
    assert(fs.drop_first()[0] == fs[1]);
    assert(lookup(fs, "message"@) == Some(JsonModel::Text(e.message)));
    lemma_code_round_trip(e.code);
}

/// Encoding is injective on failure reasons with well-formed codes.
pub proof fn lemma_error_encoding_injective(a: ErrorModel, b: ErrorModel)
    requires
        code_wf(a.code),
        code_wf(b.code),
        error_to_wire(a) == error_to_wire(b),
    ensures
        a == b,
{
    lemma_error_round_trip(a);
    lemma_error_round_trip(b);
}

impl Error {
    /// A failure reason for the given code, carrying its canonical message.
    pub fn new(code: Code) -> (r: Error)
        ensures
            r@ == (ErrorModel { code, message: code_message(code) }),
    {
        let message = code.message().to_owned();
        Error { code, message }
    }

    /// A failure reason for a document that is not well-formed.
    pub fn new_parse_error() -> (r: Error)
        ensures
            r@ == (ErrorModel { code: Code::ParseError, message: code_message(Code::ParseError) }),
    {
        Error::new(Code::ParseError)
    }

    /// A failure reason for a document that is not a valid request.
    pub fn new_invalid_request() -> (r: Error)
        ensures
            r@ == (ErrorModel {
                code: Code::InvalidRequest,
                message: code_message(Code::InvalidRequest),
            }),
    {
        Error::new(Code::InvalidRequest)
    }

    /// A failure reason for a method that does not exist.
    pub fn new_method_not_found() -> (r: Error)
        ensures
            r@ == (ErrorModel {
                code: Code::MethodNotFound,
                message: code_message(Code::MethodNotFound),
            }),
    {
        Error::new(Code::MethodNotFound)
    }

    /// A failure reason for invalid method parameters.
    pub fn new_invalid_params() -> (r: Error)
        ensures
            r@ == (ErrorModel {
                code: Code::InvalidParams,
                message: code_message(Code::InvalidParams),
            }),
    {
        Error::new(Code::InvalidParams)
    }

    /// A failure reason for an internal failure.
    pub fn new_internal_error() -> (r: Error)
        ensures
            r@ == (ErrorModel {
                code: Code::InternalError,
                message: code_message(Code::InternalError),
            }),
    {
        Error::new(Code::InternalError)
    }

    /// A server-defined failure reason with its own code and message.
    pub fn new_server_error(code: i64, message: &str) -> (r: Error)
        ensures
            r@ == (ErrorModel { code: Code::ServerError(code), message: message@ }),
    {
        Error { code: Code::ServerError(code), message: message.to_owned() }
    }

    /// The wire value this failure reason is written as.
    pub fn encode(&self) -> (r: JsonValue)
        ensures
            r@ == error_to_wire(self@),
    {
        let mut fields: Vec<(String, JsonValue)> = Vec::new();
        fields.push(("code".to_owned(), self.code.encode()));
        fields.push(("message".to_owned(), JsonValue::Text(self.message.clone())));
        let r = JsonValue::Object(fields);
        proof {
            broadcast use lemma_fields_model;

            assert(fields_model(fields@) =~= error_to_wire(self@)->Object_0);
        }
        r
    }

    /// The failure reason a wire value decodes to; an error exactly where
    /// the value is not an object with the exact field set `code` (an
    /// integer) and `message` (a string).
    pub fn decode(v: &JsonValue) -> (r: Result<Error, DecodeError>)
        ensures
            match r {
                Ok(e) => error_from_wire(v@) == Some(e@),
                Err(e) => error_from_wire(v@) is None && e == DecodeError::Shape,
            },
    {
        broadcast use lemma_fields_model;

        match v {
            JsonValue::Object(fields) => {
                if fields.len() != 2 {
                    return Err(DecodeError::Shape);
                }
                let cv = match get_field(fields, "code") {
                    Some(w) => w,
                    None => return Err(DecodeError::Shape),
                };
                let mv = match get_field(fields, "message") {
                    Some(w) => w,
                    None => return Err(DecodeError::Shape),
                };
                let code = match Code::decode(cv) {
                    Ok(c) => c,
                    Err(e) => return Err(e),
                };
                match mv {
                    JsonValue::Text(m) => Ok(Error { code, message: m.clone() }),
                    _ => Err(DecodeError::Shape),
                }
            },
            _ => Err(DecodeError::Shape),
        }
    }

    /// Writes this failure reason as JSON text.
    pub fn to_json(&self) -> (r: String)
        ensures
            r@ == json_text(error_to_wire(self@)),
    {
        print_text(&self.encode())
    }

    /// Reads a failure reason from JSON text.
    pub fn from_json(text: &str) -> (r: Result<Error, DecodeError>)
        ensures
            match parsed_json(text@) {
                Some(w) => match r {
                    Ok(e) => error_from_wire(w) == Some(e@),
                    Err(e) => error_from_wire(w) is None && e == DecodeError::Shape,
                },
                None => r matches Err(e) && e == DecodeError::Syntax,
            },
    {
        match parse_text(text) {
            Some(v) => Error::decode(&v),
            None => Err(DecodeError::Syntax),
        }
    }
}

} // verus!
