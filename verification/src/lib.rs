//! A minimal remote-procedure-call message schema: requests and responses as
//! immutable value types, together with a verified codec between those types
//! and a JSON-like structured wire value.
//!
//! The codec discriminates untagged wire documents by shape alone, trying the
//! candidate shapes in a fixed priority order under strict field closure: a
//! document carrying any field outside the target shape's exact field set is
//! rejected.

pub mod call;
pub mod error;
pub mod failure;
pub mod id;
pub mod json;
pub mod method;
pub mod notification;
pub mod params;
pub mod request;
pub mod response;
pub mod success;

pub use crate::call::Call;
pub use crate::error::Code;
pub use crate::error::Error;
pub use crate::failure::Failure;
pub use crate::id::Id;
pub use crate::json::DecodeError;
pub use crate::json::JsonValue;
pub use crate::method::Method;
pub use crate::notification::Notification;
pub use crate::params::Params;
pub use crate::request::Payload as RequestPayload;
pub use crate::request::Request;
pub use crate::response::Payload as ResponsePayload;
pub use crate::response::Response;
pub use crate::success::Success;
