//! Adapter between a serverless platform's JSON envelopes and plain
//! HTTP-style requests and responses.

pub mod body;
pub mod codec;
pub mod dispatch;
pub mod error;
pub mod json;
pub mod request;
pub mod response;
pub mod strmap;

pub use crate::body::Body;
pub use crate::dispatch::{conclude, dispatch, dispatch_text, Handler};
pub use crate::error::VercelError;
pub use crate::json::JsonValue;
pub use crate::request::{read_request, Request};
pub use crate::response::{IntoResponse, Response};
pub use crate::strmap::StrMap;
