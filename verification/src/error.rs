//! The ways in which one invocation can fail.

use vstd::prelude::*;

verus! {

/// Why an invocation produced no response envelope.
#[derive(Debug, Clone, PartialEq, Eq)]
pub enum VercelError {
    /// The inbound document is not a request descriptor.
    EnvelopeMalformed,
    /// The body was declared base64 but is not valid base64.
    BodyDecode,
    /// The handler failed; the text is its own description of the failure.
    Handler(String),
}

impl VercelError {
    /// A handler failure with the given description.
    pub fn handler(message: String) -> (e: VercelError)
        ensures
            e == VercelError::Handler(message),
    {
        VercelError::Handler(message)
    }

    /// Whether the failure came from the handler rather than from the
    /// inbound envelope.
    pub fn is_handler_error(&self) -> (b: bool)
        ensures
            b == (*self is Handler),
    {
        match self {
            VercelError::Handler(_) => true,
            _ => false,
        }
    }

    /// A short description of the failure.
    pub fn message(&self) -> (text: String)
        ensures
            text@ == match *self {
                VercelError::EnvelopeMalformed => "malformed request envelope"@,
                VercelError::BodyDecode => "body is not valid base64"@,
                VercelError::Handler(m) => m@,
            },
    {
        match self {
            VercelError::EnvelopeMalformed => "malformed request envelope".to_owned(),
            VercelError::BodyDecode => "body is not valid base64".to_owned(),
            VercelError::Handler(m) => m.clone(),
        }
    }
}

} // verus!
