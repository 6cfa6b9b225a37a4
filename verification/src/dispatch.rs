//! One invocation: read the request, run the handler once, build the
//! envelope of what it returned.

use crate::body::Body;
use crate::error::VercelError;
use crate::json::{held, parsed_document, JsonValue};
use crate::request::{inbound_request, read_request, Request};
use crate::response::{envelope_of, IntoResponse, VercelResponse};
use vstd::prelude::*;

verus! {

/// A request handler. `B` is the body type that it wants to be given, `R`
/// what it returns on success and `E` what it fails with.
pub trait Handler<R, B, E> {
    /// Processes one request.
    fn run(&mut self, event: Request<B>) -> Result<R, E>;
}

/// The result of an invocation whose handler has returned: the envelope of
/// the handler's response, or the handler's error and no envelope.
pub fn conclude<R: IntoResponse>(outcome: Result<R, VercelError>) -> (r: Result<
    VercelResponse,
    VercelError,
>)
    ensures
        match outcome {
            Ok(returned) => r is Ok && r->Ok_0@ == envelope_of(returned.response_view()),
            Err(e) => r == Err::<VercelResponse, VercelError>(e),
        },
{
    match outcome {
        Ok(returned) => Ok(VercelResponse::from_response(returned.into_response())),
        Err(e) => Err(e),
    }
}

/// Handles one event. `document` is the JSON document of the event, or
/// `None` where the event held no JSON. Where the document gives no
/// request, the invocation fails with the inbound error and the handler is
/// not run. Otherwise the handler is run once on what `into_event` makes
/// of the request, and its outcome decides the result as `conclude` says:
/// an envelope that comes back is the envelope of a value that the handler
/// returned.
pub fn dispatch<H, R, B, E>(document: Option<&JsonValue>, handler: &mut H) -> (r: Result<
    VercelResponse,
    VercelError,
>) where H: Handler<R, B, E>, B: From<Body>, E: Into<VercelError>, R: IntoResponse
    ensures
        inbound_request(held(document)) matches Err(e) ==> r == Err::<VercelResponse, VercelError>(
            e,
        ) && *final(handler) == *old(handler),
        inbound_request(held(document)) is Ok ==> (r matches Ok(envelope) ==> exists|returned: R|
            envelope@ == envelope_of(#[trigger] returned.response_view())),
{
    match read_request(document) {
        Err(e) => Err(e),
        Ok(request) => {
            match handler.run(request.into_event()) {
                Ok(returned) => {
                    let ghost given = returned;
                    let r = conclude(Ok(returned));
                    assert(r->Ok_0@ == envelope_of(given.response_view()));
                    r
                },
                Err(e) => conclude::<R>(Err(e.into())),
            }
        },
    }
}

/// Handles one event whose request document comes as JSON text: parses
/// the text and goes on as `dispatch` does. A text that is not JSON fails
/// the invocation as a malformed envelope, and the handler is not run.
pub fn dispatch_text<H, R, B, E>(text: &str, handler: &mut H) -> (r: Result<
    VercelResponse,
    VercelError,
>) where H: Handler<R, B, E>, B: From<Body>, E: Into<VercelError>, R: IntoResponse
    ensures
        inbound_request(parsed_document(text@)) matches Err(e) ==> r == Err::<
            VercelResponse,
            VercelError,
        >(e) && *final(handler) == *old(handler),
        inbound_request(parsed_document(text@)) is Ok ==> (r matches Ok(envelope) ==> exists|
            returned: R,
        |
            envelope@ == envelope_of(#[trigger] returned.response_view())),
{
    match JsonValue::parse(text) {
        Some(doc) => dispatch(Some(&doc), handler),
        None => dispatch(None, handler),
    }
}

} // verus!
