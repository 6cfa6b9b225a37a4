//! The inbound side: from the platform's request descriptor to a request.

use crate::body::{decoded_body, option_text_view, Body, BodyView};
use crate::codec::Encoding;
use crate::error::VercelError;
use crate::json::{
    declared_encoding, member_of, optional_text, required_text, string_pairs, JsonValue, JsonView,
};
use crate::strmap::StrMap;
use vstd::prelude::*;

verus! {

/// The request descriptor of an inbound envelope, as the platform sent it.
#[derive(Debug, Clone, PartialEq)]
pub struct VercelRequest {
    pub method: String,
    pub path: String,
    pub headers: StrMap,
    pub query: StrMap,
    pub body: Option<String>,
    pub encoding: Encoding,
}

/// What a `VercelRequest` holds.
pub struct VercelRequestView {
    pub method: Seq<char>,
    pub path: Seq<char>,
    pub headers: Seq<(Seq<char>, Seq<char>)>,
    pub query: Seq<(Seq<char>, Seq<char>)>,
    pub body: Option<Seq<char>>,
    pub encoding: Encoding,
}

impl View for VercelRequest {
    type V = VercelRequestView;

    open spec fn view(&self) -> VercelRequestView {
        VercelRequestView {
            method: self.method@,
            path: self.path@,
            headers: self.headers@,
            query: self.query@,
            body: option_text_view(self.body),
            encoding: self.encoding,
        }
    }
}

/// An HTTP request with a body of type `B`. Query parameters are kept
/// beside the path, not inside it.
#[derive(Debug, Clone, PartialEq)]
pub struct Request<B> {
    pub method: String,
    pub path: String,
    pub headers: StrMap,
    pub query: StrMap,
    pub body: B,
}

/// What a `Request<Body>` holds.
pub struct RequestView {
    pub method: Seq<char>,
    pub path: Seq<char>,
    pub headers: Seq<(Seq<char>, Seq<char>)>,
    pub query: Seq<(Seq<char>, Seq<char>)>,
    pub body: BodyView,
}

impl View for Request<Body> {
    type V = RequestView;

    open spec fn view(&self) -> RequestView {
        RequestView {
            method: self.method@,
            path: self.path@,
            headers: self.headers@,
            query: self.query@,
            body: self.body@,
        }
    }
}

/// The descriptor that a JSON document spells out, or `None` where it
/// spells out none: `method` and `path` must be strings; `headers` and
/// `query` hold string pairs or are missing; `body` is a string or missing;
/// `encoding` declares text or base64 or is missing.
pub open spec fn described_request(doc: JsonView) -> Option<VercelRequestView> {
    let method = required_text(member_of(doc, "method"@));
    let path = required_text(member_of(doc, "path"@));
    let headers = string_pairs(member_of(doc, "headers"@));
    let query = string_pairs(member_of(doc, "query"@));
    let body = optional_text(member_of(doc, "body"@));
    let encoding = declared_encoding(member_of(doc, "encoding"@));
    if method is Some && path is Some && headers is Some && query is Some && body is Some
        && encoding is Some {
        Some(
            VercelRequestView {
                method: method.unwrap(),
                path: path.unwrap(),
                headers: headers.unwrap(),
                query: query.unwrap(),
                body: body.unwrap(),
                encoding: encoding.unwrap(),
            },
        )
    } else {
        None
    }
}

/// The request that a descriptor stands for, or `None` where its body is
/// declared base64 and is not.
pub open spec fn converted_request(descriptor: VercelRequestView) -> Option<RequestView> {
    match decoded_body(descriptor.body, descriptor.encoding) {
        Some(body) => Some(
            RequestView {
                method: descriptor.method,
                path: descriptor.path,
                headers: descriptor.headers,
                query: descriptor.query,
                body,
            },
        ),
        None => None,
    }
}

/// What the inbound side makes of an event: the request, or the error that
/// ends the invocation. `None` stands for an event that is no JSON at all.
pub open spec fn inbound_request(document: Option<JsonView>) -> Result<RequestView, VercelError> {
    match document {
        None => Err(VercelError::EnvelopeMalformed),
        Some(doc) => match described_request(doc) {
            None => Err(VercelError::EnvelopeMalformed),
            Some(descriptor) => match converted_request(descriptor) {
                None => Err(VercelError::BodyDecode),
                Some(request) => Ok(request),
            },
        },
    }
}

impl VercelRequest {
    /// Reads the descriptor out of a JSON document.
    pub fn from_json(doc: &JsonValue) -> (r: Result<VercelRequest, VercelError>)
        ensures
            match r {
                Ok(descriptor) => described_request(doc@) == Some(descriptor@),
                Err(e) => e == VercelError::EnvelopeMalformed && described_request(doc@) is None,
            },
    {
        let method = match JsonValue::read_text(doc.get("method")) {
            Ok(text) => text,
            Err(e) => {
                return Err(e);
            },
        };
        let path = match JsonValue::read_text(doc.get("path")) {
            Ok(text) => text,
            Err(e) => {
                return Err(e);
            },
        };
        let headers = match JsonValue::read_pairs(doc.get("headers")) {
            Ok(pairs) => pairs,
            Err(e) => {
                return Err(e);
            },
        };
        let query = match JsonValue::read_pairs(doc.get("query")) {
            Ok(pairs) => pairs,
            Err(e) => {
                return Err(e);
            },
        };
        let body = match JsonValue::read_optional_text(doc.get("body")) {
            Ok(text) => text,
            Err(e) => {
                return Err(e);
            },
        };
        let encoding = match JsonValue::read_encoding(doc.get("encoding")) {
            Ok(encoding) => encoding,
            Err(e) => {
                return Err(e);
            },
        };
        Ok(VercelRequest { method, path, headers, query, body, encoding })
    }

    /// Turns the descriptor into a request, decoding the body as the
    /// descriptor declares it.
    pub fn into_request(self) -> (r: Result<Request<Body>, VercelError>)
        ensures
            match r {
                Ok(request) => converted_request(self@) == Some(request@),
                Err(e) => e == VercelError::BodyDecode && converted_request(self@) is None,
            },
    {
        let VercelRequest { method, path, headers, query, body, encoding } = self;
        match Body::decode(body, encoding) {
            Ok(body) => Ok(Request { method, path, headers, query, body }),
            Err(e) => Err(e),
        }
    }
}

impl Request<Body> {
    /// The request as a handler with body type `B` is given it: the body
    /// converted, everything else as it is.
    pub fn into_event<B: From<Body>>(self) -> (event: Request<B>)
        ensures
            event.method == self.method,
            event.path == self.path,
            event.headers == self.headers,
            event.query == self.query,
            <B as vstd::std_specs::convert::FromSpec<Body>>::obeys_from_spec() ==> event.body
                == <B as vstd::std_specs::convert::FromSpec<Body>>::from_spec(self.body),
    {
        let Request { method, path, headers, query, body } = self;
        Request { method, path, headers, query, body: B::from(body) }
    }
}

/// The whole inbound side: reads the descriptor out of the event's
/// document and turns it into a request.
pub fn read_request(document: Option<&JsonValue>) -> (r: Result<Request<Body>, VercelError>)
    ensures
        match r {
            Ok(request) => inbound_request(crate::json::held(document)) == Ok::<
                RequestView,
                VercelError,
            >(request@),
            Err(e) => inbound_request(crate::json::held(document)) == Err::<
                RequestView,
                VercelError,
            >(e),
        },
{
    match document {
        None => Err(VercelError::EnvelopeMalformed),
        Some(doc) => match VercelRequest::from_json(doc) {
            Err(e) => Err(e),
            Ok(descriptor) => descriptor.into_request(),
        },
    }
}

} // verus!
