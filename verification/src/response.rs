//! The outbound side: from a response to the platform's response envelope.

use crate::body::{encoded_body, Body, BodyView};
use crate::codec::Encoding;
use crate::json::{
    declared_encoding, lemma_object_view, member, member_of, required_text, string_pairs, JsonValue, JsonView,
};
use crate::request::described_request;
use crate::strmap::{values_of, StrMap};
use vstd::prelude::*;

verus! {

/// An HTTP response whose body is a `Body`.
#[derive(Debug, Clone, PartialEq)]
pub struct Response {
    pub status: u16,
    pub headers: StrMap,
    pub body: Body,
}

/// What a `Response` holds.
pub struct ResponseView {
    pub status: u16,
    pub headers: Seq<(Seq<char>, Seq<char>)>,
    pub body: BodyView,
}

impl View for Response {
    type V = ResponseView;

    open spec fn view(&self) -> ResponseView {
        ResponseView { status: self.status, headers: self.headers@, body: self.body@ }
    }
}

/// The response descriptor of an outbound envelope.
#[derive(Debug, Clone, PartialEq)]
pub struct VercelResponse {
    pub status_code: u16,
    pub headers: StrMap,
    pub body: String,
    pub encoding: Encoding,
}

/// What a `VercelResponse` holds.
pub struct VercelResponseView {
    pub status_code: u16,
    pub headers: Seq<(Seq<char>, Seq<char>)>,
    pub body: Seq<char>,
    pub encoding: Encoding,
}

impl View for VercelResponse {
    type V = VercelResponseView;

    open spec fn view(&self) -> VercelResponseView {
        VercelResponseView {
            status_code: self.status_code,
            headers: self.headers@,
            body: self.body@,
            encoding: self.encoding,
        }
    }
}

/// The envelope of a response: status and headers as they are, the body
/// written as its variant asks.
pub open spec fn envelope_of(response: ResponseView) -> VercelResponseView {
    VercelResponseView {
        status_code: response.status,
        headers: response.headers,
        body: encoded_body(response.body).0,
        encoding: encoded_body(response.body).1,
    }
}

/// The word that an envelope uses for an encoding.
pub open spec fn encoding_name(encoding: Encoding) -> Seq<char> {
    match encoding {
        Encoding::Text => "text"@,
        Encoding::Base64 => "base64"@,
    }
}

/// A response that echoes the headers of a well-formed inbound document has
/// an envelope with its own status and with exactly those headers: the same
/// pairs in the same order, so every key keeps each of its values.
pub proof fn lemma_echo_keeps_status_and_headers(
    doc: JsonView,
    status: u16,
    body: BodyView,
    key: Seq<char>,
)
    requires
        described_request(doc) is Some,
    ensures
        ({
            let inbound = described_request(doc).unwrap();
            let envelope = envelope_of(ResponseView { status, headers: inbound.headers, body });
            &&& envelope.status_code == status
            &&& envelope.headers == inbound.headers
            &&& envelope.headers == string_pairs(member_of(doc, "headers"@)).unwrap()
            &&& values_of(envelope.headers, key) == values_of(inbound.headers, key)
        }),
{
}

/// An absent body goes out as the empty text.
pub proof fn lemma_empty_body_is_empty_text(status: u16, headers: Seq<(Seq<char>, Seq<char>)>)
    ensures
        envelope_of(ResponseView { status, headers, body: BodyView::Empty }).body
            == Seq::<char>::empty(),
        envelope_of(ResponseView { status, headers, body: BodyView::Empty }).encoding
            == Encoding::Text,
{
}

/// What a handler may return: anything that has a response.
pub trait IntoResponse: Sized {
    /// The response that this value stands for.
    spec fn response_view(self) -> ResponseView;

    fn into_response(self) -> (response: Response)
        ensures
            response@ == self.response_view(),
    ;
}

impl IntoResponse for Response {
    open spec fn response_view(self) -> ResponseView {
        self@
    }

    fn into_response(self) -> (response: Response) {
        self
    }
}

impl IntoResponse for Body {
    /// Status 200, no headers, this body.
    open spec fn response_view(self) -> ResponseView {
        ResponseView { status: 200, headers: Seq::empty(), body: self@ }
    }

    fn into_response(self) -> (response: Response) {
        Response { status: 200, headers: StrMap::new(), body: self }
    }
}

impl IntoResponse for String {
    /// Status 200, no headers, this text as the body.
    open spec fn response_view(self) -> ResponseView {
        ResponseView { status: 200, headers: Seq::empty(), body: BodyView::Text(self@) }
    }

    fn into_response(self) -> (response: Response) {
        Response { status: 200, headers: StrMap::new(), body: Body::Text(self) }
    }
}

impl VercelResponse {
    /// Builds the envelope of a response.
    pub fn from_response(response: Response) -> (envelope: VercelResponse)
        ensures
            envelope@ == envelope_of(response@),
    {
        let Response { status, headers, body } = response;
        let (text, encoding) = body.encode();
        VercelResponse { status_code: status, headers, body: text, encoding }
    }

    /// The envelope as a JSON document with the members `statusCode`,
    /// `headers`, `body` and `encoding`, in this order. `headers` is an
    /// object with one member for each pair, repeated keys included.
    pub fn to_json(&self) -> (doc: JsonValue)
        ensures
            doc@ is Object,
            doc@->Object_0.len() == 4,
            doc@->Object_0[0].0 == "statusCode"@,
            doc@->Object_0[1].0 == "headers"@,
            doc@->Object_0[2].0 == "body"@,
            doc@->Object_0[3].0 == "encoding"@,
            member_of(doc@, "statusCode"@) == Some(JsonView::Integer(self.status_code as i64)),
            string_pairs(member_of(doc@, "headers"@)) == Some(self.headers@),
            member_of(doc@, "headers"@) matches Some(h) && h is Object,
            required_text(member_of(doc@, "body"@)) == Some(self.body@),
            required_text(member_of(doc@, "encoding"@)) == Some(encoding_name(self.encoding)),
            declared_encoding(member_of(doc@, "encoding"@)) == Some(self.encoding),
    {
        let word = match self.encoding {
            Encoding::Text => "text".to_owned(),
            Encoding::Base64 => "base64".to_owned(),
        };
        let mut fields: Vec<(String, JsonValue)> = Vec::new();
        fields.push(("statusCode".to_owned(), JsonValue::Integer(self.status_code as i64)));
        fields.push(("headers".to_owned(), JsonValue::object_of(&self.headers)));
        fields.push(("body".to_owned(), JsonValue::Text(self.body.clone())));
        fields.push(("encoding".to_owned(), JsonValue::Text(word)));
        let doc = JsonValue::Object(fields);
        proof {
            reveal_strlit("statusCode");
            reveal_strlit("headers");
            reveal_strlit("body");
            reveal_strlit("encoding");
            reveal_strlit("text");
            reveal_strlit("base64");
            reveal_with_fuel(member, 5);
            lemma_object_view(fields);
            let f = doc@->Object_0;
            assert(f[0].0 == "statusCode"@ && f[1].0 == "headers"@ && f[2].0 == "body"@ && f[3].0
                == "encoding"@);
            assert("statusCode"@.len() == 10);
            assert("headers"@.len() == 7);
            assert("body"@.len() == 4);
            assert("encoding"@.len() == 8);
            assert("text"@.len() == 4);
            assert("base64"@.len() == 6);
            assert(member(f, "statusCode"@) == Some(f[0].1));
            assert(member(f, "headers"@) == Some(f[1].1));
            assert(member(f, "body"@) == Some(f[2].1));
            assert(member(f, "encoding"@) == Some(f[3].1));
        }
        doc
    }
}

} // verus!
