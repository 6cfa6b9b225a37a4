//! The body of a request or a response.

use crate::codec::{base64_decoding, base64_encoding, decode_base64, encode_base64, Encoding};
use crate::error::VercelError;
use vstd::prelude::*;
use vstd::slice::slice_to_vec;
use vstd::utf8::encode_utf8;

verus! {

/// An HTTP body: absent, text, or raw bytes. The variant alone decides how
/// the body is written into an envelope.
#[derive(Debug, Clone, PartialEq, Eq)]
pub enum Body {
    Empty,
    Text(String),
    Binary(Vec<u8>),
}

/// What a `Body` holds.
pub enum BodyView {
    Empty,
    Text(Seq<char>),
    Binary(Seq<u8>),
}

impl View for Body {
    type V = BodyView;

    open spec fn view(&self) -> BodyView {
        match *self {
            Body::Empty => BodyView::Empty,
            Body::Text(text) => BodyView::Text(text@),
            Body::Binary(bytes) => BodyView::Binary(bytes@),
        }
    }
}

/// The bytes of a body: none, the UTF-8 encoding of the text, or the bytes
/// themselves.
pub open spec fn body_bytes(body: BodyView) -> Seq<u8> {
    match body {
        BodyView::Empty => Seq::empty(),
        BodyView::Text(text) => encode_utf8(text),
        BodyView::Binary(bytes) => bytes,
    }
}

/// The body that an envelope's body string and encoding stand for, or
/// `None` where the string is declared base64 and is not.
pub open spec fn decoded_body(text: Option<Seq<char>>, encoding: Encoding) -> Option<BodyView> {
    match text {
        None => Some(BodyView::Empty),
        Some(t) => match encoding {
            Encoding::Text => Some(BodyView::Text(t)),
            Encoding::Base64 => match base64_decoding(t) {
                Some(bytes) => Some(BodyView::Binary(bytes)),
                None => None,
            },
        },
    }
}

/// The body string and encoding under which a body is written into an
/// envelope.
pub open spec fn encoded_body(body: BodyView) -> (Seq<char>, Encoding) {
    match body {
        BodyView::Empty => (Seq::empty(), Encoding::Text),
        BodyView::Text(text) => (text, Encoding::Text),
        BodyView::Binary(bytes) => (base64_encoding(bytes), Encoding::Base64),
    }
}

/// A binary body made from bytes gives back exactly those bytes.
pub proof fn lemma_binary_round_trip(bytes: Seq<u8>)
    ensures
        body_bytes(BodyView::Binary(bytes)) == bytes,
{
}

/// A text body gives the UTF-8 encoding of its text.
pub proof fn lemma_text_bytes_are_utf8(text: Seq<char>)
    ensures
        body_bytes(BodyView::Text(text)) == encode_utf8(text),
{
}

impl Body {
    /// A text body.
    pub fn from_text(text: String) -> (body: Body)
        ensures
            body@ == BodyView::Text(text@),
    {
        Body::Text(text)
    }

    /// A binary body.
    pub fn from_binary(bytes: Vec<u8>) -> (body: Body)
        ensures
            body@ == BodyView::Binary(bytes@),
    {
        Body::Binary(bytes)
    }

    /// Whether the body is absent. A text or binary body of length zero is
    /// not absent.
    pub fn is_empty(&self) -> (b: bool)
        ensures
            b == (self@ is Empty),
    {
        match self {
            Body::Empty => true,
            _ => false,
        }
    }

    /// The bytes of the body.
    pub fn into_bytes(self) -> (bytes: Vec<u8>)
        ensures
            bytes@ == body_bytes(self@),
    {
        match self {
            Body::Empty => Vec::new(),
            Body::Text(text) => slice_to_vec(text.as_str().as_bytes()),
            Body::Binary(bytes) => bytes,
        }
    }

    /// The body for the outcome of decoding a base64 body string: the
    /// decoded bytes as a binary body, or the decode failure.
    pub fn from_decoded(decoded: Result<Vec<u8>, base64::DecodeError>) -> (r: Result<
        Body,
        VercelError,
    >)
        ensures
            match decoded {
                Ok(bytes) => r is Ok && r->Ok_0@ == BodyView::Binary(bytes@),
                Err(_) => r == Err::<Body, VercelError>(VercelError::BodyDecode),
            },
    {
        match decoded {
            Ok(bytes) => Ok(Body::Binary(bytes)),
            Err(_) => Err(VercelError::BodyDecode),
        }
    }

    /// Reads the body string of an inbound envelope. A missing string is an
    /// absent body; a text string is taken as it is, whatever its bytes; a
    /// base64 string is decoded, and fails the invocation where it is not
    /// valid base64.
    pub fn decode(text: Option<String>, encoding: Encoding) -> (r: Result<Body, VercelError>)
        ensures
            match r {
                Ok(body) => decoded_body(option_text_view(text), encoding) == Some(body@),
                Err(e) => e == VercelError::BodyDecode && decoded_body(
                    option_text_view(text),
                    encoding,
                ) is None,
            },
    {
        match text {
            None => Ok(Body::Empty),
            Some(t) => match encoding {
                Encoding::Text => Ok(Body::Text(t)),
                Encoding::Base64 => Body::from_decoded(decode_base64(t.as_str())),
            },
        }
    }

    /// Writes the body for an outbound envelope: the body string and the
    /// encoding it is in. Text goes out as it is, bytes go out as base64, an
    /// absent body as the empty text.
    pub fn encode(self) -> (r: (String, Encoding))
        ensures
            (r.0@, r.1) == encoded_body(self@),
    {
        match self {
            Body::Empty => (String::new(), Encoding::Text),
            Body::Text(text) => (text, Encoding::Text),
            Body::Binary(bytes) => (encode_base64(&bytes), Encoding::Base64),
        }
    }
}

/// The view of an optional string.
pub open spec fn option_text_view(text: Option<String>) -> Option<Seq<char>> {
    match text {
        Some(t) => Some(t@),
        None => None,
    }
}

impl From<String> for Body {
    /// A string is a text body.
    fn from(text: String) -> (body: Body) {
        Body::Text(text)
    }
}

impl vstd::std_specs::convert::FromSpecImpl<String> for Body {
    open spec fn obeys_from_spec() -> bool {
        true
    }

    open spec fn from_spec(text: String) -> Body {
        Body::Text(text)
    }
}

impl From<Vec<u8>> for Body {
    /// Bytes are a binary body.
    fn from(bytes: Vec<u8>) -> (body: Body) {
        Body::Binary(bytes)
    }
}

impl vstd::std_specs::convert::FromSpecImpl<Vec<u8>> for Body {
    open spec fn obeys_from_spec() -> bool {
        true
    }

    open spec fn from_spec(bytes: Vec<u8>) -> Body {
        Body::Binary(bytes)
    }
}

impl From<()> for Body {
    /// The unit value is the absent body.
    fn from(nothing: ()) -> (body: Body) {
        Body::Empty
    }
}

impl vstd::std_specs::convert::FromSpecImpl<()> for Body {
    open spec fn obeys_from_spec() -> bool {
        true
    }

    open spec fn from_spec(nothing: ()) -> Body {
        Body::Empty
    }
}

impl Default for Body {
    fn default() -> (body: Body)
        ensures
            body@ == BodyView::Empty,
    {
        Body::Empty
    }
}

} // verus!
