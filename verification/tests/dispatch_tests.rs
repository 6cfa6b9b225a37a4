use vercel_lambda::body::Body;
use vercel_lambda::codec::Encoding;
use vercel_lambda::error::VercelError;
use vercel_lambda::json::JsonValue;
use vercel_lambda::request::Request;
use vercel_lambda::response::Response;
use vercel_lambda::strmap::StrMap;
use vercel_lambda::{conclude, dispatch, dispatch_text, Handler};

fn document(text: &str) -> Option<JsonValue> {
    JsonValue::parse(text)
}

struct Echo {
    calls: u32,
    seen: Vec<(String, String, Body)>,
}

impl Handler<Response, Body, VercelError> for Echo {
    fn run(&mut self, event: Request<Body>) -> Result<Response, VercelError> {
        self.calls += 1;
        self.seen.push((event.method, event.path, event.body));
        let mut headers = StrMap::new();
        headers.insert("x".to_string(), "y".to_string());
        Ok(Response { status: 200, headers, body: Body::Text("ok".to_string()) })
    }
}

struct Failing {
    calls: u32,
}

impl Handler<Response, Body, VercelError> for Failing {
    fn run(&mut self, _event: Request<Body>) -> Result<Response, VercelError> {
        self.calls += 1;
        Err(VercelError::Handler("no".to_string()))
    }
}

struct Bytes(Vec<u8>);

impl From<Body> for Bytes {
    fn from(body: Body) -> Bytes {
        Bytes(body.into_bytes())
    }
}

struct Length;

impl Handler<String, Bytes, Refusal> for Length {
    fn run(&mut self, event: Request<Bytes>) -> Result<String, Refusal> {
        if event.body.0.is_empty() {
            Err(Refusal("nothing to measure".to_string()))
        } else {
            Ok(event.body.0.len().to_string())
        }
    }
}

struct Refusal(String);

impl From<Refusal> for VercelError {
    fn from(r: Refusal) -> VercelError {
        VercelError::Handler(r.0)
    }
}

#[test]
fn end_to_end_echo() {
    let doc = document(
        r#"{"method":"GET","path":"/x","headers":{},"query":{},"body":"","encoding":"text"}"#,
    );
    assert!(doc.is_some());
    let mut handler = Echo { calls: 0, seen: Vec::new() };
    let envelope = dispatch(doc.as_ref(), &mut handler).unwrap();
    assert_eq!(handler.calls, 1);
    assert_eq!(
        handler.seen,
        vec![("GET".to_string(), "/x".to_string(), Body::Text(String::new()))]
    );
    assert_eq!(envelope.status_code, 200);
    assert_eq!(envelope.headers.len(), 1);
    assert_eq!(envelope.headers.entry(0), Some(("x", "y")));
    assert_eq!(envelope.body, "ok");
    assert_eq!(envelope.encoding, Encoding::Text);
    let expected = document(r#"{"statusCode":200,"headers":{"x":"y"},"body":"ok","encoding":"text"}"#);
    let out = envelope.to_json();
    let wanted = expected.unwrap();
    assert_eq!(out.get("statusCode"), Some(&JsonValue::Integer(200)));
    assert_eq!(wanted.get("statusCode").unwrap().as_integer(), Some(200));
    assert_eq!(out.get("headers"), wanted.get("headers"));
    assert_eq!(out.get("body"), wanted.get("body"));
    assert_eq!(out.get("encoding"), wanted.get("encoding"));
}

#[test]
fn malformed_json_never_reaches_the_handler() {
    let doc = document("{\"method\": \"GET\", ");
    assert!(doc.is_none());
    let mut handler = Echo { calls: 0, seen: Vec::new() };
    let result = dispatch(doc.as_ref(), &mut handler);
    assert_eq!(result, Err(VercelError::EnvelopeMalformed));
    assert_eq!(handler.calls, 0);
}

#[test]
fn malformed_descriptor_never_reaches_the_handler() {
    let doc = document(r#"{"path":"/x"}"#);
    let mut handler = Echo { calls: 0, seen: Vec::new() };
    assert_eq!(dispatch(doc.as_ref(), &mut handler), Err(VercelError::EnvelopeMalformed));
    let list = document(r#"["GET","/x"]"#);
    assert_eq!(dispatch(list.as_ref(), &mut handler), Err(VercelError::EnvelopeMalformed));
    assert_eq!(handler.calls, 0);
}

#[test]
fn bad_base64_never_reaches_the_handler() {
    let doc = document(r#"{"method":"POST","path":"/x","body":"%%%","encoding":"base64"}"#);
    let mut handler = Echo { calls: 0, seen: Vec::new() };
    assert_eq!(dispatch(doc.as_ref(), &mut handler), Err(VercelError::BodyDecode));
    assert_eq!(handler.calls, 0);
}

#[test]
fn handler_error_gives_no_envelope() {
    let doc = document(r#"{"method":"GET","path":"/x"}"#);
    let mut handler = Failing { calls: 0 };
    let result = dispatch(doc.as_ref(), &mut handler);
    assert_eq!(result, Err(VercelError::Handler("no".to_string())));
    assert_eq!(handler.calls, 1);
}

#[test]
fn conclude_maps_each_outcome() {
    assert_eq!(
        conclude::<Response>(Err(VercelError::Handler("x".to_string()))),
        Err(VercelError::Handler("x".to_string()))
    );
    let response = Response { status: 201, headers: StrMap::new(), body: Body::Binary(vec![1u8, 2u8, 3u8]) };
    let envelope = conclude(Ok(response)).unwrap();
    assert_eq!(envelope.status_code, 201);
    assert_eq!(envelope.body, "AQID");
    assert_eq!(envelope.encoding, Encoding::Base64);
    let from_text = conclude(Ok("hi".to_string())).unwrap();
    assert_eq!(from_text.status_code, 200);
    assert_eq!(from_text.body, "hi");
    assert_eq!(from_text.encoding, Encoding::Text);
}

#[test]
fn base64_request_body_reaches_the_handler_decoded() {
    let doc = document(r#"{"method":"POST","path":"/u","body":"aGVsbG8=","encoding":"base64"}"#);
    let mut handler = Echo { calls: 0, seen: Vec::new() };
    dispatch(doc.as_ref(), &mut handler).unwrap();
    assert_eq!(
        handler.seen,
        vec![("POST".to_string(), "/u".to_string(), Body::Binary(b"hello".to_vec()))]
    );
}

#[test]
fn handler_with_its_own_body_type() {
    let doc = document(r#"{"method":"POST","path":"/u","body":"aGVsbG8=","encoding":"base64"}"#);
    let mut handler = Length;
    let envelope = dispatch(doc.as_ref(), &mut handler).unwrap();
    assert_eq!(envelope.status_code, 200);
    assert_eq!(envelope.body, "5");
    assert_eq!(envelope.encoding, Encoding::Text);
    let empty = document(r#"{"method":"POST","path":"/u"}"#);
    assert_eq!(
        dispatch(empty.as_ref(), &mut handler),
        Err(VercelError::Handler("nothing to measure".to_string()))
    );
}

#[test]
fn text_dispatch_end_to_end() {
    let text = r#"{"method":"GET","path":"/x","headers":{},"query":{},"body":"","encoding":"text"}"#;
    let mut handler = Echo { calls: 0, seen: Vec::new() };
    let envelope = dispatch_text(text, &mut handler).unwrap();
    assert_eq!(handler.calls, 1);
    assert_eq!(envelope.status_code, 200);
    assert_eq!(envelope.headers.get_all("x"), vec!["y".to_string()]);
    assert_eq!(envelope.headers.len(), 1);
    assert_eq!(envelope.body, "ok");
    assert_eq!(envelope.encoding, Encoding::Text);
    let out = envelope.to_json();
    let wanted = JsonValue::parse(
        r#"{"statusCode":200,"headers":{"x":"y"},"body":"ok","encoding":"text"}"#,
    )
    .unwrap();
    assert_eq!(out.get("statusCode").unwrap().as_integer(), Some(200));
    assert_eq!(wanted.get("statusCode").unwrap().as_integer(), Some(200));
    assert_eq!(out.get("headers"), wanted.get("headers"));
    assert_eq!(out.get("body"), wanted.get("body"));
    assert_eq!(out.get("encoding"), wanted.get("encoding"));
}

#[test]
fn text_dispatch_of_malformed_json_never_reaches_the_handler() {
    let mut handler = Echo { calls: 0, seen: Vec::new() };
    assert_eq!(dispatch_text("{\"method\": ", &mut handler), Err(VercelError::EnvelopeMalformed));
    assert_eq!(dispatch_text("", &mut handler), Err(VercelError::EnvelopeMalformed));
    assert_eq!(dispatch_text("not json", &mut handler), Err(VercelError::EnvelopeMalformed));
    assert_eq!(dispatch_text("{} trailing", &mut handler), Err(VercelError::EnvelopeMalformed));
    assert_eq!(handler.calls, 0);
}

#[test]
fn text_dispatch_of_failing_handler_gives_no_envelope() {
    let mut handler = Failing { calls: 0 };
    let result = dispatch_text(r#"{"method":"GET","path":"/x"}"#, &mut handler);
    assert_eq!(result, Err(VercelError::Handler("no".to_string())));
    assert_eq!(handler.calls, 1);
}

#[test]
fn text_dispatch_keeps_header_order_of_the_document() {
    let text = r#"{"method":"GET","path":"/","headers":{"zeta":"1","alpha":"2","mid":"3"},"query":[["q","1"],["q","2"]]}"#;
    let doc = JsonValue::parse(text).unwrap();
    let request = vercel_lambda::read_request(Some(&doc)).unwrap();
    assert_eq!(request.headers.entry(0), Some(("zeta", "1")));
    assert_eq!(request.headers.entry(1), Some(("alpha", "2")));
    assert_eq!(request.headers.entry(2), Some(("mid", "3")));
    assert_eq!(request.query.get_all("q"), vec!["1".to_string(), "2".to_string()]);
}

#[test]
fn parse_gives_each_kind_of_value() {
    assert_eq!(JsonValue::parse("null"), Some(JsonValue::Null));
    assert_eq!(JsonValue::parse("true"), Some(JsonValue::Bool(true)));
    assert_eq!(JsonValue::parse("-12"), Some(JsonValue::Number(Some(-12), "-12".to_string())));
    assert_eq!(JsonValue::parse("1.5"), Some(JsonValue::Number(None, "1.5".to_string())));
    assert_eq!(
        JsonValue::parse("18446744073709551615"),
        Some(JsonValue::Number(None, "18446744073709551615".to_string()))
    );
    assert_eq!(JsonValue::parse("\"a\\nb\""), Some(JsonValue::Text("a\nb".to_string())));
    assert_eq!(
        JsonValue::parse("[1, [\"x\"], {}]"),
        Some(JsonValue::List(vec![
            JsonValue::Number(Some(1), "1".to_string()),
            JsonValue::List(vec![JsonValue::Text("x".to_string())]),
            JsonValue::Object(Vec::new()),
        ]))
    );
    assert_eq!(
        JsonValue::parse("{\"b\": 1, \"a\": null}"),
        Some(JsonValue::Object(vec![
            ("b".to_string(), JsonValue::Number(Some(1), "1".to_string())),
            ("a".to_string(), JsonValue::Null),
        ]))
    );
    assert_eq!(JsonValue::parse("{"), None);
    assert_eq!(JsonValue::parse("[1,]"), None);
    assert_eq!(JsonValue::parse(""), None);
}

#[test]
fn numbers_are_read_by_value_or_by_text() {
    assert_eq!(JsonValue::Integer(7).as_integer(), Some(7));
    assert_eq!(JsonValue::Integer(7).decimal_text(), None);
    assert_eq!(JsonValue::parse("7").unwrap().as_integer(), Some(7));
    assert_eq!(JsonValue::parse("7").unwrap().decimal_text(), None);
    assert_eq!(JsonValue::parse("-9223372036854775808").unwrap().as_integer(), Some(i64::MIN));
    assert_eq!(JsonValue::parse("7.0").unwrap().as_integer(), None);
    assert_eq!(JsonValue::parse("7.0").unwrap().decimal_text(), Some("7.0"));
    assert_eq!(JsonValue::parse("9223372036854775808").unwrap().as_integer(), None);
    assert_eq!(
        JsonValue::parse("9223372036854775808").unwrap().decimal_text(),
        Some("9223372036854775808")
    );
    assert_eq!(JsonValue::Text("7".to_string()).as_integer(), None);
    assert_eq!(JsonValue::Text("7.5".to_string()).decimal_text(), None);
    assert_eq!(JsonValue::Null.as_integer(), None);
}
