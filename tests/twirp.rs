use prost::bytes::{Buf, BufMut};
use prost::encoding::{int32, skip_field, string, DecodeContext, WireType};
use prost::{DecodeError, Message};
use prost_twirp::error::{NO_CODE, NO_MESSAGE};
use prost_twirp::headers::{CONTENT_LENGTH, CONTENT_TYPE};
use prost_twirp::{
    check_request, handle_outcome, prepare_call, prepare_raw_call, root_url, target_uri, Headers, JsonValue,
    ProstTwirpError, Reply, ServiceRequest, ServiceResponse, TwirpError, Version,
};

#[derive(Debug, Clone, PartialEq, Default)]
struct Hat {
    size: i32,
    color: String,
}

impl Message for Hat {
    fn encode_raw<B>(&self, buf: &mut B)
    where
        B: BufMut,
    {
        if self.size != 0 {
            int32::encode(1, &self.size, buf);
        }
        if !self.color.is_empty() {
            string::encode(2, &self.color, buf);
        }
    }

    fn merge_field<B>(
        &mut self,
        tag: u32,
        wire_type: WireType,
        buf: &mut B,
        ctx: DecodeContext,
    ) -> Result<(), DecodeError>
    where
        B: Buf,
    {
        match tag {
            1 => int32::merge(wire_type, &mut self.size, buf, ctx),
            2 => string::merge(wire_type, &mut self.color, buf, ctx),
            _ => skip_field(wire_type, tag, buf, ctx),
        }
    }

    fn encoded_len(&self) -> usize {
        let mut n = 0;
        if self.size != 0 {
            n += int32::encoded_len(1, &self.size);
        }
        if !self.color.is_empty() {
            n += string::encoded_len(2, &self.color);
        }
        n
    }

    fn clear(&mut self) {
        self.size = 0;
        self.color.clear();
    }
}

fn hat() -> Hat {
    Hat { size: 12, color: "red".to_string() }
}

fn obj(members: Vec<(&str, JsonValue)>) -> JsonValue {
    JsonValue::Object(members.into_iter().map(|(k, v)| (k.to_string(), v)).collect())
}

fn text(s: &str) -> JsonValue {
    JsonValue::Str(s.to_string())
}

fn raw_request(method: &str, content_type: &str, body: Vec<u8>) -> ServiceRequest<Vec<u8>> {
    let mut headers = Headers::new();
    headers.insert(CONTENT_TYPE.to_string(), content_type.to_string());
    ServiceRequest {
        uri: "/svc/Method".to_string(),
        method: method.to_string(),
        version: Version::Http11,
        headers,
        input: body,
    }
}

/// The handler of the dispatcher tests: decodes the hat and sends it back.
fn echo(req: ServiceRequest<Vec<u8>>) -> Result<ServiceResponse<Vec<u8>>, ProstTwirpError> {
    let typed = req.to_proto::<Hat>()?;
    ServiceResponse::new(typed.input).to_proto_raw()
}

fn failure(r: Result<Reply, hyper::Error>) -> TwirpError {
    match r {
        Ok(Reply::Failure(e)) => e,
        other => panic!("expected a failure reply, got {:?}", other),
    }
}

#[test]
fn message_round_trip() {
    let raw = ServiceRequest::new(hat()).to_proto_raw().unwrap();
    let typed = raw.to_proto::<Hat>().unwrap();
    assert_eq!(typed.input, hat());
    let raw = ServiceResponse::new(Hat::default()).to_proto_raw().unwrap();
    assert!(raw.output.is_empty());
    let typed = raw.to_proto::<Hat>(Ok(JsonValue::Null)).unwrap();
    assert_eq!(typed.output, Hat::default());
}

#[test]
fn undecodable_request_is_wrapped_with_its_bytes() {
    let req = raw_request("POST", "application/protobuf", vec![0xff, 0xff]);
    match req.to_proto::<Hat>() {
        Err(ProstTwirpError::AfterBodyError { body, method, status, err, .. }) => {
            assert_eq!(body, vec![0xff, 0xff]);
            assert_eq!(method, Some("POST".to_string()));
            assert_eq!(status, None);
            assert!(matches!(*err, ProstTwirpError::ProstDecodeError(_)));
        }
        other => panic!("unexpected {:?}", other),
    }
}

#[test]
fn undecodable_response_is_wrapped_with_its_bytes() {
    let resp = ServiceResponse::new(vec![0x0a, 0x05, 0x61]);
    match resp.to_proto::<Hat>(Ok(JsonValue::Null)) {
        Err(ProstTwirpError::AfterBodyError { body, method, status, err, .. }) => {
            assert_eq!(body, vec![0x0a, 0x05, 0x61]);
            assert_eq!(method, None);
            assert_eq!(status, Some(200));
            assert!(matches!(*err, ProstTwirpError::ProstDecodeError(_)));
        }
        other => panic!("unexpected {:?}", other),
    }
}

#[test]
fn error_response_decodes_to_twirp_error() {
    let mut resp = ServiceResponse::new(b"{}".to_vec());
    resp.status = 404;
    let body = obj(vec![("error_type", text("not_found")), ("msg", text("no hat"))]);
    match resp.to_proto::<Hat>(Ok(body)) {
        Err(e) => match e.root_err() {
            ProstTwirpError::TwirpError(t) => {
                assert_eq!(t.status, 404);
                assert_eq!(t.error_type, "not_found");
                assert_eq!(t.msg, "no hat");
                assert_eq!(t.meta, None);
            }
            other => panic!("unexpected {:?}", other),
        },
        Ok(_) => panic!("a 404 is no success"),
    }
}

#[test]
fn error_response_that_is_not_json() {
    let mut resp = ServiceResponse::new(b"oops".to_vec());
    resp.status = 500;
    let parsed = serde_json::from_slice::<serde_json::Value>(b"oops").map(|_| JsonValue::Null);
    match resp.to_proto::<Hat>(parsed) {
        Err(e) => assert!(matches!(e.root_err(), ProstTwirpError::JsonDecodeError(_))),
        Ok(_) => panic!("a 500 is no success"),
    }
}

#[test]
fn json_error_round_trip() {
    let meta = obj(vec![("retry", JsonValue::Bool(true))]);
    let e = TwirpError::new_meta(400, "too_small", "size too small", Some(meta));
    let json = e.to_json();
    let back = TwirpError::from_json(400, json);
    assert_eq!(back, TwirpError::new_meta(400, "too_small", "size too small",
        Some(obj(vec![("retry", JsonValue::Bool(true))]))));

    let e = TwirpError::new(503, "unavailable", "later");
    let back = TwirpError::from_json(503, e.to_json());
    assert_eq!(back, TwirpError::new(503, "unavailable", "later"));
}

#[test]
fn json_error_shape() {
    let e = TwirpError::new(400, "too_small", "small");
    assert_eq!(e.to_json(), obj(vec![("error_type", text("too_small")), ("msg", text("small"))]));
}

#[test]
fn legacy_json_without_error_type() {
    let body = obj(vec![("msg", text("went wrong")), ("code", JsonValue::Number("7".to_string()))]);
    let e = TwirpError::from_json(502, body);
    assert_eq!(e.status, 502);
    assert_eq!(e.error_type, NO_CODE);
    assert_eq!(e.error_type, "<no code>");
    assert_eq!(e.msg, "went wrong");
    assert_eq!(e.meta, Some(obj(vec![("msg", text("went wrong")),
        ("code", JsonValue::Number("7".to_string()))])));

    let e = TwirpError::from_json(500, JsonValue::Array(vec![JsonValue::Null]));
    assert_eq!(e.error_type, "<no code>");
    assert_eq!(e.msg, NO_MESSAGE);
    assert_eq!(e.msg, "<no message>");
    assert_eq!(e.meta, Some(JsonValue::Array(vec![JsonValue::Null])));
}

#[test]
fn json_with_kind_keeps_meta_member_only() {
    let body = obj(vec![("error_type", text("x")), ("meta", text("m")), ("other", JsonValue::Null)]);
    let e = TwirpError::from_json(400, body);
    assert_eq!(e.error_type, "x");
    assert_eq!(e.msg, "<no message>");
    assert_eq!(e.meta, Some(text("m")));
}

#[test]
fn dispatcher_refuses_get() {
    let req = raw_request("GET", "application/protobuf", vec![]);
    let e = check_request(&req.method, &req.headers).unwrap();
    assert_eq!(e.status, 405);
    assert_eq!(e.error_type, "bad_method");
    assert_eq!(e.msg, "Method must be POST");
    let resp = e.to_resp_raw(b"{}".to_vec());
    assert_eq!(resp.status, 405);
}

#[test]
fn dispatcher_refuses_text_plain() {
    let req = raw_request("POST", "text/plain", vec![]);
    let e = check_request(&req.method, &req.headers).unwrap();
    assert_eq!(e.status, 415);
    assert_eq!(e.error_type, "bad_content_type");
    assert_eq!(e.msg, "Content type must be application/protobuf");
}

#[test]
fn dispatcher_refuses_missing_content_type() {
    let e = check_request(&"POST".to_string(), &Headers::new()).unwrap();
    assert_eq!(e.status, 415);
}

#[test]
fn dispatcher_accepts_protobuf_post() {
    let req = raw_request("POST", "application/protobuf", vec![]);
    assert!(check_request(&req.method, &req.headers).is_none());
}

#[test]
fn dispatcher_undecodable_body_is_bad_request() {
    let req = raw_request("POST", "application/protobuf", vec![0xff, 0xff]);
    assert!(check_request(&req.method, &req.headers).is_none());
    let e = failure(handle_outcome(echo(req)));
    assert_eq!(e.status, 400);
    assert_eq!(e.error_type, "protobuf_decode_err");
    assert_eq!(e.msg, "Invalid protobuf body");
}

#[test]
fn dispatcher_passes_handler_error_through() {
    let meta = obj(vec![("min", JsonValue::Number("1".to_string()))]);
    let err = TwirpError::new_meta(400, "too_small", "hat too small", Some(meta));
    let e = failure(handle_outcome(Err(ProstTwirpError::from(err))));
    assert_eq!(e, TwirpError::new_meta(400, "too_small", "hat too small",
        Some(obj(vec![("min", JsonValue::Number("1".to_string()))]))));
    let resp = e.to_resp_raw(b"{\"error_type\":\"too_small\"}".to_vec());
    assert_eq!(resp.status, 400);
    assert_eq!(resp.headers.get(CONTENT_TYPE).map(|s| s.as_str()), Some("application/json"));
    assert_eq!(resp.headers.get(CONTENT_LENGTH).map(|s| s.as_str()), Some("26"));
}

#[test]
fn dispatcher_hides_other_failures() {
    let bad = "http://a b".parse::<http::Uri>().unwrap_err();
    let e = failure(handle_outcome(Err(ProstTwirpError::UriError(bad))));
    assert_eq!(e.status, 500);
    assert_eq!(e.error_type, "internal_err");
    assert_eq!(e.msg, "Internal Error");
    assert_eq!(e.meta, None);
}

#[test]
fn root_err_unwraps_every_layer() {
    let req = raw_request("POST", "application/protobuf", vec![1]);
    let inner = req.body_err(ProstTwirpError::TwirpError(TwirpError::new(418, "teapot", "short")));
    let outer = req.body_err(inner);
    match outer.root_err() {
        ProstTwirpError::TwirpError(t) => assert_eq!(t.error_type, "teapot"),
        other => panic!("unexpected {:?}", other),
    }
}

#[test]
fn client_builds_target_uri() {
    assert_eq!(target_uri("http://host/", "/svc/Method"), "http://host/svc/Method");
    assert_eq!(target_uri("http://host", "svc/Method"), "http://host/svc/Method");
    assert_eq!(target_uri("http://host///", "//svc/Method"), "http://host/svc/Method");
    assert_eq!(root_url("http://localhost:8080/"), "http://localhost:8080");
    let raw = prepare_call("http://host/", "/svc/Method", &ServiceRequest::new(hat())).unwrap();
    assert_eq!(raw.uri, "http://host/svc/Method");
    assert_eq!(raw.method, "POST");
}

#[test]
fn client_refuses_bad_uri() {
    let r = prepare_call("http://a b", "/svc/Method", &ServiceRequest::new(hat()));
    assert!(matches!(r, Err(ProstTwirpError::UriError(_))));
}

#[test]
fn wire_headers_recompute_length() {
    let mut req = raw_request("POST", "application/protobuf", vec![1, 2, 3]);
    req.headers.insert(CONTENT_LENGTH.to_string(), "999".to_string());
    let h = req.wire_headers();
    assert_eq!(h.get(CONTENT_LENGTH).map(|s| s.as_str()), Some("3"));
    assert_eq!(h.get(CONTENT_TYPE).map(|s| s.as_str()), Some("application/protobuf"));
    let resp = ServiceResponse::new(vec![0u8; 1234]);
    assert_eq!(resp.wire_headers().get(CONTENT_LENGTH).map(|s| s.as_str()), Some("1234"));
}

#[test]
fn headers_later_value_wins() {
    let mut h = Headers::new();
    h.insert("a".to_string(), "1".to_string());
    h.insert("b".to_string(), "2".to_string());
    h.insert("a".to_string(), "3".to_string());
    assert_eq!(h.get("a").map(|s| s.as_str()), Some("3"));
    assert_eq!(h.get("b").map(|s| s.as_str()), Some("2"));
    assert!(h.get("c").is_none());
    assert_eq!(h.copy().get("a").map(|s| s.as_str()), Some("3"));
}

#[test]
fn new_envelopes_carry_defaults() {
    let req = ServiceRequest::new(5u8);
    assert_eq!(req.uri, "/");
    assert_eq!(req.method, "POST");
    assert_eq!(req.version, Version::Http11);
    assert_eq!(req.headers.get(CONTENT_TYPE).map(|s| s.as_str()), Some("application/protobuf"));
    let other = req.clone_with_input("x");
    assert_eq!(other.input, "x");
    assert_eq!(other.uri, "/");
    let resp = ServiceResponse::new(1u8);
    assert_eq!(resp.status, 200);
    let copy = resp.clone_with_output(2u8);
    assert_eq!(copy.status, 200);
    assert_eq!(copy.output, 2);
}

#[test]
fn end_to_end_echo() {
    let raw = prepare_call("http://host/", "/svc/Method", &ServiceRequest::new(hat())).unwrap();
    assert!(check_request(&raw.method, &raw.headers).is_none());
    let resp = match handle_outcome(echo(raw)) {
        Ok(Reply::Response(r)) => r,
        other => panic!("unexpected {:?}", other),
    };
    let typed = resp.to_proto::<Hat>(Ok(JsonValue::Null)).unwrap();
    assert_eq!(typed.status, 200);
    assert_eq!(typed.output, hat());
}

#[test]
fn from_decoded_keeps_message_and_head() {
    let req = raw_request("POST", "application/protobuf", vec![9]);
    let typed = req.from_decoded::<Hat>(Ok(hat())).unwrap();
    assert_eq!(typed.input, hat());
    assert_eq!(typed.uri, "/svc/Method");
    assert_eq!(typed.headers.get(CONTENT_TYPE).map(|s| s.as_str()), Some("application/protobuf"));
    let resp = ServiceResponse::new(vec![7u8]);
    let typed = resp.from_decoded::<Hat>(Ok(hat())).unwrap();
    assert_eq!(typed.output, hat());
    assert_eq!(typed.status, 200);
}

#[test]
fn error_from_body_wraps_decoded_error() {
    let mut resp = ServiceResponse::new(b"{}".to_vec());
    resp.status = 429;
    match resp.error_from_body(Ok(obj(vec![("msg", text("slow down"))]))) {
        ProstTwirpError::AfterBodyError { body, status, err, .. } => {
            assert_eq!(body, b"{}".to_vec());
            assert_eq!(status, Some(429));
            match *err {
                ProstTwirpError::TwirpError(t) => {
                    assert_eq!(t.status, 429);
                    assert_eq!(t.error_type, "<no code>");
                    assert_eq!(t.msg, "slow down");
                    assert_eq!(t.meta, Some(obj(vec![("msg", text("slow down"))])));
                }
                other => panic!("unexpected {:?}", other),
            }
        }
        other => panic!("unexpected {:?}", other),
    }
}

#[test]
fn header_names_ignore_case() {
    let mut h = Headers::new();
    h.insert("Content-Type".to_string(), "text/plain".to_string());
    assert_eq!(h.get("content-type").map(|s| s.as_str()), Some("text/plain"));
    assert_eq!(h.get("CONTENT-TYPE").map(|s| s.as_str()), Some("text/plain"));
    h.insert("content-TYPE".to_string(), "application/protobuf".to_string());
    assert_eq!(h.get(CONTENT_TYPE).map(|s| s.as_str()), Some("application/protobuf"));
    assert!(check_request(&"POST".to_string(), &h).is_none());
}

#[test]
fn prepared_call_carries_encoded_request() {
    let raw = ServiceRequest::new(hat()).to_proto_raw().unwrap();
    assert_eq!(raw.input, hat().encode_to_vec());
    let bytes = raw.input.clone();
    let call = prepare_raw_call("http://host", "svc/Method", raw).unwrap();
    assert_eq!(call.input, bytes);
    assert_eq!(call.uri, "http://host/svc/Method");
    assert_eq!(call.method, "POST");
    let call = prepare_call("http://host/", "/svc/Method", &ServiceRequest::new(hat())).unwrap();
    assert_eq!(call.input, hat().encode_to_vec());
    assert!(matches!(
        prepare_raw_call("http://a b", "x", ServiceRequest::new(vec![1u8])),
        Err(ProstTwirpError::UriError(_))
    ));
}

#[test]
fn response_encoding_succeeds() {
    let raw = ServiceResponse::new(hat()).to_proto_raw().unwrap();
    assert_eq!(raw.output, hat().encode_to_vec());
    assert_eq!(raw.status, 200);
}
