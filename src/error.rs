//! The Twirp error model: structured errors, their JSON form, and the error
//! type of every fallible step.
use vstd::prelude::*;
use crate::envelope::Version;
use crate::headers::Headers;
use crate::json::{lookup, member, str_member, JsonValue};

verus! {

/// A JSON decoding failure, as reported by serde_json.
#[verifier::external_type_specification]
#[verifier::external_body]
pub struct ExJsonError(serde_json::Error);

/// A failure of the HTTP transport, as reported by hyper.
#[verifier::external_type_specification]
#[verifier::external_body]
pub struct ExHyperError(hyper::Error);

/// A text that does not parse as a URI, as reported by http.
#[verifier::external_type_specification]
#[verifier::external_body]
pub struct ExInvalidUri(http::uri::InvalidUri);

/// A Twirp error: an HTTP status, a machine-readable kind, a message for
/// people, and optional free-form metadata.
#[derive(Debug, PartialEq)]
pub struct TwirpError {
    pub status: u16,
    pub error_type: String,
    pub msg: String,
    pub meta: Option<JsonValue>,
}

/// The kind given to an error body that names none.
pub const NO_CODE: &'static str = "<no code>";

/// The message given to an error body that holds none.
pub const NO_MESSAGE: &'static str = "<no message>";

/// `j` is the JSON form of `e`: an object with `error_type`, then `msg`, then
/// `meta` where `e` has metadata.
pub open spec fn is_error_json(j: JsonValue, e: TwirpError) -> bool {
    &&& j is Object
    &&& j->Object_0@.len() == if e.meta is Some { 3int } else { 2int }
    &&& j->Object_0@[0].0@ == "error_type"@
    &&& j->Object_0@[0].1 == JsonValue::Str(e.error_type)
    &&& j->Object_0@[1].0@ == "msg"@
    &&& j->Object_0@[1].1 == JsonValue::Str(e.msg)
    &&& e.meta matches Some(m) ==> j->Object_0@[2].0@ == "meta"@ && j->Object_0@[2].1 == m
}

/// `e` is what the JSON value `j`, received with `status`, decodes to. The
/// kind and the message come from string members, with a fixed text where
/// there is none. Where the value names no kind, the whole value becomes the
/// metadata, so that nothing of a body in another shape is lost.
pub open spec fn decodes_to(status: u16, j: JsonValue, e: TwirpError) -> bool {
    &&& e.status == status
    &&& e.error_type@ == match str_member(j, "error_type"@) {
        Some(s) => s,
        None => NO_CODE@,
    }
    &&& e.msg@ == match str_member(j, "msg"@) {
        Some(s) => s,
        None => NO_MESSAGE@,
    }
    &&& e.meta == if str_member(j, "error_type"@) is Some {
        member(j, "meta"@)
    } else {
        Some(j)
    }
}

/// An HTTP status code: three digits, 100 to 999.
pub open spec fn valid_status(status: u16) -> bool {
    100 <= status <= 999
}

impl TwirpError {
    /// A well-formed error has a valid status, a kind and a message.
    pub open spec fn wf(&self) -> bool {
        valid_status(self.status) && self.error_type@.len() > 0 && self.msg@.len() > 0
    }

    /// An error without metadata.
    pub fn new(status: u16, error_type: &str, msg: &str) -> (r: TwirpError)
        requires
            valid_status(status),
        ensures
            r.status == status,
            r.error_type@ == error_type@,
            r.msg@ == msg@,
            r.meta is None,
    {
        TwirpError::new_meta(status, error_type, msg, None)
    }

    /// An error with the given metadata.
    pub fn new_meta(status: u16, error_type: &str, msg: &str, meta: Option<JsonValue>) -> (r:
        TwirpError)
        requires
            valid_status(status),
        ensures
            r.status == status,
            r.error_type@ == error_type@,
            r.msg@ == msg@,
            r.meta == meta,
    {
        TwirpError { status, error_type: error_type.to_owned(), msg: msg.to_owned(), meta }
    }

    /// The JSON form of this error.
    pub fn to_json(self) -> (r: JsonValue)
        ensures
            is_error_json(r, self),
    {
        let mut props: Vec<(String, JsonValue)> = Vec::new();
        props.push(("error_type".to_owned(), JsonValue::Str(self.error_type)));
        props.push(("msg".to_owned(), JsonValue::Str(self.msg)));
        match self.meta {
            Some(m) => props.push(("meta".to_owned(), m)),
            None => {},
        }
        JsonValue::Object(props)
    }

    /// The error that a JSON value received with `status` stands for. This
    /// never fails: a value in another shape still gives an error.
    pub fn from_json(status: u16, json: JsonValue) -> (r: TwirpError)
        requires
            valid_status(status),
        ensures
            decodes_to(status, json, r),
    {
        let error_type = json.str_member("error_type");
        let msg = json.str_member("msg");
        let meta = if error_type.is_some() {
            json.take_member("meta")
        } else {
            Some(json)
        };
        TwirpError {
            status,
            error_type: match error_type {
                Some(s) => s,
                None => NO_CODE.to_owned(),
            },
            msg: match msg {
                Some(s) => s,
                None => NO_MESSAGE.to_owned(),
            },
            meta,
        }
    }
}

/// Decoding the JSON form of an error, with the error's own status, gives the
/// error back: its status, kind, message and metadata.
pub proof fn lemma_json_round_trip(e: TwirpError, j: JsonValue, d: TwirpError)
    requires
        is_error_json(j, e),
        decodes_to(e.status, j, d),
    ensures
        d.status == e.status,
        d.error_type@ == e.error_type@,
        d.msg@ == e.msg@,
        d.meta == e.meta,
{
    reveal_strlit("error_type");
    reveal_strlit("msg");
    reveal_strlit("meta");
    assert("error_type"@.len() == 10 && "msg"@.len() == 3 && "meta"@.len() == 4);
    let m = j->Object_0@;
    crate::json::lemma_lookup_at(m, "error_type"@, 0);
    crate::json::lemma_lookup_at(m, "msg"@, 1);
    if e.meta is Some {
        crate::json::lemma_lookup_at(m, "meta"@, 2);
    } else {
        crate::json::lemma_lookup_none(m, "meta"@);
    }
}

/// A JSON error body that names no kind decodes to the kind `<no code>`, the
/// message of its `msg` member or `<no message>`, and the whole body as
/// metadata.
pub proof fn lemma_json_without_kind(status: u16, j: JsonValue, d: TwirpError)
    requires
        str_member(j, "error_type"@) is None,
        decodes_to(status, j, d),
    ensures
        d.status == status,
        d.error_type@ == NO_CODE@,
        str_member(j, "msg"@) matches Some(s) ==> d.msg@ == s,
        str_member(j, "msg"@) is None ==> d.msg@ == NO_MESSAGE@,
        d.meta == Some(j),
{
}

/// An error of any step of a call, on either side.
#[derive(Debug)]
pub enum ProstTwirpError {
    /// A Twirp error with a kind, a message and perhaps metadata.
    TwirpError(TwirpError),
    /// A body that should have been JSON and is not.
    JsonDecodeError(serde_json::Error),
    /// A message that could not be encoded.
    ProstEncodeError(prost::EncodeError),
    /// Bytes that do not decode as the expected message.
    ProstDecodeError(prost::DecodeError),
    /// A failure of the transport.
    HyperError(hyper::Error),
    /// A target that is not a URI.
    UriError(http::uri::InvalidUri),
    /// Another error, with what was known of the request or response whose
    /// body had been read when it happened.
    AfterBodyError {
        /// The raw body.
        body: Vec<u8>,
        /// The request method; only on the server side.
        method: Option<String>,
        version: Version,
        headers: Headers,
        /// The response status; only on the client side.
        status: Option<u16>,
        /// The error itself.
        err: Box<ProstTwirpError>,
    },
}

impl From<TwirpError> for ProstTwirpError {
    fn from(v: TwirpError) -> (r: ProstTwirpError)
        ensures
            r == ProstTwirpError::TwirpError(v),
    {
        ProstTwirpError::TwirpError(v)
    }
}

impl vstd::std_specs::convert::FromSpecImpl<TwirpError> for ProstTwirpError {
    open spec fn obeys_from_spec() -> bool {
        true
    }

    open spec fn from_spec(v: TwirpError) -> ProstTwirpError {
        ProstTwirpError::TwirpError(v)
    }
}

/// The innermost error under any number of context layers.
pub open spec fn root_of(e: ProstTwirpError) -> ProstTwirpError
    decreases e,
{
    match e {
        ProstTwirpError::AfterBodyError { err, .. } => root_of(*err),
        _ => e,
    }
}

impl ProstTwirpError {
    /// This error, or the error under its context layers.
    pub fn root_err(self) -> (r: ProstTwirpError)
        ensures
            r == root_of(self),
            !(r is AfterBodyError),
        decreases self,
    {
        match self {
            ProstTwirpError::AfterBodyError { err, .. } => (*err).root_err(),
            _ => self,
        }
    }
}

} // verus!
