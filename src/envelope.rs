//! Request and response envelopes: HTTP metadata around a payload that is
//! either raw bytes or a decoded message.
use vstd::prelude::*;
use crate::codec::{decode_message, encode_message};
use crate::error::{valid_status, ProstTwirpError, TwirpError};
use crate::headers::{decimal, decimal_text, Headers, CONTENT_LENGTH, CONTENT_TYPE};
use crate::json::JsonValue;

verus! {

/// An HTTP protocol version.
#[derive(Clone, Copy, Debug, PartialEq, Eq, Structural)]
pub enum Version {
    Http09,
    Http10,
    Http11,
    Http2,
    Http3,
}

impl Default for Version {
    /// HTTP/1.1.
    fn default() -> (r: Version)
        ensures
            r == Version::Http11,
    {
        Version::Http11
    }
}

/// The media type of a protobuf payload.
pub const PROTOBUF: &'static str = "application/protobuf";

/// The media type of a JSON error body.
pub const JSON: &'static str = "application/json";

/// The only method that Twirp accepts.
pub const POST: &'static str = "POST";

/// HTTP 200 OK.
pub const STATUS_OK: u16 = 200;

/// A status in the success class, 200 to 299.
pub open spec fn is_success(status: u16) -> bool {
    200 <= status < 300
}

/// Whether `status` is in the success class.
pub fn status_is_success(status: u16) -> (r: bool)
    ensures
        r == is_success(status),
{
    200 <= status && status < 300
}

/// The headers of a fresh envelope: the content type alone.
pub open spec fn default_headers() -> Map<Seq<char>, Seq<char>> {
    Map::empty().insert(CONTENT_TYPE@, PROTOBUF@)
}

/// A copy of a byte buffer.
pub fn copy_bytes(b: &Vec<u8>) -> (r: Vec<u8>)
    ensures
        r@ == b@,
{
    let mut out: Vec<u8> = Vec::new();
    let mut i: usize = 0;
    while i < b.len()
        invariant
            i <= b@.len(),
            out@ == b@.subrange(0, i as int),
        decreases b@.len() - i,
    {
        out.push(b[i]);
        i = i + 1;
        assert(out@ =~= b@.subrange(0, i as int));
    }
    assert(b@.subrange(0, b@.len() as int) =~= b@);
    out
}

/// A request: the HTTP metadata and the payload.
#[derive(Debug)]
pub struct ServiceRequest<T> {
    /// The target; a client replaces it with the URI that it calls.
    pub uri: String,
    /// The method; POST on the wire.
    pub method: String,
    pub version: Version,
    /// The headers; a content type at least. The content length is set anew
    /// when the request goes on the wire.
    pub headers: Headers,
    /// The payload.
    pub input: T,
}

/// `a` and `b` carry the same HTTP metadata.
pub open spec fn same_request_head<A, B>(a: ServiceRequest<A>, b: ServiceRequest<B>) -> bool {
    &&& a.uri@ == b.uri@
    &&& a.method@ == b.method@
    &&& a.version == b.version
    &&& a.headers@ == b.headers@
}

impl<T> ServiceRequest<T> {
    /// A POST request to `/` with the protobuf content type and the given payload.
    pub fn new(input: T) -> (r: ServiceRequest<T>)
        ensures
            r.uri@ == "/"@,
            r.method@ == POST@,
            r.version == Version::Http11,
            r.headers@ == default_headers(),
            r.input == input,
    {
        proof {
            crate::headers::lemma_standard_names_lower();
        }
        let mut headers = Headers::new();
        headers.insert(CONTENT_TYPE.to_owned(), PROTOBUF.to_owned());
        ServiceRequest {
            uri: "/".to_owned(),
            method: POST.to_owned(),
            version: Version::default(),
            headers,
            input,
        }
    }

    /// This request's metadata around another payload.
    pub fn clone_with_input<U>(&self, input: U) -> (r: ServiceRequest<U>)
        ensures
            same_request_head(r, *self),
            r.input == input,
    {
        ServiceRequest {
            uri: self.uri.clone(),
            method: self.method.clone(),
            version: self.version,
            headers: self.headers.copy(),
            input,
        }
    }
}

/// `e` wraps `cause` with what the raw request `req` held.
pub open spec fn request_context(e: ProstTwirpError, req: ServiceRequest<Vec<u8>>, cause: ProstTwirpError) -> bool {
    &&& e is AfterBodyError
    &&& e->AfterBodyError_body@ == req.input@
    &&& e->AfterBodyError_method matches Some(m) && m@ == req.method@
    &&& e->AfterBodyError_version == req.version
    &&& e->AfterBodyError_headers@ == req.headers@
    &&& e->AfterBodyError_status is None
    &&& *e->AfterBodyError_err == cause
}

impl ServiceRequest<Vec<u8>> {
    /// `err`, wrapped with this request's body, method, version and headers.
    pub fn body_err(&self, err: ProstTwirpError) -> (r: ProstTwirpError)
        ensures
            request_context(r, *self, err),
    {
        ProstTwirpError::AfterBodyError {
            body: copy_bytes(&self.input),
            method: Some(self.method.clone()),
            version: self.version,
            headers: self.headers.copy(),
            status: None,
            err: Box::new(err),
        }
    }

    /// This request with its payload decoded as a message. Bytes that do not
    /// decode give a decoding error, wrapped with this request.
    pub fn to_proto<M: prost::Message + Default>(&self) -> (r: Result<ServiceRequest<M>, ProstTwirpError>)
        ensures
            r matches Ok(p) ==> same_request_head(p, *self),
            r matches Err(e) ==> request_context(e, *self, *e->AfterBodyError_err)
                && *e->AfterBodyError_err is ProstDecodeError,
    {
        self.from_decoded(decode_message::<M>(&self.input))
    }

    /// This request around `decoded`, the outcome of decoding its payload: the
    /// message, or the failure wrapped with this request.
    pub fn from_decoded<M>(&self, decoded: Result<M, prost::DecodeError>) -> (r: Result<
        ServiceRequest<M>,
        ProstTwirpError,
    >)
        ensures
            match decoded {
                Ok(v) => r matches Ok(p) && same_request_head(p, *self) && p.input == v,
                Err(d) => r matches Err(e) && request_context(
                    e,
                    *self,
                    ProstTwirpError::ProstDecodeError(d),
                ),
            },
    {
        match decoded {
            Ok(v) => Ok(self.clone_with_input(v)),
            Err(err) => Err(self.body_err(ProstTwirpError::ProstDecodeError(err))),
        }
    }

    /// The headers that go on the wire: this request's headers with the
    /// content length of its payload.
    pub fn wire_headers(&self) -> (r: Headers)
        ensures
            r@ == self.headers@.insert(CONTENT_LENGTH@, decimal(self.input@.len())),
    {
        proof {
            crate::headers::lemma_standard_names_lower();
        }
        let mut h = self.headers.copy();
        h.insert(CONTENT_LENGTH.to_owned(), decimal_text(self.input.len()));
        h
    }
}

impl<T: prost::Message> ServiceRequest<T> {
    /// This request with its message encoded as bytes.
    pub fn to_proto_raw(&self) -> (r: Result<ServiceRequest<Vec<u8>>, ProstTwirpError>)
        ensures
            r matches Ok(p) && same_request_head(p, *self),
    {
        match encode_message(&self.input) {
            Ok(body) => Ok(self.clone_with_input(body)),
            Err(err) => Err(ProstTwirpError::ProstEncodeError(err)),
        }
    }
}

/// A response: the HTTP metadata and the payload.
#[derive(Debug)]
pub struct ServiceResponse<T> {
    pub version: Version,
    /// The headers; a content type at least. The content length is set anew
    /// when the response goes on the wire.
    pub headers: Headers,
    pub status: u16,
    /// The payload.
    pub output: T,
}

/// `a` and `b` carry the same HTTP metadata.
pub open spec fn same_response_head<A, B>(a: ServiceResponse<A>, b: ServiceResponse<B>) -> bool {
    &&& a.version == b.version
    &&& a.headers@ == b.headers@
    &&& a.status == b.status
}

/// `e` wraps `cause` with what the raw response `resp` held.
pub open spec fn response_context(e: ProstTwirpError, resp: ServiceResponse<Vec<u8>>, cause: ProstTwirpError) -> bool {
    &&& e is AfterBodyError
    &&& e->AfterBodyError_body@ == resp.output@
    &&& e->AfterBodyError_method is None
    &&& e->AfterBodyError_version == resp.version
    &&& e->AfterBodyError_headers@ == resp.headers@
    &&& e->AfterBodyError_status == Some(resp.status)
    &&& *e->AfterBodyError_err == cause
}

/// `e` is the failure that the response `resp` stands for, given its payload
/// read as JSON: the Twirp error that the JSON decodes to, or the JSON
/// failure, wrapped with the response.
pub open spec fn is_error_from_body(
    e: ProstTwirpError,
    resp: ServiceResponse<Vec<u8>>,
    error_body: Result<JsonValue, serde_json::Error>,
) -> bool {
    match error_body {
        Ok(j) => response_context(e, resp, *e->AfterBodyError_err) && *e->AfterBodyError_err is TwirpError
            && crate::error::decodes_to(resp.status, j, e->AfterBodyError_err->TwirpError_0),
        Err(d) => response_context(e, resp, ProstTwirpError::JsonDecodeError(d)),
    }
}

impl<T> ServiceResponse<T> {
    /// A well-formed response has a valid status.
    pub open spec fn wf(&self) -> bool {
        valid_status(self.status)
    }

    /// A 200 response with the protobuf content type and the given payload.
    pub fn new(output: T) -> (r: ServiceResponse<T>)
        ensures
            r.wf(),
            r.version == Version::Http11,
            r.headers@ == default_headers(),
            r.status == STATUS_OK,
            r.output == output,
    {
        proof {
            crate::headers::lemma_standard_names_lower();
        }
        let mut headers = Headers::new();
        headers.insert(CONTENT_TYPE.to_owned(), PROTOBUF.to_owned());
        ServiceResponse { version: Version::default(), headers, status: STATUS_OK, output }
    }

    /// This response's metadata around another payload.
    pub fn clone_with_output<U>(&self, output: U) -> (r: ServiceResponse<U>)
        ensures
            same_response_head(r, *self),
            r.output == output,
    {
        ServiceResponse {
            version: self.version,
            headers: self.headers.copy(),
            status: self.status,
            output,
        }
    }
}

impl ServiceResponse<Vec<u8>> {
    /// `err`, wrapped with this response's body, version, headers and status.
    pub fn body_err(&self, err: ProstTwirpError) -> (r: ProstTwirpError)
        ensures
            response_context(r, *self, err),
    {
        ProstTwirpError::AfterBodyError {
            body: copy_bytes(&self.output),
            method: None,
            version: self.version,
            headers: self.headers.copy(),
            status: Some(self.status),
            err: Box::new(err),
        }
    }

    /// This response with its payload decoded. A success status has the
    /// payload decoded as a message; any other status has it read as a Twirp
    /// error, from `error_body`, the payload read as JSON. Every failure is
    /// wrapped with this response.
    pub fn to_proto<M: prost::Message + Default>(
        &self,
        error_body: Result<JsonValue, serde_json::Error>,
    ) -> (r: Result<ServiceResponse<M>, ProstTwirpError>)
        requires
            self.wf(),
        ensures
            r matches Ok(p) ==> is_success(self.status) && same_response_head(p, *self),
            r matches Err(e) ==> response_context(e, *self, *e->AfterBodyError_err),
            r is Err && is_success(self.status) ==> *r->Err_0->AfterBodyError_err is ProstDecodeError,
            !is_success(self.status) ==> (r matches Err(e) && is_error_from_body(e, *self, error_body)),
    {
        if status_is_success(self.status) {
            self.from_decoded(decode_message::<M>(&self.output))
        } else {
            Err(self.error_from_body(error_body))
        }
    }

    /// This response around `decoded`, the outcome of decoding its payload:
    /// the message, or the failure wrapped with this response.
    pub fn from_decoded<M>(&self, decoded: Result<M, prost::DecodeError>) -> (r: Result<
        ServiceResponse<M>,
        ProstTwirpError,
    >)
        ensures
            match decoded {
                Ok(v) => r matches Ok(p) && same_response_head(p, *self) && p.output == v,
                Err(d) => r matches Err(e) && response_context(
                    e,
                    *self,
                    ProstTwirpError::ProstDecodeError(d),
                ),
            },
    {
        match decoded {
            Ok(v) => Ok(self.clone_with_output(v)),
            Err(err) => Err(self.body_err(ProstTwirpError::ProstDecodeError(err))),
        }
    }

    /// The failure that this response, whose status is not a success, stands
    /// for, given `error_body`, its payload read as JSON: the Twirp error that
    /// the JSON stands for, or the JSON failure, wrapped with this response.
    pub fn error_from_body(&self, error_body: Result<JsonValue, serde_json::Error>) -> (r:
        ProstTwirpError)
        requires
            self.wf(),
        ensures
            is_error_from_body(r, *self, error_body),
    {
        match error_body {
            Ok(json) => self.body_err(ProstTwirpError::TwirpError(TwirpError::from_json(self.status, json))),
            Err(err) => self.body_err(ProstTwirpError::JsonDecodeError(err)),
        }
    }

    /// The headers that go on the wire: this response's headers with the
    /// content length of its payload.
    pub fn wire_headers(&self) -> (r: Headers)
        ensures
            r@ == self.headers@.insert(CONTENT_LENGTH@, decimal(self.output@.len())),
    {
        proof {
            crate::headers::lemma_standard_names_lower();
        }
        let mut h = self.headers.copy();
        h.insert(CONTENT_LENGTH.to_owned(), decimal_text(self.output.len()));
        h
    }
}

impl<T: prost::Message> ServiceResponse<T> {
    /// This response with its message encoded as bytes.
    pub fn to_proto_raw(&self) -> (r: Result<ServiceResponse<Vec<u8>>, ProstTwirpError>)
        ensures
            r matches Ok(p) && same_response_head(p, *self),
    {
        match encode_message(&self.output) {
            Ok(body) => Ok(self.clone_with_output(body)),
            Err(err) => Err(ProstTwirpError::ProstEncodeError(err)),
        }
    }
}

/// A response that carries a JSON error body: the given status, the JSON
/// content type and the body's length.
pub fn json_response(status: u16, body: Vec<u8>) -> (r: ServiceResponse<Vec<u8>>)
    requires
        valid_status(status),
    ensures
        r.wf(),
        r.version == Version::Http11,
        r.status == status,
        r.headers@ == Map::<Seq<char>, Seq<char>>::empty().insert(CONTENT_TYPE@, JSON@).insert(
            CONTENT_LENGTH@,
            decimal(body@.len()),
        ),
        r.output == body,
{
    proof {
        crate::headers::lemma_standard_names_lower();
    }
    let mut headers = Headers::new();
    headers.insert(CONTENT_TYPE.to_owned(), JSON.to_owned());
    headers.insert(CONTENT_LENGTH.to_owned(), decimal_text(body.len()));
    ServiceResponse { version: Version::default(), headers, status, output: body }
}

impl TwirpError {
    /// The response that carries this error, given its JSON text `body`: the
    /// error's status, the JSON content type and the body's length.
    pub fn to_resp_raw(&self, body: Vec<u8>) -> (r: ServiceResponse<Vec<u8>>)
        requires
            valid_status(self.status),
        ensures
            r.wf(),
            r.version == Version::Http11,
            r.status == self.status,
            r.headers@ == Map::<Seq<char>, Seq<char>>::empty().insert(CONTENT_TYPE@, JSON@).insert(
                CONTENT_LENGTH@,
                decimal(body@.len()),
            ),
            r.output == body,
    {
        json_response(self.status, body)
    }
}

} // verus!
