//! The server dispatcher's decisions: which requests reach the handler, and
//! which response answers each outcome of the handler.
use vstd::prelude::*;
use crate::client::is_prepared_call;
use crate::envelope::{default_headers, request_context, ServiceRequest, ServiceResponse, POST, PROTOBUF, STATUS_OK};
use crate::error::{root_of, ProstTwirpError, TwirpError};
use crate::headers::{Headers, CONTENT_TYPE};

verus! {

/// HTTP 400 Bad Request.
pub const STATUS_BAD_REQUEST: u16 = 400;

/// HTTP 405 Method Not Allowed.
pub const STATUS_METHOD_NOT_ALLOWED: u16 = 405;

/// HTTP 415 Unsupported Media Type.
pub const STATUS_UNSUPPORTED_MEDIA_TYPE: u16 = 415;

/// HTTP 500 Internal Server Error.
pub const STATUS_INTERNAL_SERVER_ERROR: u16 = 500;

pub const BAD_METHOD: &'static str = "bad_method";

pub const BAD_METHOD_MSG: &'static str = "Method must be POST";

pub const BAD_CONTENT_TYPE: &'static str = "bad_content_type";

pub const BAD_CONTENT_TYPE_MSG: &'static str = "Content type must be application/protobuf";

pub const PROTOBUF_DECODE_ERR: &'static str = "protobuf_decode_err";

pub const PROTOBUF_DECODE_ERR_MSG: &'static str = "Invalid protobuf body";

pub const INTERNAL_ERR: &'static str = "internal_err";

pub const INTERNAL_ERR_MSG: &'static str = "Internal Error";

/// `e` is the error with the given status, kind and message, and no metadata.
pub open spec fn is_fixed_error(e: TwirpError, status: u16, kind: Seq<char>, msg: Seq<char>) -> bool {
    &&& e.status == status
    &&& e.error_type@ == kind
    &&& e.msg@ == msg
    &&& e.meta is None
}

/// The headers name the protobuf content type.
pub open spec fn has_protobuf_type(headers: Map<Seq<char>, Seq<char>>) -> bool {
    headers.contains_key(CONTENT_TYPE@) && headers[CONTENT_TYPE@] == PROTOBUF@
}

/// What answers a request whose handler has run.
#[derive(Debug)]
pub enum Reply {
    /// The handler's own response.
    Response(ServiceResponse<Vec<u8>>),
    /// A Twirp error, to be sent as JSON with its status.
    Failure(TwirpError),
}

/// `r` is the dispatcher's answer to the handler's outcome `result`.
pub open spec fn answers(
    result: Result<ServiceResponse<Vec<u8>>, ProstTwirpError>,
    r: Result<Reply, hyper::Error>,
) -> bool {
    match result {
        Ok(resp) => r == Ok::<Reply, hyper::Error>(Reply::Response(resp)),
        Err(e) => match root_of(e) {
            ProstTwirpError::ProstDecodeError(_) => r matches Ok(Reply::Failure(t))
                && is_fixed_error(
                t,
                STATUS_BAD_REQUEST,
                PROTOBUF_DECODE_ERR@,
                PROTOBUF_DECODE_ERR_MSG@,
            ),
            ProstTwirpError::TwirpError(t) => r == Ok::<Reply, hyper::Error>(Reply::Failure(t)),
            ProstTwirpError::HyperError(h) => r == Err::<Reply, hyper::Error>(h),
            _ => r matches Ok(Reply::Failure(t)) && is_fixed_error(
                t,
                STATUS_INTERNAL_SERVER_ERROR,
                INTERNAL_ERR@,
                INTERNAL_ERR_MSG@,
            ),
        },
    }
}

/// The error that refuses a request before its body is read: one that is not
/// a POST, or that does not carry the protobuf content type. None for a
/// request that may go on to the handler.
pub fn check_request(method: &String, headers: &Headers) -> (r: Option<TwirpError>)
    ensures
        method@ != POST@ ==> (r matches Some(e) && is_fixed_error(
            e,
            STATUS_METHOD_NOT_ALLOWED,
            BAD_METHOD@,
            BAD_METHOD_MSG@,
        )),
        method@ == POST@ && !has_protobuf_type(headers@) ==> (r matches Some(e) && is_fixed_error(
            e,
            STATUS_UNSUPPORTED_MEDIA_TYPE,
            BAD_CONTENT_TYPE@,
            BAD_CONTENT_TYPE_MSG@,
        )),
        method@ == POST@ && has_protobuf_type(headers@) ==> r is None,
        r matches Some(e) ==> e.wf(),
{
    proof {
        reveal_strlit("bad_method");
        reveal_strlit("Method must be POST");
        reveal_strlit("bad_content_type");
        reveal_strlit("Content type must be application/protobuf");
        crate::headers::lemma_standard_names_lower();
    }
    if *method != POST.to_owned() {
        return Some(TwirpError::new(STATUS_METHOD_NOT_ALLOWED, BAD_METHOD, BAD_METHOD_MSG));
    }
    let protobuf = PROTOBUF.to_owned();
    match headers.get(CONTENT_TYPE) {
        Some(v) => if *v == protobuf {
            None
        } else {
            Some(TwirpError::new(STATUS_UNSUPPORTED_MEDIA_TYPE, BAD_CONTENT_TYPE, BAD_CONTENT_TYPE_MSG))
        },
        None => Some(
            TwirpError::new(STATUS_UNSUPPORTED_MEDIA_TYPE, BAD_CONTENT_TYPE, BAD_CONTENT_TYPE_MSG),
        ),
    }
}

/// The answer to the handler's outcome. A response goes out as it is. A
/// failure is classified by its root: a decoding failure is a bad request, a
/// Twirp error goes out unchanged, a transport failure is handed back to the
/// caller, and anything else is an internal error that discloses nothing.
pub fn handle_outcome(result: Result<ServiceResponse<Vec<u8>>, ProstTwirpError>) -> (r: Result<
    Reply,
    hyper::Error,
>)
    ensures
        answers(result, r),
        result matches Err(e) && !(root_of(e) is TwirpError) ==> (r matches Ok(Reply::Failure(t))
            ==> t.wf()),
{
    proof {
        reveal_strlit("protobuf_decode_err");
        reveal_strlit("Invalid protobuf body");
        reveal_strlit("internal_err");
        reveal_strlit("Internal Error");
    }
    match result {
        Ok(resp) => Ok(Reply::Response(resp)),
        Err(e) => match e.root_err() {
            ProstTwirpError::ProstDecodeError(_) => Ok(
                Reply::Failure(
                    TwirpError::new(STATUS_BAD_REQUEST, PROTOBUF_DECODE_ERR, PROTOBUF_DECODE_ERR_MSG),
                ),
            ),
            ProstTwirpError::TwirpError(t) => Ok(Reply::Failure(t)),
            ProstTwirpError::HyperError(h) => Err(h),
            _ => Ok(
                Reply::Failure(
                    TwirpError::new(STATUS_INTERNAL_SERVER_ERROR, INTERNAL_ERR, INTERNAL_ERR_MSG),
                ),
            ),
        },
    }
}

/// A payload that does not decode, wrapped with its request as
/// `ServiceRequest::to_proto` reports it, has a decoding failure at its root,
/// which `handle_outcome` answers with a bad request.
pub proof fn lemma_undecodable_body_is_bad_request(
    e: ProstTwirpError,
    req: ServiceRequest<Vec<u8>>,
    cause: ProstTwirpError,
)
    requires
        request_context(e, req, cause),
        cause is ProstDecodeError,
    ensures
        root_of(e) is ProstDecodeError,
{
    assert(root_of(cause) == cause);
}

/// A call prepared from a request made by `ServiceRequest::new`, served by a
/// handler that echoes the payload in a fresh 200 response, passes the
/// dispatcher's checks and is answered with that response: the very bytes
/// the client encoded, with status 200. The rest of the round trip is the
/// codec's own: decoding what encoding gave.
pub proof fn lemma_echo_round_trip(
    root: Seq<char>,
    path: Seq<char>,
    raw: ServiceRequest<Vec<u8>>,
    p: ServiceRequest<Vec<u8>>,
    resp: ServiceResponse<Vec<u8>>,
    r: Result<Reply, hyper::Error>,
)
    requires
        raw.headers@ == default_headers(),
        is_prepared_call(root, path, raw, p),
        resp.status == STATUS_OK,
        resp.output@ == p.input@,
        answers(Ok(resp), r),
    ensures
        p.method@ == POST@,
        has_protobuf_type(p.headers@),
        r matches Ok(Reply::Response(q)) && q.status == STATUS_OK && q.output@ == raw.input@,
{
}

} // verus!
