//! The client invoker's steps: the target URI of a call and the raw request
//! that goes to the transport.
use vstd::prelude::*;
use crate::envelope::{default_headers, ServiceRequest, POST};
use crate::server::has_protobuf_type;
use crate::error::ProstTwirpError;

verus! {

/// `s` without the slashes at its end.
pub open spec fn trim_end_slashes(s: Seq<char>) -> Seq<char>
    decreases s.len(),
{
    if s.len() > 0 && s.last() == '/' {
        trim_end_slashes(s.drop_last())
    } else {
        s
    }
}

/// `s` without the slashes at its start.
pub open spec fn trim_start_slashes(s: Seq<char>) -> Seq<char>
    decreases s.len(),
{
    if s.len() > 0 && s[0] == '/' {
        trim_start_slashes(s.drop_first())
    } else {
        s
    }
}

/// The URI that a call of `path` under `root` goes to: the root without its
/// trailing slashes, one slash, and the path without its leading slashes.
pub open spec fn call_uri(root: Seq<char>, path: Seq<char>) -> Seq<char> {
    trim_end_slashes(root) + seq!['/'] + trim_start_slashes(path)
}

/// Whether a text parses as a URI.
pub uninterp spec fn valid_uri(s: Seq<char>) -> bool;

/// Relies on `http::Uri`'s `FromStr`: whether the text parses as a URI, and
/// the parse failure where it does not.
#[verifier::external_body]
fn parse_uri(s: &str) -> (r: Result<(), http::uri::InvalidUri>)
    ensures
        r is Ok <==> valid_uri(s@),
{
    s.parse::<http::Uri>().map(|_| ())
}

/// Where the text from `i` on is all slashes, trimming the end of the whole
/// gives what trimming the end of its first `i` characters gives.
proof fn lemma_trim_end_prefix(s: Seq<char>, i: int)
    requires
        0 <= i <= s.len(),
        forall|j: int| i <= j < s.len() ==> s[j] == '/',
    ensures
        trim_end_slashes(s) == trim_end_slashes(s.subrange(0, i)),
    decreases s.len() - i,
{
    if i < s.len() {
        assert(s.drop_last() =~= s.subrange(0, s.len() - 1));
        lemma_trim_end_prefix(s.drop_last(), i);
        assert(s.drop_last().subrange(0, i) =~= s.subrange(0, i));
    } else {
        assert(s.subrange(0, i) =~= s);
    }
}

/// Where the first `i` characters are all slashes, trimming the start of the
/// whole gives what trimming the start of the rest gives.
proof fn lemma_trim_start_suffix(s: Seq<char>, i: int)
    requires
        0 <= i <= s.len(),
        forall|j: int| 0 <= j < i ==> s[j] == '/',
    ensures
        trim_start_slashes(s) == trim_start_slashes(s.subrange(i, s.len() as int)),
    decreases i,
{
    if i > 0 {
        assert(s.drop_first() =~= s.subrange(1, s.len() as int));
        lemma_trim_start_suffix(s.drop_first(), i - 1);
        assert(s.drop_first().subrange(i - 1, s.drop_first().len() as int) =~= s.subrange(
            i,
            s.len() as int,
        ));
    } else {
        assert(s.subrange(0, s.len() as int) =~= s);
    }
}

/// The root URL that a client keeps: the given one without its trailing slashes.
pub fn root_url(root: &str) -> (r: String)
    ensures
        r@ == trim_end_slashes(root@),
{
    let n = root.unicode_len();
    let mut end: usize = n;
    while end > 0 && root.get_char(end - 1) == '/'
        invariant
            n == root@.len(),
            end <= n,
            forall|j: int| end <= j < n ==> root@[j] == '/',
        decreases end,
    {
        end = end - 1;
    }
    proof {
        lemma_trim_end_prefix(root@, end as int);
        let p = root@.subrange(0, end as int);
        if end > 0 {
            assert(p.last() == root@[end - 1]);
        }
    }
    String::from_str(root.substring_char(0, end))
}

/// The URI that a call of `path` under `root` goes to.
pub fn target_uri(root: &str, path: &str) -> (r: String)
    ensures
        r@ == call_uri(root@, path@),
{
    let mut uri = root_url(root);
    let n = path.unicode_len();
    let mut start: usize = 0;
    while start < n && path.get_char(start) == '/'
        invariant
            n == path@.len(),
            start <= n,
            forall|j: int| 0 <= j < start ==> path@[j] == '/',
        decreases n - start,
    {
        start = start + 1;
    }
    proof {
        lemma_trim_start_suffix(path@, start as int);
        reveal_strlit("/");
    }
    uri.append("/");
    uri.append(path.substring_char(start, n));
    uri
}

/// `p` is the raw request of a call of `path` under `root` that carries the
/// encoded request `raw`: a POST to the call's URI with the version, headers
/// and payload of `raw`.
pub open spec fn is_prepared_call(
    root: Seq<char>,
    path: Seq<char>,
    raw: ServiceRequest<Vec<u8>>,
    p: ServiceRequest<Vec<u8>>,
) -> bool {
    &&& p.uri@ == call_uri(root, path)
    &&& p.method@ == POST@
    &&& p.version == raw.version
    &&& p.headers@ == raw.headers@
    &&& p.input@ == raw.input@
}

/// A call prepared from a request made by `ServiceRequest::new` passes the
/// dispatcher's checks: it is a POST with the protobuf content type.
pub proof fn lemma_prepared_call_accepted(
    root: Seq<char>,
    path: Seq<char>,
    raw: ServiceRequest<Vec<u8>>,
    p: ServiceRequest<Vec<u8>>,
)
    requires
        raw.headers@ == default_headers(),
        is_prepared_call(root, path, raw, p),
    ensures
        p.method@ == POST@,
        has_protobuf_type(p.headers@),
{
}

/// The raw request of a call of `path` under `root` that carries the encoded
/// request `raw`. A target that is not a URI fails.
pub fn prepare_raw_call(root: &str, path: &str, raw: ServiceRequest<Vec<u8>>) -> (r: Result<
    ServiceRequest<Vec<u8>>,
    ProstTwirpError,
>)
    ensures
        !valid_uri(call_uri(root@, path@)) ==> (r matches Err(e) && e is UriError),
        valid_uri(call_uri(root@, path@)) ==> (r matches Ok(p) && is_prepared_call(
            root@,
            path@,
            raw,
            p,
        )),
{
    let uri = target_uri(root, path);
    match parse_uri(uri.as_str()) {
        Err(err) => Err(ProstTwirpError::UriError(err)),
        Ok(()) => Ok(
            ServiceRequest {
                uri,
                method: POST.to_owned(),
                version: raw.version,
                headers: raw.headers,
                input: raw.input,
            },
        ),
    }
}

/// The raw request of a call of `path` under `root`: `req` with its message
/// encoded, as a POST to the call's URI. A target that is not a URI fails.
/// Encoding into a fresh buffer cannot fail, so which check comes first
/// makes no difference.
pub fn prepare_call<I: prost::Message>(root: &str, path: &str, req: &ServiceRequest<I>) -> (r: Result<
    ServiceRequest<Vec<u8>>,
    ProstTwirpError,
>)
    ensures
        !valid_uri(call_uri(root@, path@)) ==> (r matches Err(e) && e is UriError),
        valid_uri(call_uri(root@, path@)) ==> (r matches Ok(p) && p.uri@ == call_uri(root@, path@)
            && p.method@ == POST@ && p.version == req.version && p.headers@ == req.headers@),
{
    match req.to_proto_raw() {
        Err(err) => Err(err),
        Ok(raw) => prepare_raw_call(root, path, raw),
    }
}

} // verus!
