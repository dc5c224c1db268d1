use crate::error::Error;
use vstd::prelude::*;
use vstd::string::*;

verus! {

/// Media type that every request asks for.
pub const ACCEPT: &'static str = "application/vnd.github+json";

/// How the library identifies itself to the service.
pub const USER_AGENT: &'static str = "Github-Release-rs";

/// The HTTP method of a request.
#[derive(Debug, Clone, Copy, PartialEq, Eq, Structural)]
pub enum Method {
    Get,
    Post,
    Patch,
    Delete,
}

/// What a request carries as its body.
#[derive(Debug, Clone, PartialEq, Eq)]
pub enum Body {
    /// No body.
    Empty,
    /// A JSON text.
    Json(String),
    /// The raw byte stream that the caller hands to the transport.
    Content,
}

/// A request ready to be handed to a transport.
#[derive(Debug, Clone, PartialEq, Eq)]
pub struct OutboundRequest {
    pub method: Method,
    pub url: String,
    /// Query parameters, in order.
    pub query: Vec<(String, String)>,
    /// Headers, in order.
    pub headers: Vec<(String, String)>,
    /// An explicit content type, where the operation needs one.
    pub content_type: Option<String>,
    pub body: Body,
}

/// A key and a value as texts.
pub open spec fn pair_view(p: (String, String)) -> (Seq<char>, Seq<char>) {
    (p.0@, p.1@)
}

/// A list of key/value pairs as texts.
pub open spec fn pairs_view(v: Seq<(String, String)>) -> Seq<(Seq<char>, Seq<char>)> {
    v.map_values(|p: (String, String)| pair_view(p))
}

/// The value of the authorization header for a credential.
pub open spec fn authorization_for(credential: Seq<char>) -> Seq<char> {
    "token "@ + credential
}

/// The three headers that go on every request, in order.
pub open spec fn auth_headers(authorization: Seq<char>) -> Seq<(Seq<char>, Seq<char>)> {
    seq![
        ("Accept"@, ACCEPT@),
        ("User-Agent"@, USER_AGENT@),
        ("Authorization"@, authorization),
    ]
}

/// `request` with the three mandatory headers added after its own.
pub open spec fn is_prepared(
    r: OutboundRequest,
    request: OutboundRequest,
    authorization: Seq<char>,
) -> bool {
    &&& r.method == request.method
    &&& r.url == request.url
    &&& r.query == request.query
    &&& r.content_type == request.content_type
    &&& r.body == request.body
    &&& pairs_view(r.headers@) == pairs_view(request.headers@) + auth_headers(authorization)
}

fn push_pair(v: &mut Vec<(String, String)>, key: &str, value: &str)
    ensures
        pairs_view(final(v)@) == pairs_view(old(v)@).push((key@, value@)),
{
    let p = (String::from_str(key), String::from_str(value));
    v.push(p);
    assert(pairs_view(final(v)@) =~= pairs_view(old(v)@).push((key@, value@)));
}

/// Adds the accept, identification and authorization headers to a request.
/// `authorization` is the full header value.
pub fn prepare_authenticated(request: OutboundRequest, authorization: &str) -> (r: OutboundRequest)
    ensures
        is_prepared(r, request, authorization@),
{
    let mut r = request;
    push_pair(&mut r.headers, "Accept", ACCEPT);
    push_pair(&mut r.headers, "User-Agent", USER_AGENT);
    push_pair(&mut r.headers, "Authorization", authorization);
    assert(pairs_view(r.headers@) =~= pairs_view(request.headers@) + auth_headers(authorization@));
    r
}

/// A response that the transport received.
#[derive(Debug, Clone, PartialEq, Eq)]
pub struct RawResponse {
    pub status: u16,
    pub body: Vec<u8>,
}

/// What the transport reports for one request.
#[derive(Debug, Clone, PartialEq, Eq)]
pub enum Dispatch {
    /// The request completed with a response.
    Completed(RawResponse),
    /// The request never completed; a description of why.
    TransportFailed(String),
}

/// The statuses that count as success: 200 to 299, and 302.
pub open spec fn success_status(status: u16) -> bool {
    (200 <= status && status <= 299) || status == 302
}

/// Whether a status counts as success.
pub fn is_success_status(status: u16) -> (r: bool)
    ensures
        r == success_status(status),
{
    (200 <= status && status <= 299) || status == 302
}

/// The text that `String::from_utf8_lossy` makes of some bytes.
pub uninterp spec fn utf8_lossy_of(b: Seq<u8>) -> Seq<char>;

/// Relies on `String::from_utf8_lossy`: the bytes decoded as UTF-8, with
/// invalid sequences replaced; the result depends on the bytes alone.
#[verifier::external_body]
fn decode_utf8_lossy(b: &Vec<u8>) -> (r: String)
    ensures
        r@ == utf8_lossy_of(b@),
{
    String::from_utf8_lossy(b.as_slice()).into_owned()
}

/// Whether `r` is what the pipeline makes of a completed response: the
/// response untouched where its status counts as success, otherwise a status
/// error with the status and the body decoded lossily.
pub open spec fn classified_response(response: RawResponse, r: Result<RawResponse, Error>) -> bool {
    if success_status(response.status) {
        r == Ok::<RawResponse, Error>(response)
    } else {
        match r {
            Err(Error::HttpError(code, text)) => code == response.status && text@ == utf8_lossy_of(
                response.body@,
            ),
            _ => false,
        }
    }
}

/// The outcome of a completed response: the response itself where the status
/// counts as success, otherwise a status error.
pub fn classify_response(response: RawResponse) -> (r: Result<RawResponse, Error>)
    ensures
        classified_response(response, r),
{
    if is_success_status(response.status) {
        Ok(response)
    } else {
        let text = decode_utf8_lossy(&response.body);
        Err(Error::HttpError(response.status, text))
    }
}

/// Whether `r` is what the pipeline makes of a dispatch; a transport failure
/// becomes a transport error with the same description.
pub open spec fn classified(outcome: Dispatch, r: Result<RawResponse, Error>) -> bool {
    match outcome {
        Dispatch::Completed(response) => classified_response(response, r),
        Dispatch::TransportFailed(d) => r == Err::<RawResponse, Error>(Error::Transport(d)),
    }
}

/// The outcome of a dispatch: success with the response untouched, a status
/// error, or a transport error.
pub fn classify(outcome: Dispatch) -> (r: Result<RawResponse, Error>)
    ensures
        classified(outcome, r),
{
    match outcome {
        Dispatch::Completed(response) => classify_response(response),
        Dispatch::TransportFailed(d) => Err(Error::Transport(d)),
    }
}

/// A transport failure becomes a transport error, which carries no status
/// code.
pub proof fn lemma_transport_failure_has_no_status(d: String, r: Result<RawResponse, Error>)
    requires
        classified(Dispatch::TransportFailed(d), r),
    ensures
        r matches Err(e) && e is Transport && e.status_spec() is None,
{
}

/// A completed response is passed on untouched exactly when its status counts
/// as success; otherwise the error carries that status.
pub proof fn lemma_completed_response_status(response: RawResponse, r: Result<RawResponse, Error>)
    requires
        classified(Dispatch::Completed(response), r),
    ensures
        success_status(response.status) <==> r is Ok,
        r is Ok ==> r == Ok::<RawResponse, Error>(response),
        r matches Err(e) ==> e.status_spec() == Some(response.status),
{
}

} // verus!
