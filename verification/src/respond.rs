//! The caller-facing error taxonomy and the exact bodies and headers of
//! every terminal response the gateway produces.

use vstd::prelude::*;

use crate::text::{dec_digits, u64_to_string};

verus! {

/// Every way the admission and translation pipeline can turn a request
/// away.  `Internal` covers store, signing and encoding failures whose
/// detail stays server-side; callers only see a correlation identifier.
#[derive(Debug)]
pub enum GatewayError {
    BadRequest(String),
    Unauthorized,
    RateLimited,
    StoreFailure,
    UpstreamFailure,
    Internal,
}

/// The mathematical shape of a `GatewayError`.
pub enum GatewayErrorView {
    BadRequest(Seq<char>),
    Unauthorized,
    RateLimited,
    StoreFailure,
    UpstreamFailure,
    Internal,
}

impl View for GatewayError {
    type V = GatewayErrorView;

    open spec fn view(&self) -> GatewayErrorView {
        match self {
            GatewayError::BadRequest(m) => GatewayErrorView::BadRequest(m@),
            GatewayError::Unauthorized => GatewayErrorView::Unauthorized,
            GatewayError::RateLimited => GatewayErrorView::RateLimited,
            GatewayError::StoreFailure => GatewayErrorView::StoreFailure,
            GatewayError::UpstreamFailure => GatewayErrorView::UpstreamFailure,
            GatewayError::Internal => GatewayErrorView::Internal,
        }
    }
}

/// The HTTP status each error is reported with.
pub open spec fn spec_status_code(e: GatewayErrorView) -> u16 {
    match e {
        GatewayErrorView::BadRequest(_) => 400,
        GatewayErrorView::Unauthorized => 401,
        GatewayErrorView::RateLimited => 429,
        GatewayErrorView::StoreFailure => 500,
        GatewayErrorView::UpstreamFailure => 502,
        GatewayErrorView::Internal => 500,
    }
}

impl GatewayError {
    /// The HTTP status this error is reported with.
    pub fn status_code(&self) -> (s: u16)
        ensures
            s == spec_status_code(self@),
    {
        match self {
            GatewayError::BadRequest(_) => 400,
            GatewayError::Unauthorized => 401,
            GatewayError::RateLimited => 429,
            GatewayError::StoreFailure => 500,
            GatewayError::UpstreamFailure => 502,
            GatewayError::Internal => 500,
        }
    }
}

/// A complete response as the pipeline decides it: status, the headers to
/// attach, and the body text.  Transport turns it into a wire response
/// without changing it.
pub struct HttpResponse {
    pub status: u16,
    pub headers: Vec<(String, String)>,
    pub body: String,
}

/// The mathematical shape of an `HttpResponse`.
pub struct HttpResponseView {
    pub status: u16,
    pub headers: Seq<(Seq<char>, Seq<char>)>,
    pub body: Seq<char>,
}

impl View for HttpResponse {
    type V = HttpResponseView;

    open spec fn view(&self) -> HttpResponseView {
        HttpResponseView {
            status: self.status,
            headers: self.headers@.map_values(|h: (String, String)| (h.0@, h.1@)),
            body: self.body@,
        }
    }
}

/// The body of a plain error response: the status in decimal, a space,
/// then the error text.
pub open spec fn error_body(status: u16, text: Seq<char>) -> Seq<char> {
    dec_digits(status as nat) + " "@ + text
}

/// Builds the plain error response the gateway sends for `status` and
/// `error_text`, with no headers.
pub fn make_error(status: u16, error_text: &str) -> (r: HttpResponse)
    ensures
        r@.status == status,
        r@.headers == Seq::<(Seq<char>, Seq<char>)>::empty(),
        r@.body == error_body(status, error_text@),
{
    let mut body = u64_to_string(status as u64);
    body.append(" ");
    body.append(error_text);
    let r = HttpResponse { status, headers: Vec::new(), body };
    proof {
        assert(r@.headers =~= Seq::<(Seq<char>, Seq<char>)>::empty());
    }
    r
}

/// The body of the generic internal-failure response; only the random
/// correlation identifier reaches the caller.
pub open spec fn internal_error_body(correlation_id: Seq<char>) -> Seq<char> {
    "500 Internal Error\n\nError id: "@ + correlation_id
}

/// The generic internal-failure response carrying a correlation
/// identifier and no detail.
pub fn internal_error_response(correlation_id: &str) -> (r: HttpResponse)
    ensures
        r@.status == 500,
        r@.headers == Seq::<(Seq<char>, Seq<char>)>::empty(),
        r@.body == internal_error_body(correlation_id@),
{
    let mut body = String::from_str("500 Internal Error\n\nError id: ");
    body.append(correlation_id);
    let r = HttpResponse { status: 500, headers: Vec::new(), body };
    proof {
        assert(r@.headers =~= Seq::<(Seq<char>, Seq<char>)>::empty());
    }
    r
}

/// What each error answers with: status and body, per variant.
pub open spec fn error_response_spec(e: GatewayErrorView, correlation_id: Seq<char>) -> (
    u16,
    Seq<char>,
) {
    match e {
        GatewayErrorView::BadRequest(m) => (400, error_body(400, m)),
        GatewayErrorView::Unauthorized => (401, error_body(401, "Unauthorized"@)),
        GatewayErrorView::RateLimited => (429, error_body(429, "Rate limit exceeded"@)),
        GatewayErrorView::StoreFailure => (500, error_body(500, "Redis failure"@)),
        GatewayErrorView::UpstreamFailure => (
            502,
            error_body(502, "Failed to request hypixel upstream"@),
        ),
        GatewayErrorView::Internal => (500, internal_error_body(correlation_id)),
    }
}

/// Renders any pipeline error as its terminal response.  The correlation
/// identifier is used only for `Internal`; every other variant reports a
/// fixed, detail-free message.
pub fn error_response(e: &GatewayError, correlation_id: &str) -> (r: HttpResponse)
    ensures
        r@.status == error_response_spec(e@, correlation_id@).0,
        r@.body == error_response_spec(e@, correlation_id@).1,
        r@.headers == Seq::<(Seq<char>, Seq<char>)>::empty(),
{
    match e {
        GatewayError::BadRequest(m) => make_error(400, m.as_str()),
        GatewayError::Unauthorized => make_error(401, "Unauthorized"),
        GatewayError::RateLimited => make_error(429, "Rate limit exceeded"),
        GatewayError::StoreFailure => make_error(500, "Redis failure"),
        GatewayError::UpstreamFailure => make_error(502, "Failed to request hypixel upstream"),
        GatewayError::Internal => internal_error_response(correlation_id),
    }
}

/// The three fixed headers attached to every successfully proxied body:
/// a zero age, the advisory cache lifetimes, and the JSON content type.
pub open spec fn success_headers_spec() -> Seq<(Seq<char>, Seq<char>)> {
    seq![
        ("Age"@, "0"@),
        ("Cache-Control"@, "public, s-maxage=60, max-age=300"@),
        ("Content-Type"@, "application/json"@),
    ]
}

/// The headers attached to a successfully proxied upstream body.
pub fn success_headers() -> (v: Vec<(String, String)>)
    ensures
        v@.map_values(|h: (String, String)| (h.0@, h.1@)) == success_headers_spec(),
{
    let mut v: Vec<(String, String)> = Vec::new();
    v.push((String::from_str("Age"), String::from_str("0")));
    v.push((
        String::from_str("Cache-Control"),
        String::from_str("public, s-maxage=60, max-age=300"),
    ));
    v.push((String::from_str("Content-Type"), String::from_str("application/json")));
    proof {
        assert(v@.map_values(|h: (String, String)| (h.0@, h.1@)) =~= success_headers_spec());
    }
    v
}

/// The redirect the bare root path answers with.
pub fn root_redirect_response() -> (r: HttpResponse)
    ensures
        r@.status == 302,
        r@.headers =~= seq![("Location"@, "https://github.com/NotEnoughUpdates/ursa-minor"@)],
        r@.body == Seq::<char>::empty(),
{
    let mut headers: Vec<(String, String)> = Vec::new();
    headers.push((
        String::from_str("Location"),
        String::from_str("https://github.com/NotEnoughUpdates/ursa-minor"),
    ));
    let r = HttpResponse { status: 302, headers, body: String::new() };
    r
}

/// The response for a path no route owns.
pub fn not_found_response(path: &str) -> (r: HttpResponse)
    ensures
        r@.status == 404,
        r@.headers == Seq::<(Seq<char>, Seq<char>)>::empty(),
        r@.body == error_body(404, "Unknown request path "@ + path@),
{
    let mut text = String::from_str("Unknown request path ");
    text.append(path);
    make_error(404, text.as_str())
}

/// The response for a meta path no route owns.
pub fn meta_not_found_response(meta_path: &str) -> (r: HttpResponse)
    ensures
        r@.status == 404,
        r@.headers == Seq::<(Seq<char>, Seq<char>)>::empty(),
        r@.body == error_body(404, "Unknown meta request "@ + meta_path@),
{
    let mut text = String::from_str("Unknown meta request ");
    text.append(meta_path);
    make_error(404, text.as_str())
}

/// The value of the timing header attached to every response: the elapsed
/// nanoseconds in decimal with an `ns` suffix.
pub fn timings_header_value(nanos: u64) -> (s: String)
    ensures
        s@ == dec_digits(nanos as nat) + "ns"@,
{
    let mut s = u64_to_string(nanos);
    s.append("ns");
    s
}

} // verus!
