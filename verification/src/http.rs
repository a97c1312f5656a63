//! The HTTP surface that the server offers while it serves: a landing page
//! at `/` and the frame stream at `/camera`, both for `GET`.

use crate::mjpeg::{stream_content_type, stream_content_type_spec};
use crate::text::{decimal, decimal_bytes, push_bytes, text_bytes};
use vstd::prelude::*;
use vstd::slice::slice_subrange;
use vstd::string::*;

verus! {

/// The path of the landing page.
pub const LANDING_PATH: &'static str = "/";

/// The path of the frame stream.
pub const STREAM_PATH: &'static str = "/camera";

/// The landing page up to the address of the image.
pub const PAGE_HEAD: &'static str =
    "<html><head><meta name=\"viewport\" content=\"width=device-width; height=device-height;\"><title>esp32cam</title></head><body><img src=\"";

/// The landing page after the address of the image.
pub const PAGE_TAIL: &'static str =
    "\" alt=\"Failed to load image\" style=\"height: 100%;width: 100%; transform: rotate(180deg);\"></body></html>";

/// The status code of every response.
pub const STATUS_OK: u16 = 200;

/// The reason phrase that goes with `STATUS_OK`.
pub const REASON_OK: &'static str = "OK";

pub const CONTENT_TYPE: &'static str = "Content-Type";

pub const CONTENT_LENGTH: &'static str = "Content-Length";

/// The media type of the landing page.
pub const HTML_TYPE: &'static str = "text/html";

/// The request methods that the server tells apart.
#[derive(Clone, Copy, Debug, PartialEq, Eq, Structural)]
pub enum Method {
    Get,
    Head,
    Post,
    Put,
    Delete,
}

/// The routes of the server.
#[derive(Clone, Copy, Debug, PartialEq, Eq, Structural)]
pub enum Route {
    Landing,
    Stream,
}

/// One header line of a response.
#[derive(Debug, PartialEq, Eq)]
pub struct Header {
    pub name: Vec<u8>,
    pub value: Vec<u8>,
}

/// What follows the head of a response.
#[derive(Debug, PartialEq, Eq)]
pub enum Body {
    /// These bytes, and no more.
    Page(Vec<u8>),
    /// The parts of the frame stream, without end.
    Frames,
}

/// A response: status line, headers and body.
#[derive(Debug, PartialEq, Eq)]
pub struct Response {
    pub status: u16,
    pub reason: Vec<u8>,
    pub headers: Vec<Header>,
    pub body: Body,
}

/// The address by which the landing page refers to the stream: the path of
/// the stream route, relative to the page.
pub open spec fn stream_reference_spec() -> Seq<u8> {
    STREAM_PATH.spec_bytes().skip(1)
}

/// The landing page: a document with one image, whose source is the stream.
pub open spec fn landing_page_spec() -> Seq<u8> {
    PAGE_HEAD.spec_bytes() + stream_reference_spec() + PAGE_TAIL.spec_bytes()
}

/// The route that a request is for, if any: the method must be `GET` and
/// the path must be that of a route, byte for byte.
pub open spec fn resolve_spec(method: Method, path: Seq<u8>) -> Option<Route> {
    if method != Method::Get {
        None
    } else if path == LANDING_PATH.spec_bytes() {
        Some(Route::Landing)
    } else if path == STREAM_PATH.spec_bytes() {
        Some(Route::Stream)
    } else {
        None
    }
}

/// The two paths, byte by byte.
pub proof fn lemma_paths()
    ensures
        LANDING_PATH.spec_bytes() == seq![47u8],
        STREAM_PATH.spec_bytes() == seq![47u8, 99u8, 97u8, 109u8, 101u8, 114u8, 97u8],
        stream_reference_spec() == seq![99u8, 97u8, 109u8, 101u8, 114u8, 97u8],
{
    broadcast use is_ascii_spec_bytes;

    reveal_strlit("/");
    reveal_strlit("/camera");
    assert(is_ascii(LANDING_PATH));
    assert(is_ascii(STREAM_PATH));
    assert(LANDING_PATH.spec_bytes() =~= seq![47u8]);
    assert(STREAM_PATH.spec_bytes() =~= seq![47u8, 99u8, 97u8, 109u8, 101u8, 114u8, 97u8]);
    assert(stream_reference_spec() =~= seq![99u8, 97u8, 109u8, 101u8, 114u8, 97u8]);
}

/// Each route is found under its own path, and the landing page points at
/// the stream: it holds the stream's path, less the leading slash, as the
/// source of its image.
pub proof fn lemma_routes_resolve()
    ensures
        resolve_spec(Method::Get, LANDING_PATH.spec_bytes()) == Some(Route::Landing),
        resolve_spec(Method::Get, STREAM_PATH.spec_bytes()) == Some(Route::Stream),
        landing_page_spec().subrange(
            PAGE_HEAD.spec_bytes().len() as int,
            (PAGE_HEAD.spec_bytes().len() + stream_reference_spec().len()) as int,
        ) == stream_reference_spec(),
        seq![47u8] + stream_reference_spec() == STREAM_PATH.spec_bytes(),
{
    lemma_paths();
    assert(landing_page_spec().subrange(
        PAGE_HEAD.spec_bytes().len() as int,
        (PAGE_HEAD.spec_bytes().len() + stream_reference_spec().len()) as int,
    ) =~= stream_reference_spec());
    assert(seq![47u8] + stream_reference_spec() =~= STREAM_PATH.spec_bytes());
}

/// Whether two byte strings are the same.
pub fn bytes_eq(a: &[u8], b: &[u8]) -> (same: bool)
    ensures
        same == (a@ == b@),
{
    if a.len() != b.len() {
        return false;
    }
    let mut i: usize = 0;
    while i < a.len()
        invariant
            i <= a.len(),
            a.len() == b.len(),
            a@.subrange(0, i as int) == b@.subrange(0, i as int),
        decreases a.len() - i,
    {
        if a[i] != b[i] {
            return false;
        }
        i = i + 1;
        assert(a@.subrange(0, i as int) == a@.subrange(0, i - 1).push(a@[i - 1]));
        assert(b@.subrange(0, i as int) == b@.subrange(0, i - 1).push(b@[i - 1]));
    }
    assert(a@.subrange(0, i as int) == a@);
    assert(b@.subrange(0, i as int) == b@);
    true
}

impl Route {
    /// The path under which the route is installed.
    pub fn path(self) -> (path: &'static str)
        ensures
            path == match self {
                Route::Landing => LANDING_PATH,
                Route::Stream => STREAM_PATH,
            },
    {
        match self {
            Route::Landing => LANDING_PATH,
            Route::Stream => STREAM_PATH,
        }
    }

    /// The method for which the route is installed.
    pub fn method(self) -> (method: Method)
        ensures
            method == Method::Get,
    {
        Method::Get
    }
}

/// The routes to install on a new listener, in this order.
pub fn routes() -> (all: Vec<Route>)
    ensures
        all@ == seq![Route::Landing, Route::Stream],
{
    let mut all: Vec<Route> = Vec::new();
    all.push(Route::Landing);
    all.push(Route::Stream);
    all
}

/// Finds the route of a request.
pub fn resolve(method: Method, path: &[u8]) -> (route: Option<Route>)
    ensures
        route == resolve_spec(method, path@),
{
    match method {
        Method::Get => {
            if bytes_eq(path, LANDING_PATH.as_bytes()) {
                Some(Route::Landing)
            } else if bytes_eq(path, STREAM_PATH.as_bytes()) {
                Some(Route::Stream)
            } else {
                None
            }
        },
        _ => None,
    }
}

/// The landing page.
pub fn landing_page() -> (page: Vec<u8>)
    ensures
        page@ == landing_page_spec(),
{
    proof {
        lemma_paths();
    }
    let mut page = text_bytes(PAGE_HEAD);
    let path = STREAM_PATH.as_bytes();
    push_bytes(&mut page, slice_subrange(path, 1, path.len()));
    push_bytes(&mut page, PAGE_TAIL.as_bytes());
    page
}

/// The response to a request for the landing page: `200 OK`, the page as
/// `text/html`, and its length in bytes.
pub open spec fn is_landing_response(r: Response) -> bool {
    &&& r.status == STATUS_OK
    &&& r.reason@ == REASON_OK.spec_bytes()
    &&& r.headers@.len() == 2
    &&& r.headers@[0].name@ == CONTENT_TYPE.spec_bytes()
    &&& r.headers@[0].value@ == HTML_TYPE.spec_bytes()
    &&& r.headers@[1].name@ == CONTENT_LENGTH.spec_bytes()
    &&& r.headers@[1].value@ == decimal(landing_page_spec().len())
    &&& r.body matches Body::Page(page) && page@ == landing_page_spec()
}

/// The response to a request for the stream: `200 OK`, the multipart type
/// with the boundary token, no length, and the frames as the body.
pub open spec fn is_stream_response(r: Response) -> bool {
    &&& r.status == STATUS_OK
    &&& r.reason@ == REASON_OK.spec_bytes()
    &&& r.headers@.len() == 1
    &&& r.headers@[0].name@ == CONTENT_TYPE.spec_bytes()
    &&& r.headers@[0].value@ == stream_content_type_spec()
    &&& r.body is Frames
}

/// The response that a route gives.
pub fn respond(route: Route) -> (response: Response)
    ensures
        route == Route::Landing ==> is_landing_response(response),
        route == Route::Stream ==> is_stream_response(response),
{
    let mut headers: Vec<Header> = Vec::new();
    match route {
        Route::Landing => {
            let page = landing_page();
            headers.push(Header { name: text_bytes(CONTENT_TYPE), value: text_bytes(HTML_TYPE) });
            headers.push(
                Header { name: text_bytes(CONTENT_LENGTH), value: decimal_bytes(page.len()) },
            );
            Response {
                status: STATUS_OK,
                reason: text_bytes(REASON_OK),
                headers,
                body: Body::Page(page),
            }
        },
        Route::Stream => {
            headers.push(
                Header { name: text_bytes(CONTENT_TYPE), value: stream_content_type() },
            );
            Response {
                status: STATUS_OK,
                reason: text_bytes(REASON_OK),
                headers,
                body: Body::Frames,
            }
        },
    }
}

} // verus!
