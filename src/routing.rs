//! The dispatcher: from a method and a path to a response, or to the file
//! that the response is to be made from.

use vstd::prelude::*;
use crate::config::Config;
use crate::content::{
    get_static_file_info, handle_static_files, lookup_contents, static_file_for, static_response,
    FileLookup, StaticFile, StaticFileView,
};
use crate::response::{
    html_bytes, not_found_view, not_implemented_view, wire_bytes, Response, ResponseView, Status,
};
use crate::text::same_text;

verus! {

/// The request methods the server tells apart.
#[derive(Clone, Copy, Debug, PartialEq, Eq, Structural)]
pub enum Method {
    Get,
    Head,
    Post,
    /// Any method the server does not implement.
    Other,
}

pub open spec fn method_of(m: Seq<char>) -> Method {
    if m == "GET"@ {
        Method::Get
    } else if m == "HEAD"@ {
        Method::Head
    } else if m == "POST"@ {
        Method::Post
    } else {
        Method::Other
    }
}

impl Method {
    /// The method a request-line token names; names are case-sensitive.
    pub fn from_token(m: &str) -> (r: Method)
        ensures
            r == method_of(m@),
    {
        if same_text(m, "GET") {
            Method::Get
        } else if same_text(m, "HEAD") {
            Method::Head
        } else if same_text(m, "POST") {
            Method::Post
        } else {
            Method::Other
        }
    }
}

/// Whether the reply to a request with this method leaves out the body.
pub open spec fn head_only(m: Seq<char>) -> bool {
    method_of(m) == Method::Head
}

pub const HELLO_PAGE: &'static str = "<h1>Hello</h1>";

pub const GREETING_PAGE: &'static str = "<h1>My lord, how can I help you?</h1>";

/// The body of a built-in route, if `path` is one.
pub open spec fn builtin_body(path: Seq<char>) -> Option<Seq<u8>> {
    if path == "/"@ {
        Some(html_bytes(HELLO_PAGE))
    } else if path == "/hello"@ {
        Some(html_bytes(GREETING_PAGE))
    } else {
        None
    }
}

pub open spec fn page_view(body: Seq<u8>) -> ResponseView {
    ResponseView { status: Status::Success, content_type: None, body }
}

/// What the dispatcher decides.
#[derive(Clone, Debug)]
pub enum Dispatch {
    /// Answer with this response.
    Respond(Response),
    /// Read this file and answer with `handle_static_files`.
    ServeFile(StaticFile),
}

pub enum DispatchView {
    Respond(ResponseView),
    ServeFile(StaticFileView),
}

impl View for Dispatch {
    type V = DispatchView;

    open spec fn view(&self) -> DispatchView {
        match self {
            Dispatch::Respond(r) => DispatchView::Respond(r@),
            Dispatch::ServeFile(f) => DispatchView::ServeFile(f@),
        }
    }
}

/// The outcome of a `POST`: only the built-in routes answer.
pub open spec fn post_response(path: Seq<char>) -> ResponseView {
    match builtin_body(path) {
        Some(body) => page_view(body),
        None => not_found_view(),
    }
}

/// The outcome of a `GET` or `HEAD`: a built-in route, else a static file,
/// else "Not Found".
pub open spec fn get_dispatch(c: Config, path: Seq<char>) -> DispatchView {
    match builtin_body(path) {
        Some(body) => DispatchView::Respond(page_view(body)),
        None => match static_file_for(c, path) {
            Some(f) => DispatchView::ServeFile(f),
            None => DispatchView::Respond(not_found_view()),
        },
    }
}

/// The dispatcher's decision for a method and a path.
pub open spec fn dispatch(c: Config, m: Seq<char>, path: Seq<char>) -> DispatchView {
    match method_of(m) {
        Method::Get | Method::Head => get_dispatch(c, path),
        Method::Post => DispatchView::Respond(post_response(path)),
        Method::Other => DispatchView::Respond(not_implemented_view()),
    }
}

/// The response to a request, where `contents` is what reading the file that
/// the dispatcher named gave (`None`: missing or unreadable); it is not looked
/// at when no file is named.
pub open spec fn respond(c: Config, m: Seq<char>, path: Seq<char>, contents: Option<Seq<u8>>) -> ResponseView {
    match dispatch(c, m, path) {
        DispatchView::Respond(r) => r,
        DispatchView::ServeFile(f) => static_response(f, contents),
    }
}

/// The bytes written back for a request.
pub open spec fn reply_bytes(c: Config, m: Seq<char>, path: Seq<char>, contents: Option<Seq<u8>>) -> Seq<u8> {
    wire_bytes(respond(c, m, path, contents), head_only(m))
}

/// The page of a built-in route, if `path` is one.
pub fn builtin_page(path: &str) -> (r: Option<Response>)
    ensures
        match r {
            Some(resp) => builtin_body(path@) == Some(resp@.body) && resp@ == page_view(resp@.body),
            None => builtin_body(path@) is None,
        },
{
    if same_text(path, "/") {
        Some(Response::html_page(Status::Success, HELLO_PAGE))
    } else if same_text(path, "/hello") {
        Some(Response::html_page(Status::Success, GREETING_PAGE))
    } else {
        None
    }
}

/// Answers a `POST`.
pub fn handle_post(path: &str) -> (r: Response)
    ensures
        r@ == post_response(path@),
{
    match builtin_page(path) {
        Some(page) => page,
        None => Response::not_found(),
    }
}

/// Decides a `GET` or `HEAD`.
pub fn handle_get(config: &Config, path: &str) -> (r: Dispatch)
    ensures
        r@ == get_dispatch(*config, path@),
{
    match builtin_page(path) {
        Some(page) => Dispatch::Respond(page),
        None => match get_static_file_info(config, path) {
            Some(file) => Dispatch::ServeFile(file),
            None => Dispatch::Respond(Response::not_found()),
        },
    }
}

/// Decides a request by its method and path.
pub fn handle_method(config: &Config, method: &str, path: &str) -> (r: Dispatch)
    ensures
        r@ == dispatch(*config, method@, path@),
{
    match Method::from_token(method) {
        Method::Get | Method::Head => handle_get(config, path),
        Method::Post => Dispatch::Respond(handle_post(path)),
        Method::Other => Dispatch::Respond(Response::not_implemented()),
    }
}

impl Dispatch {
    /// The response, once the named file (if any) has been looked up;
    /// `lookup` is not looked at when the decision is already a response.
    pub fn complete(self, lookup: FileLookup) -> (r: Response)
        ensures
            r@ == match self@ {
                DispatchView::Respond(resp) => resp,
                DispatchView::ServeFile(f) => static_response(f, lookup_contents(lookup)),
            },
    {
        match self {
            Dispatch::Respond(resp) => resp,
            Dispatch::ServeFile(file) => handle_static_files(&file, lookup),
        }
    }
}

} // verus!
