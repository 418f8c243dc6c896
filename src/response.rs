//! Responses and the bytes that carry them over the wire.

use vstd::prelude::*;
use vstd::slice::slice_to_vec;
use vstd::utf8::encode_utf8;

verus! {

/// The status codes this server answers with.
#[derive(Clone, Copy, Debug, PartialEq, Eq, Structural)]
pub enum Status {
    Success,
    NotFound,
    NotImplemented,
}

/// A response as the router and the content resolver produce it.
#[derive(Clone, Debug)]
pub struct Response {
    pub status: Status,
    pub content_type: Option<String>,
    pub body: Vec<u8>,
}

/// The mathematical value of a [`Response`].
pub struct ResponseView {
    pub status: Status,
    pub content_type: Option<Seq<char>>,
    pub body: Seq<u8>,
}

pub open spec fn option_text_view(o: Option<String>) -> Option<Seq<char>> {
    match o {
        Some(s) => Some(s@),
        None => None,
    }
}

impl View for Response {
    type V = ResponseView;

    open spec fn view(&self) -> ResponseView {
        ResponseView {
            status: self.status,
            content_type: option_text_view(self.content_type),
            body: self.body@,
        }
    }
}

/// The status line, terminated by a line feed.
pub open spec fn status_line(s: Status) -> Seq<char> {
    match s {
        Status::Success => "HTTP/1.1 200 OK\n"@,
        Status::NotFound => "HTTP/1.1 404 NOT FOUND\n"@,
        Status::NotImplemented => "HTTP/1.1 501 Not Implemented\n"@,
    }
}

/// The `Content-Type` header line, if the response has a content type.
pub open spec fn content_type_line(ct: Option<Seq<char>>) -> Seq<char> {
    match ct {
        Some(t) => "Content-Type: "@ + t + "\n"@,
        None => Seq::empty(),
    }
}

/// Everything written before the body: status line, headers, blank line.
pub open spec fn head_text(r: ResponseView) -> Seq<char> {
    status_line(r.status) + content_type_line(r.content_type) + "Server: EWS\r\n\r\n"@
}

/// The bytes sent to the client; a reply to `HEAD` carries no body.
pub open spec fn wire_bytes(r: ResponseView, head_only: bool) -> Seq<u8> {
    encode_utf8(head_text(r)) + if head_only {
        Seq::empty()
    } else {
        r.body
    }
}

/// The HTML body of a built-in page, as bytes.
pub open spec fn html_bytes(page: &str) -> Seq<u8> {
    encode_utf8(page@)
}

pub open spec fn not_found_view() -> ResponseView {
    ResponseView { status: Status::NotFound, content_type: None, body: html_bytes("<h1>404 Not Found</h1>") }
}

pub open spec fn not_implemented_view() -> ResponseView {
    ResponseView {
        status: Status::NotImplemented,
        content_type: None,
        body: html_bytes("<h1>501 Not Implemented</h1>"),
    }
}

pub fn status_text(s: Status) -> (r: &'static str)
    ensures
        r@ == status_line(s),
{
    match s {
        Status::Success => "HTTP/1.1 200 OK\n",
        Status::NotFound => "HTTP/1.1 404 NOT FOUND\n",
        Status::NotImplemented => "HTTP/1.1 501 Not Implemented\n",
    }
}

impl Response {
    /// A response with no content type whose body is the text of `page`.
    pub fn html_page(status: Status, page: &str) -> (r: Response)
        ensures
            r@ == (ResponseView { status, content_type: None, body: html_bytes(page) }),
    {
        Response { status, content_type: None, body: slice_to_vec(page.as_bytes()) }
    }

    /// The fixed "Not Found" page.
    pub fn not_found() -> (r: Response)
        ensures
            r@ == not_found_view(),
    {
        Response::html_page(Status::NotFound, "<h1>404 Not Found</h1>")
    }

    /// The fixed "Not Implemented" page.
    pub fn not_implemented() -> (r: Response)
        ensures
            r@ == not_implemented_view(),
    {
        Response::html_page(Status::NotImplemented, "<h1>501 Not Implemented</h1>")
    }

    /// The status line and headers, ending with the blank line.
    pub fn head_string(&self) -> (s: String)
        ensures
            s@ == head_text(self@),
    {
        let mut s = String::from_str(status_text(self.status));
        match &self.content_type {
            Some(ct) => {
                s.append("Content-Type: ");
                s.append(ct.as_str());
                s.append("\n");
            },
            None => {},
        }
        s.append("Server: EWS\r\n\r\n");
        s
    }

    /// The bytes written back to the client; with `head_only` the body is left out.
    pub fn to_bytes(&self, head_only: bool) -> (out: Vec<u8>)
        ensures
            out@ == wire_bytes(self@, head_only),
    {
        let head = self.head_string();
        let mut out = slice_to_vec(head.as_str().as_bytes());
        if !head_only {
            let mut body = self.body.clone();
            out.append(&mut body);
        }
        out
    }
}

} // verus!
