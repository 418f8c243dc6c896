//! The content resolver: from a request path to a file under the static root,
//! and from that file's bytes to a response.
//!
//! Looking at the disk is the caller's part. [`get_static_file_info`] says
//! which file may be read, if any; the caller reads it and hands the outcome,
//! a [`FileLookup`], to [`handle_static_files`].

use vstd::prelude::*;
use vstd::slice::slice_to_vec;
use vstd::utf8::{decode_utf8, encode_utf8, valid_utf8};
use crate::config::Config;
use crate::response::{not_found_view, option_text_view, Response, ResponseView, Status};
use crate::text::same_text;

verus! {

/// What `markdown::to_html` renders from a Markdown source.
pub uninterp spec fn markdown_html(source: Seq<char>) -> Seq<char>;

/// The first MIME type that `mime_guess` lists for a file extension, if any.
pub uninterp spec fn mime_for_extension(ext: Seq<char>) -> Option<Seq<char>>;

/// Relies on `markdown::to_html`, which compiles CommonMark to HTML with the
/// default options; with those it never fails, and its result depends on the
/// source alone.
#[verifier::external_body]
fn render_markdown(source: &str) -> (html: String)
    ensures
        html@ == markdown_html(source@),
{
    markdown::to_html(source)
}

/// Relies on `mime_guess::from_ext` and `MimeGuess::first_raw`: a lookup of
/// the extension in the crate's fixed table.
#[verifier::external_body]
fn guess_mime(ext: &str) -> (r: Option<String>)
    ensures
        option_text_view(r) == mime_for_extension(ext@),
{
    match mime_guess::from_ext(ext).first_raw() {
        Some(m) => Some(m.to_string()),
        None => None,
    }
}

/// Relies on `String::from_utf8`: it accepts exactly the valid UTF-8
/// sequences and decodes them.
#[verifier::external_body]
fn decode_utf8_text(bytes: Vec<u8>) -> (r: Option<String>)
    ensures
        r is Some <==> valid_utf8(bytes@),
        r matches Some(s) ==> s@ == decode_utf8(bytes@),
{
    String::from_utf8(bytes).ok()
}

/// A file that a request may be answered with; not yet read.
#[derive(Clone, Debug)]
pub struct StaticFile {
    /// The static root joined with `name`.
    pub path: String,
    /// The requested file name: the first segment of the request path.
    pub name: String,
    /// What follows the last `.` of `name`.
    pub extension: String,
}

pub struct StaticFileView {
    pub path: Seq<char>,
    pub name: Seq<char>,
    pub extension: Seq<char>,
}

impl View for StaticFile {
    type V = StaticFileView;

    open spec fn view(&self) -> StaticFileView {
        StaticFileView { path: self.path@, name: self.name@, extension: self.extension@ }
    }
}

pub open spec fn static_file_option_view(o: Option<StaticFile>) -> Option<StaticFileView> {
    match o {
        Some(f) => Some(f@),
        None => None,
    }
}

/// What the caller found when it went to read a file.
#[derive(Clone, Debug)]
pub enum FileLookup {
    /// No regular file stands at the path.
    Missing,
    /// The file exists but could not be read.
    Unreadable,
    /// The file's whole contents.
    Contents(Vec<u8>),
}

/// The bytes of a lookup, if the file was read.
pub open spec fn lookup_contents(l: FileLookup) -> Option<Seq<u8>> {
    match l {
        FileLookup::Contents(b) => Some(b@),
        _ => None,
    }
}

/// The characters of `s` before its first `/`.
pub open spec fn before_slash(s: Seq<char>) -> Seq<char>
    decreases s.len(),
{
    if s.len() == 0 || s[0] == '/' {
        Seq::empty()
    } else {
        seq![s[0]] + before_slash(s.drop_first())
    }
}

/// The first segment of a path that starts with `/`: what lies between that
/// separator and the next one.
pub open spec fn first_segment(path: Seq<char>) -> Option<Seq<char>> {
    if path.len() > 0 && path[0] == '/' {
        Some(before_slash(path.drop_first()))
    } else {
        None
    }
}

/// `j` is the position of the last `.` in `name`.
pub open spec fn is_last_dot(name: Seq<char>, j: int) -> bool {
    &&& 0 <= j < name.len()
    &&& name[j] == '.'
    &&& forall|k: int| j < k < name.len() ==> name[k] != '.'
}

/// The extension of a file name: what follows its last `.`. A name without
/// a `.` has none.
pub open spec fn extension_of(name: Seq<char>) -> Option<Seq<char>> {
    if exists|j: int| is_last_dot(name, j) {
        let j = choose|j: int| is_last_dot(name, j);
        Some(name.subrange(j + 1, name.len() as int))
    } else {
        None
    }
}

/// A name that, joined to a directory, stays inside it. A segment holds no
/// `/`, so only `.`, `..` and the empty name fail.
pub open spec fn is_plain_name(name: Seq<char>) -> bool {
    name.len() > 0 && name != "."@ && name != ".."@
}

/// A directory joined with a name in it, as `Path::join` writes it.
pub open spec fn join_path(root: Seq<char>, name: Seq<char>) -> Seq<char> {
    if root.len() == 0 {
        name
    } else if root.last() == '/' {
        root + name
    } else {
        root + "/"@ + name
    }
}

/// The file a request path may be served from: static serving must be on,
/// the path's first segment must be a plain name with an extension, and that
/// extension must be in the allow-list.
pub open spec fn static_file_for(c: Config, path: Seq<char>) -> Option<StaticFileView> {
    if !c.serve_static {
        None
    } else {
        match first_segment(path) {
            None => None,
            Some(name) => if !is_plain_name(name) {
                None
            } else {
                match extension_of(name) {
                    None => None,
                    Some(ext) => if c.allows(ext) {
                        Some(StaticFileView { path: join_path(c.static_root@, name), name, extension: ext })
                    } else {
                        None
                    },
                }
            },
        }
    }
}

/// The content type sent for a MIME type; HTML is marked as UTF-8.
pub open spec fn content_type_for(mime: Option<Seq<char>>) -> Option<Seq<char>> {
    match mime {
        Some(m) => if m == "text/html"@ {
            Some(m + "; charset=UTF-8"@)
        } else {
            Some(m)
        },
        None => None,
    }
}

/// The response for a Markdown source: its rendering as HTML, or "Not Found"
/// when the source is not UTF-8.
pub open spec fn markdown_response(source: Seq<u8>) -> ResponseView {
    if valid_utf8(source) {
        ResponseView {
            status: Status::Success,
            content_type: Some("text/html; charset=UTF-8"@),
            body: encode_utf8(markdown_html(decode_utf8(source))),
        }
    } else {
        not_found_view()
    }
}

/// The response for any other file: its bytes, typed by its extension.
pub open spec fn plain_file_response(ext: Seq<char>, contents: Seq<u8>) -> ResponseView {
    ResponseView {
        status: Status::Success,
        content_type: content_type_for(mime_for_extension(ext)),
        body: contents,
    }
}

/// The response for an allowed file, given what reading it gave.
pub open spec fn static_response(f: StaticFileView, contents: Option<Seq<u8>>) -> ResponseView {
    match contents {
        None => not_found_view(),
        Some(bytes) => if f.extension == "md"@ {
            markdown_response(bytes)
        } else {
            plain_file_response(f.extension, bytes)
        },
    }
}

/// The first segment of `path`, if it starts with `/`.
pub fn first_segment_of(path: &str) -> (r: Option<String>)
    ensures
        option_text_view(r) == first_segment(path@),
{
    let n = path.unicode_len();
    if n == 0 || path.get_char(0) != '/' {
        return None;
    }
    let ghost t = path@.drop_first();
    let mut i: usize = 1;
    assert(t.subrange(0, 0) =~= Seq::<char>::empty());
    assert(t.subrange(0, n - 1) =~= t);
    while i < n && path.get_char(i) != '/'
        invariant
            n == path@.len(),
            1 <= i <= n,
            t == path@.drop_first(),
            before_slash(t) == t.subrange(0, i - 1) + before_slash(t.subrange(i - 1, n - 1)),
        decreases n - i,
    {
        let ghost rest = t.subrange(i - 1, n - 1);
        assert(rest[0] == path@[i as int]);
        assert(rest.drop_first() =~= t.subrange(i as int, n - 1));
        assert(t.subrange(0, i - 1) + (seq![rest[0]] + before_slash(rest.drop_first())) =~= t.subrange(
            0,
            i as int,
        ) + before_slash(rest.drop_first()));
        i = i + 1;
    }
    let ghost rest = t.subrange(i - 1, n - 1);
    assert(rest.len() == 0 || rest[0] == '/');
    assert(t.subrange(0, i - 1) + before_slash(rest) =~= t.subrange(0, i - 1));
    assert(path@.subrange(1, i as int) =~= t.subrange(0, i - 1));
    Some(path.substring_char(1, i).to_owned())
}

/// The extension of a file name, if it has a `.`.
pub fn extension_of_name(name: &str) -> (r: Option<String>)
    ensures
        option_text_view(r) == extension_of(name@),
{
    let n = name.unicode_len();
    let mut j: usize = n;
    while j > 0 && name.get_char(j - 1) != '.'
        invariant
            n == name@.len(),
            j <= n,
            forall|k: int| j <= k < n ==> name@[k] != '.',
        decreases j,
    {
        j = j - 1;
    }
    if j == 0 {
        assert(!exists|d: int| is_last_dot(name@, d)) by {
            if exists|d: int| is_last_dot(name@, d) {
                let d = choose|d: int| is_last_dot(name@, d);
                assert(name@[d] == '.');
            }
        }
        None
    } else {
        let ghost dot = j - 1;
        assert(is_last_dot(name@, dot));
        let ghost d = choose|d: int| is_last_dot(name@, d);
        assert(d == dot) by {
            if d < dot {
                assert(name@[dot] != '.');
            } else if d > dot {
                assert(name@[d] != '.');
            }
        }
        Some(name.substring_char(j, n).to_owned())
    }
}

/// Whether a file name stays inside the directory it is joined to.
pub fn is_plain_file_name(name: &str) -> (r: bool)
    ensures
        r == is_plain_name(name@),
{
    name.unicode_len() > 0 && !same_text(name, ".") && !same_text(name, "..")
}

/// `root` joined with `name`.
pub fn join_path_text(root: &str, name: &str) -> (r: String)
    ensures
        r@ == join_path(root@, name@),
{
    let n = root.unicode_len();
    let mut r = root.to_owned();
    if n > 0 && root.get_char(n - 1) != '/' {
        r.append("/");
    }
    r.append(name);
    r
}

/// Decides which file, if any, a request path is served from; the caller
/// then looks for it on disk.
pub fn get_static_file_info(config: &Config, path: &str) -> (r: Option<StaticFile>)
    ensures
        static_file_option_view(r) == static_file_for(*config, path@),
{
    if !config.serve_static {
        return None;
    }
    let name = match first_segment_of(path) {
        Some(name) => name,
        None => return None,
    };
    if !is_plain_file_name(name.as_str()) {
        return None;
    }
    let extension = match extension_of_name(name.as_str()) {
        Some(ext) => ext,
        None => return None,
    };
    if !config.allows_extension(extension.as_str()) {
        return None;
    }
    let path = join_path_text(config.static_root.as_str(), name.as_str());
    Some(StaticFile { path, name, extension })
}

/// The content type for a MIME type; HTML is marked as UTF-8.
pub fn content_type_from_mime(mime: Option<String>) -> (r: Option<String>)
    ensures
        option_text_view(r) == content_type_for(option_text_view(mime)),
{
    match mime {
        Some(m) => {
            if same_text(m.as_str(), "text/html") {
                let mut t = m;
                t.append("; charset=UTF-8");
                Some(t)
            } else {
                Some(m)
            }
        },
        None => None,
    }
}

/// Renders a Markdown source as an HTML response.
pub fn handle_markdown_files(source: Vec<u8>) -> (r: Response)
    ensures
        r@ == markdown_response(source@),
{
    match decode_utf8_text(source) {
        Some(text) => {
            let html = render_markdown(text.as_str());
            Response {
                status: Status::Success,
                content_type: Some(String::from_str("text/html; charset=UTF-8")),
                body: slice_to_vec(html.as_str().as_bytes()),
            }
        },
        None => Response::not_found(),
    }
}

/// Serves a file's bytes as they are, typed by its extension.
pub fn handle_fs_files(extension: &str, contents: Vec<u8>) -> (r: Response)
    ensures
        r@ == plain_file_response(extension@, contents@),
{
    let content_type = content_type_from_mime(guess_mime(extension));
    Response { status: Status::Success, content_type, body: contents }
}

/// The response for an allowed file, given what reading it gave.
pub fn handle_static_files(file: &StaticFile, lookup: FileLookup) -> (r: Response)
    ensures
        r@ == static_response(file@, lookup_contents(lookup)),
{
    match lookup {
        FileLookup::Contents(bytes) => {
            if same_text(file.extension.as_str(), "md") {
                handle_markdown_files(bytes)
            } else {
                handle_fs_files(file.extension.as_str(), bytes)
            }
        },
        _ => Response::not_found(),
    }
}

} // verus!
