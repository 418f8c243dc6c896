//! Properties of the server as a whole, stated over the dispatcher's and the
//! resolver's specifications and proved.

use vstd::prelude::*;
use vstd::utf8::{decode_utf8, encode_utf8, valid_utf8};
use crate::config::Config;
use crate::content::{
    before_slash, extension_of, first_segment, is_plain_name, join_path, markdown_html,
    static_file_for,
};
use crate::response::{head_text, html_bytes, not_found_view, not_implemented_view, Status};
use crate::routing::{
    builtin_body, dispatch, head_only, method_of, reply_bytes, respond, DispatchView, Method,
    GREETING_PAGE, HELLO_PAGE,
};

verus! {

proof fn lemma_method_names()
    ensures
        method_of("GET"@) == Method::Get,
        method_of("HEAD"@) == Method::Head,
        method_of("POST"@) == Method::Post,
{
    reveal_strlit("GET");
    reveal_strlit("HEAD");
    reveal_strlit("POST");
    assert("GET"@.len() == 3 && "HEAD"@.len() == 4 && "POST"@.len() == 4);
    assert("POST"@[1] != "HEAD"@[1]);
}

proof fn lemma_builtin_paths()
    ensures
        builtin_body("/"@) == Some(html_bytes(HELLO_PAGE)),
        builtin_body("/hello"@) == Some(html_bytes(GREETING_PAGE)),
{
    reveal_strlit("/");
    reveal_strlit("/hello");
    assert("/hello"@.len() == 6 && "/"@.len() == 1);
}

/// A segment never holds a `/`.
proof fn lemma_before_slash_has_no_slash(s: Seq<char>)
    ensures
        forall|i: int| 0 <= i < before_slash(s).len() ==> before_slash(s)[i] != '/',
    decreases s.len(),
{
    if s.len() > 0 && s[0] != '/' {
        lemma_before_slash_has_no_slash(s.drop_first());
        let t = before_slash(s.drop_first());
        assert forall|i: int| 0 <= i < before_slash(s).len() implies before_slash(s)[i] != '/' by {
            if i > 0 {
                assert(before_slash(s)[i] == t[i - 1]);
            }
        }
    }
}

/// `/` and `/hello` answer `GET`, `HEAD` and `POST` with 200 and their fixed
/// page; a reply to `HEAD` carries the same status line and headers and no body.
pub proof fn lemma_builtin_routes(c: Config, m: Seq<char>, p: Seq<char>, contents: Option<Seq<u8>>)
    requires
        m == "GET"@ || m == "HEAD"@ || m == "POST"@,
        p == "/"@ || p == "/hello"@,
    ensures
        respond(c, m, p, contents).status == Status::Success,
        respond(c, m, p, contents).content_type is None,
        p == "/"@ ==> respond(c, m, p, contents).body == html_bytes(HELLO_PAGE),
        p == "/hello"@ ==> respond(c, m, p, contents).body == html_bytes(GREETING_PAGE),
        reply_bytes(c, m, p, contents) == encode_utf8(head_text(respond(c, m, p, contents))) + if m
            == "HEAD"@ {
            Seq::empty()
        } else {
            respond(c, m, p, contents).body
        },
{
    lemma_method_names();
    lemma_builtin_paths();
}

/// `HEAD` is answered exactly as `GET` is, and its reply is the `GET` reply's
/// status line and headers alone.
pub proof fn lemma_head_is_get_without_body(c: Config, p: Seq<char>, contents: Option<Seq<u8>>)
    ensures
        respond(c, "HEAD"@, p, contents) == respond(c, "GET"@, p, contents),
        reply_bytes(c, "HEAD"@, p, contents) == encode_utf8(head_text(respond(c, "GET"@, p, contents))),
{
    lemma_method_names();
    assert(head_only("HEAD"@));
    assert(encode_utf8(head_text(respond(c, "GET"@, p, contents))) + Seq::<u8>::empty() =~= encode_utf8(
        head_text(respond(c, "GET"@, p, contents)),
    ));
}

/// Any method but `GET`, `HEAD` and `POST` is answered with 501, whatever the path.
pub proof fn lemma_other_methods_not_implemented(c: Config, m: Seq<char>, p: Seq<char>, contents: Option<Seq<u8>>)
    requires
        m != "GET"@,
        m != "HEAD"@,
        m != "POST"@,
    ensures
        respond(c, m, p, contents) == not_implemented_view(),
        respond(c, m, p, contents).status == Status::NotImplemented,
{
}

/// A `GET` or `HEAD` of a path that is no built-in route, and that does not
/// name an allowed file in the static root that could be read, is answered
/// with 404.
pub proof fn lemma_unresolved_get_not_found(c: Config, m: Seq<char>, p: Seq<char>, contents: Option<Seq<u8>>)
    requires
        m == "GET"@ || m == "HEAD"@,
        builtin_body(p) is None,
        static_file_for(c, p) is None || contents is None,
    ensures
        respond(c, m, p, contents) == not_found_view(),
        respond(c, m, p, contents).status == Status::NotFound,
{
    lemma_method_names();
}

/// A `POST` to any path but a built-in route is answered with 404, whatever
/// file the path names.
pub proof fn lemma_post_never_serves_files(c: Config, p: Seq<char>, contents: Option<Seq<u8>>)
    requires
        builtin_body(p) is None,
    ensures
        respond(c, "POST"@, p, contents) == not_found_view(),
{
    lemma_method_names();
}

/// A Markdown file that was read is answered with 200, typed as UTF-8 HTML,
/// with the HTML rendered from its source as the body.
pub proof fn lemma_markdown_rendered(c: Config, m: Seq<char>, p: Seq<char>, source: Seq<u8>)
    requires
        m == "GET"@ || m == "HEAD"@,
        builtin_body(p) is None,
        static_file_for(c, p) matches Some(f) && f.extension == "md"@,
        valid_utf8(source),
    ensures
        respond(c, m, p, Some(source)).status == Status::Success,
        respond(c, m, p, Some(source)).content_type == Some("text/html; charset=UTF-8"@),
        respond(c, m, p, Some(source)).body == encode_utf8(markdown_html(decode_utf8(source))),
{
    lemma_method_names();
}

/// The reply is a function of the configuration, the request and the file's
/// contents: asking twice, with the file unchanged, gives the same bytes.
pub proof fn lemma_repeat_request_same_reply(
    c: Config,
    m: Seq<char>,
    p: Seq<char>,
    first: Option<Seq<u8>>,
    second: Option<Seq<u8>>,
)
    requires
        first == second,
    ensures
        reply_bytes(c, m, p, first) == reply_bytes(c, m, p, second),
{
}

/// Every file the dispatcher asks to be read is the static root joined with a
/// plain name, which holds no `/` and is neither `.` nor `..`: nothing outside
/// the root is ever read.
pub proof fn lemma_served_files_stay_in_root(c: Config, m: Seq<char>, p: Seq<char>)
    requires
        dispatch(c, m, p) is ServeFile,
    ensures
        ({
            let f = dispatch(c, m, p)->ServeFile_0;
            &&& f.path == join_path(c.static_root@, f.name)
            &&& is_plain_name(f.name)
            &&& forall|i: int| 0 <= i < f.name.len() ==> f.name[i] != '/'
        }),
{
    lemma_before_slash_has_no_slash(p.drop_first());
}

/// A path whose first segment is `..` or `.` never leads to a file: it is
/// answered with 404 or, for unimplemented methods, 501.
pub proof fn lemma_dot_segments_rejected(c: Config, m: Seq<char>, p: Seq<char>, contents: Option<Seq<u8>>)
    requires
        first_segment(p) == Some(".."@) || first_segment(p) == Some("."@),
    ensures
        dispatch(c, m, p) !is ServeFile,
        m == "GET"@ || m == "HEAD"@ || m == "POST"@ ==> respond(c, m, p, contents) == not_found_view(),
{
    lemma_method_names();
    reveal_strlit("/");
    reveal_strlit("/hello");
    reveal_strlit("..");
    reveal_strlit(".");
    assert(p[0] == '/');
    assert(p.len() >= 2);
    assert(p != "/"@);
    assert(p != "/hello"@) by {
        if p == "/hello"@ {
            assert(p.drop_first()[0] == 'h');
            assert(before_slash(p.drop_first())[0] == 'h');
        }
    }
}

/// A file whose extension is not in the allow-list is answered with 404,
/// even when it exists and was read.
pub proof fn lemma_disallowed_extension_not_found(
    c: Config,
    m: Seq<char>,
    p: Seq<char>,
    name: Seq<char>,
    ext: Seq<char>,
    contents: Option<Seq<u8>>,
)
    requires
        m == "GET"@ || m == "HEAD"@,
        builtin_body(p) is None,
        first_segment(p) == Some(name),
        extension_of(name) == Some(ext),
        !c.allows(ext),
    ensures
        respond(c, m, p, contents) == not_found_view(),
{
    lemma_method_names();
}

} // verus!
