use ews::config::Config;
use ews::content::{
    get_static_file_info, handle_fs_files, handle_markdown_files, handle_static_files, FileLookup,
};
use ews::response::{Response, Status};
use ews::routing::{handle_get, handle_method, handle_post, Dispatch, Method};

fn srv_config() -> Config {
    Config {
        host: "127.0.0.1".to_string(),
        port: "7878".to_string(),
        serve_static: true,
        static_root: "/srv".to_string(),
        allowed_extensions: vec!["html".to_string(), "md".to_string()],
        ring_bell: false,
    }
}

fn respond(c: &Config, method: &str, path: &str, lookup: FileLookup) -> Response {
    handle_method(c, method, path).complete(lookup)
}

fn served_file(d: Dispatch) -> String {
    match d {
        Dispatch::ServeFile(f) => f.path,
        Dispatch::Respond(r) => panic!("expected a file, got {:?}", r.status),
    }
}

#[test]
fn builtin_routes_answer_get_head_post() {
    let c = srv_config();
    for m in ["GET", "HEAD", "POST"] {
        let r = respond(&c, m, "/", FileLookup::Missing);
        assert_eq!(r.status, Status::Success);
        assert_eq!(r.body, b"<h1>Hello</h1>".to_vec());
        assert_eq!(r.content_type, None);
        let r = respond(&c, m, "/hello", FileLookup::Missing);
        assert_eq!(r.status, Status::Success);
        assert_eq!(r.body, b"<h1>My lord, how can I help you?</h1>".to_vec());
    }
}

#[test]
fn head_reply_has_no_body() {
    let c = srv_config();
    let get = respond(&c, "GET", "/", FileLookup::Missing);
    let head = respond(&c, "HEAD", "/", FileLookup::Missing);
    assert_eq!(get.to_bytes(false), b"HTTP/1.1 200 OK\nServer: EWS\r\n\r\n<h1>Hello</h1>".to_vec());
    assert_eq!(head.to_bytes(true), b"HTTP/1.1 200 OK\nServer: EWS\r\n\r\n".to_vec());
}

#[test]
fn other_methods_not_implemented() {
    let c = srv_config();
    for (m, p) in [("PATCH", "/"), ("DELETE", "/hello"), ("get", "/about.md"), ("PUT", "/x")] {
        let r = respond(&c, m, p, FileLookup::Contents(b"x".to_vec()));
        assert_eq!(r.status, Status::NotImplemented);
        assert_eq!(r.body, b"<h1>501 Not Implemented</h1>".to_vec());
    }
}

#[test]
fn patch_root_is_501_whatever_the_configuration() {
    let mut c = srv_config();
    let r = respond(&c, "PATCH", "/", FileLookup::Missing);
    assert_eq!(r.status, Status::NotImplemented);
    c.serve_static = false;
    c.allowed_extensions.clear();
    let r = respond(&c, "PATCH", "/", FileLookup::Missing);
    assert_eq!(r.status, Status::NotImplemented);
    assert!(r.to_bytes(false).starts_with(b"HTTP/1.1 501 Not Implemented\n"));
}

#[test]
fn get_about_md_renders_markdown() {
    let c = srv_config();
    let d = handle_method(&c, "GET", "/about.md");
    assert_eq!(served_file(d.clone()), "/srv/about.md");
    let r = d.complete(FileLookup::Contents(b"# Hi".to_vec()));
    assert_eq!(r.status, Status::Success);
    assert_eq!(r.content_type.as_deref(), Some("text/html; charset=UTF-8"));
    let body = String::from_utf8(r.body.clone()).unwrap();
    assert!(body.contains("<h1>Hi</h1>"));
    assert!(r.to_bytes(false).starts_with(b"HTTP/1.1 200 OK\nContent-Type: text/html; charset=UTF-8\nServer: EWS\r\n\r\n"));
}

#[test]
fn get_missing_file_is_404() {
    let mut c = srv_config();
    c.allowed_extensions.push("txt".to_string());
    let r = respond(&c, "GET", "/nope.txt", FileLookup::Missing);
    assert_eq!(r.status, Status::NotFound);
    assert_eq!(r.body, b"<h1>404 Not Found</h1>".to_vec());
    assert_eq!(r.to_bytes(false), b"HTTP/1.1 404 NOT FOUND\nServer: EWS\r\n\r\n<h1>404 Not Found</h1>".to_vec());
}

#[test]
fn unreadable_file_is_404() {
    let c = srv_config();
    let r = respond(&c, "GET", "/page.html", FileLookup::Unreadable);
    assert_eq!(r.status, Status::NotFound);
}

#[test]
fn disallowed_extension_is_404_even_if_file_exists() {
    let c = srv_config();
    let d = handle_method(&c, "GET", "/secret.txt");
    assert!(matches!(d, Dispatch::Respond(_)));
    let r = d.complete(FileLookup::Contents(b"top secret".to_vec()));
    assert_eq!(r.status, Status::NotFound);
    assert_eq!(r.body, b"<h1>404 Not Found</h1>".to_vec());
}

#[test]
fn extension_check_is_case_sensitive() {
    let c = srv_config();
    let r = respond(&c, "GET", "/ABOUT.MD", FileLookup::Contents(b"# Hi".to_vec()));
    assert_eq!(r.status, Status::NotFound);
}

#[test]
fn path_traversal_is_404() {
    let mut c = srv_config();
    c.allowed_extensions.push(String::new());
    for p in ["/../etc/passwd", "/..", "/.", "//etc/passwd", "/..%2f.md"] {
        let d = handle_method(&c, "GET", p);
        if p == "/..%2f.md" {
            // a single name inside the root, never an escape
            assert_eq!(served_file(d), "/srv/..%2f.md");
            continue;
        }
        assert!(matches!(d, Dispatch::Respond(_)), "{p}");
        let r = d.complete(FileLookup::Contents(b"root:x:0:0".to_vec()));
        assert_eq!(r.status, Status::NotFound);
    }
    let d = handle_method(&c, "GET", "/about.md/../../etc/passwd");
    assert_eq!(served_file(d), "/srv/about.md");
}

#[test]
fn post_never_serves_files() {
    let c = srv_config();
    let r = respond(&c, "POST", "/about.md", FileLookup::Contents(b"# Hi".to_vec()));
    assert_eq!(r.status, Status::NotFound);
    assert_eq!(handle_post("/index.html").status, Status::NotFound);
    assert_eq!(handle_post("/hello").status, Status::Success);
}

#[test]
fn static_serving_disabled_is_404() {
    let mut c = srv_config();
    c.serve_static = false;
    assert!(get_static_file_info(&c, "/about.md").is_none());
    assert!(matches!(handle_get(&c, "/about.md"), Dispatch::Respond(_)));
    assert!(matches!(handle_get(&c, "/"), Dispatch::Respond(_)));
}

#[test]
fn name_without_extension_is_404() {
    let c = srv_config();
    assert!(get_static_file_info(&c, "/README").is_none());
    assert!(get_static_file_info(&c, "/").is_none());
    assert!(get_static_file_info(&c, "about.md").is_none());
}

#[test]
fn static_file_info_fields() {
    let c = srv_config();
    let f = get_static_file_info(&c, "/index.html").unwrap();
    assert_eq!(f.path, "/srv/index.html");
    assert_eq!(f.name, "index.html");
    assert_eq!(f.extension, "html");
}

#[test]
fn html_file_is_typed_utf8() {
    let r = handle_fs_files("html", b"<p>x</p>".to_vec());
    assert_eq!(r.status, Status::Success);
    assert_eq!(r.content_type.as_deref(), Some("text/html; charset=UTF-8"));
    assert_eq!(r.body, b"<p>x</p>".to_vec());
}

#[test]
fn other_files_typed_by_extension() {
    assert_eq!(handle_fs_files("css", vec![1]).content_type.as_deref(), Some("text/css"));
    assert_eq!(handle_fs_files("png", vec![2]).content_type.as_deref(), Some("image/png"));
    assert_eq!(handle_fs_files("js", vec![]).content_type.as_deref(), Some("text/javascript"));
}

#[test]
fn unknown_extension_has_no_content_type() {
    let r = handle_fs_files("zzqqx", b"raw".to_vec());
    assert_eq!(r.status, Status::Success);
    assert_eq!(r.content_type, None);
    assert_eq!(r.to_bytes(false), b"HTTP/1.1 200 OK\nServer: EWS\r\n\r\nraw".to_vec());
}

#[test]
fn markdown_renders_paragraph() {
    let r = handle_markdown_files(b"hello *world*".to_vec());
    assert_eq!(String::from_utf8(r.body).unwrap(), "<p>hello <em>world</em></p>");
}

#[test]
fn invalid_utf8_markdown_is_404() {
    let r = handle_markdown_files(vec![b'#', b' ', 0xff, 0xfe]);
    assert_eq!(r.status, Status::NotFound);
}

#[test]
fn static_files_dispatch_on_extension() {
    let c = srv_config();
    let f = get_static_file_info(&c, "/x.html").unwrap();
    let r = handle_static_files(&f, FileLookup::Contents(b"# not markdown".to_vec()));
    assert_eq!(r.body, b"# not markdown".to_vec());
    let r = handle_static_files(&f, FileLookup::Missing);
    assert_eq!(r.status, Status::NotFound);
}

#[test]
fn repeated_request_gives_identical_bytes() {
    let c = srv_config();
    let first = respond(&c, "GET", "/about.md", FileLookup::Contents(b"# Hi\n\ntext".to_vec()));
    let second = respond(&c, "GET", "/about.md", FileLookup::Contents(b"# Hi\n\ntext".to_vec()));
    assert_eq!(first.to_bytes(false), second.to_bytes(false));
}

#[test]
fn method_tokens() {
    assert_eq!(Method::from_token("GET"), Method::Get);
    assert_eq!(Method::from_token("HEAD"), Method::Head);
    assert_eq!(Method::from_token("POST"), Method::Post);
    assert_eq!(Method::from_token("Get"), Method::Other);
}

#[test]
fn not_found_page() {
    let r = Response::not_found();
    assert_eq!(r.head_string(), "HTTP/1.1 404 NOT FOUND\nServer: EWS\r\n\r\n");
}
