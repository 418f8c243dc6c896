use ews::config::Config;
use ews::content::{extension_of_name, first_segment_of, is_plain_file_name, join_path_text};
use ews::request::{Request, RequestError, REQUEST_BUFFER_LEN};
use ews::text::{same_text, split_words};

#[test]
fn parses_request_line() {
    let req = Request::parse(b"GET /index.html HTTP/1.1\r\nHost: example\r\n\r\n").unwrap();
    assert_eq!(req.method, "GET");
    assert_eq!(req.path, "/index.html");
    assert_eq!(req.version, "HTTP/1.1");
}

#[test]
fn parses_request_line_with_extra_whitespace_and_words() {
    let req = Request::parse(b"  POST\t/hello   HTTP/1.0 extra\nrest").unwrap();
    assert_eq!(req.method, "POST");
    assert_eq!(req.path, "/hello");
    assert_eq!(req.version, "HTTP/1.0");
}

#[test]
fn empty_buffer_is_malformed() {
    assert_eq!(Request::parse(b"").unwrap_err(), RequestError::Malformed);
}

#[test]
fn two_words_are_malformed() {
    assert_eq!(Request::parse(b"GET /\r\nHTTP/1.1 x y\r\n").unwrap_err(), RequestError::Malformed);
}

#[test]
fn blank_first_line_is_malformed() {
    assert_eq!(Request::parse(b"\r\nGET / HTTP/1.1\r\n").unwrap_err(), RequestError::Malformed);
}

#[test]
fn invalid_utf8_is_replaced() {
    let req = Request::parse(b"GET /a\xffb.md HTTP/1.1\r\n").unwrap();
    assert_eq!(req.path, "/a\u{FFFD}b.md");
}

#[test]
fn bytes_past_the_bound_are_not_read() {
    let mut buf = b"GET /".to_vec();
    buf.resize(REQUEST_BUFFER_LEN, b'a');
    buf.extend_from_slice(b" HTTP/1.1\r\n");
    assert_eq!(Request::parse(&buf).unwrap_err(), RequestError::Malformed);
    let mut buf = b"GET / HTTP/1.1".to_vec();
    buf.resize(REQUEST_BUFFER_LEN + 10, 0);
    assert_eq!(Request::parse(&buf).unwrap().version.len(), REQUEST_BUFFER_LEN - 6);
}

#[test]
fn log_line_rings_bell_only_when_asked() {
    let req = Request::parse(b"GET /x HTTP/1.1\r\n").unwrap();
    assert_eq!(req.log_line(false), "GET /x ");
    assert_eq!(req.log_line(true), "GET /x \x07");
}

#[test]
fn splits_words_on_ascii_whitespace() {
    assert_eq!(split_words(" html  md\tcss\n"), vec!["html", "md", "css"]);
    assert!(split_words("   ").is_empty());
    assert!(split_words("").is_empty());
}

#[test]
fn compares_text() {
    assert!(same_text("GET", "GET"));
    assert!(!same_text("GET", "get"));
    assert!(!same_text("GET", "GETS"));
}

#[test]
fn config_from_settings() {
    let c = Config::from_settings(
        "127.0.0.1".to_string(),
        "7878".to_string(),
        "true",
        "/srv".to_string(),
        "html md",
        "TRUE",
    );
    assert!(c.serve_static);
    assert!(!c.ring_bell);
    assert_eq!(c.allowed_extensions, vec!["html", "md"]);
    assert!(c.allows_extension("md"));
    assert!(!c.allows_extension("MD"));
    assert!(!c.allows_extension("txt"));
}

#[test]
fn first_segment_follows_leading_slash() {
    assert_eq!(first_segment_of("/about.md"), Some("about.md".to_string()));
    assert_eq!(first_segment_of("/a.md/../../etc/passwd"), Some("a.md".to_string()));
    assert_eq!(first_segment_of("/"), Some(String::new()));
    assert_eq!(first_segment_of("about.md"), None);
    assert_eq!(first_segment_of(""), None);
}

#[test]
fn extension_follows_last_dot() {
    assert_eq!(extension_of_name("archive.tar.gz"), Some("gz".to_string()));
    assert_eq!(extension_of_name("about.md"), Some("md".to_string()));
    assert_eq!(extension_of_name("trailing."), Some(String::new()));
    assert_eq!(extension_of_name("README"), None);
    assert_eq!(extension_of_name(""), None);
}

#[test]
fn plain_names() {
    assert!(is_plain_file_name("a.md"));
    assert!(is_plain_file_name("..md"));
    assert!(!is_plain_file_name(".."));
    assert!(!is_plain_file_name("."));
    assert!(!is_plain_file_name(""));
}

#[test]
fn joins_paths() {
    assert_eq!(join_path_text("/srv", "a.md"), "/srv/a.md");
    assert_eq!(join_path_text("/srv/", "a.md"), "/srv/a.md");
    assert_eq!(join_path_text(".", "a.md"), "./a.md");
    assert_eq!(join_path_text("", "a.md"), "a.md");
}
