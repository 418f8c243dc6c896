//! The request line: the first line of what a client sends, split into
//! method, path and version.

use vstd::prelude::*;
use crate::text::finished;

verus! {

/// How many bytes of a connection are read for the request line. Bytes past
/// this bound are never looked at: a longer first line is cut short there.
pub const REQUEST_BUFFER_LEN: usize = 1024;

/// A parsed request line.
#[derive(Clone, Debug)]
pub struct Request {
    pub method: String,
    pub path: String,
    pub version: String,
}

/// Why a buffer holds no request.
#[derive(Clone, Copy, Debug, PartialEq, Eq, Structural)]
pub enum RequestError {
    /// The first line has fewer than three words.
    Malformed,
}

/// What `String::from_utf8_lossy` makes of a byte sequence: invalid UTF-8
/// replaced by U+FFFD, the rest decoded.
pub uninterp spec fn utf8_lossy(b: Seq<u8>) -> Seq<char>;

/// Relies on `String::from_utf8_lossy`, whose result depends on the bytes alone.
#[verifier::external_body]
fn decode_lossy(b: &[u8]) -> (r: String)
    ensures
        r@ == utf8_lossy(b@),
{
    String::from_utf8_lossy(b).into_owned()
}

pub const LINE_FEED: u8 = 0x0a;

/// ASCII whitespace as `u8::is_ascii_whitespace` defines it: space, tab,
/// line feed, form feed and carriage return.
pub open spec fn is_ascii_space(b: u8) -> bool {
    b == 0x20 || b == 0x09 || b == 0x0a || b == 0x0c || b == 0x0d
}

/// The whitespace-separated words of `s` up to its first line feed, where
/// `cur` is a word already begun before `s`.
pub open spec fn line_words(s: Seq<u8>, cur: Seq<u8>) -> Seq<Seq<u8>>
    decreases s.len(),
{
    if s.len() == 0 || s[0] == LINE_FEED {
        finished(cur)
    } else if is_ascii_space(s[0]) {
        finished(cur) + line_words(s.drop_first(), Seq::empty())
    } else {
        line_words(s.drop_first(), cur.push(s[0]))
    }
}

/// The part of a buffer that is read.
pub open spec fn read_part(buf: Seq<u8>) -> Seq<u8> {
    if buf.len() <= REQUEST_BUFFER_LEN {
        buf
    } else {
        buf.take(REQUEST_BUFFER_LEN as int)
    }
}

/// The words of the request line held in `buf`.
pub open spec fn request_words(buf: Seq<u8>) -> Seq<Seq<u8>> {
    line_words(read_part(buf), Seq::empty())
}

pub open spec fn words_view(words: Seq<Vec<u8>>) -> Seq<Seq<u8>> {
    words.map_values(|w: Vec<u8>| w@)
}

fn is_space_byte(b: u8) -> (r: bool)
    ensures
        r == is_ascii_space(b),
{
    b == 0x20 || b == 0x09 || b == 0x0a || b == 0x0c || b == 0x0d
}

/// Splits the first line of `buf` (within the read bound) into words.
pub fn request_line_words(buf: &[u8]) -> (words: Vec<Vec<u8>>)
    ensures
        words_view(words@) == request_words(buf@),
{
    let n: usize = if buf.len() <= REQUEST_BUFFER_LEN {
        buf.len()
    } else {
        REQUEST_BUFFER_LEN
    };
    let ghost s = read_part(buf@);
    let mut words: Vec<Vec<u8>> = Vec::new();
    let mut cur: Vec<u8> = Vec::new();
    let mut i: usize = 0;
    assert(s.subrange(0, n as int) =~= s);
    while i < n && buf[i] != LINE_FEED
        invariant
            i <= n,
            n <= buf@.len(),
            s.len() == n,
            forall|k: int| 0 <= k < n ==> s[k] == buf@[k],
            line_words(s, Seq::empty()) == words_view(words@) + line_words(
                s.subrange(i as int, n as int),
                cur@,
            ),
        decreases n - i,
    {
        let b = buf[i];
        let ghost rest = s.subrange(i as int, n as int);
        let ghost next = s.subrange(i + 1, n as int);
        let ghost c0 = cur@;
        let ghost wv = words_view(words@);
        assert(rest.drop_first() =~= next);
        assert(rest[0] == b);
        if is_space_byte(b) {
            assert(line_words(rest, c0) == finished(c0) + line_words(next, Seq::empty()));
            assert(wv + (finished(c0) + line_words(next, Seq::empty())) =~= (wv + finished(c0))
                + line_words(next, Seq::empty()));
            if cur.len() > 0 {
                words.push(cur);
                assert(words_view(words@) =~= wv + finished(c0));
                cur = Vec::new();
            } else {
                assert(c0 =~= Seq::<u8>::empty());
                assert(wv + finished(c0) =~= wv);
            }
        } else {
            cur.push(b);
            assert(line_words(rest, c0) == line_words(next, cur@));
        }
        i = i + 1;
    }
    if cur.len() > 0 {
        let ghost before = words@;
        words.push(cur);
        assert(words_view(words@) =~= words_view(before).push(cur@));
    }
    words
}

impl Request {
    /// Parses the request line in `buf`: its first three words, decoded with
    /// invalid UTF-8 replaced, are the method, the path and the version.
    /// ASCII bytes never stand inside an encoded or a replaced sequence, so
    /// splitting the bytes before decoding gives the words that decoding the
    /// whole line first would give.
    pub fn parse(buf: &[u8]) -> (r: Result<Request, RequestError>)
        ensures
            r is Err <==> request_words(buf@).len() < 3,
            r matches Ok(req) ==> {
                &&& req.method@ == utf8_lossy(request_words(buf@)[0])
                &&& req.path@ == utf8_lossy(request_words(buf@)[1])
                &&& req.version@ == utf8_lossy(request_words(buf@)[2])
            },
    {
        let words = request_line_words(buf);
        if words.len() < 3 {
            return Err(RequestError::Malformed);
        }
        assert(words@[0]@ == request_words(buf@)[0]);
        assert(words@[1]@ == request_words(buf@)[1]);
        assert(words@[2]@ == request_words(buf@)[2]);
        let method = decode_lossy(words[0].as_slice());
        let path = decode_lossy(words[1].as_slice());
        let version = decode_lossy(words[2].as_slice());
        Ok(Request { method, path, version })
    }

    /// The line logged for this request: method and path, each followed by
    /// a space, then a bell character when `ring_bell` is set.
    pub fn log_line(&self, ring_bell: bool) -> (s: String)
        ensures
            s@ == self.method@ + " "@ + self.path@ + " "@ + if ring_bell {
                "\x07"@
            } else {
                Seq::empty()
            },
    {
        let mut s = self.method.clone();
        s.append(" ");
        s.append(self.path.as_str());
        s.append(" ");
        if ring_bell {
            s.append("\x07");
        }
        s
    }
}

} // verus!
