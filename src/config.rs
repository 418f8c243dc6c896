//! The server's configuration: one immutable value built at startup and
//! handed to every part that needs it.

use vstd::prelude::*;
use crate::text::{same_text, split_words, strings_view, text_words};

verus! {

pub const DEFAULT_HOST: &'static str = "127.0.0.1";

pub const DEFAULT_PORT: &'static str = "7878";

pub const DEFAULT_SERVE_STATIC_FILES: &'static str = "false";

pub const DEFAULT_STATIC_FILE_PATH: &'static str = ".";

pub const DEFAULT_ALLOWED_STATIC_FILE_EXTENSIONS: &'static str = "html md css js jpg jpeg webp png avif";

pub const DEFAULT_RING_BELL_ON_REQUEST: &'static str = "false";

#[derive(Clone, Debug)]
pub struct Config {
    pub host: String,
    pub port: String,
    /// Whether paths other than the built-in routes are looked up as files.
    pub serve_static: bool,
    /// The directory that every served file lies in.
    pub static_root: String,
    /// File extensions that may be served, compared case-sensitively.
    pub allowed_extensions: Vec<String>,
    /// Whether the request log line ends with a bell character.
    pub ring_bell: bool,
}

/// A setting that reads as on.
pub open spec fn flag_on(s: Seq<char>) -> bool {
    s == "true"@
}

pub fn is_flag_on(s: &str) -> (r: bool)
    ensures
        r == flag_on(s@),
{
    same_text(s, "true")
}

impl Config {
    /// Whether `ext` is in the allow-list.
    pub open spec fn allows(&self, ext: Seq<char>) -> bool {
        strings_view(self.allowed_extensions@).contains(ext)
    }

    /// Builds the configuration from its textual settings: a flag is on when
    /// it reads `true`, and the extension list is separated by whitespace.
    pub fn from_settings(
        host: String,
        port: String,
        serve_static: &str,
        static_root: String,
        allowed_extensions: &str,
        ring_bell: &str,
    ) -> (c: Config)
        ensures
            c.host == host,
            c.port == port,
            c.serve_static == flag_on(serve_static@),
            c.static_root == static_root,
            strings_view(c.allowed_extensions@) == text_words(allowed_extensions@, Seq::empty()),
            c.ring_bell == flag_on(ring_bell@),
    {
        Config {
            host,
            port,
            serve_static: is_flag_on(serve_static),
            static_root,
            allowed_extensions: split_words(allowed_extensions),
            ring_bell: is_flag_on(ring_bell),
        }
    }

    /// Whether `ext` is in the allow-list.
    pub fn allows_extension(&self, ext: &str) -> (r: bool)
        ensures
            r == self.allows(ext@),
    {
        let n = self.allowed_extensions.len();
        let mut i: usize = 0;
        while i < n
            invariant
                n == self.allowed_extensions@.len(),
                i <= n,
                forall|k: int| 0 <= k < i ==> self.allowed_extensions@[k]@ != ext@,
            decreases n - i,
        {
            if same_text(self.allowed_extensions[i].as_str(), ext) {
                assert(strings_view(self.allowed_extensions@)[i as int] == ext@);
                return true;
            }
            i = i + 1;
        }
        assert(!strings_view(self.allowed_extensions@).contains(ext@)) by {
            if strings_view(self.allowed_extensions@).contains(ext@) {
                let k = choose|k: int|
                    0 <= k < n && strings_view(self.allowed_extensions@)[k] == ext@;
                assert(self.allowed_extensions@[k]@ == ext@);
            }
        }
        false
    }
}

} // verus!
