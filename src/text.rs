//! Comparing and splitting text.

use vstd::prelude::*;

verus! {

/// The word in progress, if it has begun, as a sequence of words.
pub open spec fn finished<A>(cur: Seq<A>) -> Seq<Seq<A>> {
    if cur.len() == 0 {
        Seq::empty()
    } else {
        seq![cur]
    }
}

/// ASCII whitespace as `char::is_ascii_whitespace` defines it.
pub open spec fn is_ascii_space_char(c: char) -> bool {
    c == ' ' || c == '\t' || c == '\n' || c == '\x0C' || c == '\r'
}

/// The words of `s` separated by ASCII whitespace, where `cur` is a word
/// already begun before `s`.
pub open spec fn text_words(s: Seq<char>, cur: Seq<char>) -> Seq<Seq<char>>
    decreases s.len(),
{
    if s.len() == 0 {
        finished(cur)
    } else if is_ascii_space_char(s[0]) {
        finished(cur) + text_words(s.drop_first(), Seq::empty())
    } else {
        text_words(s.drop_first(), cur.push(s[0]))
    }
}

pub open spec fn strings_view(v: Seq<String>) -> Seq<Seq<char>> {
    v.map_values(|w: String| w@)
}

/// Whether two texts hold the same characters.
pub fn same_text(a: &str, b: &str) -> (r: bool)
    ensures
        r == (a@ == b@),
{
    let n = a.unicode_len();
    if n != b.unicode_len() {
        return false;
    }
    let mut i: usize = 0;
    while i < n
        invariant
            n == a@.len(),
            n == b@.len(),
            i <= n,
            forall|k: int| 0 <= k < i ==> a@[k] == b@[k],
        decreases n - i,
    {
        if a.get_char(i) != b.get_char(i) {
            return false;
        }
        i = i + 1;
    }
    assert(a@ =~= b@);
    true
}

fn is_space_char(c: char) -> (r: bool)
    ensures
        r == is_ascii_space_char(c),
{
    c == ' ' || c == '\t' || c == '\n' || c == '\x0C' || c == '\r'
}

/// The words of `s` separated by ASCII whitespace, in order.
pub fn split_words(s: &str) -> (words: Vec<String>)
    ensures
        strings_view(words@) == text_words(s@, Seq::empty()),
{
    let n = s.unicode_len();
    let mut words: Vec<String> = Vec::new();
    let mut start: usize = 0;
    let mut i: usize = 0;
    assert(s@.subrange(0, n as int) =~= s@);
    assert(s@.subrange(0, 0) =~= Seq::<char>::empty());
    while i < n
        invariant
            n == s@.len(),
            start <= i <= n,
            text_words(s@, Seq::empty()) == strings_view(words@) + text_words(
                s@.subrange(i as int, n as int),
                s@.subrange(start as int, i as int),
            ),
        decreases n - i,
    {
        let c = s.get_char(i);
        let ghost rest = s@.subrange(i as int, n as int);
        let ghost next = s@.subrange(i + 1, n as int);
        let ghost c0 = s@.subrange(start as int, i as int);
        let ghost wv = strings_view(words@);
        assert(rest.drop_first() =~= next);
        assert(rest[0] == c);
        if is_space_char(c) {
            assert(text_words(rest, c0) == finished(c0) + text_words(next, Seq::empty()));
            assert(wv + (finished(c0) + text_words(next, Seq::empty())) =~= (wv + finished(c0))
                + text_words(next, Seq::empty()));
            if start < i {
                let w = s.substring_char(start, i).to_owned();
                words.push(w);
                assert(strings_view(words@) =~= wv + finished(c0));
            } else {
                assert(c0 =~= Seq::<char>::empty());
                assert(wv + finished(c0) =~= wv);
            }
            start = i + 1;
            assert(s@.subrange(start as int, i + 1) =~= Seq::<char>::empty());
        } else {
            assert(s@.subrange(start as int, i + 1) =~= c0.push(c));
        }
        i = i + 1;
    }
    if start < n {
        let ghost wv = strings_view(words@);
        let w = s.substring_char(start, n).to_owned();
        words.push(w);
        assert(strings_view(words@) =~= wv + finished(s@.subrange(start as int, n as int)));
    } else {
        assert(s@.subrange(start as int, n as int) =~= Seq::<char>::empty());
    }
    words
}

} // verus!
