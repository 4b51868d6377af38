//! Where notifications go: absolute URLs.

use vstd::prelude::*;
use vstd::string::StrSliceExecFns;

verus! {

/// An ASCII letter.
pub open spec fn is_letter(c: char) -> bool {
    ('a' <= c && c <= 'z') || ('A' <= c && c <= 'Z')
}

/// A character of a scheme after its first: a letter, a digit, `+`, `-` or `.`.
pub open spec fn is_scheme_char(c: char) -> bool {
    is_letter(c) || ('0' <= c && c <= '9') || c == '+' || c == '-' || c == '.'
}

/// A character that may occur in a URL: visible ASCII, so no blank and no
/// control character.
pub open spec fn is_url_char(c: char) -> bool {
    '!' <= c && c <= '~'
}

/// The first `n` characters of `s` are a scheme, `://` follows, and after it
/// an authority begins: at least one character that opens neither a path nor
/// a query nor a fragment.
pub open spec fn scheme_ends_at(s: Seq<char>, n: int) -> bool {
    &&& 0 < n
    &&& n + 3 < s.len()
    &&& is_letter(s[0])
    &&& forall|i: int| 0 < i < n ==> is_scheme_char(#[trigger] s[i])
    &&& s[n] == ':'
    &&& s[n + 1] == '/'
    &&& s[n + 2] == '/'
    &&& s[n + 3] != '/'
    &&& s[n + 3] != '?'
    &&& s[n + 3] != '#'
}

/// An absolute URL: a scheme, `://`, a non-empty authority and whatever
/// follows, all in visible ASCII.
pub open spec fn spec_is_absolute_url(s: Seq<char>) -> bool {
    &&& forall|i: int| 0 <= i < s.len() ==> is_url_char(#[trigger] s[i])
    &&& exists|n: int| scheme_ends_at(s, n)
}

fn letter(c: char) -> (yes: bool)
    ensures
        yes == is_letter(c),
{
    (c >= 'a' && c <= 'z') || (c >= 'A' && c <= 'Z')
}

fn scheme_char(c: char) -> (yes: bool)
    ensures
        yes == is_scheme_char(c),
{
    letter(c) || (c >= '0' && c <= '9') || c == '+' || c == '-' || c == '.'
}

/// Whether `url` is an absolute URL.
pub fn is_absolute_url(url: &str) -> (yes: bool)
    ensures
        yes == spec_is_absolute_url(url@),
{
    let len: usize = url.unicode_len();
    let mut i: usize = 0;
    while i < len
        invariant
            len == url@.len(),
            i <= len,
            forall|j: int| 0 <= j < i ==> is_url_char(#[trigger] url@[j]),
        decreases len - i,
    {
        let c = url.get_char(i);
        if !(c >= '!' && c <= '~') {
            return false;
        }
        i += 1;
    }
    let mut n: usize = 0;
    while n < len && url.get_char(n) != ':'
        invariant
            len == url@.len(),
            n <= len,
            forall|j: int| 0 <= j < n ==> url@[j] != ':',
            n > 0 ==> is_letter(url@[0]),
            forall|j: int| 0 < j < n ==> is_scheme_char(#[trigger] url@[j]),
        decreases len - n,
    {
        let c = url.get_char(n);
        let fits = if n == 0 {
            letter(c)
        } else {
            scheme_char(c)
        };
        if !fits {
            assert forall|m: int| !scheme_ends_at(url@, m) by {
                if scheme_ends_at(url@, m) {
                    if m <= n {
                        assert(url@[m] == ':');
                    } else {
                        assert(n > 0 ==> is_scheme_char(url@[n as int]));
                    }
                }
            }
            return false;
        }
        n += 1;
    }
    if n == 0 || len - n <= 3 {
        assert forall|m: int| !scheme_ends_at(url@, m) by {
            if scheme_ends_at(url@, m) {
                if m < n {
                    assert(url@[m] == ':');
                } else if m > n {
                    assert(url@[n as int] == ':');
                    assert(n > 0 ==> is_scheme_char(url@[n as int]));
                }
            }
        }
        return false;
    }
    let slash_a = url.get_char(n + 1);
    let slash_b = url.get_char(n + 2);
    let first = url.get_char(n + 3);
    let yes = slash_a == '/' && slash_b == '/' && first != '/' && first != '?' && first != '#';
    proof {
        if yes {
            assert(scheme_ends_at(url@, n as int));
        } else {
            assert forall|m: int| !scheme_ends_at(url@, m) by {
                if scheme_ends_at(url@, m) {
                    if m < n {
                        assert(url@[m] == ':');
                    } else if m > n {
                        assert(is_scheme_char(url@[n as int]));
                    }
                }
            }
        }
    }
    yes
}

} // verus!
