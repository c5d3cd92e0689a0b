//! Domain extraction from a browser URL: strip the scheme, cut the host
//! at the first `/`, strip a trailing `:port`, and lowercase the rest.

use vstd::prelude::*;
use vstd::string::StrSliceExecFns;

verus! {

/// What `str::to_lowercase` returns; it depends on the characters alone.
pub uninterp spec fn lower_of(s: Seq<char>) -> Seq<char>;

/// What `str::trim` returns; it depends on the characters alone.
pub uninterp spec fn trim_of(s: Seq<char>) -> Seq<char>;

/// Relies on `str::to_lowercase`: the Unicode lowercase form of `s`.
#[verifier::external_body]
fn lowercase(s: &str) -> (r: String)
    ensures
        r@ == lower_of(s@),
{
    s.to_lowercase()
}

/// Relies on `str::trim`: `s` without leading and trailing whitespace.
#[verifier::external_body]
fn trim<'a>(s: &'a str) -> (r: &'a str)
    ensures
        r@ == trim_of(s@),
{
    s.trim()
}

/// The scheme separator `"://"` stands in `s` at position `i`.
pub open spec fn sep_at(s: Seq<char>, i: int) -> bool {
    0 <= i && i + 3 <= s.len() && s[i] == ':' && s[i + 1] == '/' && s[i + 2] == '/'
}

/// The position of the first `"://"` in `s`, if any.
pub open spec fn spec_find_sep(s: Seq<char>) -> Option<int>
    decreases s.len(),
{
    if s.len() >= 3 && s[0] == ':' && s[1] == '/' && s[2] == '/' {
        Some(0int)
    } else if s.len() == 0 {
        None
    } else {
        match spec_find_sep(s.skip(1)) {
            Some(i) => Some(i + 1),
            None => None,
        }
    }
}

/// The position of the first occurrence of `c` in `s`, if any.
pub open spec fn spec_find_char(s: Seq<char>, c: char) -> Option<int>
    decreases s.len(),
{
    if s.len() == 0 {
        None
    } else if s[0] == c {
        Some(0int)
    } else {
        match spec_find_char(s.skip(1), c) {
            Some(i) => Some(i + 1),
            None => None,
        }
    }
}

/// `spec_find_sep` returns the least position of `"://"`, and `None`
/// exactly when there is none.
pub proof fn lemma_find_sep_least(s: Seq<char>)
    ensures
        match spec_find_sep(s) {
            Some(i) => sep_at(s, i) && (forall|j: int| 0 <= j < i ==> !sep_at(s, j)),
            None => forall|j: int| !sep_at(s, j),
        },
    decreases s.len(),
{
    if s.len() >= 3 && s[0] == ':' && s[1] == '/' && s[2] == '/' {
    } else if s.len() == 0 {
    } else {
        lemma_find_sep_least(s.skip(1));
        assert forall|j: int| sep_at(s.skip(1), j) == sep_at(s, j + 1) by {
            if 0 <= j && j + 3 <= s.skip(1).len() {
                assert(s.skip(1)[j] == s[j + 1]);
                assert(s.skip(1)[j + 1] == s[j + 2]);
                assert(s.skip(1)[j + 2] == s[j + 3]);
            }
        }
        assert(!sep_at(s, 0));
        match spec_find_sep(s.skip(1)) {
            Some(i) => {
                assert(sep_at(s.skip(1), i) == sep_at(s, i + 1));
                assert forall|j: int| 0 <= j < i + 1 implies !sep_at(s, j) by {
                    if j > 0 {
                        assert(sep_at(s.skip(1), j - 1) == sep_at(s, j));
                    }
                }
            },
            None => {
                assert forall|j: int| !sep_at(s, j) by {
                    if j > 0 {
                        assert(sep_at(s.skip(1), j - 1) == sep_at(s, j));
                    }
                }
            },
        }
    }
}

/// `spec_find_char` returns the least position of `c`, and `None`
/// exactly when `c` does not occur.
pub proof fn lemma_find_char_least(s: Seq<char>, c: char)
    ensures
        match spec_find_char(s, c) {
            Some(i) => 0 <= i < s.len() && s[i] == c && (forall|j: int|
                0 <= j < i ==> s[j] != c),
            None => forall|j: int| 0 <= j < s.len() ==> s[j] != c,
        },
    decreases s.len(),
{
    if s.len() == 0 {
    } else if s[0] == c {
    } else {
        lemma_find_char_least(s.skip(1), c);
        assert forall|j: int| 0 <= j < s.skip(1).len() implies s.skip(1)[j] == s[j + 1] by {}
        match spec_find_char(s.skip(1), c) {
            Some(i) => {
                assert(s[i + 1] == s.skip(1)[i]);
                assert forall|j: int| 0 <= j < i + 1 implies s[j] != c by {
                    if j > 0 {
                        assert(s.skip(1)[j - 1] == s[j]);
                    }
                }
            },
            None => {
                assert forall|j: int| 0 <= j < s.len() implies s[j] != c by {
                    if j > 0 {
                        assert(s.skip(1)[j - 1] == s[j]);
                    }
                }
            },
        }
    }
}

/// If `"://"` first occurs at `i`, `spec_find_sep` returns `Some(i)`.
proof fn lemma_find_sep_is(s: Seq<char>, i: int)
    requires
        sep_at(s, i),
        forall|j: int| 0 <= j < i ==> !sep_at(s, j),
    ensures
        spec_find_sep(s) == Some(i),
{
    lemma_find_sep_least(s);
    match spec_find_sep(s) {
        Some(k) => {
            if k < i {
                assert(!sep_at(s, k));
            } else if k > i {
                assert(!sep_at(s, i));
            }
        },
        None => {
            assert(!sep_at(s, i));
        },
    }
}

/// If no `"://"` occurs, `spec_find_sep` returns `None`.
proof fn lemma_find_sep_absent(s: Seq<char>)
    requires
        forall|j: int| !sep_at(s, j),
    ensures
        spec_find_sep(s) is None,
{
    lemma_find_sep_least(s);
    match spec_find_sep(s) {
        Some(k) => {
            assert(!sep_at(s, k));
        },
        None => {},
    }
}

/// If `c` first occurs at `i`, `spec_find_char` returns `Some(i)`.
proof fn lemma_find_char_is(s: Seq<char>, c: char, i: int)
    requires
        0 <= i < s.len(),
        s[i] == c,
        forall|j: int| 0 <= j < i ==> s[j] != c,
    ensures
        spec_find_char(s, c) == Some(i),
{
    lemma_find_char_least(s, c);
    match spec_find_char(s, c) {
        Some(k) => {
            if k < i {
                assert(s[k] != c);
            } else if k > i {
                assert(s[i] != c);
            }
        },
        None => {
            assert(s[i] != c);
        },
    }
}

/// If `c` does not occur, `spec_find_char` returns `None`.
proof fn lemma_find_char_absent(s: Seq<char>, c: char)
    requires
        forall|j: int| 0 <= j < s.len() ==> s[j] != c,
    ensures
        spec_find_char(s, c) is None,
{
    lemma_find_char_least(s, c);
    match spec_find_char(s, c) {
        Some(k) => {
            assert(s[k] != c);
        },
        None => {},
    }
}

/// Scan for the first `"://"`.
fn find_sep(s: &str) -> (r: Option<usize>)
    ensures
        match r {
            Some(i) => spec_find_sep(s@) == Some(i as int),
            None => spec_find_sep(s@) is None,
        },
{
    let n = s.unicode_len();
    if n < 3 {
        proof {
            lemma_find_sep_absent(s@);
        }
        return None;
    }
    let mut i: usize = 0;
    while i <= n - 3
        invariant
            3 <= n == s@.len(),
            0 <= i <= n,
            forall|j: int| 0 <= j < i ==> !sep_at(s@, j),
        decreases n - i,
    {
        if s.get_char(i) == ':' && s.get_char(i + 1) == '/' && s.get_char(i + 2) == '/' {
            proof {
                lemma_find_sep_is(s@, i as int);
            }
            return Some(i);
        }
        i = i + 1;
    }
    proof {
        lemma_find_sep_absent(s@);
    }
    None
}

/// Scan for the first occurrence of `c`.
fn find_char(s: &str, c: char) -> (r: Option<usize>)
    ensures
        match r {
            Some(i) => spec_find_char(s@, c) == Some(i as int),
            None => spec_find_char(s@, c) is None,
        },
{
    let n = s.unicode_len();
    let mut i: usize = 0;
    while i < n
        invariant
            n == s@.len(),
            0 <= i <= n,
            forall|j: int| 0 <= j < i ==> s@[j] != c,
        decreases n - i,
    {
        if s.get_char(i) == c {
            proof {
                lemma_find_char_is(s@, c, i as int);
            }
            return Some(i);
        }
        i = i + 1;
    }
    proof {
        lemma_find_char_absent(s@, c);
    }
    None
}

/// The host segment of an already-trimmed URL: everything after the
/// first `"://"` (if any), cut at the first `/`, with a trailing
/// `:`-separated port removed.
pub open spec fn spec_host(t: Seq<char>) -> Seq<char> {
    let after = match spec_find_sep(t) {
        Some(i) => t.skip(i + 3),
        None => t,
    };
    let no_path = match spec_find_char(after, '/') {
        Some(i) => after.take(i),
        None => after,
    };
    match spec_find_char(no_path, ':') {
        Some(i) => no_path.take(i),
        None => no_path,
    }
}

/// The domain of a URL: the lowercase host of the trimmed URL, or
/// `None` when that host is empty.
pub open spec fn spec_domain(url: Seq<char>) -> Option<Seq<char>> {
    let host = spec_host(trim_of(url));
    if host.len() == 0 {
        None
    } else {
        Some(lower_of(host))
    }
}

/// Extract the domain from a URL.
pub fn extract_domain(url: &str) -> (r: Option<String>)
    ensures
        r.deep_view() == spec_domain(url@),
{
    let t = trim(url);
    let tn = t.unicode_len();
    let after: &str = match find_sep(t) {
        Some(i) => {
            proof {
                lemma_find_sep_least(t@);
            }
            t.substring_char(i + 3, tn)
        },
        None => t,
    };
    proof {
        assert(after@ =~= (match spec_find_sep(t@) {
            Some(i) => t@.skip(i + 3),
            None => t@,
        }));
    }
    let an = after.unicode_len();
    let no_path: &str = match find_char(after, '/') {
        Some(i) => {
            proof {
                lemma_find_char_least(after@, '/');
            }
            after.substring_char(0, i)
        },
        None => after,
    };
    proof {
        assert(no_path@ =~= (match spec_find_char(after@, '/') {
            Some(i) => after@.take(i),
            None => after@,
        }));
    }
    let host: &str = match find_char(no_path, ':') {
        Some(i) => {
            proof {
                lemma_find_char_least(no_path@, ':');
            }
            no_path.substring_char(0, i)
        },
        None => no_path,
    };
    proof {
        assert(host@ =~= spec_host(trim_of(url@)));
    }
    if host.unicode_len() == 0 {
        None
    } else {
        Some(lowercase(host))
    }
}

} // verus!
