//! Character-level helpers for dotted property names.
//!
//! Everything here is stated over `Seq<char>`, the view of `str` and
//! `String`, and implemented on the characters of the string.

use vstd::prelude::*;
use vstd::string::StringSliceAdditionalSpecFns;
use vstd::utf8::encode_utf8_decode_utf8;

verus! {

/// The views of a list of owned names.
pub open spec fn names_view(names: Seq<String>) -> Seq<Seq<char>> {
    names.map_values(|s: String| s@)
}

/// `token` stands in `s` at position `at`.
pub open spec fn token_at(s: Seq<char>, token: Seq<char>, at: int) -> bool {
    &&& 0 <= at
    &&& at + token.len() <= s.len()
    &&& s.subrange(at, at + token.len()) =~= token
}

/// `token` occurs somewhere in `s` as a contiguous run of characters.
pub open spec fn has_token(s: Seq<char>, token: Seq<char>) -> bool {
    exists|at: int| token_at(s, token, at)
}

/// Position of the first `'.'` in `s`, or `s.len()` when there is none.
pub open spec fn first_dot(s: Seq<char>) -> int
    decreases s.len(),
{
    if s.len() == 0 || s[0] == '.' {
        0
    } else {
        1 + first_dot(s.drop_first())
    }
}

/// What is left of `s` behind its first `'.'`; empty when `s` has no dot.
pub open spec fn after_first_dot(s: Seq<char>) -> Seq<char> {
    if first_dot(s) < s.len() {
        s.subrange(first_dot(s) + 1, s.len() as int)
    } else {
        Seq::empty()
    }
}

/// The part of `s` in front of its first `'.'`; all of `s` when it has no dot.
pub open spec fn first_segment(s: Seq<char>) -> Seq<char> {
    s.take(first_dot(s))
}

/// `first_dot` is in range, no dot stands before it, and a dot stands at it
/// unless it is the length.
pub proof fn lemma_first_dot(s: Seq<char>)
    ensures
        0 <= first_dot(s) <= s.len(),
        forall|j: int| 0 <= j < first_dot(s) ==> s[j] != '.',
        first_dot(s) < s.len() ==> s[first_dot(s)] == '.',
    decreases s.len(),
{
    if s.len() == 0 || s[0] == '.' {
    } else {
        let rest = s.drop_first();
        lemma_first_dot(rest);
        assert forall|j: int| 0 <= j < first_dot(s) implies s[j] != '.' by {
            if j > 0 {
                assert(s[j] == rest[j - 1]);
            }
        }
        if first_dot(s) < s.len() {
            assert(s[first_dot(s)] == rest[first_dot(rest)]);
        }
    }
}

/// Any position with the three properties of `lemma_first_dot` is `first_dot`.
pub proof fn lemma_first_dot_unique(s: Seq<char>, d: int)
    requires
        0 <= d <= s.len(),
        forall|j: int| 0 <= j < d ==> s[j] != '.',
        d < s.len() ==> s[d] == '.',
    ensures
        d == first_dot(s),
{
    lemma_first_dot(s);
    let e = first_dot(s);
    if d < e {
        assert(s[d] != '.');
    } else if e < d {
        assert(s[e] != '.');
    }
}

/// The characters of `s`, in order.
pub fn chars_of(s: &str) -> (v: Vec<char>)
    ensures
        v@ == s@,
{
    let mut v: Vec<char> = Vec::new();
    for c in it: s.chars()
        invariant
            v@ == it.seq().take(it.index() as int),
    {
        v.push(c);
    }
    v
}

/// Whether two strings hold the same characters.
pub fn str_eq(a: &str, b: &str) -> (r: bool)
    ensures
        r == (a@ == b@),
{
    let x = a.as_bytes();
    let y = b.as_bytes();
    proof {
        // The encoding can be decoded again, so equal bytes mean equal characters.
        encode_utf8_decode_utf8(a@);
        encode_utf8_decode_utf8(b@);
    }
    if x.len() != y.len() {
        return false;
    }
    let mut i: usize = 0;
    while i < x.len()
        invariant
            i <= x.len(),
            x.len() == y.len(),
            x@ == a.spec_bytes(),
            y@ == b.spec_bytes(),
            forall|j: int| 0 <= j < i ==> x@[j] == y@[j],
        decreases x.len() - i,
    {
        if x[i] != y[i] {
            return false;
        }
        i += 1;
    }
    assert(x@ =~= y@);
    true
}

/// Whether `name` is one of `names`.
pub fn names_contain(names: &Vec<String>, name: &str) -> (r: bool)
    ensures
        r == names_view(names@).contains(name@),
{
    let mut i: usize = 0;
    while i < names.len()
        invariant
            i <= names.len(),
            forall|j: int| 0 <= j < i ==> names_view(names@)[j] != name@,
        decreases names.len() - i,
    {
        if str_eq(names[i].as_str(), name) {
            assert(names_view(names@)[i as int] == name@);
            return true;
        }
        i += 1;
    }
    false
}

/// Position of the first `'.'` among `chars`, or their number when there is none.
pub fn first_dot_of(chars: &Vec<char>) -> (d: usize)
    ensures
        d == first_dot(chars@),
{
    let mut d: usize = 0;
    while d < chars.len() && chars[d] != '.'
        invariant
            d <= chars.len(),
            forall|j: int| 0 <= j < d ==> chars@[j] != '.',
        decreases chars.len() - d,
    {
        d += 1;
    }
    proof {
        lemma_first_dot_unique(chars@, d as int);
    }
    d
}

/// Whether `token` occurs among the first `end` of `chars`.
pub fn chars_have_token(chars: &Vec<char>, end: usize, token: &str) -> (r: bool)
    requires
        end <= chars.len(),
    ensures
        r == has_token(chars@.take(end as int), token@),
{
    let t = chars_of(token);
    let n = t.len();
    let ghost s = chars@.take(end as int);
    if n > end {
        return false;
    }
    let mut at: usize = 0;
    while at <= end - n
        invariant
            n <= end <= chars.len(),
            n == t.len(),
            t@ == token@,
            s == chars@.take(end as int),
            at <= end - n + 1,
            forall|k: int| 0 <= k < at ==> !token_at(s, t@, k),
        decreases end - n + 1 - at,
    {
        let mut j: usize = 0;
        while j < n && chars[at + j] == t[j]
            invariant
                at + n <= end <= chars.len(),
                n == t.len(),
                j <= n,
                forall|m: int| 0 <= m < j ==> chars@[at + m] == t@[m],
            decreases n - j,
        {
            j += 1;
        }
        if j == n {
            assert(s.subrange(at as int, at + n) =~= t@);
            assert(token_at(s, t@, at as int));
            return true;
        }
        assert(!token_at(s, t@, at as int)) by {
            if token_at(s, t@, at as int) {
                assert(s.subrange(at as int, at + n)[j as int] == t@[j as int]);
            }
        }
        at += 1;
    }
    assert forall|k: int| !token_at(s, t@, k) by {
        if token_at(s, t@, k) {
            assert(k < at);
        }
    }
    false
}

} // verus!
