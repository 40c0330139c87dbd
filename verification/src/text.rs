//! Text helpers over `String` and `&str`, stated over their character views.

use vstd::prelude::*;

verus! {

/// `String::push`: appends one character.
#[verifier::external_body]
pub(crate) fn push_char(s: &mut String, c: char)
    ensures
        final(s)@ == old(s)@.push(c),
{
    s.push(c);
}

/// The characters of `s` other than `c`, in order.
pub open spec fn without_char(s: Seq<char>, c: char) -> Seq<char>
    decreases s.len(),
{
    if s.len() == 0 {
        Seq::empty()
    } else if s.last() == c {
        without_char(s.drop_last(), c)
    } else {
        without_char(s.drop_last(), c).push(s.last())
    }
}

/// A copy of `s` with every occurrence of `c` removed.
pub fn remove_char(s: &str, c: char) -> (res: String)
    ensures
        res@ == without_char(s@, c),
{
    let n = s.unicode_len();
    let mut res = String::new();
    let mut i: usize = 0;
    while i < n
        invariant
            n == s@.len(),
            i <= n,
            res@ == without_char(s@.take(i as int), c),
        decreases n - i,
    {
        let d = s.get_char(i);
        assert(s@.take(i + 1).drop_last() == s@.take(i as int));
        if d != c {
            push_char(&mut res, d);
        }
        i = i + 1;
    }
    assert(s@.take(n as int) == s@);
    res
}

/// `needle` occurs in `hay` at position `i`.
pub open spec fn occurs_at(hay: Seq<char>, needle: Seq<char>, i: int) -> bool {
    0 <= i && i + needle.len() <= hay.len() && hay.subrange(i, i + needle.len()) == needle
}

/// `needle` occurs somewhere in `hay` (`str::contains` on texts).
pub open spec fn contains_text(hay: Seq<char>, needle: Seq<char>) -> bool {
    exists|i: int| occurs_at(hay, needle, i)
}

/// Whether `needle` occurs at position `i` of `hay`.
fn matches_at(hay: &str, needle: &str, i: usize) -> (b: bool)
    requires
        i + needle@.len() <= hay@.len(),
        hay@.len() <= usize::MAX,
    ensures
        b == occurs_at(hay@, needle@, i as int),
{
    let m = needle.unicode_len();
    let mut j: usize = 0;
    while j < m
        invariant
            m == needle@.len(),
            i + m <= hay@.len(),
            hay@.len() <= usize::MAX,
            j <= m,
            forall|k: int| 0 <= k < j ==> hay@[i + k] == needle@[k],
        decreases m - j,
    {
        if hay.get_char(i + j) != needle.get_char(j) {
            assert(hay@.subrange(i as int, i + m)[j as int] != needle@[j as int]);
            return false;
        }
        j = j + 1;
    }
    assert(hay@.subrange(i as int, i + m) =~= needle@);
    true
}

/// Whether `needle` occurs in `hay`.
pub fn text_contains(hay: &str, needle: &str) -> (b: bool)
    ensures
        b == contains_text(hay@, needle@),
{
    let n = hay.unicode_len();
    let m = needle.unicode_len();
    if m > n {
        assert forall|i: int| !occurs_at(hay@, needle@, i) by {}
        return false;
    }
    if m == 0 {
        assert(hay@.subrange(0, 0) =~= needle@);
        assert(occurs_at(hay@, needle@, 0));
        return true;
    }
    let mut i: usize = 0;
    while i <= n - m
        invariant
            n == hay@.len(),
            m == needle@.len(),
            1 <= m <= n,
            i <= n - m + 1,
            forall|k: int| 0 <= k < i ==> !occurs_at(hay@, needle@, k),
        decreases n - i,
    {
        if matches_at(hay, needle, i) {
            return true;
        }
        i = i + 1;
    }
    assert forall|k: int| !occurs_at(hay@, needle@, k) by {
        if 0 <= k && k + m <= n {
            assert(k < i);
        }
    }
    false
}

/// `s` begins with `prefix`.
pub open spec fn has_prefix(s: Seq<char>, prefix: Seq<char>) -> bool {
    prefix.len() <= s.len() && s.take(prefix.len() as int) == prefix
}

/// `str::strip_prefix`: the rest of `s` after `prefix`, when `s` begins with it.
pub fn strip_prefix(s: &str, prefix: &str) -> (res: Option<String>)
    ensures
        res is Some <==> has_prefix(s@, prefix@),
        res matches Some(r) ==> r@ == s@.skip(prefix@.len() as int),
{
    let n = s.unicode_len();
    let m = prefix.unicode_len();
    if m > n {
        return None;
    }
    if !matches_at(s, prefix, 0) {
        assert(s@.subrange(0, m as int) == s@.take(m as int));
        return None;
    }
    assert(s@.subrange(0, m as int) == s@.take(m as int));
    let rest = s.substring_char(m, n);
    assert(s@.subrange(m as int, n as int) == s@.skip(m as int));
    Some(rest.to_owned())
}

/// A character with the Unicode `White_Space` property (PropList.txt):
/// tab to carriage return, space, next line, no-break space, ogham space
/// mark, the spaces from en quad to hair space, line and paragraph
/// separators, narrow no-break space, medium mathematical space and
/// ideographic space.
pub open spec fn spec_is_whitespace(c: char) -> bool {
    let n = c as int;
    ||| 0x09 <= n <= 0x0D
    ||| n == 0x20
    ||| n == 0x85
    ||| n == 0xA0
    ||| n == 0x1680
    ||| 0x2000 <= n <= 0x200A
    ||| n == 0x2028
    ||| n == 0x2029
    ||| n == 0x202F
    ||| n == 0x205F
    ||| n == 0x3000
}

/// `char::is_whitespace`. Claimed, as its documentation says: the answer is
/// whether the character has the `White_Space` property.
#[verifier::external_body]
pub(crate) fn is_whitespace(c: char) -> (b: bool)
    ensures
        b == spec_is_whitespace(c),
{
    c.is_whitespace()
}

/// `i` is the position of the first non-whitespace character of `s`.
pub open spec fn first_kept(s: Seq<char>, i: int) -> bool {
    0 <= i < s.len() && !spec_is_whitespace(s[i]) && (forall|j: int| 0 <= j < i ==> spec_is_whitespace(#[trigger] s[j]))
}

/// `i` is the position of the last non-whitespace character of `s`.
pub open spec fn last_kept(s: Seq<char>, i: int) -> bool {
    0 <= i < s.len() && !spec_is_whitespace(s[i]) && (forall|j: int| i < j < s.len() ==> spec_is_whitespace(#[trigger] s[j]))
}

/// Every character of the text is whitespace.
pub open spec fn all_whitespace(s: Seq<char>) -> bool {
    forall|i: int| 0 <= i < s.len() ==> spec_is_whitespace(#[trigger] s[i])
}

/// `s` without its leading and trailing whitespace, as `str::trim` documents.
pub open spec fn trimmed(s: Seq<char>) -> Seq<char> {
    if all_whitespace(s) {
        Seq::empty()
    } else {
        let first = choose|i: int| first_kept(s, i);
        let last = choose|i: int| last_kept(s, i);
        s.subrange(first, last + 1)
    }
}

/// A copy of `s` without leading and trailing whitespace.
pub fn trim(s: &str) -> (res: String)
    ensures
        res@ == trimmed(s@),
{
    let n = s.unicode_len();
    let mut start: usize = 0;
    while start < n && is_whitespace(s.get_char(start))
        invariant
            n == s@.len(),
            start <= n,
            forall|j: int| 0 <= j < start ==> spec_is_whitespace(#[trigger] s@[j]),
        decreases n - start,
    {
        start = start + 1;
    }
    if start == n {
        return String::new();
    }
    let mut end: usize = n;
    while end > start && is_whitespace(s.get_char(end - 1))
        invariant
            n == s@.len(),
            start < n,
            !spec_is_whitespace(s@[start as int]),
            start < end <= n,
            forall|j: int| end <= j < n ==> spec_is_whitespace(#[trigger] s@[j]),
        decreases end,
    {
        end = end - 1;
    }
    proof {
        assert(first_kept(s@, start as int));
        assert(last_kept(s@, end - 1));
        let first = choose|i: int| first_kept(s@, i);
        let last = choose|i: int| last_kept(s@, i);
        if first < start {
            assert(spec_is_whitespace(s@[first]));
        }
        if start < first {
            assert(spec_is_whitespace(s@[start as int]));
        }
        if last < end - 1 {
            assert(spec_is_whitespace(s@[end - 1]));
        }
        if end - 1 < last {
            assert(spec_is_whitespace(s@[last]));
        }
        assert(!all_whitespace(s@));
    }
    s.substring_char(start, end).to_owned()
}

/// What `str::to_lowercase` makes of a text (Unicode lowercase mapping).
pub uninterp spec fn spec_to_lowercase(s: Seq<char>) -> Seq<char>;

/// `str::to_lowercase`. Claimed: the result is the one named by
/// `spec_to_lowercase`.
#[verifier::external_body]
pub(crate) fn to_lowercase(s: &str) -> (res: String)
    ensures
        res@ == spec_to_lowercase(s@),
{
    s.to_lowercase()
}

/// Trimming ignores whitespace added around a text.
pub proof fn lemma_trimmed_ignores_padding(p: Seq<char>, s: Seq<char>, q: Seq<char>)
    requires
        all_whitespace(p),
        all_whitespace(q),
    ensures
        trimmed(p + s + q) == trimmed(s),
{
    let t = p + s + q;
    let n = p.len() as int;
    lemma_padded_chars(p, s, q);
    if all_whitespace(s) {
        assert forall|i: int| 0 <= i < t.len() implies spec_is_whitespace(#[trigger] t[i]) by {
            if i < n {
                assert(t[i] == p[i]);
            } else if i < n + s.len() {
                assert(t[i] == s[i - n]);
            } else {
                assert(t[i] == q[i - n - s.len()]);
            }
        }
    } else {
        let w = choose|i: int| 0 <= i < s.len() && !spec_is_whitespace(s[i]);
        lemma_first_kept_exists(s, w);
        lemma_last_kept_exists(s, w);
        let first = choose|i: int| first_kept(s, i);
        let last = choose|i: int| last_kept(s, i);
        lemma_padded_first(p, s, q, first);
        lemma_padded_last(p, s, q, last);
        assert(!all_whitespace(t)) by {
            assert(!spec_is_whitespace(t[n + first]));
        }
        let tfirst = choose|i: int| first_kept(t, i);
        let tlast = choose|i: int| last_kept(t, i);
        lemma_first_kept_unique(t, tfirst, n + first);
        lemma_last_kept_unique(t, tlast, n + last);
        assert(t.subrange(n + first, n + last + 1) =~= s.subrange(first, last + 1));
    }
}

/// The characters of a padded text: the padding, then the text.
proof fn lemma_padded_chars(p: Seq<char>, s: Seq<char>, q: Seq<char>)
    ensures
        forall|i: int| 0 <= i < s.len() ==> (p + s + q)[p.len() + i] == #[trigger] s[i],
        forall|i: int| 0 <= i < p.len() ==> (p + s + q)[i] == #[trigger] p[i],
        forall|i: int| 0 <= i < q.len() ==> (p + s + q)[p.len() + s.len() + i] == #[trigger] q[i],
{
}

/// The first non-whitespace character of a text is the first one of the
/// padded text.
proof fn lemma_padded_first(p: Seq<char>, s: Seq<char>, q: Seq<char>, first: int)
    requires
        all_whitespace(p),
        first_kept(s, first),
    ensures
        first_kept(p + s + q, p.len() + first),
{
    let t = p + s + q;
    let n = p.len() as int;
    lemma_padded_chars(p, s, q);
    assert forall|j: int| 0 <= j < n + first implies spec_is_whitespace(#[trigger] t[j]) by {
        if j < n {
            assert(t[j] == p[j]);
        } else {
            assert(t[j] == s[j - n]);
        }
    }
    assert(t[n + first] == s[first]);
}

/// The last non-whitespace character of a text is the last one of the
/// padded text.
proof fn lemma_padded_last(p: Seq<char>, s: Seq<char>, q: Seq<char>, last: int)
    requires
        all_whitespace(q),
        last_kept(s, last),
    ensures
        last_kept(p + s + q, p.len() + last),
{
    let t = p + s + q;
    let n = p.len() as int;
    lemma_padded_chars(p, s, q);
    assert forall|j: int| n + last < j < t.len() implies spec_is_whitespace(#[trigger] t[j]) by {
        if j < n + s.len() {
            assert(t[j] == s[j - n]);
        } else {
            assert(t[j] == q[j - n - s.len()]);
        }
    }
    assert(t[n + last] == s[last]);
}

/// There is only one first non-whitespace character.
proof fn lemma_first_kept_unique(s: Seq<char>, a: int, b: int)
    requires
        first_kept(s, a),
        first_kept(s, b),
    ensures
        a == b,
{
    if a < b {
        assert(spec_is_whitespace(s[a]));
    }
    if b < a {
        assert(spec_is_whitespace(s[b]));
    }
}

/// There is only one last non-whitespace character.
proof fn lemma_last_kept_unique(s: Seq<char>, a: int, b: int)
    requires
        last_kept(s, a),
        last_kept(s, b),
    ensures
        a == b,
{
    if a < b {
        assert(spec_is_whitespace(s[b]));
    }
    if b < a {
        assert(spec_is_whitespace(s[a]));
    }
}

/// A text with a non-whitespace character has a first one.
proof fn lemma_first_kept_exists(s: Seq<char>, w: int)
    requires
        0 <= w < s.len(),
        !spec_is_whitespace(s[w]),
    ensures
        exists|i: int| first_kept(s, i),
    decreases w,
{
    if forall|j: int| 0 <= j < w ==> spec_is_whitespace(#[trigger] s[j]) {
        assert(first_kept(s, w));
    } else {
        let v = choose|j: int| 0 <= j < w && !spec_is_whitespace(s[j]);
        lemma_first_kept_exists(s, v);
    }
}

/// A text with a non-whitespace character has a last one.
proof fn lemma_last_kept_exists(s: Seq<char>, w: int)
    requires
        0 <= w < s.len(),
        !spec_is_whitespace(s[w]),
    ensures
        exists|i: int| last_kept(s, i),
    decreases s.len() - w,
{
    if forall|j: int| w < j < s.len() ==> spec_is_whitespace(#[trigger] s[j]) {
        assert(last_kept(s, w));
    } else {
        let v = choose|j: int| w < j < s.len() && !spec_is_whitespace(s[j]);
        lemma_last_kept_exists(s, v);
    }
}

} // verus!
