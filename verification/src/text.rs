//! Helpers on strings: the characters of a string as a vector, and the
//! character classes of the standard library.
use vstd::prelude::*;

verus! {

/// Whether `c` has the Unicode `Alphabetic` property, as `char::is_alphabetic`
/// reports it.
pub uninterp spec fn alphabetic(c: char) -> bool;

/// Whether `c` is one of the whitespace characters of ASCII: the space, the
/// tab, the line feed, the vertical tab, the form feed or the carriage return.
pub open spec fn ascii_whitespace(c: char) -> bool {
    c == ' ' || ('\t' <= c && c <= '\r')
}

/// Whether a character `c` beyond ASCII has the Unicode `White_Space` property,
/// as `char::is_whitespace` reports it.
pub uninterp spec fn wide_whitespace(c: char) -> bool;

/// Whether `c` has the Unicode `White_Space` property, as `char::is_whitespace`
/// reports it: within ASCII the six characters of [`ascii_whitespace`], beyond
/// it what [`wide_whitespace`] names.
pub open spec fn whitespace(c: char) -> bool {
    if c <= '\x7f' {
        ascii_whitespace(c)
    } else {
        wide_whitespace(c)
    }
}

/// Calls `char::is_alphabetic`. Nothing is proved of the answer: it is given the
/// name [`alphabetic`].
#[verifier::external_body]
pub(crate) fn is_alphabetic(c: char) -> (r: bool)
    ensures
        r == alphabetic(c),
{
    c.is_alphabetic()
}

/// Calls `char::is_whitespace`. Nothing is proved of the answer. Within ASCII it
/// is claimed to be yes for the space and for the characters from the tab to
/// the carriage return, and for no other; beyond ASCII it is given the name
/// [`wide_whitespace`].
#[verifier::external_body]
pub(crate) fn is_whitespace(c: char) -> (r: bool)
    ensures
        c <= '\x7f' ==> r == ascii_whitespace(c),
        c > '\x7f' ==> r == wide_whitespace(c),
{
    c.is_whitespace()
}

/// The characters of `s`, in order.
pub fn chars_of(s: &str) -> (v: Vec<char>)
    ensures
        v@ == s@,
{
    let mut v: Vec<char> = Vec::new();
    for c in it: s.chars()
        invariant
            it.seq() == s@,
            v@ == it.seq().take(it.index() as int),
    {
        assert(it.seq().take(it.index() + 1) =~= it.seq().take(it.index() as int).push(c));
        v.push(c);
    }
    assert(s@.take(s@.len() as int) =~= s@);
    v
}

} // verus!

verus! {

/// The number of whitespace characters at the start of `s`.
pub open spec fn leading_space(s: Seq<char>) -> int
    decreases s.len(),
{
    if s.len() > 0 && whitespace(s[0]) {
        1 + leading_space(s.skip(1))
    } else {
        0
    }
}

/// The number of whitespace characters at the end of `s`.
pub open spec fn trailing_space(s: Seq<char>) -> int
    decreases s.len(),
{
    if s.len() > 0 && whitespace(s.last()) {
        1 + trailing_space(s.drop_last())
    } else {
        0
    }
}

/// `s` without the whitespace at its start and at its end.
pub open spec fn trimmed(s: Seq<char>) -> Seq<char> {
    let a = leading_space(s);
    if a >= s.len() {
        Seq::empty()
    } else {
        s.subrange(a, s.len() - trailing_space(s))
    }
}

/// The whitespace at the start of `s` ends at the first character that is none.
pub proof fn leading_space_is(s: Seq<char>, i: int)
    requires
        0 <= i <= s.len(),
        forall|j: int| 0 <= j < i ==> whitespace(#[trigger] s[j]),
        i < s.len() ==> !whitespace(s[i]),
    ensures
        leading_space(s) == i,
    decreases s.len(),
{
    if i > 0 {
        let rest = s.skip(1);
        assert(whitespace(s[0]));
        assert forall|j: int| 0 <= j < i - 1 implies whitespace(#[trigger] rest[j]) by {
            assert(rest[j] == s[j + 1]);
        }
        leading_space_is(rest, i - 1);
    }
}

/// The whitespace at the end of `s` starts behind the last character that is
/// none.
pub proof fn trailing_space_is(s: Seq<char>, t: int)
    requires
        0 <= t <= s.len(),
        forall|j: int| s.len() - t <= j < s.len() ==> whitespace(#[trigger] s[j]),
        t < s.len() ==> !whitespace(s[s.len() - t - 1]),
    ensures
        trailing_space(s) == t,
    decreases s.len(),
{
    if t > 0 {
        let rest = s.drop_last();
        assert(whitespace(s[s.len() - 1]));
        assert forall|j: int| rest.len() - (t - 1) <= j < rest.len() implies whitespace(
            #[trigger] rest[j],
        ) by {
            assert(rest[j] == s[j]);
        }
        trailing_space_is(rest, t - 1);
    }
}

/// `s` without the whitespace at its start and at its end.
pub fn trim(s: &str) -> (r: String)
    ensures
        r@ == trimmed(s@),
{
    let chars = chars_of(s);
    let n = chars.len();
    let mut a: usize = 0;
    let mut go = true;
    while go && a < n
        invariant
            n == chars.len(),
            a <= n,
            forall|j: int| 0 <= j < a ==> whitespace(#[trigger] chars[j]),
            !go ==> a < n && !whitespace(chars[a as int]),
        decreases n - a + (if go { 1int } else { 0int }),
    {
        if is_whitespace(chars[a]) {
            a += 1;
        } else {
            go = false;
        }
    }
    proof {
        leading_space_is(chars@, a as int);
    }
    if a == n {
        let r = String::from_str("");
        proof {
            reveal_strlit("");
            assert(r@ =~= Seq::<char>::empty());
        }
        return r;
    }
    let mut b: usize = n;
    let mut go = true;
    while go && b > a + 1
        invariant
            n == chars.len(),
            a < b <= n,
            !whitespace(chars[a as int]),
            forall|j: int| b <= j < n ==> whitespace(#[trigger] chars[j]),
            !go ==> !whitespace(chars[b - 1]),
        decreases b + (if go { 1int } else { 0int }),
    {
        if is_whitespace(chars[b - 1]) {
            b -= 1;
        } else {
            go = false;
        }
    }
    proof {
        trailing_space_is(chars@, n - b);
    }
    String::from_str(s.substring_char(a, b))
}

/// Whether every character of `s` is alphabetic.
pub open spec fn all_alphabetic(s: Seq<char>) -> bool {
    forall|i: int| 0 <= i < s.len() ==> alphabetic(#[trigger] s[i])
}

/// Whether every character of `s` is alphabetic.
pub fn is_all_alphabetic(s: &str) -> (r: bool)
    ensures
        r == all_alphabetic(s@),
{
    let chars = chars_of(s);
    let mut i: usize = 0;
    while i < chars.len()
        invariant
            i <= chars.len(),
            chars@ == s@,
            forall|j: int| 0 <= j < i ==> alphabetic(#[trigger] chars[j]),
        decreases chars.len() - i,
    {
        if !is_alphabetic(chars[i]) {
            assert(!alphabetic(s@[i as int]));
            return false;
        }
        i += 1;
    }
    true
}

} // verus!

verus! {

/// The characters of each of `strings`, in order.
pub open spec fn texts(strings: Seq<String>) -> Seq<Seq<char>> {
    Seq::new(strings.len(), |i: int| strings[i]@)
}

/// The place of the first `c` in `s`, or the length of `s` where it holds none.
pub open spec fn index_of(s: Seq<char>, c: char) -> int
    decreases s.len(),
{
    if s.len() == 0 {
        0
    } else if s[0] == c {
        0
    } else {
        1 + index_of(s.skip(1), c)
    }
}

/// The place of the first `c` in `s` is `k`, where no character before `k` is
/// `c` and the one at `k`, if there is one, is.
pub proof fn index_of_is(s: Seq<char>, c: char, k: int)
    requires
        0 <= k <= s.len(),
        forall|j: int| 0 <= j < k ==> s[j] != c,
        k < s.len() ==> s[k] == c,
    ensures
        index_of(s, c) == k,
    decreases s.len(),
{
    if k > 0 {
        let rest = s.skip(1);
        assert(s[0] != c);
        assert forall|j: int| 0 <= j < k - 1 implies rest[j] != c by {
            assert(rest[j] == s[j + 1]);
        }
        index_of_is(rest, c, k - 1);
    }
}

/// The pieces of `s` between the occurrences of `c`: one more than there are
/// occurrences, and empty where two occurrences touch or one stands at an end.
pub open spec fn split(s: Seq<char>, c: char) -> Seq<Seq<char>>
    decreases s.len(),
{
    let i = index_of(s, c);
    if 0 <= i < s.len() {
        seq![s.take(i)] + split(s.skip(i + 1), c)
    } else {
        seq![s]
    }
}

/// The pieces of `s` between the occurrences of `c`.
pub fn split_on(s: &str, c: char) -> (r: Vec<String>)
    ensures
        texts(r@) == split(s@, c),
{
    let chars = chars_of(s);
    let n = chars.len();
    let mut parts: Vec<String> = Vec::new();
    let mut a: usize = 0;
    let mut i: usize = 0;
    assert(s@.skip(0) =~= s@);
    assert(texts(parts@) =~= Seq::<Seq<char>>::empty());
    while i < n
        invariant
            n == chars.len(),
            chars@ == s@,
            a <= i <= n,
            forall|j: int| a <= j < i ==> chars[j] != c,
            split(s@, c) == texts(parts@) + split(s@.skip(a as int), c),
        decreases n - i,
    {
        if chars[i] == c {
            let ghost rest = s@.skip(a as int);
            proof {
                assert forall|j: int| 0 <= j < i - a implies rest[j] != c by {
                    assert(rest[j] == chars[a + j]);
                }
                index_of_is(rest, c, i - a);
                assert(rest.take(i - a) =~= s@.subrange(a as int, i as int));
                assert(rest.skip(i - a + 1) =~= s@.skip(i + 1));
            }
            let ghost before = texts(parts@);
            let piece = String::from_str(s.substring_char(a, i));
            parts.push(piece);
            assert(texts(parts@) =~= before + seq![rest.take(i - a)]);
            assert(before + (seq![rest.take(i - a)] + split(s@.skip(i + 1), c)) =~= texts(parts@)
                + split(s@.skip(i + 1), c));
            a = i + 1;
        }
        i += 1;
    }
    let ghost rest = s@.skip(a as int);
    proof {
        assert forall|j: int| 0 <= j < n - a implies rest[j] != c by {
            assert(rest[j] == chars[a + j]);
        }
        index_of_is(rest, c, n - a);
        assert(rest =~= s@.subrange(a as int, n as int));
    }
    let ghost before = texts(parts@);
    parts.push(String::from_str(s.substring_char(a, n)));
    assert(texts(parts@) =~= before + seq![rest]);
    parts
}

/// Whether `s` starts with `prefix`.
pub fn starts_with(s: &str, prefix: &str) -> (r: bool)
    ensures
        r == prefix@.is_prefix_of(s@),
{
    let a = chars_of(s);
    let b = chars_of(prefix);
    if b.len() > a.len() {
        return false;
    }
    let mut i: usize = 0;
    while i < b.len()
        invariant
            i <= b.len() <= a.len(),
            a@ == s@,
            b@ == prefix@,
            forall|j: int| 0 <= j < i ==> a[j] == b[j],
        decreases b.len() - i,
    {
        if a[i] != b[i] {
            assert(s@.subrange(0, prefix@.len() as int)[i as int] != prefix@[i as int]);
            return false;
        }
        i += 1;
    }
    assert(prefix@ =~= s@.subrange(0, prefix@.len() as int));
    true
}

/// Whether `s` ends with `suffix`.
pub fn ends_with(s: &str, suffix: &str) -> (r: bool)
    ensures
        r == suffix@.is_suffix_of(s@),
{
    let a = chars_of(s);
    let b = chars_of(suffix);
    if b.len() > a.len() {
        return false;
    }
    let d = a.len() - b.len();
    let mut i: usize = 0;
    while i < b.len()
        invariant
            i <= b.len() <= a.len(),
            d == a.len() - b.len(),
            a@ == s@,
            b@ == suffix@,
            forall|j: int| 0 <= j < i ==> a[d + j] == b[j],
        decreases b.len() - i,
    {
        if a[d + i] != b[i] {
            assert(s@.subrange(s@.len() - suffix@.len(), s@.len() as int)[i as int] != suffix@[i as int]);
            return false;
        }
        i += 1;
    }
    assert(suffix@ =~= s@.subrange(s@.len() - suffix@.len(), s@.len() as int));
    true
}

} // verus!
