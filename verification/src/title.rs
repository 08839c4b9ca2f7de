//! Window titles and the tolerant comparison used to find a window again.
//!
//! Applications like to decorate their titles: a document name, a tab count
//! or a running number follows the application's own name after a dash. Two
//! titles are therefore compared by their *base*: what stands before the
//! first separator token, with every whitespace character removed.

use vstd::prelude::*;

verus! {

/// The dash in the middle of the separator token: U+2013 EN DASH.
pub const SEPARATOR_DASH: char = '\u{2013}';

/// Number of characters in the separator token: a space, the dash, a space.
pub const SEPARATOR_LEN: usize = 3;

/// Whether `c` has the Unicode property `White_Space`.
pub open spec fn whitespace(c: char) -> bool {
    let n = c as u32;
    ||| 0x09 <= n <= 0x0d
    ||| n == 0x20
    ||| n == 0x85
    ||| n == 0xa0
    ||| n == 0x1680
    ||| 0x2000 <= n <= 0x200a
    ||| n == 0x2028
    ||| n == 0x2029
    ||| n == 0x202f
    ||| n == 0x205f
    ||| n == 0x3000
}

/// Whether the separator token starts at index `i` of `s`.
pub open spec fn separator_at(s: Seq<char>, i: int) -> bool {
    &&& 0 <= i
    &&& i + SEPARATOR_LEN <= s.len()
    &&& s[i] == ' '
    &&& s[i + 1] == SEPARATOR_DASH
    &&& s[i + 2] == ' '
}

/// Whether the separator token occurs anywhere in `s`.
pub open spec fn has_separator(s: Seq<char>) -> bool {
    exists|i: int| separator_at(s, i)
}

/// `n` is where the base of `s` ends: the separator starts at `n` and
/// nowhere before it, or `n` is the length of `s` and `s` holds no separator.
pub open spec fn is_base_len(s: Seq<char>, n: int) -> bool {
    &&& 0 <= n <= s.len()
    &&& forall|i: int| 0 <= i < n ==> !separator_at(s, i)
    &&& n < s.len() ==> separator_at(s, n)
}

/// The length of the base of `s`: the one `n` with `is_base_len(s, n)`.
pub open spec fn base_len(s: Seq<char>) -> int {
    choose|n: int| is_base_len(s, n)
}

/// What stands before the first separator of `s`; all of `s` if it has none.
pub open spec fn base_title(s: Seq<char>) -> Seq<char> {
    s.subrange(0, base_len(s))
}

/// `s` without its whitespace characters, the others in their order.
pub open spec fn strip_whitespace(s: Seq<char>) -> Seq<char> {
    s.filter(|c: char| !whitespace(c))
}

/// The normalized base of a title: its base, stripped of whitespace.
pub open spec fn normalize(s: Seq<char>) -> Seq<char> {
    strip_whitespace(base_title(s))
}

/// Two titles match when their normalized bases are equal.
pub open spec fn titles_match_spec(a: Seq<char>, b: Seq<char>) -> bool {
    normalize(a) == normalize(b)
}

/// From `from` on, a scan for the separator ends somewhere.
proof fn lemma_base_len_from(s: Seq<char>, from: int)
    requires
        0 <= from <= s.len(),
        forall|i: int| 0 <= i < from ==> !separator_at(s, i),
    ensures
        exists|n: int| is_base_len(s, n),
    decreases s.len() - from,
{
    if from == s.len() || separator_at(s, from) {
        assert(is_base_len(s, from));
    } else {
        lemma_base_len_from(s, from + 1);
    }
}

/// Every title has exactly one base length.
pub proof fn lemma_base_len(s: Seq<char>)
    ensures
        is_base_len(s, base_len(s)),
        forall|n: int| is_base_len(s, n) ==> n == base_len(s),
{
    lemma_base_len_from(s, 0);
    let m = base_len(s);
    assert forall|n: int| is_base_len(s, n) implies n == m by {
        if n < m {
            assert(separator_at(s, n));
        } else if m < n {
            assert(separator_at(s, m));
        }
    }
}

/// Stripping one more character appends it unless it is whitespace.
proof fn lemma_strip_next(s: Seq<char>, i: int)
    requires
        0 <= i < s.len(),
    ensures
        strip_whitespace(s.subrange(0, i + 1)) == if whitespace(s[i]) {
            strip_whitespace(s.subrange(0, i))
        } else {
            strip_whitespace(s.subrange(0, i)).push(s[i])
        },
{
    reveal(Seq::filter);
    assert(s.subrange(0, i + 1).drop_last() =~= s.subrange(0, i));
}

/// Nothing that `strip_whitespace` keeps is whitespace.
pub proof fn lemma_strip_has_no_whitespace(s: Seq<char>)
    ensures
        forall|i: int|
            0 <= i < strip_whitespace(s).len() ==> !whitespace(#[trigger] strip_whitespace(s)[i]),
    decreases s.len(),
{
    reveal(Seq::filter);
    if s.len() > 0 {
        lemma_strip_has_no_whitespace(s.drop_last());
    }
}

/// A sequence without whitespace is left as it is.
pub proof fn lemma_strip_keeps_solid(s: Seq<char>)
    requires
        forall|i: int| 0 <= i < s.len() ==> !whitespace(#[trigger] s[i]),
    ensures
        strip_whitespace(s) == s,
    decreases s.len(),
{
    reveal(Seq::filter);
    if s.len() > 0 {
        lemma_strip_keeps_solid(s.drop_last());
        assert(s.drop_last().push(s.last()) =~= s);
    }
}

/// A title without a separator is its own base.
pub proof fn lemma_base_without_separator(s: Seq<char>)
    requires
        !has_separator(s),
    ensures
        base_title(s) == s,
        normalize(s) == strip_whitespace(s),
{
    lemma_base_len(s);
    assert(is_base_len(s, s.len() as int));
    assert(s.subrange(0, s.len() as int) =~= s);
}

/// Normalizing is idempotent: a normalized base is already normal.
pub proof fn lemma_normalize_idempotent(s: Seq<char>)
    ensures
        normalize(normalize(s)) == normalize(s),
{
    let t = normalize(s);
    lemma_strip_has_no_whitespace(base_title(s));
    assert(!has_separator(t)) by {
        assert forall|i: int| !separator_at(t, i) by {
            if 0 <= i && i + SEPARATOR_LEN <= t.len() {
                assert(!whitespace(t[i]));
            }
        }
    }
    lemma_base_without_separator(t);
    lemma_strip_keeps_solid(t);
}

/// A normalized base holds no whitespace and no separator.
pub proof fn lemma_normalize_is_solid(s: Seq<char>)
    ensures
        forall|i: int| 0 <= i < normalize(s).len() ==> !whitespace(#[trigger] normalize(s)[i]),
        !has_separator(normalize(s)),
{
    let t = normalize(s);
    lemma_strip_has_no_whitespace(base_title(s));
    assert forall|i: int| !separator_at(t, i) by {
        if 0 <= i && i + SEPARATOR_LEN <= t.len() {
            assert(!whitespace(t[i]));
        }
    }
}

/// Between titles that hold no separator, whitespace makes no difference:
/// if they agree once whitespace is removed, they have the same normalized
/// base.
pub proof fn lemma_whitespace_ignored_without_separator(a: Seq<char>, b: Seq<char>)
    requires
        !has_separator(a),
        !has_separator(b),
        strip_whitespace(a) == strip_whitespace(b),
    ensures
        normalize(a) == normalize(b),
        titles_match_spec(a, b),
{
    lemma_base_without_separator(a);
    lemma_base_without_separator(b);
}

/// What follows the first separator makes no difference: titles that are
/// alike up to their first separator, `n` characters in, have the same
/// normalized base.
pub proof fn lemma_same_base_same_normal(a: Seq<char>, b: Seq<char>, n: int)
    requires
        is_base_len(a, n),
        is_base_len(b, n),
        a.subrange(0, n) == b.subrange(0, n),
    ensures
        normalize(a) == normalize(b),
        titles_match_spec(a, b),
{
    lemma_base_len(a);
    lemma_base_len(b);
}

/// Matching is an equivalence: reflexive, symmetric and transitive.
pub proof fn lemma_titles_match_equivalence(a: Seq<char>, b: Seq<char>, c: Seq<char>)
    ensures
        titles_match_spec(a, a),
        titles_match_spec(a, b) == titles_match_spec(b, a),
        titles_match_spec(a, b) && titles_match_spec(b, c) ==> titles_match_spec(a, c),
{
}

/// Tells whether `c` is a whitespace character.
pub fn is_whitespace(c: char) -> (r: bool)
    ensures
        r == whitespace(c),
{
    let n: u32 = c as u32;
    (0x09 <= n && n <= 0x0d) || n == 0x20 || n == 0x85 || n == 0xa0 || n == 0x1680 || (0x2000 <= n
        && n <= 0x200a) || n == 0x2028 || n == 0x2029 || n == 0x202f || n == 0x205f || n == 0x3000
}

/// The characters of `s`, in a vector.
fn chars_of(s: &str) -> (chars: Vec<char>)
    ensures
        chars@ == s@,
{
    let mut chars: Vec<char> = Vec::new();
    for c in it: s.chars()
        invariant
            chars@ == it.seq().take(it.index() as int),
    {
        chars.push(c);
    }
    chars
}

/// Finds where the base of a title ends.
fn base_end(chars: &Vec<char>) -> (end: usize)
    ensures
        end as int == base_len(chars@),
        end <= chars.len(),
{
    let len = chars.len();
    let mut i: usize = 0;
    while i < len
        invariant
            len == chars.len(),
            i <= len,
            forall|j: int| 0 <= j < i ==> !separator_at(chars@, j),
        decreases len - i,
    {
        if len - i >= SEPARATOR_LEN && chars[i] == ' ' && chars[i + 1] == SEPARATOR_DASH && chars[i
            + 2] == ' ' {
            proof {
                lemma_base_len(chars@);
                assert(is_base_len(chars@, i as int));
            }
            return i;
        }
        i += 1;
    }
    proof {
        lemma_base_len(chars@);
        assert(is_base_len(chars@, len as int));
    }
    len
}

/// The normalized base of `title`: what stands before its first separator,
/// without whitespace.
pub fn normalize_title(title: &str) -> (base: String)
    ensures
        base@ == normalize(title@),
{
    let chars = chars_of(title);
    let end = base_end(&chars);
    let mut base = String::new();
    let mut i: usize = 0;
    assert(chars@.subrange(0, 0) =~= Seq::<char>::empty());
    assert(strip_whitespace(Seq::<char>::empty()) == Seq::<char>::empty()) by {
        reveal(Seq::filter);
    }
    while i < end
        invariant
            i <= end <= chars.len(),
            base@ == strip_whitespace(chars@.subrange(0, i as int)),
        decreases end - i,
    {
        let c = chars[i];
        proof {
            lemma_strip_next(chars@, i as int);
        }
        if !is_whitespace(c) {
            base.push(c);
        }
        i += 1;
    }
    base
}

/// Whether two titles have the same normalized base.
pub fn titles_match(a: &str, b: &str) -> (same: bool)
    ensures
        same == titles_match_spec(a@, b@),
{
    let left = normalize_title(a);
    let right = normalize_title(b);
    left == right
}

} // verus!
