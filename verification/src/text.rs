//! Character-level text tools: trimming, searching and splitting, stated over
//! `Seq<char>`, the view of `str` and `String`.

use vstd::prelude::*;
use vstd::string::*;

verus! {

/// Whether `c` has the Unicode property `White_Space`: the space, the
/// controls from U+0009 to U+000D, and nineteen further separators.
pub open spec fn white_space(c: char) -> bool {
    let u = c as u32;
    ||| 0x09 <= u <= 0x0D
    ||| u == 0x20
    ||| u == 0x85
    ||| u == 0xA0
    ||| u == 0x1680
    ||| 0x2000 <= u <= 0x200A
    ||| u == 0x2028
    ||| u == 0x2029
    ||| u == 0x202F
    ||| u == 0x205F
    ||| u == 0x3000
}

/// The lowercase form of `s`, as `str::to_lowercase` computes it.
pub uninterp spec fn lowercased(s: Seq<char>) -> Seq<char>;

/// `char::is_whitespace`: whether the character has the Unicode property
/// `White_Space`, which `white_space` writes out.
pub assume_specification[ char::is_whitespace ](c: char) -> (b: bool)
    ensures
        b == white_space(c),
;

/// `str::to_lowercase`: the new string is the lowercase form of the argument.
pub assume_specification[ str::to_lowercase ](s: &str) -> (r: String)
    ensures
        r@ == lowercased(s@),
;

/// `String::push`: the character is appended at the end.
pub assume_specification[ String::push ](s: &mut String, c: char)
    ensures
        final(s)@ == old(s)@.push(c),
;

/// `str == str`: two string slices are equal when they hold the same characters.
pub assume_specification[ <str as PartialEq<str>>::eq ](a: &str, b: &str) -> (r: bool)
    ensures
        r == (a@ == b@),
;

/// The number of white-space characters at the start of `s`.
pub open spec fn leading_spaces(s: Seq<char>) -> nat
    decreases s.len(),
{
    if s.len() > 0 && white_space(s[0]) {
        1 + leading_spaces(s.drop_first())
    } else {
        0
    }
}

/// The number of white-space characters at the end of `s`.
pub open spec fn trailing_spaces(s: Seq<char>) -> nat
    decreases s.len(),
{
    if s.len() > 0 && white_space(s.last()) {
        1 + trailing_spaces(s.drop_last())
    } else {
        0
    }
}

/// `s` without the white space at its start.
pub open spec fn trim_start(s: Seq<char>) -> Seq<char> {
    s.skip(leading_spaces(s) as int)
}

/// `s` without the white space at its end.
pub open spec fn trim_end(s: Seq<char>) -> Seq<char> {
    s.take(s.len() - trailing_spaces(s))
}

/// `s` without the white space at either end.
pub open spec fn trimmed(s: Seq<char>) -> Seq<char> {
    trim_end(trim_start(s))
}

/// The index of the first `c` in `s`, or `s.len()` where `s` holds none.
pub open spec fn position(s: Seq<char>, c: char) -> nat
    decreases s.len(),
{
    if s.len() > 0 && s[0] != c {
        1 + position(s.drop_first(), c)
    } else {
        0
    }
}

/// Whether `c` occurs in `s`.
pub open spec fn has_char(s: Seq<char>, c: char) -> bool {
    position(s, c) < s.len()
}

/// What stands before the first `c` in `s`; all of `s` where it holds none.
pub open spec fn before(s: Seq<char>, c: char) -> Seq<char> {
    s.take(position(s, c) as int)
}

/// What stands after the first `c` in `s`; nothing where it holds none.
pub open spec fn after(s: Seq<char>, c: char) -> Seq<char> {
    if has_char(s, c) {
        s.skip(position(s, c) as int + 1)
    } else {
        Seq::empty()
    }
}

/// Whether `s` begins with `prefix`.
pub open spec fn begins_with(s: Seq<char>, prefix: Seq<char>) -> bool {
    prefix.len() <= s.len() && s.take(prefix.len() as int) == prefix
}

/// The white space at the start of `s` ends inside `s` before a character
/// that is none, or with `s`.
pub proof fn lemma_leading_spaces(s: Seq<char>)
    ensures
        leading_spaces(s) <= s.len(),
        leading_spaces(s) < s.len() ==> !white_space(s[leading_spaces(s) as int]),
    decreases s.len(),
{
    if s.len() > 0 && white_space(s[0]) {
        let t = s.drop_first();
        lemma_leading_spaces(t);
        if leading_spaces(t) < t.len() {
            assert(s[leading_spaces(s) as int] == t[leading_spaces(t) as int]);
        }
    }
}

/// The white space at the end of `s` begins inside `s` after a character
/// that is none, or with `s`.
pub proof fn lemma_trailing_spaces(s: Seq<char>)
    ensures
        trailing_spaces(s) <= s.len(),
        trailing_spaces(s) < s.len() ==> !white_space(s[s.len() - 1 - trailing_spaces(s)]),
    decreases s.len(),
{
    if s.len() > 0 && white_space(s.last()) {
        let t = s.drop_last();
        lemma_trailing_spaces(t);
        if trailing_spaces(t) < t.len() {
            assert(s[s.len() - 1 - trailing_spaces(s)] == t[t.len() - 1 - trailing_spaces(t)]);
        }
    }
}

/// Trimmed text neither begins nor ends with white space.
pub proof fn lemma_trimmed_ends(s: Seq<char>)
    ensures
        trimmed(s).len() > 0 ==> !white_space(trimmed(s)[0]) && !white_space(trimmed(s).last()),
{
    lemma_leading_spaces(s);
    let m = trim_start(s);
    lemma_trailing_spaces(m);
    let t = trimmed(s);
    if t.len() > 0 {
        assert(m[0] == s[leading_spaces(s) as int]);
        assert(t[0] == m[0]);
        assert(t.last() == m[m.len() - 1 - trailing_spaces(m)]);
    }
}

/// Text that neither begins nor ends with white space is its own trimming.
pub proof fn lemma_trimmed_is_itself(s: Seq<char>)
    requires
        s.len() > 0 ==> !white_space(s[0]) && !white_space(s.last()),
    ensures
        trimmed(s) == s,
{
    assert(trim_start(s) =~= s);
    assert(trim_end(s) =~= s);
}

/// Trimming twice is trimming once.
pub proof fn lemma_trimmed_twice(s: Seq<char>)
    ensures
        trimmed(trimmed(s)) == trimmed(s),
{
    lemma_trimmed_ends(s);
    lemma_trimmed_is_itself(trimmed(s));
}

/// The first `c` stands at `position(s, c)`, and nowhere before it.
pub proof fn lemma_position(s: Seq<char>, c: char)
    ensures
        position(s, c) <= s.len(),
        position(s, c) < s.len() ==> s[position(s, c) as int] == c,
        forall|i: int| 0 <= i < position(s, c) ==> s[i] != c,
        !has_char(s, c) ==> before(s, c) == s,
        !before(s, c).contains(c),
    decreases s.len(),
{
    if s.len() > 0 && s[0] != c {
        let t = s.drop_first();
        lemma_position(t, c);
        assert forall|i: int| 0 <= i < position(s, c) implies s[i] != c by {
            if i > 0 {
                assert(s[i] == t[i - 1]);
            }
        }
    }
    assert(!has_char(s, c) ==> s.take(s.len() as int) =~= s);
}

/// `position(s, c)` is `at` where no `c` stands before `at` and one stands
/// there, or `s` ends there.
pub proof fn lemma_position_is(s: Seq<char>, c: char, at: int)
    requires
        0 <= at <= s.len(),
        forall|j: int| 0 <= j < at ==> s[j] != c,
        at < s.len() ==> s[at] == c,
    ensures
        position(s, c) == at,
{
    lemma_position(s, c);
}

/// Splitting `left + [c] + right` at its first `c` gives `left` and `right`
/// back, where `left` holds no `c`.
pub proof fn lemma_split_joined(left: Seq<char>, c: char, right: Seq<char>)
    requires
        !has_char(left, c),
    ensures
        has_char(left + seq![c] + right, c),
        before(left + seq![c] + right, c) == left,
        after(left + seq![c] + right, c) == right,
{
    let s = left + seq![c] + right;
    lemma_position(left, c);
    lemma_position_is(s, c, left.len() as int);
    assert(s.take(left.len() as int) =~= left);
    assert(s.skip(left.len() as int + 1) =~= right);
}

/// Whether two texts hold the same characters.
pub fn same_text(a: &str, b: &str) -> (r: bool)
    ensures
        r == (a@ == b@),
{
    a.eq(b)
}

/// The characters of `s`, in order.
pub fn chars_of(s: &str) -> (r: Vec<char>)
    ensures
        r@ == s@,
{
    let mut out: Vec<char> = Vec::new();
    for c in it: s.chars()
        invariant
            out@ == it.seq().take(it.index() as int),
            it.seq() == s@,
    {
        out.push(c);
    }
    out
}

/// The string made of the characters `v[from..to]`.
pub fn text_of(v: &Vec<char>, from: usize, to: usize) -> (r: String)
    requires
        from <= to <= v.len(),
    ensures
        r@ == v@.subrange(from as int, to as int),
{
    let mut out = String::new();
    let mut i: usize = from;
    while i < to
        invariant
            from <= i <= to <= v.len(),
            out@ == v@.subrange(from as int, i as int),
        decreases to - i,
    {
        out.push(v[i]);
        i += 1;
    }
    out
}

/// The bounds of `v` without the white space at either end: `v[from..to]` is
/// `trimmed(v)`.
pub fn trim_bounds(v: &Vec<char>, lo: usize, hi: usize) -> (r: (usize, usize))
    requires
        lo <= hi <= v.len(),
    ensures
        lo <= r.0 <= r.1 <= hi,
        v@.subrange(r.0 as int, r.1 as int) == trimmed(v@.subrange(lo as int, hi as int)),
{
    let ghost s = v@.subrange(lo as int, hi as int);
    let mut from: usize = lo;
    assert(s.skip(0) =~= s);
    while from < hi && v[from].is_whitespace()
        invariant
            lo <= from <= hi <= v.len(),
            s == v@.subrange(lo as int, hi as int),
            leading_spaces(s) == (from - lo) + leading_spaces(s.skip(from - lo)),
        decreases hi - from,
    {
        proof {
            let t = s.skip(from - lo);
            assert(t[0] == v@[from as int]);
            assert(t.drop_first() =~= s.skip(from - lo + 1));
        }
        from += 1;
    }
    proof {
        let t = s.skip(from - lo);
        if from < hi {
            assert(t[0] == v@[from as int]);
        }
        assert(leading_spaces(t) == 0);
    }
    let ghost m = trim_start(s);
    assert(m =~= v@.subrange(from as int, hi as int));
    let mut to: usize = hi;
    assert(m.take(hi - from) =~= m);
    while to > from && v[to - 1].is_whitespace()
        invariant
            from <= to <= hi <= v.len(),
            m == v@.subrange(from as int, hi as int),
            trailing_spaces(m) == (hi - to) + trailing_spaces(m.take(to - from)),
        decreases to - from,
    {
        proof {
            let t = m.take(to - from);
            assert(t.last() == v@[to - 1]);
            assert(t.drop_last() =~= m.take(to - from - 1));
        }
        to -= 1;
    }
    proof {
        let t = m.take(to - from);
        if to > from {
            assert(t.last() == v@[to - 1]);
        }
        assert(trailing_spaces(t) == 0);
        assert(trim_end(m) =~= v@.subrange(from as int, to as int));
    }
    (from, to)
}

/// The index of the first `c` in `v[lo..hi]`, counted from `lo`.
pub fn find_char(v: &Vec<char>, lo: usize, hi: usize, c: char) -> (r: usize)
    requires
        lo <= hi <= v.len(),
    ensures
        lo <= r <= hi,
        r - lo == position(v@.subrange(lo as int, hi as int), c),
{
    let ghost s = v@.subrange(lo as int, hi as int);
    let mut i: usize = lo;
    assert(s.skip(0) =~= s);
    while i < hi && v[i] != c
        invariant
            lo <= i <= hi <= v.len(),
            s == v@.subrange(lo as int, hi as int),
            position(s, c) == (i - lo) + position(s.skip(i - lo), c),
        decreases hi - i,
    {
        proof {
            let t = s.skip(i - lo);
            assert(t[0] == v@[i as int]);
            assert(t.drop_first() =~= s.skip(i - lo + 1));
        }
        i += 1;
    }
    proof {
        let t = s.skip(i - lo);
        if i < hi {
            assert(t[0] == v@[i as int]);
        }
        assert(position(t, c) == 0);
    }
    i
}

/// Splits `v[lo..hi]` at its first `c`: `v[lo..r.0]` stands before it and
/// `v[r.1..hi]` after it. Where there is no `c`, the first part is all of
/// `v[lo..hi]` and the second is empty.
pub fn split_first(v: &Vec<char>, lo: usize, hi: usize, c: char) -> (r: (usize, usize))
    requires
        lo <= hi <= v.len(),
    ensures
        lo <= r.0 <= r.1 <= hi,
        (r.0 < hi) == has_char(v@.subrange(lo as int, hi as int), c),
        v@.subrange(lo as int, r.0 as int) == before(v@.subrange(lo as int, hi as int), c),
        v@.subrange(r.1 as int, hi as int) == after(v@.subrange(lo as int, hi as int), c),
{
    let ghost s = v@.subrange(lo as int, hi as int);
    let mid = find_char(v, lo, hi, c);
    let next = if mid < hi {
        mid + 1
    } else {
        hi
    };
    assert(v@.subrange(lo as int, mid as int) =~= s.take(mid - lo));
    assert(v@.subrange(next as int, hi as int) =~= after(s, c));
    (mid, next)
}

/// Whether `v[lo..hi]` begins with the characters of `prefix`.
pub fn has_prefix(v: &Vec<char>, lo: usize, hi: usize, prefix: &Vec<char>) -> (r: bool)
    requires
        lo <= hi <= v.len(),
    ensures
        r == begins_with(v@.subrange(lo as int, hi as int), prefix@),
{
    let ghost s = v@.subrange(lo as int, hi as int);
    if prefix.len() > hi - lo {
        return false;
    }
    let mut i: usize = 0;
    while i < prefix.len()
        invariant
            lo <= hi <= v.len(),
            i <= prefix.len() <= hi - lo,
            s == v@.subrange(lo as int, hi as int),
            forall|j: int| 0 <= j < i ==> s[j] == prefix@[j],
        decreases prefix.len() - i,
    {
        if v[lo + i] != prefix[i] {
            proof {
                assert(s[i as int] == v@[lo + i]);
                assert(s.take(prefix@.len() as int)[i as int] != prefix@[i as int]);
            }
            return false;
        }
        assert(s[i as int] == v@[lo + i]);
        i += 1;
    }
    assert(s.take(prefix@.len() as int) =~= prefix@);
    true
}

} // verus!
