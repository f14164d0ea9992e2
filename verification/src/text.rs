//! Character-level string utilities: ordering, searching, splitting,
//! joining and trimming, each specified over `Seq<char>` views.

use vstd::prelude::*;
use vstd::string::StringExecFns;
use vstd::string::StrSliceExecFns;

verus! {

/// Relies on `<str as PartialEq>::eq`: two string slices are equal exactly
/// when their character sequences are equal.
#[verifier::external_body]
pub fn str_eq(a: &str, b: &str) -> (r: bool)
    ensures
        r == (a@ == b@),
{
    a == b
}

/// Relies on `String::push`: appends the character to the end of the string.
#[verifier::external_body]
pub fn push_char(s: &mut String, c: char)
    ensures
        final(s)@ == old(s)@.push(c),
{
    s.push(c);
}

/// Strict lexicographic order on character sequences, by code point.
pub open spec fn chars_lt(a: Seq<char>, b: Seq<char>) -> bool
    decreases a.len(),
{
    if b.len() == 0 {
        false
    } else if a.len() == 0 {
        true
    } else if a[0] != b[0] {
        (a[0] as u32) < (b[0] as u32)
    } else {
        chars_lt(a.skip(1), b.skip(1))
    }
}

proof fn lemma_chars_lt_common_prefix(a: Seq<char>, b: Seq<char>, i: int)
    requires
        0 <= i <= a.len(),
        i <= b.len(),
        forall|j: int| 0 <= j < i ==> a[j] == b[j],
    ensures
        chars_lt(a, b) == chars_lt(a.skip(i), b.skip(i)),
    decreases i,
{
    if i == 0 {
        assert(a.skip(0) =~= a);
        assert(b.skip(0) =~= b);
    } else {
        assert(a[0] == b[0]);
        lemma_chars_lt_common_prefix(a.skip(1), b.skip(1), i - 1);
        assert(a.skip(1).skip(i - 1) =~= a.skip(i));
        assert(b.skip(1).skip(i - 1) =~= b.skip(i));
    }
}

pub proof fn lemma_chars_lt_connected(a: Seq<char>, b: Seq<char>)
    requires
        !chars_lt(a, b),
        !chars_lt(b, a),
    ensures
        a =~= b,
    decreases a.len(),
{
    if b.len() == 0 {
        if a.len() != 0 {
            assert(chars_lt(b, a));
        }
    } else if a.len() == 0 {
        assert(chars_lt(a, b));
    } else if a[0] != b[0] {
        if (a[0] as u32) < (b[0] as u32) {
            assert(chars_lt(a, b));
        } else {
            assert(a[0] as u32 != b[0] as u32) by {
                vstd::utf8::char_u32_cast(a[0], a[0] as u32);
                vstd::utf8::char_u32_cast(b[0], b[0] as u32);
            }
            assert((b[0] as u32) < (a[0] as u32));
            assert(chars_lt(b, a));
        }
    } else {
        lemma_chars_lt_connected(a.skip(1), b.skip(1));
        assert forall|j: int| 0 <= j < a.len() implies a[j] == b[j] by {
            if j >= 1 {
                assert(a[j] == a.skip(1)[j - 1]);
                assert(b[j] == b.skip(1)[j - 1]);
            }
        }
    }
}

/// Decides strict lexicographic order between two string slices.
pub fn str_lt(a: &str, b: &str) -> (r: bool)
    ensures
        r == chars_lt(a@, b@),
{
    let alen = a.unicode_len();
    let blen = b.unicode_len();
    let mut i: usize = 0;
    while i < alen && i < blen
        invariant
            0 <= i <= alen,
            i <= blen,
            alen == a@.len(),
            blen == b@.len(),
            forall|j: int| 0 <= j < i ==> a@[j] == b@[j],
        decreases alen - i,
    {
        let ca = a.get_char(i);
        let cb = b.get_char(i);
        if ca != cb {
            proof {
                lemma_chars_lt_common_prefix(a@, b@, i as int);
            }
            return (ca as u32) < (cb as u32);
        }
        i = i + 1;
    }
    proof {
        lemma_chars_lt_common_prefix(a@, b@, i as int);
    }
    i >= alen && i < blen
}

/// `p` occurs at the start of `s`.
pub open spec fn is_prefix(p: Seq<char>, s: Seq<char>) -> bool {
    p.len() <= s.len() && s.subrange(0, p.len() as int) == p
}

/// Decides whether `s` starts with `p`.
pub fn str_starts_with(s: &str, p: &str) -> (r: bool)
    ensures
        r == is_prefix(p@, s@),
{
    let plen = p.unicode_len();
    let slen = s.unicode_len();
    if plen > slen {
        return false;
    }
    let mut i: usize = 0;
    while i < plen
        invariant
            i <= plen,
            plen <= slen,
            plen == p@.len(),
            slen == s@.len(),
            forall|j: int| 0 <= j < i ==> s@[j] == p@[j],
        decreases plen - i,
    {
        if s.get_char(i) != p.get_char(i) {
            proof {
                if is_prefix(p@, s@) {
                    assert(s@.subrange(0, p@.len() as int)[i as int] == s@[i as int]);
                }
            }
            return false;
        }
        i = i + 1;
    }
    proof {
        assert(s@.subrange(0, p@.len() as int) =~= p@);
    }
    true
}

/// Finds the last occurrence of `c` in `s`.
pub fn rfind_char(s: &str, c: char) -> (r: Option<usize>)
    ensures
        match r {
            Some(i) => i < s@.len() && s@[i as int] == c && (forall|j: int|
                i < j < s@.len() ==> s@[j] != c),
            None => forall|j: int| 0 <= j < s@.len() ==> s@[j] != c,
        },
{
    let len = s.unicode_len();
    let mut i: usize = len;
    while i > 0
        invariant
            i <= len,
            len == s@.len(),
            forall|j: int| i <= j < len ==> s@[j] != c,
        decreases i,
    {
        i = i - 1;
        if s.get_char(i) == c {
            return Some(i);
        }
    }
    None
}

/// The parts joined by the separator, in order.
pub open spec fn spec_join(parts: Seq<Seq<char>>, sep: Seq<char>) -> Seq<char>
    decreases parts.len(),
{
    if parts.len() == 0 {
        Seq::empty()
    } else if parts.len() == 1 {
        parts[0]
    } else {
        parts[0] + sep + spec_join(parts.skip(1), sep)
    }
}

pub proof fn lemma_join_snoc(parts: Seq<Seq<char>>, x: Seq<char>, sep: Seq<char>)
    ensures
        spec_join(parts.push(x), sep) == if parts.len() == 0 {
            x
        } else {
            spec_join(parts, sep) + sep + x
        },
    decreases parts.len(),
{
    let p = parts.push(x);
    if parts.len() == 0 {
        assert(p.len() == 1);
        assert(p[0] == x);
    } else if parts.len() == 1 {
        assert(p.len() == 2);
        assert(p.skip(1) =~= seq![x]);
        assert(spec_join(p.skip(1), sep) == x);
        assert(spec_join(p, sep) == p[0] + sep + x);
        assert(p[0] == parts[0]);
        assert(spec_join(parts, sep) == parts[0]);
    } else {
        assert(p.skip(1) =~= parts.skip(1).push(x));
        lemma_join_snoc(parts.skip(1), x, sep);
        assert(spec_join(p, sep) == p[0] + sep + (spec_join(parts.skip(1), sep) + sep + x));
        assert(p[0] == parts[0]);
        assert(spec_join(parts, sep) == parts[0] + sep + spec_join(parts.skip(1), sep));
        assert(parts[0] + sep + (spec_join(parts.skip(1), sep) + sep + x) =~= (parts[0] + sep
            + spec_join(parts.skip(1), sep)) + sep + x);
    }
}

/// Joins the strings with the separator between consecutive elements.
pub fn join_strings(parts: &Vec<String>, sep: &str) -> (r: String)
    ensures
        r@ == spec_join(parts.deep_view(), sep@),
{
    let ghost pv = parts.deep_view();
    let mut acc = String::new();
    let mut i: usize = 0;
    proof {
        assert(pv.take(0) =~= Seq::<Seq<char>>::empty());
    }
    while i < parts.len()
        invariant
            i <= parts.len(),
            pv == parts.deep_view(),
            pv.len() == parts@.len(),
            acc@ == spec_join(pv.take(i as int), sep@),
        decreases parts.len() - i,
    {
        if i > 0 {
            acc.append(sep);
        }
        acc.append(parts[i].as_str());
        proof {
            assert(pv[i as int] == parts@[i as int]@);
            lemma_join_snoc(pv.take(i as int), pv[i as int], sep@);
            assert(pv.take(i as int).push(pv[i as int]) =~= pv.take(i + 1 as int));
            if i == 0 {
                assert(acc@ == pv[0]);
            } else {
                assert(acc@ =~= spec_join(pv.take(i as int), sep@) + sep@ + pv[i as int]);
            }
        }
        i = i + 1;
    }
    proof {
        assert(pv.take(parts@.len() as int) =~= pv);
    }
    acc
}

/// Index of the first occurrence of `c` in `s`, or `-1` when absent.
pub open spec fn first_index_of(s: Seq<char>, c: char) -> int
    decreases s.len(),
{
    if s.len() == 0 {
        -1
    } else if s[0] == c {
        0
    } else {
        let r = first_index_of(s.skip(1), c);
        if r < 0 {
            -1
        } else {
            r + 1
        }
    }
}

pub proof fn lemma_first_index_of(s: Seq<char>, c: char)
    ensures
        first_index_of(s, c) == -1 ==> forall|j: int| 0 <= j < s.len() ==> s[j] != c,
        first_index_of(s, c) != -1 ==> {
            let r = first_index_of(s, c);
            &&& 0 <= r < s.len()
            &&& s[r] == c
            &&& forall|j: int| 0 <= j < r ==> s[j] != c
        },
    decreases s.len(),
{
    if s.len() == 0 {
    } else if s[0] == c {
    } else {
        lemma_first_index_of(s.skip(1), c);
        assert(forall|j: int| 1 <= j < s.len() ==> s[j] == s.skip(1)[j - 1]);
    }
}

/// The maximal pieces of `s` between occurrences of the separator `c`.
pub open spec fn spec_split(s: Seq<char>, c: char) -> Seq<Seq<char>>
    decreases s.len(),
{
    let i = first_index_of(s, c);
    if 0 <= i < s.len() {
        seq![s.take(i)] + spec_split(s.skip(i + 1), c)
    } else {
        seq![s]
    }
}

/// Splits `s` on each occurrence of `c`.
pub fn split_char(s: &str, c: char) -> (r: Vec<String>)
    ensures
        r.deep_view() == spec_split(s@, c),
{
    let len = s.unicode_len();
    let mut out: Vec<String> = Vec::new();
    let mut start: usize = 0;
    let mut i: usize = 0;
    proof {
        assert(s@.skip(0) =~= s@);
        assert(out.deep_view() =~= Seq::<Seq<char>>::empty());
        assert(out.deep_view() + spec_split(s@.skip(0), c) =~= spec_split(s@, c));
    }
    while i < len
        invariant
            start <= i <= len,
            len == s@.len(),
            forall|j: int| start <= j < i ==> s@[j] != c,
            spec_split(s@, c) =~= out.deep_view() + spec_split(s@.skip(start as int), c),
        decreases len - i,
    {
        if s.get_char(i) == c {
            let word = String::from_str(s.substring_char(start, i));
            proof {
                let t = s@.skip(start as int);
                lemma_first_index_of(t, c);
                assert(forall|j: int| 0 <= j < i - start ==> t[j] == s@[j + start]);
                assert(t[i - start as int] == s@[i as int]);
                if first_index_of(t, c) == -1 {
                    assert(t[i - start as int] != c);
                }
                let r = first_index_of(t, c);
                assert(0 <= r < t.len());
                if r < i - start {
                    assert(t[r] == s@[r + start]);
                    assert(s@[r + start] != c);
                }
                if r > i - start {
                    assert(t[i - start as int] != c);
                }
                assert(r == i - start);
                assert(t.take(r) =~= s@.subrange(start as int, i as int));
                assert(t.skip(r + 1) =~= s@.skip(i + 1 as int));
                assert(spec_split(t, c) == seq![s@.subrange(start as int, i as int)]
                    + spec_split(s@.skip(i + 1 as int), c));
                assert(out.deep_view().push(word@) =~= out.deep_view() + seq![word@]);
                assert((out.deep_view() + seq![s@.subrange(start as int, i as int)]) + spec_split(
                    s@.skip(i + 1 as int), c) =~= out.deep_view() + (seq![s@.subrange(
                    start as int, i as int)] + spec_split(s@.skip(i + 1 as int), c)));
            }
            out.push(word);
            start = i + 1;
        }
        i = i + 1;
    }
    let word = String::from_str(s.substring_char(start, len));
    proof {
        let t = s@.skip(start as int);
        lemma_first_index_of(t, c);
        assert(forall|j: int| 0 <= j < t.len() ==> t[j] == s@[j + start]);
        let r = first_index_of(t, c);
        if 0 <= r < t.len() {
            assert(t[r] != c);
        }
        assert(spec_split(t, c) == seq![t]);
        assert(t =~= s@.subrange(start as int, len as int));
        assert(out.deep_view().push(word@) =~= out.deep_view() + seq![t]);
    }
    out.push(word);
    out
}

/// Names the result of `char::is_whitespace`: whether the character has the
/// Unicode `White_Space` property, a function of the character alone.
pub uninterp spec fn char_is_whitespace(c: char) -> bool;

/// Relies on `char::is_whitespace` from std.
pub assume_specification[ char::is_whitespace ](c: char) -> (r: bool)
    ensures
        r == char_is_whitespace(c),
;

/// `s` with leading whitespace removed.
pub open spec fn spec_trim_start(s: Seq<char>) -> Seq<char>
    decreases s.len(),
{
    if s.len() > 0 && char_is_whitespace(s[0]) {
        spec_trim_start(s.skip(1))
    } else {
        s
    }
}

/// `s` with trailing whitespace removed.
pub open spec fn spec_trim_end(s: Seq<char>) -> Seq<char>
    decreases s.len(),
{
    if s.len() > 0 && char_is_whitespace(s.last()) {
        spec_trim_end(s.take(s.len() - 1))
    } else {
        s
    }
}

/// `s` with leading and trailing whitespace removed.
pub open spec fn spec_trim(s: Seq<char>) -> Seq<char> {
    spec_trim_end(spec_trim_start(s))
}

proof fn lemma_trim_start_skip(s: Seq<char>, i: int)
    requires
        0 <= i <= s.len(),
        forall|j: int| 0 <= j < i ==> char_is_whitespace(s[j]),
    ensures
        spec_trim_start(s) == spec_trim_start(s.skip(i)),
    decreases i,
{
    if i == 0 {
        assert(s.skip(0) =~= s);
    } else {
        assert(spec_trim_start(s) == spec_trim_start(s.skip(1)));
        lemma_trim_start_skip(s.skip(1), i - 1);
        assert(s.skip(1).skip(i - 1) =~= s.skip(i));
    }
}

proof fn lemma_trim_end_take(s: Seq<char>, i: int)
    requires
        0 <= i <= s.len(),
        forall|j: int| i <= j < s.len() ==> char_is_whitespace(s[j]),
    ensures
        spec_trim_end(s) == spec_trim_end(s.take(i)),
    decreases s.len() - i,
{
    if i == s.len() {
        assert(s.take(i) =~= s);
    } else {
        assert(s.len() > 0 && char_is_whitespace(s.last()));
        assert(spec_trim_end(s) == spec_trim_end(s.take(s.len() - 1)));
        lemma_trim_end_take(s.take(s.len() - 1), i);
        assert(s.take(s.len() - 1).take(i) =~= s.take(i));
    }
}

/// `s` with surrounding whitespace removed, as `str::trim` gives it.
pub fn trim_str(s: &str) -> (r: String)
    ensures
        r@ == spec_trim(s@),
{
    let len = s.unicode_len();
    let mut lo: usize = 0;
    while lo < len && s.get_char(lo).is_whitespace()
        invariant
            lo <= len,
            len == s@.len(),
            forall|j: int| 0 <= j < lo ==> char_is_whitespace(s@[j]),
        decreases len - lo,
    {
        lo = lo + 1;
    }
    proof {
        lemma_trim_start_skip(s@, lo as int);
        if lo < len {
            assert(s@.skip(lo as int)[0] == s@[lo as int]);
        }
        assert(spec_trim_start(s@) == s@.skip(lo as int));
    }
    let mut hi: usize = len;
    while hi > lo && s.get_char(hi - 1).is_whitespace()
        invariant
            lo <= hi <= len,
            len == s@.len(),
            forall|j: int| hi <= j < len ==> char_is_whitespace(s@[j]),
        decreases hi,
    {
        hi = hi - 1;
    }
    let out = String::from_str(s.substring_char(lo, hi));
    proof {
        let t = s@.skip(lo as int);
        assert(forall|j: int| 0 <= j < t.len() ==> t[j] == s@[j + lo]);
        lemma_trim_end_take(t, hi - lo as int);
        let u = t.take(hi - lo as int);
        if hi > lo {
            assert(u.last() == s@[hi - 1 as int]);
            assert(!char_is_whitespace(u.last()));
        }
        assert(spec_trim_end(u) == u);
        assert(u =~= s@.subrange(lo as int, hi as int));
    }
    out
}

/// A character, substituted when it equals `from`.
pub open spec fn repl_char(c: char, from: char, to: char) -> char {
    if c == from {
        to
    } else {
        c
    }
}

/// `s` with every occurrence of `from` replaced by `to`.
pub open spec fn spec_replace(s: Seq<char>, from: char, to: char) -> Seq<char> {
    Seq::new(s.len(), |j: int| repl_char(s[j], from, to))
}

/// `s` with every occurrence of `from` replaced by `to`.
pub fn replace_char(s: &str, from: char, to: char) -> (r: String)
    ensures
        r@ == spec_replace(s@, from, to),
{
    let len = s.unicode_len();
    let mut acc = String::new();
    let mut i: usize = 0;
    while i < len
        invariant
            i <= len,
            len == s@.len(),
            acc@.len() == i,
            forall|j: int| 0 <= j < i ==> acc@[j] == repl_char(s@[j], from, to),
        decreases len - i,
    {
        let c = s.get_char(i);
        if c == from {
            push_char(&mut acc, to);
        } else {
            push_char(&mut acc, c);
        }
        i = i + 1;
    }
    proof {
        assert(acc@ =~= spec_replace(s@, from, to));
    }
    acc
}

/// Whether some element of `v` has exactly the characters of `s`.
pub fn contains_str(v: &Vec<String>, s: &str) -> (r: bool)
    ensures
        r == exists|j: int| 0 <= j < v.deep_view().len() && v.deep_view()[j] == s@,
{
    let mut i: usize = 0;
    while i < v.len()
        invariant
            i <= v.len(),
            v.deep_view().len() == v@.len(),
            forall|j: int| 0 <= j < i ==> v.deep_view()[j] != s@,
        decreases v.len() - i,
    {
        if str_eq(v[i].as_str(), s) {
            proof {
                assert(v.deep_view()[i as int] == s@);
            }
            return true;
        }
        i = i + 1;
    }
    false
}

pub proof fn lemma_chars_lt_transitive(a: Seq<char>, b: Seq<char>, c: Seq<char>)
    requires
        chars_lt(a, b),
        chars_lt(b, c),
    ensures
        chars_lt(a, c),
    decreases a.len(),
{
    if c.len() == 0 {
    } else if b.len() == 0 {
    } else if a.len() == 0 {
    } else {
        if a[0] == b[0] && b[0] == c[0] {
            lemma_chars_lt_transitive(a.skip(1), b.skip(1), c.skip(1));
        } else if a[0] == b[0] {
            assert((b[0] as u32) < (c[0] as u32));
            assert((a[0] as u32) == (b[0] as u32));
            assert(a[0] != c[0]) by {
                vstd::utf8::char_u32_cast(a[0], a[0] as u32);
                vstd::utf8::char_u32_cast(c[0], c[0] as u32);
            }
        } else if b[0] == c[0] {
            assert((a[0] as u32) < (b[0] as u32));
            assert(a[0] != c[0]) by {
                vstd::utf8::char_u32_cast(a[0], a[0] as u32);
                vstd::utf8::char_u32_cast(c[0], c[0] as u32);
            }
        } else {
            assert((a[0] as u32) < (b[0] as u32));
            assert((b[0] as u32) < (c[0] as u32));
            assert(a[0] != c[0]) by {
                vstd::utf8::char_u32_cast(a[0], a[0] as u32);
                vstd::utf8::char_u32_cast(c[0], c[0] as u32);
            }
        }
    }
}

/// A fresh vector with the same strings.
pub fn clone_strings(v: &Vec<String>) -> (r: Vec<String>)
    ensures
        r.deep_view() == v.deep_view(),
{
    let mut out: Vec<String> = Vec::new();
    let mut i: usize = 0;
    while i < v.len()
        invariant
            i <= v.len(),
            out@.len() == i as int,
            forall|j: int| 0 <= j < i ==> out@[j]@ == v@[j]@,
        decreases v.len() - i,
    {
        out.push(v[i].clone());
        i = i + 1;
    }
    proof {
        assert(out.deep_view() =~~= v.deep_view());
    }
    out
}

/// Every part occurs inside the joined text, as a contiguous range.
pub proof fn lemma_join_contains(parts: Seq<Seq<char>>, sep: Seq<char>, i: int)
    requires
        0 <= i < parts.len(),
    ensures
        exists|k: int|
            0 <= k && k + parts[i].len() <= spec_join(parts, sep).len() && #[trigger] spec_join(
                parts,
                sep,
            ).subrange(k, k + parts[i].len()) == parts[i],
    decreases parts.len(),
{
    let joined = spec_join(parts, sep);
    if parts.len() == 1 {
        assert(joined == parts[0]);
        assert(joined.subrange(0, parts[0].len() as int) =~= parts[0]);
        let k0: int = 0;
        assert(joined.subrange(k0, k0 + parts[i].len()) == parts[i]);
    } else if i == 0 {
        assert(joined == parts[0] + sep + spec_join(parts.skip(1), sep));
        assert(joined.subrange(0, parts[0].len() as int) =~= parts[0]);
        let k0: int = 0;
        assert(joined.subrange(k0, k0 + parts[i].len()) == parts[i]);
    } else {
        lemma_join_contains(parts.skip(1), sep, i - 1);
        let j2 = spec_join(parts.skip(1), sep);
        let k2 = choose|k: int|
            0 <= k && k + parts.skip(1)[i - 1].len() <= j2.len() && #[trigger] j2.subrange(
                k,
                k + parts.skip(1)[i - 1].len(),
            ) == parts.skip(1)[i - 1];
        assert(parts.skip(1)[i - 1] == parts[i]);
        assert(joined == parts[0] + sep + j2);
        let off = parts[0].len() + sep.len();
        let k = off + k2;
        assert(joined.subrange(k as int, k + parts[i].len()) =~= j2.subrange(
            k2,
            k2 + parts[i].len(),
        )) by {
            assert forall|t: int| 0 <= t < parts[i].len() implies #[trigger] joined[k + t]
                == j2[k2 + t] by {
                assert(joined[k + t] == (parts[0] + sep + j2)[off + k2 + t]);
            }
        }
        assert(0 <= k && k + parts[i].len() <= joined.len() && joined.subrange(
            k,
            k + parts[i].len(),
        ) == parts[i]);
    }
}

} // verus!
