//! Verified text helpers: trimming, prefix/suffix surgery, splitting and
//! joining. All external tool output parsing and path building in this
//! crate is phrased over these functions and their spec-level models.

use vstd::prelude::*;
use vstd::string::*;

verus! {

/// The whitespace characters that [`trim`] removes at either end.
pub open spec fn is_space(c: char) -> bool {
    c == ' ' || c == '\n' || c == '\t' || c == '\r'
}

/// `s` with its leading whitespace removed.
pub open spec fn trim_start_spec(s: Seq<char>) -> Seq<char>
    decreases s.len(),
{
    if s.len() > 0 && is_space(s[0]) {
        trim_start_spec(s.drop_first())
    } else {
        s
    }
}

/// `s` with its trailing whitespace removed.
pub open spec fn trim_end_spec(s: Seq<char>) -> Seq<char>
    decreases s.len(),
{
    if s.len() > 0 && is_space(s[s.len() - 1]) {
        trim_end_spec(s.drop_last())
    } else {
        s
    }
}

/// `s` with whitespace removed at both ends.
pub open spec fn trim_spec(s: Seq<char>) -> Seq<char> {
    trim_end_spec(trim_start_spec(s))
}

/// `s` without the prefix `p`; `s` unchanged when `p` is not a prefix.
pub open spec fn strip_prefix_spec(s: Seq<char>, p: Seq<char>) -> Seq<char> {
    if p.is_prefix_of(s) {
        s.skip(p.len() as int)
    } else {
        s
    }
}

/// `s` without the suffix `p`; `s` unchanged when `p` is not a suffix.
pub open spec fn strip_suffix_spec(s: Seq<char>, p: Seq<char>) -> Seq<char> {
    if p.is_suffix_of(s) {
        s.take((s.len() - p.len()) as int)
    } else {
        s
    }
}

fn is_space_char(c: char) -> (b: bool)
    ensures
        b == is_space(c),
{
    c == ' ' || c == '\n' || c == '\t' || c == '\r'
}

proof fn lemma_trim_start_skip(s: Seq<char>, i: int)
    requires
        0 <= i <= s.len(),
        forall|k: int| 0 <= k < i ==> is_space(s[k]),
        i == s.len() || !is_space(s[i]),
    ensures
        trim_start_spec(s) == s.skip(i),
    decreases i,
{
    if i == 0 {
        assert(s.skip(0) =~= s);
    } else {
        assert(is_space(s[0]));
        let t = s.drop_first();
        assert(forall|k: int| 0 <= k < i - 1 ==> is_space(#[trigger] t[k]) == is_space(s[k + 1]));
        lemma_trim_start_skip(t, i - 1);
        assert(t.skip(i - 1) =~= s.skip(i));
    }
}

proof fn lemma_trim_end_take(s: Seq<char>, j: int)
    requires
        0 <= j <= s.len(),
        forall|k: int| j <= k < s.len() ==> is_space(s[k]),
        j == 0 || !is_space(s[j - 1]),
    ensures
        trim_end_spec(s) == s.take(j),
    decreases s.len() - j,
{
    if j == s.len() {
        assert(s.take(j) =~= s);
    } else {
        assert(is_space(s[s.len() - 1]));
        let t = s.drop_last();
        assert(forall|k: int| j <= k < t.len() ==> is_space(#[trigger] t[k]) == is_space(s[k]));
        lemma_trim_end_take(t, j);
        assert(t.take(j) =~= s.take(j));
    }
}

/// Removes whitespace from both ends of `s`.
pub fn trim(s: &str) -> (r: String)
    ensures
        r@ == trim_spec(s@),
{
    let n = s.unicode_len();
    let mut i: usize = 0;
    while i < n && is_space_char(s.get_char(i))
        invariant
            0 <= i <= n,
            n == s@.len(),
            forall|k: int| 0 <= k < i ==> is_space(s@[k]),
        decreases n - i,
    {
        i += 1;
    }
    let mut j: usize = n;
    while j > i && is_space_char(s.get_char(j - 1))
        invariant
            i <= j <= n,
            n == s@.len(),
            forall|k: int| j <= k < n ==> is_space(s@[k]),
        decreases j,
    {
        j -= 1;
    }
    let r = s.substring_char(i, j).to_owned();
    proof {
        lemma_trim_start_skip(s@, i as int);
        let t = s@.skip(i as int);
        assert(forall|k: int|
            j - i <= k < t.len() ==> is_space(#[trigger] t[k]) == is_space(s@[k + i]));
        lemma_trim_end_take(t, j - i);
        assert(t.take(j - i) =~= s@.subrange(i as int, j as int));
    }
    r
}

/// Whether `p` is a prefix of `s`.
pub fn starts_with(s: &str, p: &str) -> (b: bool)
    ensures
        b == p@.is_prefix_of(s@),
{
    let sn = s.unicode_len();
    let pn = p.unicode_len();
    if pn > sn {
        return false;
    }
    let mut i: usize = 0;
    while i < pn
        invariant
            0 <= i <= pn <= sn,
            sn == s@.len(),
            pn == p@.len(),
            forall|k: int| 0 <= k < i ==> s@[k] == p@[k],
        decreases pn - i,
    {
        if s.get_char(i) != p.get_char(i) {
            proof {
                assert(s@.subrange(0, pn as int)[i as int] == s@[i as int]);
            }
            return false;
        }
        i += 1;
    }
    proof {
        assert(p@ =~= s@.subrange(0, pn as int));
    }
    true
}

/// Whether `p` is a suffix of `s`.
pub fn ends_with(s: &str, p: &str) -> (b: bool)
    ensures
        b == p@.is_suffix_of(s@),
{
    let sn = s.unicode_len();
    let pn = p.unicode_len();
    if pn > sn {
        return false;
    }
    let off = sn - pn;
    let mut i: usize = 0;
    while i < pn
        invariant
            0 <= i <= pn <= sn,
            sn == s@.len(),
            pn == p@.len(),
            off == sn - pn,
            forall|k: int| 0 <= k < i ==> s@[k + off] == p@[k],
        decreases pn - i,
    {
        if s.get_char(off + i) != p.get_char(i) {
            proof {
                assert(s@.subrange(off as int, sn as int)[i as int] == s@[i as int + off]);
            }
            return false;
        }
        i += 1;
    }
    proof {
        assert(p@ =~= s@.subrange(off as int, sn as int));
    }
    true
}

/// Whether `a` and `b` hold the same characters.
pub fn str_eq(a: &str, b: &str) -> (r: bool)
    ensures
        r == (a@ == b@),
{
    let an = a.unicode_len();
    let bn = b.unicode_len();
    if an != bn {
        return false;
    }
    let mut i: usize = 0;
    while i < an
        invariant
            0 <= i <= an == bn,
            an == a@.len(),
            bn == b@.len(),
            forall|k: int| 0 <= k < i ==> a@[k] == b@[k],
        decreases an - i,
    {
        if a.get_char(i) != b.get_char(i) {
            return false;
        }
        i += 1;
    }
    proof {
        assert(a@ =~= b@);
    }
    true
}

/// Removes the prefix `p` from `s`, if it is there.
pub fn strip_prefix(s: &str, p: &str) -> (r: String)
    ensures
        r@ == strip_prefix_spec(s@, p@),
{
    if starts_with(s, p) {
        let r = s.substring_char(p.unicode_len(), s.unicode_len()).to_owned();
        proof {
            assert(s@.subrange(p@.len() as int, s@.len() as int) =~= s@.skip(p@.len() as int));
        }
        r
    } else {
        s.to_owned()
    }
}

/// Removes the suffix `p` from `s`, if it is there.
pub fn strip_suffix(s: &str, p: &str) -> (r: String)
    ensures
        r@ == strip_suffix_spec(s@, p@),
{
    if ends_with(s, p) {
        let r = s.substring_char(0, s.unicode_len() - p.unicode_len()).to_owned();
        proof {
            assert(s@.subrange(0, s@.len() - p@.len()) =~= s@.take(s@.len() - p@.len()));
        }
        r
    } else {
        s.to_owned()
    }
}

/// The concatenation of `a` and `b`.
pub fn concat2(a: &str, b: &str) -> (r: String)
    ensures
        r@ == a@ + b@,
{
    let mut r = a.to_owned();
    r.append(b);
    r
}

/// The concatenation of `a`, `b` and `c`.
pub fn concat3(a: &str, b: &str, c: &str) -> (r: String)
    ensures
        r@ == a@ + b@ + c@,
{
    let mut r = a.to_owned();
    r.append(b);
    r.append(c);
    proof {
        assert(a@ + b@ + c@ =~= (a@ + b@) + c@);
    }
    r
}

/// Relies on std's `String::push`: it appends the one character to
/// the end of the string.
pub assume_specification[ String::push ](s: &mut String, c: char)
    ensures
        final(s)@ == old(s)@.push(c),
;

/// The character sequences of a sequence of strings.
pub open spec fn views_of(v: Seq<String>) -> Seq<Seq<char>> {
    v.map_values(|x: String| x@)
}

/// `s` cut at every occurrence of `sep`: `n` separators give `n + 1`
/// parts, and no part contains `sep`.
pub open spec fn split_spec(s: Seq<char>, sep: char) -> Seq<Seq<char>>
    decreases s.len(),
{
    if s.len() == 0 {
        seq![Seq::<char>::empty()]
    } else {
        let prev = split_spec(s.drop_last(), sep);
        if s.last() == sep {
            prev.push(Seq::<char>::empty())
        } else {
            prev.update(prev.len() - 1, prev.last().push(s.last()))
        }
    }
}

/// A split has at least one part.
pub proof fn lemma_split_spec_len(s: Seq<char>, sep: char)
    ensures
        split_spec(s, sep).len() >= 1,
    decreases s.len(),
{
    if s.len() > 0 {
        lemma_split_spec_len(s.drop_last(), sep);
    }
}

/// Dropping a string from the end and taking the views commute.
pub proof fn lemma_views_of_drop_last(v: Seq<String>)
    requires
        v.len() >= 1,
    ensures
        views_of(v.drop_last()) =~= views_of(v).drop_last(),
{
}

/// The parts laid end to end with `sep` between each two.
pub open spec fn join_spec(parts: Seq<Seq<char>>, sep: char) -> Seq<char>
    decreases parts.len(),
{
    if parts.len() == 0 {
        Seq::<char>::empty()
    } else if parts.len() == 1 {
        parts[0]
    } else {
        join_spec(parts.drop_last(), sep) + seq![sep] + parts.last()
    }
}

/// No part of a split contains the separator it was cut at.
pub proof fn lemma_split_no_sep(s: Seq<char>, sep: char)
    ensures
        forall|i: int|
            0 <= i < split_spec(s, sep).len() ==> !(#[trigger] split_spec(s, sep)[i]).contains(
                sep,
            ),
    decreases s.len(),
{
    if s.len() == 0 {
        assert forall|i: int| 0 <= i < split_spec(s, sep).len() implies !(split_spec(
            s,
            sep,
        )[i]).contains(sep) by {
            assert(split_spec(s, sep)[i] =~= Seq::<char>::empty());
        }
    } else {
        lemma_split_no_sep(s.drop_last(), sep);
        lemma_split_spec_len(s.drop_last(), sep);
        let prev = split_spec(s.drop_last(), sep);
        assert forall|i: int| 0 <= i < split_spec(s, sep).len() implies !(split_spec(
            s,
            sep,
        )[i]).contains(sep) by {
            if s.last() == sep {
                if i < prev.len() {
                    assert(split_spec(s, sep)[i] == prev[i]);
                } else {
                    assert(split_spec(s, sep)[i] =~= Seq::<char>::empty());
                }
            } else {
                let k = prev.len() - 1;
                if i != k {
                    assert(split_spec(s, sep)[i] == prev[i]);
                } else {
                    let part = prev[k].push(s.last());
                    assert(split_spec(s, sep)[i] == part);
                    if part.contains(sep) {
                        let j = choose|j: int| 0 <= j < part.len() && part[j] == sep;
                        if j < prev[k].len() {
                            assert(prev[k][j] == sep);
                            assert(prev[k].contains(sep));
                        }
                    }
                }
            }
        }
    }
}

/// Joining the parts of a split with the same separator restores the
/// original string: for every `s` and `sep`,
/// `join_spec(split_spec(s, sep), sep) == s`.
pub proof fn lemma_join_split(s: Seq<char>, sep: char)
    ensures
        join_spec(split_spec(s, sep), sep) == s,
    decreases s.len(),
{
    if s.len() == 0 {
        assert(join_spec(split_spec(s, sep), sep) =~= s);
    } else {
        let prev = split_spec(s.drop_last(), sep);
        lemma_join_split(s.drop_last(), sep);
        lemma_split_spec_len(s.drop_last(), sep);
        if s.last() == sep {
            let parts = prev.push(Seq::<char>::empty());
            assert(parts.drop_last() =~= prev);
            assert(join_spec(parts, sep) =~= s.drop_last() + seq![sep]);
            assert(s.drop_last() + seq![sep] =~= s);
        } else {
            let parts = prev.update(prev.len() - 1, prev.last().push(s.last()));
            if prev.len() == 1 {
                assert(join_spec(parts, sep) == parts[0]);
                assert(parts[0] =~= s.drop_last().push(s.last()));
                assert(s.drop_last().push(s.last()) =~= s);
            } else {
                assert(parts.drop_last() =~= prev.drop_last());
                assert(parts.last() == prev.last().push(s.last()));
                assert(join_spec(parts, sep) == join_spec(prev.drop_last(), sep) + seq![sep]
                    + prev.last().push(s.last()));
                assert(join_spec(prev.drop_last(), sep) + seq![sep] + prev.last().push(s.last())
                    =~= (join_spec(prev.drop_last(), sep) + seq![sep] + prev.last()).push(
                    s.last(),
                ));
                assert(join_spec(prev, sep).push(s.last()) =~= s.drop_last().push(s.last()));
                assert(s.drop_last().push(s.last()) =~= s);
            }
        }
    }
}

/// Cuts `s` at every occurrence of `sep`.
pub fn split_char(s: &str, sep: char) -> (parts: Vec<String>)
    ensures
        views_of(parts@) == split_spec(s@, sep),
        parts@.len() >= 1,
{
    let n = s.unicode_len();
    let mut parts: Vec<String> = Vec::new();
    let mut cur: String = String::new();
    proof {
        assert(s@.take(0) =~= Seq::<char>::empty());
        assert(views_of(parts@).push(cur@) =~= split_spec(s@.take(0), sep));
    }
    let mut i: usize = 0;
    while i < n
        invariant
            i <= n,
            n == s@.len(),
            views_of(parts@).push(cur@) == split_spec(s@.take(i as int), sep),
        decreases n - i,
    {
        let ghost prev = split_spec(s@.take(i as int), sep);
        let c = s.get_char(i);
        if c == sep {
            parts.push(cur);
            cur = String::new();
        } else {
            cur.push(c);
        }
        proof {
            assert(s@.take(i as int + 1).drop_last() =~= s@.take(i as int));
            assert(s@.take(i as int + 1).last() == s@[i as int]);
            if s@[i as int] == sep {
                assert(views_of(parts@).push(cur@) =~= prev.push(Seq::<char>::empty()));
            } else {
                assert(prev.len() >= 1);
                assert(views_of(parts@).push(cur@) =~= prev.update(
                    prev.len() - 1,
                    prev.last().push(s@[i as int]),
                ));
            }
        }
        i += 1;
    }
    parts.push(cur);
    proof {
        assert(s@.take(n as int) =~= s@);
        assert(views_of(parts@) =~= split_spec(s@, sep));
    }
    parts
}

/// Lays the parts end to end with `sep` between each two.
pub fn join_char(parts: &Vec<String>, sep: char) -> (r: String)
    ensures
        r@ == join_spec(views_of(parts@), sep),
{
    let mut r = String::new();
    let mut i: usize = 0;
    while i < parts.len()
        invariant
            i <= parts@.len(),
            r@ == join_spec(views_of(parts@).take(i as int), sep),
        decreases parts@.len() - i,
    {
        if i > 0 {
            r.push(sep);
        }
        r.append(parts[i].as_str());
        proof {
            let w = views_of(parts@);
            assert(w.take(i as int + 1).drop_last() =~= w.take(i as int));
            assert(w.take(i as int + 1).last() == w[i as int]);
            if i == 0 {
                assert(r@ =~= join_spec(w.take(1), sep));
            } else {
                assert(r@ =~= join_spec(w.take(i as int), sep) + seq![sep] + w[i as int]);
            }
        }
        i += 1;
    }
    proof {
        assert(views_of(parts@).take(parts@.len() as int) =~= views_of(parts@));
    }
    r
}

/// `base` and `name` joined with the path separator.
pub open spec fn join_path_spec(base: Seq<char>, name: Seq<char>) -> Seq<char> {
    base + "/"@ + name
}

/// Joins `base` and `name` with the path separator.
pub fn join_path(base: &str, name: &str) -> (r: String)
    ensures
        r@ == join_path_spec(base@, name@),
{
    concat3(base, "/", name)
}

} // verus!
