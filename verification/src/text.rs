//! Character-level helpers shared by the formatting code: conversion between
//! `&str` and character vectors, substring search, replacement, splitting and
//! joining, all specified over `Seq<char>`.
use vstd::prelude::*;

verus! {

broadcast use vstd::string::group_string_axioms;

/// `String::push` appends one character.
pub assume_specification[ String::push ](s: &mut String, ch: char)
    ensures
        final(s)@ == old(s)@.push(ch),
;

/// The characters of `s`, in order.
pub fn str_chars(s: &str) -> (v: Vec<char>)
    ensures
        v@ == s@,
{
    let mut v: Vec<char> = Vec::new();
    for c in it: s.chars()
        invariant
            it.seq() == s@,
            v@ == it.seq().take(it.index() as int),
    {
        proof {
            assert(it.seq().take(it.index() as int).push(c) =~= it.seq().take(it.index() + 1));
        }
        v.push(c);
    }
    proof {
        assert(v@ =~= s@);
    }
    v
}


/// Appends every character of `v` to `s`.
pub fn push_chars(s: &mut String, v: &Vec<char>)
    ensures
        final(s)@ == old(s)@ + v@,
{
    let mut i: usize = 0;
    while i < v.len()
        invariant
            i <= v.len(),
            s@ == old(s)@ + v@.take(i as int),
        decreases v.len() - i,
    {
        proof {
            assert(v@.take(i as int).push(v@[i as int]) =~= v@.take(i + 1));
        }
        s.push(v[i]);
        i = i + 1;
    }
    proof {
        assert(v@.take(i as int) =~= v@);
    }
}

/// A string holding exactly the characters of `v`.
pub fn chars_to_string(v: &Vec<char>) -> (s: String)
    ensures
        s@ == v@,
{
    let mut s = String::new();
    push_chars(&mut s, v);
    s
}

/// Whether `s` begins with `p`.
pub open spec fn has_prefix(s: Seq<char>, p: Seq<char>) -> bool {
    p.len() <= s.len() && s.take(p.len() as int) == p
}

/// Whether `p` occurs in `s` at some position.
pub open spec fn contains_seq(s: Seq<char>, p: Seq<char>) -> bool {
    exists|i: int| 0 <= i <= s.len() && #[trigger] has_prefix(s.skip(i), p)
}

/// Every non-overlapping occurrence of `pat`, scanning left to right,
/// replaced by `rep` (the behaviour of `str::replace` for a non-empty pattern).
pub open spec fn replace_all(s: Seq<char>, pat: Seq<char>, rep: Seq<char>) -> Seq<char>
    decreases s.len(),
{
    if pat.len() == 0 || s.len() == 0 {
        s
    } else if has_prefix(s, pat) {
        rep + replace_all(s.skip(pat.len() as int), pat, rep)
    } else {
        seq![s[0]] + replace_all(s.skip(1), pat, rep)
    }
}

/// The pieces of `s` between the non-overlapping occurrences of `pat`, with
/// `cur` prepended to the first piece (the behaviour of `str::split`).
pub open spec fn split_from(s: Seq<char>, pat: Seq<char>, cur: Seq<char>) -> Seq<Seq<char>>
    decreases s.len(),
{
    if pat.len() == 0 || s.len() == 0 {
        seq![cur + s]
    } else if has_prefix(s, pat) {
        seq![cur] + split_from(s.skip(pat.len() as int), pat, seq![])
    } else {
        split_from(s.skip(1), pat, cur.push(s[0]))
    }
}

/// The pieces of `s` separated by `pat`.
pub open spec fn split_on(s: Seq<char>, pat: Seq<char>) -> Seq<Seq<char>> {
    split_from(s, pat, seq![])
}

/// The pieces joined with `sep` between consecutive ones.
pub open spec fn join_with(parts: Seq<Seq<char>>, sep: Seq<char>) -> Seq<char>
    decreases parts.len(),
{
    if parts.len() == 0 {
        seq![]
    } else if parts.len() == 1 {
        parts[0]
    } else {
        join_with(parts.drop_last(), sep) + sep + parts.last()
    }
}

/// Whether `pat` occurs in `s` starting at index `i`.
pub fn matches_at(s: &Vec<char>, i: usize, pat: &Vec<char>) -> (b: bool)
    requires
        i <= s.len(),
    ensures
        b == has_prefix(s@.skip(i as int), pat@),
{
    if pat.len() > s.len() - i {
        return false;
    }
    let mut k: usize = 0;
    while k < pat.len()
        invariant
            i + pat.len() <= s.len(),
            k <= pat.len(),
            forall|j: int| 0 <= j < k ==> s@[i + j] == pat@[j],
        decreases pat.len() - k,
    {
        if s[i + k] != pat[k] {
            proof {
                assert(s@.skip(i as int).take(pat@.len() as int)[k as int] != pat@[k as int]);
            }
            return false;
        }
        k = k + 1;
    }
    proof {
        assert(s@.skip(i as int).take(pat@.len() as int) =~= pat@);
    }
    true
}

proof fn lemma_skip_skip(s: Seq<char>, a: int, b: int)
    requires
        0 <= a,
        0 <= b,
        a + b <= s.len(),
    ensures
        s.skip(a).skip(b) == s.skip(a + b),
{
    assert(s.skip(a).skip(b) =~= s.skip(a + b));
}

/// `s` with every occurrence of `pat` replaced by `rep`.
pub fn replace_chars(s: &Vec<char>, pat: &Vec<char>, rep: &Vec<char>) -> (res: Vec<char>)
    requires
        pat.len() > 0,
    ensures
        res@ == replace_all(s@, pat@, rep@),
{
    let mut out: Vec<char> = Vec::new();
    let mut i: usize = 0;
    proof {
        assert(s@.skip(0) =~= s@);
    }
    while i < s.len()
        invariant
            pat.len() > 0,
            i <= s.len(),
            out@ + replace_all(s@.skip(i as int), pat@, rep@) == replace_all(s@, pat@, rep@),
        decreases s.len() - i,
    {
        let ghost rest = s@.skip(i as int);
        if matches_at(s, i, pat) {
            let mut k: usize = 0;
            let ghost before = out@;
            while k < rep.len()
                invariant
                    k <= rep.len(),
                    out@ == before + rep@.take(k as int),
                decreases rep.len() - k,
            {
                proof {
                    assert(rep@.take(k as int).push(rep@[k as int]) =~= rep@.take(k + 1));
                }
                out.push(rep[k]);
                k = k + 1;
            }
            proof {
                assert(rep@.take(k as int) =~= rep@);
                lemma_skip_skip(s@, i as int, pat@.len() as int);
                assert(before + (rep@ + replace_all(rest.skip(pat@.len() as int), pat@, rep@))
                    =~= (before + rep@) + replace_all(rest.skip(pat@.len() as int), pat@, rep@));
            }
            i = i + pat.len();
        } else {
            let ghost before = out@;
            out.push(s[i]);
            proof {
                lemma_skip_skip(s@, i as int, 1);
                assert(rest[0] == s@[i as int]);
                assert(before + (seq![rest[0]] + replace_all(rest.skip(1), pat@, rep@))
                    =~= before.push(s@[i as int]) + replace_all(rest.skip(1), pat@, rep@));
            }
            i = i + 1;
        }
    }
    proof {
        assert(s@.skip(i as int) =~= Seq::<char>::empty());
        assert(out@ + Seq::<char>::empty() =~= out@);
    }
    out
}

/// The pieces of `s` separated by the non-overlapping occurrences of `pat`.
pub fn split_chars(s: &Vec<char>, pat: &Vec<char>) -> (res: Vec<Vec<char>>)
    requires
        pat.len() > 0,
    ensures
        res@.map_values(|v: Vec<char>| v@) == split_on(s@, pat@),
{
    let mut parts: Vec<Vec<char>> = Vec::new();
    let mut cur: Vec<char> = Vec::new();
    let mut i: usize = 0;
    proof {
        assert(s@.skip(0) =~= s@);
    }
    while i < s.len()
        invariant
            pat.len() > 0,
            i <= s.len(),
            parts@.map_values(|v: Vec<char>| v@) + split_from(s@.skip(i as int), pat@, cur@)
                == split_on(s@, pat@),
        decreases s.len() - i,
    {
        let ghost rest = s@.skip(i as int);
        let ghost old_parts = parts@.map_values(|v: Vec<char>| v@);
        if matches_at(s, i, pat) {
            let done = cur;
            cur = Vec::new();
            parts.push(done);
            proof {
                lemma_skip_skip(s@, i as int, pat@.len() as int);
                assert(parts@.map_values(|v: Vec<char>| v@) =~= old_parts.push(done@));
                assert(old_parts + (seq![done@] + split_from(rest.skip(pat@.len() as int), pat@, seq![]))
                    =~= old_parts.push(done@) + split_from(rest.skip(pat@.len() as int), pat@, cur@));
            }
            i = i + pat.len();
        } else {
            cur.push(s[i]);
            proof {
                lemma_skip_skip(s@, i as int, 1);
                assert(rest[0] == s@[i as int]);
            }
            i = i + 1;
        }
    }
    let ghost old_parts = parts@.map_values(|v: Vec<char>| v@);
    proof {
        assert(s@.skip(i as int) =~= Seq::<char>::empty());
        assert(cur@ + Seq::<char>::empty() =~= cur@);
    }
    let last = cur;
    parts.push(last);
    proof {
        assert(parts@.map_values(|v: Vec<char>| v@) =~= old_parts + seq![last@]);
    }
    parts
}

/// The pieces joined with `sep` between consecutive ones.
pub fn join_chars(parts: &Vec<Vec<char>>, sep: &Vec<char>) -> (res: Vec<char>)
    ensures
        res@ == join_with(parts@.map_values(|v: Vec<char>| v@), sep@),
{
    let mut out: Vec<char> = Vec::new();
    let mut i: usize = 0;
    let ghost views = parts@.map_values(|v: Vec<char>| v@);
    while i < parts.len()
        invariant
            i <= parts.len(),
            views == parts@.map_values(|v: Vec<char>| v@),
            out@ == join_with(views.take(i as int), sep@),
        decreases parts.len() - i,
    {
        let ghost before = out@;
        if i > 0 {
            out.extend_from_slice(sep.as_slice());
        }
        out.extend_from_slice(parts[i].as_slice());
        proof {
            assert(views.take(i + 1).drop_last() =~= views.take(i as int));
            assert(views.take(i + 1).last() == parts@[i as int]@);
            if i == 0 {
                assert(out@ =~= views.take(1)[0]);
            } else {
                assert(out@ =~= before + sep@ + parts@[i as int]@);
            }
        }
        i = i + 1;
    }
    proof {
        assert(views.take(i as int) =~= views);
    }
    out
}

/// Whether the two strings hold the same characters.
pub fn str_eq(a: &str, b: &str) -> (res: bool)
    ensures
        res == (a@ == b@),
{
    let va = str_chars(a);
    let vb = str_chars(b);
    if va.len() != vb.len() {
        return false;
    }
    let mut i: usize = 0;
    while i < va.len()
        invariant
            va@ == a@,
            vb@ == b@,
            va.len() == vb.len(),
            i <= va.len(),
            forall|j: int| 0 <= j < i ==> va@[j] == vb@[j],
        decreases va.len() - i,
    {
        if va[i] != vb[i] {
            return false;
        }
        i = i + 1;
    }
    proof {
        assert(va@ =~= vb@);
    }
    true
}


/// Name for what `str::to_lowercase` returns: the Unicode lowercase mapping
/// of the whole string.
pub uninterp spec fn lowercase(s: Seq<char>) -> Seq<char>;

/// The ASCII lowercase of one character.
pub open spec fn ascii_lower(c: char) -> char {
    if 'A' <= c <= 'Z' {
        ((c as u32) + 32) as char
    } else {
        c
    }
}

/// Calls `str::to_lowercase`. Its result is named `lowercase`; on an
/// all-ASCII string the Unicode mapping is the ASCII one, character by
/// character, which is the one further fact claimed.
#[verifier::external_body]
pub(crate) fn to_lowercase(s: &str) -> (res: String)
    ensures
        res@ == lowercase(s@),
        vstd::utf8::is_ascii_chars(s@) ==> res@ == s@.map_values(|c: char| ascii_lower(c)),
{
    s.to_lowercase()
}


/// Whether the last character of `s` is `c`.
pub(crate) fn ends_with_char(s: &str, c: char) -> (res: bool)
    ensures
        res == (s@.len() > 0 && s@.last() == c),
{
    let v = str_chars(s);
    let n = v.len();
    n > 0 && v[n - 1] == c
}


/// `rep` before every character of `s` and once more at the end (what
/// `str::replace` does with an empty pattern).
pub open spec fn replace_empty(s: Seq<char>, rep: Seq<char>) -> Seq<char>
    decreases s.len(),
{
    if s.len() == 0 {
        rep
    } else {
        rep + seq![s[0]] + replace_empty(s.skip(1), rep)
    }
}

/// What `str::replace` returns.
pub open spec fn str_replace(s: Seq<char>, pat: Seq<char>, rep: Seq<char>) -> Seq<char> {
    if pat.len() == 0 {
        replace_empty(s, rep)
    } else {
        replace_all(s, pat, rep)
    }
}

/// `s` with every occurrence of `pat` replaced by `rep`, as `str::replace`
/// does it.
pub fn replace_str(s: &str, pat: &str, rep: &str) -> (res: String)
    ensures
        res@ == str_replace(s@, pat@, rep@),
{
    let sv = str_chars(s);
    let pv = str_chars(pat);
    let rv = str_chars(rep);
    if pv.len() > 0 {
        let out = replace_chars(&sv, &pv, &rv);
        chars_to_string(&out)
    } else {
        let mut out: Vec<char> = Vec::new();
        let mut i: usize = 0;
        proof {
            assert(sv@.skip(0) =~= sv@);
        }
        while i < sv.len()
            invariant
                i <= sv.len(),
                sv@ == s@,
                rv@ == rep@,
                out@ + replace_empty(sv@.skip(i as int), rv@) == replace_empty(sv@, rv@),
            decreases sv.len() - i,
        {
            let ghost before = out@;
            out.extend_from_slice(rv.as_slice());
            out.push(sv[i]);
            proof {
                lemma_skip_skip(sv@, i as int, 1);
                assert(sv@.skip(i as int)[0] == sv@[i as int]);
                assert(before + (rv@ + seq![sv@[i as int]] + replace_empty(sv@.skip(i + 1), rv@))
                    =~= out@ + replace_empty(sv@.skip(i + 1), rv@));
            }
            i = i + 1;
        }
        out.extend_from_slice(rv.as_slice());
        proof {
            assert(sv@.skip(i as int) =~= Seq::<char>::empty());
        }
        chars_to_string(&out)
    }
}

/// Whether `pat` occurs in `s`.
pub fn contains_str(s: &str, pat: &str) -> (res: bool)
    ensures
        res == contains_seq(s@, pat@),
{
    let sv = str_chars(s);
    let pv = str_chars(pat);
    let mut i: usize = 0;
    while i <= sv.len()
        invariant
            sv@ == s@,
            pv@ == pat@,
            i <= sv.len() + 1,
            forall|j: int| 0 <= j < i ==> !has_prefix(#[trigger] sv@.skip(j), pv@),
        ensures
            forall|j: int| 0 <= j <= sv.len() ==> !has_prefix(#[trigger] sv@.skip(j), pv@),
        decreases sv.len() + 1 - i,
    {
        if matches_at(&sv, i, &pv) {
            return true;
        }
        if i == sv.len() {
            break;
        }
        i = i + 1;
    }
    false
}

/// Whether `s` begins with `pat`.
pub fn starts_with_str(s: &str, pat: &str) -> (res: bool)
    ensures
        res == has_prefix(s@, pat@),
{
    let sv = str_chars(s);
    let pv = str_chars(pat);
    proof {
        assert(sv@.skip(0) =~= sv@);
    }
    matches_at(&sv, 0, &pv)
}

/// Whether `c` is white space in Unicode's sense (`char::is_whitespace`).
pub open spec fn is_white_space(c: char) -> bool {
    ||| ('\t' <= c <= '\r')
    ||| c == ' '
    ||| c == '\u{85}'
    ||| c == '\u{a0}'
    ||| c == '\u{1680}'
    ||| ('\u{2000}' <= c <= '\u{200a}')
    ||| c == '\u{2028}'
    ||| c == '\u{2029}'
    ||| c == '\u{202f}'
    ||| c == '\u{205f}'
    ||| c == '\u{3000}'
}

/// Whether `c` is white space in Unicode's sense.
pub fn is_white_space_char(c: char) -> (res: bool)
    ensures
        res == is_white_space(c),
{
    ('\t' <= c && c <= '\r') || c == ' ' || c == '\u{85}' || c == '\u{a0}' || c == '\u{1680}' || (
    '\u{2000}' <= c && c <= '\u{200a}') || c == '\u{2028}' || c == '\u{2029}' || c == '\u{202f}'
        || c == '\u{205f}' || c == '\u{3000}'
}

/// The words of `s` (its maximal runs without white space), with `cur`
/// prepended to the first.
pub open spec fn words_from(s: Seq<char>, cur: Seq<char>) -> Seq<Seq<char>>
    decreases s.len(),
{
    if s.len() == 0 {
        if cur.len() > 0 {
            seq![cur]
        } else {
            seq![]
        }
    } else if is_white_space(s[0]) {
        (if cur.len() > 0 {
            seq![cur]
        } else {
            seq![]
        }) + words_from(s.skip(1), seq![])
    } else {
        words_from(s.skip(1), cur.push(s[0]))
    }
}

/// The words of `s` joined by single spaces.
pub open spec fn normalize_whitespace_spec(s: Seq<char>) -> Seq<char> {
    join_with(words_from(s, seq![]), " "@)
}

/// The words of `s` joined by single spaces (`split_whitespace` followed by
/// `join(" ")`).
pub fn normalize_whitespace(s: &str) -> (res: String)
    ensures
        res@ == normalize_whitespace_spec(s@),
{
    let sv = str_chars(s);
    let mut words: Vec<Vec<char>> = Vec::new();
    let mut cur: Vec<char> = Vec::new();
    let mut i: usize = 0;
    proof {
        assert(sv@.skip(0) =~= sv@);
    }
    while i < sv.len()
        invariant
            i <= sv.len(),
            sv@ == s@,
            words@.map_values(|v: Vec<char>| v@) + words_from(sv@.skip(i as int), cur@)
                == words_from(sv@, seq![]),
        decreases sv.len() - i,
    {
        let ghost rest = sv@.skip(i as int);
        let ghost old_words = words@.map_values(|v: Vec<char>| v@);
        proof {
            lemma_skip_skip(sv@, i as int, 1);
            assert(rest[0] == sv@[i as int]);
        }
        if is_white_space_char(sv[i]) {
            if cur.len() > 0 {
                let done = cur;
                cur = Vec::new();
                words.push(done);
                proof {
                    assert(words@.map_values(|v: Vec<char>| v@) =~= old_words.push(done@));
                    assert(old_words + (seq![done@] + words_from(rest.skip(1), seq![]))
                        =~= old_words.push(done@) + words_from(rest.skip(1), cur@));
                }
            } else {
                proof {
                    assert(cur@ =~= Seq::<char>::empty());
                    assert(Seq::<Seq<char>>::empty() + words_from(rest.skip(1), seq![])
                        =~= words_from(rest.skip(1), seq![]));
                }
            }
        } else {
            cur.push(sv[i]);
        }
        i = i + 1;
    }
    let ghost old_words = words@.map_values(|v: Vec<char>| v@);
    proof {
        assert(sv@.skip(i as int) =~= Seq::<char>::empty());
    }
    if cur.len() > 0 {
        let last = cur;
        words.push(last);
        proof {
            assert(words@.map_values(|v: Vec<char>| v@) =~= old_words + seq![last@]);
        }
    } else {
        proof {
            assert(old_words + Seq::<Seq<char>>::empty() =~= old_words);
        }
    }
    let sep = str_chars(" ");
    let joined = join_chars(&words, &sep);
    chars_to_string(&joined)
}

} // verus!
