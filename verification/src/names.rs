//! String primitives for file names: equality, substring search, literal
//! replacement, and splitting a file name into stem and extension.
//!
//! The rename pipeline uses literal substring semantics throughout: a pattern
//! is a plain string, matched by containment and replaced wherever it occurs.

use vstd::prelude::*;

verus! {

/// The pattern `pat` occurs in `s` starting at index `i`.
pub open spec fn match_at(s: Seq<char>, pat: Seq<char>, i: int) -> bool {
    0 <= i && i + pat.len() <= s.len() && s.subrange(i, i + pat.len() as int) == pat
}

/// The pattern `pat` occurs somewhere in `s`.
pub open spec fn contains_pat(s: Seq<char>, pat: Seq<char>) -> bool {
    exists|i: int| match_at(s, pat, i)
}

/// `s` with every occurrence of `pat` replaced by `rep`, scanning left to
/// right without overlap. An empty pattern replaces nothing.
pub open spec fn replace_all(s: Seq<char>, pat: Seq<char>, rep: Seq<char>) -> Seq<char>
    decreases s.len(),
{
    if pat.len() == 0 || s.len() < pat.len() {
        s
    } else if s.subrange(0, pat.len() as int) == pat {
        rep + replace_all(s.skip(pat.len() as int), pat, rep)
    } else {
        seq![s[0]] + replace_all(s.skip(1), pat, rep)
    }
}

/// Index `j` is the last dot of `s` and does not begin the name; the
/// characters after it form the extension.
pub open spec fn is_last_dot(s: Seq<char>, j: int) -> bool {
    0 < j < s.len() && s[j] == '.' && (forall|k: int| j < k < s.len() ==> s[k] != '.')
}

/// The extension of a file name: the characters after the last dot, or
/// nothing when there is no dot past the first character. A leading dot
/// alone, as in a hidden file, does not open an extension.
pub open spec fn spec_extension(s: Seq<char>) -> Option<Seq<char>> {
    if exists|j: int| is_last_dot(s, j) {
        Some(s.subrange((choose|j: int| is_last_dot(s, j)) + 1, s.len() as int))
    } else {
        None
    }
}

/// The stem of a file name: everything before the last dot, or the whole
/// name when it has no extension.
pub open spec fn spec_stem(s: Seq<char>) -> Seq<char> {
    if exists|j: int| is_last_dot(s, j) {
        s.subrange(0, choose|j: int| is_last_dot(s, j))
    } else {
        s
    }
}

pub proof fn lemma_last_dot_unique(s: Seq<char>, j1: int, j2: int)
    requires
        is_last_dot(s, j1),
        is_last_dot(s, j2),
    ensures
        j1 == j2,
{
    if j1 < j2 {
        assert(s[j2] != '.');
    }
    if j2 < j1 {
        assert(s[j1] != '.');
    }
}

/// Character-for-character string equality, with the equality of the views
/// as its meaning.
pub fn str_eq(a: &str, b: &str) -> (r: bool)
    ensures
        r == (a@ == b@),
{
    let na = a.unicode_len();
    let nb = b.unicode_len();
    if na != nb {
        return false;
    }
    let mut i: usize = 0;
    while i < na
        invariant
            i <= na,
            na == a@.len(),
            na == b@.len(),
            forall|k: int| 0 <= k < i ==> a@[k] == b@[k],
        decreases na - i,
    {
        if a.get_char(i) != b.get_char(i) {
            return false;
        }
        i = i + 1;
    }
    proof {
        assert(a@ =~= b@);
    }
    true
}

/// Whether `pat` occurs in `s` starting at index `i`.
fn match_at_exec(s: &str, pat: &str, i: usize) -> (r: bool)
    requires
        i + pat@.len() <= s@.len(),
        s@.len() <= usize::MAX,
    ensures
        r == match_at(s@, pat@, i as int),
{
    let m = pat.unicode_len();
    let mut j: usize = 0;
    while j < m
        invariant
            j <= m,
            m == pat@.len(),
            i + m <= s@.len(),
            s@.len() <= usize::MAX,
            forall|k: int| 0 <= k < j ==> s@[i + k] == pat@[k],
        decreases m - j,
    {
        if s.get_char(i + j) != pat.get_char(j) {
            proof {
                if match_at(s@, pat@, i as int) {
                    assert(s@.subrange(i as int, i + m)[j as int] == pat@[j as int]);
                }
            }
            return false;
        }
        j = j + 1;
    }
    proof {
        assert(s@.subrange(i as int, i + m) =~= pat@);
    }
    true
}

/// Whether `pat` occurs anywhere in `s`, as a literal substring.
pub fn contains_str(s: &str, pat: &str) -> (r: bool)
    ensures
        r == contains_pat(s@, pat@),
{
    let n = s.unicode_len();
    let m = pat.unicode_len();
    if m > n {
        return false;
    }
    if m == 0 {
        proof {
            assert(s@.subrange(0, 0) =~= pat@);
            assert(match_at(s@, pat@, 0));
        }
        return true;
    }
    let mut i: usize = 0;
    while i <= n - m
        invariant
            0 < m <= n,
            n == s@.len(),
            m == pat@.len(),
            i <= n - m + 1,
            forall|k: int| 0 <= k < i ==> !match_at(s@, pat@, k),
        decreases n - m + 1 - i,
    {
        if match_at_exec(s, pat, i) {
            return true;
        }
        i = i + 1;
    }
    false
}

pub proof fn lemma_replace_unfold_match(s: Seq<char>, pat: Seq<char>, rep: Seq<char>)
    requires
        0 < pat.len() <= s.len(),
        s.subrange(0, pat.len() as int) == pat,
    ensures
        replace_all(s, pat, rep) == rep + replace_all(s.skip(pat.len() as int), pat, rep),
{
}

pub proof fn lemma_replace_unfold_char(s: Seq<char>, pat: Seq<char>, rep: Seq<char>)
    requires
        pat.len() > 0,
        s.len() > 0,
        !match_at(s, pat, 0),
    ensures
        replace_all(s, pat, rep) == seq![s[0]] + replace_all(s.skip(1), pat, rep),
{
    if s.len() < pat.len() {
        assert(s.skip(1).len() < pat.len());
        assert(seq![s[0]] + s.skip(1) =~= s);
    }
}

/// `s` with every occurrence of `pat` replaced by `rep`. Literal strings
/// only; an empty pattern leaves the name unchanged.
pub fn replace_str(s: &str, pat: &str, rep: &str) -> (r: String)
    ensures
        r@ == replace_all(s@, pat@, rep@),
{
    let n = s.unicode_len();
    let m = pat.unicode_len();
    if m == 0 {
        return s.to_owned();
    }
    let mut r = String::new();
    let mut i: usize = 0;
    proof {
        assert(s@.skip(0) =~= s@);
        assert(r@ + replace_all(s@, pat@, rep@) =~= replace_all(s@, pat@, rep@));
    }
    while i < n
        invariant
            0 < m == pat@.len(),
            n == s@.len(),
            i <= n,
            replace_all(s@, pat@, rep@) == r@ + replace_all(s@.skip(i as int), pat@, rep@),
        decreases n - i,
    {
        if m <= n - i && match_at_exec(s, pat, i) {
            r.append(rep);
            proof {
                let t = s@.skip(i as int);
                assert(t.subrange(0, m as int) =~= s@.subrange(i as int, i + m));
                lemma_replace_unfold_match(t, pat@, rep@);
                assert(t.skip(m as int) =~= s@.skip(i + m));
            }
            i = i + m;
        } else {
            let piece = s.substring_char(i, i + 1);
            r.append(piece);
            proof {
                let t = s@.skip(i as int);
                if m <= n - i {
                    assert(!match_at(s@, pat@, i as int));
                    if match_at(t, pat@, 0) {
                        assert(t.subrange(0, m as int) =~= s@.subrange(i as int, i + m));
                    }
                } else {
                    assert(t.len() < m);
                }
                lemma_replace_unfold_char(t, pat@, rep@);
                assert(t.skip(1) =~= s@.skip(i + 1));
                assert(piece@ =~= seq![t[0]]);
            }
            i = i + 1;
        }
    }
    proof {
        assert(s@.skip(n as int) =~= Seq::<char>::empty());
    }
    r
}

/// If the pattern occurs nowhere in `s`, replacement leaves `s` unchanged.
pub proof fn lemma_replace_absent(s: Seq<char>, pat: Seq<char>, rep: Seq<char>)
    requires
        !contains_pat(s, pat),
    ensures
        replace_all(s, pat, rep) == s,
    decreases s.len(),
{
    if pat.len() == 0 || s.len() < pat.len() {
    } else {
        assert(!match_at(s, pat, 0));
        assert(forall|i: int| match_at(s.skip(1), pat, i) ==> {
            &&& s.skip(1).subrange(i, i + pat.len() as int) =~= s.subrange(i + 1, i + 1
                + pat.len() as int)
            &&& match_at(s, pat, i + 1)
        });
        lemma_replace_absent(s.skip(1), pat, rep);
        lemma_replace_unfold_char(s, pat, rep);
        assert(seq![s[0]] + s.skip(1) =~= s);
    }
}

/// The index of the last dot of `name`, when one stands past the first
/// character.
fn find_last_dot(name: &str) -> (r: Option<usize>)
    ensures
        match r {
            Some(j) => is_last_dot(name@, j as int),
            None => forall|j: int| !is_last_dot(name@, j),
        },
{
    let n = name.unicode_len();
    let mut i: usize = n;
    while i > 1
        invariant
            i <= n,
            n == name@.len(),
            forall|k: int| i <= k < n ==> name@[k] != '.',
        decreases i,
    {
        let c = name.get_char(i - 1);
        if c == '.' {
            return Some(i - 1);
        }
        i = i - 1;
    }
    None
}

/// The extension of a file name, as `spec_extension` describes it.
pub fn extension_of(name: &str) -> (r: Option<String>)
    ensures
        match r {
            Some(e) => spec_extension(name@) == Some(e@),
            None => spec_extension(name@) is None,
        },
{
    let n = name.unicode_len();
    match find_last_dot(name) {
        Some(j) => {
            let e = name.substring_char(j + 1, n).to_owned();
            proof {
                let jj = choose|k: int| is_last_dot(name@, k);
                lemma_last_dot_unique(name@, jj, j as int);
            }
            Some(e)
        },
        None => None,
    }
}

/// The stem of a file name, as `spec_stem` describes it.
pub fn stem_of(name: &str) -> (r: String)
    ensures
        r@ == spec_stem(name@),
{
    match find_last_dot(name) {
        Some(j) => {
            let st = name.substring_char(0, j).to_owned();
            proof {
                let jj = choose|k: int| is_last_dot(name@, k);
                lemma_last_dot_unique(name@, jj, j as int);
            }
            st
        },
        None => name.to_owned(),
    }
}

} // verus!
