//! Finding one text in another, and replacing it.

use vstd::prelude::*;
use vstd::string::*;
use crate::text::chars_of;

verus! {

/// The index of the first place in `s` where `pat` stands, if there is one.
pub open spec fn find_sub(s: Seq<char>, pat: Seq<char>) -> Option<int>
    decreases s.len(),
{
    if pat.is_prefix_of(s) {
        Some(0)
    } else if s.len() == 0 {
        None
    } else {
        match find_sub(s.drop_first(), pat) {
            Some(i) => Some(i + 1),
            None => None,
        }
    }
}

/// `s` with every `pat` replaced by `with`, from the left, a replaced part
/// not being searched again. An empty `pat` replaces nothing.
pub open spec fn replaced(s: Seq<char>, pat: Seq<char>, with: Seq<char>) -> Seq<char>
    decreases s.len(),
{
    if pat.len() == 0 {
        s
    } else {
        match find_sub(s, pat) {
            Some(i) => if 0 <= i && i + pat.len() <= s.len() {
                s.take(i) + with + replaced(s.skip(i + pat.len()), pat, with)
            } else {
                s
            },
            None => s,
        }
    }
}

/// `s` without the spaces at its start.
pub open spec fn without_leading_spaces(s: Seq<char>) -> Seq<char>
    decreases s.len(),
{
    if s.len() > 0 && s[0] == ' ' {
        without_leading_spaces(s.drop_first())
    } else {
        s
    }
}

/// `find_sub` is the first index at which `pat` stands.
pub proof fn lemma_find_sub_is(s: Seq<char>, pat: Seq<char>, k: int)
    requires
        0 <= k <= s.len(),
        forall|j: int| 0 <= j < k ==> !pat.is_prefix_of(#[trigger] s.skip(j)),
        pat.is_prefix_of(s.skip(k)),
    ensures
        find_sub(s, pat) == Some(k),
    decreases s.len(),
{
    assert(s.skip(0) =~= s);
    if k > 0 {
        let t = s.drop_first();
        assert forall|j: int| 0 <= j < k - 1 implies !pat.is_prefix_of(#[trigger] t.skip(j)) by {
            assert(t.skip(j) =~= s.skip(j + 1));
        }
        assert(t.skip(k - 1) =~= s.skip(k));
        lemma_find_sub_is(t, pat, k - 1);
    }
}

/// `find_sub` finds nothing where `pat` stands nowhere.
pub proof fn lemma_find_sub_none(s: Seq<char>, pat: Seq<char>)
    requires
        forall|j: int| 0 <= j <= s.len() ==> !pat.is_prefix_of(#[trigger] s.skip(j)),
    ensures
        find_sub(s, pat) is None,
    decreases s.len(),
{
    assert(s.skip(0) =~= s);
    if s.len() > 0 {
        let t = s.drop_first();
        assert forall|j: int| 0 <= j <= t.len() implies !pat.is_prefix_of(#[trigger] t.skip(j)) by {
            assert(t.skip(j) =~= s.skip(j + 1));
        }
        lemma_find_sub_none(t, pat);
    }
}

/// Whether `pat` stands in `s` at index `at`.
pub fn stands_at(s: &Vec<char>, pat: &Vec<char>, at: usize) -> (r: bool)
    requires
        at <= s.len(),
    ensures
        r == pat@.is_prefix_of(s@.skip(at as int)),
{
    if pat.len() > s.len() - at {
        return false;
    }
    let mut i: usize = 0;
    while i < pat.len()
        invariant
            i <= pat.len(),
            at <= s.len(),
            pat.len() <= s.len() - at,
            forall|j: int| 0 <= j < i ==> pat@[j] == s@[at + j],
        decreases pat.len() - i,
    {
        if pat[i] != s[at + i] {
            assert(s@.skip(at as int).subrange(0, pat@.len() as int)[i as int] == s@[at + i]);
            return false;
        }
        i += 1;
    }
    assert(pat@ =~= s@.skip(at as int).subrange(0, pat@.len() as int));
    true
}

/// The first index from `from` on at which `pat` stands in `s`.
pub fn find_from(s: &Vec<char>, pat: &Vec<char>, from: usize) -> (r: Option<usize>)
    requires
        from <= s.len(),
    ensures
        match r {
            Some(i) => from <= i <= s.len() && find_sub(s@.skip(from as int), pat@) == Some(
                i - from,
            ),
            None => find_sub(s@.skip(from as int), pat@) is None,
        },
{
    let ghost rest = s@.skip(from as int);
    let mut i: usize = from;
    while i < s.len()
        invariant
            from <= i <= s.len(),
            rest == s@.skip(from as int),
            forall|j: int| 0 <= j < i - from ==> !pat@.is_prefix_of(#[trigger] rest.skip(j)),
        decreases s.len() - i,
    {
        assert(rest.skip(i - from) =~= s@.skip(i as int));
        if stands_at(s, pat, i) {
            proof {
                lemma_find_sub_is(rest, pat@, i - from);
            }
            return Some(i);
        }
        i += 1;
    }
    assert(rest.skip(i - from) =~= s@.skip(i as int));
    if stands_at(s, pat, i) {
        proof {
            lemma_find_sub_is(rest, pat@, i - from);
        }
        return Some(i);
    }
    proof {
        lemma_find_sub_none(rest, pat@);
    }
    None
}

/// The index of the first place in `s` where `pat` stands.
pub fn find(s: &str, pat: &str) -> (r: Option<usize>)
    ensures
        match r {
            Some(i) => find_sub(s@, pat@) == Some(i as int) && i <= s@.len(),
            None => find_sub(s@, pat@) is None,
        },
{
    let chars = chars_of(s);
    let p = chars_of(pat);
    assert(chars@.skip(0) =~= chars@);
    find_from(&chars, &p, 0)
}

/// `s` with every `pat` replaced by `with`.
pub fn replace(s: &str, pat: &str, with: &str) -> (out: String)
    ensures
        out@ == replaced(s@, pat@, with@),
{
    let chars = chars_of(s);
    let p = chars_of(pat);
    if p.len() == 0 {
        return String::from_str(s);
    }
    let n = chars.len();
    let mut out = String::new();
    let mut from: usize = 0;
    assert(s@.skip(0) =~= s@);
    assert(out@ + replaced(s@.skip(0), pat@, with@) =~= replaced(s@, pat@, with@));
    loop
        invariant
            from <= n,
            n == chars.len(),
            chars@ == s@,
            p@ == pat@,
            p.len() > 0,
            replaced(s@, pat@, with@) == out@ + replaced(s@.skip(from as int), pat@, with@),
        decreases n - from,
    {
        let ghost rest = s@.skip(from as int);
        match find_from(&chars, &p, from) {
            Some(i) => {
                proof {
                    lemma_find_sub_stands(rest, pat@);
                }
                assert(i + p.len() <= n);
                let piece = s.substring_char(from, i);
                assert(piece@ =~= rest.take(i - from));
                assert(rest.skip(i - from + p.len()) =~= s@.skip(i + p.len()));
                out = out.concat(piece).concat(with);
                from = i + p.len();
            },
            None => {
                let piece = s.substring_char(from, n);
                assert(piece@ =~= rest);
                out = out.concat(piece);
                return out;
            },
        }
    }
}

/// Where `find_sub` finds `pat`, it stands there, within `s`.
pub proof fn lemma_find_sub_stands(s: Seq<char>, pat: Seq<char>)
    ensures
        match find_sub(s, pat) {
            Some(i) => 0 <= i && i + pat.len() <= s.len() && pat.is_prefix_of(s.skip(i)),
            None => true,
        },
    decreases s.len(),
{
    assert(s.skip(0) =~= s);
    if !pat.is_prefix_of(s) && s.len() > 0 {
        let t = s.drop_first();
        lemma_find_sub_stands(t, pat);
        match find_sub(t, pat) {
            Some(i) => {
                assert(t.skip(i) =~= s.skip(i + 1));
            },
            None => {},
        }
    }
}

/// Whether `s` ends with `pat`.
pub fn ends_with(s: &str, pat: &str) -> (r: bool)
    ensures
        r == (pat@.len() <= s@.len() && s@.skip(s@.len() - pat@.len()) == pat@),
{
    let chars = chars_of(s);
    let p = chars_of(pat);
    if p.len() > chars.len() {
        return false;
    }
    let at = chars.len() - p.len();
    let r = stands_at(&chars, &p, at);
    proof {
        let tail = s@.skip(at as int);
        assert(tail.len() == pat@.len());
        if r {
            assert(tail.subrange(0, pat@.len() as int) =~= tail);
        }
        if tail == pat@ {
            assert(pat@ =~= tail.subrange(0, pat@.len() as int));
        }
    }
    r
}

/// `s` without the spaces at its start.
pub fn trim_leading_spaces(s: &str) -> (out: String)
    ensures
        out@ == without_leading_spaces(s@),
{
    let chars = chars_of(s);
    let mut i: usize = 0;
    assert(s@.skip(0) =~= s@);
    while i < chars.len() && chars[i] == ' '
        invariant
            i <= chars.len(),
            chars@ == s@,
            without_leading_spaces(s@) == without_leading_spaces(s@.skip(i as int)),
        decreases chars.len() - i,
    {
        assert(s@.skip(i as int).drop_first() =~= s@.skip(i + 1));
        i += 1;
    }
    let piece = s.substring_char(i, chars.len());
    assert(piece@ =~= s@.skip(i as int));
    String::from_str(piece)
}

} // verus!
