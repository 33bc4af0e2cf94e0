//! Small verified helpers over strings, seen as sequences of characters.

use vstd::prelude::*;
use vstd::string::*;

verus! {

/// The views of a sequence of strings, one by one.
pub open spec fn views(v: Seq<String>) -> Seq<Seq<char>> {
    Seq::new(v.len(), |i: int| v[i]@)
}

/// The index of the first `c` in `s`, or the length of `s` when `s` holds none.
pub open spec fn find_char(s: Seq<char>, c: char) -> int
    decreases s.len(),
{
    if s.len() == 0 {
        0
    } else if s[0] == c {
        0
    } else {
        1 + find_char(s.drop_first(), c)
    }
}

/// The pieces of `s` between the occurrences of `sep`. There is always at
/// least one piece; a piece may be empty.
pub open spec fn split_on(s: Seq<char>, sep: char) -> Seq<Seq<char>>
    decreases s.len(),
{
    let i = find_char(s, sep);
    if 0 <= i < s.len() {
        seq![s.take(i)] + split_on(s.skip(i + 1), sep)
    } else {
        seq![s]
    }
}

/// `find_char` is the one index that holds `c` with no `c` before it.
pub proof fn lemma_find_char_is(s: Seq<char>, c: char, k: int)
    requires
        0 <= k <= s.len(),
        forall|j: int| 0 <= j < k ==> s[j] != c,
        k < s.len() ==> s[k] == c,
    ensures
        find_char(s, c) == k,
    decreases s.len(),
{
    if s.len() > 0 && s[0] != c {
        let t = s.drop_first();
        assert forall|j: int| 0 <= j < k - 1 implies t[j] != c by {
            assert(t[j] == s[j + 1]);
        }
        lemma_find_char_is(t, c, k - 1);
    }
}

/// A sequence without the separator is its own single piece.
pub proof fn lemma_split_on_whole(s: Seq<char>, sep: char)
    requires
        forall|j: int| 0 <= j < s.len() ==> s[j] != sep,
    ensures
        split_on(s, sep) == seq![s],
{
    lemma_find_char_is(s, sep, s.len() as int);
}

/// The first separator of a text stays the first when more text follows it.
pub proof fn lemma_find_char_in_front(a: Seq<char>, b: Seq<char>, c: char)
    requires
        find_char(a, c) < a.len(),
    ensures
        find_char(a + b, c) == find_char(a, c),
    decreases a.len(),
{
    if a.len() > 0 && a[0] != c {
        assert((a + b).drop_first() =~= a.drop_first() + b);
        assert((a + b)[0] == a[0]);
        lemma_find_char_in_front(a.drop_first(), b, c);
    } else if a.len() > 0 {
        assert((a + b)[0] == a[0]);
    }
}

/// A text without the separator, the separator, and more text: the pieces
/// are the text and the pieces of what follows.
pub proof fn lemma_split_after_piece(a: Seq<char>, b: Seq<char>, sep: char)
    requires
        forall|j: int| 0 <= j < a.len() ==> a[j] != sep,
    ensures
        split_on(a + seq![sep] + b, sep) == seq![a] + split_on(b, sep),
{
    let whole = a + seq![sep] + b;
    assert forall|j: int| 0 <= j < a.len() implies whole[j] != sep by {
        assert(whole[j] == a[j]);
    }
    assert(whole[a.len() as int] == sep);
    lemma_find_char_is(whole, sep, a.len() as int);
    assert(whole.take(a.len() as int) =~= a);
    assert(whole.skip(a.len() as int + 1) =~= b);
}

/// The pieces of two texts with the separator between them are the pieces
/// of the first followed by the pieces of the second.
pub proof fn lemma_split_on_joined(a: Seq<char>, b: Seq<char>, sep: char)
    ensures
        split_on(a + seq![sep] + b, sep) == split_on(a, sep) + split_on(b, sep),
    decreases a.len(),
{
    let i = find_char(a, sep);
    if 0 <= i < a.len() {
        let whole = a + seq![sep] + b;
        lemma_find_char_in_front(a, seq![sep] + b, sep);
        assert(a + (seq![sep] + b) =~= whole);
        assert(whole.take(i) =~= a.take(i));
        assert(whole.skip(i + 1) =~= a.skip(i + 1) + seq![sep] + b);
        lemma_split_on_joined(a.skip(i + 1), b, sep);
        assert(seq![a.take(i)] + (split_on(a.skip(i + 1), sep) + split_on(b, sep)) =~= (seq![
            a.take(i),
        ] + split_on(a.skip(i + 1), sep)) + split_on(b, sep));
    } else {
        lemma_find_char_none(a, sep);
        lemma_split_after_piece(a, b, sep);
        lemma_split_on_whole(a, sep);
    }
}

/// Where `find_char` runs to the end, the text holds no separator.
pub proof fn lemma_find_char_none(s: Seq<char>, c: char)
    requires
        !(0 <= find_char(s, c) < s.len()),
    ensures
        forall|j: int| 0 <= j < s.len() ==> s[j] != c,
    decreases s.len(),
{
    if s.len() > 0 {
        if s[0] == c {
        } else {
            let t = s.drop_first();
            lemma_find_char_nonnegative(t, c);
            lemma_find_char_none(t, c);
            assert forall|j: int| 0 <= j < s.len() implies s[j] != c by {
                if j > 0 {
                    assert(s[j] == t[j - 1]);
                }
            }
        }
    }
}

/// `find_char` is never negative.
pub proof fn lemma_find_char_nonnegative(s: Seq<char>, c: char)
    ensures
        0 <= find_char(s, c),
    decreases s.len(),
{
    if s.len() > 0 && s[0] != c {
        lemma_find_char_nonnegative(s.drop_first(), c);
    }
}

/// The characters of `s`, in order.
pub fn chars_of(s: &str) -> (out: Vec<char>)
    ensures
        out@ == s@,
{
    let mut out: Vec<char> = Vec::new();
    for c in it: s.chars()
        invariant
            it.seq() == s@,
            out@ == it.seq().take(it.index() as int),
    {
        out.push(c);
        assert(it.seq().take(it.index() + 1) =~= it.seq().take(it.index() as int).push(c));
    }
    assert(out@ =~= s@);
    out
}

/// `a` followed by `b`.
pub fn concat2(a: &str, b: &str) -> (out: String)
    ensures
        out@ == a@ + b@,
{
    String::from_str(a).concat(b)
}

/// `a`, `b` and `c` in a row.
pub fn concat3(a: &str, b: &str, c: &str) -> (out: String)
    ensures
        out@ == a@ + b@ + c@,
{
    String::from_str(a).concat(b).concat(c)
}

/// Whether two strings hold the same characters.
pub fn same_text(a: &str, b: &str) -> (r: bool)
    ensures
        r == (a@ == b@),
{
    let x = String::from_str(a);
    let y = String::from_str(b);
    x == y
}

/// A copy of `v`, string by string.
pub fn clone_strings(v: &Vec<String>) -> (out: Vec<String>)
    ensures
        out@ == v@,
{
    let mut out: Vec<String> = Vec::new();
    let mut i: usize = 0;
    while i < v.len()
        invariant
            i <= v.len(),
            out@ == v@.take(i as int),
        decreases v.len() - i,
    {
        out.push(v[i].clone());
        assert(v@.take(i + 1) =~= v@.take(i as int).push(v@[i as int]));
        i += 1;
    }
    assert(v@.take(v.len() as int) =~= v@);
    out
}

/// Whether one of the strings of `v` holds the characters of `x`.
pub fn contains_text(v: &Vec<String>, x: &str) -> (r: bool)
    ensures
        r == views(v@).contains(x@),
{
    let mut i: usize = 0;
    while i < v.len()
        invariant
            i <= v.len(),
            forall|j: int| 0 <= j < i ==> views(v@)[j] != x@,
        decreases v.len() - i,
    {
        if same_text(v[i].as_str(), x) {
            assert(views(v@)[i as int] == x@);
            return true;
        }
        i += 1;
    }
    false
}

/// `s` with `x` at its end, unless `s` holds `x` already.
pub open spec fn inserted(s: Seq<Seq<char>>, x: Seq<char>) -> Seq<Seq<char>> {
    if s.contains(x) {
        s
    } else {
        s.push(x)
    }
}

/// Adding to a sequence without repetitions what it lacks leaves it without
/// repetitions.
pub proof fn lemma_inserted_no_duplicates(s: Seq<Seq<char>>, x: Seq<char>)
    requires
        s.no_duplicates(),
    ensures
        inserted(s, x).no_duplicates(),
        inserted(s, x).contains(x),
        forall|y: Seq<char>| s.contains(y) ==> inserted(s, x).contains(y),
        forall|y: Seq<char>| inserted(s, x).contains(y) ==> s.contains(y) || y == x,
{
    let r = inserted(s, x);
    if !s.contains(x) {
        assert forall|i: int, j: int| 0 <= i < r.len() && 0 <= j < r.len() && i != j implies r[i]
            != r[j] by {
            if i < s.len() {
                assert(s.contains(r[i]));
            }
            if j < s.len() {
                assert(s.contains(r[j]));
            }
        }
        assert(r[s.len() as int] == x);
    }
    assert forall|y: Seq<char>| s.contains(y) implies r.contains(y) by {
        let i = choose|i: int| 0 <= i < s.len() && s[i] == y;
        assert(r[i] == y);
    }
    assert forall|y: Seq<char>| r.contains(y) implies s.contains(y) || y == x by {
        let i = choose|i: int| 0 <= i < r.len() && r[i] == y;
        if i < s.len() {
            assert(s[i] == y);
        }
    }
}

/// What `inserted` holds: `x`, and whatever `s` held.
pub proof fn lemma_inserted_contains(s: Seq<Seq<char>>, x: Seq<char>)
    ensures
        inserted(s, x).contains(x),
        forall|y: Seq<char>| s.contains(y) ==> inserted(s, x).contains(y),
{
    let r = inserted(s, x);
    if !s.contains(x) {
        assert(r[s.len() as int] == x);
    }
    assert forall|y: Seq<char>| s.contains(y) implies r.contains(y) by {
        let i = choose|i: int| 0 <= i < s.len() && s[i] == y;
        assert(r[i] == y);
    }
}

/// Puts `x` at the end of `v` unless `v` holds it already.
pub fn insert_text(v: &mut Vec<String>, x: &str)
    ensures
        views(final(v)@) == inserted(views(old(v)@), x@),
{
    if !contains_text(v, x) {
        let ghost before = views(v@);
        v.push(String::from_str(x));
        assert(views(v@) =~= before.push(x@));
    }
}

/// Each of `items` with `prefix` before it.
pub open spec fn prefixed(prefix: Seq<char>, items: Seq<Seq<char>>) -> Seq<Seq<char>> {
    Seq::new(items.len(), |i: int| prefix + items[i])
}

/// Puts `s` at the end of `out`.
pub fn push_text(out: &mut Vec<String>, s: String)
    ensures
        views(final(out)@) == views(old(out)@).push(s@),
{
    out.push(s);
    assert(views(out@) =~= views(old(out)@).push(s@));
}

/// Puts copies of `items` at the end of `out`, in order.
pub fn extend_texts(out: &mut Vec<String>, items: &Vec<String>)
    ensures
        views(final(out)@) == views(old(out)@) + views(items@),
{
    let mut i: usize = 0;
    assert(views(out@) =~= views(old(out)@) + views(items@).take(0));
    while i < items.len()
        invariant
            i <= items.len(),
            views(out@) == views(old(out)@) + views(items@).take(i as int),
        decreases items.len() - i,
    {
        let ghost before = views(out@);
        out.push(items[i].clone());
        assert(views(out@) =~= before.push(items@[i as int]@));
        assert(views(items@).take(i + 1) =~= views(items@).take(i as int).push(
            items@[i as int]@,
        ));
        i += 1;
    }
    assert(views(items@).take(items.len() as int) =~= views(items@));
}

/// Puts each of `items`, with `prefix` before it, at the end of `out`.
pub fn extend_prefixed(out: &mut Vec<String>, prefix: &str, items: &Vec<String>)
    ensures
        views(final(out)@) == views(old(out)@) + prefixed(prefix@, views(items@)),
{
    let mut i: usize = 0;
    assert(views(out@) =~= views(old(out)@) + prefixed(prefix@, views(items@)).take(0));
    while i < items.len()
        invariant
            i <= items.len(),
            views(out@) == views(old(out)@) + prefixed(prefix@, views(items@)).take(i as int),
        decreases items.len() - i,
    {
        let ghost before = views(out@);
        let item = concat2(prefix, items[i].as_str());
        out.push(item);
        assert(views(out@) =~= before.push(prefix@ + items@[i as int]@));
        assert(prefixed(prefix@, views(items@)).take(i + 1) =~= prefixed(
            prefix@,
            views(items@),
        ).take(i as int).push(prefix@ + items@[i as int]@));
        i += 1;
    }
    assert(prefixed(prefix@, views(items@)).take(items.len() as int) =~= prefixed(
        prefix@,
        views(items@),
    ));
}

/// The pieces of `s` between the occurrences of `sep`, as `split_on` gives them.
pub fn split(s: &str, sep: char) -> (out: Vec<String>)
    ensures
        views(out@) == split_on(s@, sep),
        out.len() >= 1,
{
    let chars = chars_of(s);
    let n = chars.len();
    let mut out: Vec<String> = Vec::new();
    let mut start: usize = 0;
    let mut i: usize = 0;
    proof {
        assert(s@.skip(0) =~= s@);
        assert(views(out@) + split_on(s@, sep) =~= split_on(s@, sep));
    }
    while i < n
        invariant
            chars@ == s@,
            n == chars.len(),
            start <= i <= n,
            forall|j: int| start <= j < i ==> chars@[j] != sep,
            split_on(s@, sep) == views(out@) + split_on(s@.skip(start as int), sep),
        decreases n - i,
    {
        if chars[i] == sep {
            let piece = String::from_str(s.substring_char(start, i));
            let ghost rest = s@.skip(start as int);
            proof {
                assert forall|j: int| 0 <= j < i - start implies rest[j] != sep by {
                    assert(rest[j] == chars@[start + j]);
                }
                lemma_find_char_is(rest, sep, i - start);
                assert(rest.take(i - start) =~= s@.subrange(start as int, i as int));
                assert(rest.skip(i - start + 1) =~= s@.skip(i + 1));
                assert(views(out@.push(piece)) =~= views(out@) + seq![piece@]);
            }
            out.push(piece);
            start = i + 1;
        }
        i += 1;
    }
    let piece = String::from_str(s.substring_char(start, n));
    proof {
        let rest = s@.skip(start as int);
        assert forall|j: int| 0 <= j < rest.len() implies rest[j] != sep by {
            assert(rest[j] == chars@[start + j]);
        }
        lemma_split_on_whole(rest, sep);
        assert(rest =~= s@.subrange(start as int, n as int));
        assert(views(out@.push(piece)) =~= views(out@) + seq![piece@]);
    }
    out.push(piece);
    out
}

/// `s` without the carriage return at its end, if it has one.
pub open spec fn without_return(s: Seq<char>) -> Seq<char> {
    if s.len() > 0 && s.last() == '\r' {
        s.drop_last()
    } else {
        s
    }
}

/// Line number `i` of the pieces that the line feeds part: a piece that a
/// line feed ends loses the carriage return before it.
pub open spec fn line_at(parts: Seq<Seq<char>>, i: int) -> Seq<char> {
    if i < parts.len() - 1 {
        without_return(parts[i])
    } else {
        parts[i]
    }
}

/// The lines of `s`: what the line feeds part, each without the carriage
/// return that may precede its line feed. Text after the last line feed is
/// a line too, unless it is empty.
pub open spec fn lines_of(s: Seq<char>) -> Seq<Seq<char>> {
    let parts = split_on(s, '\n');
    let count = if parts.last().len() == 0 {
        parts.len() - 1
    } else {
        parts.len() as int
    };
    Seq::new(count as nat, |i: int| line_at(parts, i))
}

/// The lines of `s`, as `lines_of` gives them.
pub fn lines(s: &str) -> (out: Vec<String>)
    ensures
        views(out@) == lines_of(s@),
{
    let parts = split(s, '\n');
    let last = parts.len() - 1;
    let count = if parts[last].as_str().unicode_len() == 0 {
        last
    } else {
        parts.len()
    };
    assert(views(parts@).last() == parts@[last as int]@);
    let ghost goal = lines_of(s@);
    let mut out: Vec<String> = Vec::new();
    let mut i: usize = 0;
    assert(views(out@) =~= goal.take(0));
    while i < count
        invariant
            i <= count <= parts.len(),
            last == parts.len() - 1,
            goal.len() == count,
            goal == lines_of(s@),
            views(parts@) == split_on(s@, '\n'),
            views(out@) == goal.take(i as int),
        decreases count - i,
    {
        let piece = parts[i].as_str();
        assert(piece@ == views(parts@)[i as int]);
        let n = piece.unicode_len();
        let line = if i < last && n > 0 && piece.get_char(n - 1) == '\r' {
            let cut = piece.substring_char(0, n - 1);
            assert(cut@ =~= piece@.drop_last());
            String::from_str(cut)
        } else {
            String::from_str(piece)
        };
        assert(line@ == goal[i as int]);
        let ghost before = views(out@);
        out.push(line);
        assert(views(out@) =~= before.push(goal[i as int]));
        assert(goal.take(i + 1) =~= goal.take(i as int).push(goal[i as int]));
        i += 1;
    }
    assert(goal.take(count as int) =~= goal);
    out
}

} // verus!
