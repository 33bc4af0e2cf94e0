//! Paths as text: segments between `/`, lexical resolution of `.` and `..`,
//! and the descendant test that every sandbox check of the engine rests on.

use vstd::prelude::*;
use vstd::string::*;
use crate::text::{
    chars_of, concat2, concat3, lemma_split_on_joined, lemma_split_on_whole, same_text, split,
    split_on, views,
};

verus! {

/// The separator between the segments of a path.
pub open spec fn separator() -> char {
    '/'
}

/// A path is absolute when it starts at the root.
pub open spec fn is_absolute(p: Seq<char>) -> bool {
    p.len() > 0 && p[0] == separator()
}

/// The text between the separators of `p`, empty pieces included.
pub open spec fn segments(p: Seq<char>) -> Seq<Seq<char>> {
    split_on(p, separator())
}

/// One step of lexical resolution: an empty segment and `.` change nothing,
/// `..` removes the last component and fails where there is none, and any
/// other segment is a new last component.
pub open spec fn push_segment(stack: Option<Seq<Seq<char>>>, seg: Seq<char>) -> Option<
    Seq<Seq<char>>,
> {
    match stack {
        None => None,
        Some(st) => if seg.len() == 0 || seg == "."@ {
            Some(st)
        } else if seg == ".."@ {
            if st.len() > 0 {
                Some(st.drop_last())
            } else {
                None
            }
        } else {
            Some(st.push(seg))
        },
    }
}

/// The components left after the first `n` segments have been resolved.
pub open spec fn resolve_prefix(segs: Seq<Seq<char>>, n: nat) -> Option<Seq<Seq<char>>>
    decreases n,
{
    if n == 0 {
        Some(Seq::empty())
    } else {
        push_segment(resolve_prefix(segs, (n - 1) as nat), segs[n - 1])
    }
}

/// The components of `p` once `.` and `..` are resolved without looking at
/// the file system; `None` when `..` climbs above where `p` starts.
pub open spec fn resolve(p: Seq<char>) -> Option<Seq<Seq<char>>> {
    resolve_prefix(segments(p), segments(p).len())
}

/// `path` lies in `base` or below it: both start at the same place, both
/// resolve, and the components of `base` begin those of `path`.
pub open spec fn is_descendant(path: Seq<char>, base: Seq<char>) -> bool {
    &&& is_absolute(path) == is_absolute(base)
    &&& resolve(path) is Some
    &&& resolve(base) is Some
    &&& resolve(base)->0.is_prefix_of(resolve(path)->0)
}

/// `rel` seen from `base`: an absolute `rel` stands for itself, otherwise it
/// is appended to `base` with one separator between them.
pub open spec fn join(base: Seq<char>, rel: Seq<char>) -> Seq<char> {
    if is_absolute(rel) || base.len() == 0 {
        rel
    } else if base.last() == separator() {
        base + rel
    } else {
        base + "/"@ + rel
    }
}

/// The file name among the first `n` segments of a path: the last segment
/// that is neither empty nor `.`, so that a separator or a `.` at the end
/// of the path does not hide the name. There is none where that segment is
/// `..`, and none where every segment is empty or `.`.
pub open spec fn name_among(segs: Seq<Seq<char>>, n: nat) -> Option<Seq<char>>
    decreases n,
{
    if n == 0 {
        None
    } else if segs[n - 1].len() == 0 || segs[n - 1] == "."@ {
        name_among(segs, (n - 1) as nat)
    } else if segs[n - 1] == ".."@ {
        None
    } else {
        Some(segs[n - 1])
    }
}

/// The file name of `p`, if it has one.
pub open spec fn file_name(p: Seq<char>) -> Option<Seq<char>> {
    name_among(segments(p), segments(p).len())
}

/// The extension of a file name: what follows its final dot. There is none
/// where the name has no dot, and none where its only dot is its first
/// character.
pub open spec fn extension_of_name(name: Seq<char>) -> Option<Seq<char>> {
    let parts = split_on(name, '.');
    if parts.len() < 2 || (parts.len() == 2 && parts[0].len() == 0) {
        None
    } else {
        Some(parts.last())
    }
}

/// The extension of the file name of `p`; none where `p` has no file name.
pub open spec fn extension(p: Seq<char>) -> Option<Seq<char>> {
    match file_name(p) {
        Some(name) => extension_of_name(name),
        None => None,
    }
}

/// Once resolution has failed it stays failed, whatever segments follow.
pub proof fn lemma_resolve_failure_stays(segs: Seq<Seq<char>>, n: nat, m: nat)
    requires
        n <= m,
        resolve_prefix(segs, n) is None,
    ensures
        resolve_prefix(segs, m) is None,
    decreases m,
{
    if n < m {
        lemma_resolve_failure_stays(segs, n, (m - 1) as nat);
    }
}

/// Resolution carried on from `state` over the first `n` of `segs`.
pub open spec fn resolve_from(state: Option<Seq<Seq<char>>>, segs: Seq<Seq<char>>, n: nat)
    -> Option<Seq<Seq<char>>>
    decreases n,
{
    if n == 0 {
        state
    } else {
        push_segment(resolve_from(state, segs, (n - 1) as nat), segs[n - 1])
    }
}

/// Resolution looks at the segments that it is given and at no others.
pub proof fn lemma_resolve_agrees(a: Seq<Seq<char>>, b: Seq<Seq<char>>, n: nat)
    requires
        n <= a.len(),
        n <= b.len(),
        forall|i: int| 0 <= i < n ==> a[i] == b[i],
    ensures
        resolve_prefix(a, n) == resolve_prefix(b, n),
    decreases n,
{
    if n > 0 {
        lemma_resolve_agrees(a, b, (n - 1) as nat);
    }
}

/// Resolving the segments of two texts in a row is resolving those of the
/// first and carrying on over those of the second.
pub proof fn lemma_resolve_in_a_row(a: Seq<Seq<char>>, b: Seq<Seq<char>>, n: nat)
    requires
        n <= b.len(),
    ensures
        resolve_prefix(a + b, a.len() + n) == resolve_from(resolve_prefix(a, a.len()), b, n),
    decreases n,
{
    if n > 0 {
        lemma_resolve_in_a_row(a, b, (n - 1) as nat);
        assert((a + b)[a.len() + n - 1] == b[n - 1]);
    } else {
        lemma_resolve_agrees(a + b, a, a.len());
    }
}

/// Carried on over segments none of which is `..`, a resolution that has
/// not failed does not fail, and keeps the components that it had.
pub proof fn lemma_resolve_without_climbing(start: Seq<Seq<char>>, segs: Seq<Seq<char>>, n: nat)
    requires
        n <= segs.len(),
        forall|i: int| 0 <= i < n ==> segs[i] != ".."@,
    ensures
        resolve_from(Some(start), segs, n) is Some,
        start.is_prefix_of(resolve_from(Some(start), segs, n)->0),
    decreases n,
{
    if n > 0 {
        lemma_resolve_without_climbing(start, segs, (n - 1) as nat);
        let before = resolve_from(Some(start), segs, (n - 1) as nat)->0;
        let after = resolve_from(Some(start), segs, n)->0;
        assert(start =~= before.subrange(0, start.len() as int));
        assert(start =~= after.subrange(0, start.len() as int));
    } else {
        assert(start =~= start.subrange(0, start.len() as int));
    }
}

/// Resolving a relative path seen from a directory is resolving the
/// directory and carrying on over the segments of the path; the result
/// starts where the directory starts.
pub proof fn lemma_resolve_joined(base: Seq<char>, rel: Seq<char>)
    requires
        !is_absolute(rel),
    ensures
        resolve(join(base, rel)) == resolve_from(
            resolve(base),
            segments(rel),
            segments(rel).len(),
        ),
        is_absolute(join(base, rel)) == is_absolute(base),
{
    reveal_strlit("/");
    assert("/"@ =~= seq!['/']);
    let rs = segments(rel);
    let empty = Seq::<Seq<char>>::empty();
    if base.len() == 0 {
        lemma_resolve_in_a_row(empty, rs, rs.len());
        assert(empty + rs =~= rs);
        let none = Seq::<char>::empty();
        assert(base =~= none);
        assert(segments(none) =~= seq![none]);
        assert(resolve_prefix(seq![none], 0) == Some(empty));
        assert(resolve_prefix(seq![none], 1) == push_segment(
            resolve_prefix(seq![none], 0),
            seq![none][0],
        ));
        assert(resolve(base) == Some(empty));
    } else if base.last() == separator() {
        let front = base.drop_last();
        let none = Seq::<char>::empty();
        assert(base =~= front + seq!['/'] + none);
        assert(base + rel =~= front + seq!['/'] + rel);
        lemma_split_on_joined(front, none, '/');
        lemma_split_on_joined(front, rel, '/');
        let fs = segments(front);
        assert(segments(none) =~= seq![none]);
        lemma_resolve_in_a_row(fs, seq![none], 1);
        lemma_resolve_in_a_row(fs, rs, rs.len());
        let r = resolve_prefix(fs, fs.len());
        assert(resolve_from(r, seq![none], 0) == r);
        assert(resolve_from(r, seq![none], 1) == push_segment(
            resolve_from(r, seq![none], 0),
            seq![none][0],
        ));
        assert(segments(base) == fs + seq![none]);
        assert(resolve(base) == r);
        assert(join(base, rel)[0] == base[0]);
    } else {
        assert(base + "/"@ + rel =~= base + seq!['/'] + rel);
        lemma_split_on_joined(base, rel, '/');
        let bs = segments(base);
        lemma_resolve_in_a_row(bs, rs, rs.len());
        assert(join(base, rel)[0] == base[0]);
    }
}

/// A relative destination that never names `..`, seen from a directory
/// that resolves, lies in that directory or below it.
pub proof fn law_plain_destination_stays_inside(base: Seq<char>, rel: Seq<char>)
    requires
        resolve(base) is Some,
        !is_absolute(rel),
        forall|i: int| 0 <= i < segments(rel).len() ==> segments(rel)[i] != ".."@,
    ensures
        is_descendant(join(base, rel), base),
{
    lemma_resolve_joined(base, rel);
    lemma_resolve_without_climbing(resolve(base)->0, segments(rel), segments(rel).len());
}

/// A name that can stand for one entry of a directory: it is not empty,
/// holds no separator, and is neither `.` nor `..`.
pub open spec fn is_entry_name(name: Seq<char>) -> bool {
    &&& name.len() > 0
    &&& forall|i: int| 0 <= i < name.len() ==> name[i] != separator()
    &&& name != "."@
    &&& name != ".."@
}

/// An entry name seen from a directory that resolves is a direct child of
/// that directory: its components are those of the directory and then the
/// name, whatever characters the name holds besides.
pub proof fn law_entry_is_direct_child(dir: Seq<char>, name: Seq<char>)
    requires
        resolve(dir) is Some,
        is_entry_name(name),
    ensures
        resolve(join(dir, name)) == Some(resolve(dir)->0.push(name)),
        is_descendant(join(dir, name), dir),
{
    lemma_split_on_whole(name, separator());
    let ns = segments(name);
    assert(ns == seq![name]);
    lemma_resolve_joined(dir, name);
    let r = resolve(dir);
    assert(resolve_from(r, ns, 0) == r);
    assert(resolve_from(r, ns, 1) == push_segment(resolve_from(r, ns, 0), ns[0]));
    let up = r->0.push(name);
    assert(r->0 =~= up.subrange(0, r->0.len() as int));
}

/// The destination that climbs out of a directory by one step and names
/// `name` there.
pub open spec fn climbing(name: Seq<char>) -> Seq<char> {
    "../"@ + name
}

/// A destination that climbs out of the directory and names an entry there
/// leaves the directory, unless the entry it names is the directory itself:
/// seen from a directory that resolves, `../name` does not lie in it where
/// the directory has no component to climb from or its last component is
/// not `name`.
pub proof fn law_climbing_destination_leaves(base: Seq<char>, name: Seq<char>)
    requires
        resolve(base) is Some,
        is_entry_name(name),
        resolve(base)->0.len() == 0 || resolve(base)->0.last() != name,
    ensures
        !is_descendant(join(base, climbing(name)), base),
{
    reveal_strlit("../");
    reveal_strlit("..");
    reveal_strlit(".");
    let rel = climbing(name);
    let dots = ".."@;
    assert(dots =~= seq!['.', '.']);
    assert(rel =~= dots + seq!['/'] + name);
    lemma_split_on_joined(dots, name, '/');
    lemma_split_on_whole(dots, '/');
    lemma_split_on_whole(name, '/');
    let rs = segments(rel);
    assert(rs =~= seq![dots, name]);
    assert(rel[0] == '.');
    lemma_resolve_joined(base, rel);
    let r = resolve(base);
    assert(resolve_from(r, rs, 0) == r);
    assert(resolve_from(r, rs, 1) == push_segment(resolve_from(r, rs, 0), rs[0]));
    assert(resolve_from(r, rs, 2) == push_segment(resolve_from(r, rs, 1), rs[1]));
    assert(rs.len() == 2);
    assert(rs[0] == dots && rs[1] == name);
    assert(dots.len() == 2 && "."@.len() == 1);
    assert(dots != "."@);
    if r->0.len() > 0 {
        let out = r->0.drop_last().push(name);
        assert(resolve_from(r, rs, 1) == Some(r->0.drop_last()));
        assert(resolve(join(base, rel)) == Some(out));
        if r->0.is_prefix_of(out) {
            assert(out.subrange(0, r->0.len() as int)[r->0.len() - 1] == name);
            assert(r->0.last() == name);
        }
    }
}

/// A path that resolves lies in itself.
pub proof fn law_descendant_of_itself(p: Seq<char>)
    requires
        resolve(p) is Some,
    ensures
        is_descendant(p, p),
{
    let c = resolve(p)->0;
    assert(c =~= c.subrange(0, c.len() as int));
}

/// What lies in a directory that lies in another lies in that other too.
pub proof fn law_descendant_is_transitive(a: Seq<char>, b: Seq<char>, c: Seq<char>)
    requires
        is_descendant(a, b),
        is_descendant(b, c),
    ensures
        is_descendant(a, c),
{
    let ra = resolve(a)->0;
    let rb = resolve(b)->0;
    let rc = resolve(c)->0;
    assert(rc =~= rb.subrange(0, rc.len() as int));
    assert(rb =~= ra.subrange(0, rb.len() as int));
    assert(rc =~= ra.subrange(0, rc.len() as int));
}

/// Whether `p` starts at the root.
pub fn path_is_absolute(p: &str) -> (r: bool)
    ensures
        r == is_absolute(p@),
{
    let chars = chars_of(p);
    chars.len() > 0 && chars[0] == '/'
}

/// Resolves `.` and `..` in `p` without looking at the file system.
pub fn resolve_path(p: &str) -> (out: Option<Vec<String>>)
    ensures
        match out {
            Some(v) => resolve(p@) == Some(views(v@)),
            None => resolve(p@) is None,
        },
{
    let segs = split(p, '/');
    let mut stack: Vec<String> = Vec::new();
    let mut i: usize = 0;
    assert(views(stack@) =~= Seq::<Seq<char>>::empty());
    while i < segs.len()
        invariant
            i <= segs.len(),
            views(segs@) == segments(p@),
            resolve_prefix(segments(p@), i as nat) == Some(views(stack@)),
        decreases segs.len() - i,
    {
        let seg = segs[i].as_str();
        assert(seg@ == views(segs@)[i as int]);
        let ghost before = views(stack@);
        if seg.unicode_len() == 0 || same_text(seg, ".") {
        } else if same_text(seg, "..") {
            if stack.len() > 0 {
                stack.pop();
                assert(views(stack@) =~= before.drop_last());
            } else {
                proof {
                    lemma_resolve_failure_stays(
                        segments(p@),
                        (i + 1) as nat,
                        segments(p@).len(),
                    );
                }
                return None;
            }
        } else {
            stack.push(segs[i].clone());
            assert(views(stack@) =~= before.push(seg@));
        }
        i += 1;
    }
    Some(stack)
}

/// Whether `path` lies in `base` or below it.
#[verifier::loop_isolation(false)]
pub fn path_is_descendant(path: &str, base: &str) -> (r: bool)
    ensures
        r == is_descendant(path@, base@),
{
    if path_is_absolute(path) != path_is_absolute(base) {
        return false;
    }
    let p = match resolve_path(path) {
        Some(p) => p,
        None => {
            return false;
        },
    };
    let b = match resolve_path(base) {
        Some(b) => b,
        None => {
            return false;
        },
    };
    if b.len() > p.len() {
        assert(!views(b@).is_prefix_of(views(p@)));
        return false;
    }
    let mut i: usize = 0;
    while i < b.len()
        invariant
            i <= b.len() <= p.len(),
            forall|j: int| 0 <= j < i ==> views(b@)[j] == views(p@)[j],
        decreases b.len() - i,
    {
        if !same_text(b[i].as_str(), p[i].as_str()) {
            assert(views(p@).subrange(0, b.len() as int)[i as int] == views(p@)[i as int]);
            assert(!views(b@).is_prefix_of(views(p@)));
            return false;
        }
        i += 1;
    }
    assert(views(b@) =~= views(p@).subrange(0, b.len() as int));
    true
}

/// `rel` seen from `base`.
pub fn join_path(base: &str, rel: &str) -> (out: String)
    ensures
        out@ == join(base@, rel@),
{
    let b = chars_of(base);
    if path_is_absolute(rel) || b.len() == 0 {
        String::from_str(rel)
    } else if b[b.len() - 1] == '/' {
        concat2(base, rel)
    } else {
        concat3(base, "/", rel)
    }
}

/// The file name of `p`, if it has one.
pub fn path_file_name(p: &str) -> (out: Option<String>)
    ensures
        match out {
            Some(name) => file_name(p@) == Some(name@),
            None => file_name(p@) is None,
        },
{
    let segs = split(p, '/');
    let mut n: usize = segs.len();
    while n > 0
        invariant
            n <= segs.len(),
            views(segs@) == segments(p@),
            file_name(p@) == name_among(segments(p@), n as nat),
        decreases n,
    {
        let seg = segs[n - 1].as_str();
        assert(seg@ == views(segs@)[n - 1]);
        if seg.unicode_len() == 0 || same_text(seg, ".") {
            n -= 1;
        } else if same_text(seg, "..") {
            return None;
        } else {
            return Some(segs[n - 1].clone());
        }
    }
    None
}

/// The extension of the file name of `p`.
pub fn path_extension(p: &str) -> (out: Option<String>)
    ensures
        match out {
            Some(e) => extension(p@) == Some(e@),
            None => extension(p@) is None,
        },
{
    let name = match path_file_name(p) {
        Some(name) => name,
        None => {
            return None;
        },
    };
    let parts = split(name.as_str(), '.');
    if parts.len() < 2 || (parts.len() == 2 && parts[0].as_str().unicode_len() == 0) {
        assert(views(parts@)[0] == parts@[0]@);
        None
    } else {
        let e = parts[parts.len() - 1].clone();
        assert(e@ == views(parts@).last());
        Some(e)
    }
}

} // verus!
