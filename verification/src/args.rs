//! The arguments handed to a script: `key=value` pairs and bare keys.

use vstd::prelude::*;
use vstd::string::*;
use crate::text::{same_text, split, split_on, views};

verus! {

/// The pieces `1..n` of `parts`, each with `=` after it, in a row.
pub open spec fn tail_text(parts: Seq<Seq<char>>, n: nat) -> Seq<char>
    decreases n,
{
    if n <= 1 {
        Seq::empty()
    } else {
        tail_text(parts, (n - 1) as nat) + parts[n - 1] + "="@
    }
}

/// Key and value of one argument. The key is what precedes the first `=`.
/// Without `=` there is no value; with one `=` the value is what follows
/// it; with more, the value is every later piece with `=` after it.
pub open spec fn arg_entry(arg: Seq<char>) -> (Seq<char>, Option<Seq<char>>) {
    let parts = split_on(arg, '=');
    if parts.len() == 2 {
        (parts[0], Some(parts[1]))
    } else if parts.len() > 1 {
        (parts[0], Some(tail_text(parts, parts.len())))
    } else {
        (parts[0], None)
    }
}

/// Key and value of each argument, in order.
pub open spec fn arg_entries(args: Seq<Seq<char>>) -> Seq<(Seq<char>, Option<Seq<char>>)> {
    Seq::new(args.len(), |i: int| arg_entry(args[i]))
}

/// Key and value of each pair, as text.
pub open spec fn pair_views(entries: Seq<(String, Option<String>)>) -> Seq<
    (Seq<char>, Option<Seq<char>>),
> {
    Seq::new(
        entries.len(),
        |i: int|
            (
                entries[i].0@,
                match entries[i].1 {
                    Some(v) => Some(v@),
                    None => None,
                },
            ),
    )
}

/// The map that the first `n` entries stand for: a later entry replaces an
/// earlier one with the same key.
pub open spec fn map_of(entries: Seq<(Seq<char>, Option<Seq<char>>)>, n: nat) -> Map<
    Seq<char>,
    Option<Seq<char>>,
>
    decreases n,
{
    if n == 0 {
        Map::empty()
    } else {
        map_of(entries, (n - 1) as nat).insert(entries[n - 1].0, entries[n - 1].1)
    }
}

/// The map from keys to values that the arguments stand for.
pub open spec fn args_map(args: Seq<Seq<char>>) -> Map<Seq<char>, Option<Seq<char>>> {
    map_of(arg_entries(args), args.len())
}

/// Key and value of one argument.
pub fn parse_argument(arg: &str) -> (entry: (String, Option<String>))
    ensures
        entry.0@ == arg_entry(arg@).0,
        match entry.1 {
            Some(v) => arg_entry(arg@).1 == Some(v@),
            None => arg_entry(arg@).1 is None,
        },
{
    let parts = split(arg, '=');
    assert(views(parts@)[0] == parts@[0]@);
    if parts.len() == 2 {
        assert(views(parts@)[1] == parts@[1]@);
        (parts[0].clone(), Some(parts[1].clone()))
    } else if parts.len() > 1 {
        let mut value = String::new();
        let mut i: usize = 1;
        assert(value@ =~= tail_text(views(parts@), 1));
        while i < parts.len()
            invariant
                1 <= i <= parts.len(),
                value@ == tail_text(views(parts@), i as nat),
            decreases parts.len() - i,
        {
            assert(views(parts@)[i as int] == parts@[i as int]@);
            value = value.concat(parts[i].as_str()).concat("=");
            i += 1;
        }
        (parts[0].clone(), Some(value))
    } else {
        (parts[0].clone(), None)
    }
}

/// Key and value of each argument, in the order of the arguments. The map
/// that they stand for is `args_map`.
pub fn args_to_map(args: Vec<String>) -> (entries: Vec<(String, Option<String>)>)
    ensures
        pair_views(entries@) == arg_entries(views(args@)),
        map_of(pair_views(entries@), entries@.len()) == args_map(views(args@)),
{
    let ghost goal = arg_entries(views(args@));
    let mut entries: Vec<(String, Option<String>)> = Vec::new();
    let mut i: usize = 0;
    assert(pair_views(entries@) =~= goal.take(0));
    while i < args.len()
        invariant
            i <= args.len(),
            goal == arg_entries(views(args@)),
            pair_views(entries@) == goal.take(i as int),
        decreases args.len() - i,
    {
        let entry = parse_argument(args[i].as_str());
        assert(args@[i as int]@ == views(args@)[i as int]);
        let ghost before = pair_views(entries@);
        entries.push(entry);
        assert(pair_views(entries@) =~= before.push(goal[i as int]));
        assert(goal.take(i + 1) =~= goal.take(i as int).push(goal[i as int]));
        i += 1;
    }
    assert(goal.take(args.len() as int) =~= goal);
    entries
}

/// A key that none of the entries from `from` on holds is mapped as the
/// entries before `from` map it.
pub proof fn lemma_map_of_skips(
    entries: Seq<(Seq<char>, Option<Seq<char>>)>,
    from: nat,
    n: nat,
    key: Seq<char>,
)
    requires
        from <= n <= entries.len(),
        forall|j: int| from <= j < n ==> entries[j].0 != key,
    ensures
        map_of(entries, n).contains_key(key) == map_of(entries, from).contains_key(key),
        map_of(entries, n).contains_key(key) ==> map_of(entries, n)[key] == map_of(
            entries,
            from,
        )[key],
    decreases n,
{
    if from < n {
        lemma_map_of_skips(entries, from, (n - 1) as nat, key);
    }
}

/// What the entries map `key` to: nothing where no entry holds it, else
/// the value of the last entry that does.
pub fn lookup_argument(entries: &Vec<(String, Option<String>)>, key: &str) -> (r: Option<
    Option<String>,
>)
    ensures
        ({
            let m = map_of(pair_views(entries@), entries@.len());
            match r {
                None => !m.contains_key(key@),
                Some(v) => m.contains_key(key@) && m[key@] == match v {
                    Some(s) => Some(s@),
                    None => None::<Seq<char>>,
                },
            }
        }),
{
    let mut i: usize = entries.len();
    while i > 0
        invariant
            i <= entries.len(),
            forall|j: int| i <= j < entries.len() ==> pair_views(entries@)[j].0 != key@,
        decreases i,
    {
        i -= 1;
        if same_text(entries[i].0.as_str(), key) {
            proof {
                lemma_map_of_skips(
                    pair_views(entries@),
                    (i + 1) as nat,
                    entries@.len(),
                    key@,
                );
                assert(pair_views(entries@)[i as int].0 == key@);
            }
            return match &entries[i].1 {
                Some(v) => Some(Some(v.clone())),
                None => Some(None),
            };
        }
    }
    proof {
        lemma_map_of_skips(pair_views(entries@), 0, entries@.len(), key@);
    }
    None
}

} // verus!
