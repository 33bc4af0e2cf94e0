//! The path from one directory to a file below it, as `pathdiff` computes it.

use vstd::prelude::*;

verus! {

/// The relative path that leads from `base` to `path`, where there is one.
pub uninterp spec fn relative_path(path: Seq<char>, base: Seq<char>) -> Option<Seq<char>>;

/// Calls `pathdiff::diff_paths`. Trusted: the result is a function of the two
/// paths alone; nothing is claimed of what it holds.
#[verifier::external_body]
pub(crate) fn diff_paths(path: &str, base: &str) -> (rel: Option<String>)
    ensures
        match rel {
            Some(r) => relative_path(path@, base@) == Some(r@),
            None => relative_path(path@, base@) is None,
        },
{
    let rel = pathdiff::diff_paths(path, base)?;
    rel.to_str().map(String::from)
}

} // verus!
