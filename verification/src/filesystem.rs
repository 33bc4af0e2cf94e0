//! What scripts may ask of the file system.

use vstd::prelude::*;
use crate::environment::Environment;
use crate::workspace::{filter_entries, filter_view, kept_entries};
use crate::text::views;

verus! {

/// The file system as a script sees it.
#[derive(Clone, Debug)]
pub struct Filesystem {
    pub environment: Environment,
}

impl Filesystem {
    /// The file system of a run in `environment`.
    pub fn new(environment: Environment) -> (f: Filesystem)
        ensures
            f.environment == environment,
    {
        Filesystem { environment }
    }

    /// The files that a walk keeps of those that it found: all of them
    /// without a filter, else those whose extension the filter holds.
    pub fn walk_dir(&self, found: &Vec<String>, file_filter: &Option<Vec<String>>) -> (kept: Vec<
        String,
    >)
        ensures
            views(kept@) == kept_entries(
                views(found@),
                filter_view(*file_filter),
                found@.len(),
            ),
    {
        filter_entries(found, file_filter)
    }
}

} // verus!
