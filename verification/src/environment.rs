//! The directories in which a run takes place.

use vstd::prelude::*;
use vstd::string::*;
use crate::paths::{join, join_path};

verus! {

/// The directory of the project, the directory that the tool keeps in it,
/// and the script of the project.
#[derive(Clone, Debug)]
pub struct Environment {
    pub numake_directory: String,
    pub project_directory: String,
    pub project_file: String,
}

impl Environment {
    /// The environment of the project in `project_directory`, whose script
    /// is `project_file` seen from there.
    pub fn new(project_directory: &str, project_file: &str) -> (e: Environment)
        ensures
            e.project_directory@ == project_directory@,
            e.project_file@ == join(project_directory@, project_file@),
            e.numake_directory@ == join(project_directory@, "numake"@),
    {
        Environment {
            numake_directory: join_path(project_directory, "numake"),
            project_directory: String::from_str(project_directory),
            project_file: join_path(project_directory, project_file),
        }
    }
}

} // verus!
