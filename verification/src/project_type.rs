//! What a project is built into.

use vstd::prelude::*;
use crate::text::same_text;

verus! {

/// A program, a static library or a dynamic library.
#[derive(Debug, Clone, Copy, PartialEq, Eq, Structural)]
pub enum ProjectType {
    Executable,
    StaticLibrary,
    DynamicLibrary,
}

impl ProjectType {
    /// The type that `name` spells, if any.
    pub open spec fn named(name: Seq<char>) -> Option<ProjectType> {
        if name == "Executable"@ {
            Some(ProjectType::Executable)
        } else if name == "StaticLibrary"@ {
            Some(ProjectType::StaticLibrary)
        } else if name == "DynamicLibrary"@ {
            Some(ProjectType::DynamicLibrary)
        } else {
            None
        }
    }

    /// Reads a type from its name.
    pub fn from_name(name: &str) -> (r: Option<ProjectType>)
        ensures
            r == Self::named(name@),
    {
        if same_text(name, "Executable") {
            Some(ProjectType::Executable)
        } else if same_text(name, "StaticLibrary") {
            Some(ProjectType::StaticLibrary)
        } else if same_text(name, "DynamicLibrary") {
            Some(ProjectType::DynamicLibrary)
        } else {
            None
        }
    }
}

impl Default for ProjectType {
    fn default() -> (r: ProjectType)
        ensures
            r == ProjectType::Executable,
    {
        ProjectType::Executable
    }
}

} // verus!
