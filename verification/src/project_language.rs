//! The language of a project, which picks the compiler driver.

use vstd::prelude::*;
use crate::text::same_text;

verus! {

/// C or C++.
#[derive(Debug, Clone, Copy, PartialEq, Eq, Structural)]
pub enum ProjectLanguage {
    C,
    CPP,
}

impl ProjectLanguage {
    /// The language that `name` spells, if any.
    pub open spec fn named(name: Seq<char>) -> Option<ProjectLanguage> {
        if name == "C"@ {
            Some(ProjectLanguage::C)
        } else if name == "CPP"@ {
            Some(ProjectLanguage::CPP)
        } else {
            None
        }
    }

    /// Reads a language from its name.
    pub fn from_name(name: &str) -> (r: Option<ProjectLanguage>)
        ensures
            r == Self::named(name@),
    {
        if same_text(name, "C") {
            Some(ProjectLanguage::C)
        } else if same_text(name, "CPP") {
            Some(ProjectLanguage::CPP)
        } else {
            None
        }
    }

    /// The name of the language.
    pub fn name(&self) -> (s: &'static str)
        ensures
            s@ == match *self {
                ProjectLanguage::C => "C"@,
                ProjectLanguage::CPP => "CPP"@,
            },
    {
        match self {
            ProjectLanguage::C => "C",
            ProjectLanguage::CPP => "CPP",
        }
    }

    /// The GCC driver for the language.
    pub open spec fn driver(self) -> Seq<char> {
        match self {
            ProjectLanguage::C => "gcc"@,
            ProjectLanguage::CPP => "g++"@,
        }
    }

    /// The GCC driver for the language.
    pub fn gcc_driver(&self) -> (s: &'static str)
        ensures
            s@ == self.driver(),
    {
        match self {
            ProjectLanguage::C => "gcc",
            ProjectLanguage::CPP => "g++",
        }
    }
}

impl Default for ProjectLanguage {
    fn default() -> (r: ProjectLanguage)
        ensures
            r == ProjectLanguage::C,
    {
        ProjectLanguage::C
    }
}

} // verus!
