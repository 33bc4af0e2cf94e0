//! The categories into which source files fall, by extension.

use vstd::prelude::*;
use crate::paths::{extension, path_extension};
use crate::text::same_text;

verus! {

/// What a file is to a build: something to compile, a platform resource, a
/// module definition, or none of these.
#[derive(Debug, Copy, Clone, Hash, PartialEq, Eq, Structural)]
pub enum SourceFileType {
    Code,
    Resource,
    ModuleDefinition,
    Unknown,
}

impl SourceFileType {
    /// The category that an extension stands for.
    pub open spec fn of_extension(ext: Option<Seq<char>>) -> SourceFileType {
        match ext {
            None => SourceFileType::Unknown,
            Some(e) => if e == "cpp"@ || e == "c"@ || e == "cxx"@ {
                SourceFileType::Code
            } else if e == "rc"@ {
                SourceFileType::Resource
            } else if e == "def"@ {
                SourceFileType::ModuleDefinition
            } else {
                SourceFileType::Unknown
            },
        }
    }

    /// The category of the file at `path`.
    pub open spec fn classify(path: Seq<char>) -> SourceFileType {
        Self::of_extension(extension(path))
    }

    /// The category of the file at `path`, by its extension.
    pub fn from(path: &str) -> (t: SourceFileType)
        ensures
            t == Self::classify(path@),
    {
        match path_extension(path) {
            None => SourceFileType::Unknown,
            Some(ext) => {
                let e = ext.as_str();
                if same_text(e, "cpp") || same_text(e, "c") || same_text(e, "cxx") {
                    SourceFileType::Code
                } else if same_text(e, "rc") {
                    SourceFileType::Resource
                } else if same_text(e, "def") {
                    SourceFileType::ModuleDefinition
                } else {
                    SourceFileType::Unknown
                }
            },
        }
    }

    /// The name of the category.
    pub fn name(&self) -> (s: &'static str)
        ensures
            s@ == match *self {
                SourceFileType::Code => "Code"@,
                SourceFileType::Resource => "Resource"@,
                SourceFileType::ModuleDefinition => "ModuleDefinition"@,
                SourceFileType::Unknown => "Unknown"@,
            },
    {
        match self {
            SourceFileType::Code => "Code",
            SourceFileType::Resource => "Resource",
            SourceFileType::ModuleDefinition => "ModuleDefinition",
            SourceFileType::Unknown => "Unknown",
        }
    }
}

} // verus!
