//! The tools that a raw flag can be meant for.

use vstd::prelude::*;
use crate::text::same_text;

verus! {

/// The tool that takes a flag.
#[derive(Debug, Clone, Copy, PartialEq, Eq, Structural)]
pub enum FlagType {
    Compiler,
    Linker,
    RC,
    WINDRES,
}

impl FlagType {
    /// The tool that `name` spells, if any.
    pub open spec fn named(name: Seq<char>) -> Option<FlagType> {
        if name == "Compiler"@ {
            Some(FlagType::Compiler)
        } else if name == "Linker"@ {
            Some(FlagType::Linker)
        } else if name == "RC"@ {
            Some(FlagType::RC)
        } else if name == "WINDRES"@ {
            Some(FlagType::WINDRES)
        } else {
            None
        }
    }

    /// Reads a tool from its name.
    pub fn from_name(name: &str) -> (r: Option<FlagType>)
        ensures
            r == Self::named(name@),
    {
        if same_text(name, "Compiler") {
            Some(FlagType::Compiler)
        } else if same_text(name, "Linker") {
            Some(FlagType::Linker)
        } else if same_text(name, "RC") {
            Some(FlagType::RC)
        } else if same_text(name, "WINDRES") {
            Some(FlagType::WINDRES)
        } else {
            None
        }
    }
}

impl Default for FlagType {
    fn default() -> (r: FlagType)
        ensures
            r == FlagType::Compiler,
    {
        FlagType::Compiler
    }
}

} // verus!
