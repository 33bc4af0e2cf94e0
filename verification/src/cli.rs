//! What the command line says, once it has been read.

use vstd::prelude::*;

verus! {

/// A build of one target, or of all.
#[derive(Clone, Debug)]
pub struct NuMakeArgs {
    /// The target to build; `all` stands for every target.
    pub target: String,
    /// Arguments handed to the script.
    pub arguments: Option<Vec<String>>,
    pub toolset_compiler: Option<String>,
    pub toolset_linker: Option<String>,
    /// The script, relative to the working directory.
    pub file: String,
    pub output: Option<String>,
    pub workdir: String,
    pub quiet: bool,
}

/// An inspection of every target, without a build.
#[derive(Clone, Debug)]
pub struct InspectArgs {
    pub arguments: Option<Vec<String>>,
    pub toolset_compiler: Option<String>,
    pub toolset_linker: Option<String>,
    pub file: String,
    pub workdir: String,
    pub output: Option<String>,
    pub quiet: bool,
}

/// A listing of the targets.
#[derive(Clone, Debug)]
pub struct ListArgs {
    pub arguments: Option<Vec<String>>,
    pub file: String,
    pub workdir: String,
    pub quiet: bool,
}

/// What the tool is asked to do.
#[derive(Clone, Debug)]
pub enum SubCommands {
    Build(NuMakeArgs),
    Inspect(InspectArgs),
    List(ListArgs),
}

/// The command line.
#[derive(Clone, Debug)]
pub struct Cli {
    pub command: SubCommands,
}

impl SubCommands {
    /// The working directory that the command names.
    pub open spec fn workdir_view(&self) -> Seq<char> {
        match *self {
            SubCommands::Build(a) => a.workdir@,
            SubCommands::Inspect(a) => a.workdir@,
            SubCommands::List(a) => a.workdir@,
        }
    }

    /// The script that the command names.
    pub open spec fn file_view(&self) -> Seq<char> {
        match *self {
            SubCommands::Build(a) => a.file@,
            SubCommands::Inspect(a) => a.file@,
            SubCommands::List(a) => a.file@,
        }
    }

    /// Whether the command asks for silence.
    pub open spec fn quiet(&self) -> bool {
        match *self {
            SubCommands::Build(a) => a.quiet,
            SubCommands::Inspect(a) => a.quiet,
            SubCommands::List(a) => a.quiet,
        }
    }

    /// The working directory that the command names.
    pub fn workdir(&self) -> (r: &str)
        ensures
            r@ == self.workdir_view(),
    {
        match self {
            SubCommands::Build(a) => a.workdir.as_str(),
            SubCommands::Inspect(a) => a.workdir.as_str(),
            SubCommands::List(a) => a.workdir.as_str(),
        }
    }

    /// The script that the command names.
    pub fn file(&self) -> (r: &str)
        ensures
            r@ == self.file_view(),
    {
        match self {
            SubCommands::Build(a) => a.file.as_str(),
            SubCommands::Inspect(a) => a.file.as_str(),
            SubCommands::List(a) => a.file.as_str(),
        }
    }
}

} // verus!
