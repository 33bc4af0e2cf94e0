//! The first steps of a run: what was asked, whether to be silent, and
//! where the run takes place.

use vstd::prelude::*;
use crate::cli::{Cli, SubCommands};
use crate::environment::Environment;
use crate::paths::join;

verus! {

/// The start of a run.
pub struct Init {}

impl Init {
    /// What the command line asks for.
    pub fn get_subcommand(args: &Cli) -> (cmd: &SubCommands)
        ensures
            *cmd == args.command,
    {
        &args.command
    }

    /// Whether the command asks for silence.
    pub fn check_quiet(command: &SubCommands) -> (quiet: bool)
        ensures
            quiet == command.quiet(),
    {
        match command {
            SubCommands::Build(args) => args.quiet,
            SubCommands::Inspect(args) => args.quiet,
            SubCommands::List(args) => args.quiet,
        }
    }

    /// The environment of the run, given the working directory of the
    /// command in canonical form.
    pub fn init_environment(command: &SubCommands, project_directory: &str) -> (e: Environment)
        ensures
            e.project_directory@ == project_directory@,
            e.project_file@ == join(project_directory@, command.file_view()),
            e.numake_directory@ == join(project_directory@, "numake"@),
    {
        Environment::new(project_directory, command.file())
    }
}

} // verus!
