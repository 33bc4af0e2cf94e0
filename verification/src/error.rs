//! What can go wrong in the engine, apart from a tool that exits with a failure.

use vstd::prelude::*;

verus! {

/// The errors that the engine itself raises.
#[derive(Debug, Clone, Copy, PartialEq, Eq, Structural)]
pub enum NuMakeError {
    /// A path leaves the working directory.
    PathOutsideWorkingDirectory,
    /// An asset would be copied to a place outside the output directory.
    AssetCopyPathOutsideWorkingDirectory,
    /// No compiler is known for the target.
    ToolsetCompilerNull,
    /// No linker is known for the target.
    ToolsetLinkerNull,
    /// A directory was given where a file is wanted.
    AddFileIsDirectory,
    /// No task of that name exists.
    TaskNotFound,
    /// No target of that name is registered.
    TargetNotFound,
    /// A target for the vendor toolchain is built on another system.
    MsvcWindowsOnly,
    /// The vendor toolchain is not installed.
    VcNotFound,
    /// The locator of the vendor toolchain answered with something else
    /// than a list of paths.
    LocatorAnswerUnreadable,
}

impl NuMakeError {
    /// The sentence shown to the user for this error.
    pub fn message(&self) -> (s: &'static str)
        ensures
            s@ == match *self {
                NuMakeError::PathOutsideWorkingDirectory => "Path exits working directory!"@,
                NuMakeError::AssetCopyPathOutsideWorkingDirectory =>
                    "Tried to copy asset to path outside output directory!"@,
                NuMakeError::ToolsetCompilerNull => "No compiler specified/found!"@,
                NuMakeError::ToolsetLinkerNull => "No linker specified/found!"@,
                NuMakeError::AddFileIsDirectory =>
                    "Attempted to add_file with a directory path! Use add_dir instead!"@,
                NuMakeError::TaskNotFound => "Task not found!"@,
                NuMakeError::TargetNotFound => "Target not found!"@,
                NuMakeError::MsvcWindowsOnly => "MSVC target can only be compiled on windows!"@,
                NuMakeError::VcNotFound =>
                    "Visual C/C++ installation not found! Make sure you have Visual Studio/Build Tools installed!"@,
                NuMakeError::LocatorAnswerUnreadable => "Could not read the answer of vswhere!"@,
            },
    {
        match self {
            NuMakeError::PathOutsideWorkingDirectory => "Path exits working directory!",
            NuMakeError::AssetCopyPathOutsideWorkingDirectory =>
                "Tried to copy asset to path outside output directory!",
            NuMakeError::ToolsetCompilerNull => "No compiler specified/found!",
            NuMakeError::ToolsetLinkerNull => "No linker specified/found!",
            NuMakeError::AddFileIsDirectory =>
                "Attempted to add_file with a directory path! Use add_dir instead!",
            NuMakeError::TaskNotFound => "Task not found!",
            NuMakeError::TargetNotFound => "Target not found!",
            NuMakeError::MsvcWindowsOnly => "MSVC target can only be compiled on windows!",
            NuMakeError::VcNotFound =>
                "Visual C/C++ installation not found! Make sure you have Visual Studio/Build Tools installed!",
            NuMakeError::LocatorAnswerUnreadable => "Could not read the answer of vswhere!",
        }
    }
}

/// The sentences of the errors, by name.
#[allow(non_snake_case)]
#[derive(Debug, Clone, Copy)]
pub struct NuMakeErrorType<'a> {
    pub PATH_OUTSIDE_WORKING_DIR: &'a str,
    pub ASSET_COPY_PATH_OUTSIDE_OUTPUT_DIR: &'a str,
    pub TOOLSET_COMPILER_NULL: &'a str,
    pub TOOLSET_LINKER_NULL: &'a str,
    pub ADD_FILE_IS_DIRECTORY: &'a str,
    pub TARGET_NOT_FOUND: &'a str,
    pub MSVC_WINDOWS_ONLY: &'a str,
    pub VC_NOT_FOUND: &'a str,
}

/// The sentences of the errors: each is the message of its error.
pub fn numake_error() -> (e: NuMakeErrorType<'static>)
    ensures
        e.PATH_OUTSIDE_WORKING_DIR@ == "Path exits working directory!"@,
        e.ASSET_COPY_PATH_OUTSIDE_OUTPUT_DIR@
            == "Tried to copy asset to path outside output directory!"@,
        e.TOOLSET_COMPILER_NULL@ == "No compiler specified/found!"@,
        e.TOOLSET_LINKER_NULL@ == "No linker specified/found!"@,
        e.ADD_FILE_IS_DIRECTORY@
            == "Attempted to add_file with a directory path! Use add_dir instead!"@,
        e.TARGET_NOT_FOUND@ == "Target not found!"@,
        e.MSVC_WINDOWS_ONLY@ == "MSVC target can only be compiled on windows!"@,
        e.VC_NOT_FOUND@
            == "Visual C/C++ installation not found! Make sure you have Visual Studio/Build Tools installed!"@,
{
    NuMakeErrorType {
        PATH_OUTSIDE_WORKING_DIR: NuMakeError::PathOutsideWorkingDirectory.message(),
        ASSET_COPY_PATH_OUTSIDE_OUTPUT_DIR: NuMakeError::AssetCopyPathOutsideWorkingDirectory.message(),
        TOOLSET_COMPILER_NULL: NuMakeError::ToolsetCompilerNull.message(),
        TOOLSET_LINKER_NULL: NuMakeError::ToolsetLinkerNull.message(),
        ADD_FILE_IS_DIRECTORY: NuMakeError::AddFileIsDirectory.message(),
        TARGET_NOT_FOUND: NuMakeError::TargetNotFound.message(),
        MSVC_WINDOWS_ONLY: NuMakeError::MsvcWindowsOnly.message(),
        VC_NOT_FOUND: NuMakeError::VcNotFound.message(),
    }
}

} // verus!
