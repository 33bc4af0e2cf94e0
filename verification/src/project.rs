//! A project as a script describes it before a toolchain is chosen.

use vstd::prelude::*;
use vstd::string::*;
use crate::backend::{asset_tasks, plan_assets};
use crate::either::{extend_with, texts_of, Either};
use crate::error::NuMakeError;
use crate::flag_type::FlagType;
use crate::plan::{task_views, Task};
use crate::project_language::ProjectLanguage;
use crate::project_type::ProjectType;
use crate::source_file_collection::SourceFileCollection;
use crate::source_file_type::SourceFileType;
use crate::paths::{extension, path_extension};
use crate::target::{asset_pairs, asset_sources, set_asset, with_asset, TargetSettings};
use crate::text::{inserted, same_text, views};

verus! {

/// The sources, assets and settings of a project.
#[derive(Clone, Debug)]
pub struct Project {
    pub name: String,
    pub language: ProjectLanguage,
    pub output: Option<String>,
    pub source_files: SourceFileCollection,
    /// Source path and destination name of each asset.
    pub asset_files: Vec<(String, String)>,
    pub include_paths: Vec<String>,
    pub lib_paths: Vec<String>,
    pub libs: Vec<String>,
    pub defines: Vec<String>,
    /// Raw flags, each with the tool that takes it.
    pub flags: Vec<(FlagType, String)>,
    pub arch: Option<String>,
    pub project_type: ProjectType,
}

/// The flags among the first `n` that are meant for `flag_type`, in order.
pub open spec fn flags_for(flags: Seq<(FlagType, String)>, flag_type: FlagType, n: nat) -> Seq<
    Seq<char>,
>
    decreases n,
{
    if n == 0 {
        Seq::empty()
    } else {
        let before = flags_for(flags, flag_type, (n - 1) as nat);
        if flags[n - 1].0 == flag_type {
            before.push(flags[n - 1].1@)
        } else {
            before
        }
    }
}

/// Tool and text of each flag.
pub open spec fn flag_views(flags: Seq<(FlagType, String)>) -> Seq<(FlagType, Seq<char>)> {
    Seq::new(flags.len(), |i: int| (flags[i].0, flags[i].1@))
}

/// Each of `texts` as a flag for `flag_type`.
pub open spec fn flagged(flag_type: FlagType, texts: Seq<Seq<char>>) -> Seq<
    (FlagType, Seq<char>),
> {
    Seq::new(texts.len(), |i: int| (flag_type, texts[i]))
}

/// Whether a file with this extension is a source or a header of C or C++.
pub open spec fn is_source_extension(e: Seq<char>) -> bool {
    e == "cpp"@ || e == "c"@ || e == "cxx"@ || e == "h"@ || e == "hxx"@ || e == "hpp"@
}

/// Whether the file at `path` is a source or a header of C or C++.
pub open spec fn is_source(path: Seq<char>) -> bool {
    match extension(path) {
        Some(e) => is_source_extension(e),
        None => false,
    }
}

/// The paths of every category once the sources and headers among the
/// first `n` of `found` are filed, each under the category of its
/// extension.
pub open spec fn dir_filed(
    model: Map<SourceFileType, Seq<Seq<char>>>,
    found: Seq<Seq<char>>,
    n: nat,
) -> Map<SourceFileType, Seq<Seq<char>>>
    decreases n,
{
    if n == 0 {
        model
    } else {
        let before = dir_filed(model, found, (n - 1) as nat);
        if is_source(found[n - 1]) {
            TargetSettings::filed(before, found[n - 1], SourceFileType::classify(found[n - 1]))
        } else {
            before
        }
    }
}

/// Whether the file at `path` is a source or a header of C or C++.
pub fn path_is_source(path: &str) -> (r: bool)
    ensures
        r == is_source(path@),
{
    match path_extension(path) {
        Some(ext) => {
            let e = ext.as_str();
            same_text(e, "cpp") || same_text(e, "c") || same_text(e, "cxx") || same_text(e, "h")
                || same_text(e, "hxx") || same_text(e, "hpp")
        },
        None => false,
    }
}

impl Project {
    /// The collection of source files holds no path twice, and no asset
    /// has two destinations.
    pub open spec fn wf(&self) -> bool {
        &&& self.source_files.wf()
        &&& asset_sources(self.asset_files@).no_duplicates()
    }

    /// A project without files, assets or settings, to be built into a
    /// program.
    pub fn new(name: String, language: ProjectLanguage) -> (p: Project)
        ensures
            p.wf(),
            p.name == name,
            p.language == language,
            p.output is None,
            p.arch is None,
            p.project_type == ProjectType::Executable,
            p.asset_files@.len() == 0,
            p.include_paths@.len() == 0,
            p.lib_paths@.len() == 0,
            p.libs@.len() == 0,
            p.defines@.len() == 0,
            p.flags@.len() == 0,
            forall|t: SourceFileType| (#[trigger] p.source_files.files_of(t)).len() == 0,
    {
        Project {
            name,
            language,
            output: None,
            source_files: SourceFileCollection::new(),
            asset_files: Vec::new(),
            include_paths: Vec::new(),
            lib_paths: Vec::new(),
            libs: Vec::new(),
            defines: Vec::new(),
            flags: Vec::new(),
            arch: None,
            project_type: ProjectType::Executable,
        }
    }

    /// Files `file` under the category of its extension; a path that is no
    /// file is refused, and nothing changes.
    pub fn add_file(&mut self, file: &str, is_file: bool) -> (r: Result<(), NuMakeError>)
        requires
            old(self).wf(),
        ensures
            final(self).wf(),
            r == if is_file {
                Ok::<(), NuMakeError>(())
            } else {
                Err::<(), NuMakeError>(NuMakeError::AddFileIsDirectory)
            },
            *final(self) == (Project { source_files: final(self).source_files, ..*old(self) }),
            forall|t: SourceFileType| #[trigger]
                final(self).source_files.files_of(t) == if is_file && t
                    == SourceFileType::classify(file@) {
                    inserted(old(self).source_files.files_of(t), file@)
                } else {
                    old(self).source_files.files_of(t)
                },
    {
        if is_file {
            self.source_files.insert(file);
            Ok(())
        } else {
            Err(NuMakeError::AddFileIsDirectory)
        }
    }

    /// Files the sources and headers among `found`, the files found in a
    /// directory, each under the category of its extension.
    pub fn add_dir(&mut self, found: &Vec<String>)
        requires
            old(self).wf(),
        ensures
            final(self).wf(),
            *final(self) == (Project { source_files: final(self).source_files, ..*old(self) }),
            final(self).source_files.model() == dir_filed(
                old(self).source_files.model(),
                views(found@),
                found@.len(),
            ),
    {
        let mut i: usize = 0;
        while i < found.len()
            invariant
                i <= found.len(),
                self.wf(),
                *self == (Project { source_files: self.source_files, ..*old(self) }),
                self.source_files.model() == dir_filed(
                    old(self).source_files.model(),
                    views(found@),
                    i as nat,
                ),
            decreases found.len() - i,
        {
            let file = found[i].as_str();
            assert(file@ == views(found@)[i as int]);
            if path_is_source(file) {
                let ghost before = self.source_files.model();
                self.source_files.insert(file);
                assert(self.source_files.model() =~= TargetSettings::filed(
                    before,
                    file@,
                    SourceFileType::classify(file@),
                ));
            }
            i += 1;
        }
    }

    /// The flags meant for `flag_type`, in the order in which they came.
    pub fn get_flags(&self, flag_type: FlagType) -> (r: Vec<String>)
        ensures
            views(r@) == flags_for(self.flags@, flag_type, self.flags@.len()),
    {
        let mut r: Vec<String> = Vec::new();
        let mut i: usize = 0;
        assert(views(r@) =~= flags_for(self.flags@, flag_type, 0));
        while i < self.flags.len()
            invariant
                i <= self.flags.len(),
                views(r@) == flags_for(self.flags@, flag_type, i as nat),
            decreases self.flags.len() - i,
        {
            if self.flags[i].0 == flag_type {
                let ghost before = views(r@);
                r.push(self.flags[i].1.clone());
                assert(views(r@) =~= before.push(self.flags@[i as int].1@));
            }
            i += 1;
        }
        r
    }

    /// The copies of the assets into `out_dir`, in the order of the
    /// assets: each a copy, or a refusal where the destination lies
    /// outside `out_dir`.
    pub fn copy_assets(&self, out_dir: &str) -> (tasks: Vec<Task>)
        ensures
            task_views(tasks@) == asset_tasks(asset_pairs(self.asset_files@), out_dir@),
    {
        plan_assets(&self.asset_files, out_dir)
    }

    /// Adds directories in which headers are searched.
    pub fn add_include_paths(&mut self, value: Either<String, Vec<String>>)
        ensures
            views(final(self).include_paths@) == views(old(self).include_paths@) + texts_of(value),
            *final(self) == (Project { include_paths: final(self).include_paths, ..*old(self) }),
    {
        extend_with(&mut self.include_paths, value);
    }

    /// Adds libraries to link.
    pub fn add_libs(&mut self, value: Either<String, Vec<String>>)
        ensures
            views(final(self).libs@) == views(old(self).libs@) + texts_of(value),
            *final(self) == (Project { libs: final(self).libs, ..*old(self) }),
    {
        extend_with(&mut self.libs, value);
    }

    /// Adds directories in which libraries are searched.
    pub fn add_lib_paths(&mut self, value: Either<String, Vec<String>>)
        ensures
            views(final(self).lib_paths@) == views(old(self).lib_paths@) + texts_of(value),
            *final(self) == (Project { lib_paths: final(self).lib_paths, ..*old(self) }),
    {
        extend_with(&mut self.lib_paths, value);
    }

    /// Adds definitions for the preprocessor.
    pub fn add_defines(&mut self, value: Either<String, Vec<String>>)
        ensures
            views(final(self).defines@) == views(old(self).defines@) + texts_of(value),
            *final(self) == (Project { defines: final(self).defines, ..*old(self) }),
    {
        extend_with(&mut self.defines, value);
    }

    /// Adds raw flags for the tool `flag_type`.
    pub fn add_flags(&mut self, flag_type: FlagType, value: Either<String, Vec<String>>)
        ensures
            flag_views(final(self).flags@) == flag_views(old(self).flags@) + flagged(
                flag_type,
                texts_of(value),
            ),
            *final(self) == (Project { flags: final(self).flags, ..*old(self) }),
    {
        let ghost goal = flagged(flag_type, texts_of(value));
        match value {
            Either::First(s) => {
                self.flags.push((flag_type, s));
                assert(flag_views(self.flags@) =~= flag_views(old(self).flags@) + goal);
            },
            Either::Second(v) => {
                let mut i: usize = 0;
                assert(flag_views(self.flags@) =~= flag_views(old(self).flags@) + goal.take(0));
                while i < v.len()
                    invariant
                        i <= v.len(),
                        goal == flagged(flag_type, views(v@)),
                        flag_views(self.flags@) == flag_views(old(self).flags@) + goal.take(
                            i as int,
                        ),
                        *self == (Project { flags: self.flags, ..*old(self) }),
                    decreases v.len() - i,
                {
                    let ghost before = flag_views(self.flags@);
                    self.flags.push((flag_type, v[i].clone()));
                    assert(flag_views(self.flags@) =~= before.push(goal[i as int]));
                    assert(goal.take(i + 1) =~= goal.take(i as int).push(goal[i as int]));
                    i += 1;
                }
                assert(goal.take(v.len() as int) =~= goal);
            },
        }
    }

    /// Declares that `path` is copied to `out` in the output directory, in
    /// place of what was declared for `path` before.
    pub fn add_asset(&mut self, path: &str, out: &str)
        requires
            old(self).wf(),
        ensures
            final(self).wf(),
            asset_pairs(final(self).asset_files@) == with_asset(
                asset_pairs(old(self).asset_files@),
                path@,
                out@,
            ),
            *final(self) == (Project { asset_files: final(self).asset_files, ..*old(self) }),
    {
        set_asset(&mut self.asset_files, path, out);
    }
}

} // verus!
