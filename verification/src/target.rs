//! Build targets: what every backend shares, the three toolchain backends,
//! and the composite target that only delegates.

use vstd::prelude::*;
use vstd::string::*;
use crate::error::NuMakeError;
use crate::paths::{is_descendant, path_is_descendant};
use crate::project_language::ProjectLanguage;
use crate::source_file_collection::SourceFileCollection;
use crate::source_file_type::SourceFileType;
use crate::text::{inserted, lemma_inserted_no_duplicates, same_text};

verus! {

/// The source path of each asset, in order.
pub open spec fn asset_sources(assets: Seq<(String, String)>) -> Seq<Seq<char>> {
    Seq::new(assets.len(), |i: int| assets[i].0@)
}

/// The assets as pairs of source path and destination name.
pub open spec fn asset_pairs(assets: Seq<(String, String)>) -> Seq<(Seq<char>, Seq<char>)> {
    Seq::new(assets.len(), |i: int| (assets[i].0@, assets[i].1@))
}

/// The assets once `source` is to be copied to `destination`: the pair
/// takes the place of the one with the same source where there is one, and
/// comes last where there is none.
pub open spec fn with_asset(
    assets: Seq<(Seq<char>, Seq<char>)>,
    source: Seq<char>,
    destination: Seq<char>,
) -> Seq<(Seq<char>, Seq<char>)> {
    if exists|i: int| 0 <= i < assets.len() && assets[i].0 == source {
        let i = choose|i: int| 0 <= i < assets.len() && assets[i].0 == source;
        assets.update(i, (source, destination))
    } else {
        assets.push((source, destination))
    }
}

/// Records that `source` is copied to `destination`, in place of what was
/// recorded for `source` before. The sources stay distinct, and they are the
/// old ones and `source`.
#[verifier::loop_isolation(false)]
pub fn set_asset(assets: &mut Vec<(String, String)>, source: &str, destination: &str)
    requires
        asset_sources(old(assets)@).no_duplicates(),
    ensures
        asset_sources(final(assets)@).no_duplicates(),
        asset_pairs(final(assets)@) == with_asset(asset_pairs(old(assets)@), source@, destination@),
        asset_sources(final(assets)@).contains(source@),
        forall|x: Seq<char>|
            asset_sources(final(assets)@).contains(x) ==> x == source@ || asset_sources(
                old(assets)@,
            ).contains(x),
{
    let ghost pairs = asset_pairs(assets@);
    let ghost sources = asset_sources(assets@);
    let mut i: usize = 0;
    while i < assets.len()
        invariant
            i <= assets.len(),
            *assets == *old(assets),
            forall|j: int| 0 <= j < i ==> pairs[j].0 != source@,
        decreases assets.len() - i,
    {
        assert(pairs[i as int].0 == assets@[i as int].0@);
        if same_text(assets[i].0.as_str(), source) {
            proof {
                let c = choose|c: int| 0 <= c < pairs.len() && pairs[c].0 == source@;
                assert(sources[c] == source@);
                assert(sources[i as int] == source@);
                assert(c == i);
            }
            assets.set(i, (String::from_str(source), String::from_str(destination)));
            proof {
                assert(asset_pairs(assets@) =~= pairs.update(i as int, (source@, destination@)));
                assert(asset_sources(assets@) =~= sources);
                assert(sources[i as int] == source@);
            }
            return ;
        }
        i += 1;
    }
    assets.push((String::from_str(source), String::from_str(destination)));
    proof {
        assert(asset_pairs(assets@) =~= pairs.push((source@, destination@)));
        assert(asset_sources(assets@) =~= sources.push(source@));
        assert(sources.push(source@)[sources.len() as int] == source@);
        assert forall|a: int, b: int|
            0 <= a < sources.len() + 1 && 0 <= b < sources.len() + 1 && a != b implies sources.push(
            source@,
        )[a] != sources.push(source@)[b] by {
            if a < sources.len() && b < sources.len() {
            } else if a < sources.len() {
                assert(pairs[a].0 != source@);
            } else {
                assert(pairs[b].0 != source@);
            }
        }
        assert forall|x: Seq<char>| asset_sources(assets@).contains(x) implies x == source@
            || sources.contains(x) by {
            let k = choose|k: int| 0 <= k < sources.len() + 1 && sources.push(source@)[k] == x;
            if k < sources.len() {
                assert(sources[k] == x);
            }
        }
    }
}

/// What every toolchain backend holds: flags, search paths, files and
/// assets, and the working directory that bounds them.
#[derive(Clone, Debug)]
pub struct TargetSettings {
    pub name: String,
    pub compiler_flags: Vec<String>,
    pub linker_flags: Vec<String>,
    pub include_paths: Vec<String>,
    pub lib_paths: Vec<String>,
    pub libs: Vec<String>,
    pub defines: Vec<String>,
    /// Source path and destination name of each asset; a source occurs once.
    pub assets: Vec<(String, String)>,
    pub output: Option<String>,
    pub files: SourceFileCollection,
    pub workdir: String,
}

impl TargetSettings {
    /// Every file and every asset source lies in the working directory or
    /// below it, and no asset source occurs twice.
    pub open spec fn wf(&self) -> bool {
        &&& self.files.wf()
        &&& forall|t: SourceFileType, i: int|
            0 <= i < self.files.files_of(t).len() ==> is_descendant(
                #[trigger] self.files.files_of(t)[i],
                self.workdir@,
            )
        &&& asset_sources(self.assets@).no_duplicates()
        &&& forall|i: int|
            0 <= i < self.assets@.len() ==> is_descendant(
                #[trigger] asset_sources(self.assets@)[i],
                self.workdir@,
            )
    }

    /// Settings without flags, files or assets.
    pub fn new(name: String, output: Option<String>, workdir: String) -> (s: TargetSettings)
        ensures
            s.wf(),
            s.name == name,
            s.output == output,
            s.workdir == workdir,
            s.compiler_flags@.len() == 0,
            s.linker_flags@.len() == 0,
            s.include_paths@.len() == 0,
            s.lib_paths@.len() == 0,
            s.libs@.len() == 0,
            s.defines@.len() == 0,
            s.assets@.len() == 0,
            forall|t: SourceFileType| (#[trigger] s.files.files_of(t)).len() == 0,
    {
        TargetSettings {
            name,
            compiler_flags: Vec::new(),
            linker_flags: Vec::new(),
            include_paths: Vec::new(),
            lib_paths: Vec::new(),
            libs: Vec::new(),
            defines: Vec::new(),
            assets: Vec::new(),
            output,
            files: SourceFileCollection::new(),
            workdir,
        }
    }

    /// Files `file` under `file_type`. A path outside the working directory
    /// is refused, then a path that is no file; a refusal changes nothing.
    pub fn add_file_as(&mut self, file: &str, is_file: bool, file_type: SourceFileType) -> (r:
        Result<(), NuMakeError>)
        requires
            old(self).wf(),
        ensures
            final(self).wf(),
            r == Self::admission(file@, old(self).workdir@, is_file),
            r is Err ==> *final(self) == *old(self),
            r is Ok ==> *final(self) == (TargetSettings {
                files: final(self).files,
                ..*old(self)
            }),
            r is Ok ==> forall|t: SourceFileType| #[trigger]
                final(self).files.files_of(t) == if t == file_type {
                    inserted(old(self).files.files_of(t), file@)
                } else {
                    old(self).files.files_of(t)
                },
    {
        if !path_is_descendant(file, self.workdir.as_str()) {
            return Err(NuMakeError::PathOutsideWorkingDirectory);
        }
        if !is_file {
            return Err(NuMakeError::AddFileIsDirectory);
        }
        proof {
            self.files.lemma_wf();
            lemma_inserted_no_duplicates(self.files.files_of(file_type), file@);
        }
        self.files.insert_as(file, file_type);
        proof {
            assert forall|t: SourceFileType, i: int|
                0 <= i < self.files.files_of(t).len() implies is_descendant(
                #[trigger] self.files.files_of(t)[i],
                self.workdir@,
            ) by {
                let x = self.files.files_of(t)[i];
                if t == file_type {
                    assert(inserted(old(self).files.files_of(t), file@).contains(x));
                    if x != file@ {
                        let j = choose|j: int|
                            0 <= j < old(self).files.files_of(t).len() && old(
                                self,
                            ).files.files_of(t)[j] == x;
                        assert(is_descendant(old(self).files.files_of(t)[j], self.workdir@));
                    }
                } else {
                    assert(is_descendant(old(self).files.files_of(t)[i], self.workdir@));
                }
            }
        }
        Ok(())
    }

    /// Whether a path is admitted as a file of a target with working
    /// directory `workdir`, and the error where it is not.
    pub open spec fn admission(file: Seq<char>, workdir: Seq<char>, is_file: bool) -> Result<
        (),
        NuMakeError,
    > {
        if !is_descendant(file, workdir) {
            Err(NuMakeError::PathOutsideWorkingDirectory)
        } else if !is_file {
            Err(NuMakeError::AddFileIsDirectory)
        } else {
            Ok(())
        }
    }

    /// The paths of every category once `file` is filed under `file_type`.
    pub open spec fn filed(
        model: Map<SourceFileType, Seq<Seq<char>>>,
        file: Seq<char>,
        file_type: SourceFileType,
    ) -> Map<SourceFileType, Seq<Seq<char>>> {
        model.insert(file_type, inserted(model[file_type], file))
    }

    /// The category under which a file is filed: the forced one where
    /// there is one, else that of its extension.
    pub open spec fn category(file: Seq<char>, forced: Option<SourceFileType>) -> SourceFileType {
        match forced {
            Some(t) => t,
            None => SourceFileType::classify(file),
        }
    }

    /// Filing the first `n` of `files`, each a path and whether it is a
    /// file, one after the other: the paths of every category afterwards,
    /// and the error of the first that is refused, at which filing stops.
    pub open spec fn admit_all(
        model: Map<SourceFileType, Seq<Seq<char>>>,
        workdir: Seq<char>,
        files: Seq<(Seq<char>, bool)>,
        forced: Option<SourceFileType>,
        n: nat,
    ) -> (Map<SourceFileType, Seq<Seq<char>>>, Result<(), NuMakeError>)
        decreases n,
    {
        if n == 0 {
            (model, Ok(()))
        } else {
            let before = Self::admit_all(model, workdir, files, forced, (n - 1) as nat);
            let file = files[n - 1];
            if before.1 is Err {
                before
            } else {
                match Self::admission(file.0, workdir, file.1) {
                    Err(e) => (before.0, Err(e)),
                    Ok(()) => (Self::filed(before.0, file.0, Self::category(file.0, forced)), Ok(())),
                }
            }
        }
    }

    /// Files every one of `files`, each a path in canonical form and
    /// whether it is a file, in order and under `forced` where it is given.
    /// The first refusal ends the filing; the files before it stay filed.
    pub fn add_files(&mut self, files: &Vec<(String, bool)>, forced: Option<SourceFileType>) -> (r:
        Result<(), NuMakeError>)
        requires
            old(self).wf(),
        ensures
            final(self).wf(),
            *final(self) == (TargetSettings { files: final(self).files, ..*old(self) }),
            (final(self).files.model(), r) == Self::admit_all(
                old(self).files.model(),
                old(self).workdir@,
                Seq::new(files@.len(), |i: int| (files@[i].0@, files@[i].1)),
                forced,
                files@.len(),
            ),
    {
        let ghost fs = Seq::new(files@.len(), |i: int| (files@[i].0@, files@[i].1));
        let mut i: usize = 0;
        while i < files.len()
            invariant
                i <= files.len(),
                self.wf(),
                fs == Seq::new(files@.len(), |i: int| (files@[i].0@, files@[i].1)),
                *self == (TargetSettings { files: self.files, ..*old(self) }),
                (self.files.model(), Ok::<(), NuMakeError>(())) == Self::admit_all(
                    old(self).files.model(),
                    old(self).workdir@,
                    fs,
                    forced,
                    i as nat,
                ),
            decreases files.len() - i,
        {
            let file = files[i].0.as_str();
            let file_type = match forced {
                Some(t) => t,
                None => SourceFileType::from(file),
            };
            let ghost before = self.files.model();
            assert(fs[i as int] == (file@, files@[i as int].1));
            match self.add_file_as(file, files[i].1, file_type) {
                Ok(()) => {
                    assert(self.files.model() =~= Self::filed(before, file@, file_type));
                },
                Err(e) => {
                    proof {
                        Self::lemma_admit_all_stops(
                            old(self).files.model(),
                            old(self).workdir@,
                            fs,
                            forced,
                            (i + 1) as nat,
                            files@.len(),
                        );
                    }
                    return Err(e);
                },
            }
            i += 1;
        }
        Ok(())
    }

    /// Once a file has been refused, no later file is filed.
    pub proof fn lemma_admit_all_stops(
        model: Map<SourceFileType, Seq<Seq<char>>>,
        workdir: Seq<char>,
        files: Seq<(Seq<char>, bool)>,
        forced: Option<SourceFileType>,
        n: nat,
        m: nat,
    )
        requires
            n <= m,
            Self::admit_all(model, workdir, files, forced, n).1 is Err,
        ensures
            Self::admit_all(model, workdir, files, forced, m) == Self::admit_all(
                model,
                workdir,
                files,
                forced,
                n,
            ),
        decreases m,
    {
        if n < m {
            Self::lemma_admit_all_stops(model, workdir, files, forced, n, (m - 1) as nat);
        }
    }

    /// Declares that the file `source`, a path in canonical form, is copied
    /// to `destination` in the output directory. A source outside the
    /// working directory is refused, and nothing changes; the destination
    /// is judged when the target is built.
    pub fn add_asset(&mut self, source: &str, destination: &str) -> (r: Result<(), NuMakeError>)
        requires
            old(self).wf(),
        ensures
            final(self).wf(),
            r == if is_descendant(source@, old(self).workdir@) {
                Ok::<(), NuMakeError>(())
            } else {
                Err::<(), NuMakeError>(NuMakeError::PathOutsideWorkingDirectory)
            },
            r is Err ==> *final(self) == *old(self),
            r is Ok ==> *final(self) == (TargetSettings {
                assets: final(self).assets,
                ..*old(self)
            }),
            r is Ok ==> asset_pairs(final(self).assets@) == with_asset(
                asset_pairs(old(self).assets@),
                source@,
                destination@,
            ),
    {
        if !path_is_descendant(source, self.workdir.as_str()) {
            return Err(NuMakeError::PathOutsideWorkingDirectory);
        }
        set_asset(&mut self.assets, source, destination);
        proof {
            assert forall|k: int| 0 <= k < self.assets@.len() implies is_descendant(
                #[trigger] asset_sources(self.assets@)[k],
                self.workdir@,
            ) by {
                let x = asset_sources(self.assets@)[k];
                if x != source@ {
                    assert(asset_sources(self.assets@).contains(x));
                    let j = choose|j: int|
                        0 <= j < old(self).assets@.len() && asset_sources(old(self).assets@)[j]
                            == x;
                    assert(is_descendant(asset_sources(old(self).assets@)[j], self.workdir@));
                }
            }
        }
        Ok(())
    }

    /// Files `file` under the category of its extension.
    pub fn add_file(&mut self, file: &str, is_file: bool) -> (r: Result<(), NuMakeError>)
        requires
            old(self).wf(),
        ensures
            final(self).wf(),
            r == Self::admission(file@, old(self).workdir@, is_file),
            r is Err ==> *final(self) == *old(self),
            r is Ok ==> *final(self) == (TargetSettings {
                files: final(self).files,
                ..*old(self)
            }),
            r is Ok ==> forall|t: SourceFileType| #[trigger]
                final(self).files.files_of(t) == if t == SourceFileType::classify(file@) {
                    inserted(old(self).files.files_of(t), file@)
                } else {
                    old(self).files.files_of(t)
                },
    {
        let file_type = SourceFileType::from(file);
        self.add_file_as(file, is_file, file_type)
    }
}

/// What an editor is told about a target.
#[derive(Clone, Debug)]
pub struct VSCodeProperties {
    pub compiler_path: String,
    pub default_includes: Vec<String>,
    pub intellisense_mode: String,
}

impl VSCodeProperties {
    /// Properties with nothing in them.
    pub fn empty() -> (p: VSCodeProperties)
        ensures
            p.compiler_path@.len() == 0,
            p.default_includes@.len() == 0,
            p.intellisense_mode@.len() == 0,
    {
        VSCodeProperties {
            compiler_path: String::new(),
            default_includes: Vec::new(),
            intellisense_mode: String::new(),
        }
    }
}

/// A target for any compiler and linker that take arguments as GCC does.
#[derive(Clone, Debug)]
pub struct GenericTarget {
    pub settings: TargetSettings,
    pub toolset_compiler: Option<String>,
    pub toolset_linker: Option<String>,
    pub vscode_properties: VSCodeProperties,
}

/// A target for the MinGW-w64 cross toolchain, whose tools are named after
/// the architecture.
#[derive(Clone, Debug)]
pub struct MINGWTarget {
    pub settings: TargetSettings,
    pub arch: Option<String>,
    pub static_lib: bool,
    pub lang: ProjectLanguage,
    pub windres_flags: Vec<String>,
    pub vscode_properties: VSCodeProperties,
}

/// A target for the vendor toolchain.
#[derive(Clone, Debug)]
pub struct MSVCTarget {
    pub settings: TargetSettings,
    pub arch: Option<String>,
    pub static_lib: bool,
    pub rc_flags: Vec<String>,
    pub vscode_properties: VSCodeProperties,
}

/// A target that builds nothing itself: its build is that of its
/// sub-targets, one after the other.
#[derive(Debug)]
pub struct CustomTarget {
    pub sub_targets: Vec<Target>,
    pub name: String,
    pub description: String,
}

/// A build target, by backend.
#[derive(Debug)]
pub enum Target {
    Generic(GenericTarget),
    MSVC(MSVCTarget),
    MinGW(MINGWTarget),
    Custom(CustomTarget),
}

impl GenericTarget {
    /// The settings are well formed.
    pub open spec fn wf(&self) -> bool {
        self.settings.wf()
    }

    /// A target without flags, files or assets.
    pub fn new(
        name: String,
        toolset_compiler: Option<String>,
        toolset_linker: Option<String>,
        output: Option<String>,
        workdir: String,
    ) -> (t: GenericTarget)
        ensures
            t.wf(),
            t.settings.name == name,
            t.settings.output == output,
            t.settings.workdir == workdir,
            t.toolset_compiler == toolset_compiler,
            t.toolset_linker == toolset_linker,
            t.settings.assets@.len() == 0,
            forall|ft: SourceFileType| (#[trigger] t.settings.files.files_of(ft)).len() == 0,
    {
        GenericTarget {
            settings: TargetSettings::new(name, output, workdir),
            toolset_compiler,
            toolset_linker,
            vscode_properties: VSCodeProperties::empty(),
        }
    }

    /// Adds a source file; see `TargetSettings::add_file`.
    pub fn add_file(&mut self, file: &str, is_file: bool) -> (r: Result<(), NuMakeError>)
        requires
            old(self).wf(),
        ensures
            final(self).wf(),
            r == TargetSettings::admission(file@, old(self).settings.workdir@, is_file),
            r is Err ==> *final(self) == *old(self),
            r is Ok ==> *final(self) == (GenericTarget {
                settings: final(self).settings,
                ..*old(self)
            }),
            r is Ok ==> final(self).settings == (TargetSettings {
                files: final(self).settings.files,
                ..old(self).settings
            }),
            r is Ok ==> forall|t: SourceFileType| #[trigger]
                final(self).settings.files.files_of(t) == if t == SourceFileType::classify(
                    file@,
                ) {
                    inserted(old(self).settings.files.files_of(t), file@)
                } else {
                    old(self).settings.files.files_of(t)
                },
    {
        self.settings.add_file(file, is_file)
    }
}

impl MINGWTarget {
    /// The settings are well formed.
    pub open spec fn wf(&self) -> bool {
        self.settings.wf()
    }

    /// A target for C++ on the default architecture, without flags, files
    /// or assets.
    pub fn new(name: String, output: Option<String>, workdir: String) -> (t: MINGWTarget)
        ensures
            t.wf(),
            t.settings.name == name,
            t.settings.output == output,
            t.settings.workdir == workdir,
            t.arch is None,
            !t.static_lib,
            t.lang == ProjectLanguage::CPP,
            t.settings.assets@.len() == 0,
            forall|ft: SourceFileType| (#[trigger] t.settings.files.files_of(ft)).len() == 0,
    {
        MINGWTarget {
            settings: TargetSettings::new(name, output, workdir),
            arch: None,
            static_lib: false,
            lang: ProjectLanguage::CPP,
            windres_flags: Vec::new(),
            vscode_properties: VSCodeProperties::empty(),
        }
    }

    /// Adds a source file under the category of its extension.
    pub fn add_file(&mut self, file: &str, is_file: bool) -> (r: Result<(), NuMakeError>)
        requires
            old(self).wf(),
        ensures
            final(self).wf(),
            r == TargetSettings::admission(file@, old(self).settings.workdir@, is_file),
            r is Err ==> *final(self) == *old(self),
            r is Ok ==> *final(self) == (MINGWTarget {
                settings: final(self).settings,
                ..*old(self)
            }),
            r is Ok ==> final(self).settings == (TargetSettings {
                files: final(self).settings.files,
                ..old(self).settings
            }),
            r is Ok ==> forall|t: SourceFileType| #[trigger]
                final(self).settings.files.files_of(t) == if t == SourceFileType::classify(
                    file@,
                ) {
                    inserted(old(self).settings.files.files_of(t), file@)
                } else {
                    old(self).settings.files.files_of(t)
                },
    {
        self.settings.add_file(file, is_file)
    }

    /// Adds a resource file, whatever its extension.
    pub fn add_rc_file(&mut self, file: &str, is_file: bool) -> (r: Result<(), NuMakeError>)
        requires
            old(self).wf(),
        ensures
            final(self).wf(),
            r == TargetSettings::admission(file@, old(self).settings.workdir@, is_file),
            r is Err ==> *final(self) == *old(self),
            r is Ok ==> *final(self) == (MINGWTarget {
                settings: final(self).settings,
                ..*old(self)
            }),
            r is Ok ==> final(self).settings == (TargetSettings {
                files: final(self).settings.files,
                ..old(self).settings
            }),
            r is Ok ==> forall|t: SourceFileType| #[trigger]
                final(self).settings.files.files_of(t) == if t == SourceFileType::Resource {
                    inserted(old(self).settings.files.files_of(t), file@)
                } else {
                    old(self).settings.files.files_of(t)
                },
    {
        self.settings.add_file_as(file, is_file, SourceFileType::Resource)
    }

    /// Adds a module-definition file, whatever its extension.
    pub fn add_def_file(&mut self, file: &str, is_file: bool) -> (r: Result<(), NuMakeError>)
        requires
            old(self).wf(),
        ensures
            final(self).wf(),
            r == TargetSettings::admission(file@, old(self).settings.workdir@, is_file),
            r is Err ==> *final(self) == *old(self),
            r is Ok ==> *final(self) == (MINGWTarget {
                settings: final(self).settings,
                ..*old(self)
            }),
            r is Ok ==> final(self).settings == (TargetSettings {
                files: final(self).settings.files,
                ..old(self).settings
            }),
            r is Ok ==> forall|t: SourceFileType| #[trigger]
                final(self).settings.files.files_of(t) == if t
                    == SourceFileType::ModuleDefinition {
                    inserted(old(self).settings.files.files_of(t), file@)
                } else {
                    old(self).settings.files.files_of(t)
                },
    {
        self.settings.add_file_as(file, is_file, SourceFileType::ModuleDefinition)
    }
}

impl MSVCTarget {
    /// The settings are well formed.
    pub open spec fn wf(&self) -> bool {
        self.settings.wf()
    }

    /// A target on the default architecture, without flags, files or assets.
    pub fn new(name: String, output: Option<String>, workdir: String) -> (t: MSVCTarget)
        ensures
            t.wf(),
            t.settings.name == name,
            t.settings.output == output,
            t.settings.workdir == workdir,
            t.arch is None,
            !t.static_lib,
            t.settings.assets@.len() == 0,
            forall|ft: SourceFileType| (#[trigger] t.settings.files.files_of(ft)).len() == 0,
    {
        MSVCTarget {
            settings: TargetSettings::new(name, output, workdir),
            arch: None,
            static_lib: false,
            rc_flags: Vec::new(),
            vscode_properties: VSCodeProperties::empty(),
        }
    }

    /// Adds a source file under the category of its extension.
    pub fn add_file(&mut self, file: &str, is_file: bool) -> (r: Result<(), NuMakeError>)
        requires
            old(self).wf(),
        ensures
            final(self).wf(),
            r == TargetSettings::admission(file@, old(self).settings.workdir@, is_file),
            r is Err ==> *final(self) == *old(self),
            r is Ok ==> *final(self) == (MSVCTarget {
                settings: final(self).settings,
                ..*old(self)
            }),
            r is Ok ==> final(self).settings == (TargetSettings {
                files: final(self).settings.files,
                ..old(self).settings
            }),
            r is Ok ==> forall|t: SourceFileType| #[trigger]
                final(self).settings.files.files_of(t) == if t == SourceFileType::classify(
                    file@,
                ) {
                    inserted(old(self).settings.files.files_of(t), file@)
                } else {
                    old(self).settings.files.files_of(t)
                },
    {
        self.settings.add_file(file, is_file)
    }

    /// Adds a resource file, whatever its extension.
    pub fn add_rc_file(&mut self, file: &str, is_file: bool) -> (r: Result<(), NuMakeError>)
        requires
            old(self).wf(),
        ensures
            final(self).wf(),
            r == TargetSettings::admission(file@, old(self).settings.workdir@, is_file),
            r is Err ==> *final(self) == *old(self),
            r is Ok ==> *final(self) == (MSVCTarget {
                settings: final(self).settings,
                ..*old(self)
            }),
            r is Ok ==> final(self).settings == (TargetSettings {
                files: final(self).settings.files,
                ..old(self).settings
            }),
            r is Ok ==> forall|t: SourceFileType| #[trigger]
                final(self).settings.files.files_of(t) == if t == SourceFileType::Resource {
                    inserted(old(self).settings.files.files_of(t), file@)
                } else {
                    old(self).settings.files.files_of(t)
                },
    {
        self.settings.add_file_as(file, is_file, SourceFileType::Resource)
    }

    /// Adds a module-definition file, whatever its extension.
    pub fn add_def_file(&mut self, file: &str, is_file: bool) -> (r: Result<(), NuMakeError>)
        requires
            old(self).wf(),
        ensures
            final(self).wf(),
            r == TargetSettings::admission(file@, old(self).settings.workdir@, is_file),
            r is Err ==> *final(self) == *old(self),
            r is Ok ==> *final(self) == (MSVCTarget {
                settings: final(self).settings,
                ..*old(self)
            }),
            r is Ok ==> final(self).settings == (TargetSettings {
                files: final(self).settings.files,
                ..old(self).settings
            }),
            r is Ok ==> forall|t: SourceFileType| #[trigger]
                final(self).settings.files.files_of(t) == if t
                    == SourceFileType::ModuleDefinition {
                    inserted(old(self).settings.files.files_of(t), file@)
                } else {
                    old(self).settings.files.files_of(t)
                },
    {
        self.settings.add_file_as(file, is_file, SourceFileType::ModuleDefinition)
    }
}

impl Clone for CustomTarget {
    /// A copy of the target and of its sub-targets.
    fn clone(&self) -> (copy: CustomTarget)
        decreases *self,
    {
        let mut sub_targets: Vec<Target> = Vec::new();
        let mut i: usize = 0;
        while i < self.sub_targets.len()
            invariant
                i <= self.sub_targets.len(),
            decreases self.sub_targets.len() - i,
        {
            proof {
                assert(decreases_to!(*self => self.sub_targets));
                assert(decreases_to!(self.sub_targets => self.sub_targets@));
                assert(decreases_to!(self.sub_targets@ => self.sub_targets@[i as int]));
            }
            sub_targets.push(self.sub_targets[i].clone());
            i += 1;
        }
        CustomTarget {
            sub_targets,
            name: self.name.clone(),
            description: self.description.clone(),
        }
    }
}

impl Clone for Target {
    /// A copy of the target.
    fn clone(&self) -> (copy: Target)
        decreases *self,
    {
        match self {
            Target::Generic(t) => Target::Generic(t.clone()),
            Target::MSVC(t) => Target::MSVC(t.clone()),
            Target::MinGW(t) => Target::MinGW(t.clone()),
            Target::Custom(t) => Target::Custom(t.clone()),
        }
    }
}

impl CustomTarget {
    /// A composite target without sub-targets.
    pub fn new(name: String, description: String) -> (t: CustomTarget)
        ensures
            t.name == name,
            t.description == description,
            t.sub_targets@.len() == 0,
    {
        CustomTarget { name, description, sub_targets: Vec::new() }
    }
}

impl Target {
    /// The name under which the target is registered.
    pub open spec fn name_view(&self) -> Seq<char> {
        match *self {
            Target::Generic(t) => t.settings.name@,
            Target::MSVC(t) => t.settings.name@,
            Target::MinGW(t) => t.settings.name@,
            Target::Custom(t) => t.name@,
        }
    }

    /// Whether the target is built with the vendor toolchain.
    pub fn is_msvc(&self) -> (r: bool)
        ensures
            r == (*self is MSVC),
    {
        match self {
            Target::MSVC(_) => true,
            _ => false,
        }
    }

    /// The name under which the target is registered.
    pub fn get_name(&self) -> (name: String)
        ensures
            name@ == self.name_view(),
    {
        match self {
            Target::Generic(t) => t.settings.name.clone(),
            Target::MSVC(t) => t.settings.name.clone(),
            Target::MinGW(t) => t.settings.name.clone(),
            Target::Custom(t) => t.name.clone(),
        }
    }
}

} // verus!
