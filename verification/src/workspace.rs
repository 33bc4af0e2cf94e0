//! The workspace: the directories of a run, the overrides of the command
//! line, the registry of targets and the cache, and the decisions that the
//! run of a script takes.

use vstd::prelude::*;
use vstd::string::*;
use crate::backend::BuildContext;
use crate::cache::{opened, Cache, CacheError};
use crate::cli::{InspectArgs, ListArgs, NuMakeArgs};
use crate::error::NuMakeError;
use crate::hashing::hashed;
use crate::paths::{extension, is_descendant, join, join_path, path_extension, path_is_descendant};
use crate::source_file_type::SourceFileType;
use crate::target::{CustomTarget, GenericTarget, MINGWTarget, MSVCTarget, Target};
use crate::text::{clone_strings, contains_text, same_text, views};
use crate::toml_store::{value_as_text, value_of_text, value_text};

verus! {

/// Why a workspace could not be set up.
#[derive(Debug, Clone, Copy, PartialEq, Eq, Structural)]
pub enum WorkspaceError {
    Engine(NuMakeError),
    Store(CacheError),
}

/// The names of the targets, in order.
pub open spec fn names_of(targets: Seq<Target>) -> Seq<Seq<char>> {
    Seq::new(targets.len(), |i: int| targets[i].name_view())
}

/// The registry after `target` has been registered: it takes the place of
/// the target of the same name where there is one, and comes last where
/// there is none.
pub open spec fn registered(targets: Seq<Target>, target: Target) -> Seq<Target> {
    if names_of(targets).contains(target.name_view()) {
        let i = choose|i: int| 0 <= i < targets.len() && targets[i].name_view() == target.name_view();
        targets.update(i, target)
    } else {
        targets.push(target)
    }
}

/// The names to build for a request: every name for `all` and for `.`,
/// else the name asked for, which must be registered.
pub open spec fn selection(names: Seq<Seq<char>>, request: Seq<char>) -> Result<
    Seq<Seq<char>>,
    NuMakeError,
> {
    if request == "all"@ || request == "."@ {
        Ok(names)
    } else if names.contains(request) {
        Ok(seq![request])
    } else {
        Err(NuMakeError::TargetNotFound)
    }
}

/// The line that lists one target: its name, its backend, and for a
/// composite target its description.
pub open spec fn listing_line(t: Target) -> Seq<char> {
    match t {
        Target::Generic(_) => "\n\t"@ + t.name_view() + " [GENERIC]"@,
        Target::MSVC(_) => "\n\t"@ + t.name_view() + " [MSVC]"@,
        Target::MinGW(_) => "\n\t"@ + t.name_view() + " [MINGW]"@,
        Target::Custom(c) => "\n\t"@ + t.name_view() + " [CUSTOM]\n"@ + c.description@,
    }
}

/// The lines that list the first `n` targets.
pub open spec fn listing(targets: Seq<Target>, n: nat) -> Seq<char>
    decreases n,
{
    if n == 0 {
        Seq::empty()
    } else {
        listing(targets, (n - 1) as nat) + listing_line(targets[n - 1])
    }
}

/// Whether the compiled form of a script can be used: it is stored, and the
/// size recorded for the script is the size that the script has now.
pub open spec fn script_is_cached(
    scalars: Map<Seq<char>, toml::Value>,
    file_name: Seq<char>,
    file_size: Seq<char>,
    blob_exists: bool,
) -> bool {
    &&& blob_exists
    &&& scalars.contains_key(hashed(file_name))
    &&& value_text(scalars[hashed(file_name)]) == Some(file_size)
}

/// Where the code of a script comes from.
#[derive(Debug, Clone, Copy, PartialEq, Eq, Structural)]
pub enum ScriptSource {
    /// The compiled form in the cache.
    Cached,
    /// The script itself, to be compiled and stored.
    Source,
}

/// Where the contents of an archive come from.
#[derive(Debug, Clone, Copy, PartialEq, Eq, Structural)]
pub enum ArchiveSource {
    /// The directory into which it was extracted before.
    Directory,
    /// The archive stored in the cache, to be extracted.
    Blob,
    /// The network.
    Download,
}

/// What to do for a script at a URL.
#[derive(Debug, Clone, Copy, PartialEq, Eq, Structural)]
pub enum UrlSource {
    /// Use the compiled form in the cache.
    Cached,
    /// Take the answer of the server, compile and store it.
    Fetched,
    /// Neither the server nor the cache has it.
    Unavailable,
}

/// The extension of `path`, empty where it has none.
pub open spec fn extension_or_empty(path: Seq<char>) -> Seq<char> {
    match extension(path) {
        Some(e) => e,
        None => Seq::empty(),
    }
}

/// Whether a walk keeps the file at `path`: always without a filter, else
/// where the filter holds its extension.
pub open spec fn is_kept(path: Seq<char>, filter: Option<Seq<Seq<char>>>) -> bool {
    match filter {
        None => true,
        Some(f) => f.contains(extension_or_empty(path)),
    }
}

/// Those of the first `n` entries that a walk keeps, in order.
pub open spec fn kept_entries(entries: Seq<Seq<char>>, filter: Option<Seq<Seq<char>>>, n: nat)
    -> Seq<Seq<char>>
    decreases n,
{
    if n == 0 {
        Seq::empty()
    } else {
        let before = kept_entries(entries, filter, (n - 1) as nat);
        if is_kept(entries[n - 1], filter) {
            before.push(entries[n - 1])
        } else {
            before
        }
    }
}

/// The views of an optional list of strings.
pub open spec fn filter_view(filter: Option<Vec<String>>) -> Option<Seq<Seq<char>>> {
    match filter {
        Some(f) => Some(views(f@)),
        None => None,
    }
}

/// Whether a walk keeps the file at `path`.
pub fn keeps_entry(path: &str, filter: &Option<Vec<String>>) -> (r: bool)
    ensures
        r == is_kept(path@, filter_view(*filter)),
{
    match filter {
        None => true,
        Some(f) => {
            let ext = match path_extension(path) {
                Some(e) => e,
                None => String::new(),
            };
            assert(ext@ =~= extension_or_empty(path@));
            contains_text(f, ext.as_str())
        },
    }
}

/// Those of `entries` that a walk with `filter` keeps, in order.
pub fn filter_entries(entries: &Vec<String>, filter: &Option<Vec<String>>) -> (kept: Vec<String>)
    ensures
        views(kept@) == kept_entries(views(entries@), filter_view(*filter), entries@.len()),
{
    let mut kept: Vec<String> = Vec::new();
    let mut i: usize = 0;
    assert(views(kept@) =~= kept_entries(views(entries@), filter_view(*filter), 0));
    while i < entries.len()
        invariant
            i <= entries.len(),
            views(kept@) == kept_entries(views(entries@), filter_view(*filter), i as nat),
        decreases entries.len() - i,
    {
        assert(entries@[i as int]@ == views(entries@)[i as int]);
        if keeps_entry(entries[i].as_str(), filter) {
            let ghost before = views(kept@);
            kept.push(entries[i].clone());
            assert(views(kept@) =~= before.push(entries@[i as int]@));
        }
        i += 1;
    }
    kept
}

/// Where the contents of an archive come from: the directory where it was
/// extracted before, else the stored archive, else the network.
pub fn archive_source(dir_exists: bool, blob_exists: bool) -> (r: ArchiveSource)
    ensures
        r == if dir_exists {
            ArchiveSource::Directory
        } else if blob_exists {
            ArchiveSource::Blob
        } else {
            ArchiveSource::Download
        },
{
    if dir_exists {
        ArchiveSource::Directory
    } else if blob_exists {
        ArchiveSource::Blob
    } else {
        ArchiveSource::Download
    }
}

/// What to do for a script at a URL: where the server fails, the cache
/// serves if it can; where the server answers, the cache serves only if the
/// size it recorded is the size that the server announces.
pub open spec fn url_decision(cached: bool, answered: bool, same_size: bool) -> UrlSource {
    if !answered {
        if cached {
            UrlSource::Cached
        } else {
            UrlSource::Unavailable
        }
    } else if cached && same_size {
        UrlSource::Cached
    } else {
        UrlSource::Fetched
    }
}

/// The registry after the first `n` of `targets` have been registered, one
/// after the other.
pub open spec fn registered_all(registry: Seq<Target>, targets: Seq<Target>, n: nat) -> Seq<Target>
    decreases n,
{
    if n == 0 {
        registry
    } else {
        registered(registered_all(registry, targets, (n - 1) as nat), targets[n - 1])
    }
}

/// The first of the first `n` targets whose build failed, if one did.
pub open spec fn first_failed(names: Seq<Seq<char>>, succeeded: Seq<bool>, n: nat) -> Option<
    Seq<char>,
>
    decreases n,
{
    if n == 0 {
        None
    } else {
        match first_failed(names, succeeded, (n - 1) as nat) {
            Some(name) => Some(name),
            None => if succeeded[n - 1] {
                None
            } else {
                Some(names[n - 1])
            },
        }
    }
}

/// The target whose failure a run over several targets reports: the first
/// that failed, each target having been built whatever became of the ones
/// before it. `results` holds the name of each target and whether its build
/// succeeded.
pub fn first_failure(results: &Vec<(String, bool)>) -> (r: Option<String>)
    ensures
        ({
            let names = Seq::new(results@.len(), |i: int| results@[i].0@);
            let succeeded = Seq::new(results@.len(), |i: int| results@[i].1);
            match r {
                Some(name) => first_failed(names, succeeded, results@.len()) == Some(name@),
                None => first_failed(names, succeeded, results@.len()) is None,
            }
        }),
{
    let ghost names = Seq::new(results@.len(), |i: int| results@[i].0@);
    let ghost succeeded = Seq::new(results@.len(), |i: int| results@[i].1);
    let mut i: usize = 0;
    while i < results.len()
        invariant
            i <= results.len(),
            names == Seq::new(results@.len(), |i: int| results@[i].0@),
            succeeded == Seq::new(results@.len(), |i: int| results@[i].1),
            first_failed(names, succeeded, i as nat) is None,
        decreases results.len() - i,
    {
        if !results[i].1 {
            proof {
                lemma_first_failed_stays(names, succeeded, (i + 1) as nat, results@.len());
            }
            return Some(results[i].0.clone());
        }
        i += 1;
    }
    None
}

/// Once a failure has been found, later targets do not change it.
pub proof fn lemma_first_failed_stays(
    names: Seq<Seq<char>>,
    succeeded: Seq<bool>,
    n: nat,
    m: nat,
)
    requires
        n <= m,
        first_failed(names, succeeded, n) is Some,
    ensures
        first_failed(names, succeeded, m) == first_failed(names, succeeded, n),
    decreases m,
{
    if n < m {
        lemma_first_failed_stays(names, succeeded, n, (m - 1) as nat);
    }
}

/// The builds of several targets, one after the other. Every target is
/// attempted, whatever became of the ones before it.
#[derive(Debug)]
pub struct BuildRound {
    names: Vec<String>,
    results: Vec<(String, bool)>,
}

impl BuildRound {
    /// The targets of the round, in the order in which they are built.
    pub closed spec fn names(&self) -> Seq<Seq<char>> {
        views(self.names@)
    }

    /// The targets built so far, each with whether its build succeeded.
    pub closed spec fn reports(&self) -> Seq<(Seq<char>, bool)> {
        Seq::new(self.results@.len(), |i: int| (self.results@[i].0@, self.results@[i].1))
    }

    /// The reports are those of the first targets of the round, in order.
    pub closed spec fn wf(&self) -> bool {
        &&& self.results@.len() <= self.names@.len()
        &&& forall|i: int|
            0 <= i < self.results@.len() ==> (#[trigger] self.results@[i]).0@ == self.names@[i]@
    }

    /// What `wf` means for the reports.
    pub proof fn lemma_wf(&self)
        requires
            self.wf(),
        ensures
            self.reports().len() <= self.names().len(),
            forall|i: int|
                0 <= i < self.reports().len() ==> (#[trigger] self.reports()[i]).0
                    == self.names()[i],
    {
        assert forall|i: int| 0 <= i < self.reports().len() implies (#[trigger] self.reports()[i]).0
            == self.names()[i] by {
            assert(self.results@[i].0@ == self.names@[i]@);
        }
    }

    /// A round over `names`, with no target built yet.
    pub fn new(names: Vec<String>) -> (r: BuildRound)
        ensures
            r.wf(),
            r.names() == views(names@),
            r.reports().len() == 0,
    {
        BuildRound { names, results: Vec::new() }
    }

    /// The target to build now: the one after the last that was reported,
    /// whether the builds before it succeeded or failed; none once every
    /// target has been reported.
    pub fn current(&self) -> (r: Option<String>)
        requires
            self.wf(),
        ensures
            match r {
                Some(name) => self.reports().len() < self.names().len() && name@
                    == self.names()[self.reports().len() as int],
                None => self.reports().len() == self.names().len(),
            },
    {
        if self.results.len() < self.names.len() {
            Some(self.names[self.results.len()].clone())
        } else {
            None
        }
    }

    /// Takes the report on the build of the target at hand, and moves on
    /// to the next target in either case.
    pub fn report(&mut self, success: bool)
        requires
            old(self).wf(),
        ensures
            final(self).wf(),
            final(self).names() == old(self).names(),
            final(self).reports() == if old(self).reports().len() < old(self).names().len() {
                old(self).reports().push(
                    (old(self).names()[old(self).reports().len() as int], success),
                )
            } else {
                old(self).reports()
            },
    {
        if self.results.len() < self.names.len() {
            let name = self.names[self.results.len()].clone();
            self.results.push((name, success));
            assert(self.reports() =~= old(self).reports().push(
                (old(self).names()[old(self).reports().len() as int], success),
            ));
        }
    }

    /// The target whose failure the round reports: the first that failed.
    pub fn failure(&self) -> (r: Option<String>)
        ensures
            ({
                let names = Seq::new(self.reports().len(), |i: int| self.reports()[i].0);
                let succeeded = Seq::new(self.reports().len(), |i: int| self.reports()[i].1);
                match r {
                    Some(name) => first_failed(names, succeeded, self.reports().len()) == Some(
                        name@,
                    ),
                    None => first_failed(names, succeeded, self.reports().len()) is None,
                }
            }),
    {
        let ghost names = Seq::new(self.reports().len(), |i: int| self.reports()[i].0);
        let ghost succeeded = Seq::new(self.reports().len(), |i: int| self.reports()[i].1);
        assert(names =~= Seq::new(self.results@.len(), |i: int| self.results@[i].0@));
        assert(succeeded =~= Seq::new(self.results@.len(), |i: int| self.results@[i].1));
        first_failure(&self.results)
    }
}

/// The workspace of one run.
pub struct LuaWorkspace {
    /// The directory that the tool keeps in the working directory.
    pub workspace: String,
    pub working_directory: String,
    pub output: Option<String>,
    pub toolset_compiler: Option<String>,
    pub toolset_linker: Option<String>,
    pub cache: Cache,
    pub targets: Vec<Target>,
    pub file: String,
    pub arguments: Vec<String>,
    /// The target asked for.
    pub target: String,
}

/// The views of two optional strings are the same.
pub open spec fn same_option(a: Option<String>, b: Option<String>) -> bool {
    match (a, b) {
        (Some(x), Some(y)) => x@ == y@,
        (None, None) => true,
        _ => false,
    }
}

/// A copy of an optional string.
fn copy_option(o: &Option<String>) -> (r: Option<String>)
    ensures
        r == *o,
{
    match o {
        Some(s) => Some(s.clone()),
        None => None,
    }
}

/// A copy of an optional list, empty where there is none.
fn copy_list(o: &Option<Vec<String>>) -> (r: Vec<String>)
    ensures
        r@ == match *o {
            Some(v) => v@,
            None => Seq::<String>::empty(),
        },
{
    match o {
        Some(v) => clone_strings(v),
        None => Vec::new(),
    }
}

impl LuaWorkspace {
    /// No two registered targets have the same name.
    pub open spec fn wf(&self) -> bool {
        names_of(self.targets@).no_duplicates()
    }

    /// What setting up a workspace gives: an error where the script lies
    /// outside the working directory, the error of the cache where it
    /// cannot be opened, else the tables of the cache.
    pub open spec fn set_up(workdir: Seq<char>, file: Seq<char>, cache_text: Seq<char>) -> Result<
        (Map<Seq<char>, toml::Value>, Map<Seq<char>, toml::Value>),
        WorkspaceError,
    > {
        if !is_descendant(file, workdir) {
            Err(WorkspaceError::Engine(NuMakeError::PathOutsideWorkingDirectory))
        } else {
            match opened(cache_text) {
                Ok(parts) => Ok(parts),
                Err(e) => Err(WorkspaceError::Store(e)),
            }
        }
    }

    /// Sets up a workspace from its parts.
    fn assemble(
        workdir: &str,
        file: &str,
        cache_text: &str,
        target: String,
        toolset_compiler: Option<String>,
        toolset_linker: Option<String>,
        output: Option<String>,
        arguments: Vec<String>,
    ) -> (r: Result<LuaWorkspace, WorkspaceError>)
        ensures
            match r {
                Ok(w) => {
                    &&& Self::set_up(workdir@, file@, cache_text@) == Ok::<
                        (Map<Seq<char>, toml::Value>, Map<Seq<char>, toml::Value>),
                        WorkspaceError,
                    >((w.cache.scalars(), w.cache.user_scalars()))
                    &&& w.wf()
                    &&& w.targets@.len() == 0
                    &&& w.working_directory@ == workdir@
                    &&& w.workspace@ == join(workdir@, ".numake"@)
                    &&& w.cache.directory() == Cache::directory_of(w.workspace@)
                    &&& w.file@ == file@
                    &&& w.target == target
                    &&& w.toolset_compiler == toolset_compiler
                    &&& w.toolset_linker == toolset_linker
                    &&& w.output == output
                    &&& w.arguments == arguments
                },
                Err(e) => Self::set_up(workdir@, file@, cache_text@) == Err::<
                    (Map<Seq<char>, toml::Value>, Map<Seq<char>, toml::Value>),
                    WorkspaceError,
                >(e),
            },
    {
        if !path_is_descendant(file, workdir) {
            return Err(WorkspaceError::Engine(NuMakeError::PathOutsideWorkingDirectory));
        }
        let workspace = join_path(workdir, ".numake");
        let cache = match Cache::new(workspace.as_str(), cache_text) {
            Ok(c) => c,
            Err(e) => {
                return Err(WorkspaceError::Store(e));
            },
        };
        let w = LuaWorkspace {
            workspace,
            working_directory: String::from_str(workdir),
            output,
            toolset_compiler,
            toolset_linker,
            cache,
            targets: Vec::new(),
            file: String::from_str(file),
            arguments,
            target,
        };
        assert(names_of(w.targets@) =~= Seq::<Seq<char>>::empty());
        Ok(w)
    }

    /// The workspace of a build. `workdir` and `file` are the working
    /// directory and the script of `args` in canonical form, `cache_text`
    /// the stored table of the cache.
    pub fn new(args: &NuMakeArgs, workdir: &str, file: &str, cache_text: &str) -> (r: Result<
        LuaWorkspace,
        WorkspaceError,
    >)
        ensures
            match r {
                Ok(w) => {
                    &&& Self::set_up(workdir@, file@, cache_text@) == Ok::<
                        (Map<Seq<char>, toml::Value>, Map<Seq<char>, toml::Value>),
                        WorkspaceError,
                    >((w.cache.scalars(), w.cache.user_scalars()))
                    &&& w.wf()
                    &&& w.targets@.len() == 0
                    &&& w.working_directory@ == workdir@
                    &&& w.workspace@ == join(workdir@, ".numake"@)
                    &&& w.cache.directory() == Cache::directory_of(w.workspace@)
                    &&& w.file@ == file@
                    &&& w.target == args.target
                    &&& w.toolset_compiler == args.toolset_compiler
                    &&& w.toolset_linker == args.toolset_linker
                    &&& w.output == args.output
                    &&& w.arguments@ == match args.arguments {
                        Some(v) => v@,
                        None => Seq::<String>::empty(),
                    }
                },
                Err(e) => Self::set_up(workdir@, file@, cache_text@) == Err::<
                    (Map<Seq<char>, toml::Value>, Map<Seq<char>, toml::Value>),
                    WorkspaceError,
                >(e),
            },
    {
        Self::assemble(
            workdir,
            file,
            cache_text,
            args.target.clone(),
            copy_option(&args.toolset_compiler),
            copy_option(&args.toolset_linker),
            copy_option(&args.output),
            copy_list(&args.arguments),
        )
    }

    /// The workspace of an inspection: every target is asked for.
    pub fn new_inspect(args: &InspectArgs, workdir: &str, file: &str, cache_text: &str) -> (r:
        Result<LuaWorkspace, WorkspaceError>)
        ensures
            match r {
                Ok(w) => {
                    &&& Self::set_up(workdir@, file@, cache_text@) == Ok::<
                        (Map<Seq<char>, toml::Value>, Map<Seq<char>, toml::Value>),
                        WorkspaceError,
                    >((w.cache.scalars(), w.cache.user_scalars()))
                    &&& w.wf()
                    &&& w.targets@.len() == 0
                    &&& w.working_directory@ == workdir@
                    &&& w.workspace@ == join(workdir@, ".numake"@)
                    &&& w.cache.directory() == Cache::directory_of(w.workspace@)
                    &&& w.file@ == file@
                    &&& w.target@ == "*"@
                    &&& w.toolset_compiler == args.toolset_compiler
                    &&& w.toolset_linker == args.toolset_linker
                    &&& w.output == args.output
                    &&& w.arguments@ == match args.arguments {
                        Some(v) => v@,
                        None => Seq::<String>::empty(),
                    }
                },
                Err(e) => Self::set_up(workdir@, file@, cache_text@) == Err::<
                    (Map<Seq<char>, toml::Value>, Map<Seq<char>, toml::Value>),
                    WorkspaceError,
                >(e),
            },
    {
        Self::assemble(
            workdir,
            file,
            cache_text,
            String::from_str("*"),
            copy_option(&args.toolset_compiler),
            copy_option(&args.toolset_linker),
            copy_option(&args.output),
            copy_list(&args.arguments),
        )
    }

    /// The workspace of a listing: no target is asked for, and nothing
    /// overrides the targets.
    pub fn new_dummy(args: &ListArgs, workdir: &str, file: &str, cache_text: &str) -> (r: Result<
        LuaWorkspace,
        WorkspaceError,
    >)
        ensures
            match r {
                Ok(w) => {
                    &&& Self::set_up(workdir@, file@, cache_text@) == Ok::<
                        (Map<Seq<char>, toml::Value>, Map<Seq<char>, toml::Value>),
                        WorkspaceError,
                    >((w.cache.scalars(), w.cache.user_scalars()))
                    &&& w.wf()
                    &&& w.targets@.len() == 0
                    &&& w.working_directory@ == workdir@
                    &&& w.workspace@ == join(workdir@, ".numake"@)
                    &&& w.cache.directory() == Cache::directory_of(w.workspace@)
                    &&& w.file@ == file@
                    &&& w.target@.len() == 0
                    &&& w.toolset_compiler is None
                    &&& w.toolset_linker is None
                    &&& w.output is None
                    &&& w.arguments@ == match args.arguments {
                        Some(v) => v@,
                        None => Seq::<String>::empty(),
                    }
                },
                Err(e) => Self::set_up(workdir@, file@, cache_text@) == Err::<
                    (Map<Seq<char>, toml::Value>, Map<Seq<char>, toml::Value>),
                    WorkspaceError,
                >(e),
            },
    {
        Self::assemble(
            workdir,
            file,
            cache_text,
            String::new(),
            None,
            None,
            None,
            copy_list(&args.arguments),
        )
    }

    /// A generic target for a script to fill in: it starts with the
    /// compiler, the linker and the output name of the workspace, and its
    /// files are bound to the working directory of the workspace.
    pub fn create_target(&self, name: String) -> (t: GenericTarget)
        ensures
            t.wf(),
            t.settings.name == name,
            t.settings.output == self.output,
            t.settings.workdir == self.working_directory,
            t.toolset_compiler == self.toolset_compiler,
            t.toolset_linker == self.toolset_linker,
            t.settings.assets@.len() == 0,
            forall|ft: SourceFileType| (#[trigger] t.settings.files.files_of(ft)).len() == 0,
    {
        GenericTarget::new(
            name,
            copy_option(&self.toolset_compiler),
            copy_option(&self.toolset_linker),
            copy_option(&self.output),
            self.working_directory.clone(),
        )
    }

    /// A target of the vendor toolchain for a script to fill in, with the
    /// output name and the working directory of the workspace.
    pub fn create_msvc_target(&self, name: String) -> (t: MSVCTarget)
        ensures
            t.wf(),
            t.settings.name == name,
            t.settings.output == self.output,
            t.settings.workdir == self.working_directory,
            t.arch is None,
            !t.static_lib,
            t.settings.assets@.len() == 0,
            forall|ft: SourceFileType| (#[trigger] t.settings.files.files_of(ft)).len() == 0,
    {
        MSVCTarget::new(name, copy_option(&self.output), self.working_directory.clone())
    }

    /// A target of the cross toolchain for a script to fill in, with the
    /// output name and the working directory of the workspace.
    pub fn create_mingw_target(&self, name: String) -> (t: MINGWTarget)
        ensures
            t.wf(),
            t.settings.name == name,
            t.settings.output == self.output,
            t.settings.workdir == self.working_directory,
            t.arch is None,
            !t.static_lib,
            t.settings.assets@.len() == 0,
            forall|ft: SourceFileType| (#[trigger] t.settings.files.files_of(ft)).len() == 0,
    {
        MINGWTarget::new(name, copy_option(&self.output), self.working_directory.clone())
    }

    /// A composite target for a script to fill in.
    pub fn create_custom_target(&self, name: String, description: String) -> (t: CustomTarget)
        ensures
            t.name == name,
            t.description == description,
            t.sub_targets@.len() == 0,
    {
        CustomTarget::new(name, description)
    }

    /// What the workspace lends to the build of a target.
    pub fn context(&self, host_is_windows: bool) -> (ctx: BuildContext)
        ensures
            ctx.workspace == self.workspace,
            ctx.output == self.output,
            ctx.toolset_compiler == self.toolset_compiler,
            ctx.toolset_linker == self.toolset_linker,
            ctx.host_is_windows == host_is_windows,
    {
        BuildContext {
            workspace: self.workspace.clone(),
            output: copy_option(&self.output),
            toolset_compiler: copy_option(&self.toolset_compiler),
            toolset_linker: copy_option(&self.toolset_linker),
            host_is_windows,
        }
    }

    /// Registers `target` under its name; the last registration of a name
    /// wins.
    #[verifier::loop_isolation(false)]
    pub fn register_target(&mut self, target: Target)
        requires
            old(self).wf(),
        ensures
            final(self).wf(),
            final(self).targets@ == registered(old(self).targets@, target),
            final(self).targets@.contains(target),
            *final(self) == (LuaWorkspace { targets: final(self).targets, ..*old(self) }),
    {
        let name = target.get_name();
        let ghost old_names = names_of(self.targets@);
        let mut i: usize = 0;
        while i < self.targets.len()
            invariant
                i <= self.targets.len(),
                *self == *old(self),
                name@ == target.name_view(),
                forall|j: int| 0 <= j < i ==> names_of(self.targets@)[j] != name@,
            decreases self.targets.len() - i,
        {
            let existing = self.targets[i].get_name();
            assert(names_of(self.targets@)[i as int] == existing@);
            if same_text(existing.as_str(), name.as_str()) {
                proof {
                    let c = choose|c: int|
                        0 <= c < old(self).targets@.len() && old(self).targets@[c].name_view()
                            == target.name_view();
                    assert(names_of(old(self).targets@)[c] == name@);
                    assert(names_of(old(self).targets@)[i as int] == name@);
                    assert(c == i);
                }
                self.targets.set(i, target);
                proof {
                    assert(names_of(self.targets@) =~= old_names);
                    assert(self.targets@[i as int] == target);
                }
                return ;
            }
            i += 1;
        }
        proof {
            if old_names.contains(name@) {
                let c = choose|c: int| 0 <= c < old_names.len() && old_names[c] == name@;
                assert(names_of(self.targets@)[c] != name@);
            }
        }
        self.targets.push(target);
        proof {
            assert(self.targets@[self.targets@.len() - 1] == target);
            assert(names_of(self.targets@) =~= old_names.push(name@));
            assert forall|a: int, b: int|
                0 <= a < old_names.len() + 1 && 0 <= b < old_names.len() + 1 && a
                    != b implies old_names.push(name@)[a] != old_names.push(name@)[b] by {
                if a < old_names.len() && b < old_names.len() {
                } else if a < old_names.len() {
                    assert(names_of(old(self).targets@)[a] != name@);
                } else {
                    assert(names_of(old(self).targets@)[b] != name@);
                }
            }
        }
    }

    /// Registers every one of `targets`, in order: what a script has
    /// registered becomes the registry of the workspace.
    pub fn register_all(&mut self, targets: Vec<Target>)
        requires
            old(self).wf(),
        ensures
            final(self).wf(),
            final(self).targets@ == registered_all(old(self).targets@, targets@, targets@.len()),
            *final(self) == (LuaWorkspace { targets: final(self).targets, ..*old(self) }),
    {
        let mut targets = targets;
        let ghost all = targets@;
        let mut done: usize = 0;
        let total = targets.len();
        while targets.len() > 0
            invariant
                self.wf(),
                done + targets@.len() == total,
                total == all.len(),
                targets@ == all.skip(done as int),
                self.targets@ == registered_all(old(self).targets@, all, done as nat),
                *self == (LuaWorkspace { targets: self.targets, ..*old(self) }),
            decreases targets.len(),
        {
            let t = targets.remove(0);
            assert(t == all[done as int]);
            assert(targets@ =~= all.skip(done + 1));
            self.register_target(t);
            done += 1;
        }
    }

    /// The registered target called `name`.
    pub fn get_target(&self, name: &str) -> (r: Option<&Target>)
        ensures
            match r {
                Some(t) => t.name_view() == name@ && self.targets@.contains(*t),
                None => !names_of(self.targets@).contains(name@),
            },
    {
        let mut i: usize = 0;
        while i < self.targets.len()
            invariant
                i <= self.targets.len(),
                forall|j: int| 0 <= j < i ==> names_of(self.targets@)[j] != name@,
            decreases self.targets.len() - i,
        {
            let existing = self.targets[i].get_name();
            assert(names_of(self.targets@)[i as int] == existing@);
            if same_text(existing.as_str(), name) {
                assert(self.targets@[i as int] == self.targets[i as int]);
                return Some(&self.targets[i]);
            }
            i += 1;
        }
        None
    }

    /// The names of the registered targets, in the order of registration.
    pub fn target_names(&self) -> (names: Vec<String>)
        ensures
            views(names@) == names_of(self.targets@),
    {
        let mut names: Vec<String> = Vec::new();
        let mut i: usize = 0;
        assert(views(names@) =~= names_of(self.targets@).take(0));
        while i < self.targets.len()
            invariant
                i <= self.targets.len(),
                views(names@) == names_of(self.targets@).take(i as int),
            decreases self.targets.len() - i,
        {
            let name = self.targets[i].get_name();
            let ghost before = views(names@);
            names.push(name);
            assert(views(names@) =~= before.push(name@));
            assert(names_of(self.targets@).take(i + 1) =~= names_of(self.targets@).take(
                i as int,
            ).push(name@));
            i += 1;
        }
        assert(names_of(self.targets@).take(self.targets.len() as int) =~= names_of(
            self.targets@,
        ));
        names
    }

    /// The list of the registered targets, one line each.
    pub fn list_targets(&self) -> (text: String)
        ensures
            text@ == listing(self.targets@, self.targets@.len()),
    {
        let mut text = String::new();
        let mut i: usize = 0;
        while i < self.targets.len()
            invariant
                i <= self.targets.len(),
                text@ == listing(self.targets@, i as nat),
            decreases self.targets.len() - i,
        {
            let t = &self.targets[i];
            let name = t.get_name();
            let ghost before = text@;
            match t {
                Target::Generic(_) => {
                    text = text.concat("\n\t").concat(name.as_str()).concat(" [GENERIC]");
                },
                Target::MSVC(_) => {
                    text = text.concat("\n\t").concat(name.as_str()).concat(" [MSVC]");
                },
                Target::MinGW(_) => {
                    text = text.concat("\n\t").concat(name.as_str()).concat(" [MINGW]");
                },
                Target::Custom(c) => {
                    text = text.concat("\n\t").concat(name.as_str()).concat(" [CUSTOM]\n").concat(
                        c.description.as_str(),
                    );
                },
            }
            assert(text@ =~= before + listing_line(self.targets@[i as int]));
            i += 1;
        }
        text
    }

    /// The names of the targets to build, in the order in which they are
    /// built: those that the request of the command line selects.
    pub fn build(&self) -> (r: Result<Vec<String>, NuMakeError>)
        ensures
            match r {
                Ok(names) => selection(names_of(self.targets@), self.target@) == Ok::<
                    Seq<Seq<char>>,
                    NuMakeError,
                >(views(names@)),
                Err(e) => selection(names_of(self.targets@), self.target@) == Err::<
                    Seq<Seq<char>>,
                    NuMakeError,
                >(e),
            },
    {
        let names = self.target_names();
        if same_text(self.target.as_str(), "all") || same_text(self.target.as_str(), ".") {
            Ok(names)
        } else if contains_text(&names, self.target.as_str()) {
            let mut one: Vec<String> = Vec::new();
            one.push(self.target.clone());
            assert(views(one@) =~= seq![self.target@]);
            Ok(one)
        } else {
            Err(NuMakeError::TargetNotFound)
        }
    }

    /// Where the code of the script `file_name` comes from, given its size
    /// now and whether its compiled form is stored.
    pub fn script_source(&self, file_name: &String, file_size: &str, blob_exists: bool) -> (r:
        ScriptSource)
        ensures
            r == if script_is_cached(self.cache.scalars(), file_name@, file_size@, blob_exists) {
                ScriptSource::Cached
            } else {
                ScriptSource::Source
            },
    {
        if !blob_exists {
            return ScriptSource::Source;
        }
        match self.cache.get_value(file_name) {
            Some(v) => match value_as_text(&v) {
                Some(size) => if same_text(size.as_str(), file_size) {
                    ScriptSource::Cached
                } else {
                    ScriptSource::Source
                },
                None => ScriptSource::Source,
            },
            None => ScriptSource::Source,
        }
    }

    /// Records the size of the script `file_name`, whose compiled form has
    /// been stored.
    pub fn record_script(&mut self, file_name: &String, file_size: &str)
        ensures
            final(self).cache.scalars().contains_key(hashed(file_name@)),
            value_text(final(self).cache.scalars()[hashed(file_name@)]) == Some(file_size@),
            final(self).cache.scalars() == old(self).cache.scalars().insert(
                hashed(file_name@),
                final(self).cache.scalars()[hashed(file_name@)],
            ),
            final(self).cache.user_scalars() == old(self).cache.user_scalars(),
            forall|blob_exists: bool|
                script_is_cached(final(self).cache.scalars(), file_name@, file_size@, blob_exists)
                    == blob_exists,
            *final(self) == (LuaWorkspace { cache: final(self).cache, ..*old(self) }),
    {
        self.cache.set_value(file_name, value_of_text(String::from_str(file_size)));
    }

    /// The file of a script that the script at hand loads: `path` seen
    /// from the working directory, which it must not leave and where it
    /// must exist.
    pub fn script_path(&self, path: &str, exists: bool) -> (r: Result<String, NuMakeError>)
        ensures
            match r {
                Ok(file) => file@ == join(self.working_directory@, path@) && exists
                    && is_descendant(file@, self.working_directory@),
                Err(e) => e == NuMakeError::PathOutsideWorkingDirectory && !(exists
                    && is_descendant(
                    join(self.working_directory@, path@),
                    self.working_directory@,
                )),
            },
    {
        let file = join_path(self.working_directory.as_str(), path);
        if path_is_descendant(file.as_str(), self.working_directory.as_str()) && exists {
            Ok(file)
        } else {
            Err(NuMakeError::PathOutsideWorkingDirectory)
        }
    }

    /// What to do for the script at `url`, given whether its compiled form
    /// is stored and the size that the server announces, if it answered.
    pub fn url_source(&self, url: &String, blob_exists: bool, announced: &Option<String>) -> (r:
        UrlSource)
        ensures
            r == url_decision(
                blob_exists && self.cache.scalars().contains_key(hashed(url@)),
                *announced is Some,
                *announced is Some && value_text(self.cache.scalars()[hashed(url@)]) == Some(
                    announced->0@,
                ),
            ),
    {
        let stored = self.cache.get_value(url);
        let cached = blob_exists && stored.is_some();
        match announced {
            None => if cached {
                UrlSource::Cached
            } else {
                UrlSource::Unavailable
            },
            Some(size) => {
                let same = match &stored {
                    Some(v) => match value_as_text(v) {
                        Some(s) => same_text(s.as_str(), size.as_str()),
                        None => false,
                    },
                    None => false,
                };
                if cached && same {
                    UrlSource::Cached
                } else {
                    UrlSource::Fetched
                }
            },
        }
    }

    /// The files that a walk below `path` keeps of those that it found. A
    /// path outside the working directory is refused.
    pub fn walk_dir(&self, path: &str, found: &Vec<String>, filter: &Option<Vec<String>>) -> (r:
        Result<Vec<String>, NuMakeError>)
        ensures
            match r {
                Ok(kept) => is_descendant(path@, self.working_directory@) && views(kept@)
                    == kept_entries(views(found@), filter_view(*filter), found@.len()),
                Err(e) => e == NuMakeError::PathOutsideWorkingDirectory && !is_descendant(
                    path@,
                    self.working_directory@,
                ),
            },
    {
        if !path_is_descendant(path, self.working_directory.as_str()) {
            return Err(NuMakeError::PathOutsideWorkingDirectory);
        }
        Ok(filter_entries(found, filter))
    }
}

} // verus!
