//! The tasks of a build, laid out before any of them runs: which files are
//! compiled and which are skipped, what is linked, which assets are copied.

use vstd::prelude::*;
use vstd::string::*;
use crate::command::{
    build_gnu_compile_args, build_msvc_compile_args, gnu_compile_args, msvc_compile_args,
    Invocation, InvocationModel,
};
use crate::paths::{join, join_path};
use crate::relative::{diff_paths, relative_path};
use crate::target::TargetSettings;
use crate::text::{
    concat2, contains_text, insert_text, inserted, lemma_inserted_no_duplicates, same_text, views,
};

verus! {

/// What a run of an outside program is for.
#[derive(Debug, Clone, Copy, PartialEq, Eq, Structural)]
pub enum StepKind {
    Compile,
    Resource,
    Convert,
    Link,
}

/// One thing to do during a build.
#[derive(Debug)]
pub enum Task {
    /// Create these directories where they do not exist.
    CreateDirs(Vec<String>),
    /// Run a program that writes `product`.
    Run { kind: StepKind, invocation: Invocation, product: String },
    /// Store these hashes as the clean-set under `key`.
    SaveCleanSet { key: String, hashes: Vec<String> },
    /// Copy the bytes of one file over another.
    Copy { from: String, to: String },
    /// An asset whose destination lies outside the output directory: the
    /// build fails here, and nothing is copied.
    Reject { destination: String },
}

/// A task as plain text.
pub enum TaskModel {
    CreateDirs(Seq<Seq<char>>),
    Run { kind: StepKind, invocation: InvocationModel, product: Seq<char> },
    SaveCleanSet { key: Seq<char>, hashes: Seq<Seq<char>> },
    Copy { from: Seq<char>, to: Seq<char> },
    Reject { destination: Seq<char> },
}

impl View for Task {
    type V = TaskModel;

    open spec fn view(&self) -> TaskModel {
        match *self {
            Task::CreateDirs(dirs) => TaskModel::CreateDirs(views(dirs@)),
            Task::Run { kind, invocation, product } => TaskModel::Run {
                kind,
                invocation: invocation@,
                product: product@,
            },
            Task::SaveCleanSet { key, hashes } => TaskModel::SaveCleanSet {
                key: key@,
                hashes: views(hashes@),
            },
            Task::Copy { from, to } => TaskModel::Copy { from: from@, to: to@ },
            Task::Reject { destination } => TaskModel::Reject { destination: destination@ },
        }
    }
}

/// The views of a sequence of tasks, one by one.
pub open spec fn task_views(tasks: Seq<Task>) -> Seq<TaskModel> {
    Seq::new(tasks.len(), |i: int| tasks[i]@)
}

/// Content hashes by path, as pairs of path and hash.
pub open spec fn hash_pairs(hashes: Seq<(String, String)>) -> Seq<(Seq<char>, Seq<char>)> {
    Seq::new(hashes.len(), |i: int| (hashes[i].0@, hashes[i].1@))
}

/// The hash recorded for `file`: that of the first pair that names it.
pub open spec fn hash_of(hashes: Seq<(Seq<char>, Seq<char>)>, file: Seq<char>) -> Option<
    Seq<char>,
>
    decreases hashes.len(),
{
    if hashes.len() == 0 {
        None
    } else if hashes[0].0 == file {
        Some(hashes[0].1)
    } else {
        hash_of(hashes.drop_first(), file)
    }
}

/// A file has to be compiled unless its content hash is known and the
/// clean-set holds it.
pub open spec fn is_dirty(
    hashes: Seq<(Seq<char>, Seq<char>)>,
    clean: Seq<Seq<char>>,
    file: Seq<char>,
) -> bool {
    match hash_of(hashes, file) {
        Some(h) => !clean.contains(h),
        None => true,
    }
}

/// The object written for `file`: its path relative to `workdir`, under
/// `dir`, with `ext` at its end. There is none where no relative path
/// leads from `workdir` to `file`.
pub open spec fn object_of(file: Seq<char>, workdir: Seq<char>, dir: Seq<char>, ext: Seq<char>)
    -> Option<Seq<char>> {
    match relative_path(file, workdir) {
        Some(rel) => Some(join(dir, rel + ext)),
        None => None,
    }
}

/// Looks up the hash recorded for `file`.
pub fn find_hash(hashes: &Vec<(String, String)>, file: &str) -> (r: Option<String>)
    ensures
        match r {
            Some(h) => hash_of(hash_pairs(hashes@), file@) == Some(h@),
            None => hash_of(hash_pairs(hashes@), file@) is None,
        },
{
    let mut i: usize = 0;
    assert(hash_pairs(hashes@).skip(0) =~= hash_pairs(hashes@));
    while i < hashes.len()
        invariant
            i <= hashes.len(),
            hash_of(hash_pairs(hashes@), file@) == hash_of(
                hash_pairs(hashes@).skip(i as int),
                file@,
            ),
        decreases hashes.len() - i,
    {
        let ghost rest = hash_pairs(hashes@).skip(i as int);
        assert(rest[0] == hash_pairs(hashes@)[i as int]);
        assert(rest.drop_first() =~= hash_pairs(hashes@).skip(i + 1));
        if same_text(hashes[i].0.as_str(), file) {
            return Some(hashes[i].1.clone());
        }
        i += 1;
    }
    None
}

/// Whether `file` has to be compiled.
pub fn file_is_dirty(hashes: &Vec<(String, String)>, clean: &Vec<String>, file: &str) -> (r: bool)
    ensures
        r == is_dirty(hash_pairs(hashes@), views(clean@), file@),
{
    match find_hash(hashes, file) {
        Some(h) => !contains_text(clean, h.as_str()),
        None => true,
    }
}

/// The object of the file whose path relative to the working directory is
/// `rel`: that path under `dir`, with `ext` at its end.
pub fn place_object(rel: &str, dir: &str, ext: &str) -> (object: String)
    ensures
        object@ == join(dir@, rel@ + ext@),
{
    let name = concat2(rel, ext);
    join_path(dir, name.as_str())
}

/// The object written for `file`.
pub fn object_path(file: &str, workdir: &str, dir: &str, ext: &str) -> (r: Option<String>)
    ensures
        match r {
            Some(o) => object_of(file@, workdir@, dir@, ext@) == Some(o@),
            None => object_of(file@, workdir@, dir@, ext@) is None,
        },
{
    match diff_paths(file, workdir) {
        Some(rel) => Some(place_object(rel.as_str(), dir, ext)),
        None => None,
    }
}

/// The two conventions by which compilers take their arguments.
#[derive(Debug, Clone, Copy, PartialEq, Eq, Structural)]
pub enum Convention {
    /// GCC and what follows it, the cross compilers included.
    Gnu,
    /// The vendor toolchain.
    Vendor,
}

/// The arguments that compile `source` into `object`.
pub open spec fn compile_args(
    c: Convention,
    s: &TargetSettings,
    object: Seq<char>,
    source: Seq<char>,
) -> Seq<Seq<char>> {
    match c {
        Convention::Gnu => gnu_compile_args(s, object, source),
        Convention::Vendor => msvc_compile_args(s, object, source),
    }
}

/// The task that compiles `source` into `object` with `program`.
pub open spec fn compile_task(
    c: Convention,
    program: Seq<char>,
    s: &TargetSettings,
    object: Seq<char>,
    source: Seq<char>,
) -> TaskModel {
    TaskModel::Run {
        kind: StepKind::Compile,
        invocation: InvocationModel {
            program,
            args: compile_args(c, s, object, source),
            vendor_env: c == Convention::Vendor,
        },
        product: object,
    }
}

/// What decides the compile phase of a target, apart from its settings.
pub struct CompileSetup {
    pub convention: Convention,
    pub program: Seq<char>,
    /// The directory that takes the objects.
    pub dir: Seq<char>,
    /// What ends the name of an object.
    pub ext: Seq<char>,
    /// Whether files found in the clean-set are skipped.
    pub cached: bool,
    pub hashes: Seq<(Seq<char>, Seq<char>)>,
    pub clean: Seq<Seq<char>>,
}

/// Whether the compile phase runs the compiler on `file`.
pub open spec fn is_compiled(k: CompileSetup, file: Seq<char>) -> bool {
    !k.cached || is_dirty(k.hashes, k.clean, file)
}

/// The compile tasks for the first `n` of `files`: one for each file that
/// is compiled, in the order of the files.
pub open spec fn compile_tasks(k: CompileSetup, s: &TargetSettings, files: Seq<Seq<char>>, n: nat)
    -> Seq<TaskModel>
    decreases n,
{
    if n == 0 {
        Seq::empty()
    } else {
        let before = compile_tasks(k, s, files, (n - 1) as nat);
        let file = files[n - 1];
        if is_compiled(k, file) {
            before.push(
                compile_task(
                    k.convention,
                    k.program,
                    s,
                    object_of(file, s.workdir@, k.dir, k.ext)->0,
                    file,
                ),
            )
        } else {
            before
        }
    }
}

/// The object of every one of `files`, compiled or skipped, in their order.
pub open spec fn objects_of(k: CompileSetup, s: &TargetSettings, files: Seq<Seq<char>>) -> Seq<
    Seq<char>,
> {
    Seq::new(files.len(), |i: int| object_of(files[i], s.workdir@, k.dir, k.ext)->0)
}

/// Whether every one of `files` has an object.
pub open spec fn objects_exist(k: CompileSetup, s: &TargetSettings, files: Seq<Seq<char>>) -> bool {
    forall|i: int|
        0 <= i < files.len() ==> (#[trigger] object_of(files[i], s.workdir@, k.dir, k.ext)) is Some
}

/// The clean-set once the first `n` of `files` are compiled: the hashes of
/// those whose hash is known, each once.
pub open spec fn saved_hashes(
    hashes: Seq<(Seq<char>, Seq<char>)>,
    files: Seq<Seq<char>>,
    n: nat,
) -> Seq<Seq<char>>
    decreases n,
{
    if n == 0 {
        Seq::empty()
    } else {
        let before = saved_hashes(hashes, files, (n - 1) as nat);
        match hash_of(hashes, files[n - 1]) {
            Some(h) => inserted(before, h),
            None => before,
        }
    }
}

/// The clean-set to store holds no hash twice.
pub proof fn lemma_saved_hashes_distinct(
    hashes: Seq<(Seq<char>, Seq<char>)>,
    files: Seq<Seq<char>>,
    n: nat,
)
    ensures
        saved_hashes(hashes, files, n).no_duplicates(),
    decreases n,
{
    if n > 0 {
        lemma_saved_hashes_distinct(hashes, files, (n - 1) as nat);
        match hash_of(hashes, files[n - 1]) {
            Some(h) => {
                lemma_inserted_no_duplicates(saved_hashes(hashes, files, (n - 1) as nat), h);
            },
            None => {},
        }
    }
}

/// The compile phase of a build, laid out.
pub struct CompilePhase {
    /// The compiler runs, in order.
    pub tasks: Vec<Task>,
    /// The object of every code file, in order.
    pub objects: Vec<String>,
    /// The clean-set to store once every run has succeeded.
    pub clean: Vec<String>,
}

/// Lays out the compile phase for the code files `files` of `s`. There is
/// no layout where a file has no object.
#[verifier::loop_isolation(false)]
pub fn plan_compile(
    convention: Convention,
    program: &str,
    s: &TargetSettings,
    files: &Vec<String>,
    dir: &str,
    ext: &str,
    cached: bool,
    hashes: &Vec<(String, String)>,
    clean: &Vec<String>,
) -> (r: Option<CompilePhase>)
    ensures
        ({
            let k = CompileSetup {
                convention,
                program: program@,
                dir: dir@,
                ext: ext@,
                cached,
                hashes: hash_pairs(hashes@),
                clean: views(clean@),
            };
            match r {
                Some(p) => {
                    &&& objects_exist(k, s, views(files@))
                    &&& task_views(p.tasks@) == compile_tasks(
                        k,
                        s,
                        views(files@),
                        files@.len(),
                    )
                    &&& views(p.objects@) == objects_of(k, s, views(files@))
                    &&& views(p.clean@) == saved_hashes(k.hashes, views(files@), files@.len())
                    &&& views(p.clean@).no_duplicates()
                },
                None => !objects_exist(k, s, views(files@)),
            }
        }),
{
    let ghost k = CompileSetup {
        convention,
        program: program@,
        dir: dir@,
        ext: ext@,
        cached,
        hashes: hash_pairs(hashes@),
        clean: views(clean@),
    };
    let ghost fs = views(files@);
    let mut tasks: Vec<Task> = Vec::new();
    let mut objects: Vec<String> = Vec::new();
    let mut saved: Vec<String> = Vec::new();
    let mut i: usize = 0;
    assert(task_views(tasks@) =~= compile_tasks(k, s, fs, 0));
    assert(views(objects@) =~= objects_of(k, s, fs).take(0));
    assert(views(saved@) =~= saved_hashes(k.hashes, fs, 0));
    while i < files.len()
        invariant
            i <= files.len(),
            forall|j: int|
                0 <= j < i ==> (#[trigger] object_of(fs[j], s.workdir@, k.dir, k.ext)) is Some,
            task_views(tasks@) == compile_tasks(k, s, fs, i as nat),
            views(objects@) == objects_of(k, s, fs).take(i as int),
            views(saved@) == saved_hashes(k.hashes, fs, i as nat),
        decreases files.len() - i,
    {
        let file = files[i].as_str();
        assert(file@ == fs[i as int]);
        let object = match object_path(file, s.workdir.as_str(), dir, ext) {
            Some(o) => o,
            None => {
                assert(object_of(fs[i as int], s.workdir@, k.dir, k.ext) is None);
                return None;
            },
        };
        if !cached || file_is_dirty(hashes, clean, file) {
            let args = match convention {
                Convention::Gnu => build_gnu_compile_args(s, object.as_str(), file),
                Convention::Vendor => build_msvc_compile_args(s, object.as_str(), file),
            };
            let task = Task::Run {
                kind: StepKind::Compile,
                invocation: Invocation {
                    program: String::from_str(program),
                    args,
                    vendor_env: convention == Convention::Vendor,
                },
                product: object.clone(),
            };
            let ghost before = task_views(tasks@);
            assert(task@ == compile_task(convention, program@, s, object@, file@));
            tasks.push(task);
            assert(task_views(tasks@) =~= before.push(
                compile_task(convention, program@, s, object@, file@),
            ));
        }
        let ghost objects_before = views(objects@);
        objects.push(object);
        assert(views(objects@) =~= objects_before.push(object@));
        assert(objects_of(k, s, fs).take(i + 1) =~= objects_of(k, s, fs).take(i as int).push(
            object@,
        ));
        match find_hash(hashes, file) {
            Some(h) => {
                insert_text(&mut saved, h.as_str());
            },
            None => {},
        }
        i += 1;
    }
    assert(objects_of(k, s, fs).take(files.len() as int) =~= objects_of(k, s, fs));
    proof {
        lemma_saved_hashes_distinct(k.hashes, fs, files@.len());
    }
    Some(CompilePhase { tasks, objects, clean: saved })
}

} // verus!
