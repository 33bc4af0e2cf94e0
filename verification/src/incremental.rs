//! What the clean-set buys: a build that follows a successful build of
//! unchanged files runs no compiler, and after a change only the changed
//! files are compiled, while the linker still gets every object.

use vstd::prelude::*;
use crate::backend::{generic_plan, mingw_plan, BuildContext, PlanModel};
use crate::plan::{
    compile_tasks, hash_of, is_compiled, is_dirty, object_of, objects_exist, objects_of,
    saved_hashes, CompileSetup, TaskModel,
};
use crate::source_file_type::SourceFileType;
use crate::target::{GenericTarget, MINGWTarget, TargetSettings};
use crate::text::lemma_inserted_contains;

verus! {

/// How many of the first `n` of `files` the compile phase compiles.
pub open spec fn compiled_count(k: CompileSetup, files: Seq<Seq<char>>, n: nat) -> nat
    decreases n,
{
    if n == 0 {
        0
    } else {
        compiled_count(k, files, (n - 1) as nat) + if is_compiled(k, files[n - 1]) {
            1nat
        } else {
            0nat
        }
    }
}

/// The clean-set stored after a build holds the hash of every file whose
/// hash is known.
pub proof fn lemma_saved_hashes_cover(
    hashes: Seq<(Seq<char>, Seq<char>)>,
    files: Seq<Seq<char>>,
    n: nat,
    i: int,
)
    requires
        0 <= i < n,
        hash_of(hashes, files[i]) is Some,
    ensures
        saved_hashes(hashes, files, n).contains(hash_of(hashes, files[i])->0),
    decreases n,
{
    let before = saved_hashes(hashes, files, (n - 1) as nat);
    if i < n - 1 {
        lemma_saved_hashes_cover(hashes, files, (n - 1) as nat, i);
    }
    match hash_of(hashes, files[n - 1]) {
        Some(h) => {
            lemma_inserted_contains(before, h);
        },
        None => {},
    }
}

/// The compile phase has one compiler run for each file that it compiles.
pub proof fn lemma_compile_tasks_count(
    k: CompileSetup,
    s: &TargetSettings,
    files: Seq<Seq<char>>,
    n: nat,
)
    ensures
        compile_tasks(k, s, files, n).len() == compiled_count(k, files, n),
    decreases n,
{
    if n > 0 {
        lemma_compile_tasks_count(k, s, files, (n - 1) as nat);
    }
}

/// Where no file is compiled, nothing is counted.
pub proof fn lemma_nothing_compiled(k: CompileSetup, files: Seq<Seq<char>>, n: nat)
    requires
        n <= files.len(),
        forall|i: int| 0 <= i < n ==> !is_compiled(k, #[trigger] files[i]),
    ensures
        compiled_count(k, files, n) == 0,
    decreases n,
{
    if n > 0 {
        lemma_nothing_compiled(k, files, (n - 1) as nat);
    }
}

/// The hashes stored as the clean-set by a plan.
pub open spec fn stored_clean_set(plan: PlanModel) -> Seq<Seq<char>> {
    match plan.save {
        Some(TaskModel::SaveCleanSet { hashes, .. }) => hashes,
        _ => Seq::empty(),
    }
}

/// Building a generic target a second time, with no file changed, on the
/// clean-set that the first build stored: the second build runs the
/// compiler on no file, and hands the same objects to the same link.
pub proof fn law_second_generic_build_compiles_nothing(
    t: &GenericTarget,
    ctx: &BuildContext,
    hashes: Seq<(Seq<char>, Seq<char>)>,
    clean: Seq<Seq<char>>,
)
    requires
        t.wf(),
        generic_plan(t, ctx, hashes, clean) is Ok,
        forall|i: int|
            0 <= i < t.settings.files.files_of(SourceFileType::Code).len() ==> (#[trigger] hash_of(
                hashes,
                t.settings.files.files_of(SourceFileType::Code)[i],
            )) is Some,
    ensures
        ({
            let first = generic_plan(t, ctx, hashes, clean)->Ok_0;
            let second = generic_plan(t, ctx, hashes, stored_clean_set(first));
            &&& second is Ok
            &&& second->Ok_0.compile.len() == 0
            &&& second->Ok_0.objects == first.objects
            &&& second->Ok_0.link == first.link
            &&& second->Ok_0.save == first.save
            &&& second->Ok_0.assets == first.assets
        }),
{
    let s = &t.settings;
    let code = s.files.files_of(SourceFileType::Code);
    let first = generic_plan(t, ctx, hashes, clean)->Ok_0;
    let stored = stored_clean_set(first);
    assert(stored == saved_hashes(hashes, code, code.len()));
    let second = generic_plan(t, ctx, hashes, stored);
    let compiler = crate::backend::preferred(
        crate::backend::text_of(ctx.toolset_compiler),
        crate::backend::text_of(t.toolset_compiler),
    );
    let obj = crate::backend::build_dir(ctx.workspace@, "obj"@, s.name@);
    let k1 = CompileSetup {
        convention: crate::plan::Convention::Gnu,
        program: compiler->0,
        dir: obj,
        ext: ".o"@,
        cached: true,
        hashes,
        clean,
    };
    let k2 = CompileSetup { clean: stored, ..k1 };
    assert(objects_exist(k1, s, code));
    assert(objects_exist(k2, s, code)) by {
        assert forall|i: int| 0 <= i < code.len() implies (#[trigger] object_of(
            code[i],
            s.workdir@,
            k2.dir,
            k2.ext,
        )) is Some by {
            assert(object_of(code[i], s.workdir@, k1.dir, k1.ext) is Some);
        }
    }
    assert(objects_of(k1, s, code) =~= objects_of(k2, s, code));
    assert forall|i: int| 0 <= i < code.len() implies !is_compiled(k2, #[trigger] code[i]) by {
        assert(hash_of(hashes, code[i]) is Some);
        lemma_saved_hashes_cover(hashes, code, code.len(), i);
    }
    lemma_nothing_compiled(k2, code, code.len());
    lemma_compile_tasks_count(k2, s, code, code.len());
}

/// The same for a target of the cross toolchain: the second build runs the
/// cross compiler on no file, though the resource compiler runs again, and
/// hands the same objects to the same link.
pub proof fn law_second_mingw_build_compiles_nothing(
    t: &MINGWTarget,
    ctx: &BuildContext,
    hashes: Seq<(Seq<char>, Seq<char>)>,
    clean: Seq<Seq<char>>,
)
    requires
        t.wf(),
        mingw_plan(t, ctx, hashes, clean) is Ok,
        forall|i: int|
            0 <= i < t.settings.files.files_of(SourceFileType::Code).len() ==> (#[trigger] hash_of(
                hashes,
                t.settings.files.files_of(SourceFileType::Code)[i],
            )) is Some,
    ensures
        ({
            let first = mingw_plan(t, ctx, hashes, clean)->Ok_0;
            let second = mingw_plan(t, ctx, hashes, stored_clean_set(first));
            &&& second is Ok
            &&& second->Ok_0.compile.len() == 0
            &&& second->Ok_0.objects == first.objects
            &&& second->Ok_0.resource == first.resource
            &&& second->Ok_0.link == first.link
            &&& second->Ok_0.save == first.save
            &&& second->Ok_0.assets == first.assets
        }),
{
    let s = &t.settings;
    let code = s.files.files_of(SourceFileType::Code);
    let first = mingw_plan(t, ctx, hashes, clean)->Ok_0;
    let stored = stored_clean_set(first);
    assert(stored == saved_hashes(hashes, code, code.len()));
    let prefix = crate::backend::mingw_prefix(crate::backend::text_of(t.arch));
    let obj = crate::backend::build_dir(ctx.workspace@, "obj"@, s.name@);
    let k1 = CompileSetup {
        convention: crate::plan::Convention::Gnu,
        program: prefix + t.lang.driver(),
        dir: obj,
        ext: ".o"@,
        cached: true,
        hashes,
        clean,
    };
    let k2 = CompileSetup { clean: stored, ..k1 };
    assert(objects_exist(k1, s, code));
    assert(objects_exist(k2, s, code)) by {
        assert forall|i: int| 0 <= i < code.len() implies (#[trigger] object_of(
            code[i],
            s.workdir@,
            k2.dir,
            k2.ext,
        )) is Some by {
            assert(object_of(code[i], s.workdir@, k1.dir, k1.ext) is Some);
        }
    }
    assert(objects_of(k1, s, code) =~= objects_of(k2, s, code));
    assert forall|i: int| 0 <= i < code.len() implies !is_compiled(k2, #[trigger] code[i]) by {
        assert(hash_of(hashes, code[i]) is Some);
        lemma_saved_hashes_cover(hashes, code, code.len(), i);
    }
    lemma_nothing_compiled(k2, code, code.len());
    lemma_compile_tasks_count(k2, s, code, code.len());
}

/// The arguments of a link task.
pub open spec fn link_arguments(plan: PlanModel) -> Seq<Seq<char>> {
    match plan.link {
        TaskModel::Run { invocation, .. } => invocation.args,
        _ => Seq::empty(),
    }
}

/// Whatever the clean-set holds, a build of a generic target runs the
/// compiler once for each code file that is dirty and for no other, and the
/// linker is given the object of every code file, dirty or not, in the
/// order of the files.
pub proof fn law_generic_build_compiles_the_dirty_files(
    t: &GenericTarget,
    ctx: &BuildContext,
    hashes: Seq<(Seq<char>, Seq<char>)>,
    clean: Seq<Seq<char>>,
)
    requires
        t.wf(),
        generic_plan(t, ctx, hashes, clean) is Ok,
    ensures
        ({
            let plan = generic_plan(t, ctx, hashes, clean)->Ok_0;
            let code = t.settings.files.files_of(SourceFileType::Code);
            let obj = crate::backend::build_dir(ctx.workspace@, "obj"@, t.settings.name@);
            &&& plan.compile.len() == dirty_count(hashes, clean, code, code.len())
            &&& plan.objects.len() == code.len()
            &&& forall|i: int|
                0 <= i < code.len() ==> Some(#[trigger] plan.objects[i]) == object_of(
                    code[i],
                    t.settings.workdir@,
                    obj,
                    ".o"@,
                )
            &&& link_arguments(plan).len() >= code.len()
            &&& link_arguments(plan).subrange(0, code.len() as int) == plan.objects
        }),
{
    let s = &t.settings;
    let code = s.files.files_of(SourceFileType::Code);
    let plan = generic_plan(t, ctx, hashes, clean)->Ok_0;
    let compiler = crate::backend::preferred(
        crate::backend::text_of(ctx.toolset_compiler),
        crate::backend::text_of(t.toolset_compiler),
    );
    let obj = crate::backend::build_dir(ctx.workspace@, "obj"@, s.name@);
    let k = CompileSetup {
        convention: crate::plan::Convention::Gnu,
        program: compiler->0,
        dir: obj,
        ext: ".o"@,
        cached: true,
        hashes,
        clean,
    };
    lemma_compile_tasks_count(k, s, code, code.len());
    lemma_dirty_count(k, code, code.len());
    assert forall|i: int| 0 <= i < code.len() implies Some(#[trigger] plan.objects[i])
        == object_of(code[i], s.workdir@, obj, ".o"@) by {
        assert(object_of(code[i], s.workdir@, k.dir, k.ext) is Some);
    }
    assert(link_arguments(plan).subrange(0, code.len() as int) =~= plan.objects);
}

/// The same for a target of the cross toolchain, be it linked or archived:
/// the cross compiler runs once for each dirty code file and for no other,
/// and the link is given the object of every code file, dirty or not.
pub proof fn law_mingw_build_compiles_the_dirty_files(
    t: &MINGWTarget,
    ctx: &BuildContext,
    hashes: Seq<(Seq<char>, Seq<char>)>,
    clean: Seq<Seq<char>>,
)
    requires
        t.wf(),
        mingw_plan(t, ctx, hashes, clean) is Ok,
    ensures
        ({
            let plan = mingw_plan(t, ctx, hashes, clean)->Ok_0;
            let code = t.settings.files.files_of(SourceFileType::Code);
            let obj = crate::backend::build_dir(ctx.workspace@, "obj"@, t.settings.name@);
            &&& plan.compile.len() == dirty_count(hashes, clean, code, code.len())
            &&& plan.objects.len() >= code.len()
            &&& forall|i: int|
                0 <= i < code.len() ==> Some(#[trigger] plan.objects[i]) == object_of(
                    code[i],
                    t.settings.workdir@,
                    obj,
                    ".o"@,
                )
            &&& forall|i: int|
                0 <= i < plan.objects.len() ==> link_arguments(plan).contains(
                    #[trigger] plan.objects[i],
                )
        }),
{
    let s = &t.settings;
    let code = s.files.files_of(SourceFileType::Code);
    let plan = mingw_plan(t, ctx, hashes, clean)->Ok_0;
    let prefix = crate::backend::mingw_prefix(crate::backend::text_of(t.arch));
    let obj = crate::backend::build_dir(ctx.workspace@, "obj"@, s.name@);
    let k = CompileSetup {
        convention: crate::plan::Convention::Gnu,
        program: prefix + t.lang.driver(),
        dir: obj,
        ext: ".o"@,
        cached: true,
        hashes,
        clean,
    };
    lemma_compile_tasks_count(k, s, code, code.len());
    lemma_dirty_count(k, code, code.len());
    assert forall|i: int| 0 <= i < code.len() implies Some(#[trigger] plan.objects[i])
        == object_of(code[i], s.workdir@, obj, ".o"@) by {
        assert(object_of(code[i], s.workdir@, k.dir, k.ext) is Some);
        assert(plan.objects[i] == objects_of(k, s, code)[i]);
    }
    let args = link_arguments(plan);
    assert forall|i: int| 0 <= i < plan.objects.len() implies args.contains(
        #[trigger] plan.objects[i],
    ) by {
        if t.static_lib {
            assert(args[i + 2] == plan.objects[i]);
        } else {
            assert(args[i] == plan.objects[i]);
        }
    }
}

/// How many of the first `n` of `files` are dirty.
pub open spec fn dirty_count(
    hashes: Seq<(Seq<char>, Seq<char>)>,
    clean: Seq<Seq<char>>,
    files: Seq<Seq<char>>,
    n: nat,
) -> nat
    decreases n,
{
    if n == 0 {
        0
    } else {
        dirty_count(hashes, clean, files, (n - 1) as nat) + if is_dirty(
            hashes,
            clean,
            files[n - 1],
        ) {
            1nat
        } else {
            0nat
        }
    }
}

/// With the clean-set in use, the files compiled are the dirty ones.
pub proof fn lemma_dirty_count(k: CompileSetup, files: Seq<Seq<char>>, n: nat)
    requires
        k.cached,
    ensures
        compiled_count(k, files, n) == dirty_count(k.hashes, k.clean, files, n),
    decreases n,
{
    if n > 0 {
        lemma_dirty_count(k, files, (n - 1) as nat);
    }
}

} // verus!
