//! The build of each toolchain backend, laid out as a plan: set-up, compile,
//! resource, link and asset tasks, in that order.

use vstd::prelude::*;
use vstd::string::*;
use crate::command::{
    archive_args, build_archive_args, build_gnu_link_args, build_mingw_link_args,
    build_msvc_convert_args, build_msvc_link_args, build_msvc_resource_args, build_windres_args,
    destination, gnu_link_args, link_destination, mingw_link_args, msvc_convert_args,
    msvc_link_args, msvc_resource_args, windres_args, Invocation, InvocationModel,
};
use crate::error::NuMakeError;
use crate::paths::{is_descendant, join, join_path, path_is_descendant};
use crate::plan::{
    compile_tasks, hash_pairs, object_of, object_path, objects_exist, objects_of, plan_compile,
    saved_hashes, task_views, CompileSetup, Convention, StepKind, Task, TaskModel,
};
use crate::source_file_type::SourceFileType;
use crate::target::{asset_pairs, GenericTarget, MINGWTarget, MSVCTarget, TargetSettings};
use crate::text::{chars_of, concat2, concat3, views};

verus! {

/// What the workspace lends to the build of a target.
#[derive(Clone, Debug)]
pub struct BuildContext {
    /// The directory that takes `obj/`, `out/` and `res/`.
    pub workspace: String,
    /// The output name that overrides that of every target.
    pub output: Option<String>,
    /// The compiler that overrides that of every target.
    pub toolset_compiler: Option<String>,
    /// The linker that overrides that of every target.
    pub toolset_linker: Option<String>,
    /// Whether the build runs on the system of the vendor toolchain.
    pub host_is_windows: bool,
}

/// The text of an optional string.
pub open spec fn text_of(o: Option<String>) -> Option<Seq<char>> {
    match o {
        Some(s) => Some(s@),
        None => None,
    }
}

/// A setting of the workspace wins over the target's own.
pub open spec fn preferred(over: Option<Seq<char>>, own: Option<Seq<char>>) -> Option<Seq<char>> {
    if over is Some {
        over
    } else {
        own
    }
}

/// The name of the file that the linker writes: the workspace's, else the
/// target's, else `out`.
pub open spec fn output_name(ctx: &BuildContext, s: &TargetSettings) -> Seq<char> {
    match preferred(text_of(ctx.output), text_of(s.output)) {
        Some(o) => o,
        None => "out"@,
    }
}

/// The directory `kind/name` of the workspace.
pub open spec fn build_dir(workspace: Seq<char>, kind: Seq<char>, name: Seq<char>) -> Seq<char> {
    join(workspace, kind + "/"@ + name)
}

/// `s` with every `_` doubled.
pub open spec fn escaped(s: Seq<char>) -> Seq<char>
    decreases s.len(),
{
    if s.len() == 0 {
        Seq::empty()
    } else if s[0] == '_' {
        seq!['_', '_'] + escaped(s.drop_first())
    } else {
        seq![s[0]] + escaped(s.drop_first())
    }
}

/// What stands between the toolchain and the target in a key. In a name
/// with every `_` doubled, it is found nowhere.
pub open spec fn key_separator() -> Seq<char> {
    seq!['_', '-']
}

/// The key of the clean-set of one toolchain and one target: the two names,
/// each with its `_` doubled so that the separator between them can be told
/// from what they hold.
pub open spec fn clean_set_key(toolchain: Seq<char>, target: Seq<char>) -> Seq<char> {
    escaped(toolchain) + key_separator() + escaped(target) + "_cache"@
}

/// An escaped name, the separator and a rest tell what the name and the
/// rest were.
pub proof fn lemma_escaped_parts(a: Seq<char>, x: Seq<char>, b: Seq<char>, y: Seq<char>)
    requires
        escaped(a) + key_separator() + x == escaped(b) + key_separator() + y,
    ensures
        a == b,
        x == y,
    decreases a.len(),
{
    let left = escaped(a) + key_separator() + x;
    let right = escaped(b) + key_separator() + y;
    if a.len() == 0 {
        assert(left[0] == '_' && left[1] == '-');
        if b.len() > 0 {
            if b[0] == '_' {
                assert(right[1] == '_');
            } else {
                assert(right[0] == b[0]);
            }
            assert(false);
        }
        assert(a =~= b);
        assert(x =~= left.skip(2));
        assert(y =~= right.skip(2));
    } else if a[0] == '_' {
        assert(left[0] == '_' && left[1] == '_');
        if b.len() == 0 {
            assert(right[1] == '-');
            assert(false);
        } else if b[0] != '_' {
            assert(right[0] == b[0]);
            assert(false);
        }
        assert(left.skip(2) =~= escaped(a.drop_first()) + key_separator() + x);
        assert(right.skip(2) =~= escaped(b.drop_first()) + key_separator() + y);
        lemma_escaped_parts(a.drop_first(), x, b.drop_first(), y);
        assert(a =~= seq![a[0]] + a.drop_first());
        assert(b =~= seq![b[0]] + b.drop_first());
    } else {
        assert(left[0] == a[0]);
        if b.len() == 0 {
            assert(right[0] == '_');
            assert(false);
        } else if b[0] == '_' {
            assert(right[0] == '_');
            assert(false);
        }
        assert(right[0] == b[0]);
        assert(left.skip(1) =~= escaped(a.drop_first()) + key_separator() + x);
        assert(right.skip(1) =~= escaped(b.drop_first()) + key_separator() + y);
        lemma_escaped_parts(a.drop_first(), x, b.drop_first(), y);
        assert(a =~= seq![a[0]] + a.drop_first());
        assert(b =~= seq![b[0]] + b.drop_first());
    }
}

/// No two pairs of toolchain and target share a clean-set: the key tells
/// both names.
pub proof fn law_clean_sets_differ(
    toolchain: Seq<char>,
    target: Seq<char>,
    other_toolchain: Seq<char>,
    other_target: Seq<char>,
)
    requires
        toolchain != other_toolchain || target != other_target,
    ensures
        clean_set_key(toolchain, target) != clean_set_key(other_toolchain, other_target),
{
    let tail = "_cache"@;
    let x = escaped(target) + tail;
    let y = escaped(other_target) + tail;
    if clean_set_key(toolchain, target) == clean_set_key(other_toolchain, other_target) {
        assert(escaped(toolchain) + key_separator() + x =~= clean_set_key(toolchain, target));
        assert(escaped(other_toolchain) + key_separator() + y =~= clean_set_key(
            other_toolchain,
            other_target,
        ));
        lemma_escaped_parts(toolchain, x, other_toolchain, y);
        assert(escaped(target).len() == escaped(other_target).len());
        assert(escaped(target) =~= x.subrange(0, escaped(target).len() as int));
        assert(escaped(other_target) =~= y.subrange(0, escaped(target).len() as int));
        let none = Seq::<char>::empty();
        assert(escaped(target) + key_separator() + none =~= escaped(other_target)
            + key_separator() + none);
        lemma_escaped_parts(target, none, other_target, none);
    }
}

/// The prefix of the names of the cross tools for an architecture.
pub open spec fn mingw_prefix(arch: Option<Seq<char>>) -> Seq<char> {
    (match arch {
        Some(a) => a,
        None => "x86_64"@,
    }) + "-w64-mingw32-"@
}

/// The directories that a build with a resource phase creates: the one for
/// the compiled resources only where there are resources.
pub open spec fn build_dirs(
    obj: Seq<char>,
    out: Seq<char>,
    res: Seq<char>,
    resources: Seq<Seq<char>>,
) -> Seq<Seq<char>> {
    if resources.len() > 0 {
        seq![obj, out, res]
    } else {
        seq![obj, out]
    }
}

/// The task for one asset: a copy into the output directory, or a refusal
/// where the destination lies outside it.
pub open spec fn asset_task(asset: (Seq<char>, Seq<char>), out_dir: Seq<char>) -> TaskModel {
    let to = join(out_dir, asset.1);
    if is_descendant(to, out_dir) {
        TaskModel::Copy { from: asset.0, to }
    } else {
        TaskModel::Reject { destination: to }
    }
}

/// The tasks for the assets, in their order.
pub open spec fn asset_tasks(assets: Seq<(Seq<char>, Seq<char>)>, out_dir: Seq<char>) -> Seq<
    TaskModel,
> {
    Seq::new(assets.len(), |i: int| asset_task(assets[i], out_dir))
}

/// An asset is copied exactly where its destination, seen from the output
/// directory of the build at hand, lies in that directory or below it;
/// every other asset is refused, wherever it was declared.
pub proof fn law_asset_is_judged_at_build(
    assets: Seq<(Seq<char>, Seq<char>)>,
    out_dir: Seq<char>,
    i: int,
)
    requires
        0 <= i < assets.len(),
    ensures
        asset_tasks(assets, out_dir).len() == assets.len(),
        is_descendant(join(out_dir, assets[i].1), out_dir) ==> asset_tasks(assets, out_dir)[i]
            == (TaskModel::Copy { from: assets[i].0, to: join(out_dir, assets[i].1) }),
        !is_descendant(join(out_dir, assets[i].1), out_dir) ==> asset_tasks(assets, out_dir)[i]
            == (TaskModel::Reject { destination: join(out_dir, assets[i].1) }),
{
}

/// An asset whose destination is relative and never names `..` is copied,
/// whatever output directory the build has, provided that directory
/// resolves.
pub proof fn law_plain_asset_is_copied(asset: (Seq<char>, Seq<char>), out_dir: Seq<char>)
    requires
        crate::paths::resolve(out_dir) is Some,
        !crate::paths::is_absolute(asset.1),
        forall|i: int|
            0 <= i < crate::paths::segments(asset.1).len() ==> crate::paths::segments(asset.1)[i]
                != ".."@,
    ensures
        asset_task(asset, out_dir) == (TaskModel::Copy {
            from: asset.0,
            to: join(out_dir, asset.1),
        }),
{
    crate::paths::law_plain_destination_stays_inside(out_dir, asset.1);
}

/// An asset whose destination climbs out of the output directory and names
/// an entry there is refused, unless the entry it names is the output
/// directory itself.
pub proof fn law_climbing_asset_is_refused(
    source: Seq<char>,
    name: Seq<char>,
    out_dir: Seq<char>,
)
    requires
        crate::paths::resolve(out_dir) is Some,
        crate::paths::is_entry_name(name),
        crate::paths::resolve(out_dir)->0.len() == 0 || crate::paths::resolve(out_dir)->0.last()
            != name,
    ensures
        asset_task((source, crate::paths::climbing(name)), out_dir) == (TaskModel::Reject {
            destination: join(out_dir, crate::paths::climbing(name)),
        }),
{
    crate::paths::law_climbing_destination_leaves(out_dir, name);
}

/// The output directory of a target whose name is an entry name, in a
/// workspace that resolves, resolves to the components of the workspace,
/// then `out`, then the name of the target.
pub proof fn lemma_output_directory(workspace: Seq<char>, target: Seq<char>)
    requires
        crate::paths::resolve(workspace) is Some,
        crate::paths::is_entry_name(target),
    ensures
        crate::paths::resolve(build_dir(workspace, "out"@, target)) == Some(
            crate::paths::resolve(workspace)->0.push("out"@).push(target),
        ),
{
    reveal_strlit("out");
    reveal_strlit("/");
    reveal_strlit(".");
    reveal_strlit("..");
    let out = "out"@;
    let rel = out + "/"@ + target;
    assert(rel =~= out + seq!['/'] + target);
    crate::text::lemma_split_on_joined(out, target, '/');
    crate::text::lemma_split_on_whole(out, '/');
    crate::text::lemma_split_on_whole(target, '/');
    let rs = crate::paths::segments(rel);
    assert(rs =~= seq![out, target]);
    assert(rel[0] == 'o');
    crate::paths::lemma_resolve_joined(workspace, rel);
    let r = crate::paths::resolve(workspace);
    assert(crate::paths::resolve_from(r, rs, 0) == r);
    assert(crate::paths::resolve_from(r, rs, 1) == crate::paths::push_segment(
        crate::paths::resolve_from(r, rs, 0),
        rs[0],
    ));
    assert(crate::paths::resolve_from(r, rs, 2) == crate::paths::push_segment(
        crate::paths::resolve_from(r, rs, 1),
        rs[1],
    ));
    assert(out.len() == 3 && "."@.len() == 1 && ".."@.len() == 2);
}

/// In the build of a target, an asset destined for `../name` is refused
/// whenever `name` is not the name of the target: it would be written
/// beside the output directory, not in it.
pub proof fn law_escape_from_output_is_refused(
    workspace: Seq<char>,
    target: Seq<char>,
    source: Seq<char>,
    name: Seq<char>,
)
    requires
        crate::paths::resolve(workspace) is Some,
        crate::paths::is_entry_name(target),
        crate::paths::is_entry_name(name),
        name != target,
    ensures
        asset_task(
            (source, crate::paths::climbing(name)),
            build_dir(workspace, "out"@, target),
        ) is Reject,
{
    lemma_output_directory(workspace, target);
    law_climbing_asset_is_refused(source, name, build_dir(workspace, "out"@, target));
}

/// The task that turns one resource into a COFF object with `windres`.
pub open spec fn windres_task(
    program: Seq<char>,
    s: &TargetSettings,
    res_dir: Seq<char>,
    resource: Seq<char>,
) -> TaskModel {
    let coff = object_of(resource, s.workdir@, res_dir, ".o"@)->0;
    TaskModel::Run {
        kind: StepKind::Resource,
        invocation: InvocationModel {
            program,
            args: windres_args(s, resource, coff),
            vendor_env: false,
        },
        product: coff,
    }
}

/// The tasks of the resource phase of the cross toolchain.
pub open spec fn windres_tasks(
    program: Seq<char>,
    s: &TargetSettings,
    res_dir: Seq<char>,
    resources: Seq<Seq<char>>,
) -> Seq<TaskModel> {
    Seq::new(resources.len(), |i: int| windres_task(program, s, res_dir, resources[i]))
}

/// The objects that the resource phase hands to the linker, where each
/// resource file gives one in `dir` with `ext`.
pub open spec fn resource_objects(
    s: &TargetSettings,
    dir: Seq<char>,
    ext: Seq<char>,
    resources: Seq<Seq<char>>,
) -> Seq<Seq<char>> {
    Seq::new(resources.len(), |i: int| object_of(resources[i], s.workdir@, dir, ext)->0)
}

/// Whether a relative path leads from the working directory to every
/// resource file, so that each has its products.
pub open spec fn resources_exist(s: &TargetSettings, resources: Seq<Seq<char>>) -> bool {
    forall|i: int|
        0 <= i < resources.len() ==> (#[trigger] relative_to_workdir(s, resources[i])) is Some
}

/// The path of `file` relative to the working directory of `s`.
pub open spec fn relative_to_workdir(s: &TargetSettings, file: Seq<char>) -> Option<Seq<char>> {
    crate::relative::relative_path(file, s.workdir@)
}

/// The task that compiles one resource with the vendor resource compiler.
pub open spec fn vendor_resource_task(s: &TargetSettings, res_dir: Seq<char>, resource: Seq<char>)
    -> TaskModel {
    let res = object_of(resource, s.workdir@, res_dir, ".res"@)->0;
    TaskModel::Run {
        kind: StepKind::Resource,
        invocation: InvocationModel {
            program: "RC"@,
            args: msvc_resource_args(s, resource, res),
            vendor_env: true,
        },
        product: res,
    }
}

/// The task that converts one compiled resource into an object.
pub open spec fn vendor_convert_task(
    s: &TargetSettings,
    res_dir: Seq<char>,
    obj_dir: Seq<char>,
    resource: Seq<char>,
) -> TaskModel {
    let res = object_of(resource, s.workdir@, res_dir, ".res"@)->0;
    let rbj = object_of(resource, s.workdir@, obj_dir, ".rbj"@)->0;
    TaskModel::Run {
        kind: StepKind::Convert,
        invocation: InvocationModel {
            program: "CVTRES"@,
            args: msvc_convert_args(s, res, rbj),
            vendor_env: true,
        },
        product: rbj,
    }
}

/// The tasks of the resource phase of the vendor toolchain for the first
/// `n` resources: for each, the resource compiler and then the converter.
pub open spec fn vendor_resource_tasks(
    s: &TargetSettings,
    res_dir: Seq<char>,
    obj_dir: Seq<char>,
    resources: Seq<Seq<char>>,
    n: nat,
) -> Seq<TaskModel>
    decreases n,
{
    if n == 0 {
        Seq::empty()
    } else {
        vendor_resource_tasks(s, res_dir, obj_dir, resources, (n - 1) as nat).push(
            vendor_resource_task(s, res_dir, resources[n - 1]),
        ).push(vendor_convert_task(s, res_dir, obj_dir, resources[n - 1]))
    }
}

/// A build laid out, phase by phase.
pub struct PlanModel {
    pub setup: TaskModel,
    pub compile: Seq<TaskModel>,
    pub save: Option<TaskModel>,
    pub resource: Seq<TaskModel>,
    pub link: TaskModel,
    pub assets: Seq<TaskModel>,
    /// What the linker is given, in order.
    pub objects: Seq<Seq<char>>,
}

impl PlanModel {
    /// The tasks of the plan in the order in which they run.
    pub open spec fn tasks(self) -> Seq<TaskModel> {
        seq![self.setup] + self.compile + (match self.save {
            Some(t) => seq![t],
            None => Seq::empty(),
        }) + self.resource + seq![self.link] + self.assets
    }
}

/// A build laid out, phase by phase.
#[derive(Debug)]
pub struct BuildPlan {
    pub setup: Task,
    pub compile: Vec<Task>,
    pub save: Option<Task>,
    pub resource: Vec<Task>,
    pub link: Task,
    pub assets: Vec<Task>,
    /// What the linker is given, in order.
    pub objects: Vec<String>,
}

impl View for BuildPlan {
    type V = PlanModel;

    open spec fn view(&self) -> PlanModel {
        PlanModel {
            setup: self.setup@,
            compile: task_views(self.compile@),
            save: match self.save {
                Some(t) => Some(t@),
                None => None,
            },
            resource: task_views(self.resource@),
            link: self.link@,
            assets: task_views(self.assets@),
            objects: views(self.objects@),
        }
    }
}

/// Puts `more` at the end of `tasks`.
fn append_tasks(tasks: &mut Vec<Task>, more: Vec<Task>)
    ensures
        task_views(final(tasks)@) == task_views(old(tasks)@) + task_views(more@),
{
    let mut more = more;
    let ghost added = task_views(more@);
    tasks.append(&mut more);
    assert(task_views(tasks@) =~= task_views(old(tasks)@) + added);
}

impl BuildPlan {
    /// The tasks of the plan in the order in which they run.
    pub fn into_tasks(self) -> (tasks: Vec<Task>)
        ensures
            task_views(tasks@) == self@.tasks(),
    {
        let ghost model = self@;
        let mut tasks: Vec<Task> = Vec::new();
        tasks.push(self.setup);
        assert(task_views(tasks@) =~= seq![model.setup]);
        append_tasks(&mut tasks, self.compile);
        match self.save {
            Some(t) => {
                let ghost before = task_views(tasks@);
                tasks.push(t);
                assert(task_views(tasks@) =~= before + seq![t@]);
            },
            None => {
                assert(task_views(tasks@) =~= task_views(tasks@) + Seq::<TaskModel>::empty());
            },
        }
        append_tasks(&mut tasks, self.resource);
        let ghost before = task_views(tasks@);
        tasks.push(self.link);
        assert(task_views(tasks@) =~= before + seq![model.link]);
        append_tasks(&mut tasks, self.assets);
        tasks
    }
}

/// The workspace's setting where it has one, else the target's own.
pub fn prefer(over: &Option<String>, own: &Option<String>) -> (r: Option<String>)
    ensures
        text_of(r) == preferred(text_of(*over), text_of(*own)),
{
    match over {
        Some(o) => Some(o.clone()),
        None => match own {
            Some(o) => Some(o.clone()),
            None => None,
        },
    }
}

/// The name of the file that the linker writes.
pub fn effective_output(ctx: &BuildContext, s: &TargetSettings) -> (r: String)
    ensures
        r@ == output_name(ctx, s),
{
    match prefer(&ctx.output, &s.output) {
        Some(o) => o,
        None => String::from_str("out"),
    }
}

/// The directory `kind/name` of the workspace.
pub fn build_dir_path(workspace: &str, kind: &str, name: &str) -> (r: String)
    ensures
        r@ == build_dir(workspace@, kind@, name@),
{
    let rel = concat3(kind, "/", name);
    join_path(workspace, rel.as_str())
}

/// The key of the clean-set of one toolchain and one target.
pub fn clean_set_key_for(toolchain: &str, target: &str) -> (r: String)
    ensures
        r@ == clean_set_key(toolchain@, target@),
{
    let first = escape(toolchain);
    let second = escape(target);
    proof {
        reveal_strlit("_-");
        assert("_-"@ =~= key_separator());
    }
    let head = concat3(first.as_str(), "_-", second.as_str());
    concat2(head.as_str(), "_cache")
}

/// `s` with every `_` doubled.
pub fn escape(s: &str) -> (r: String)
    ensures
        r@ == escaped(s@),
{
    let chars = chars_of(s);
    let n = chars.len();
    let mut r = String::new();
    let mut i: usize = n;
    proof {
        reveal_strlit("__");
        assert("__"@ =~= seq!['_', '_']);
        assert(s@.skip(n as int) =~= Seq::<char>::empty());
    }
    while i > 0
        invariant
            i <= n,
            n == chars.len(),
            chars@ == s@,
            "__"@ == seq!['_', '_'],
            r@ == escaped(s@.skip(i as int)),
        decreases i,
    {
        i -= 1;
        let ghost rest = s@.skip(i as int);
        assert(rest.drop_first() =~= s@.skip(i + 1));
        assert(rest[0] == chars@[i as int]);
        if chars[i] == '_' {
            r = concat2("__", r.as_str());
        } else {
            let piece = s.substring_char(i, i + 1);
            assert(piece@ =~= seq![rest[0]]);
            r = concat2(piece, r.as_str());
        }
    }
    assert(s@.skip(0) =~= s@);
    r
}

/// The prefix of the names of the cross tools for an architecture.
pub fn mingw_tool_prefix(arch: &Option<String>) -> (r: String)
    ensures
        r@ == mingw_prefix(text_of(*arch)),
{
    match arch {
        Some(a) => concat2(a.as_str(), "-w64-mingw32-"),
        None => concat2("x86_64", "-w64-mingw32-"),
    }
}

/// Lays out the copies of the assets into `out_dir`.
pub fn plan_assets(assets: &Vec<(String, String)>, out_dir: &str) -> (tasks: Vec<Task>)
    ensures
        task_views(tasks@) == asset_tasks(asset_pairs(assets@), out_dir@),
{
    let mut tasks: Vec<Task> = Vec::new();
    let mut i: usize = 0;
    let ghost goal = asset_tasks(asset_pairs(assets@), out_dir@);
    assert(task_views(tasks@) =~= goal.take(0));
    while i < assets.len()
        invariant
            i <= assets.len(),
            goal == asset_tasks(asset_pairs(assets@), out_dir@),
            task_views(tasks@) == goal.take(i as int),
        decreases assets.len() - i,
    {
        let to = join_path(out_dir, assets[i].1.as_str());
        let task = if path_is_descendant(to.as_str(), out_dir) {
            Task::Copy { from: assets[i].0.clone(), to }
        } else {
            Task::Reject { destination: to }
        };
        let ghost before = task_views(tasks@);
        assert(task@ == asset_task(asset_pairs(assets@)[i as int], out_dir@));
        tasks.push(task);
        assert(task_views(tasks@) =~= before.push(task@));
        assert(goal.take(i + 1) =~= goal.take(i as int).push(goal[i as int]));
        i += 1;
    }
    assert(goal.take(assets.len() as int) =~= goal);
    tasks
}

/// The link task of a plan.
pub open spec fn link_task(
    program: Seq<char>,
    args: Seq<Seq<char>>,
    vendor_env: bool,
    dest: Seq<char>,
) -> TaskModel {
    TaskModel::Run {
        kind: StepKind::Link,
        invocation: InvocationModel { program, args, vendor_env },
        product: dest,
    }
}

/// The build of a generic target: the compiler on every code file that the
/// clean-set does not cover, then the linker on all objects, then the
/// assets. The tools of the workspace win over those of the target; without
/// a linker, then without a compiler, there is no build.
pub open spec fn generic_plan(
    t: &GenericTarget,
    ctx: &BuildContext,
    hashes: Seq<(Seq<char>, Seq<char>)>,
    clean: Seq<Seq<char>>,
) -> Result<PlanModel, NuMakeError> {
    let s = &t.settings;
    let compiler = preferred(text_of(ctx.toolset_compiler), text_of(t.toolset_compiler));
    let linker = preferred(text_of(ctx.toolset_linker), text_of(t.toolset_linker));
    let obj = build_dir(ctx.workspace@, "obj"@, s.name@);
    let out = build_dir(ctx.workspace@, "out"@, s.name@);
    let code = s.files.files_of(SourceFileType::Code);
    let dest = destination(out, output_name(ctx, s));
    if linker is None {
        Err(NuMakeError::ToolsetLinkerNull)
    } else if compiler is None {
        Err(NuMakeError::ToolsetCompilerNull)
    } else {
        let k = CompileSetup {
            convention: Convention::Gnu,
            program: compiler->0,
            dir: obj,
            ext: ".o"@,
            cached: true,
            hashes,
            clean,
        };
        if !objects_exist(k, s, code) {
            Err(NuMakeError::PathOutsideWorkingDirectory)
        } else {
            Ok(
                PlanModel {
                    setup: TaskModel::CreateDirs(seq![obj, out]),
                    compile: compile_tasks(k, s, code, code.len()),
                    save: Some(
                        TaskModel::SaveCleanSet {
                            key: clean_set_key(compiler->0, s.name@),
                            hashes: saved_hashes(hashes, code, code.len()),
                        },
                    ),
                    resource: Seq::empty(),
                    link: link_task(
                        linker->0,
                        gnu_link_args(s, objects_of(k, s, code), dest),
                        false,
                        dest,
                    ),
                    assets: asset_tasks(asset_pairs(s.assets@), out),
                    objects: objects_of(k, s, code),
                },
            )
        }
    }
}

/// The build of a target of the cross toolchain: the cross compiler on
/// every code file that the clean-set does not cover, `windres` on every
/// resource file, then the archiver for a static library or the cross
/// compiler as linker, then the assets.
pub open spec fn mingw_plan(
    t: &MINGWTarget,
    ctx: &BuildContext,
    hashes: Seq<(Seq<char>, Seq<char>)>,
    clean: Seq<Seq<char>>,
) -> Result<PlanModel, NuMakeError> {
    let s = &t.settings;
    let prefix = mingw_prefix(text_of(t.arch));
    let compiler = prefix + t.lang.driver();
    let obj = build_dir(ctx.workspace@, "obj"@, s.name@);
    let out = build_dir(ctx.workspace@, "out"@, s.name@);
    let res = build_dir(ctx.workspace@, "res"@, s.name@);
    let code = s.files.files_of(SourceFileType::Code);
    let resources = s.files.files_of(SourceFileType::Resource);
    let defs = s.files.files_of(SourceFileType::ModuleDefinition);
    let dest = destination(out, output_name(ctx, s));
    let k = CompileSetup {
        convention: Convention::Gnu,
        program: compiler,
        dir: obj,
        ext: ".o"@,
        cached: true,
        hashes,
        clean,
    };
    let objects = objects_of(k, s, code) + resource_objects(s, res, ".o"@, resources);
    if !objects_exist(k, s, code) || !resources_exist(s, resources) {
        Err(NuMakeError::PathOutsideWorkingDirectory)
    } else {
        Ok(
            PlanModel {
                setup: TaskModel::CreateDirs(build_dirs(obj, out, res, resources)),
                compile: compile_tasks(k, s, code, code.len()),
                save: Some(
                    TaskModel::SaveCleanSet {
                        key: clean_set_key("mingw"@, s.name@),
                        hashes: saved_hashes(hashes, code, code.len()),
                    },
                ),
                resource: windres_tasks(prefix + "windres"@, s, res, resources),
                link: if t.static_lib {
                    link_task(prefix + "ar"@, archive_args(objects, defs, dest), false, dest)
                } else {
                    link_task(compiler, mingw_link_args(s, objects, defs, dest), false, dest)
                },
                assets: asset_tasks(asset_pairs(s.assets@), out),
                objects,
            },
        )
    }
}

/// The build of a target of the vendor toolchain, which exists only on the
/// vendor's system: the compiler on every code file, the resource compiler
/// and the converter on every resource file, then the librarian for a
/// static library or the linker, then the assets.
pub open spec fn msvc_plan(t: &MSVCTarget, ctx: &BuildContext) -> Result<PlanModel, NuMakeError> {
    let s = &t.settings;
    let obj = build_dir(ctx.workspace@, "obj"@, s.name@);
    let out = build_dir(ctx.workspace@, "out"@, s.name@);
    let res = build_dir(ctx.workspace@, "res"@, s.name@);
    let code = s.files.files_of(SourceFileType::Code);
    let resources = s.files.files_of(SourceFileType::Resource);
    let defs = s.files.files_of(SourceFileType::ModuleDefinition);
    let dest = destination(out, output_name(ctx, s));
    let k = CompileSetup {
        convention: Convention::Vendor,
        program: "CL"@,
        dir: obj,
        ext: ".obj"@,
        cached: false,
        hashes: Seq::empty(),
        clean: Seq::empty(),
    };
    let objects = objects_of(k, s, code) + resource_objects(s, obj, ".rbj"@, resources);
    if !ctx.host_is_windows {
        Err(NuMakeError::MsvcWindowsOnly)
    } else if !objects_exist(k, s, code) || !resources_exist(s, resources) {
        Err(NuMakeError::PathOutsideWorkingDirectory)
    } else {
        Ok(
            PlanModel {
                setup: TaskModel::CreateDirs(build_dirs(obj, out, res, resources)),
                compile: compile_tasks(k, s, code, code.len()),
                save: None,
                resource: vendor_resource_tasks(s, res, obj, resources, resources.len()),
                link: link_task(
                    if t.static_lib {
                        "LIB"@
                    } else {
                        "LINK"@
                    },
                    msvc_link_args(s, objects, defs, dest),
                    true,
                    dest,
                ),
                assets: asset_tasks(asset_pairs(s.assets@), out),
                objects,
            },
        )
    }
}

/// The directories of a build, as one set-up task.
fn setup_task(dirs: Vec<String>) -> (t: Task)
    ensures
        t@ == TaskModel::CreateDirs(views(dirs@)),
{
    Task::CreateDirs(dirs)
}

/// A link task.
fn make_link_task(program: String, args: Vec<String>, vendor_env: bool, dest: String) -> (t: Task)
    ensures
        t@ == link_task(program@, views(args@), vendor_env, dest@),
{
    Task::Run {
        kind: StepKind::Link,
        invocation: Invocation { program, args, vendor_env },
        product: dest,
    }
}

/// Lays out the resource phase of the cross toolchain and puts the COFF
/// objects at the end of `objects`. There is no layout where a resource
/// file has no relative path.
#[verifier::loop_isolation(false)]
fn plan_windres(
    program: &str,
    s: &TargetSettings,
    res_dir: &str,
    resources: &Vec<String>,
    objects: &mut Vec<String>,
) -> (r: Option<Vec<Task>>)
    ensures
        match r {
            Some(tasks) => {
                &&& resources_exist(s, views(resources@))
                &&& task_views(tasks@) == windres_tasks(program@, s, res_dir@, views(resources@))
                &&& views(final(objects)@) == views(old(objects)@) + resource_objects(
                    s,
                    res_dir@,
                    ".o"@,
                    views(resources@),
                )
            },
            None => !resources_exist(s, views(resources@)),
        },
{
    let ghost rs = views(resources@);
    let ghost goal = windres_tasks(program@, s, res_dir@, rs);
    let ghost added = resource_objects(s, res_dir@, ".o"@, rs);
    let mut tasks: Vec<Task> = Vec::new();
    let mut i: usize = 0;
    assert(task_views(tasks@) =~= goal.take(0));
    assert(views(objects@) =~= views(old(objects)@) + added.take(0));
    while i < resources.len()
        invariant
            i <= resources.len(),
            forall|j: int| 0 <= j < i ==> (#[trigger] relative_to_workdir(s, rs[j])) is Some,
            task_views(tasks@) == goal.take(i as int),
            views(objects@) == views(old(objects)@) + added.take(i as int),
        decreases resources.len() - i,
    {
        let resource = resources[i].as_str();
        assert(resource@ == rs[i as int]);
        let coff = match object_path(resource, s.workdir.as_str(), res_dir, ".o") {
            Some(o) => o,
            None => {
                assert(relative_to_workdir(s, rs[i as int]) is None);
                return None;
            },
        };
        let args = build_windres_args(s, resource, coff.as_str());
        let task = Task::Run {
            kind: StepKind::Resource,
            invocation: Invocation { program: String::from_str(program), args, vendor_env: false },
            product: coff.clone(),
        };
        assert(task@ == windres_task(program@, s, res_dir@, resource@));
        let ghost before = task_views(tasks@);
        tasks.push(task);
        assert(task_views(tasks@) =~= before.push(goal[i as int]));
        assert(goal.take(i + 1) =~= goal.take(i as int).push(goal[i as int]));
        let ghost objects_before = views(objects@);
        objects.push(coff);
        assert(views(objects@) =~= objects_before.push(added[i as int]));
        assert(added.take(i + 1) =~= added.take(i as int).push(added[i as int]));
        i += 1;
    }
    assert(goal.take(resources.len() as int) =~= goal);
    assert(added.take(resources.len() as int) =~= added);
    Some(tasks)
}

/// Lays out the resource phase of the vendor toolchain and puts the
/// converted objects at the end of `objects`.
#[verifier::loop_isolation(false)]
fn plan_vendor_resources(
    s: &TargetSettings,
    res_dir: &str,
    obj_dir: &str,
    resources: &Vec<String>,
    objects: &mut Vec<String>,
) -> (r: Option<Vec<Task>>)
    ensures
        match r {
            Some(tasks) => {
                &&& resources_exist(s, views(resources@))
                &&& task_views(tasks@) == vendor_resource_tasks(
                    s,
                    res_dir@,
                    obj_dir@,
                    views(resources@),
                    resources@.len(),
                )
                &&& views(final(objects)@) == views(old(objects)@) + resource_objects(
                    s,
                    obj_dir@,
                    ".rbj"@,
                    views(resources@),
                )
            },
            None => !resources_exist(s, views(resources@)),
        },
{
    let ghost rs = views(resources@);
    let ghost added = resource_objects(s, obj_dir@, ".rbj"@, rs);
    let mut tasks: Vec<Task> = Vec::new();
    let mut i: usize = 0;
    assert(task_views(tasks@) =~= vendor_resource_tasks(s, res_dir@, obj_dir@, rs, 0));
    assert(views(objects@) =~= views(old(objects)@) + added.take(0));
    while i < resources.len()
        invariant
            i <= resources.len(),
            forall|j: int| 0 <= j < i ==> (#[trigger] relative_to_workdir(s, rs[j])) is Some,
            task_views(tasks@) == vendor_resource_tasks(s, res_dir@, obj_dir@, rs, i as nat),
            views(objects@) == views(old(objects)@) + added.take(i as int),
        decreases resources.len() - i,
    {
        let resource = resources[i].as_str();
        assert(resource@ == rs[i as int]);
        let res = match object_path(resource, s.workdir.as_str(), res_dir, ".res") {
            Some(o) => o,
            None => {
                assert(relative_to_workdir(s, rs[i as int]) is None);
                return None;
            },
        };
        let rbj = match object_path(resource, s.workdir.as_str(), obj_dir, ".rbj") {
            Some(o) => o,
            None => {
                assert(relative_to_workdir(s, rs[i as int]) is None);
                return None;
            },
        };
        let compile = Task::Run {
            kind: StepKind::Resource,
            invocation: Invocation {
                program: String::from_str("RC"),
                args: build_msvc_resource_args(s, resource, res.as_str()),
                vendor_env: true,
            },
            product: res.clone(),
        };
        let convert = Task::Run {
            kind: StepKind::Convert,
            invocation: Invocation {
                program: String::from_str("CVTRES"),
                args: build_msvc_convert_args(s, res.as_str(), rbj.as_str()),
                vendor_env: true,
            },
            product: rbj.clone(),
        };
        assert(compile@ == vendor_resource_task(s, res_dir@, resource@));
        assert(convert@ == vendor_convert_task(s, res_dir@, obj_dir@, resource@));
        let ghost before = task_views(tasks@);
        tasks.push(compile);
        tasks.push(convert);
        assert(task_views(tasks@) =~= before.push(compile@).push(convert@));
        let ghost objects_before = views(objects@);
        objects.push(rbj);
        assert(views(objects@) =~= objects_before.push(added[i as int]));
        assert(added.take(i + 1) =~= added.take(i as int).push(added[i as int]));
        i += 1;
    }
    assert(added.take(resources.len() as int) =~= added);
    Some(tasks)
}

impl GenericTarget {
    /// Lays out the build of the target; see `generic_plan`.
    pub fn build(
        &self,
        ctx: &BuildContext,
        hashes: &Vec<(String, String)>,
        clean: &Vec<String>,
    ) -> (r: Result<BuildPlan, NuMakeError>)
        ensures
            match r {
                Ok(plan) => generic_plan(self, ctx, hash_pairs(hashes@), views(clean@)) == Ok::<
                    PlanModel,
                    NuMakeError,
                >(plan@),
                Err(e) => generic_plan(self, ctx, hash_pairs(hashes@), views(clean@)) == Err::<
                    PlanModel,
                    NuMakeError,
                >(e),
            },
    {
        let s = &self.settings;
        let linker = match prefer(&ctx.toolset_linker, &self.toolset_linker) {
            Some(l) => l,
            None => {
                return Err(NuMakeError::ToolsetLinkerNull);
            },
        };
        let compiler = match prefer(&ctx.toolset_compiler, &self.toolset_compiler) {
            Some(c) => c,
            None => {
                return Err(NuMakeError::ToolsetCompilerNull);
            },
        };
        let obj = build_dir_path(ctx.workspace.as_str(), "obj", s.name.as_str());
        let out = build_dir_path(ctx.workspace.as_str(), "out", s.name.as_str());
        let code = s.files.get(&SourceFileType::Code);
        let phase = match plan_compile(
            Convention::Gnu,
            compiler.as_str(),
            s,
            &code,
            obj.as_str(),
            ".o",
            true,
            hashes,
            clean,
        ) {
            Some(p) => p,
            None => {
                return Err(NuMakeError::PathOutsideWorkingDirectory);
            },
        };
        let output = effective_output(ctx, s);
        let dest = link_destination(out.as_str(), output.as_str());
        let link_args = build_gnu_link_args(s, &phase.objects, dest.as_str());
        let assets = plan_assets(&s.assets, out.as_str());
        let key = clean_set_key_for(compiler.as_str(), s.name.as_str());
        let mut dirs: Vec<String> = Vec::new();
        dirs.push(obj);
        dirs.push(out);
        assert(views(dirs@) =~= seq![obj@, out@]);
        let resource: Vec<Task> = Vec::new();
        assert(task_views(resource@) =~= Seq::<TaskModel>::empty());
        Ok(
            BuildPlan {
                setup: setup_task(dirs),
                compile: phase.tasks,
                save: Some(Task::SaveCleanSet { key, hashes: phase.clean }),
                resource,
                link: make_link_task(linker, link_args, false, dest),
                assets,
                objects: phase.objects,
            },
        )
    }
}

impl MINGWTarget {
    /// Lays out the build of the target; see `mingw_plan`.
    pub fn build(
        &self,
        ctx: &BuildContext,
        hashes: &Vec<(String, String)>,
        clean: &Vec<String>,
    ) -> (r: Result<BuildPlan, NuMakeError>)
        ensures
            match r {
                Ok(plan) => mingw_plan(self, ctx, hash_pairs(hashes@), views(clean@)) == Ok::<
                    PlanModel,
                    NuMakeError,
                >(plan@),
                Err(e) => mingw_plan(self, ctx, hash_pairs(hashes@), views(clean@)) == Err::<
                    PlanModel,
                    NuMakeError,
                >(e),
            },
    {
        let s = &self.settings;
        let prefix = mingw_tool_prefix(&self.arch);
        let compiler = concat2(prefix.as_str(), self.lang.gcc_driver());
        let obj = build_dir_path(ctx.workspace.as_str(), "obj", s.name.as_str());
        let out = build_dir_path(ctx.workspace.as_str(), "out", s.name.as_str());
        let res = build_dir_path(ctx.workspace.as_str(), "res", s.name.as_str());
        let code = s.files.get(&SourceFileType::Code);
        let resources = s.files.get(&SourceFileType::Resource);
        let defs = s.files.get(&SourceFileType::ModuleDefinition);
        let phase = match plan_compile(
            Convention::Gnu,
            compiler.as_str(),
            s,
            &code,
            obj.as_str(),
            ".o",
            true,
            hashes,
            clean,
        ) {
            Some(p) => p,
            None => {
                return Err(NuMakeError::PathOutsideWorkingDirectory);
            },
        };
        let mut objects = phase.objects;
        let windres = concat2(prefix.as_str(), "windres");
        let resource = match plan_windres(
            windres.as_str(),
            s,
            res.as_str(),
            &resources,
            &mut objects,
        ) {
            Some(tasks) => tasks,
            None => {
                return Err(NuMakeError::PathOutsideWorkingDirectory);
            },
        };
        let output = effective_output(ctx, s);
        let dest = link_destination(out.as_str(), output.as_str());
        let link = if self.static_lib {
            let args = build_archive_args(&objects, &defs, dest.as_str());
            make_link_task(concat2(prefix.as_str(), "ar"), args, false, dest)
        } else {
            let args = build_mingw_link_args(s, &objects, &defs, dest.as_str());
            make_link_task(compiler, args, false, dest)
        };
        let assets = plan_assets(&s.assets, out.as_str());
        let key = clean_set_key_for("mingw", s.name.as_str());
        let mut dirs: Vec<String> = Vec::new();
        dirs.push(obj);
        dirs.push(out);
        if resources.len() > 0 {
            dirs.push(res);
        }
        assert(views(dirs@) =~= build_dirs(obj@, out@, res@, views(resources@)));
        Ok(
            BuildPlan {
                setup: setup_task(dirs),
                compile: phase.tasks,
                save: Some(Task::SaveCleanSet { key, hashes: phase.clean }),
                resource,
                link,
                assets,
                objects,
            },
        )
    }
}

impl MSVCTarget {
    /// Lays out the build of the target; see `msvc_plan`.
    pub fn build(&self, ctx: &BuildContext) -> (r: Result<BuildPlan, NuMakeError>)
        ensures
            match r {
                Ok(plan) => msvc_plan(self, ctx) == Ok::<PlanModel, NuMakeError>(plan@),
                Err(e) => msvc_plan(self, ctx) == Err::<PlanModel, NuMakeError>(e),
            },
    {
        if !ctx.host_is_windows {
            return Err(NuMakeError::MsvcWindowsOnly);
        }
        let s = &self.settings;
        let obj = build_dir_path(ctx.workspace.as_str(), "obj", s.name.as_str());
        let out = build_dir_path(ctx.workspace.as_str(), "out", s.name.as_str());
        let res = build_dir_path(ctx.workspace.as_str(), "res", s.name.as_str());
        let code = s.files.get(&SourceFileType::Code);
        let resources = s.files.get(&SourceFileType::Resource);
        let defs = s.files.get(&SourceFileType::ModuleDefinition);
        let no_hashes: Vec<(String, String)> = Vec::new();
        let no_clean: Vec<String> = Vec::new();
        assert(hash_pairs(no_hashes@) =~= Seq::empty());
        assert(views(no_clean@) =~= Seq::empty());
        let phase = match plan_compile(
            Convention::Vendor,
            "CL",
            s,
            &code,
            obj.as_str(),
            ".obj",
            false,
            &no_hashes,
            &no_clean,
        ) {
            Some(p) => p,
            None => {
                return Err(NuMakeError::PathOutsideWorkingDirectory);
            },
        };
        let mut objects = phase.objects;
        let resource = match plan_vendor_resources(
            s,
            res.as_str(),
            obj.as_str(),
            &resources,
            &mut objects,
        ) {
            Some(tasks) => tasks,
            None => {
                return Err(NuMakeError::PathOutsideWorkingDirectory);
            },
        };
        let output = effective_output(ctx, s);
        let dest = link_destination(out.as_str(), output.as_str());
        let args = build_msvc_link_args(s, &objects, &defs, dest.as_str());
        let program = if self.static_lib {
            String::from_str("LIB")
        } else {
            String::from_str("LINK")
        };
        let link = make_link_task(program, args, true, dest);
        let assets = plan_assets(&s.assets, out.as_str());
        let mut dirs: Vec<String> = Vec::new();
        dirs.push(obj);
        dirs.push(out);
        if resources.len() > 0 {
            dirs.push(res);
        }
        assert(views(dirs@) =~= build_dirs(obj@, out@, res@, views(resources@)));
        Ok(
            BuildPlan {
                setup: setup_task(dirs),
                compile: phase.tasks,
                save: None,
                resource,
                link,
                assets,
                objects,
            },
        )
    }
}

} // verus!
