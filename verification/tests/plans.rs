use numake::backend::{clean_set_key_for, escape, plan_assets, BuildContext, BuildPlan};
use numake::error::NuMakeError;
use numake::hashing::hash_content;
use numake::composite::Leaf;
use numake::plan::{place_object, StepKind, Task};
use numake::project_language::ProjectLanguage;
use numake::target::{GenericTarget, MINGWTarget, MSVCTarget};

fn context() -> BuildContext {
    BuildContext {
        workspace: "/w/.numake".to_string(),
        output: None,
        toolset_compiler: None,
        toolset_linker: None,
        host_is_windows: true,
    }
}

fn three_files() -> GenericTarget {
    let mut t = GenericTarget::new(
        "app".to_string(),
        Some("cc".to_string()),
        Some("ld".to_string()),
        Some("prog".to_string()),
        "/w".to_string(),
    );
    t.add_file("/w/src/a.c", true).unwrap();
    t.add_file("/w/src/b.c", true).unwrap();
    t.add_file("/w/c.cpp", true).unwrap();
    t.settings.include_paths = vec!["inc".to_string()];
    t.settings.defines = vec!["X=1".to_string()];
    t.settings.compiler_flags = vec!["-O2".to_string()];
    t.settings.lib_paths = vec!["libs".to_string()];
    t.settings.libs = vec!["m".to_string()];
    t.settings.linker_flags = vec!["-s".to_string()];
    t
}

fn hashes(contents: [&str; 3]) -> Vec<(String, String)> {
    vec![
        ("/w/src/a.c".to_string(), hash_content(contents[0].as_bytes())),
        ("/w/src/b.c".to_string(), hash_content(contents[1].as_bytes())),
        ("/w/c.cpp".to_string(), hash_content(contents[2].as_bytes())),
    ]
}

fn stored(plan: &BuildPlan) -> Vec<String> {
    match &plan.save {
        Some(Task::SaveCleanSet { hashes, .. }) => hashes.clone(),
        _ => panic!("no clean-set is stored"),
    }
}

fn run_parts(task: &Task) -> (StepKind, String, Vec<String>, bool, String) {
    match task {
        Task::Run { kind, invocation, product } => (
            *kind,
            invocation.program.clone(),
            invocation.args.clone(),
            invocation.vendor_env,
            product.clone(),
        ),
        _ => panic!("not a run"),
    }
}

fn strings(v: &[&str]) -> Vec<String> {
    v.iter().map(|s| s.to_string()).collect()
}

#[test]
fn generic_plan_from_scratch() {
    let t = three_files();
    let plan = t.build(&context(), &hashes(["a", "b", "c"]), &vec![]).unwrap();
    match &plan.setup {
        Task::CreateDirs(dirs) => {
            assert_eq!(dirs, &strings(&["/w/.numake/obj/app", "/w/.numake/out/app"]))
        }
        _ => panic!("set-up is no directory task"),
    }
    assert_eq!(plan.compile.len(), 3);
    let (kind, program, args, vendor, product) = run_parts(&plan.compile[0]);
    assert_eq!(kind, StepKind::Compile);
    assert_eq!(program, "cc");
    assert!(!vendor);
    assert_eq!(product, "/w/.numake/obj/app/src/a.c.o");
    assert_eq!(
        args,
        strings(&["-c", "-o/w/.numake/obj/app/src/a.c.o", "-Iinc", "-DX=1", "-O2", "/w/src/a.c"])
    );
    assert_eq!(
        plan.objects,
        strings(&[
            "/w/.numake/obj/app/src/a.c.o",
            "/w/.numake/obj/app/src/b.c.o",
            "/w/.numake/obj/app/c.cpp.o"
        ])
    );
    assert!(plan.resource.is_empty());
    let (kind, program, args, vendor, product) = run_parts(&plan.link);
    assert_eq!(kind, StepKind::Link);
    assert_eq!(program, "ld");
    assert!(!vendor);
    assert_eq!(product, "/w/.numake/out/app/prog");
    assert_eq!(
        args,
        strings(&[
            "/w/.numake/obj/app/src/a.c.o",
            "/w/.numake/obj/app/src/b.c.o",
            "/w/.numake/obj/app/c.cpp.o",
            "-Llibs",
            "-lm",
            "-s",
            "-o/w/.numake/out/app/prog"
        ])
    );
    match &plan.save {
        Some(Task::SaveCleanSet { key, hashes }) => {
            assert_eq!(key, "cc_-app_cache");
            assert_eq!(hashes.len(), 3);
        }
        _ => panic!("no clean-set is stored"),
    }
    assert_eq!(plan.into_tasks().len(), 1 + 3 + 1 + 0 + 1 + 0);
}

#[test]
fn second_build_compiles_nothing() {
    let t = three_files();
    let h = hashes(["a", "b", "c"]);
    let first = t.build(&context(), &h, &vec![]).unwrap();
    let second = t.build(&context(), &h, &stored(&first)).unwrap();
    assert_eq!(second.compile.len(), 0);
    assert_eq!(second.objects, first.objects);
    assert_eq!(run_parts(&second.link), run_parts(&first.link));
    assert_eq!(stored(&second), stored(&first));
}

#[test]
fn one_changed_file_is_compiled_alone() {
    let t = three_files();
    let first = t.build(&context(), &hashes(["a", "b", "c"]), &vec![]).unwrap();
    let clean = stored(&first);
    let second = t.build(&context(), &hashes(["a", "b changed", "c"]), &clean).unwrap();
    assert_eq!(second.compile.len(), 1);
    let (_, _, args, _, product) = run_parts(&second.compile[0]);
    assert_eq!(product, "/w/.numake/obj/app/src/b.c.o");
    assert_eq!(args.last().unwrap(), "/w/src/b.c");
    assert_eq!(second.objects, first.objects);
    let (_, _, link_args, _, _) = run_parts(&second.link);
    assert!(link_args.contains(&"/w/.numake/obj/app/src/a.c.o".to_string()));
    assert!(link_args.contains(&"/w/.numake/obj/app/c.cpp.o".to_string()));
    let kept = stored(&second);
    assert_eq!(kept.len(), 3);
    assert!(kept.contains(&hash_content(b"b changed")));
    assert!(!kept.contains(&hash_content(b"b")));
}

#[test]
fn file_without_hash_is_always_compiled() {
    let t = three_files();
    let mut h = hashes(["a", "b", "c"]);
    h.remove(1);
    let first = t.build(&context(), &h, &vec![]).unwrap();
    assert_eq!(stored(&first).len(), 2);
    let second = t.build(&context(), &h, &stored(&first)).unwrap();
    assert_eq!(second.compile.len(), 1);
    assert_eq!(run_parts(&second.compile[0]).4, "/w/.numake/obj/app/src/b.c.o");
}

#[test]
fn files_with_equal_content_share_a_hash() {
    let t = three_files();
    let first = t.build(&context(), &hashes(["same", "same", "c"]), &vec![]).unwrap();
    assert_eq!(first.compile.len(), 3);
    assert_eq!(stored(&first).len(), 2);
}

#[test]
fn workspace_overrides_win() {
    let t = three_files();
    let mut ctx = context();
    ctx.toolset_compiler = Some("clang".to_string());
    ctx.toolset_linker = Some("lld".to_string());
    ctx.output = Some("other".to_string());
    let plan = t.build(&ctx, &vec![], &vec![]).unwrap();
    assert_eq!(run_parts(&plan.compile[0]).1, "clang");
    assert_eq!(run_parts(&plan.link).1, "lld");
    assert_eq!(run_parts(&plan.link).4, "/w/.numake/out/app/other");
    match &plan.save {
        Some(Task::SaveCleanSet { key, .. }) => assert_eq!(key, "clang_-app_cache"),
        _ => panic!("no clean-set is stored"),
    }
}

#[test]
fn output_defaults_to_out() {
    let mut t = three_files();
    t.settings.output = None;
    let plan = t.build(&context(), &vec![], &vec![]).unwrap();
    assert_eq!(run_parts(&plan.link).4, "/w/.numake/out/app/out");
}

#[test]
fn missing_tools_are_errors() {
    let mut t = three_files();
    t.toolset_linker = None;
    assert_eq!(
        t.build(&context(), &vec![], &vec![]).err(),
        Some(NuMakeError::ToolsetLinkerNull)
    );
    t.toolset_compiler = None;
    assert_eq!(
        t.build(&context(), &vec![], &vec![]).err(),
        Some(NuMakeError::ToolsetLinkerNull)
    );
    t.toolset_linker = Some("ld".to_string());
    assert_eq!(
        t.build(&context(), &vec![], &vec![]).err(),
        Some(NuMakeError::ToolsetCompilerNull)
    );
}

#[test]
fn asset_outside_output_directory_fails_at_copy_time() {
    let mut t = three_files();
    assert_eq!(t.settings.add_asset("/w/data/a.png", "img/a.png"), Ok(()));
    assert_eq!(t.settings.add_asset("/w/data/b.png", "../../b.png"), Ok(()));
    assert_eq!(t.settings.add_asset("/w/data/c.png", "/tmp/c.png"), Ok(()));
    let plan = t.build(&context(), &vec![], &vec![]).unwrap();
    assert_eq!(plan.assets.len(), 3);
    match &plan.assets[0] {
        Task::Copy { from, to } => {
            assert_eq!(from, "/w/data/a.png");
            assert_eq!(to, "/w/.numake/out/app/img/a.png");
        }
        _ => panic!("the first asset is not copied"),
    }
    match &plan.assets[1] {
        Task::Reject { destination } => {
            assert_eq!(destination, "/w/.numake/out/app/../../b.png")
        }
        _ => panic!("the second asset is not refused"),
    }
    match &plan.assets[2] {
        Task::Reject { destination } => assert_eq!(destination, "/tmp/c.png"),
        _ => panic!("the third asset is not refused"),
    }
}

#[test]
fn asset_is_judged_against_the_directory_of_the_build() {
    let mut t = three_files();
    assert_eq!(t.settings.add_asset("/w/data/a.png", "../app/a.png"), Ok(()));
    let plan = t.build(&context(), &vec![], &vec![]).unwrap();
    assert!(matches!(&plan.assets[0], Task::Copy { .. }));
    t.settings.name = "renamed".to_string();
    let plan = t.build(&context(), &vec![], &vec![]).unwrap();
    assert!(matches!(&plan.assets[0], Task::Reject { .. }));
}

fn mingw() -> MINGWTarget {
    let mut t = MINGWTarget::new("win".to_string(), None, "/w".to_string());
    t.add_file("/w/a.cpp", true).unwrap();
    t.add_file("/w/app.rc", true).unwrap();
    t.add_file("/w/app.def", true).unwrap();
    t.settings.include_paths = vec!["inc".to_string()];
    t.settings.defines = vec!["D".to_string()];
    t.settings.compiler_flags = vec!["-g".to_string()];
    t.settings.linker_flags = vec!["--subsystem,windows".to_string()];
    t.settings.lib_paths = vec!["lp".to_string()];
    t.settings.libs = vec!["gdi32".to_string()];
    t
}

#[test]
fn mingw_plan_links_with_the_compiler() {
    let t = mingw();
    let plan = t.build(&context(), &vec![], &vec![]).unwrap();
    match &plan.setup {
        Task::CreateDirs(dirs) => assert_eq!(
            dirs,
            &strings(&["/w/.numake/obj/win", "/w/.numake/out/win", "/w/.numake/res/win"])
        ),
        _ => panic!("set-up is no directory task"),
    }
    let (_, program, args, _, _) = run_parts(&plan.compile[0]);
    assert_eq!(program, "x86_64-w64-mingw32-g++");
    assert_eq!(
        args,
        strings(&["-c", "-o/w/.numake/obj/win/a.cpp.o", "-Iinc", "-DD", "-g", "/w/a.cpp"])
    );
    let (kind, program, args, _, product) = run_parts(&plan.resource[0]);
    assert_eq!(kind, StepKind::Resource);
    assert_eq!(program, "x86_64-w64-mingw32-windres");
    assert_eq!(product, "/w/.numake/res/win/app.rc.o");
    assert_eq!(
        args,
        strings(&["-v", "/w/app.rc", "-OCOFF", "-Iinc", "-DD", "-o/w/.numake/res/win/app.rc.o"])
    );
    let (_, program, args, _, _) = run_parts(&plan.link);
    assert_eq!(program, "x86_64-w64-mingw32-g++");
    assert_eq!(
        args,
        strings(&[
            "/w/.numake/obj/win/a.cpp.o",
            "/w/.numake/res/win/app.rc.o",
            "/w/app.def",
            "-Llp",
            "-lgdi32",
            "-g",
            "-Wl,--subsystem,windows",
            "-o/w/.numake/out/win/out"
        ])
    );
    match &plan.save {
        Some(Task::SaveCleanSet { key, .. }) => assert_eq!(key, "mingw_-win_cache"),
        _ => panic!("no clean-set is stored"),
    }
}

#[test]
fn mingw_static_library_uses_the_archiver() {
    let mut t = mingw();
    t.static_lib = true;
    t.arch = Some("i686".to_string());
    t.lang = ProjectLanguage::C;
    t.settings.output = Some("libx.a".to_string());
    let plan = t.build(&context(), &vec![], &vec![]).unwrap();
    assert_eq!(run_parts(&plan.compile[0]).1, "i686-w64-mingw32-gcc");
    let (_, program, args, _, _) = run_parts(&plan.link);
    assert_eq!(program, "i686-w64-mingw32-ar");
    assert_eq!(
        args,
        strings(&[
            "rcs",
            "/w/.numake/out/win/libx.a",
            "/w/.numake/obj/win/a.cpp.o",
            "/w/.numake/res/win/app.rc.o",
            "/w/app.def"
        ])
    );
}

#[test]
fn mingw_resources_are_never_skipped() {
    let t = mingw();
    let h = vec![("/w/a.cpp".to_string(), hash_content(b"x"))];
    let first = t.build(&context(), &h, &vec![]).unwrap();
    let second = t.build(&context(), &h, &stored(&first)).unwrap();
    assert_eq!(second.compile.len(), 0);
    assert_eq!(second.resource.len(), 1);
    assert_eq!(second.objects, first.objects);
}

fn msvc() -> MSVCTarget {
    let mut t = MSVCTarget::new("v".to_string(), Some("v.exe".to_string()), "/w".to_string());
    t.add_file("/w/a.cpp", true).unwrap();
    t.add_file("/w/app.rc", true).unwrap();
    t.add_file("/w/app.def", true).unwrap();
    t.settings.include_paths = vec!["inc".to_string()];
    t.settings.defines = vec!["D".to_string()];
    t.settings.compiler_flags = vec!["/W4".to_string()];
    t.settings.linker_flags = vec!["/DEBUG".to_string()];
    t.settings.lib_paths = vec!["lp".to_string()];
    t.settings.libs = vec!["user32.lib".to_string()];
    t
}

#[test]
fn msvc_plan_uses_the_vendor_conventions() {
    let t = msvc();
    let plan = t.build(&context()).unwrap();
    assert!(plan.save.is_none());
    let (_, program, args, vendor, product) = run_parts(&plan.compile[0]);
    assert_eq!(program, "CL");
    assert!(vendor);
    assert_eq!(product, "/w/.numake/obj/v/a.cpp.obj");
    assert_eq!(
        args,
        strings(&["-c", "-Fo/w/.numake/obj/v/a.cpp.obj", "-Iinc", "-DD", "/W4", "/w/a.cpp"])
    );
    assert_eq!(plan.resource.len(), 2);
    let (kind, program, args, vendor, product) = run_parts(&plan.resource[0]);
    assert_eq!(kind, StepKind::Resource);
    assert_eq!(program, "RC");
    assert!(vendor);
    assert_eq!(product, "/w/.numake/res/v/app.rc.res");
    assert_eq!(
        args,
        strings(&["-v", "-fo/w/.numake/res/v/app.rc.res", "-iinc", "-dD", "/w/app.rc"])
    );
    let (kind, program, args, _, product) = run_parts(&plan.resource[1]);
    assert_eq!(kind, StepKind::Convert);
    assert_eq!(program, "CVTRES");
    assert_eq!(product, "/w/.numake/obj/v/app.rc.rbj");
    assert_eq!(
        args,
        strings(&["/OUT:/w/.numake/obj/v/app.rc.rbj", "/DEFINE:D", "/w/.numake/res/v/app.rc.res"])
    );
    let (_, program, args, vendor, _) = run_parts(&plan.link);
    assert_eq!(program, "LINK");
    assert!(vendor);
    assert_eq!(
        args,
        strings(&[
            "/OUT:/w/.numake/out/v/v.exe",
            "/LIBPATH:lp",
            "/DEF:/w/app.def",
            "/DEBUG",
            "/w/.numake/obj/v/a.cpp.obj",
            "/w/.numake/obj/v/app.rc.rbj",
            "user32.lib"
        ])
    );
}

#[test]
fn msvc_static_library_uses_the_librarian() {
    let mut t = msvc();
    t.static_lib = true;
    let plan = t.build(&context()).unwrap();
    assert_eq!(run_parts(&plan.link).1, "LIB");
}

#[test]
fn msvc_builds_only_on_windows() {
    let t = msvc();
    let mut ctx = context();
    ctx.host_is_windows = false;
    assert_eq!(t.build(&ctx).err(), Some(NuMakeError::MsvcWindowsOnly));
}

#[test]
fn objects_mirror_the_sources() {
    assert_eq!(place_object("src/a.c", "/w/.numake/obj/app", ".o"), "/w/.numake/obj/app/src/a.c.o");
    assert_eq!(place_object("a.rc", "/w/.numake/res/app/", ".res"), "/w/.numake/res/app/a.rc.res");
}

#[test]
fn resource_directory_is_made_only_for_resources() {
    let mut t = MINGWTarget::new("plain".to_string(), None, "/w".to_string());
    t.add_file("/w/a.c", true).unwrap();
    let plan = t.build(&context(), &vec![], &vec![]).unwrap();
    match &plan.setup {
        Task::CreateDirs(dirs) => {
            assert_eq!(dirs, &strings(&["/w/.numake/obj/plain", "/w/.numake/out/plain"]))
        }
        _ => panic!("set-up is no directory task"),
    }
    let mut v = MSVCTarget::new("plain".to_string(), None, "/w".to_string());
    v.add_file("/w/a.c", true).unwrap();
    let plan = v.build(&context()).unwrap();
    match &plan.setup {
        Task::CreateDirs(dirs) => assert_eq!(dirs.len(), 2),
        _ => panic!("set-up is no directory task"),
    }
}

#[test]
fn clean_sets_are_kept_by_toolchain_and_target() {
    let t = three_files();
    let mut ctx = context();
    assert_eq!(Leaf::Generic(&t).clean_set_name(&ctx), Some("cc_-app_cache".to_string()));
    ctx.toolset_compiler = Some("clang".to_string());
    assert_eq!(Leaf::Generic(&t).clean_set_name(&ctx), Some("clang_-app_cache".to_string()));
    let m = mingw();
    assert_eq!(Leaf::MinGW(&m).clean_set_name(&ctx), Some("mingw_-win_cache".to_string()));
    let v = msvc();
    assert_eq!(Leaf::MSVC(&v).clean_set_name(&ctx), None);
    let mut bare = three_files();
    bare.toolset_compiler = None;
    assert_eq!(Leaf::Generic(&bare).clean_set_name(&context()), None);
    assert_eq!(Leaf::Generic(&t).settings().name, "app");
}

#[test]
fn plain_destinations_are_copied() {
    let assets = vec![
        ("/w/a.png".to_string(), "a.png".to_string()),
        ("/w/b.png".to_string(), "img/./deep//b.png".to_string()),
        ("/w/c.png".to_string(), "".to_string()),
    ];
    for out in ["/w/out", "/w/out/", "out", ""] {
        let tasks = plan_assets(&assets, out);
        assert_eq!(tasks.len(), 3);
        for task in tasks.iter() {
            assert!(matches!(task, Task::Copy { .. }));
        }
    }
}

#[test]
fn clean_set_keys_differ_by_target() {
    assert_eq!(clean_set_key_for("gcc", "a"), "gcc_-a_cache");
    assert_eq!(clean_set_key_for("x86_64", "my_app"), "x86__64_-my__app_cache");
    assert_eq!(clean_set_key_for("", ""), "_-_cache");
    assert_ne!(clean_set_key_for("gcc", "a"), clean_set_key_for("gcc", "b"));
    assert_ne!(clean_set_key_for("gcc", "a"), clean_set_key_for("gcc", "a_cache"));
    assert_ne!(clean_set_key_for("x86", "64_app"), clean_set_key_for("x86_64", "app"));
    assert_ne!(clean_set_key_for("a_", "b"), clean_set_key_for("a", "_b"));
    assert_ne!(clean_set_key_for("a", "-b"), clean_set_key_for("a_-", "b"));
    assert_eq!(escape("a_b__c"), "a__b____c");
    assert_eq!(escape(""), "");
}

#[test]
fn destination_that_climbs_out_is_refused() {
    let mut t = three_files();
    t.settings.add_asset("/w/data/a.bin", "../escape.bin").unwrap();
    t.settings.add_asset("/w/data/b.bin", "../app").unwrap();
    t.settings.add_asset("/w/data/c.bin", "..").unwrap();
    let plan = t.build(&context(), &vec![], &vec![]).unwrap();
    match &plan.assets[0] {
        Task::Reject { destination } => {
            assert_eq!(destination, "/w/.numake/out/app/../escape.bin")
        }
        _ => panic!("the escaping asset is not refused"),
    }
    assert!(matches!(&plan.assets[1], Task::Copy { .. }));
    assert!(matches!(&plan.assets[2], Task::Reject { .. }));
    for out in ["/w/out", "out", "", "/"] {
        let tasks = plan_assets(&vec![("/w/a".to_string(), "../escape.bin".to_string())], out);
        assert!(matches!(&tasks[0], Task::Reject { .. }));
    }
}
