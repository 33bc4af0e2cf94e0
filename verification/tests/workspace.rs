use numake::cache::CacheError;
use numake::cli::{Cli, InspectArgs, ListArgs, NuMakeArgs, SubCommands};
use numake::error::NuMakeError;
use numake::filesystem::Filesystem;
use numake::init::Init;
use numake::target::{CustomTarget, GenericTarget, MINGWTarget, MSVCTarget, Target};
use numake::workspace::{
    archive_source, filter_entries, first_failure, keeps_entry, ArchiveSource, BuildRound,
    LuaWorkspace, ScriptSource, UrlSource, WorkspaceError,
};

fn args(target: &str) -> NuMakeArgs {
    NuMakeArgs {
        target: target.to_string(),
        arguments: Some(vec!["mode=release".to_string()]),
        toolset_compiler: Some("clang".to_string()),
        toolset_linker: None,
        file: "project.lua".to_string(),
        output: Some("prog".to_string()),
        workdir: ".".to_string(),
        quiet: true,
    }
}

fn workspace(target: &str) -> LuaWorkspace {
    LuaWorkspace::new(&args(target), "/w", "/w/project.lua", "").ok().unwrap()
}

fn generic(name: &str, compiler: &str) -> Target {
    Target::Generic(GenericTarget::new(
        name.to_string(),
        Some(compiler.to_string()),
        None,
        None,
        "/w".to_string(),
    ))
}

#[test]
fn workspace_is_set_up_from_the_command_line() {
    let w = workspace("app");
    assert_eq!(w.working_directory, "/w");
    assert_eq!(w.workspace, "/w/.numake");
    assert_eq!(w.file, "/w/project.lua");
    assert_eq!(w.target, "app");
    assert_eq!(w.arguments, vec!["mode=release"]);
    assert_eq!(w.toolset_compiler, Some("clang".to_string()));
    assert_eq!(w.toolset_linker, None);
    assert_eq!(w.output, Some("prog".to_string()));
    assert!(w.targets.is_empty());
    assert_eq!(w.cache.file_path(&"x".to_string()).starts_with("/w/.numake/cache/"), true);
    let ctx = w.context(false);
    assert_eq!(ctx.workspace, "/w/.numake");
    assert_eq!(ctx.toolset_compiler, Some("clang".to_string()));
    assert_eq!(ctx.output, Some("prog".to_string()));
    assert!(!ctx.host_is_windows);
}

#[test]
fn script_outside_workdir_is_refused() {
    let r = LuaWorkspace::new(&args("app"), "/w", "/elsewhere/project.lua", "");
    assert_eq!(
        r.err(),
        Some(WorkspaceError::Engine(NuMakeError::PathOutsideWorkingDirectory))
    );
    let r = LuaWorkspace::new(&args("app"), "/w", "/w/../project.lua", "");
    assert_eq!(
        r.err(),
        Some(WorkspaceError::Engine(NuMakeError::PathOutsideWorkingDirectory))
    );
}

#[test]
fn unreadable_cache_is_an_error() {
    let r = LuaWorkspace::new(&args("app"), "/w", "/w/project.lua", "= =");
    assert_eq!(r.err(), Some(WorkspaceError::Store(CacheError::Unreadable)));
    let r = LuaWorkspace::new(&args("app"), "/w", "/w/project.lua", "workspace = 1");
    assert_eq!(r.err(), Some(WorkspaceError::Store(CacheError::Corrupt)));
}

#[test]
fn inspection_and_listing_have_their_own_requests() {
    let inspect = InspectArgs {
        arguments: None,
        toolset_compiler: None,
        toolset_linker: Some("ld".to_string()),
        file: "p.lua".to_string(),
        workdir: ".".to_string(),
        output: None,
        quiet: false,
    };
    let w = LuaWorkspace::new_inspect(&inspect, "/w", "/w/p.lua", "").ok().unwrap();
    assert_eq!(w.target, "*");
    assert_eq!(w.toolset_linker, Some("ld".to_string()));
    assert!(w.arguments.is_empty());
    let list = ListArgs {
        arguments: Some(vec!["a".to_string()]),
        file: "p.lua".to_string(),
        workdir: ".".to_string(),
        quiet: false,
    };
    let w = LuaWorkspace::new_dummy(&list, "/w", "/w/p.lua", "").ok().unwrap();
    assert_eq!(w.target, "");
    assert_eq!(w.toolset_compiler, None);
    assert_eq!(w.toolset_linker, None);
    assert_eq!(w.output, None);
    assert_eq!(w.arguments, vec!["a"]);
}

#[test]
fn last_registration_of_a_name_wins() {
    let mut w = workspace("all");
    w.register_target(generic("a", "first"));
    w.register_target(generic("b", "cc"));
    w.register_target(generic("a", "second"));
    assert_eq!(w.target_names(), vec!["a", "b"]);
    match w.get_target("a") {
        Some(Target::Generic(t)) => assert_eq!(t.toolset_compiler, Some("second".to_string())),
        _ => panic!("the target is not registered"),
    }
    assert!(w.get_target("c").is_none());
}

#[test]
fn request_selects_the_targets_to_build() {
    let mut w = workspace("all");
    w.register_target(generic("a", "cc"));
    w.register_target(generic("b", "cc"));
    assert_eq!(w.build(), Ok(vec!["a".to_string(), "b".to_string()]));
    w.target = ".".to_string();
    assert_eq!(w.build(), Ok(vec!["a".to_string(), "b".to_string()]));
    w.target = "b".to_string();
    assert_eq!(w.build(), Ok(vec!["b".to_string()]));
    w.target = "c".to_string();
    assert_eq!(w.build(), Err(NuMakeError::TargetNotFound));
    let empty = workspace("all");
    assert_eq!(empty.build(), Ok(vec![]));
}

#[test]
fn targets_are_listed_with_their_backend() {
    let mut w = workspace("all");
    assert_eq!(w.list_targets(), "");
    w.register_target(generic("a", "cc"));
    w.register_target(Target::MSVC(MSVCTarget::new("b".to_string(), None, "/w".to_string())));
    w.register_target(Target::MinGW(MINGWTarget::new("c".to_string(), None, "/w".to_string())));
    w.register_target(Target::Custom(CustomTarget::new(
        "d".to_string(),
        "builds everything".to_string(),
    )));
    assert_eq!(
        w.list_targets(),
        "\n\ta [GENERIC]\n\tb [MSVC]\n\tc [MINGW]\n\td [CUSTOM]\nbuilds everything"
    );
}

#[test]
fn compiled_script_is_used_while_its_size_is_unchanged() {
    let mut w = workspace("all");
    let name = "/w/project.lua".to_string();
    assert_eq!(w.script_source(&name, "120", true), ScriptSource::Source);
    w.record_script(&name, "120");
    assert_eq!(w.script_source(&name, "120", true), ScriptSource::Cached);
    assert_eq!(w.script_source(&name, "120", false), ScriptSource::Source);
    assert_eq!(w.script_source(&name, "121", true), ScriptSource::Source);
    assert_eq!(w.script_source(&"/w/other.lua".to_string(), "120", true), ScriptSource::Source);
    w.cache.set_value(&name, toml::Value::Integer(120));
    assert_eq!(w.script_source(&name, "120", true), ScriptSource::Source);
}

#[test]
fn loaded_script_must_stay_in_the_workdir() {
    let w = workspace("all");
    assert_eq!(w.script_path("lib/util.lua", true), Ok("/w/lib/util.lua".to_string()));
    assert_eq!(
        w.script_path("lib/util.lua", false),
        Err(NuMakeError::PathOutsideWorkingDirectory)
    );
    assert_eq!(
        w.script_path("../util.lua", true),
        Err(NuMakeError::PathOutsideWorkingDirectory)
    );
    assert_eq!(
        w.script_path("/etc/util.lua", true),
        Err(NuMakeError::PathOutsideWorkingDirectory)
    );
}

#[test]
fn url_is_served_from_cache_or_network() {
    let mut w = workspace("all");
    let url = "https://example.org/lib.lua".to_string();
    assert_eq!(w.url_source(&url, true, &None), UrlSource::Unavailable);
    assert_eq!(w.url_source(&url, true, &Some("10".to_string())), UrlSource::Fetched);
    w.record_script(&url, "10");
    assert_eq!(w.url_source(&url, true, &None), UrlSource::Cached);
    assert_eq!(w.url_source(&url, false, &None), UrlSource::Unavailable);
    assert_eq!(w.url_source(&url, true, &Some("10".to_string())), UrlSource::Cached);
    assert_eq!(w.url_source(&url, true, &Some("11".to_string())), UrlSource::Fetched);
    assert_eq!(w.url_source(&url, false, &Some("10".to_string())), UrlSource::Fetched);
}

#[test]
fn archive_comes_from_the_nearest_place() {
    assert_eq!(archive_source(true, true), ArchiveSource::Directory);
    assert_eq!(archive_source(true, false), ArchiveSource::Directory);
    assert_eq!(archive_source(false, true), ArchiveSource::Blob);
    assert_eq!(archive_source(false, false), ArchiveSource::Download);
}

#[test]
fn walk_keeps_files_by_extension() {
    let found = vec![
        "/w/a.c".to_string(),
        "/w/b.h".to_string(),
        "/w/Makefile".to_string(),
        "/w/d/e.c".to_string(),
    ];
    let filter = Some(vec!["c".to_string()]);
    assert_eq!(filter_entries(&found, &filter), vec!["/w/a.c", "/w/d/e.c"]);
    assert_eq!(filter_entries(&found, &None), found);
    assert_eq!(filter_entries(&found, &Some(vec!["".to_string()])), vec!["/w/Makefile"]);
    assert!(filter_entries(&found, &Some(vec![])).is_empty());
    assert!(keeps_entry("/w/a.c", &None));
    let w = workspace("all");
    assert_eq!(w.walk_dir("/w/d", &found, &filter), Ok(vec!["/w/a.c".to_string(), "/w/d/e.c".to_string()]));
    assert_eq!(
        w.walk_dir("/etc", &found, &filter),
        Err(NuMakeError::PathOutsideWorkingDirectory)
    );
    let fs = Filesystem::new(numake::environment::Environment::new("/w", "project.lua"));
    assert_eq!(fs.walk_dir(&found, &filter), vec!["/w/a.c", "/w/d/e.c"]);
}

#[test]
fn command_line_is_read() {
    let cli = Cli { command: SubCommands::Build(args("app")) };
    let cmd = Init::get_subcommand(&cli);
    assert!(Init::check_quiet(cmd));
    assert_eq!(cmd.workdir(), ".");
    assert_eq!(cmd.file(), "project.lua");
    let env = Init::init_environment(cmd, "/w");
    assert_eq!(env.project_directory, "/w");
    assert_eq!(env.project_file, "/w/project.lua");
    assert_eq!(env.numake_directory, "/w/numake");
    let list = SubCommands::List(ListArgs {
        arguments: None,
        file: "p.lua".to_string(),
        workdir: "x".to_string(),
        quiet: false,
    });
    assert!(!Init::check_quiet(&list));
}

#[test]
fn script_registrations_become_the_registry() {
    let mut w = workspace("all");
    w.register_target(generic("a", "old"));
    w.register_all(vec![generic("b", "cc"), generic("a", "new"), generic("c", "cc")]);
    assert_eq!(w.target_names(), vec!["a", "b", "c"]);
    match w.get_target("a") {
        Some(Target::Generic(t)) => assert_eq!(t.toolset_compiler, Some("new".to_string())),
        _ => panic!("the target is not registered"),
    }
    w.register_all(vec![]);
    assert_eq!(w.target_names(), vec!["a", "b", "c"]);
}

#[test]
fn first_failed_target_is_reported() {
    let results = vec![
        ("a".to_string(), true),
        ("b".to_string(), false),
        ("c".to_string(), true),
        ("d".to_string(), false),
    ];
    assert_eq!(first_failure(&results), Some("b".to_string()));
    assert_eq!(first_failure(&vec![("a".to_string(), true)]), None);
    assert_eq!(first_failure(&vec![]), None);
}

#[test]
fn every_target_of_a_round_is_attempted() {
    let mut round = BuildRound::new(vec!["a".to_string(), "b".to_string(), "c".to_string()]);
    let mut attempted = vec![];
    while let Some(name) = round.current() {
        let ok = name != "a" && name != "b";
        attempted.push(name);
        round.report(ok);
    }
    assert_eq!(attempted, vec!["a", "b", "c"]);
    assert_eq!(round.failure(), Some("a".to_string()));
    round.report(true);
    assert_eq!(round.current(), None);
    let mut fine = BuildRound::new(vec!["x".to_string()]);
    assert_eq!(fine.failure(), None);
    fine.report(true);
    assert_eq!(fine.failure(), None);
    assert_eq!(BuildRound::new(vec![]).current(), None);
}
