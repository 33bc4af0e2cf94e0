use numake::args::{args_to_map, lookup_argument, parse_argument};
use numake::either::{extend_with, Either};
use numake::error::NuMakeError;
use numake::flag_type::FlagType;
use numake::format::{format_message, Failure, Format, Info, Question, Success, Warning};
use numake::plan::Task;
use numake::project::{path_is_source, Project};
use numake::project_language::ProjectLanguage;
use numake::project_type::ProjectType;
use numake::report::{report_run, report_vendor_run, spawn_failure, Level, Outcome};
use numake::search::{ends_with, find, replace, trim_leading_spaces};
use numake::source_file_type::SourceFileType;
use numake::task_manager::TaskManager;

#[test]
fn arguments_are_keys_and_values() {
    assert_eq!(parse_argument("mode=release"), ("mode".to_string(), Some("release".to_string())));
    assert_eq!(parse_argument("verbose"), ("verbose".to_string(), None));
    assert_eq!(parse_argument("a=b=c"), ("a".to_string(), Some("b=c=".to_string())));
    assert_eq!(parse_argument("k="), ("k".to_string(), Some("".to_string())));
    assert_eq!(parse_argument(""), ("".to_string(), None));
    assert_eq!(parse_argument("=v"), ("".to_string(), Some("v".to_string())));
}

#[test]
fn later_argument_replaces_earlier() {
    let entries = args_to_map(vec![
        "mode=debug".to_string(),
        "verbose".to_string(),
        "mode=release".to_string(),
    ]);
    assert_eq!(entries.len(), 3);
    assert_eq!(lookup_argument(&entries, "mode"), Some(Some("release".to_string())));
    assert_eq!(lookup_argument(&entries, "verbose"), Some(None));
    assert_eq!(lookup_argument(&entries, "other"), None);
    assert!(args_to_map(vec![]).is_empty());
}

#[test]
fn text_is_found_and_replaced() {
    assert_eq!(find("hello world", "o w"), Some(4));
    assert_eq!(find("hello", ""), Some(0));
    assert_eq!(find("", ""), Some(0));
    assert_eq!(find("hello", "lo"), Some(3));
    assert_eq!(find("hello", "low"), None);
    assert_eq!(find("aaa", "aa"), Some(0));
    assert_eq!(replace("a /b /c", " /", "/"), "a/b/c");
    assert_eq!(replace("aaaa", "aa", "b"), "bb");
    assert_eq!(replace("aaa", "aa", "b"), "ba");
    assert_eq!(replace("abc", "", "x"), "abc");
    assert_eq!(replace("abc", "d", "x"), "abc");
    assert_eq!(replace("x86_64", "x86_64", "x64"), "x64");
    assert!(ends_with("a (framework directory)", " (framework directory)"));
    assert!(!ends_with("ab", "abc"));
    assert!(ends_with("ab", ""));
    assert_eq!(trim_leading_spaces("   a b "), "a b ");
    assert_eq!(trim_leading_spaces("   "), "");
}

#[test]
fn names_are_read_exactly() {
    assert_eq!(ProjectLanguage::from_name("C"), Some(ProjectLanguage::C));
    assert_eq!(ProjectLanguage::from_name("CPP"), Some(ProjectLanguage::CPP));
    assert_eq!(ProjectLanguage::from_name("c"), None);
    assert_eq!(ProjectLanguage::default(), ProjectLanguage::C);
    assert_eq!(ProjectLanguage::CPP.gcc_driver(), "g++");
    assert_eq!(ProjectLanguage::C.gcc_driver(), "gcc");
    assert_eq!(ProjectLanguage::CPP.name(), "CPP");
    assert_eq!(ProjectType::from_name("StaticLibrary"), Some(ProjectType::StaticLibrary));
    assert_eq!(ProjectType::from_name("DynamicLibrary"), Some(ProjectType::DynamicLibrary));
    assert_eq!(ProjectType::from_name("Executable"), Some(ProjectType::Executable));
    assert_eq!(ProjectType::from_name("exe"), None);
    assert_eq!(ProjectType::default(), ProjectType::Executable);
    assert_eq!(FlagType::from_name("WINDRES"), Some(FlagType::WINDRES));
    assert_eq!(FlagType::from_name("RC"), Some(FlagType::RC));
    assert_eq!(FlagType::from_name("Linker"), Some(FlagType::Linker));
    assert_eq!(FlagType::from_name("Compiler"), Some(FlagType::Compiler));
    assert_eq!(FlagType::from_name("linker"), None);
    assert_eq!(FlagType::default(), FlagType::Compiler);
    assert_eq!(SourceFileType::ModuleDefinition.name(), "ModuleDefinition");
}

#[test]
fn project_collects_what_the_script_says() {
    let mut p = Project::new("demo".to_string(), ProjectLanguage::CPP);
    assert_eq!(p.add_file("/w/a.cpp", true), Ok(()));
    assert_eq!(p.add_file("/w/dir", false), Err(NuMakeError::AddFileIsDirectory));
    assert_eq!(p.source_files.get(&SourceFileType::Code), vec!["/w/a.cpp"]);
    assert!(p.source_files.get(&SourceFileType::Unknown).is_empty());
    p.add_include_paths(Either::First("inc".to_string()));
    p.add_include_paths(Either::Second(vec!["a".to_string(), "b".to_string()]));
    p.add_libs(Either::First("m".to_string()));
    p.add_lib_paths(Either::Second(vec![]));
    p.add_defines(Either::Second(vec!["X".to_string()]));
    p.add_flags(FlagType::Compiler, Either::First("-O2".to_string()));
    p.add_flags(FlagType::Linker, Either::Second(vec!["-s".to_string(), "-z".to_string()]));
    p.add_flags(FlagType::Compiler, Either::Second(vec!["-g".to_string()]));
    assert_eq!(p.include_paths, vec!["inc", "a", "b"]);
    assert_eq!(p.libs, vec!["m"]);
    assert!(p.lib_paths.is_empty());
    assert_eq!(p.defines, vec!["X"]);
    assert_eq!(p.get_flags(FlagType::Compiler), vec!["-O2", "-g"]);
    assert_eq!(p.get_flags(FlagType::Linker), vec!["-s", "-z"]);
    assert!(p.get_flags(FlagType::RC).is_empty());
}

#[test]
fn project_assets_are_judged_at_copy_time() {
    let mut p = Project::new("demo".to_string(), ProjectLanguage::C);
    p.add_asset("/w/a.png", "a.png");
    p.add_asset("/w/b.png", "../b.png");
    p.add_asset("/w/a.png", "img/a.png");
    let tasks = p.copy_assets("/w/out");
    assert_eq!(tasks.len(), 2);
    assert!(matches!(&tasks[0], Task::Copy { from, to } if from == "/w/a.png" && to == "/w/out/img/a.png"));
    assert!(matches!(&tasks[1], Task::Reject { destination } if destination == "/w/out/../b.png"));
}

#[test]
fn either_extends_a_list() {
    let mut list = vec!["x".to_string()];
    extend_with(&mut list, Either::First("y".to_string()));
    extend_with(&mut list, Either::Second(vec!["z".to_string(), "w".to_string()]));
    assert_eq!(list, vec!["x", "y", "z", "w"]);
}

fn outcome(success: bool, stdout: &str, stderr: &str) -> Outcome {
    Outcome {
        program: "cc".to_string(),
        status: "exit status: 1".to_string(),
        success,
        stdout: stdout.to_string(),
        stderr: stderr.to_string(),
    }
}

fn shown(messages: &[numake::report::Message]) -> Vec<(Level, String)> {
    messages.iter().map(|m| (m.level, m.text.clone())).collect()
}

#[test]
fn failure_carries_the_captured_stream() {
    let (messages, result) = report_run(&outcome(false, "out", "a.c:1: error"));
    assert_eq!(shown(&messages), vec![(Level::Failure, "cc exited with exit status: 1".to_string())]);
    assert_eq!(result, Err("a.c:1: error".to_string()));
    let (messages, result) = report_vendor_run(&outcome(false, "a.c(1): error", "err"));
    assert_eq!(shown(&messages), vec![(Level::Failure, "cc exited with exit status: 1".to_string())]);
    assert_eq!(result, Err("a.c(1): error".to_string()));
}

#[test]
fn success_shows_what_the_tool_wrote() {
    let (messages, result) = report_run(&outcome(true, "out", "warning: x"));
    assert_eq!(
        shown(&messages),
        vec![
            (Level::Info, "warning: x\n".to_string()),
            (Level::Success, "cc exited with exit status: 1".to_string())
        ]
    );
    assert_eq!(result, Ok(()));
    let (messages, _) = report_run(&outcome(true, "out", ""));
    assert_eq!(shown(&messages), vec![(Level::Success, "cc exited with exit status: 1".to_string())]);
    let (messages, result) = report_vendor_run(&outcome(true, "", "err"));
    assert_eq!(
        shown(&messages),
        vec![
            (Level::Info, "\n".to_string()),
            (Level::Success, "cc exited with exit status: 1".to_string())
        ]
    );
    assert_eq!(result, Ok(()));
    assert_eq!(spawn_failure("cc", "not found"), "Error trying to execute cc! not found");
}

#[test]
fn messages_are_worded_by_level() {
    assert_eq!(numake::format::Default {}.format("x"), "x");
    assert_eq!(Info {}.format("x"), "info: x");
    assert_eq!(Success {}.format("x"), "success: x");
    assert_eq!(Failure {}.format("x"), "error: x");
    assert_eq!(Warning {}.format("x"), "warning: x");
    assert_eq!(Question {}.format("x"), "question: x");
    assert_eq!(format_message(Level::Failure, "boom"), "error: boom");
    assert_eq!(format_message(Level::Info, ""), "info: ");
    assert_eq!(format_message(Level::Success, "ok"), "success: ok");
}

#[test]
fn tasks_are_found_by_name() {
    let mut m = TaskManager::new();
    assert_eq!(m.run("build"), Err(NuMakeError::TaskNotFound));
    assert_eq!(m.create("build"), 0);
    assert_eq!(m.create("test"), 1);
    assert_eq!(m.create("build"), 0);
    assert_eq!(m.get_tasks(), vec!["build", "test"]);
    assert_eq!(m.run("test"), Ok(1));
    assert_eq!(m.run("build"), Ok(0));
    assert_eq!(m.run("deploy"), Err(NuMakeError::TaskNotFound));
}

#[test]
fn directory_gives_sources_and_headers() {
    let mut p = Project::new("demo".to_string(), ProjectLanguage::C);
    let found = vec![
        "/w/src/a.c".to_string(),
        "/w/src/a.h".to_string(),
        "/w/src/b.cxx".to_string(),
        "/w/src/notes.txt".to_string(),
        "/w/src/Makefile".to_string(),
        "/w/src/c.hpp".to_string(),
        "/w/src/a.c".to_string(),
    ];
    p.add_dir(&found);
    assert_eq!(p.source_files.get(&SourceFileType::Code), vec!["/w/src/a.c", "/w/src/b.cxx"]);
    assert_eq!(p.source_files.get(&SourceFileType::Unknown), vec!["/w/src/a.h", "/w/src/c.hpp"]);
    assert!(path_is_source("x.hxx"));
    assert!(path_is_source("x.cpp"));
    assert!(!path_is_source("x.rc"));
    assert!(!path_is_source("x"));
}
