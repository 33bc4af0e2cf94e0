use numake::cache::Cache;
use numake::editor::{
    generic_intellisense_mode, lookup_variable, mingw_intellisense_mode, msvc_properties,
    parse_gcc_includes,
};
use numake::error::{numake_error, NuMakeError};
use numake::vendor_env::{
    build_environment_script, locate_build_tools, locator_arguments, parse_environment,
    parse_line, script_command,
};

#[test]
fn locator_is_asked_for_the_build_directory() {
    assert_eq!(
        locator_arguments(),
        vec![
            "-latest",
            "-requires",
            "Microsoft.VisualStudio.Component.VC.Tools.x86.x64",
            "-find",
            "VC/Auxiliary/Build",
            "-format",
            "JSON"
        ]
    );
}

#[test]
fn first_path_of_the_answer_is_the_toolchain() {
    assert_eq!(
        locate_build_tools("[\"C:\\\\VS\\\\VC\\\\Auxiliary\\\\Build\", \"D:\\\\other\"]"),
        Ok("C:\\VS\\VC\\Auxiliary\\Build".to_string())
    );
    assert_eq!(locate_build_tools("[]"), Err(NuMakeError::VcNotFound));
    assert_eq!(locate_build_tools(""), Err(NuMakeError::LocatorAnswerUnreadable));
    assert_eq!(locate_build_tools("{\"a\": 1}"), Err(NuMakeError::LocatorAnswerUnreadable));
    assert_eq!(locate_build_tools("[1, 2]"), Err(NuMakeError::LocatorAnswerUnreadable));
}

#[test]
fn script_calls_the_setup_and_dumps_the_environment() {
    assert_eq!(
        build_environment_script("/vs/build", &None, &None, &None, "/tmp/env.txt"),
        "@echo off\n@call \"/vs/build/vcvarsall.bat\" x64  \nset > /tmp/env.txt\n"
    );
    assert_eq!(
        build_environment_script(
            "/vs/build",
            &Some("x86".to_string()),
            &Some("uwp".to_string()),
            &Some("10.0".to_string()),
            "e"
        ),
        "@echo off\n@call \"/vs/build/vcvarsall.bat\" x86 uwp 10.0\nset > e\n"
    );
    let cmd = script_command("/tmp/exec.bat");
    assert_eq!(cmd.program, "cmd");
    assert_eq!(cmd.args, vec!["/C", "@call", "/tmp/exec.bat"]);
    assert!(!cmd.vendor_env);
}

#[test]
fn dump_is_read_line_by_line() {
    let dump = "INCLUDE=C:\\a;C:\\b\r\nLIB=C:\\lib\r\nNOVALUE\r\nA=B=C\r\n\r\n=x\r\nPATH=p";
    let entries = parse_environment(dump);
    let expected: Vec<(String, String)> = [
        ("INCLUDE", "C:\\a;C:\\b"),
        ("LIB", "C:\\lib"),
        ("NOVALUE", ""),
        ("A", "B=C"),
        ("", ""),
        ("", "x"),
        ("PATH", "p"),
    ]
    .iter()
    .map(|(k, v)| (k.to_string(), v.to_string()))
    .collect();
    assert_eq!(entries, expected);
    assert!(parse_environment("").is_empty());
    assert_eq!(lookup_variable(&entries, "LIB"), Some("C:\\lib".to_string()));
    assert_eq!(lookup_variable(&entries, ""), Some("x".to_string()));
    assert_eq!(lookup_variable(&entries, "lib"), None);
}

#[test]
fn vendor_properties_come_from_the_environment() {
    let env = parse_environment(
        "VCToolsInstallDir=C:\\VC\\\nVSCMD_ARG_HOST_ARCH=x64\nVSCMD_ARG_TGT_ARCH=x86\nINCLUDE=C:\\a;C:\\b\n",
    );
    let p = msvc_properties(&env);
    assert_eq!(p.compiler_path, "C:\\VC\\bin\\Hostx64\\x86\\cl.exe");
    assert_eq!(p.default_includes, vec!["C:\\a", "C:\\b"]);
    assert_eq!(p.intellisense_mode, "windows-msvc-x86");
}

#[test]
fn analysis_modes() {
    assert_eq!(generic_intellisense_mode("linux", "gcc", "x86_64"), "linux-gcc-x64");
    assert_eq!(generic_intellisense_mode("macos", "clang", "aarch64"), "macos-clang-aarch64");
    assert_eq!(mingw_intellisense_mode("linux", &Some("i686".to_string())), "linux-gcc-x86");
    assert_eq!(mingw_intellisense_mode("linux", &Some("x86_64".to_string())), "linux-gcc-x64");
    assert_eq!(mingw_intellisense_mode("linux", &Some("arm".to_string())), "linux-gcc-arm");
    assert_eq!(mingw_intellisense_mode("linux", &None), "linux-gcc-${default}");
}

#[test]
fn search_directories_are_read_from_the_report() {
    let report = "Using built-in specs.\n#include \"...\" search starts here:\n#include <...> search starts here:\n /usr/lib/gcc/x86_64-linux-gnu/12/include\n /usr/local/include\n /System/Library/Frameworks (framework directory)\nEnd of search list.\n# 1 \"<stdin>\"\n";
    assert_eq!(
        parse_gcc_includes(report),
        vec![
            "/usr/lib/gcc/x86_64-linux-gnu/12/include",
            "/usr/local/include",
            "/System/Library/Frameworks"
        ]
    );
    assert!(parse_gcc_includes("no list here").is_empty());
    assert_eq!(
        parse_gcc_includes("#include <...> search starts here:\n  a /b\nc"),
        vec!["a/b", "c"]
    );
}

#[test]
fn locator_lives_in_the_cache() {
    let cache = Cache::new("/w/.numake", "").unwrap();
    let dir = cache.get_dir(&"vswhere".to_string());
    assert!(dir.starts_with("/w/.numake/cache/"));
    assert_eq!(dir.len(), "/w/.numake/cache/".len() + 64);
}

#[test]
fn error_sentences() {
    let e = numake_error();
    assert_eq!(e.PATH_OUTSIDE_WORKING_DIR, "Path exits working directory!");
    assert_eq!(
        e.ASSET_COPY_PATH_OUTSIDE_OUTPUT_DIR,
        NuMakeError::AssetCopyPathOutsideWorkingDirectory.message()
    );
    assert_eq!(e.TOOLSET_COMPILER_NULL, "No compiler specified/found!");
    assert_eq!(e.TOOLSET_LINKER_NULL, "No linker specified/found!");
    assert_eq!(e.TARGET_NOT_FOUND, "Target not found!");
    assert_eq!(NuMakeError::TaskNotFound.message(), "Task not found!");
    assert_eq!(e.MSVC_WINDOWS_ONLY, NuMakeError::MsvcWindowsOnly.message());
    assert_eq!(e.VC_NOT_FOUND, NuMakeError::VcNotFound.message());
    assert_eq!(e.ADD_FILE_IS_DIRECTORY, NuMakeError::AddFileIsDirectory.message());
    assert_eq!(
        NuMakeError::LocatorAnswerUnreadable.message(),
        "Could not read the answer of vswhere!"
    );
}

#[test]
fn value_keeps_every_later_equals_sign() {
    assert_eq!(parse_line("X=a=b"), ("X".to_string(), "a=b".to_string()));
    assert_eq!(parse_line("PATH=C:\\a;K=V==;"), ("PATH".to_string(), "C:\\a;K=V==;".to_string()));
    assert_eq!(parse_line("X="), ("X".to_string(), "".to_string()));
    assert_eq!(parse_line("X"), ("X".to_string(), "".to_string()));
    assert_eq!(parse_line("=v"), ("".to_string(), "v".to_string()));
    assert_eq!(parse_line(""), ("".to_string(), "".to_string()));
    let entries = parse_environment("X=a=b\nY==\n");
    assert_eq!(
        entries,
        vec![("X".to_string(), "a=b".to_string()), ("Y".to_string(), "=".to_string())]
    );
}
