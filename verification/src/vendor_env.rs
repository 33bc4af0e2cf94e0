//! Finding the vendor toolchain and its environment: the query for the
//! locator, the script that dumps the environment, and the reading of the
//! dump.

use vstd::prelude::*;
use vstd::string::*;
use crate::command::{Invocation, InvocationModel};
use crate::error::NuMakeError;
use crate::paths::{join, join_path};
use crate::text::{chars_of, find_char, lemma_find_char_is, lines, lines_of, push_text, views};

verus! {

/// The error of the JSON parser.
#[verifier::external_type_specification]
#[verifier::external_body]
pub struct ExJsonError(serde_json::Error);

/// The strings of the JSON array of strings that `text` is, where it is one.
pub uninterp spec fn json_string_list(text: Seq<char>) -> Option<Seq<Seq<char>>>;

/// Calls `serde_json::from_str` for a vector of strings. Trusted: the
/// result is a function of the text alone; an error means that the text is
/// no JSON array of strings.
#[verifier::external_body]
pub(crate) fn parse_string_list(text: &str) -> (r: Result<Vec<String>, serde_json::Error>)
    ensures
        match r {
            Ok(v) => json_string_list(text@) == Some(views(v@)),
            Err(_) => json_string_list(text@) is None,
        },
{
    serde_json::from_str::<Vec<String>>(text)
}

/// The query put to the locator: the build directory of the latest
/// installation that has the C++ tools, as JSON.
pub open spec fn locator_query() -> Seq<Seq<char>> {
    seq![
        "-latest"@,
        "-requires"@,
        "Microsoft.VisualStudio.Component.VC.Tools.x86.x64"@,
        "-find"@,
        "VC/Auxiliary/Build"@,
        "-format"@,
        "JSON"@,
    ]
}

/// Where the locator is fetched from when the cache does not hold it.
pub fn locator_url() -> (url: &'static str)
    ensures
        url@ == "https://github.com/microsoft/vswhere/releases/latest/download/vswhere.exe"@,
{
    "https://github.com/microsoft/vswhere/releases/latest/download/vswhere.exe"
}

/// The arguments with which the locator is run.
pub fn locator_arguments() -> (args: Vec<String>)
    ensures
        views(args@) == locator_query(),
{
    let mut args: Vec<String> = Vec::new();
    push_text(&mut args, String::from_str("-latest"));
    push_text(&mut args, String::from_str("-requires"));
    push_text(&mut args, String::from_str("Microsoft.VisualStudio.Component.VC.Tools.x86.x64"));
    push_text(&mut args, String::from_str("-find"));
    push_text(&mut args, String::from_str("VC/Auxiliary/Build"));
    push_text(&mut args, String::from_str("-format"));
    push_text(&mut args, String::from_str("JSON"));
    assert(views(args@) =~= locator_query());
    args
}

/// What the answer of the locator means: the first path of the list, an
/// error where the list is empty, another where the answer is no list.
pub open spec fn located(answer: Option<Seq<Seq<char>>>) -> Result<Seq<char>, NuMakeError> {
    match answer {
        None => Err(NuMakeError::LocatorAnswerUnreadable),
        Some(paths) => if paths.len() == 0 {
            Err(NuMakeError::VcNotFound)
        } else {
            Ok(paths[0])
        },
    }
}

/// Reads the list of paths that the locator answered.
pub fn read_locator_answer(paths: Result<Vec<String>, NuMakeError>) -> (r: Result<
    String,
    NuMakeError,
>)
    ensures
        match paths {
            Ok(v) => match r {
                Ok(p) => located(Some(views(v@))) == Ok::<Seq<char>, NuMakeError>(p@),
                Err(e) => located(Some(views(v@))) == Err::<Seq<char>, NuMakeError>(e),
            },
            Err(e) => r == Err::<String, NuMakeError>(e),
        },
{
    match paths {
        Ok(v) => {
            if v.len() == 0 {
                Err(NuMakeError::VcNotFound)
            } else {
                assert(views(v@)[0] == v@[0]@);
                Ok(v[0].clone())
            }
        },
        Err(e) => Err(e),
    }
}

/// The build directory of the vendor toolchain, from the answer of the
/// locator. No installation is an error of its own.
pub fn locate_build_tools(answer: &str) -> (r: Result<String, NuMakeError>)
    ensures
        match r {
            Ok(p) => located(json_string_list(answer@)) == Ok::<Seq<char>, NuMakeError>(p@),
            Err(e) => located(json_string_list(answer@)) == Err::<Seq<char>, NuMakeError>(e),
        },
{
    let parsed = match parse_string_list(answer) {
        Ok(v) => Ok(v),
        Err(_) => Err(NuMakeError::LocatorAnswerUnreadable),
    };
    read_locator_answer(parsed)
}

/// The text of an optional setting, `fallback` where it is not set.
pub open spec fn or_text(o: Option<String>, fallback: Seq<char>) -> Seq<char> {
    match o {
        Some(s) => s@,
        None => fallback,
    }
}

/// The script that sets up the vendor environment and dumps it: it calls
/// the set-up script of the toolchain with architecture, platform type and
/// SDK version, then writes every variable to `env_path`.
pub open spec fn environment_script(
    aux_path: Seq<char>,
    arch: Option<String>,
    platform_type: Option<String>,
    winsdk_version: Option<String>,
    env_path: Seq<char>,
) -> Seq<char> {
    "@echo off\n"@ + "@call \""@ + join(aux_path, "vcvarsall.bat"@) + "\" "@ + or_text(
        arch,
        "x64"@,
    ) + " "@ + or_text(platform_type, ""@) + " "@ + or_text(winsdk_version, ""@) + "\n"@
        + "set > "@ + env_path + "\n"@
}

/// The text of an optional setting, `fallback` where it is not set.
fn text_or(o: &Option<String>, fallback: &str) -> (r: String)
    ensures
        r@ == or_text(*o, fallback@),
{
    match o {
        Some(s) => s.clone(),
        None => String::from_str(fallback),
    }
}

/// Writes `environment_script`.
pub fn build_environment_script(
    aux_path: &str,
    arch: &Option<String>,
    platform_type: &Option<String>,
    winsdk_version: &Option<String>,
    env_path: &str,
) -> (script: String)
    ensures
        script@ == environment_script(
            aux_path@,
            *arch,
            *platform_type,
            *winsdk_version,
            env_path@,
        ),
{
    let setup = join_path(aux_path, "vcvarsall.bat");
    let arch_text = text_or(arch, "x64");
    let platform_text = text_or(platform_type, "");
    let sdk_text = text_or(winsdk_version, "");
    let script = String::from_str("@echo off\n").concat("@call \"").concat(setup.as_str()).concat(
        "\" ",
    ).concat(arch_text.as_str()).concat(" ").concat(platform_text.as_str()).concat(" ").concat(
        sdk_text.as_str(),
    ).concat("\n").concat("set > ").concat(env_path).concat("\n");
    script
}

/// The command that runs the script at `bat_path`.
pub fn script_command(bat_path: &str) -> (inv: Invocation)
    ensures
        inv@ == (InvocationModel {
            program: "cmd"@,
            args: seq!["/C"@, "@call"@, bat_path@],
            vendor_env: false,
        }),
{
    let mut args: Vec<String> = Vec::new();
    push_text(&mut args, String::from_str("/C"));
    push_text(&mut args, String::from_str("@call"));
    push_text(&mut args, String::from_str(bat_path));
    assert(views(args@) =~= seq!["/C"@, "@call"@, bat_path@]);
    Invocation { program: String::from_str("cmd"), args, vendor_env: false }
}

/// The variable that a line of the dump sets: the name is what precedes the
/// first `=`, the value is everything after it, further `=` included; a
/// line without `=` is a name with an empty value.
pub open spec fn line_entry(line: Seq<char>) -> (Seq<char>, Seq<char>) {
    let i = find_char(line, '=');
    if 0 <= i < line.len() {
        (line.take(i), line.skip(i + 1))
    } else {
        (line, Seq::empty())
    }
}

/// Reads one line of the dump.
pub fn parse_line(line: &str) -> (entry: (String, String))
    ensures
        (entry.0@, entry.1@) == line_entry(line@),
{
    let chars = chars_of(line);
    let n = chars.len();
    let mut i: usize = 0;
    while i < n
        invariant
            i <= n,
            n == chars.len(),
            chars@ == line@,
            forall|j: int| 0 <= j < i ==> chars@[j] != '=',
        decreases n - i,
    {
        if chars[i] == '=' {
            proof {
                lemma_find_char_is(line@, '=', i as int);
            }
            let name = line.substring_char(0, i);
            let value = line.substring_char(i + 1, n);
            assert(name@ =~= line@.take(i as int));
            assert(value@ =~= line@.skip(i + 1));
            return (String::from_str(name), String::from_str(value));
        }
        i += 1;
    }
    proof {
        lemma_find_char_is(line@, '=', n as int);
    }
    (String::from_str(line), String::new())
}

/// The variables of a dump, line by line, in the order of the lines.
pub open spec fn environment_of(dump: Seq<char>) -> Seq<(Seq<char>, Seq<char>)> {
    Seq::new(lines_of(dump).len(), |i: int| line_entry(lines_of(dump)[i]))
}

/// Name and value of each pair.
pub open spec fn entry_views(entries: Seq<(String, String)>) -> Seq<(Seq<char>, Seq<char>)> {
    Seq::new(entries.len(), |i: int| (entries[i].0@, entries[i].1@))
}

/// Reads the dump of the environment. Every line gives a variable; no line
/// ends the reading.
pub fn parse_environment(dump: &str) -> (entries: Vec<(String, String)>)
    ensures
        entry_views(entries@) == environment_of(dump@),
{
    let all = lines(dump);
    let ghost goal = environment_of(dump@);
    let mut entries: Vec<(String, String)> = Vec::new();
    let mut i: usize = 0;
    assert(entry_views(entries@) =~= goal.take(0));
    while i < all.len()
        invariant
            i <= all.len(),
            views(all@) == lines_of(dump@),
            goal == environment_of(dump@),
            entry_views(entries@) == goal.take(i as int),
        decreases all.len() - i,
    {
        let line = all[i].as_str();
        assert(line@ == lines_of(dump@)[i as int]);
        let entry = parse_line(line);
        assert((entry.0@, entry.1@) == goal[i as int]);
        let ghost before = entry_views(entries@);
        entries.push(entry);
        assert(entry_views(entries@) =~= before.push(goal[i as int]));
        assert(goal.take(i + 1) =~= goal.take(i as int).push(goal[i as int]));
        i += 1;
    }
    assert(goal.take(all.len() as int) =~= goal);
    entries
}

} // verus!
