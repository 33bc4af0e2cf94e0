//! What an editor is told about a target: the compiler, the directories
//! that it searches for headers, and the mode of the code analysis.

use vstd::prelude::*;
use vstd::string::*;
use crate::search::{
    ends_with, find, find_sub, lemma_find_sub_stands, replace, replaced, trim_leading_spaces,
    without_leading_spaces,
};
use crate::target::VSCodeProperties;
use crate::text::{concat2, lines, lines_of, same_text, split, split_on, views};

verus! {

/// The line after which the compiler lists its search directories.
pub open spec fn list_start() -> Seq<char> {
    "#include <...> search starts here:"@
}

/// The line that ends the list of search directories.
pub open spec fn list_end() -> Seq<char> {
    "End of search list."@
}

/// What marks a directory of frameworks in the list.
pub open spec fn framework_mark() -> Seq<char> {
    " (framework directory)"@
}

/// `text` up to where `mark` first stands in it, all of it where `mark`
/// stands nowhere.
pub open spec fn before(text: Seq<char>, mark: Seq<char>) -> Seq<char> {
    match find_sub(text, mark) {
        Some(i) => if 0 <= i <= text.len() {
            text.take(i)
        } else {
            text
        },
        None => text,
    }
}

/// What follows the first `mark` in `text`, if `mark` stands in it.
pub open spec fn after(text: Seq<char>, mark: Seq<char>) -> Option<Seq<char>> {
    match find_sub(text, mark) {
        Some(i) => if 0 <= i && i + mark.len() <= text.len() {
            Some(text.skip(i + mark.len()))
        } else {
            None
        },
        None => None,
    }
}

/// The part of the compiler's report that lists the search directories:
/// what stands between the start line and the next start line or the end
/// line, whichever comes first.
pub open spec fn include_section(report: Seq<char>) -> Option<Seq<char>> {
    match after(report, list_start()) {
        Some(rest) => Some(before(before(rest, list_start()), list_end())),
        None => None,
    }
}

/// The directory that a line of the list names: the line without the
/// spaces at its start, with no space before a slash, and without the mark
/// of a framework directory.
pub open spec fn include_of(line: Seq<char>) -> Seq<char> {
    let path = replaced(without_leading_spaces(line), " /"@, "/"@);
    if framework_mark().len() <= path.len() && path.skip(path.len() - framework_mark().len())
        == framework_mark() {
        replaced(path, framework_mark(), ""@)
    } else {
        path
    }
}

/// The directories that the first `n` lines name; an empty line names none.
pub open spec fn includes_of(lines: Seq<Seq<char>>, n: nat) -> Seq<Seq<char>>
    decreases n,
{
    if n == 0 {
        Seq::empty()
    } else {
        let before = includes_of(lines, (n - 1) as nat);
        if lines[n - 1].len() == 0 {
            before
        } else {
            before.push(include_of(lines[n - 1]))
        }
    }
}

/// The search directories that a report of the compiler lists, as it
/// writes them; none where the report holds no list.
pub open spec fn gcc_includes(report: Seq<char>) -> Seq<Seq<char>> {
    match include_section(report) {
        Some(section) => includes_of(lines_of(section), lines_of(section).len()),
        None => Seq::empty(),
    }
}

/// `text` up to where `mark` first stands in it.
fn text_before(text: &str, mark: &str) -> (r: String)
    ensures
        r@ == before(text@, mark@),
{
    match find(text, mark) {
        Some(i) => {
            let piece = text.substring_char(0, i);
            assert(piece@ =~= text@.take(i as int));
            String::from_str(piece)
        },
        None => String::from_str(text),
    }
}

/// What follows the first `mark` in `text`.
fn text_after(text: &str, mark: &str) -> (r: Option<String>)
    ensures
        match r {
            Some(t) => after(text@, mark@) == Some(t@),
            None => after(text@, mark@) is None,
        },
{
    match find(text, mark) {
        Some(i) => {
            proof {
                lemma_find_sub_stands(text@, mark@);
            }
            let n = text.unicode_len();
            let m = mark.unicode_len();
            let piece = text.substring_char(i + m, n);
            assert(piece@ =~= text@.skip(i + m));
            Some(String::from_str(piece))
        },
        None => None,
    }
}

/// The directory that a line of the list names.
fn parse_include(line: &str) -> (r: String)
    ensures
        r@ == include_of(line@),
{
    let trimmed = trim_leading_spaces(line);
    let path = replace(trimmed.as_str(), " /", "/");
    if ends_with(path.as_str(), " (framework directory)") {
        replace(path.as_str(), " (framework directory)", "")
    } else {
        path
    }
}

/// Reads the search directories from what the compiler reports when asked
/// to preprocess nothing, verbosely.
pub fn parse_gcc_includes(report: &str) -> (dirs: Vec<String>)
    ensures
        views(dirs@) == gcc_includes(report@),
{
    let rest = match text_after(report, "#include <...> search starts here:") {
        Some(r) => r,
        None => {
            let none: Vec<String> = Vec::new();
            assert(views(none@) =~= Seq::<Seq<char>>::empty());
            return none;
        },
    };
    let first = text_before(rest.as_str(), "#include <...> search starts here:");
    let section = text_before(first.as_str(), "End of search list.");
    let all = lines(section.as_str());
    let mut dirs: Vec<String> = Vec::new();
    let mut i: usize = 0;
    assert(views(dirs@) =~= includes_of(views(all@), 0));
    while i < all.len()
        invariant
            i <= all.len(),
            views(dirs@) == includes_of(views(all@), i as nat),
        decreases all.len() - i,
    {
        let line = all[i].as_str();
        assert(line@ == views(all@)[i as int]);
        if line.unicode_len() > 0 {
            let dir = parse_include(line);
            let ghost before = views(dirs@);
            dirs.push(dir);
            assert(views(dirs@) =~= before.push(include_of(line@)));
        }
        i += 1;
    }
    dirs
}

/// The name by which the editor knows an architecture of the generic
/// toolchain.
pub open spec fn editor_arch(arch: Seq<char>) -> Seq<char> {
    replaced(arch, "x86_64"@, "x64"@)
}

/// The mode of the code analysis for a generic target.
pub open spec fn generic_mode(os: Seq<char>, compiler: Seq<char>, arch: Seq<char>) -> Seq<char> {
    os + "-"@ + compiler + "-"@ + editor_arch(arch)
}

/// The name by which the editor knows an architecture of the cross
/// toolchain.
pub open spec fn mingw_arch(arch: Option<Seq<char>>) -> Seq<char> {
    match arch {
        Some(a) => if a == "i686"@ {
            "x86"@
        } else if a == "x86_64"@ {
            "x64"@
        } else {
            a
        },
        None => "${default}"@,
    }
}

/// The mode of the code analysis for a target of the cross toolchain.
pub open spec fn mingw_mode(os: Seq<char>, arch: Option<Seq<char>>) -> Seq<char> {
    os + "-gcc-"@ + mingw_arch(arch)
}

/// The mode of the code analysis for a generic target.
pub fn generic_intellisense_mode(os: &str, compiler: &str, arch: &str) -> (mode: String)
    ensures
        mode@ == generic_mode(os@, compiler@, arch@),
{
    let a = replace(arch, "x86_64", "x64");
    String::from_str(os).concat("-").concat(compiler).concat("-").concat(a.as_str())
}

/// The mode of the code analysis for a target of the cross toolchain.
pub fn mingw_intellisense_mode(os: &str, arch: &Option<String>) -> (mode: String)
    ensures
        mode@ == mingw_mode(
            os@,
            match *arch {
                Some(a) => Some(a@),
                None => None,
            },
        ),
{
    let name = match arch {
        Some(a) => if same_text(a.as_str(), "i686") {
            String::from_str("x86")
        } else if same_text(a.as_str(), "x86_64") {
            String::from_str("x64")
        } else {
            a.clone()
        },
        None => String::from_str("${default}"),
    };
    String::from_str(os).concat("-gcc-").concat(name.as_str())
}

/// The value of the last of `entries` that is called `name`.
pub open spec fn variable(entries: Seq<(Seq<char>, Seq<char>)>, name: Seq<char>, n: nat) -> Option<
    Seq<char>,
>
    decreases n,
{
    if n == 0 {
        None
    } else if entries[n - 1].0 == name {
        Some(entries[n - 1].1)
    } else {
        variable(entries, name, (n - 1) as nat)
    }
}

/// Looks a variable up in an environment; a later entry wins over an
/// earlier one of the same name.
pub fn lookup_variable(entries: &Vec<(String, String)>, name: &str) -> (r: Option<String>)
    ensures
        match r {
            Some(v) => variable(
                crate::vendor_env::entry_views(entries@),
                name@,
                entries@.len(),
            ) == Some(v@),
            None => variable(crate::vendor_env::entry_views(entries@), name@, entries@.len())
                is None,
        },
{
    let ghost es = crate::vendor_env::entry_views(entries@);
    let mut i: usize = entries.len();
    while i > 0
        invariant
            i <= entries.len(),
            es == crate::vendor_env::entry_views(entries@),
            variable(es, name@, entries@.len()) == variable(es, name@, i as nat),
        decreases i,
    {
        i -= 1;
        assert(es[i as int] == (entries@[i as int].0@, entries@[i as int].1@));
        if same_text(entries[i].0.as_str(), name) {
            return Some(entries[i].1.clone());
        }
    }
    None
}

/// The properties of a target of the vendor toolchain, read from the
/// environment of the toolchain: the compiler below the directory of the
/// tools, by host and target architecture; the directories of the `INCLUDE`
/// variable; the mode for the target architecture. A variable that is not
/// set counts as empty.
pub fn msvc_properties(env: &Vec<(String, String)>) -> (p: VSCodeProperties)
    ensures
        ({
            let es = crate::vendor_env::entry_views(env@);
            let get = |name: Seq<char>|
                match variable(es, name, env@.len()) {
                    Some(v) => v,
                    None => Seq::<char>::empty(),
                };
            &&& p.compiler_path@ == get("VCToolsInstallDir"@) + "bin\\Host"@ + get(
                "VSCMD_ARG_HOST_ARCH"@,
            ) + "\\"@ + get("VSCMD_ARG_TGT_ARCH"@) + "\\cl.exe"@
            &&& views(p.default_includes@) == split_on(get("INCLUDE"@), ';')
            &&& p.intellisense_mode@ == "windows-msvc-"@ + get("VSCMD_ARG_TGT_ARCH"@)
        }),
{
    let tools = variable_or_empty(env, "VCToolsInstallDir");
    let host = variable_or_empty(env, "VSCMD_ARG_HOST_ARCH");
    let target = variable_or_empty(env, "VSCMD_ARG_TGT_ARCH");
    let header_dirs = variable_or_empty(env, "INCLUDE");
    VSCodeProperties {
        compiler_path: tools.concat("bin\\Host").concat(host.as_str()).concat("\\").concat(
            target.as_str(),
        ).concat("\\cl.exe"),
        default_includes: split(header_dirs.as_str(), ';'),
        intellisense_mode: concat2("windows-msvc-", target.as_str()),
    }
}

/// The value of a variable, empty where it is not set.
fn variable_or_empty(env: &Vec<(String, String)>, name: &str) -> (r: String)
    ensures
        r@ == match variable(crate::vendor_env::entry_views(env@), name@, env@.len()) {
            Some(v) => v,
            None => Seq::<char>::empty(),
        },
{
    match lookup_variable(env, name) {
        Some(v) => v,
        None => String::new(),
    }
}

} // verus!
