//! How the settings of a target become the argument lists of compilers,
//! resource compilers, archivers and linkers, for each toolchain convention.

use vstd::prelude::*;
use vstd::string::*;
use crate::target::TargetSettings;
use crate::text::{concat2, concat3, extend_prefixed, extend_texts, prefixed, push_text, views};

verus! {

/// One run of an outside program.
#[derive(Debug)]
pub struct Invocation {
    pub program: String,
    pub args: Vec<String>,
    /// Whether the program runs in the environment of the vendor toolchain.
    pub vendor_env: bool,
}

/// An invocation as plain text.
pub struct InvocationModel {
    pub program: Seq<char>,
    pub args: Seq<Seq<char>>,
    pub vendor_env: bool,
}

impl View for Invocation {
    type V = InvocationModel;

    open spec fn view(&self) -> InvocationModel {
        InvocationModel {
            program: self.program@,
            args: views(self.args@),
            vendor_env: self.vendor_env,
        }
    }
}

/// Where the linker writes: the file `output` in the directory `out_dir`.
pub open spec fn destination(out_dir: Seq<char>, output: Seq<char>) -> Seq<char> {
    out_dir + "/"@ + output
}

/// Arguments of a GCC-style compiler for one source file: `-c`, the object
/// to write, the include paths, the definitions, the raw flags, the source.
pub open spec fn gnu_compile_args(s: &TargetSettings, object: Seq<char>, source: Seq<char>) -> Seq<
    Seq<char>,
> {
    seq!["-c"@, "-o"@ + object] + prefixed("-I"@, views(s.include_paths@)) + prefixed(
        "-D"@,
        views(s.defines@),
    ) + views(s.compiler_flags@) + seq![source]
}

/// Arguments of a GCC-style linker: the objects, the library paths, the
/// libraries, the raw linker flags, the file to write.
pub open spec fn gnu_link_args(s: &TargetSettings, objects: Seq<Seq<char>>, dest: Seq<char>) -> Seq<
    Seq<char>,
> {
    objects + prefixed("-L"@, views(s.lib_paths@)) + prefixed("-l"@, views(s.libs@)) + views(
        s.linker_flags@,
    ) + seq!["-o"@ + dest]
}

/// Arguments of `windres` for one resource file, written as a COFF object.
pub open spec fn windres_args(s: &TargetSettings, resource: Seq<char>, coff: Seq<char>) -> Seq<
    Seq<char>,
> {
    seq!["-v"@, resource, "-OCOFF"@] + prefixed("-I"@, views(s.include_paths@)) + prefixed(
        "-D"@,
        views(s.defines@),
    ) + seq!["-o"@ + coff]
}

/// Arguments of the cross compiler used as linker: objects, module
/// definitions, library paths, libraries, compiler flags, the linker flags
/// handed through with `-Wl,`, the file to write.
pub open spec fn mingw_link_args(
    s: &TargetSettings,
    objects: Seq<Seq<char>>,
    def_files: Seq<Seq<char>>,
    dest: Seq<char>,
) -> Seq<Seq<char>> {
    objects + def_files + prefixed("-L"@, views(s.lib_paths@)) + prefixed("-l"@, views(s.libs@))
        + views(s.compiler_flags@) + prefixed("-Wl,"@, views(s.linker_flags@)) + seq![
        "-o"@ + dest,
    ]
}

/// Arguments of the archiver for a static library.
pub open spec fn archive_args(objects: Seq<Seq<char>>, def_files: Seq<Seq<char>>, dest: Seq<char>)
    -> Seq<Seq<char>> {
    seq!["rcs"@, dest] + objects + def_files
}

/// Arguments of the vendor compiler for one source file.
pub open spec fn msvc_compile_args(s: &TargetSettings, object: Seq<char>, source: Seq<char>) -> Seq<
    Seq<char>,
> {
    seq!["-c"@, "-Fo"@ + object] + prefixed("-I"@, views(s.include_paths@)) + prefixed(
        "-D"@,
        views(s.defines@),
    ) + views(s.compiler_flags@) + seq![source]
}

/// Arguments of the vendor resource compiler for one resource file.
pub open spec fn msvc_resource_args(s: &TargetSettings, resource: Seq<char>, res: Seq<char>) -> Seq<
    Seq<char>,
> {
    seq!["-v"@, "-fo"@ + res] + prefixed("-i"@, views(s.include_paths@)) + prefixed(
        "-d"@,
        views(s.defines@),
    ) + seq![resource]
}

/// Arguments of the converter that turns a compiled resource into an object.
pub open spec fn msvc_convert_args(s: &TargetSettings, res: Seq<char>, object: Seq<char>) -> Seq<
    Seq<char>,
> {
    seq!["/OUT:"@ + object] + prefixed("/DEFINE:"@, views(s.defines@)) + seq![res]
}

/// Arguments of the vendor linker or librarian: the file to write, library
/// paths, module definitions, raw linker flags, objects, libraries.
pub open spec fn msvc_link_args(
    s: &TargetSettings,
    objects: Seq<Seq<char>>,
    def_files: Seq<Seq<char>>,
    dest: Seq<char>,
) -> Seq<Seq<char>> {
    seq!["/OUT:"@ + dest] + prefixed("/LIBPATH:"@, views(s.lib_paths@)) + prefixed(
        "/DEF:"@,
        def_files,
    ) + views(s.linker_flags@) + objects + views(s.libs@)
}

/// The file `output` in the directory `out_dir`.
pub fn link_destination(out_dir: &str, output: &str) -> (dest: String)
    ensures
        dest@ == destination(out_dir@, output@),
{
    concat3(out_dir, "/", output)
}

/// Builds `gnu_compile_args`.
pub fn build_gnu_compile_args(s: &TargetSettings, object: &str, source: &str) -> (args: Vec<String>)
    ensures
        views(args@) == gnu_compile_args(s, object@, source@),
{
    let mut args: Vec<String> = Vec::new();
    push_text(&mut args, String::from_str("-c"));
    push_text(&mut args, concat2("-o", object));
    extend_prefixed(&mut args, "-I", &s.include_paths);
    extend_prefixed(&mut args, "-D", &s.defines);
    extend_texts(&mut args, &s.compiler_flags);
    push_text(&mut args, String::from_str(source));
    assert(views(args@) =~= gnu_compile_args(s, object@, source@));
    args
}

/// Builds `gnu_link_args`.
pub fn build_gnu_link_args(s: &TargetSettings, objects: &Vec<String>, dest: &str) -> (args: Vec<
    String,
>)
    ensures
        views(args@) == gnu_link_args(s, views(objects@), dest@),
{
    let mut args: Vec<String> = Vec::new();
    extend_texts(&mut args, objects);
    extend_prefixed(&mut args, "-L", &s.lib_paths);
    extend_prefixed(&mut args, "-l", &s.libs);
    extend_texts(&mut args, &s.linker_flags);
    push_text(&mut args, concat2("-o", dest));
    assert(views(args@) =~= gnu_link_args(s, views(objects@), dest@));
    args
}

/// Builds `windres_args`.
pub fn build_windres_args(s: &TargetSettings, resource: &str, coff: &str) -> (args: Vec<String>)
    ensures
        views(args@) == windres_args(s, resource@, coff@),
{
    let mut args: Vec<String> = Vec::new();
    push_text(&mut args, String::from_str("-v"));
    push_text(&mut args, String::from_str(resource));
    push_text(&mut args, String::from_str("-OCOFF"));
    extend_prefixed(&mut args, "-I", &s.include_paths);
    extend_prefixed(&mut args, "-D", &s.defines);
    push_text(&mut args, concat2("-o", coff));
    assert(views(args@) =~= windres_args(s, resource@, coff@));
    args
}

/// Builds `mingw_link_args`.
pub fn build_mingw_link_args(
    s: &TargetSettings,
    objects: &Vec<String>,
    def_files: &Vec<String>,
    dest: &str,
) -> (args: Vec<String>)
    ensures
        views(args@) == mingw_link_args(s, views(objects@), views(def_files@), dest@),
{
    let mut args: Vec<String> = Vec::new();
    extend_texts(&mut args, objects);
    extend_texts(&mut args, def_files);
    extend_prefixed(&mut args, "-L", &s.lib_paths);
    extend_prefixed(&mut args, "-l", &s.libs);
    extend_texts(&mut args, &s.compiler_flags);
    extend_prefixed(&mut args, "-Wl,", &s.linker_flags);
    push_text(&mut args, concat2("-o", dest));
    assert(views(args@) =~= mingw_link_args(s, views(objects@), views(def_files@), dest@));
    args
}

/// Builds `archive_args`.
pub fn build_archive_args(objects: &Vec<String>, def_files: &Vec<String>, dest: &str) -> (args:
    Vec<String>)
    ensures
        views(args@) == archive_args(views(objects@), views(def_files@), dest@),
{
    let mut args: Vec<String> = Vec::new();
    push_text(&mut args, String::from_str("rcs"));
    push_text(&mut args, String::from_str(dest));
    extend_texts(&mut args, objects);
    extend_texts(&mut args, def_files);
    assert(views(args@) =~= archive_args(views(objects@), views(def_files@), dest@));
    args
}

/// Builds `msvc_compile_args`.
pub fn build_msvc_compile_args(s: &TargetSettings, object: &str, source: &str) -> (args: Vec<
    String,
>)
    ensures
        views(args@) == msvc_compile_args(s, object@, source@),
{
    let mut args: Vec<String> = Vec::new();
    push_text(&mut args, String::from_str("-c"));
    push_text(&mut args, concat2("-Fo", object));
    extend_prefixed(&mut args, "-I", &s.include_paths);
    extend_prefixed(&mut args, "-D", &s.defines);
    extend_texts(&mut args, &s.compiler_flags);
    push_text(&mut args, String::from_str(source));
    assert(views(args@) =~= msvc_compile_args(s, object@, source@));
    args
}

/// Builds `msvc_resource_args`.
pub fn build_msvc_resource_args(s: &TargetSettings, resource: &str, res: &str) -> (args: Vec<
    String,
>)
    ensures
        views(args@) == msvc_resource_args(s, resource@, res@),
{
    let mut args: Vec<String> = Vec::new();
    push_text(&mut args, String::from_str("-v"));
    push_text(&mut args, concat2("-fo", res));
    extend_prefixed(&mut args, "-i", &s.include_paths);
    extend_prefixed(&mut args, "-d", &s.defines);
    push_text(&mut args, String::from_str(resource));
    assert(views(args@) =~= msvc_resource_args(s, resource@, res@));
    args
}

/// Builds `msvc_convert_args`.
pub fn build_msvc_convert_args(s: &TargetSettings, res: &str, object: &str) -> (args: Vec<String>)
    ensures
        views(args@) == msvc_convert_args(s, res@, object@),
{
    let mut args: Vec<String> = Vec::new();
    push_text(&mut args, concat2("/OUT:", object));
    extend_prefixed(&mut args, "/DEFINE:", &s.defines);
    push_text(&mut args, String::from_str(res));
    assert(views(args@) =~= msvc_convert_args(s, res@, object@));
    args
}

/// Builds `msvc_link_args`.
pub fn build_msvc_link_args(
    s: &TargetSettings,
    objects: &Vec<String>,
    def_files: &Vec<String>,
    dest: &str,
) -> (args: Vec<String>)
    ensures
        views(args@) == msvc_link_args(s, views(objects@), views(def_files@), dest@),
{
    let mut args: Vec<String> = Vec::new();
    push_text(&mut args, concat2("/OUT:", dest));
    extend_prefixed(&mut args, "/LIBPATH:", &s.lib_paths);
    extend_prefixed(&mut args, "/DEF:", def_files);
    extend_texts(&mut args, &s.linker_flags);
    extend_texts(&mut args, objects);
    extend_texts(&mut args, &s.libs);
    assert(views(args@) =~= msvc_link_args(s, views(objects@), views(def_files@), dest@));
    args
}

} // verus!
