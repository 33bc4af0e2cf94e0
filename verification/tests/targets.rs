use numake::error::NuMakeError;
use numake::fields::{FieldError, FieldValue};
use numake::source_file_type::SourceFileType;
use numake::target::{CustomTarget, GenericTarget, MINGWTarget, MSVCTarget, Target};

fn generic() -> GenericTarget {
    GenericTarget::new(
        "app".to_string(),
        Some("gcc".to_string()),
        Some("gcc".to_string()),
        None,
        "/w".to_string(),
    )
}

#[test]
fn file_outside_workdir_is_refused_and_changes_nothing() {
    let mut t = generic();
    t.add_file("/w/src/a.c", true).unwrap();
    let before = t.settings.files.get(&SourceFileType::Code);
    for path in ["/etc/passwd", "/w/../x.c", "/work/a.c", "src/a.c", "/"] {
        assert_eq!(t.add_file(path, true), Err(NuMakeError::PathOutsideWorkingDirectory));
        assert_eq!(t.settings.files.get(&SourceFileType::Code), before);
        assert!(t.settings.files.get(&SourceFileType::Unknown).is_empty());
        assert!(t.settings.files.get(&SourceFileType::Resource).is_empty());
        assert!(t.settings.files.get(&SourceFileType::ModuleDefinition).is_empty());
    }
}

#[test]
fn sandbox_is_checked_before_the_kind_of_file() {
    let mut t = generic();
    assert_eq!(t.add_file("/etc", false), Err(NuMakeError::PathOutsideWorkingDirectory));
    assert_eq!(t.add_file("/w/src", false), Err(NuMakeError::AddFileIsDirectory));
    assert!(t.settings.files.get(&SourceFileType::Unknown).is_empty());
}

#[test]
fn files_are_filed_by_extension() {
    let mut t = MINGWTarget::new("win".to_string(), None, "/w".to_string());
    t.add_file("/w/a.cpp", true).unwrap();
    t.add_file("/w/a.rc", true).unwrap();
    t.add_file("/w/a.def", true).unwrap();
    t.add_file("/w/a.h", true).unwrap();
    t.add_rc_file("/w/res.bin", true).unwrap();
    t.add_def_file("/w/exports.txt", true).unwrap();
    assert_eq!(t.settings.files.get(&SourceFileType::Code), vec!["/w/a.cpp"]);
    assert_eq!(t.settings.files.get(&SourceFileType::Resource), vec!["/w/a.rc", "/w/res.bin"]);
    assert_eq!(
        t.settings.files.get(&SourceFileType::ModuleDefinition),
        vec!["/w/a.def", "/w/exports.txt"]
    );
    assert_eq!(t.settings.files.get(&SourceFileType::Unknown), vec!["/w/a.h"]);
}

#[test]
fn msvc_resource_outside_workdir_is_refused() {
    let mut t = MSVCTarget::new("v".to_string(), None, "/w".to_string());
    assert_eq!(t.add_rc_file("/x/a.rc", true), Err(NuMakeError::PathOutsideWorkingDirectory));
    assert_eq!(t.add_def_file("/x/a.def", true), Err(NuMakeError::PathOutsideWorkingDirectory));
    assert_eq!(t.add_def_file("/w/dir", false), Err(NuMakeError::AddFileIsDirectory));
    assert!(t.settings.files.get(&SourceFileType::Resource).is_empty());
    assert!(t.settings.files.get(&SourceFileType::ModuleDefinition).is_empty());
}

#[test]
fn bulk_filing_stops_at_first_refusal() {
    let mut t = generic();
    let files = vec![
        ("/w/a.c".to_string(), true),
        ("/x/b.c".to_string(), true),
        ("/w/c.c".to_string(), true),
    ];
    assert_eq!(
        t.settings.add_files(&files, None),
        Err(NuMakeError::PathOutsideWorkingDirectory)
    );
    assert_eq!(t.settings.files.get(&SourceFileType::Code), vec!["/w/a.c"]);
    let more = vec![("/w/c.c".to_string(), true), ("/w/x.bin".to_string(), true)];
    assert_eq!(t.settings.add_files(&more, Some(SourceFileType::Resource)), Ok(()));
    assert_eq!(t.settings.files.get(&SourceFileType::Resource), vec!["/w/c.c", "/w/x.bin"]);
}

#[test]
fn assets_are_kept_by_source() {
    let mut t = generic();
    assert_eq!(t.settings.add_asset("/w/data/a.png", "a.png"), Ok(()));
    assert_eq!(t.settings.add_asset("/w/data/b.png", "img/b.png"), Ok(()));
    assert_eq!(t.settings.add_asset("/w/data/a.png", "other.png"), Ok(()));
    assert_eq!(
        t.settings.add_asset("/elsewhere/c.png", "c.png"),
        Err(NuMakeError::PathOutsideWorkingDirectory)
    );
    assert_eq!(
        t.settings.assets,
        vec![
            ("/w/data/a.png".to_string(), "other.png".to_string()),
            ("/w/data/b.png".to_string(), "img/b.png".to_string()),
        ]
    );
}

#[test]
fn fields_are_read_and_written_by_name() {
    let mut t = generic();
    assert_eq!(
        t.set_field("include_paths", FieldValue::List(vec!["inc".to_string()])),
        Ok(())
    );
    assert_eq!(t.set_field("compiler", FieldValue::Text(Some("clang".to_string()))), Ok(()));
    assert_eq!(t.set_field("output", FieldValue::Text(Some("prog".to_string()))), Ok(()));
    assert_eq!(t.settings.include_paths, vec!["inc"]);
    assert_eq!(t.toolset_compiler, Some("clang".to_string()));
    assert_eq!(t.settings.output, Some("prog".to_string()));
    assert!(matches!(t.get_field("include_paths"), Some(FieldValue::List(v)) if v == vec!["inc"]));
    assert!(matches!(t.get_field("linker"), Some(FieldValue::Text(Some(l))) if l == "gcc"));
    assert!(t.get_field("arch").is_none());
    assert_eq!(t.set_field("arch", FieldValue::Flag(true)), Err(FieldError::UnknownField));
    assert_eq!(t.set_field("libraries", FieldValue::Flag(true)), Err(FieldError::WrongKind));
    assert!(t.settings.libs.is_empty());
}

#[test]
fn backend_fields_differ() {
    let mut m = MINGWTarget::new("m".to_string(), None, "/w".to_string());
    assert_eq!(m.set_field("static_library", FieldValue::Flag(true)), Ok(()));
    assert_eq!(m.set_field("arch", FieldValue::Text(Some("i686".to_string()))), Ok(()));
    assert_eq!(
        m.set_field("windres_flags", FieldValue::List(vec!["-x".to_string()])),
        Ok(())
    );
    assert_eq!(m.set_field("rc_flags", FieldValue::List(vec![])), Err(FieldError::UnknownField));
    assert!(m.static_lib);
    assert_eq!(m.arch, Some("i686".to_string()));
    assert_eq!(m.windres_flags, vec!["-x"]);
    let mut v = MSVCTarget::new("v".to_string(), None, "/w".to_string());
    assert_eq!(v.set_field("rc_flags", FieldValue::List(vec!["/n".to_string()])), Ok(()));
    assert_eq!(v.set_field("compiler", FieldValue::Text(None)), Err(FieldError::UnknownField));
    assert_eq!(v.set_field("static_library", FieldValue::Text(None)), Err(FieldError::WrongKind));
    assert_eq!(v.rc_flags, vec!["/n"]);
    assert!(matches!(v.get_field("static_library"), Some(FieldValue::Flag(false))));
}

#[test]
fn files_are_shown_relative_to_workdir() {
    let mut t = generic();
    t.add_file("/w/src/a.c", true).unwrap();
    t.add_file("/w/b.c", true).unwrap();
    assert_eq!(
        t.settings.get_relative_files(SourceFileType::Code),
        Some(vec!["src/a.c".to_string(), "b.c".to_string()])
    );
}

#[test]
fn target_names() {
    assert_eq!(Target::Generic(generic()).get_name(), "app");
    assert!(!Target::Generic(generic()).is_msvc());
    assert!(Target::MSVC(MSVCTarget::new("v".to_string(), None, "/w".to_string())).is_msvc());
    let c = CustomTarget::new("all-of-it".to_string(), "everything".to_string());
    assert!(c.sub_targets.is_empty());
    assert_eq!(Target::Custom(c).get_name(), "all-of-it");
}
