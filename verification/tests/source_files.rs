use numake::source_file_collection::SourceFileCollection;
use numake::source_file_type::SourceFileType;

#[test]
fn classifies_by_extension() {
    assert_eq!(SourceFileType::from("/w/a.cpp"), SourceFileType::Code);
    assert_eq!(SourceFileType::from("/w/a.c"), SourceFileType::Code);
    assert_eq!(SourceFileType::from("/w/a.cxx"), SourceFileType::Code);
    assert_eq!(SourceFileType::from("/w/a.rc"), SourceFileType::Resource);
    assert_eq!(SourceFileType::from("/w/a.def"), SourceFileType::ModuleDefinition);
    assert_eq!(SourceFileType::from("/w/a.h"), SourceFileType::Unknown);
    assert_eq!(SourceFileType::from("/w/a"), SourceFileType::Unknown);
    assert_eq!(SourceFileType::from("/w/.c"), SourceFileType::Unknown);
    assert_eq!(SourceFileType::from("/w.c/a"), SourceFileType::Unknown);
}

#[test]
fn collection_keeps_each_path_once() {
    let mut c = SourceFileCollection::new();
    c.insert("/w/a.c");
    c.insert("/w/b.c");
    c.insert("/w/a.c");
    c.insert("/w/x.rc");
    c.insert("/w/readme.txt");
    assert_eq!(c.get(&SourceFileType::Code), vec!["/w/a.c".to_string(), "/w/b.c".to_string()]);
    assert_eq!(c.get(&SourceFileType::Resource), vec!["/w/x.rc".to_string()]);
    assert_eq!(c.get(&SourceFileType::Unknown), vec!["/w/readme.txt".to_string()]);
    assert!(c.get(&SourceFileType::ModuleDefinition).is_empty());
}
