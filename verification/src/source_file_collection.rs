//! The files of a target, kept by category and without repetition.

use vstd::prelude::*;
use crate::source_file_type::SourceFileType;
use crate::text::{
    clone_strings, contains_text, insert_text, inserted, lemma_inserted_no_duplicates, views,
};

verus! {

/// A set of file paths for each category. Within a category a path is held
/// once, and the paths keep the order in which they first came.
#[derive(Clone, Debug)]
pub struct SourceFileCollection {
    code: Vec<String>,
    resource: Vec<String>,
    module_definition: Vec<String>,
    unknown: Vec<String>,
}

impl SourceFileCollection {
    /// The paths held under `file_type`, in the order in which they came.
    pub closed spec fn files_of(&self, file_type: SourceFileType) -> Seq<Seq<char>> {
        match file_type {
            SourceFileType::Code => views(self.code@),
            SourceFileType::Resource => views(self.resource@),
            SourceFileType::ModuleDefinition => views(self.module_definition@),
            SourceFileType::Unknown => views(self.unknown@),
        }
    }

    /// The paths of every category.
    pub open spec fn model(&self) -> Map<SourceFileType, Seq<Seq<char>>> {
        Map::new(|t: SourceFileType| true, |t: SourceFileType| self.files_of(t))
    }

    /// No category holds a path twice.
    pub closed spec fn wf(&self) -> bool {
        &&& views(self.code@).no_duplicates()
        &&& views(self.resource@).no_duplicates()
        &&& views(self.module_definition@).no_duplicates()
        &&& views(self.unknown@).no_duplicates()
    }

    /// What `wf` means for the paths of each category.
    pub proof fn lemma_wf(&self)
        ensures
            self.wf() <==> forall|t: SourceFileType| (#[trigger] self.files_of(t)).no_duplicates(),
    {
        if self.wf() {
            assert forall|t: SourceFileType| (#[trigger] self.files_of(t)).no_duplicates() by {}
        }
        if forall|t: SourceFileType| (#[trigger] self.files_of(t)).no_duplicates() {
            assert(self.files_of(SourceFileType::Code).no_duplicates());
            assert(self.files_of(SourceFileType::Resource).no_duplicates());
            assert(self.files_of(SourceFileType::ModuleDefinition).no_duplicates());
            assert(self.files_of(SourceFileType::Unknown).no_duplicates());
        }
    }

    /// A collection with every category empty.
    pub fn new() -> (c: SourceFileCollection)
        ensures
            c.wf(),
            forall|t: SourceFileType| (#[trigger] c.files_of(t)).len() == 0,
    {
        let c = SourceFileCollection {
            code: Vec::new(),
            resource: Vec::new(),
            module_definition: Vec::new(),
            unknown: Vec::new(),
        };
        assert forall|t: SourceFileType| (#[trigger] c.files_of(t)).len() == 0 by {}
        c
    }

    /// Files `file` under the category of its extension.
    pub fn insert(&mut self, file: &str)
        requires
            old(self).wf(),
        ensures
            final(self).wf(),
            forall|t: SourceFileType| #[trigger]
                final(self).files_of(t) == if t == SourceFileType::classify(file@) {
                    inserted(old(self).files_of(t), file@)
                } else {
                    old(self).files_of(t)
                },
    {
        let file_type = SourceFileType::from(file);
        self.insert_as(file, file_type);
    }

    /// Files `file` under `file_type`, whatever its extension.
    pub fn insert_as(&mut self, file: &str, file_type: SourceFileType)
        requires
            old(self).wf(),
        ensures
            final(self).wf(),
            forall|t: SourceFileType| #[trigger]
                final(self).files_of(t) == if t == file_type {
                    inserted(old(self).files_of(t), file@)
                } else {
                    old(self).files_of(t)
                },
    {
        proof {
            lemma_inserted_no_duplicates(old(self).files_of(file_type), file@);
        }
        match file_type {
            SourceFileType::Code => insert_text(&mut self.code, file),
            SourceFileType::Resource => insert_text(&mut self.resource, file),
            SourceFileType::ModuleDefinition => insert_text(&mut self.module_definition, file),
            SourceFileType::Unknown => insert_text(&mut self.unknown, file),
        }
    }

    /// The paths held under `file_type`.
    pub fn get(&self, file_type: &SourceFileType) -> (files: Vec<String>)
        ensures
            views(files@) == self.files_of(*file_type),
    {
        match file_type {
            SourceFileType::Code => clone_strings(&self.code),
            SourceFileType::Resource => clone_strings(&self.resource),
            SourceFileType::ModuleDefinition => clone_strings(&self.module_definition),
            SourceFileType::Unknown => clone_strings(&self.unknown),
        }
    }

    /// Whether `file` is held under `file_type`.
    pub fn contains(&self, file: &str, file_type: &SourceFileType) -> (r: bool)
        ensures
            r == self.files_of(*file_type).contains(file@),
    {
        match file_type {
            SourceFileType::Code => contains_text(&self.code, file),
            SourceFileType::Resource => contains_text(&self.resource, file),
            SourceFileType::ModuleDefinition => contains_text(&self.module_definition, file),
            SourceFileType::Unknown => contains_text(&self.unknown, file),
        }
    }
}

} // verus!
