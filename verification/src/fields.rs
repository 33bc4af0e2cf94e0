//! The fields of a target that a script reads and writes by name.

use vstd::prelude::*;
use vstd::string::*;
use crate::relative::{diff_paths, relative_path};
use crate::source_file_type::SourceFileType;
use crate::target::{GenericTarget, MINGWTarget, MSVCTarget, TargetSettings};
use crate::text::{clone_strings, same_text, views};

verus! {

/// The value of a field.
#[derive(Debug)]
pub enum FieldValue {
    List(Vec<String>),
    Text(Option<String>),
    Flag(bool),
}

/// The value of a field as plain text.
pub enum FieldModel {
    List(Seq<Seq<char>>),
    Text(Option<Seq<char>>),
    Flag(bool),
}

impl View for FieldValue {
    type V = FieldModel;

    open spec fn view(&self) -> FieldModel {
        match *self {
            FieldValue::List(v) => FieldModel::List(views(v@)),
            FieldValue::Text(t) => FieldModel::Text(
                match t {
                    Some(s) => Some(s@),
                    None => None,
                },
            ),
            FieldValue::Flag(b) => FieldModel::Flag(b),
        }
    }
}

/// Why a field could not be written.
#[derive(Debug, Clone, Copy, PartialEq, Eq, Structural)]
pub enum FieldError {
    /// The target has no field of that name that can be written this way.
    UnknownField,
    /// The field is of another kind than the value.
    WrongKind,
}

/// The text of an optional string.
pub open spec fn option_view(o: Option<String>) -> Option<Seq<char>> {
    match o {
        Some(s) => Some(s@),
        None => None,
    }
}

/// A copy of an optional string.
fn copy_text(o: &Option<String>) -> (r: Option<String>)
    ensures
        r == *o,
{
    match o {
        Some(s) => Some(s.clone()),
        None => None,
    }
}

impl TargetSettings {
    /// The fields that every backend has, by the names that scripts use.
    pub open spec fn field(&self, name: Seq<char>) -> Option<FieldModel> {
        if name == "include_paths"@ {
            Some(FieldModel::List(views(self.include_paths@)))
        } else if name == "library_paths"@ {
            Some(FieldModel::List(views(self.lib_paths@)))
        } else if name == "libraries"@ {
            Some(FieldModel::List(views(self.libs@)))
        } else if name == "definitions"@ {
            Some(FieldModel::List(views(self.defines@)))
        } else if name == "compiler_flags"@ {
            Some(FieldModel::List(views(self.compiler_flags@)))
        } else if name == "linker_flags"@ {
            Some(FieldModel::List(views(self.linker_flags@)))
        } else if name == "output"@ {
            Some(FieldModel::Text(option_view(self.output)))
        } else {
            None
        }
    }

    /// The settings with the field `name` set to `value`.
    pub open spec fn with_field(self, name: Seq<char>, value: FieldValue) -> Result<
        TargetSettings,
        FieldError,
    > {
        if name == "include_paths"@ {
            match value {
                FieldValue::List(v) => Ok(TargetSettings { include_paths: v, ..self }),
                _ => Err(FieldError::WrongKind),
            }
        } else if name == "library_paths"@ {
            match value {
                FieldValue::List(v) => Ok(TargetSettings { lib_paths: v, ..self }),
                _ => Err(FieldError::WrongKind),
            }
        } else if name == "libraries"@ {
            match value {
                FieldValue::List(v) => Ok(TargetSettings { libs: v, ..self }),
                _ => Err(FieldError::WrongKind),
            }
        } else if name == "definitions"@ {
            match value {
                FieldValue::List(v) => Ok(TargetSettings { defines: v, ..self }),
                _ => Err(FieldError::WrongKind),
            }
        } else if name == "compiler_flags"@ {
            match value {
                FieldValue::List(v) => Ok(TargetSettings { compiler_flags: v, ..self }),
                _ => Err(FieldError::WrongKind),
            }
        } else if name == "linker_flags"@ {
            match value {
                FieldValue::List(v) => Ok(TargetSettings { linker_flags: v, ..self }),
                _ => Err(FieldError::WrongKind),
            }
        } else if name == "output"@ {
            match value {
                FieldValue::Text(t) => Ok(TargetSettings { output: t, ..self }),
                _ => Err(FieldError::WrongKind),
            }
        } else {
            Err(FieldError::UnknownField)
        }
    }

    /// Reads the field `name`.
    pub fn get_field(&self, name: &str) -> (r: Option<FieldValue>)
        ensures
            match r {
                Some(v) => self.field(name@) == Some(v@),
                None => self.field(name@) is None,
            },
    {
        if same_text(name, "include_paths") {
            Some(FieldValue::List(clone_strings(&self.include_paths)))
        } else if same_text(name, "library_paths") {
            Some(FieldValue::List(clone_strings(&self.lib_paths)))
        } else if same_text(name, "libraries") {
            Some(FieldValue::List(clone_strings(&self.libs)))
        } else if same_text(name, "definitions") {
            Some(FieldValue::List(clone_strings(&self.defines)))
        } else if same_text(name, "compiler_flags") {
            Some(FieldValue::List(clone_strings(&self.compiler_flags)))
        } else if same_text(name, "linker_flags") {
            Some(FieldValue::List(clone_strings(&self.linker_flags)))
        } else if same_text(name, "output") {
            Some(FieldValue::Text(copy_text(&self.output)))
        } else {
            None
        }
    }

    /// Writes the field `name`. An unknown name and a value of the wrong
    /// kind are errors, and change nothing.
    pub fn set_field(&mut self, name: &str, value: FieldValue) -> (r: Result<(), FieldError>)
        requires
            old(self).wf(),
        ensures
            final(self).wf(),
            match r {
                Ok(()) => old(self).with_field(name@, value) == Ok::<TargetSettings, FieldError>(
                    *final(self),
                ),
                Err(e) => old(self).with_field(name@, value) == Err::<TargetSettings, FieldError>(e)
                    && *final(self) == *old(self),
            },
    {
        if same_text(name, "include_paths") {
            match value {
                FieldValue::List(v) => {
                    self.include_paths = v;
                    Ok(())
                },
                _ => Err(FieldError::WrongKind),
            }
        } else if same_text(name, "library_paths") {
            match value {
                FieldValue::List(v) => {
                    self.lib_paths = v;
                    Ok(())
                },
                _ => Err(FieldError::WrongKind),
            }
        } else if same_text(name, "libraries") {
            match value {
                FieldValue::List(v) => {
                    self.libs = v;
                    Ok(())
                },
                _ => Err(FieldError::WrongKind),
            }
        } else if same_text(name, "definitions") {
            match value {
                FieldValue::List(v) => {
                    self.defines = v;
                    Ok(())
                },
                _ => Err(FieldError::WrongKind),
            }
        } else if same_text(name, "compiler_flags") {
            match value {
                FieldValue::List(v) => {
                    self.compiler_flags = v;
                    Ok(())
                },
                _ => Err(FieldError::WrongKind),
            }
        } else if same_text(name, "linker_flags") {
            match value {
                FieldValue::List(v) => {
                    self.linker_flags = v;
                    Ok(())
                },
                _ => Err(FieldError::WrongKind),
            }
        } else if same_text(name, "output") {
            match value {
                FieldValue::Text(t) => {
                    self.output = t;
                    Ok(())
                },
                _ => Err(FieldError::WrongKind),
            }
        } else {
            Err(FieldError::UnknownField)
        }
    }

    /// The files of category `file_type` as scripts see them: relative to
    /// the working directory. `None` where a file has no relative path.
    pub open spec fn relative_files(&self, file_type: SourceFileType) -> Option<Seq<Seq<char>>> {
        let files = self.files.files_of(file_type);
        if forall|i: int| 0 <= i < files.len() ==> (#[trigger] relative_path(
            files[i],
            self.workdir@,
        )) is Some {
            Some(Seq::new(files.len(), |i: int| relative_path(files[i], self.workdir@)->0))
        } else {
            None
        }
    }

    /// The files of category `file_type`, relative to the working directory.
    #[verifier::loop_isolation(false)]
    pub fn get_relative_files(&self, file_type: SourceFileType) -> (r: Option<Vec<String>>)
        ensures
            match r {
                Some(v) => self.relative_files(file_type) == Some(views(v@)),
                None => self.relative_files(file_type) is None,
            },
    {
        let files = self.files.get(&file_type);
        let ghost fs = self.files.files_of(file_type);
        let ghost goal = Seq::new(fs.len(), |i: int| relative_path(fs[i], self.workdir@)->0);
        let mut out: Vec<String> = Vec::new();
        let mut i: usize = 0;
        assert(views(out@) =~= goal.take(0));
        while i < files.len()
            invariant
                i <= files.len(),
                forall|j: int| 0 <= j < i ==> (#[trigger] relative_path(fs[j], self.workdir@))
                    is Some,
                views(out@) == goal.take(i as int),
            decreases files.len() - i,
        {
            assert(files@[i as int]@ == fs[i as int]);
            match diff_paths(files[i].as_str(), self.workdir.as_str()) {
                Some(rel) => {
                    let ghost before = views(out@);
                    out.push(rel);
                    assert(views(out@) =~= before.push(goal[i as int]));
                    assert(goal.take(i + 1) =~= goal.take(i as int).push(goal[i as int]));
                },
                None => {
                    assert(relative_path(fs[i as int], self.workdir@) is None);
                    return None;
                },
            }
            i += 1;
        }
        assert(goal.take(files.len() as int) =~= goal);
        Some(out)
    }
}

impl GenericTarget {
    /// The fields of a generic target: those of every backend, and the
    /// compiler and the linker.
    pub open spec fn field(&self, name: Seq<char>) -> Option<FieldModel> {
        if name == "compiler"@ {
            Some(FieldModel::Text(option_view(self.toolset_compiler)))
        } else if name == "linker"@ {
            Some(FieldModel::Text(option_view(self.toolset_linker)))
        } else {
            self.settings.field(name)
        }
    }

    /// The target with the field `name` set to `value`.
    pub open spec fn with_field(self, name: Seq<char>, value: FieldValue) -> Result<
        GenericTarget,
        FieldError,
    > {
        if name == "compiler"@ {
            match value {
                FieldValue::Text(t) => Ok(GenericTarget { toolset_compiler: t, ..self }),
                _ => Err(FieldError::WrongKind),
            }
        } else if name == "linker"@ {
            match value {
                FieldValue::Text(t) => Ok(GenericTarget { toolset_linker: t, ..self }),
                _ => Err(FieldError::WrongKind),
            }
        } else {
            match self.settings.with_field(name, value) {
                Ok(s) => Ok(GenericTarget { settings: s, ..self }),
                Err(e) => Err(e),
            }
        }
    }

    /// Reads the field `name`.
    pub fn get_field(&self, name: &str) -> (r: Option<FieldValue>)
        ensures
            match r {
                Some(v) => self.field(name@) == Some(v@),
                None => self.field(name@) is None,
            },
    {
        if same_text(name, "compiler") {
            Some(FieldValue::Text(copy_text(&self.toolset_compiler)))
        } else if same_text(name, "linker") {
            Some(FieldValue::Text(copy_text(&self.toolset_linker)))
        } else {
            self.settings.get_field(name)
        }
    }

    /// Writes the field `name`; an error changes nothing.
    pub fn set_field(&mut self, name: &str, value: FieldValue) -> (r: Result<(), FieldError>)
        requires
            old(self).wf(),
        ensures
            final(self).wf(),
            match r {
                Ok(()) => old(self).with_field(name@, value) == Ok::<GenericTarget, FieldError>(
                    *final(self),
                ),
                Err(e) => old(self).with_field(name@, value) == Err::<GenericTarget, FieldError>(e)
                    && *final(self) == *old(self),
            },
    {
        if same_text(name, "compiler") {
            match value {
                FieldValue::Text(t) => {
                    self.toolset_compiler = t;
                    Ok(())
                },
                _ => Err(FieldError::WrongKind),
            }
        } else if same_text(name, "linker") {
            match value {
                FieldValue::Text(t) => {
                    self.toolset_linker = t;
                    Ok(())
                },
                _ => Err(FieldError::WrongKind),
            }
        } else {
            self.settings.set_field(name, value)
        }
    }
}

impl MINGWTarget {
    /// The fields of a target of the cross toolchain: those of every
    /// backend, the architecture, whether a static library is built, and
    /// the flags of the resource compiler.
    pub open spec fn field(&self, name: Seq<char>) -> Option<FieldModel> {
        if name == "arch"@ {
            Some(FieldModel::Text(option_view(self.arch)))
        } else if name == "static_library"@ {
            Some(FieldModel::Flag(self.static_lib))
        } else if name == "windres_flags"@ {
            Some(FieldModel::List(views(self.windres_flags@)))
        } else {
            self.settings.field(name)
        }
    }

    /// The target with the field `name` set to `value`.
    pub open spec fn with_field(self, name: Seq<char>, value: FieldValue) -> Result<
        MINGWTarget,
        FieldError,
    > {
        if name == "arch"@ {
            match value {
                FieldValue::Text(t) => Ok(MINGWTarget { arch: t, ..self }),
                _ => Err(FieldError::WrongKind),
            }
        } else if name == "static_library"@ {
            match value {
                FieldValue::Flag(b) => Ok(MINGWTarget { static_lib: b, ..self }),
                _ => Err(FieldError::WrongKind),
            }
        } else if name == "windres_flags"@ {
            match value {
                FieldValue::List(v) => Ok(MINGWTarget { windres_flags: v, ..self }),
                _ => Err(FieldError::WrongKind),
            }
        } else {
            match self.settings.with_field(name, value) {
                Ok(s) => Ok(MINGWTarget { settings: s, ..self }),
                Err(e) => Err(e),
            }
        }
    }

    /// Reads the field `name`.
    pub fn get_field(&self, name: &str) -> (r: Option<FieldValue>)
        ensures
            match r {
                Some(v) => self.field(name@) == Some(v@),
                None => self.field(name@) is None,
            },
    {
        if same_text(name, "arch") {
            Some(FieldValue::Text(copy_text(&self.arch)))
        } else if same_text(name, "static_library") {
            Some(FieldValue::Flag(self.static_lib))
        } else if same_text(name, "windres_flags") {
            Some(FieldValue::List(clone_strings(&self.windres_flags)))
        } else {
            self.settings.get_field(name)
        }
    }

    /// Writes the field `name`; an error changes nothing.
    pub fn set_field(&mut self, name: &str, value: FieldValue) -> (r: Result<(), FieldError>)
        requires
            old(self).wf(),
        ensures
            final(self).wf(),
            match r {
                Ok(()) => old(self).with_field(name@, value) == Ok::<MINGWTarget, FieldError>(
                    *final(self),
                ),
                Err(e) => old(self).with_field(name@, value) == Err::<MINGWTarget, FieldError>(e)
                    && *final(self) == *old(self),
            },
    {
        if same_text(name, "arch") {
            match value {
                FieldValue::Text(t) => {
                    self.arch = t;
                    Ok(())
                },
                _ => Err(FieldError::WrongKind),
            }
        } else if same_text(name, "static_library") {
            match value {
                FieldValue::Flag(b) => {
                    self.static_lib = b;
                    Ok(())
                },
                _ => Err(FieldError::WrongKind),
            }
        } else if same_text(name, "windres_flags") {
            match value {
                FieldValue::List(v) => {
                    self.windres_flags = v;
                    Ok(())
                },
                _ => Err(FieldError::WrongKind),
            }
        } else {
            self.settings.set_field(name, value)
        }
    }
}

impl MSVCTarget {
    /// The fields of a target of the vendor toolchain: those of every
    /// backend, the architecture, whether a static library is built, and
    /// the flags of the resource compiler.
    pub open spec fn field(&self, name: Seq<char>) -> Option<FieldModel> {
        if name == "arch"@ {
            Some(FieldModel::Text(option_view(self.arch)))
        } else if name == "static_library"@ {
            Some(FieldModel::Flag(self.static_lib))
        } else if name == "rc_flags"@ {
            Some(FieldModel::List(views(self.rc_flags@)))
        } else {
            self.settings.field(name)
        }
    }

    /// The target with the field `name` set to `value`.
    pub open spec fn with_field(self, name: Seq<char>, value: FieldValue) -> Result<
        MSVCTarget,
        FieldError,
    > {
        if name == "arch"@ {
            match value {
                FieldValue::Text(t) => Ok(MSVCTarget { arch: t, ..self }),
                _ => Err(FieldError::WrongKind),
            }
        } else if name == "static_library"@ {
            match value {
                FieldValue::Flag(b) => Ok(MSVCTarget { static_lib: b, ..self }),
                _ => Err(FieldError::WrongKind),
            }
        } else if name == "rc_flags"@ {
            match value {
                FieldValue::List(v) => Ok(MSVCTarget { rc_flags: v, ..self }),
                _ => Err(FieldError::WrongKind),
            }
        } else {
            match self.settings.with_field(name, value) {
                Ok(s) => Ok(MSVCTarget { settings: s, ..self }),
                Err(e) => Err(e),
            }
        }
    }

    /// Reads the field `name`.
    pub fn get_field(&self, name: &str) -> (r: Option<FieldValue>)
        ensures
            match r {
                Some(v) => self.field(name@) == Some(v@),
                None => self.field(name@) is None,
            },
    {
        if same_text(name, "arch") {
            Some(FieldValue::Text(copy_text(&self.arch)))
        } else if same_text(name, "static_library") {
            Some(FieldValue::Flag(self.static_lib))
        } else if same_text(name, "rc_flags") {
            Some(FieldValue::List(clone_strings(&self.rc_flags)))
        } else {
            self.settings.get_field(name)
        }
    }

    /// Writes the field `name`; an error changes nothing.
    pub fn set_field(&mut self, name: &str, value: FieldValue) -> (r: Result<(), FieldError>)
        requires
            old(self).wf(),
        ensures
            final(self).wf(),
            match r {
                Ok(()) => old(self).with_field(name@, value) == Ok::<MSVCTarget, FieldError>(
                    *final(self),
                ),
                Err(e) => old(self).with_field(name@, value) == Err::<MSVCTarget, FieldError>(e)
                    && *final(self) == *old(self),
            },
    {
        if same_text(name, "arch") {
            match value {
                FieldValue::Text(t) => {
                    self.arch = t;
                    Ok(())
                },
                _ => Err(FieldError::WrongKind),
            }
        } else if same_text(name, "static_library") {
            match value {
                FieldValue::Flag(b) => {
                    self.static_lib = b;
                    Ok(())
                },
                _ => Err(FieldError::WrongKind),
            }
        } else if same_text(name, "rc_flags") {
            match value {
                FieldValue::List(v) => {
                    self.rc_flags = v;
                    Ok(())
                },
                _ => Err(FieldError::WrongKind),
            }
        } else {
            self.settings.set_field(name, value)
        }
    }
}

} // verus!
