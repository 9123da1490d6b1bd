//! The modules that `osbuild` can run, and the registry that holds them.

use crate::text::{same_text, text_of};
use vstd::prelude::*;
use vstd::string::*;
use vstd::utf8::{decode_utf8, valid_utf8};

verus! {

/// What can go wrong in an assembler. Nothing can yet: the type has no value.
#[derive(Debug)]
pub enum AssemblerError {
    Never(std::convert::Infallible),
}

/// A module that assembles a tree into an artifact.
pub trait Assembler {

}

/// What can go wrong in a source. Nothing can yet: the type has no value.
#[derive(Debug)]
pub enum SourceError {
    Never(std::convert::Infallible),
}

/// A module that fetches what a build needs.
pub trait Source {
    fn cached(&self) -> Result<bool, SourceError>;

    fn fetch_all(&self) -> Result<(), SourceError>;

    fn fetch_one(&self) -> Result<(), SourceError>;
}

/// What can go wrong in a stage. Nothing can yet: the type has no value.
#[derive(Debug)]
pub enum StageError {
    Never(std::convert::Infallible),
}

/// A module that changes a tree.
pub trait Stage {

}

/// Why a registry could not be filled.
#[derive(Debug)]
pub enum RegistryError {
    NoSuchPath,
    NotADirectory,
    ModuleError(ModuleError),
    IOError(std::io::Error),
}

impl From<std::io::Error> for RegistryError {
    fn from(err: std::io::Error) -> (error: Self) {
        Self::IOError(err)
    }
}

impl vstd::std_specs::convert::FromSpecImpl<std::io::Error> for RegistryError {
    open spec fn obeys_from_spec() -> bool {
        true
    }

    open spec fn from_spec(err: std::io::Error) -> Self {
        Self::IOError(err)
    }
}

impl From<ModuleError> for RegistryError {
    fn from(err: ModuleError) -> (error: Self) {
        Self::ModuleError(err)
    }
}

impl vstd::std_specs::convert::FromSpecImpl<ModuleError> for RegistryError {
    open spec fn obeys_from_spec() -> bool {
        true
    }

    open spec fn from_spec(err: ModuleError) -> Self {
        Self::ModuleError(err)
    }
}

/// Kind of a module.
#[derive(Debug, Eq, PartialEq, Clone, Copy, Structural)]
pub enum Kind {
    Stage,
    Assembler,
    Source,
    Runner,
    Mount,
    Device,
    Input,
}

/// Where assemblers are located on a default install.
pub const WELL_KNOWN_MODULE_PATH_ASSEMBLER: &'static str = "/usr/lib/osbuild/assemblers";

/// Where devices are located on a default install.
pub const WELL_KNOWN_MODULE_PATH_DEVICE: &'static str = "/usr/lib/osbuild/devices";

/// Where inputs are located on a default install.
pub const WELL_KNOWN_MODULE_PATH_INPUT: &'static str = "/usr/lib/osbuild/inputs";

/// Where mounts are located on a default install.
pub const WELL_KNOWN_MODULE_PATH_MOUNT: &'static str = "/usr/lib/osbuild/mounts";

/// Where runners are located on a default install.
pub const WELL_KNOWN_MODULE_PATH_RUNNER: &'static str = "/usr/lib/osbuild/runners";

/// Where sources are located on a default install.
pub const WELL_KNOWN_MODULE_PATH_SOURCE: &'static str = "/usr/lib/osbuild/sources";

/// Where stages are located on a default install.
pub const WELL_KNOWN_MODULE_PATH_STAGE: &'static str = "/usr/lib/osbuild/stages";

/// Errors that happen during execution of a module.
#[derive(Debug)]
pub enum ModuleError {
    /// Tried to create a module with an unparseable path.
    CantGetFilename,
    /// Tried to create a module with a non-existing path.
    NoSuchPath,
    IOError(std::io::Error),
    /// The output of the module was not decodable as UTF-8.
    Utf8Error(std::str::Utf8Error),
}

impl From<std::io::Error> for ModuleError {
    fn from(err: std::io::Error) -> (error: Self) {
        Self::IOError(err)
    }
}

impl vstd::std_specs::convert::FromSpecImpl<std::io::Error> for ModuleError {
    open spec fn obeys_from_spec() -> bool {
        true
    }

    open spec fn from_spec(err: std::io::Error) -> Self {
        Self::IOError(err)
    }
}

impl From<std::str::Utf8Error> for ModuleError {
    fn from(err: std::str::Utf8Error) -> (error: Self) {
        Self::Utf8Error(err)
    }
}

impl vstd::std_specs::convert::FromSpecImpl<std::str::Utf8Error> for ModuleError {
    open spec fn obeys_from_spec() -> bool {
        true
    }

    open spec fn from_spec(err: std::str::Utf8Error) -> Self {
        Self::Utf8Error(err)
    }
}

/// The last component of a path, as `std::path::Path::file_name` gives it.
/// `None` for a path without one: the empty path, the root, a path that ends
/// in `..`.
pub uninterp spec fn file_name_of(path: Seq<char>) -> Option<Seq<char>>;

/// `std::path::Path::file_name`: the last component of the path, a function
/// of the path's text alone.
#[verifier::external_body]
fn file_name(path: &str) -> (name: Option<&str>)
    ensures
        file_name_of(path@) == match name {
            Some(n) => Some(n@),
            None => None,
        },
{
    std::path::Path::new(path).file_name().and_then(|name| name.to_str())
}

/// `std::path::Path::exists`: whether the path leads to something on this
/// machine, now.
#[verifier::external_body]
fn is_present(path: &str) -> bool {
    std::path::Path::new(path).exists()
}

/// How the schema of a module is to be had.
#[derive(Debug)]
pub enum SchemaRequest<'a> {
    /// The schema is known: here it is.
    Known(String),
    /// The schema is what `program` prints when it is run with `argument`.
    Ask { program: &'a str, argument: &'static str },
}

/// A module.
pub struct Module<'a> {
    /// The type of the module.
    kind: Kind,
    /// The path of the module
    path: &'a str,
    /// The name of the module, the filename part of the path.
    name: &'a str,
    /// The schema of the module, where it is known already.
    schema: Option<String>,
}

/// The mathematical value of a [`Module`].
pub struct ModuleView {
    pub kind: Kind,
    pub path: Seq<char>,
    pub name: Seq<char>,
    pub schema: Option<Seq<char>>,
}

impl<'a> View for Module<'a> {
    type V = ModuleView;

    closed spec fn view(&self) -> ModuleView {
        ModuleView {
            kind: self.kind,
            path: self.path@,
            name: self.name@,
            schema: match self.schema {
                Some(schema) => Some(schema@),
                None => None,
            },
        }
    }
}

impl<'a> Module<'a> {
    /// The module at `path`, given whether anything is there and what the
    /// path's last component is. Nothing there is `NoSuchPath`, a path
    /// without a last component `CantGetFilename`. The module's schema is not
    /// known yet.
    pub fn located(kind: Kind, path: &'a str, present: bool, name: Option<&'a str>) -> (module:
        Result<Module<'a>, ModuleError>)
        ensures
            match module {
                Ok(m) => present && name is Some && m@ == (ModuleView {
                    kind,
                    path: path@,
                    name: name->0@,
                    schema: None,
                }),
                Err(ModuleError::NoSuchPath) => !present,
                Err(ModuleError::CantGetFilename) => present && name is None,
                Err(_) => false,
            },
    {
        if !present {
            Err(ModuleError::NoSuchPath)
        } else {
            match name {
                Some(name) => Ok(Module { kind, path, name, schema: None }),
                None => Err(ModuleError::CantGetFilename),
            }
        }
    }

    /// The module at `path`, named by the last component of the path. It
    /// fails with `NoSuchPath` where nothing is at the path, and with
    /// `CantGetFilename` where the path has no last component.
    pub fn new(kind: Kind, path: &'a str) -> (module: Result<Module<'a>, ModuleError>)
        ensures
            match module {
                Ok(m) => file_name_of(path@) is Some && m@ == (ModuleView {
                    kind,
                    path: path@,
                    name: file_name_of(path@)->0,
                    schema: None,
                }),
                Err(ModuleError::NoSuchPath) => true,
                Err(ModuleError::CantGetFilename) => file_name_of(path@) is None,
                Err(_) => false,
            },
    {
        Module::located(kind, path, is_present(path), file_name(path))
    }

    /// The path of the module.
    pub fn path(&self) -> (path: &'a str)
        ensures
            path@ == self@.path,
    {
        self.path
    }

    /// How to get the schema of the module: it is known already, or the
    /// module is to be run with the argument `--schema` and asked for it.
    pub fn schema_request(&self) -> (request: SchemaRequest<'a>)
        ensures
            match request {
                SchemaRequest::Known(schema) => self@.schema == Some(schema@),
                SchemaRequest::Ask { program, argument } => self@.schema is None && program@
                    == self@.path && argument@ == "--schema"@,
            },
    {
        match &self.schema {
            Some(schema) => SchemaRequest::Known(schema.clone()),
            None => SchemaRequest::Ask { program: self.path, argument: "--schema" },
        }
    }

    /// The schema that a module printed: the text of its output. It fails
    /// with `Utf8Error` where the output is not UTF-8.
    pub fn schema_of_output(output: &[u8]) -> (schema: Result<String, ModuleError>)
        ensures
            match schema {
                Ok(s) => valid_utf8(output@) && s@ == decode_utf8(output@),
                Err(ModuleError::Utf8Error(_)) => !valid_utf8(output@),
                Err(_) => false,
            },
    {
        match text_of(output) {
            Ok(text) => Ok(String::from_str(text)),
            Err(error) => Err(ModuleError::from(error)),
        }
    }
}

/// The first of `modules` that is named `name`.
pub open spec fn first_named(modules: Seq<ModuleView>, name: Seq<char>) -> Option<ModuleView>
    decreases modules.len(),
{
    if modules.len() == 0 {
        None
    } else if modules.first().name == name {
        Some(modules.first())
    } else {
        first_named(modules.drop_first(), name)
    }
}

/// Those of `modules` that are of kind `kind`, in their order.
pub open spec fn of_kind(modules: Seq<ModuleView>, kind: Kind) -> Seq<ModuleView>
    decreases modules.len(),
{
    if modules.len() == 0 {
        Seq::empty()
    } else if modules.last().kind == kind {
        of_kind(modules.drop_last(), kind).push(modules.last())
    } else {
        of_kind(modules.drop_last(), kind)
    }
}

/// A registry of all available modules to osbuild.
pub struct Registry<'a> {
    modules: Vec<Module<'a>>,
}

impl<'a> View for Registry<'a> {
    type V = Seq<ModuleView>;

    closed spec fn view(&self) -> Seq<ModuleView> {
        Seq::new(self.modules@.len(), |i: int| self.modules@[i]@)
    }
}

impl<'a> Registry<'a> {
    /// Create a new registry
    pub fn new(modules: Vec<Module<'a>>) -> (registry: Registry<'a>)
        ensures
            registry@ == Seq::new(modules@.len(), |i: int| modules@[i]@),
    {
        Registry { modules }
    }

    /// Create a new empty registry
    pub fn new_empty() -> (registry: Self)
        ensures
            registry@ == Seq::<ModuleView>::empty(),
    {
        let registry = Self { modules: Vec::new() };
        assert(registry@ =~= Seq::<ModuleView>::empty());
        registry
    }

    /// Add the 'well-known' locations where `osbuild` modules might be
    /// located. None is looked at yet: the registry stays as it is.
    pub fn add_well_known(&mut self) -> (added: Result<(), RegistryError>)
        ensures
            added is Ok,
            final(self)@ == old(self)@,
    {
        Ok(())
    }

    /// Find a module by its name.
    pub fn by_name(&self, name: &str) -> (found: Option<&Module<'a>>)
        ensures
            match found {
                Some(module) => first_named(self@, name@) == Some(module@),
                None => first_named(self@, name@) is None,
            },
    {
        let mut i: usize = 0;
        assert(self@.skip(0) =~= self@);
        while i < self.modules.len()
            invariant
                i <= self.modules@.len(),
                first_named(self@, name@) == first_named(self@.skip(i as int), name@),
            decreases self.modules@.len() - i,
        {
            proof {
                let rest = self@.skip(i as int);
                assert(rest.first() == self.modules@[i as int]@);
                assert(rest.drop_first() =~= self@.skip(i + 1));
            }
            if same_text(self.modules[i].name, name) {
                return Some(&self.modules[i]);
            }
            i = i + 1;
        }
        None
    }

    /// Find modules by their kind.
    pub fn by_kind(&self, kind: Kind) -> (found: Option<Vec<&Module<'a>>>)
        ensures
            match found {
                Some(modules) => modules@.len() > 0 && Seq::new(
                    modules@.len(),
                    |i: int| modules@[i]@,
                ) == of_kind(self@, kind),
                None => of_kind(self@, kind).len() == 0,
            },
    {
        let mut modules: Vec<&Module<'a>> = Vec::new();
        let mut i: usize = 0;
        assert(self@.take(0) =~= Seq::<ModuleView>::empty());
        while i < self.modules.len()
            invariant
                i <= self.modules@.len(),
                Seq::new(modules@.len(), |j: int| modules@[j]@) == of_kind(self@.take(i as int), kind),
            decreases self.modules@.len() - i,
        {
            proof {
                let upto = self@.take(i + 1);
                assert(upto.last() == self.modules@[i as int]@);
                assert(upto.drop_last() =~= self@.take(i as int));
            }
            let ghost before = Seq::new(modules@.len(), |j: int| modules@[j]@);
            if self.modules[i].kind == kind {
                modules.push(&self.modules[i]);
                assert(Seq::new(modules@.len(), |j: int| modules@[j]@) =~= before.push(
                    self.modules@[i as int]@,
                ));
            }
            i = i + 1;
        }
        assert(self@.take(i as int) =~= self@);
        if modules.is_empty() {
            None
        } else {
            Some(modules)
        }
    }
}

} // verus!
