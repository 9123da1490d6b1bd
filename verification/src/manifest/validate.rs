//! Validation results: the errors that checking a manifest or a schema found.

use crate::manifest::path::{path_text, PartView, Path};
use vstd::prelude::*;
use vstd::string::*;

verus! {

/// Describes a single failed validation. Consists of a `message` describing
/// the error and a `path` that points to the thing that caused the error.
pub struct ValidationError {
    pub message: String,
    pub path: Path,
}

/// The mathematical value of a [`ValidationError`].
pub struct ValidationErrorView {
    pub message: Seq<char>,
    pub path: Seq<PartView>,
}

impl View for ValidationError {
    type V = ValidationErrorView;

    open spec fn view(&self) -> ValidationErrorView {
        ValidationErrorView { message: self.message@, path: self.path@ }
    }
}

impl ValidationError {
    /// Calculate the id of a ValidationError, this is a dotted and subscripted
    /// string that points to the element in the Manifest that triggered the
    /// error message.
    pub fn id(self) -> (id: String)
        ensures
            id@ == path_text(self.path@),
    {
        self.path.to_string()
    }
}

/// The errors that a validation found, and what was validated.
pub struct ValidationResult {
    origin: Option<String>,
    errors: Vec<ValidationError>,
}

/// The mathematical value of a [`ValidationResult`].
pub struct ValidationResultView {
    pub origin: Option<Seq<char>>,
    pub errors: Seq<ValidationErrorView>,
}

impl View for ValidationResult {
    type V = ValidationResultView;

    closed spec fn view(&self) -> ValidationResultView {
        ValidationResultView {
            origin: match self.origin {
                Some(origin) => Some(origin@),
                None => None,
            },
            errors: Seq::new(self.errors@.len(), |i: int| self.errors@[i]@),
        }
    }
}

/// The error that a bare message stands for: it points at the root.
pub open spec fn failure(message: Seq<char>) -> ValidationErrorView {
    ValidationErrorView { message, path: Seq::empty() }
}

impl ValidationResult {
    /// A result without errors for what `origin` names.
    pub fn new(origin: String) -> (result: Self)
        ensures
            result@.origin == Some(origin@),
            result@.errors == Seq::<ValidationErrorView>::empty(),
    {
        let result = Self { origin: Some(origin), errors: Vec::new() };
        assert(result@.errors =~= Seq::<ValidationErrorView>::empty());
        result
    }

    /// Add a `ValidationError` to the set of errors
    pub fn add(&mut self, error: ValidationError)
        ensures
            final(self)@.origin == old(self)@.origin,
            final(self)@.errors == old(self)@.errors.push(error@),
    {
        self.errors.push(error);
        assert(self@.errors =~= old(self)@.errors.push(error@));
    }

    /// Add a new `ValidationError` with `message` as message
    pub fn fail(&mut self, message: String)
        ensures
            final(self)@.origin == old(self)@.origin,
            final(self)@.errors == old(self)@.errors.push(failure(message@)),
    {
        let error = ValidationError { message, path: Path(Vec::new()) };
        assert(error@.path =~= Seq::<PartView>::empty());
        self.add(error);
    }

    /// Merge all errors of `result` into this `ValidationResult`. The errors
    /// keep their paths: `path` is not applied to them.
    pub fn merge(&mut self, result: ValidationResult, path: Vec<Path>)
        ensures
            final(self)@.origin == old(self)@.origin,
            final(self)@.errors == old(self)@.errors + result@.errors,
    {
        let mut errors = result.errors;
        self.errors.append(&mut errors);
        assert(self@.errors =~= old(self)@.errors + result@.errors);
    }
}

impl From<ValidationResult> for bool {
    fn from(object: ValidationResult) -> (valid: bool) {
        object.errors.is_empty()
    }
}

impl vstd::std_specs::convert::FromSpecImpl<ValidationResult> for bool {
    open spec fn obeys_from_spec() -> bool {
        true
    }

    open spec fn from_spec(object: ValidationResult) -> bool {
        object@.errors.len() == 0
    }
}

/// What is known of the schema of a module.
pub struct Schema {
    pub name: Option<String>,
    pub data: Option<String>,
}

/// The message of the error that a schema without data gets.
pub open spec fn missing_schema_message() -> Seq<char> {
    "could not find schema information"@
}

impl Schema {
    /// A schema of the given name and data.
    pub fn new(name: Option<String>, data: Option<String>) -> (schema: Self)
        ensures
            schema.name == name,
            schema.data == data,
    {
        Self { name, data }
    }

    /// Whether the schema holds data. The schema must have a name.
    pub fn is_valid(self) -> (valid: bool)
        requires
            self.name is Some,
        ensures
            valid == (self.data is Some),
    {
        let no_data = self.data.is_none();
        let mut result = ValidationResult::new(self.name.unwrap());

        if no_data {
            result.fail(String::from_str("could not find schema information"));
        }
        result.into()
    }

    /// Validates `target` against this schema: nothing is checked yet, so the
    /// result holds no error. The schema must have a name.
    pub fn validate(self, target: Schema) -> (result: ValidationResult)
        requires
            self.name is Some,
        ensures
            result@.origin == Some(self.name->0@),
            result@.errors == Seq::<ValidationErrorView>::empty(),
    {
        ValidationResult::new(self.name.unwrap())
    }
}

} // verus!
