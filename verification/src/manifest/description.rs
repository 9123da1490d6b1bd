//! Descriptions of manifests, one module for each version of the format, and
//! the errors that validating a description reports.

/// Version 1 of the manifest description. This is the first version of the
/// osbuild manifest description, that has a main pipeline that consists of
/// zero or more stages to create a tree and optionally one assembler that
/// assembles the created tree into an artefact. The pipeline can have any
/// number of nested build pipelines. A sources section is used to fetch
/// resources. This version is *DEPRECATED*.
pub mod v1;

/// Version 2 of manifest descriptions, this version is current.
pub mod v2;
pub mod validation;

use crate::manifest::path::{append_index, append_name, parts_text, path_text, PartView};
use vstd::prelude::*;
use vstd::string::*;

verus! {

/// What can go wrong with a description. Nothing can yet: the type has no
/// value.
#[derive(Debug)]
pub enum ManifestDescriptionError {
    Never(std::convert::Infallible),
}

/// One step on the way to what a validation error is about.
pub enum ValidationPath {
    Name(String),
    Index(usize),
}

impl View for ValidationPath {
    type V = PartView;

    open spec fn view(&self) -> PartView {
        match self {
            ValidationPath::Name(name) => PartView::Name(name@),
            ValidationPath::Index(index) => PartView::Index(*index as nat),
        }
    }
}

/// Describes a single failed validation. Consists of a `message` describing
/// the error and a `path` that points to the thing that caused the error.
pub struct ValidationError {
    pub message: String,
    pub path: Vec<ValidationPath>,
}

/// The mathematical value of a [`ValidationError`].
pub struct ValidationErrorView {
    pub message: Seq<char>,
    pub path: Seq<PartView>,
}

impl View for ValidationError {
    type V = ValidationErrorView;

    open spec fn view(&self) -> ValidationErrorView {
        ValidationErrorView {
            message: self.message@,
            path: Seq::new(self.path@.len(), |i: int| self.path@[i]@),
        }
    }
}

impl ValidationError {
    /// The id of the error: a dotted and subscripted string that points to the
    /// element that the error is about, `.` for the root. It always succeeds.
    pub fn id(self) -> (id: Result<String, ManifestDescriptionError>)
        ensures
            id matches Ok(text) && text@ == path_text(self@.path),
    {
        proof {
            reveal_strlit(".");
        }
        if self.path.is_empty() {
            return Ok(String::from_str("."));
        }
        let ghost steps = self@.path;
        let mut result = String::new();
        let mut i: usize = 0;
        while i < self.path.len()
            invariant
                i <= self.path@.len(),
                steps == self@.path,
                result@ == parts_text(steps.take(i as int)),
            decreases self.path@.len() - i,
        {
            match &self.path[i] {
                ValidationPath::Name(name) => append_name(&mut result, name.as_str()),
                ValidationPath::Index(index) => append_index(&mut result, *index),
            }
            proof {
                let next = steps.take(i + 1);
                assert(next.drop_last() =~= steps.take(i as int));
                assert(next.last() == self.path@[i as int]@);
            }
            i = i + 1;
        }
        assert(steps.take(i as int) =~= steps);
        Ok(result)
    }
}

/// The errors that validating a description found, and what was validated.
pub struct ValidationResult {
    pub origin: Option<String>,
    pub errors: Vec<ValidationError>,
}

/// The mathematical value of a [`ValidationResult`].
pub struct ValidationResultView {
    pub origin: Option<Seq<char>>,
    pub errors: Seq<ValidationErrorView>,
}

impl View for ValidationResult {
    type V = ValidationResultView;

    open spec fn view(&self) -> ValidationResultView {
        ValidationResultView {
            origin: match self.origin {
                Some(origin) => Some(origin@),
                None => None,
            },
            errors: Seq::new(self.errors@.len(), |i: int| self.errors@[i]@),
        }
    }
}

impl ValidationResult {
    /// Add a `ValidationError` to the set of errors
    pub fn add(&mut self, error: ValidationError)
        ensures
            final(self)@.origin == old(self)@.origin,
            final(self)@.errors == old(self)@.errors.push(error@),
    {
        self.errors.push(error);
        assert(self@.errors =~= old(self)@.errors.push(error@));
    }

    /// Add a new `ValidationError` with `message` as message
    pub fn fail(&mut self, message: String)
        ensures
            final(self)@.origin == old(self)@.origin,
            final(self)@.errors == old(self)@.errors.push(
                ValidationErrorView { message: message@, path: Seq::empty() },
            ),
    {
        let error = ValidationError { message, path: Vec::new() };
        assert(error@.path =~= Seq::<PartView>::empty());
        self.add(error);
    }

    /// Merge all errors of `result` into this `ValidationResult`. The errors
    /// keep their paths: `path` is not applied to them.
    pub fn merge(&mut self, result: ValidationResult, path: Vec<ValidationPath>)
        ensures
            final(self)@.origin == old(self)@.origin,
            final(self)@.errors == old(self)@.errors + result@.errors,
    {
        let mut errors = result.errors;
        self.errors.append(&mut errors);
        assert(self@.errors =~= old(self)@.errors + result@.errors);
    }
}

impl From<ValidationResult> for bool {
    fn from(object: ValidationResult) -> (valid: bool) {
        object.errors.is_empty()
    }
}

impl vstd::std_specs::convert::FromSpecImpl<ValidationResult> for bool {
    open spec fn obeys_from_spec() -> bool {
        true
    }

    open spec fn from_spec(object: ValidationResult) -> bool {
        object@.errors.len() == 0
    }
}

} // verus!
