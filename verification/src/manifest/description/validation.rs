//! The errors that validating a description reports.

use crate::manifest::path::{path_text, PartView, Path};
use vstd::prelude::*;
use vstd::string::*;

verus! {

/// Describes a single failed validation. Consists of a `message` describing
/// the error and a `path` that points to the thing that caused the error.
pub struct Failure {
    pub message: String,
    pub path: Path,
}

/// The mathematical value of a [`Failure`].
pub struct FailureView {
    pub message: Seq<char>,
    pub path: Seq<PartView>,
}

impl View for Failure {
    type V = FailureView;

    open spec fn view(&self) -> FailureView {
        FailureView { message: self.message@, path: self.path@ }
    }
}

impl Failure {
    /// Calculate the id of a failure, this is a dotted and subscripted string
    /// that points to the element in the Manifest that triggered the error
    /// message.
    pub fn id(self) -> (id: String)
        ensures
            id@ == path_text(self.path@),
    {
        self.path.to_string()
    }
}

/// The errors that a validation found.
pub struct Result {
    errors: Vec<Failure>,
}

impl View for Result {
    type V = Seq<FailureView>;

    closed spec fn view(&self) -> Seq<FailureView> {
        Seq::new(self.errors@.len(), |i: int| self.errors@[i]@)
    }
}

impl Result {
    /// A result without errors.
    pub fn new() -> (result: Self)
        ensures
            result@ == Seq::<FailureView>::empty(),
    {
        let result = Self { errors: Vec::new() };
        assert(result@ =~= Seq::<FailureView>::empty());
        result
    }

    /// Add a `Failure` to the set of errors
    pub fn add_error(&mut self, error: Failure)
        ensures
            final(self)@ == old(self)@.push(error@),
    {
        self.errors.push(error);
        assert(self@ =~= old(self)@.push(error@));
    }
}

impl From<Result> for bool {
    fn from(object: Result) -> (valid: bool) {
        object.errors.is_empty()
    }
}

impl vstd::std_specs::convert::FromSpecImpl<Result> for bool {
    open spec fn obeys_from_spec() -> bool {
        true
    }

    open spec fn from_spec(object: Result) -> bool {
        object@.len() == 0
    }
}

} // verus!
