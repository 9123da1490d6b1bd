//! The schema of a module, as the manifest's meta information holds it.

use crate::manifest::validate::{failure, missing_schema_message, ValidationErrorView, ValidationResult};
use vstd::prelude::*;
use vstd::string::*;

verus! {

/// What is known of the schema of a module.
pub struct Schema {
    pub name: Option<String>,
    pub data: Option<String>,
}

impl Schema {
    /// Checks the schema: one without data gets one error, at the root. The
    /// schema must have a name.
    pub fn check(self) -> (result: ValidationResult)
        requires
            self.name is Some,
        ensures
            result@.origin == Some(self.name->0@),
            result@.errors == if self.data is Some {
                Seq::<ValidationErrorView>::empty()
            } else {
                seq![failure(missing_schema_message())]
            },
    {
        let no_data = self.data.is_none();
        let mut result = ValidationResult::new(self.name.unwrap());

        if no_data {
            result.fail(String::from_str("could not find schema information"));
            assert(result@.errors =~= seq![failure(missing_schema_message())]);
        }
        result
    }

    /// Validates `target` against this schema: nothing is checked yet, so the
    /// result holds no error. The schema must have a name.
    pub fn validate(self, target: Schema) -> (result: ValidationResult)
        requires
            self.name is Some,
        ensures
            result@.origin == Some(self.name->0@),
            result@.errors == Seq::<ValidationErrorView>::empty(),
    {
        ValidationResult::new(self.name.unwrap())
    }
}

} // verus!
