//! Version 1 of manifest descriptions.

use crate::manifest::{Manifest, ManifestError, Version};
use vstd::prelude::*;

verus! {

/// The description of a manifest in version 1 of the format. Nothing is
/// loaded from it yet.
pub struct ManifestDescription {}

impl ManifestDescription {
    fn load(&self) {
    }

    fn load_assembler(&self) {
    }

    fn load_build(&self) {
    }

    fn load_pipeline(&self) {
    }

    fn load_source(&self) {
    }

    fn load_stage(&self) {
    }
}

/// Describes a manifest in this version of the format.
pub fn describe(manifest: Manifest, with_id: bool) -> (described: Result<Manifest, ManifestError>)
    ensures
        described matches Ok(m) && m.version == Version::V1,
{
    Ok(Manifest { version: Version::V1 })
}

/// Validates a manifest against version 1 of the format. Nothing is
/// validated yet.
pub struct Validator {
    pub manifest: Manifest,
}

impl Validator {
    fn validate_module(&self) {
    }

    fn validate_pipeline(&self) {
    }

    fn validate_stage(&self) {
    }

    fn validate_stage_modules(&self) {
    }
}

} // verus!
