//! Version 2 of manifest descriptions.

use crate::manifest::{Manifest, ManifestError, Version};
use vstd::prelude::*;

verus! {

/// The description of a manifest in version 2 of the format. Nothing is
/// loaded from it yet.
pub struct ManifestDescription {}

impl ManifestDescription {
    fn load(&self) {
    }

    fn load_device(&self) {
    }

    fn load_input(&self) {
    }

    fn load_mount(&self) {
    }

    fn load_pipeline(&self) {
    }

    fn load_stage(&self) {
    }
}

/// The description of a device.
pub struct DeviceDescription {}

/// The description of an input.
pub struct InputDescription {}

/// The description of a mount.
pub struct MountDescription {}

/// The description of a stage.
pub struct StageDescription {}

/// The description of a pipeline.
pub struct PipelineDescription {}

/// Describes a manifest in this version of the format.
pub fn describe(manifest: Manifest, with_id: bool) -> (described: Result<Manifest, ManifestError>)
    ensures
        described matches Ok(m) && m.version == Version::V2,
{
    Ok(Manifest { version: Version::V2 })
}

/// Validates a manifest against version 2 of the format. Nothing is
/// validated yet.
pub struct Validator {
    pub manifest: Manifest,
}

impl Validator {
    fn validate_module(&self) {
    }

    fn validate_pipeline(&self) {
    }

    fn validate_stage(&self) {
    }

    fn validate_stage_modules(&self) {
    }
}

} // verus!
