//! Manifests: the pipeline descriptions that `osbuild` executes.

/// Manifests are described in JSON, this module provides functions and
/// objects to parse those JSON descriptions into manifests.
pub mod description;
pub mod meta;
pub mod path;
pub mod validate;

use vstd::prelude::*;

verus! {

/// What can go wrong with a manifest. Nothing can yet: the type has no value.
#[derive(Debug)]
pub enum ManifestError {
    Never(std::convert::Infallible),
}

/// The version of the description that a manifest was read from.
#[derive(Debug, Clone, Copy, PartialEq, Eq, Structural)]
pub enum Version {
    V1,
    V2,
}

/// A manifest: so far, the version of the description it was read from.
pub struct Manifest {
    pub version: Version,
}

/// Validates a manifest.
pub struct Validator {
    pub manifest: Manifest,
}

} // verus!
