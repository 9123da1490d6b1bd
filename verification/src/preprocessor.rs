//! Preprocessing of manifests.

use vstd::prelude::*;

verus! {

/// What can go wrong when a manifest is preprocessed. Nothing can yet: the
/// type has no value.
#[derive(Debug)]
pub enum PreprocessorError {
    Never(std::convert::Infallible),
}

} // verus!
