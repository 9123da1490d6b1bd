//! Primitives for implementing modules of `osbuild`, a pipeline-based build
//! system for operating system artifacts.

/// Communication tasks
pub mod communication;

/// Manifest tasks
pub mod manifest;

/// Modules such as assemblers, sources, or stages, and the registry of those
/// that are available.
pub mod module;

/// Preprocessor tasks, providing all functionality of the `osbuild-mpp`
/// executable.
pub mod preprocessor;
pub mod text;
