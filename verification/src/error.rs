//! The launch error taxonomy. Every error is fatal to the launch: nothing is
//! recovered locally, and the caller reports the error and exits non-zero.
use vstd::prelude::*;

verus! {

/// Everything that can end a launch before the process image is replaced.
#[derive(Debug, Clone)]
pub enum LaunchError {
    /// The script bytes were not valid UTF-8 text.
    ScriptEncoding,
    /// No begin marker was found (the captured text is empty), or the
    /// captured text is not a well-formed configuration document. Carries the
    /// offending text.
    ConfigSyntax { text: String },
    /// A required configuration field is absent.
    MissingField { field: String },
    /// A configuration field holds a value of the wrong kind.
    FieldType { field: String },
    /// The build-mode selection value is not one of the recognized ones.
    /// Carries the offending value.
    BuildModeConfig { value: String },
    /// The build service failed for the script at the carried path.
    BuildFailure { script: String },
    /// The configured target binary could not be resolved inside the cache
    /// directory after a successful build. Carries the attempted path.
    ArtifactNotFound { path: String },
    /// The operating system could not replace the process image with the
    /// carried binary.
    ExecFailed { binary: String },
}

} // verus!
