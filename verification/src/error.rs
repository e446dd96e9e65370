//! The failures that the generator and the readers surface.

use vstd::prelude::*;

verus! {

/// Why resolving or reading a generated file failed.
///
/// Every failure is fatal to the enclosing build step: nothing here is
/// caught or retried, so that partial or missing generated output never
/// silently enters the compiled artifact.
#[derive(Clone, Copy, Debug, PartialEq, Eq, Structural)]
pub enum GenError {
    /// The environment variable naming the build-output directory is unset:
    /// a configuration error, reported before any filesystem access.
    MissingOutDir,
    /// No generated file exists under the requested name: the generator was
    /// never run for it, or was run under a different name.
    MissingFile,
}

} // verus!
