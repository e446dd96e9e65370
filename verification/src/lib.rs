//! Build-time file generation helpers.
//!
//! A build script writes a string's content to a file under a build-scoped
//! output directory, and a later build phase reads that file's text back,
//! either as a string constant or as source text spliced into the program.
//!
//! The output directory is named by an environment variable that the build
//! system sets; both the generator and the reader resolve a relative file
//! name against it. `OutDir` models that directory and its generated files,
//! so that the write/read contract — exact round trip, overwrite on repeated
//! writes, fatal failure when the variable is unset or the file is missing —
//! is stated and checked here.

pub mod error;
pub mod laws;
pub mod out_dir;
pub mod paths;

pub use error::GenError;
pub use out_dir::OutDir;
pub use paths::join_path;
