//! The build workspace: which files it holds, what goes into them, and how
//! the compiler is called in it.

use crate::manifest::{manifest, manifest_of, ManifestError, FIXED_NAME};
use crate::script::{split, split_script, FrontmatterError, Parts};
use vstd::prelude::*;

verus! {

/// Name of the manifest file, at the root of the workspace.
pub const MANIFEST_FILE: &'static str = "Cargo.toml";

/// Name of the directory that holds the program source.
pub const SOURCE_DIR: &'static str = "src";

/// Name of the program source file, inside the source directory.
pub const SOURCE_FILE: &'static str = "main.rs";

/// The program that compiles a workspace.
pub const COMPILER: &'static str = "cargo";

/// Name under which an artifact is kept: that of the file the compiler
/// leaves, which it names after the package, and of the file a cached
/// artifact is copied to.
pub const ARTIFACT_FILE: &'static str = FIXED_NAME;

/// The arguments with which the compiler is called: a release build with
/// coloured diagnostics.
pub fn compiler_arguments() -> (arguments: Vec<&'static str>)
    ensures
        arguments@.len() == 4,
        arguments@[0]@ == "--color"@,
        arguments@[1]@ == "always"@,
        arguments@[2]@ == "build"@,
        arguments@[3]@ == "--release"@,
{
    vec!["--color", "always", "build", "--release"]
}

/// Where the compiler leaves the artifact, as the names of the path from the
/// root of the workspace.
pub fn artifact_path() -> (path: Vec<&'static str>)
    ensures
        path@.len() == 3,
        path@[0]@ == "target"@,
        path@[1]@ == "release"@,
        path@[2]@ == ARTIFACT_FILE@,
{
    vec!["target", "release", ARTIFACT_FILE]
}

/// Why a script cannot be built.
#[derive(Clone, Copy, Debug, PartialEq, Eq, Structural)]
pub enum StageError {
    /// The script could not be split into configuration and source.
    Frontmatter(FrontmatterError),
    /// No manifest could be derived from the configuration.
    Manifest(ManifestError),
}

/// The contents of a workspace's two files, as text.
pub struct Files {
    /// The manifest.
    pub manifest: Seq<char>,
    /// The program source.
    pub source: Seq<char>,
}

/// The contents of a workspace's two files.
#[derive(Clone, Debug, PartialEq, Eq)]
pub struct Workspace {
    /// The manifest.
    pub manifest: String,
    /// The program source.
    pub source: String,
}

impl View for Workspace {
    type V = Files;

    open spec fn view(&self) -> Files {
        Files { manifest: self.manifest@, source: self.source@ }
    }
}

/// The files for a script with these parts.
pub open spec fn files_for(parts: Parts) -> Result<Files, StageError> {
    match manifest_of(parts.frontmatter) {
        Ok(text) => Ok(Files { manifest: text, source: parts.body }),
        Err(e) => Err(StageError::Manifest(e)),
    }
}

/// The files for the script `text`: the manifest derived from its
/// frontmatter, and its body as the program source. A script that cannot be
/// split is rejected before its configuration is looked at.
pub open spec fn staged(text: Seq<char>) -> Result<Files, StageError> {
    match split(text) {
        Ok(parts) => files_for(parts),
        Err(e) => Err(StageError::Frontmatter(e)),
    }
}

/// Works out what to write into the workspace for a script.
pub fn stage(text: &str) -> (r: Result<Workspace, StageError>)
    ensures
        match r {
            Ok(workspace) => staged(text@) == Ok::<Files, StageError>(workspace@),
            Err(e) => staged(text@) == Err::<Files, StageError>(e),
        },
{
    let script = match split_script(text) {
        Ok(script) => script,
        Err(e) => {
            return Err(StageError::Frontmatter(e));
        },
    };
    match manifest(script.frontmatter.as_str()) {
        Ok(text) => Ok(Workspace { manifest: text, source: script.body }),
        Err(e) => Err(StageError::Manifest(e)),
    }
}

} // verus!
