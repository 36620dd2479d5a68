//! The error taxonomy of the command-line library: one variant per failure
//! kind, from wrong invocation directories to version-control failures.

use vstd::prelude::*;
use crate::text;

verus! {

/// Every failure the library reports.
#[derive(Debug)]
pub enum CliError {
    /// The invocation directory is neither a plugin directory nor a
    /// workspace root.
    InvalidInvocationContext,
    /// The package manifest lacks the package-name field; the payload
    /// names the manifest file.
    ManifestFieldMissing(String),
    /// The package manifest does not parse.
    ManifestMalformed,
    /// The named plugin crate does not exist under the workspace.
    TargetNotFound(String),
    /// A workspace-root invocation named no target plugin.
    TargetRequired,
    /// The package name is the reserved host-system crate identifier.
    ReservedPackageName,
    /// A required command-line tool is not installed.
    ToolMissing(String),
    /// The build tool exited with a failure; the payload is its error output.
    BuildFailed(String),
    /// No built library matching the package was found in the directory
    /// searched.
    ArtifactNotFound { directory: String, package: String },
    /// A version-control operation failed; the payload is its message.
    Vcs(String),
    /// Local and remote history have diverged; a manual merge is required.
    DivergedHistory,
    /// A file or directory operation failed.
    Filesystem(String),
    /// The plugin name is empty, starts with a separator, or holds a
    /// character outside letters, digits, underscore and hyphen.
    InvalidName(String),
}

/// `r` is Ok and holds exactly the string `expected`.
pub open spec fn ok_string(r: Result<String, CliError>, expected: Seq<char>) -> bool {
    r matches Ok(c) && c@ == expected
}

impl CliError {
    /// A human-readable description of the failure.
    pub fn message(&self) -> String {
        match self {
            CliError::InvalidInvocationContext => String::from_str(
                "Not in a plugin crate directory or Horizon repo root",
            ),
            CliError::ManifestFieldMissing(path) => text::concat3(
                "Cargo.toml missing [package] name field (",
                path.as_str(),
                ").",
            ),
            CliError::ManifestMalformed => String::from_str("Cargo.toml could not be parsed"),
            CliError::TargetNotFound(name) => text::concat3(
                "Plugin crate '",
                name.as_str(),
                "' not found in crates dir",
            ),
            CliError::TargetRequired => String::from_str(
                "--plugin argument required when in Horizon repo root",
            ),
            CliError::ReservedPackageName => String::from_str(
                "plugin_system is not a buildable plugin crate",
            ),
            CliError::ToolMissing(tool) => text::concat2(
                tool.as_str(),
                " is not installed or not available in PATH",
            ),
            CliError::BuildFailed(stderr) => text::concat2(
                "Cargo build failed:\n",
                stderr.as_str(),
            ),
            CliError::ArtifactNotFound { directory, package } => {
                let head = text::concat3(
                    "Could not find built plugin library in ",
                    directory.as_str(),
                    " for plugin ",
                );
                text::concat2(head.as_str(), package.as_str())
            },
            CliError::Vcs(msg) => msg.clone(),
            CliError::DivergedHistory => String::from_str(
                "Cannot fast-forward, manual merge required",
            ),
            CliError::Filesystem(msg) => msg.clone(),
            CliError::InvalidName(msg) => msg.clone(),
        }
    }
}

} // verus!
