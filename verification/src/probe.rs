//! Trusted probes of the surrounding system: path existence and lookup of
//! tools on the search path. Their results depend on the machine, so their
//! contracts promise nothing about the values that come back.

use vstd::prelude::*;

verus! {

/// Relies on std::path::Path::exists: true when the path points at an
/// existing entity on disk.
#[verifier::external_body]
pub(crate) fn path_exists(path: &str) -> bool {
    std::path::Path::new(path).exists()
}

/// One directory entry, reduced to the plain values the library reads.
pub struct DirEntryInfo {
    /// The full path of the entry.
    pub path: String,
    /// The file name of the entry.
    pub name: String,
    /// Whether the entry is itself a directory.
    pub is_dir: bool,
}

/// Relies on walkdir::WalkDir at depth one: the entries directly under
/// `dir`, in filesystem enumeration order, each converted to its path, file
/// name and directory flag; the first enumeration failure is its message.
#[verifier::external_body]
pub(crate) fn list_dir(dir: &str) -> Result<Vec<DirEntryInfo>, String> {
    let mut out = Vec::new();
    for entry in walkdir::WalkDir::new(dir).min_depth(1).max_depth(1) {
        match entry {
            Ok(e) => out.push(DirEntryInfo {
                path: e.path().to_string_lossy().into_owned(),
                name: e.file_name().to_string_lossy().into_owned(),
                is_dir: e.file_type().is_dir(),
            }),
            Err(e) => return Err(format!("{}", e)),
        }
    }
    Ok(out)
}

} // verus!
