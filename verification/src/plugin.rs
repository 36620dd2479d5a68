//! The plugin build pipeline: invocation-context classification, target
//! resolution, the build verdict, platform-specific artifact location and
//! the deployment plan. The caller performs the file reads, the build
//! subprocess and the copy; every decision between those steps lives here.

use vstd::prelude::*;
use crate::errors::{ok_string, CliError};
use crate::probe;
use crate::probe::DirEntryInfo;
use crate::text;
use crate::text::{after_last_slash, contains_seq, has_dot_extension, is_prefix_of};

verus! {

/// What kind of directory the command was invoked in.
#[derive(Debug, Clone, Copy, PartialEq, Eq, Structural)]
pub enum InvocationContext {
    /// A single plugin crate directory: it has a manifest and its name
    /// carries the plugin namespace prefix.
    PluginDirectory,
    /// A workspace root: it has a `crates` subdirectory.
    WorkspaceRoot,
}

/// The kind of build target that was resolved.
#[derive(Debug, Clone, Copy, PartialEq, Eq, Structural)]
pub enum TargetKind {
    SinglePluginDir,
    WorkspaceMember,
}

/// A resolved build target: where to build and which package to look for.
#[derive(Debug)]
pub struct BuildTarget {
    pub kind: TargetKind,
    pub source_dir: String,
    pub package_name: String,
}

/// Classifies the invocation directory: a plugin directory wins over a
/// workspace root, and a directory that is neither is rejected.
pub fn classify_invocation(has_manifest: bool, dir_name: &str, has_crates_dir: bool) -> (r:
    Result<InvocationContext, CliError>)
    ensures
        (has_manifest && is_prefix_of("plugin_"@, dir_name@)) ==> r matches Ok(
            InvocationContext::PluginDirectory,
        ),
        (!(has_manifest && is_prefix_of("plugin_"@, dir_name@)) && has_crates_dir) ==> r
            matches Ok(InvocationContext::WorkspaceRoot),
        (!(has_manifest && is_prefix_of("plugin_"@, dir_name@)) && !has_crates_dir) ==> r
            matches Err(CliError::InvalidInvocationContext),
{
    if has_manifest && text::starts_with(dir_name, "plugin_") {
        Ok(InvocationContext::PluginDirectory)
    } else if has_crates_dir {
        Ok(InvocationContext::WorkspaceRoot)
    } else {
        Err(CliError::InvalidInvocationContext)
    }
}

/// The release build-output directory under a build root.
pub fn release_target_dir(root: &str) -> (r: String)
    ensures
        r@ == root@ + "/"@ + "target/release"@,
{
    text::join_path(root, "target/release")
}

/// The identifier with the plugin namespace prefix prepended when missing.
pub open spec fn normalized_identifier(arg: Seq<char>) -> Seq<char> {
    if is_prefix_of("plugin_"@, arg) {
        arg
    } else {
        "plugin_"@ + arg
    }
}

/// Computes `normalized_identifier`.
pub fn normalize_plugin_identifier(arg: &str) -> (r: String)
    ensures
        r@ == normalized_identifier(arg@),
{
    if text::starts_with(arg, "plugin_") {
        String::from_str(arg)
    } else {
        text::concat2("plugin_", arg)
    }
}

/// `r` resolves to a target of the given kind, source directory and
/// package name.
pub open spec fn resolved_target(
    r: Result<BuildTarget, CliError>,
    kind: TargetKind,
    dir: Seq<char>,
    pkg: Seq<char>,
) -> bool {
    r matches Ok(t) && t.kind == kind && t.source_dir@ == dir && t.package_name@ == pkg
}

/// `r` is the target-not-found failure naming `candidate`.
pub open spec fn err_target_not_found(
    r: Result<BuildTarget, CliError>,
    candidate: Seq<char>,
) -> bool {
    r matches Err(e) && e matches CliError::TargetNotFound(n) && n@ == candidate
}

/// `r` is the missing-package-name failure naming the manifest file.
pub open spec fn err_manifest_field_missing(
    r: Result<BuildTarget, CliError>,
    manifest_path: Seq<char>,
) -> bool {
    r matches Err(e) && e matches CliError::ManifestFieldMissing(p) && p@ == manifest_path
}

/// Resolves a single-plugin-directory invocation from the manifest's
/// package name; a missing name is rejected naming the manifest file, and
/// the reserved host crate is rejected.
pub fn resolve_single_plugin(source_dir: &str, manifest_name: &Option<String>) -> (r: Result<
    BuildTarget,
    CliError,
>)
    ensures
        manifest_name is None ==> err_manifest_field_missing(
            r,
            source_dir@ + "/"@ + "Cargo.toml"@,
        ),
        manifest_name is Some && manifest_name->Some_0@ == "plugin_system"@ ==> r matches Err(
            CliError::ReservedPackageName,
        ),
        manifest_name is Some && manifest_name->Some_0@ != "plugin_system"@ ==> resolved_target(
            r,
            TargetKind::SinglePluginDir,
            source_dir@,
            manifest_name->Some_0@,
        ),
{
    match manifest_name {
        None => Err(CliError::ManifestFieldMissing(text::join_path(source_dir, "Cargo.toml"))),
        Some(name) => {
            if text::str_eq(name.as_str(), "plugin_system") {
                Err(CliError::ReservedPackageName)
            } else {
                Ok(BuildTarget {
                    kind: TargetKind::SinglePluginDir,
                    source_dir: String::from_str(source_dir),
                    package_name: name.clone(),
                })
            }
        },
    }
}

/// The normalized crate name for a workspace-root invocation: demands an
/// explicit target and rejects the reserved host crate.
pub fn workspace_candidate(plugin_arg: &Option<String>) -> (r: Result<String, CliError>)
    ensures
        plugin_arg is None ==> r matches Err(CliError::TargetRequired),
        plugin_arg is Some && normalized_identifier(plugin_arg->Some_0@) == "plugin_system"@
            ==> r matches Err(CliError::ReservedPackageName),
        plugin_arg is Some && normalized_identifier(plugin_arg->Some_0@) != "plugin_system"@
            ==> ok_string(r, normalized_identifier(plugin_arg->Some_0@)),
{
    match plugin_arg {
        None => Err(CliError::TargetRequired),
        Some(arg) => {
            let candidate = normalize_plugin_identifier(arg.as_str());
            if text::str_eq(candidate.as_str(), "plugin_system") {
                Err(CliError::ReservedPackageName)
            } else {
                Ok(candidate)
            }
        },
    }
}

/// Resolves a workspace-member target once the caller has probed whether
/// the crate directory exists and read its manifest's package name.
pub fn resolve_workspace_member(
    crate_dir: &str,
    candidate: &str,
    crate_dir_exists: bool,
    manifest_name: &Option<String>,
) -> (r: Result<BuildTarget, CliError>)
    ensures
        !crate_dir_exists ==> err_target_not_found(r, candidate@),
        crate_dir_exists && manifest_name is None ==> err_manifest_field_missing(
            r,
            crate_dir@ + "/"@ + "Cargo.toml"@,
        ),
        crate_dir_exists && manifest_name is Some && manifest_name->Some_0@
            == "plugin_system"@ ==> r matches Err(CliError::ReservedPackageName),
        crate_dir_exists && manifest_name is Some && manifest_name->Some_0@
            != "plugin_system"@ ==> resolved_target(
            r,
            TargetKind::WorkspaceMember,
            crate_dir@,
            manifest_name->Some_0@,
        ),
{
    if !crate_dir_exists {
        return Err(CliError::TargetNotFound(String::from_str(candidate)));
    }
    match manifest_name {
        None => Err(CliError::ManifestFieldMissing(text::join_path(crate_dir, "Cargo.toml"))),
        Some(name) => {
            if text::str_eq(name.as_str(), "plugin_system") {
                Err(CliError::ReservedPackageName)
            } else {
                Ok(BuildTarget {
                    kind: TargetKind::WorkspaceMember,
                    source_dir: String::from_str(crate_dir),
                    package_name: name.clone(),
                })
            }
        },
    }
}

/// The build verdict from the build tool's exit: Ok exactly on success,
/// otherwise the captured error output verbatim.
pub fn build_outcome(success: bool, stderr: &str) -> (r: Result<(), CliError>)
    ensures
        success ==> r is Ok,
        !success ==> (r matches Err(e) && e matches CliError::BuildFailed(t) && t@ == stderr@),
{
    if success {
        Ok(())
    } else {
        Err(CliError::BuildFailed(String::from_str(stderr)))
    }
}

/// Whether a manifest text declares a workspace.
pub fn is_workspace_manifest(content: &str) -> (r: bool)
    ensures
        r == contains_seq(content@, "[workspace]"@),
{
    text::contains(content, "[workspace]")
}

/// An ancestor's manifest text that declares a workspace.
pub open spec fn is_workspace_entry(entry: Option<String>) -> bool {
    entry matches Some(c) && contains_seq(c@, "[workspace]"@)
}

/// The nearest ancestor whose manifest declares a workspace: `manifests`
/// holds the ancestors' manifest texts nearest-first, None for an ancestor
/// without a manifest; the result is the first workspace declaration.
pub fn find_workspace_root(manifests: &Vec<Option<String>>) -> (r: Option<usize>)
    ensures
        r matches Some(i) ==> i < manifests@.len() && is_workspace_entry(manifests@[i as int])
            && (forall|j: int| 0 <= j < i ==> !is_workspace_entry(manifests@[j])),
        r is None ==> forall|j: int| 0 <= j < manifests@.len() ==> !is_workspace_entry(
            manifests@[j],
        ),
{
    let mut i: usize = 0;
    while i < manifests.len()
        invariant
            0 <= i <= manifests@.len(),
            forall|j: int| 0 <= j < i ==> !is_workspace_entry(manifests@[j]),
        decreases manifests.len() - i,
    {
        match &manifests[i] {
            Some(content) => {
                if is_workspace_manifest(content.as_str()) {
                    return Some(i);
                }
            },
            None => (),
        }
        i += 1;
    }
    None
}

/// A target operating system, as far as the artifact extension goes.
#[derive(Debug, Clone, Copy, PartialEq, Eq, Structural)]
pub enum Platform {
    Windows,
    MacOs,
    Linux,
}

/// The dynamic-library extension of a platform.
pub fn platform_extension(platform: Platform) -> (r: &'static str)
    ensures
        platform == Platform::Windows ==> r@ == "dll"@,
        platform == Platform::MacOs ==> r@ == "dylib"@,
        platform == Platform::Linux ==> r@ == "so"@,
{
    match platform {
        Platform::Windows => "dll",
        Platform::MacOs => "dylib",
        Platform::Linux => "so",
    }
}

/// The artifact-name heuristic: the file carries the platform extension
/// and its name either starts with the package name, or starts with the
/// plugin namespace prefix and holds the package name somewhere (the
/// name-mangling fallback).
pub open spec fn artifact_name_matches(name: Seq<char>, pkg: Seq<char>, ext: Seq<char>) -> bool {
    has_dot_extension(name, ext) && (is_prefix_of(pkg, name) || (is_prefix_of("plugin_"@, name)
        && contains_seq(name, pkg)))
}

/// Decides `artifact_name_matches` for one file name.
pub fn artifact_matches(name: &str, pkg: &str, ext: &str) -> (r: bool)
    ensures
        r == artifact_name_matches(name@, pkg@, ext@),
{
    text::name_has_extension(name, ext) && (text::starts_with(name, pkg) || (text::starts_with(
        name,
        "plugin_",
    ) && text::contains(name, pkg)))
}

/// What a correct selection is: the first entry whose name matches, or
/// None when no name matches.
pub open spec fn selection_ok(
    names: Seq<Seq<char>>,
    pkg: Seq<char>,
    ext: Seq<char>,
    r: Option<int>,
) -> bool {
    match r {
        Some(i) => 0 <= i < names.len() && artifact_name_matches(names[i], pkg, ext) && (forall|
            j: int,
        |
            0 <= j < i ==> !artifact_name_matches(names[j], pkg, ext)),
        None => forall|j: int| 0 <= j < names.len() ==> !artifact_name_matches(names[j], pkg, ext),
    }
}

/// The locator is deterministic: any two selections that are first matches
/// of the same directory listing are the same selection. Repeated
/// invocations on a fixed listing therefore return the same path.
pub proof fn lemma_selection_deterministic(
    names: Seq<Seq<char>>,
    pkg: Seq<char>,
    ext: Seq<char>,
    r1: Option<int>,
    r2: Option<int>,
)
    requires
        selection_ok(names, pkg, ext, r1),
        selection_ok(names, pkg, ext, r2),
    ensures
        r1 == r2,
{
    match (r1, r2) {
        (Some(i1), Some(i2)) => {
            if i1 < i2 {
                assert(!artifact_name_matches(names[i1], pkg, ext));
            } else if i2 < i1 {
                assert(!artifact_name_matches(names[i2], pkg, ext));
            }
        },
        (Some(i1), None) => {
            assert(!artifact_name_matches(names[i1], pkg, ext));
        },
        (None, Some(i2)) => {
            assert(!artifact_name_matches(names[i2], pkg, ext));
        },
        (None, None) => (),
    }
}

/// The index of the first entry whose name matches the package under the
/// platform extension; None when no entry does. First match wins, in the
/// listing's order: with `plugin_demo.so` before `plugin_demo_extra.so`
/// both match `plugin_demo`, and the first is selected.
pub fn select_artifact(entries: &Vec<DirEntryInfo>, pkg: &str, ext: &str) -> (r: Option<usize>)
    ensures
        r matches Some(i) ==> selection_ok(
            entries@.map_values(|e: DirEntryInfo| e.name@),
            pkg@,
            ext@,
            Some(i as int),
        ),
        r is None ==> selection_ok(
            entries@.map_values(|e: DirEntryInfo| e.name@),
            pkg@,
            ext@,
            None::<int>,
        ),
{
    let ghost names = entries@.map_values(|e: DirEntryInfo| e.name@);
    let mut i: usize = 0;
    while i < entries.len()
        invariant
            names == entries@.map_values(|e: DirEntryInfo| e.name@),
            0 <= i <= entries@.len(),
            forall|j: int| 0 <= j < i ==> !artifact_name_matches(names[j], pkg@, ext@),
        decreases entries.len() - i,
    {
        if artifact_matches(entries[i].name.as_str(), pkg, ext) {
            return Some(i);
        }
        i += 1;
    }
    None
}

/// Locates the built dynamic library for `pkg` in the build-output
/// directory, searching one level deep: the directory must exist and list
/// (else a `Filesystem` error), and the first name matching the heuristic
/// wins; no match is the `ArtifactNotFound` error naming the directory and
/// the package, a hard error and no retry condition. Nothing on disk is
/// modified either way.
pub fn locate_built_library(target_dir: &str, pkg: &str, platform: Platform) -> (r: Result<
    String,
    CliError,
>)
    ensures
        r matches Err(e) ==> (e is Filesystem || e is ArtifactNotFound),
        r matches Err(e) ==> (e matches CliError::ArtifactNotFound { directory, package }
            ==> directory@ == target_dir@ && package@ == pkg@),
{
    if !probe::path_exists(target_dir) {
        return Err(CliError::Filesystem(
            text::concat3("Release target directory not found (", target_dir, ")"),
        ));
    }
    let entries = match probe::list_dir(target_dir) {
        Ok(v) => v,
        Err(m) => return Err(CliError::Filesystem(m)),
    };
    let ext = platform_extension(platform);
    match select_artifact(&entries, pkg, ext) {
        Some(i) => Ok(entries[i].path.clone()),
        None => Err(
            CliError::ArtifactNotFound {
                directory: String::from_str(target_dir),
                package: String::from_str(pkg),
            },
        ),
    }
}

/// A planned deployment: the plugins directory to create and the
/// destination file inside it.
#[derive(Debug)]
pub struct DeployPlan {
    pub plugins_dir: String,
    pub destination: String,
}

/// A path component that names a file: non-empty, and neither the current
/// nor the parent directory.
pub open spec fn valid_file_name(name: Seq<char>) -> bool {
    name.len() > 0 && name != "."@ && name != ".."@
}

/// Plans the deployment copy: the artifact keeps its file name and lands
/// in the `plugins` directory under the destination root; an artifact path
/// whose last component is no file name — empty, the current directory or
/// the parent directory — is rejected before anything would be copied.
pub fn deploy_plan(artifact_path: &str, horizon_path: &str) -> (r: Result<DeployPlan, CliError>)
    ensures
        !valid_file_name(after_last_slash(artifact_path@)) ==> r matches Err(
            CliError::Filesystem(_),
        ),
        valid_file_name(after_last_slash(artifact_path@)) ==> (r matches Ok(p) && p.plugins_dir@
            == horizon_path@ + "/"@ + "plugins"@ && p.destination@ == horizon_path@ + "/"@
            + "plugins"@ + "/"@ + after_last_slash(artifact_path@)),
{
    let file_name = text::path_file_name(artifact_path);
    let rejected = file_name.as_str().is_empty() || text::str_eq(file_name.as_str(), ".")
        || text::str_eq(file_name.as_str(), "..");
    if rejected {
        return Err(CliError::Filesystem(String::from_str("Invalid library file path")));
    }
    let plugins_dir = text::join_path(horizon_path, "plugins");
    let destination = text::join_path(plugins_dir.as_str(), file_name.as_str());
    Ok(DeployPlan { plugins_dir, destination })
}

/// A directory's contents as a map from file path to file bytes; copying
/// writes the source's bytes at the destination path, overwriting.
pub open spec fn copy_model(
    files: Map<Seq<char>, Seq<u8>>,
    source: Seq<char>,
    dest: Seq<char>,
) -> Map<Seq<char>, Seq<u8>>
    recommends
        files.dom().contains(source),
{
    files.insert(dest, files[source])
}

/// Deployment copy is overwrite-idempotent: copying the same artifact
/// twice is the same as copying it once, and the destination then holds
/// exactly the source's bytes.
pub proof fn lemma_copy_overwrite_idempotent(
    files: Map<Seq<char>, Seq<u8>>,
    source: Seq<char>,
    dest: Seq<char>,
)
    requires
        files.dom().contains(source),
    ensures
        copy_model(copy_model(files, source, dest), source, dest) == copy_model(
            files,
            source,
            dest,
        ),
        copy_model(files, source, dest)[dest] == files[source],
{
    let once = copy_model(files, source, dest);
    assert(once[source] == files[source]);
    assert(copy_model(once, source, dest) =~= once);
}

} // verus!
