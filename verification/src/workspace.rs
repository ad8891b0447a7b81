//! Plain descriptions of the workspace and its packages.
//!
//! Resolution only ever reads a handful of facts about the project being
//! released: where the workspace lives and, per package, its name and root
//! directory. Callers that walk a real project hand those facts over in
//! these records.

use vstd::prelude::*;

verus! {

/// One package of the workspace.
#[derive(Debug, Clone, PartialEq, Eq)]
pub struct PackageInfo {
    /// The package's name.
    pub name: String,
    /// The directory that holds the package's own manifest.
    pub package_root: String,
}

/// The workspace being resolved.
#[derive(Debug, Clone, PartialEq, Eq)]
pub struct WorkspaceInfo {
    /// The directory that holds the workspace-level fragment.
    pub workspace_dir: String,
    /// Every package of the workspace, indexed by position.
    pub packages: Vec<PackageInfo>,
}

} // verus!
