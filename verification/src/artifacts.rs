//! Artifact configuration: archives and extra build artifacts.
//!
//! The artifact domain carries no common fragment, so it has no inheritable
//! intermediate: the workspace- and package-scoped configurations are merged
//! directly from layers.

use vstd::prelude::*;
use crate::layer::{merge_val, apply_val};
use crate::paths::{spec_normalized_path, normalized_path, paths_normalized};
use crate::workspace::WorkspaceInfo;

verus! {

/// What one fragment said about archives.
#[derive(Debug, Clone, PartialEq, Eq)]
pub struct ArchiveLayer {
    /// Extra paths to bundle into the archive, relative to the fragment's
    /// own directory until normalized.
    pub include_globs: Option<Vec<String>>,
    /// Whether common files such as readmes are bundled automatically.
    pub auto_includes: Option<bool>,
}

/// One extra artifact built by a dedicated command.
#[derive(Debug, Clone, PartialEq, Eq)]
pub struct ExtraArtifact {
    /// The directory the build command runs in, relative to the fragment's
    /// own directory until normalized.
    pub working_dir: String,
    /// The files the command produces.
    pub artifacts: Vec<String>,
    /// The command itself, one token per entry.
    pub build: Vec<String>,
}

/// What one fragment said about artifacts.
#[derive(Debug, Clone, PartialEq, Eq)]
pub struct ArtifactLayer {
    /// Archive settings.
    pub archives: Option<ArchiveLayer>,
    /// Extra artifacts to build and bundle.
    pub extra: Option<Vec<ExtraArtifact>>,
    /// Whether a source tarball is produced (workspace scope only).
    pub source_tarball: Option<bool>,
}

/// Fully resolved archive settings.
#[derive(Debug, Clone, PartialEq, Eq)]
pub struct ArchiveConfig {
    /// Extra paths bundled into the archive.
    pub include_globs: Vec<String>,
    /// Whether common files such as readmes are bundled automatically.
    pub auto_includes: bool,
}

/// Fully resolved artifact configuration global to the workspace.
#[derive(Debug, Clone, PartialEq, Eq)]
pub struct WorkspaceArtifactConfig {
    /// Whether a source tarball is produced.
    pub source_tarball: bool,
}

/// Fully resolved artifact configuration for one package.
#[derive(Debug, Clone, PartialEq, Eq)]
pub struct AppArtifactConfig {
    /// Archive settings.
    pub archives: ArchiveConfig,
    /// Extra artifacts to build and bundle.
    pub extra: Vec<ExtraArtifact>,
}

/// An archive layer merged onto a resolved archive configuration.
pub open spec fn spec_archive_cfg_merged(c: ArchiveConfig, l: ArchiveLayer) -> ArchiveConfig {
    ArchiveConfig {
        include_globs: merge_val(c.include_globs, l.include_globs),
        auto_includes: merge_val(c.auto_includes, l.auto_includes),
    }
}

/// An artifact layer merged onto the workspace-scoped configuration: only
/// the workspace-scoped field is consulted.
pub open spec fn spec_ws_artifact_merged(
    c: WorkspaceArtifactConfig,
    l: Option<ArtifactLayer>,
) -> WorkspaceArtifactConfig {
    if l is Some {
        WorkspaceArtifactConfig { source_tarball: merge_val(c.source_tarball, l.unwrap().source_tarball) }
    } else {
        c
    }
}

/// An artifact layer merged onto the package-scoped configuration: only the
/// package-scoped fields are consulted.
pub open spec fn spec_app_artifact_merged(
    c: AppArtifactConfig,
    l: Option<ArtifactLayer>,
) -> AppArtifactConfig {
    if l is Some {
        AppArtifactConfig {
            archives: if l.unwrap().archives is Some {
                spec_archive_cfg_merged(c.archives, l.unwrap().archives.unwrap())
            } else {
                c.archives
            },
            extra: merge_val(c.extra, l.unwrap().extra),
        }
    } else {
        c
    }
}

impl WorkspaceArtifactConfig {
    /// The compiled-in workspace default: a source tarball is produced.
    pub fn defaults_for_workspace(workspaces: &WorkspaceInfo) -> (r: Self)
        ensures
            r.source_tarball == true,
    {
        WorkspaceArtifactConfig { source_tarball: true }
    }

    /// Merge an artifact layer onto this workspace-scoped configuration.
    pub fn apply_val_layer(&mut self, src: Option<ArtifactLayer>)
        ensures
            *final(self) == spec_ws_artifact_merged(*old(self), src),
    {
        match src {
            None => {},
            Some(l) => {
                apply_val(&mut self.source_tarball, l.source_tarball);
            },
        }
    }
}

impl AppArtifactConfig {
    /// The compiled-in package defaults: nothing extra is bundled, automatic
    /// includes are on.
    pub fn defaults_for_package(workspaces: &WorkspaceInfo, pkg_idx: usize) -> (r: Self)
        ensures
            r.archives.include_globs@ == Seq::<String>::empty(),
            r.archives.auto_includes == true,
            r.extra@ == Seq::<ExtraArtifact>::empty(),
    {
        AppArtifactConfig {
            archives: ArchiveConfig { include_globs: Vec::new(), auto_includes: true },
            extra: Vec::new(),
        }
    }

    /// Merge an artifact layer onto this package-scoped configuration.
    pub fn apply_val_layer(&mut self, src: Option<ArtifactLayer>)
        ensures
            *final(self) == spec_app_artifact_merged(*old(self), src),
    {
        match src {
            None => {},
            Some(l) => {
                let ArtifactLayer { archives, extra, source_tarball: _ } = l;
                match archives {
                    None => {},
                    Some(al) => {
                        apply_val(&mut self.archives.include_globs, al.include_globs);
                        apply_val(&mut self.archives.auto_includes, al.auto_includes);
                    },
                }
                apply_val(&mut self.extra, extra);
            },
        }
    }
}

/// How normalization rewrites a list of extra artifacts: each working
/// directory is rebased, everything else is untouched.
pub open spec fn extras_normalized(
    new: Seq<ExtraArtifact>,
    prev: Seq<ExtraArtifact>,
    base: Seq<char>,
) -> bool {
    &&& new.len() == prev.len()
    &&& forall|i: int|
        0 <= i < prev.len() ==> {
            &&& #[trigger] new[i].artifacts == prev[i].artifacts
            &&& new[i].build == prev[i].build
            &&& new[i].working_dir@ == spec_normalized_path(prev[i].working_dir@, base)
        }
}

/// How normalization rewrites an artifact layer: every include glob and
/// every extra artifact's working directory is rebased, everything else is
/// untouched.
pub open spec fn spec_artifact_layer_normalized(
    new: ArtifactLayer,
    prev: ArtifactLayer,
    base: Seq<char>,
) -> bool {
    &&& new.source_tarball == prev.source_tarball
    &&& (match prev.archives {
        None => new.archives is None,
        Some(ar) => match new.archives {
            Some(nar) => {
                &&& nar.auto_includes == ar.auto_includes
                &&& (match ar.include_globs {
                    None => nar.include_globs is None,
                    Some(g) => match nar.include_globs {
                        Some(ng) => paths_normalized(ng@, g@, base),
                        None => false,
                    },
                })
            },
            None => false,
        },
    })
    &&& (match prev.extra {
        None => new.extra is None,
        Some(e) => match new.extra {
            Some(ne) => extras_normalized(ne@, e@, base),
            None => false,
        },
    })
}

impl ArtifactLayer {
    /// Rebase every config-file-relative path in this layer onto
    /// `base_path`.
    pub fn make_relative_to(&mut self, base_path: &String)
        ensures
            spec_artifact_layer_normalized(*final(self), *old(self), base_path@),
    {
        let ar = self.archives.take();
        match ar {
            None => {},
            Some(mut a) => {
                let g = a.include_globs.take();
                match g {
                    None => {},
                    Some(mut v) => {
                        normalize_include_paths(&mut v, base_path);
                        a.include_globs = Some(v);
                    },
                }
                self.archives = Some(a);
            },
        }
        let ex = self.extra.take();
        match ex {
            None => {},
            Some(mut v) => {
                normalize_extras(&mut v, base_path);
                self.extra = Some(v);
            },
        }
    }
}

/// Rebase every include glob in place.
pub fn normalize_include_paths(v: &mut Vec<String>, base: &String)
    ensures
        paths_normalized(final(v)@, old(v)@, base@),
{
    let n = v.len();
    let mut i: usize = 0;
    while i < n
        invariant
            i <= n,
            n == v.len(),
            n == old(v)@.len(),
            forall|j: int| 0 <= j < i ==> #[trigger] v@[j]@ == spec_normalized_path(old(v)@[j]@, base@),
            forall|j: int| i <= j < n ==> #[trigger] v@[j] == old(v)@[j],
        decreases n - i,
    {
        let s = v[i].clone();
        let s2 = normalized_path(s, base);
        v[i] = s2;
        i = i + 1;
    }
}

/// Rebase every extra artifact's working directory in place.
pub fn normalize_extras(v: &mut Vec<ExtraArtifact>, base: &String)
    ensures
        extras_normalized(final(v)@, old(v)@, base@),
{
    let n = v.len();
    let mut i: usize = 0;
    while i < n
        invariant
            i <= n,
            n == v.len(),
            n == old(v)@.len(),
            forall|j: int|
                0 <= j < i ==> {
                    &&& #[trigger] v@[j].artifacts == old(v)@[j].artifacts
                    &&& v@[j].build == old(v)@[j].build
                    &&& v@[j].working_dir@ == spec_normalized_path(old(v)@[j].working_dir@, base@)
                },
            forall|j: int| i <= j < n ==> #[trigger] v@[j] == old(v)@[j],
        decreases n - i,
    {
        let e = v.remove(i);
        let ExtraArtifact { working_dir, artifacts, build } = e;
        let wd = normalized_path(working_dir, base);
        v.insert(i, ExtraArtifact { working_dir: wd, artifacts, build });
        i = i + 1;
    }
}

} // verus!
