//! Hosting configuration.
//!
//! The GitHub host sub-structure is legal at workspace scope only; the
//! common fragment (release display settings) folds into it at workspace
//! scope and resolves directly at package scope.

use vstd::prelude::*;
use crate::layer::{BoolOr, merge_opt, merge_val, apply_opt, apply_val};
use crate::paths::{normalized_path, opt_path_normalized};
use crate::workspace::WorkspaceInfo;

verus! {

/// Common host fields shared by every host sub-structure.
#[derive(Debug, Clone, PartialEq, Eq)]
pub struct CommonHostLayer {
    /// Whether the release is displayed on the host at all.
    pub display: Option<bool>,
    /// The name the release is displayed under.
    pub display_name: Option<String>,
}

/// What one fragment said about GitHub hosting.
#[derive(Debug, Clone, PartialEq, Eq)]
pub struct GithubHostLayer {
    /// Common host fields, settable on this sub-structure directly.
    pub common: CommonHostLayer,
    /// Where release assets live when the repository is consumed as a
    /// submodule, relative to the fragment's own directory until
    /// normalized.
    pub submodule_path: Option<String>,
}

/// What one fragment said about hosting.
#[derive(Debug, Clone, PartialEq, Eq)]
pub struct HostLayer {
    /// Common host fields, settable at the domain level.
    pub common: CommonHostLayer,
    /// The GitHub host sub-structure, or a bare toggle for it
    /// (workspace scope only).
    pub github: Option<BoolOr<GithubHostLayer>>,
    /// Whether this release is always marked latest.
    pub force_latest: Option<bool>,
}

/// Host configuration whose common fragment has not been folded yet.
#[derive(Debug, Clone, PartialEq, Eq)]
pub struct HostConfigInheritable {
    /// Common host fields recorded at the domain level.
    pub common: CommonHostLayer,
    /// The GitHub host sub-structure, still in layer form.
    pub github: Option<GithubHostLayer>,
    /// Whether this release is always marked latest.
    pub force_latest: bool,
}

/// Fully resolved GitHub host settings.
#[derive(Debug, Clone, PartialEq, Eq)]
pub struct GithubHostConfig {
    /// Whether the release is displayed on the host at all.
    pub display: bool,
    /// The name the release is displayed under; there is no sensible
    /// default, so it stays optional.
    pub display_name: Option<String>,
    /// Where release assets live when the repository is consumed as a
    /// submodule.
    pub submodule_path: Option<String>,
}

/// Fully resolved host configuration global to the workspace.
#[derive(Debug, Clone, PartialEq, Eq)]
pub struct WorkspaceHostConfig {
    /// GitHub host settings, when GitHub hosting is enabled.
    pub github: Option<GithubHostConfig>,
    /// Whether this release is always marked latest.
    pub force_latest: bool,
}

/// Fully resolved host configuration for one package.
#[derive(Debug, Clone, PartialEq, Eq)]
pub struct AppHostConfig {
    /// Whether the package's release is displayed on the host at all.
    pub display: bool,
    /// The name the package's release is displayed under.
    pub display_name: Option<String>,
}

/// The all-unset GitHub host layer, used when a bare `github = true`
/// enables the sub-structure with defaults.
pub open spec fn spec_github_host_default() -> GithubHostLayer {
    GithubHostLayer {
        common: CommonHostLayer { display: None, display_name: None },
        submodule_path: None,
    }
}

/// One common host fragment merged onto another.
pub open spec fn spec_common_host_merged(a: CommonHostLayer, b: CommonHostLayer) -> CommonHostLayer {
    CommonHostLayer {
        display: merge_opt(a.display, b.display),
        display_name: merge_opt(a.display_name, b.display_name),
    }
}

/// One GitHub host layer merged onto another.
pub open spec fn spec_github_host_merged(a: GithubHostLayer, b: GithubHostLayer) -> GithubHostLayer {
    GithubHostLayer {
        common: spec_common_host_merged(a.common, b.common),
        submodule_path: merge_opt(a.submodule_path, b.submodule_path),
    }
}

/// The toggle-or-struct merge for the GitHub host sub-structure.
pub open spec fn spec_merge_github_host_bool_layer(
    dest: Option<GithubHostLayer>,
    src: Option<BoolOr<GithubHostLayer>>,
) -> Option<GithubHostLayer> {
    match src {
        None => dest,
        Some(BoolOr::Bool(b)) => if b {
            Some(spec_github_host_default())
        } else {
            None
        },
        Some(BoolOr::Val(l)) => Some(
            spec_github_host_merged(
                if dest is Some {
                    dest.unwrap()
                } else {
                    spec_github_host_default()
                },
                l,
            ),
        ),
    }
}

/// A host layer merged onto the inheritable intermediate.
pub open spec fn spec_host_inheritable_merged(
    c: HostConfigInheritable,
    l: Option<HostLayer>,
) -> HostConfigInheritable {
    if l is Some {
        HostConfigInheritable {
            common: spec_common_host_merged(c.common, l.unwrap().common),
            github: spec_merge_github_host_bool_layer(c.github, l.unwrap().github),
            force_latest: merge_val(c.force_latest, l.unwrap().force_latest),
        }
    } else {
        c
    }
}

/// The compiled-in host defaults.
pub open spec fn spec_host_defaults() -> HostConfigInheritable {
    HostConfigInheritable {
        common: CommonHostLayer { display: None, display_name: None },
        github: None,
        force_latest: false,
    }
}

/// The fold to the workspace scope: the domain-level display settings
/// cascade into the GitHub sub-structure wherever it left them unset, and
/// the common fragment is then discarded.
pub open spec fn spec_ws_host_fold(c: HostConfigInheritable) -> WorkspaceHostConfig {
    WorkspaceHostConfig {
        github: match c.github {
            None => None,
            Some(g) => Some(
                GithubHostConfig {
                    display: if g.common.display is Some {
                        g.common.display.unwrap()
                    } else if c.common.display is Some {
                        c.common.display.unwrap()
                    } else {
                        true
                    },
                    display_name: merge_opt(c.common.display_name, g.common.display_name),
                    submodule_path: g.submodule_path,
                },
            ),
        },
        force_latest: c.force_latest,
    }
}

/// The fold to the package scope: only the display settings apply to a
/// package, resolved straight from the domain-level common fragment.
pub open spec fn spec_app_host_fold(c: HostConfigInheritable) -> AppHostConfig {
    AppHostConfig {
        display: merge_val(true, c.common.display),
        display_name: c.common.display_name,
    }
}

/// An intermediate rebuilt from an already-folded workspace host
/// configuration. The common fragment was discarded by the first fold, so
/// the rebuilt domain level is unset, and the folded values are explicitly
/// set at the sub-structure.
pub open spec fn spec_host_inheritable_of_final(c: WorkspaceHostConfig) -> HostConfigInheritable {
    HostConfigInheritable {
        common: CommonHostLayer { display: None, display_name: None },
        github: match c.github {
            None => None,
            Some(g) => Some(
                GithubHostLayer {
                    common: CommonHostLayer {
                        display: Some(g.display),
                        display_name: g.display_name,
                    },
                    submodule_path: g.submodule_path,
                },
            ),
        },
        force_latest: c.force_latest,
    }
}

/// Folding is idempotent: folding the rebuilt intermediate of an
/// already-folded workspace host configuration reproduces the identical
/// value.
pub proof fn lemma_host_fold_idempotent(c: WorkspaceHostConfig)
    ensures
        spec_ws_host_fold(spec_host_inheritable_of_final(c)) == c,
{
}

/// An intermediate rebuilt from an already-folded package host
/// configuration: the folded display settings are explicitly set.
pub open spec fn spec_app_host_inheritable_of_final(c: AppHostConfig) -> HostConfigInheritable {
    HostConfigInheritable {
        common: CommonHostLayer { display: Some(c.display), display_name: c.display_name },
        github: None,
        force_latest: false,
    }
}

/// Folding is idempotent at package scope too: folding the rebuilt
/// intermediate of an already-folded package host configuration
/// reproduces the identical value.
pub proof fn lemma_app_host_fold_idempotent(c: AppHostConfig)
    ensures
        spec_app_host_fold(spec_app_host_inheritable_of_final(c)) == c,
{
}

/// How normalization rewrites the GitHub host sub-structure: only a
/// submodule path carried by the detailed form is rebased.
pub open spec fn spec_github_host_normalized(
    new: Option<BoolOr<GithubHostLayer>>,
    prev: Option<BoolOr<GithubHostLayer>>,
    base: Seq<char>,
) -> bool {
    match prev {
        None => new is None,
        Some(BoolOr::Bool(b)) => new == Some(BoolOr::Bool::<GithubHostLayer>(b)),
        Some(BoolOr::Val(g)) => match new {
            Some(BoolOr::Val(ng)) => {
                &&& ng.common == g.common
                &&& opt_path_normalized(ng.submodule_path, g.submodule_path, base)
            },
            _ => false,
        },
    }
}

/// The all-unset GitHub host layer.
pub fn github_host_default() -> (r: GithubHostLayer)
    ensures
        r == spec_github_host_default(),
{
    GithubHostLayer {
        common: CommonHostLayer { display: None, display_name: None },
        submodule_path: None,
    }
}

/// Apply a toggle-or-struct value to the GitHub host sub-structure.
pub fn apply_github_host_bool_layer(
    dest: &mut Option<GithubHostLayer>,
    src: Option<BoolOr<GithubHostLayer>>,
)
    ensures
        *final(dest) == spec_merge_github_host_bool_layer(*old(dest), src),
{
    match src {
        None => {},
        Some(BoolOr::Bool(false)) => {
            *dest = None;
        },
        Some(BoolOr::Bool(true)) => {
            *dest = Some(github_host_default());
        },
        Some(BoolOr::Val(l)) => {
            let cur = dest.take();
            let mut base = match cur {
                Some(d) => d,
                None => github_host_default(),
            };
            let GithubHostLayer { common, submodule_path } = l;
            apply_opt(&mut base.common.display, common.display);
            apply_opt(&mut base.common.display_name, common.display_name);
            apply_opt(&mut base.submodule_path, submodule_path);
            *dest = Some(base);
        },
    }
}

impl HostLayer {
    /// Rebase the submodule path onto `base_path`; every other field is
    /// left untouched.
    pub fn make_relative_to(&mut self, base_path: &String)
        ensures
            final(self).common == old(self).common,
            final(self).force_latest == old(self).force_latest,
            spec_github_host_normalized(final(self).github, old(self).github, base_path@),
    {
        let g = self.github.take();
        match g {
            Some(BoolOr::Val(gl)) => {
                let GithubHostLayer { common, submodule_path } = gl;
                let submodule_path = match submodule_path {
                    Some(p) => Some(normalized_path(p, base_path)),
                    None => None,
                };
                self.github = Some(BoolOr::Val(GithubHostLayer { common, submodule_path }));
            },
            other => {
                self.github = other;
            },
        }
    }
}

impl HostConfigInheritable {
    /// The compiled-in defaults for the workspace scope.
    pub fn defaults_for_workspace(workspaces: &WorkspaceInfo) -> (r: Self)
        ensures
            r == spec_host_defaults(),
    {
        HostConfigInheritable {
            common: CommonHostLayer { display: None, display_name: None },
            github: None,
            force_latest: false,
        }
    }

    /// The compiled-in defaults for one package.
    pub fn defaults_for_package(workspaces: &WorkspaceInfo, pkg_idx: usize) -> (r: Self)
        ensures
            r == spec_host_defaults(),
    {
        HostConfigInheritable {
            common: CommonHostLayer { display: None, display_name: None },
            github: None,
            force_latest: false,
        }
    }

    /// Merge a host layer onto this intermediate.
    pub fn apply_layer(&mut self, src: HostLayer)
        ensures
            *final(self) == spec_host_inheritable_merged(*old(self), Some(src)),
    {
        let HostLayer { common, github, force_latest } = src;
        apply_opt(&mut self.common.display, common.display);
        apply_opt(&mut self.common.display_name, common.display_name);
        apply_github_host_bool_layer(&mut self.github, github);
        apply_val(&mut self.force_latest, force_latest);
    }

    /// Merge an optional host layer onto this intermediate.
    pub fn apply_val_layer(&mut self, src: Option<HostLayer>)
        ensures
            *final(self) == spec_host_inheritable_merged(*old(self), src),
    {
        match src {
            None => {},
            Some(l) => self.apply_layer(l),
        }
    }

    /// Fold to the final workspace host configuration.
    pub fn apply_inheritance_for_workspace(self, workspaces: &WorkspaceInfo) -> (r:
        WorkspaceHostConfig)
        ensures
            r == spec_ws_host_fold(self),
    {
        let HostConfigInheritable { common, github, force_latest } = self;
        WorkspaceHostConfig {
            github: match github {
                None => None,
                Some(g) => {
                    let GithubHostLayer { common: sub_common, submodule_path } = g;
                    Some(
                        GithubHostConfig {
                            display: match sub_common.display {
                                Some(b) => b,
                                None => match common.display {
                                    Some(b) => b,
                                    None => true,
                                },
                            },
                            display_name: match sub_common.display_name {
                                Some(n) => Some(n),
                                None => common.display_name,
                            },
                            submodule_path,
                        },
                    )
                },
            },
            force_latest,
        }
    }

    /// Fold to the final package host configuration.
    pub fn apply_inheritance_for_package(self, workspaces: &WorkspaceInfo, pkg_idx: usize) -> (r:
        AppHostConfig)
        ensures
            r == spec_app_host_fold(self),
    {
        let HostConfigInheritable { common, github: _, force_latest: _ } = self;
        AppHostConfig {
            display: match common.display {
                Some(b) => b,
                None => true,
            },
            display_name: common.display_name,
        }
    }
}

} // verus!
