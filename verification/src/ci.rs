//! CI configuration.
//!
//! The whole CI domain is legal at workspace scope only; its common fragment
//! (the fail-fast toggle) folds down into the GitHub CI sub-structure.

use vstd::prelude::*;
use crate::layer::{BoolOr, merge_opt, apply_opt};
use crate::workspace::WorkspaceInfo;

verus! {

/// Common CI fields shared by every CI sub-structure.
#[derive(Debug, Clone, Copy, PartialEq, Eq)]
pub struct CommonCiLayer {
    /// Whether one failing job cancels its siblings.
    pub fail_fast: Option<bool>,
}

/// What one fragment said about GitHub CI.
#[derive(Debug, Clone, PartialEq, Eq)]
pub struct GithubCiLayer {
    /// Common CI fields, settable on this sub-structure directly.
    pub common: CommonCiLayer,
    /// A shell command run before local artifacts are built.
    pub build_setup: Option<String>,
}

/// What one fragment said about CI.
#[derive(Debug, Clone, PartialEq, Eq)]
pub struct CiLayer {
    /// Common CI fields, settable at the domain level.
    pub common: CommonCiLayer,
    /// The GitHub CI sub-structure, or a bare toggle for it.
    pub github: Option<BoolOr<GithubCiLayer>>,
}

/// CI configuration whose common fragment has not been folded yet.
#[derive(Debug, Clone, PartialEq, Eq)]
pub struct CiConfigInheritable {
    /// Common CI fields recorded at the domain level.
    pub common: CommonCiLayer,
    /// The GitHub CI sub-structure, still in layer form.
    pub github: Option<GithubCiLayer>,
}

/// Fully resolved GitHub CI settings.
#[derive(Debug, Clone, PartialEq, Eq)]
pub struct GithubCiConfig {
    /// Whether one failing job cancels its siblings.
    pub fail_fast: bool,
    /// A shell command run before local artifacts are built.
    pub build_setup: Option<String>,
}

/// Fully resolved CI configuration, global to the workspace.
#[derive(Debug, Clone, PartialEq, Eq)]
pub struct CiConfig {
    /// GitHub CI settings, when GitHub CI is enabled.
    pub github: Option<GithubCiConfig>,
}

/// The all-unset GitHub CI layer, used when a bare `github = true` enables
/// the sub-structure with defaults.
pub open spec fn spec_github_ci_default() -> GithubCiLayer {
    GithubCiLayer { common: CommonCiLayer { fail_fast: None }, build_setup: None }
}

/// One GitHub CI layer merged onto another.
pub open spec fn spec_github_ci_merged(a: GithubCiLayer, b: GithubCiLayer) -> GithubCiLayer {
    GithubCiLayer {
        common: CommonCiLayer { fail_fast: merge_opt(a.common.fail_fast, b.common.fail_fast) },
        build_setup: merge_opt(a.build_setup, b.build_setup),
    }
}

/// The toggle-or-struct merge for the GitHub CI sub-structure.
pub open spec fn spec_merge_github_ci_bool_layer(
    dest: Option<GithubCiLayer>,
    src: Option<BoolOr<GithubCiLayer>>,
) -> Option<GithubCiLayer> {
    match src {
        None => dest,
        Some(BoolOr::Bool(b)) => if b {
            Some(spec_github_ci_default())
        } else {
            None
        },
        Some(BoolOr::Val(l)) => Some(
            spec_github_ci_merged(
                if dest is Some {
                    dest.unwrap()
                } else {
                    spec_github_ci_default()
                },
                l,
            ),
        ),
    }
}

/// A CI layer merged onto the inheritable intermediate.
pub open spec fn spec_ci_inheritable_merged(
    c: CiConfigInheritable,
    l: Option<CiLayer>,
) -> CiConfigInheritable {
    if l is Some {
        CiConfigInheritable {
            common: CommonCiLayer {
                fail_fast: merge_opt(c.common.fail_fast, l.unwrap().common.fail_fast),
            },
            github: spec_merge_github_ci_bool_layer(c.github, l.unwrap().github),
        }
    } else {
        c
    }
}

/// The compiled-in CI defaults: no CI generated until asked for.
pub open spec fn spec_ci_defaults() -> CiConfigInheritable {
    CiConfigInheritable { common: CommonCiLayer { fail_fast: None }, github: None }
}

/// The fold to the workspace scope: the domain-level fail-fast value
/// cascades into the GitHub sub-structure wherever it left the value unset,
/// then the common fragment is discarded.
pub open spec fn spec_ci_fold(c: CiConfigInheritable) -> CiConfig {
    CiConfig {
        github: match c.github {
            None => None,
            Some(g) => Some(
                GithubCiConfig {
                    fail_fast: if g.common.fail_fast is Some {
                        g.common.fail_fast.unwrap()
                    } else if c.common.fail_fast is Some {
                        c.common.fail_fast.unwrap()
                    } else {
                        false
                    },
                    build_setup: g.build_setup,
                },
            ),
        },
    }
}

/// An intermediate rebuilt from an already-folded CI configuration: the
/// folded toggle is explicitly set at the sub-structure.
pub open spec fn spec_ci_inheritable_of_final(c: CiConfig, dom: CommonCiLayer) -> CiConfigInheritable {
    CiConfigInheritable {
        common: dom,
        github: match c.github {
            None => None,
            Some(g) => Some(
                GithubCiLayer {
                    common: CommonCiLayer { fail_fast: Some(g.fail_fast) },
                    build_setup: g.build_setup,
                },
            ),
        },
    }
}

/// Folding is idempotent: folding the rebuilt intermediate of an
/// already-folded CI configuration reproduces the identical value,
/// whatever the domain-level fragment holds.
pub proof fn lemma_ci_fold_idempotent(c: CiConfig, dom: CommonCiLayer)
    ensures
        spec_ci_fold(spec_ci_inheritable_of_final(c, dom)) == c,
{
}

/// The all-unset GitHub CI layer.
pub fn github_ci_default() -> (r: GithubCiLayer)
    ensures
        r == spec_github_ci_default(),
{
    GithubCiLayer { common: CommonCiLayer { fail_fast: None }, build_setup: None }
}

/// Apply a toggle-or-struct value to the GitHub CI sub-structure.
pub fn apply_github_ci_bool_layer(
    dest: &mut Option<GithubCiLayer>,
    src: Option<BoolOr<GithubCiLayer>>,
)
    ensures
        *final(dest) == spec_merge_github_ci_bool_layer(*old(dest), src),
{
    match src {
        None => {},
        Some(BoolOr::Bool(false)) => {
            *dest = None;
        },
        Some(BoolOr::Bool(true)) => {
            *dest = Some(github_ci_default());
        },
        Some(BoolOr::Val(l)) => {
            let cur = dest.take();
            let mut base = match cur {
                Some(d) => d,
                None => github_ci_default(),
            };
            let GithubCiLayer { common, build_setup } = l;
            apply_opt(&mut base.common.fail_fast, common.fail_fast);
            apply_opt(&mut base.build_setup, build_setup);
            *dest = Some(base);
        },
    }
}

impl CiConfigInheritable {
    /// The compiled-in defaults for the workspace scope.
    pub fn defaults_for_workspace(workspaces: &WorkspaceInfo) -> (r: Self)
        ensures
            r == spec_ci_defaults(),
    {
        CiConfigInheritable { common: CommonCiLayer { fail_fast: None }, github: None }
    }

    /// Merge a CI layer onto this intermediate.
    pub fn apply_layer(&mut self, src: CiLayer)
        ensures
            *final(self) == spec_ci_inheritable_merged(*old(self), Some(src)),
    {
        let CiLayer { common, github } = src;
        apply_opt(&mut self.common.fail_fast, common.fail_fast);
        apply_github_ci_bool_layer(&mut self.github, github);
    }

    /// Merge an optional CI layer onto this intermediate.
    pub fn apply_val_layer(&mut self, src: Option<CiLayer>)
        ensures
            *final(self) == spec_ci_inheritable_merged(*old(self), src),
    {
        match src {
            None => {},
            Some(l) => self.apply_layer(l),
        }
    }

    /// Fold to the final CI configuration.
    pub fn apply_inheritance_for_workspace(self, workspaces: &WorkspaceInfo) -> (r: CiConfig)
        ensures
            r == spec_ci_fold(self),
    {
        let CiConfigInheritable { common, github } = self;
        CiConfig {
            github: match github {
                None => None,
                Some(g) => {
                    let GithubCiLayer { common: sub_common, build_setup } = g;
                    Some(
                        GithubCiConfig {
                            fail_fast: match sub_common.fail_fast {
                                Some(b) => b,
                                None => match common.fail_fast {
                                    Some(b) => b,
                                    None => false,
                                },
                            },
                            build_setup,
                        },
                    )
                },
            },
        }
    }
}

} // verus!
