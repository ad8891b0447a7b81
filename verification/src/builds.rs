//! Build configuration: signing toggles and the cargo build sub-structure.
//!
//! The build domain carries a common fragment (the minimum glibc version)
//! that folds down into the cargo sub-structure wherever it left the value
//! unset.

use vstd::prelude::*;
use crate::layer::{BoolOr, merge_opt, merge_val, apply_opt, apply_val};
use crate::workspace::WorkspaceInfo;

verus! {

/// A glibc version, as a major number and a series number.
#[derive(Debug, Clone, Copy, PartialEq, Eq)]
pub struct GlibcVersion {
    /// Major version number.
    pub major: u64,
    /// Series (minor) version number.
    pub series: u64,
}

/// Whether release binaries are signed through the ssl.com test or
/// production service.
#[derive(Debug, Clone, Copy, PartialEq, Eq)]
pub enum ProductionMode {
    /// The sandbox signing service.
    Test,
    /// The production signing service.
    Prod,
}

/// Common build fields shared by every build sub-structure.
#[derive(Debug, Clone, Copy, PartialEq, Eq)]
pub struct CommonBuildLayer {
    /// The oldest glibc the produced binaries may require.
    pub min_glibc_version: Option<GlibcVersion>,
}

/// What one fragment said about cargo builds.
#[derive(Debug, Clone, PartialEq, Eq)]
pub struct CargoBuildLayer {
    /// Common build fields, settable on this sub-structure directly.
    pub common: CommonBuildLayer,
    /// The cargo features to build with.
    pub features: Option<Vec<String>>,
    /// Whether default features are enabled.
    pub default_features: Option<bool>,
    /// Whether every feature is enabled.
    pub all_features: Option<bool>,
    /// Whether builds run through cargo-auditable.
    pub cargo_auditable: Option<bool>,
    /// Whether a CycloneDX SBOM is produced.
    pub cargo_cyclonedx: Option<bool>,
}

/// What one fragment said about builds.
#[derive(Debug, Clone, PartialEq, Eq)]
pub struct BuildLayer {
    /// Common build fields, settable at the domain level.
    pub common: CommonBuildLayer,
    /// Windows code signing through ssl.com (workspace scope only).
    pub ssldotcom_windows_sign: Option<ProductionMode>,
    /// macOS code signing (workspace scope only).
    pub macos_sign: Option<bool>,
    /// The cargo build sub-structure, or a bare toggle for it.
    pub cargo: Option<BoolOr<CargoBuildLayer>>,
}

/// Build configuration with resolved domain fields whose common fragment has
/// not been folded into the cargo sub-structure yet.
#[derive(Debug, Clone, PartialEq, Eq)]
pub struct BuildConfigInheritable {
    /// Common build fields recorded at the domain level.
    pub common: CommonBuildLayer,
    /// Windows code signing through ssl.com.
    pub ssldotcom_windows_sign: Option<ProductionMode>,
    /// macOS code signing.
    pub macos_sign: bool,
    /// The cargo build sub-structure, still in layer form.
    pub cargo: Option<CargoBuildLayer>,
}

/// Fully resolved cargo build settings for one package.
#[derive(Debug, Clone, PartialEq, Eq)]
pub struct CargoBuildConfig {
    /// The oldest glibc the produced binaries may require.
    pub min_glibc_version: Option<GlibcVersion>,
    /// The cargo features to build with.
    pub features: Vec<String>,
    /// Whether default features are enabled.
    pub default_features: bool,
    /// Whether every feature is enabled.
    pub all_features: bool,
    /// Whether builds run through cargo-auditable.
    pub cargo_auditable: bool,
    /// Whether a CycloneDX SBOM is produced.
    pub cargo_cyclonedx: bool,
}

/// Fully resolved build configuration global to the workspace.
#[derive(Debug, Clone, Copy, PartialEq, Eq)]
pub struct WorkspaceBuildConfig {
    /// Windows code signing through ssl.com.
    pub ssldotcom_windows_sign: Option<ProductionMode>,
    /// macOS code signing.
    pub macos_sign: bool,
}

/// Fully resolved build configuration for one package.
#[derive(Debug, Clone, PartialEq, Eq)]
pub struct AppBuildConfig {
    /// Cargo build settings, when the package builds with cargo.
    pub cargo: Option<CargoBuildConfig>,
}

/// The all-unset cargo layer, used when a bare `cargo = true` enables the
/// sub-structure with defaults.
pub open spec fn spec_cargo_layer_default() -> CargoBuildLayer {
    CargoBuildLayer {
        common: CommonBuildLayer { min_glibc_version: None },
        features: None,
        default_features: None,
        all_features: None,
        cargo_auditable: None,
        cargo_cyclonedx: None,
    }
}

/// One common build fragment merged onto another.
pub open spec fn spec_common_build_merged(a: CommonBuildLayer, b: CommonBuildLayer) -> CommonBuildLayer {
    CommonBuildLayer { min_glibc_version: merge_opt(a.min_glibc_version, b.min_glibc_version) }
}

/// One cargo layer merged onto another.
pub open spec fn spec_cargo_layer_merged(a: CargoBuildLayer, b: CargoBuildLayer) -> CargoBuildLayer {
    CargoBuildLayer {
        common: spec_common_build_merged(a.common, b.common),
        features: merge_opt(a.features, b.features),
        default_features: merge_opt(a.default_features, b.default_features),
        all_features: merge_opt(a.all_features, b.all_features),
        cargo_auditable: merge_opt(a.cargo_auditable, b.cargo_auditable),
        cargo_cyclonedx: merge_opt(a.cargo_cyclonedx, b.cargo_cyclonedx),
    }
}

/// The toggle-or-struct merge for the cargo sub-structure: a bare `false`
/// disables it, a bare `true` enables it with defaults, a structure merges
/// onto whatever is there (or onto defaults).
pub open spec fn spec_merge_cargo_bool_layer(
    dest: Option<CargoBuildLayer>,
    src: Option<BoolOr<CargoBuildLayer>>,
) -> Option<CargoBuildLayer> {
    match src {
        None => dest,
        Some(BoolOr::Bool(b)) => if b {
            Some(spec_cargo_layer_default())
        } else {
            None
        },
        Some(BoolOr::Val(l)) => Some(
            spec_cargo_layer_merged(
                if dest is Some {
                    dest.unwrap()
                } else {
                    spec_cargo_layer_default()
                },
                l,
            ),
        ),
    }
}

/// A build layer merged onto the inheritable intermediate.
pub open spec fn spec_build_inheritable_merged(
    c: BuildConfigInheritable,
    l: Option<BuildLayer>,
) -> BuildConfigInheritable {
    if l is Some {
        BuildConfigInheritable {
            common: spec_common_build_merged(c.common, l.unwrap().common),
            ssldotcom_windows_sign: merge_opt(c.ssldotcom_windows_sign, l.unwrap().ssldotcom_windows_sign),
            macos_sign: merge_val(c.macos_sign, l.unwrap().macos_sign),
            cargo: spec_merge_cargo_bool_layer(c.cargo, l.unwrap().cargo),
        }
    } else {
        c
    }
}

/// The compiled-in build defaults: nothing signed, no cargo sub-structure.
pub open spec fn spec_build_defaults() -> BuildConfigInheritable {
    BuildConfigInheritable {
        common: CommonBuildLayer { min_glibc_version: None },
        ssldotcom_windows_sign: None,
        macos_sign: false,
        cargo: None,
    }
}

/// The fold to the workspace scope: only the workspace-global fields
/// survive; the common fragment is discarded with the sub-structure it would
/// have fed.
pub open spec fn spec_ws_build_fold(c: BuildConfigInheritable) -> WorkspaceBuildConfig {
    WorkspaceBuildConfig {
        ssldotcom_windows_sign: c.ssldotcom_windows_sign,
        macos_sign: c.macos_sign,
    }
}

/// How the folded package build configuration relates to the intermediate
/// it came from: the cargo sub-structure is present exactly when the
/// intermediate enabled it, the domain-level common fragment fills what the
/// sub-structure left unset, and remaining gaps take compiled defaults.
pub open spec fn spec_app_build_folded(r: AppBuildConfig, c: BuildConfigInheritable) -> bool {
    &&& r.cargo is Some <==> c.cargo is Some
    &&& c.cargo is Some ==> {
        let cl = c.cargo.unwrap();
        let rc = r.cargo.unwrap();
        &&& rc.min_glibc_version == merge_opt(c.common.min_glibc_version, cl.common.min_glibc_version)
        &&& rc.features@ == (if cl.features is Some {
            cl.features.unwrap()@
        } else {
            Seq::<String>::empty()
        })
        &&& rc.default_features == merge_val(true, cl.default_features)
        &&& rc.all_features == merge_val(false, cl.all_features)
        &&& rc.cargo_auditable == merge_val(false, cl.cargo_auditable)
        &&& rc.cargo_cyclonedx == merge_val(false, cl.cargo_cyclonedx)
    }
}

/// An intermediate rebuilt from an already-folded package build
/// configuration. The common fragment was discarded by the first fold, so
/// the rebuilt domain level is unset, and every defaulted field is
/// explicitly set at the sub-structure.
pub open spec fn spec_build_inheritable_of_final(c: AppBuildConfig) -> BuildConfigInheritable {
    BuildConfigInheritable {
        common: CommonBuildLayer { min_glibc_version: None },
        ssldotcom_windows_sign: None,
        macos_sign: false,
        cargo: match c.cargo {
            None => None,
            Some(cc) => Some(
                CargoBuildLayer {
                    common: CommonBuildLayer { min_glibc_version: cc.min_glibc_version },
                    features: Some(cc.features),
                    default_features: Some(cc.default_features),
                    all_features: Some(cc.all_features),
                    cargo_auditable: Some(cc.cargo_auditable),
                    cargo_cyclonedx: Some(cc.cargo_cyclonedx),
                },
            ),
        },
    }
}

/// Folding is idempotent: folding the rebuilt intermediate of an
/// already-folded build configuration reproduces the identical content.
pub proof fn lemma_build_fold_idempotent(c: AppBuildConfig, r: AppBuildConfig)
    requires
        spec_app_build_folded(r, spec_build_inheritable_of_final(c)),
    ensures
        r.cargo is Some <==> c.cargo is Some,
        c.cargo is Some ==> {
            let rc = r.cargo.unwrap();
            let cc = c.cargo.unwrap();
            &&& rc.min_glibc_version == cc.min_glibc_version
            &&& rc.features@ == cc.features@
            &&& rc.default_features == cc.default_features
            &&& rc.all_features == cc.all_features
            &&& rc.cargo_auditable == cc.cargo_auditable
            &&& rc.cargo_cyclonedx == cc.cargo_cyclonedx
        },
{
}

/// The all-unset cargo layer.
pub fn cargo_layer_default() -> (r: CargoBuildLayer)
    ensures
        r == spec_cargo_layer_default(),
{
    CargoBuildLayer {
        common: CommonBuildLayer { min_glibc_version: None },
        features: None,
        default_features: None,
        all_features: None,
        cargo_auditable: None,
        cargo_cyclonedx: None,
    }
}

/// Merge one cargo layer onto another, field by field.
pub fn apply_cargo_layer(dest: &mut CargoBuildLayer, src: CargoBuildLayer)
    ensures
        *final(dest) == spec_cargo_layer_merged(*old(dest), src),
{
    let CargoBuildLayer {
        common,
        features,
        default_features,
        all_features,
        cargo_auditable,
        cargo_cyclonedx,
    } = src;
    apply_opt(&mut dest.common.min_glibc_version, common.min_glibc_version);
    apply_opt(&mut dest.features, features);
    apply_opt(&mut dest.default_features, default_features);
    apply_opt(&mut dest.all_features, all_features);
    apply_opt(&mut dest.cargo_auditable, cargo_auditable);
    apply_opt(&mut dest.cargo_cyclonedx, cargo_cyclonedx);
}

/// Apply a toggle-or-struct value to the cargo sub-structure.
pub fn apply_cargo_bool_layer(
    dest: &mut Option<CargoBuildLayer>,
    src: Option<BoolOr<CargoBuildLayer>>,
)
    ensures
        *final(dest) == spec_merge_cargo_bool_layer(*old(dest), src),
{
    match src {
        None => {},
        Some(BoolOr::Bool(false)) => {
            *dest = None;
        },
        Some(BoolOr::Bool(true)) => {
            *dest = Some(cargo_layer_default());
        },
        Some(BoolOr::Val(l)) => {
            let cur = dest.take();
            let mut base = match cur {
                Some(d) => d,
                None => cargo_layer_default(),
            };
            apply_cargo_layer(&mut base, l);
            *dest = Some(base);
        },
    }
}

impl BuildConfigInheritable {
    /// The compiled-in defaults for the workspace scope.
    pub fn defaults_for_workspace(workspaces: &WorkspaceInfo) -> (r: Self)
        ensures
            r == spec_build_defaults(),
    {
        BuildConfigInheritable {
            common: CommonBuildLayer { min_glibc_version: None },
            ssldotcom_windows_sign: None,
            macos_sign: false,
            cargo: None,
        }
    }

    /// The compiled-in defaults for one package.
    pub fn defaults_for_package(workspaces: &WorkspaceInfo, pkg_idx: usize) -> (r: Self)
        ensures
            r == spec_build_defaults(),
    {
        BuildConfigInheritable {
            common: CommonBuildLayer { min_glibc_version: None },
            ssldotcom_windows_sign: None,
            macos_sign: false,
            cargo: None,
        }
    }

    /// Merge a build layer onto this intermediate.
    pub fn apply_layer(&mut self, src: BuildLayer)
        ensures
            *final(self) == spec_build_inheritable_merged(*old(self), Some(src)),
    {
        let BuildLayer { common, ssldotcom_windows_sign, macos_sign, cargo } = src;
        apply_opt(&mut self.common.min_glibc_version, common.min_glibc_version);
        apply_opt(&mut self.ssldotcom_windows_sign, ssldotcom_windows_sign);
        apply_val(&mut self.macos_sign, macos_sign);
        apply_cargo_bool_layer(&mut self.cargo, cargo);
    }

    /// Merge an optional build layer onto this intermediate.
    pub fn apply_val_layer(&mut self, src: Option<BuildLayer>)
        ensures
            *final(self) == spec_build_inheritable_merged(*old(self), src),
    {
        match src {
            None => {},
            Some(l) => self.apply_layer(l),
        }
    }

    /// Fold to the final workspace build configuration: the workspace keeps
    /// only the workspace-global fields.
    pub fn apply_inheritance_for_workspace(self, workspaces: &WorkspaceInfo) -> (r:
        WorkspaceBuildConfig)
        ensures
            r == spec_ws_build_fold(self),
    {
        WorkspaceBuildConfig {
            ssldotcom_windows_sign: self.ssldotcom_windows_sign,
            macos_sign: self.macos_sign,
        }
    }

    /// Fold to the final package build configuration: the domain-level
    /// common fragment cascades into the cargo sub-structure wherever the
    /// sub-structure left it unset, and unset package fields take their
    /// compiled defaults.
    pub fn apply_inheritance_for_package(self, workspaces: &WorkspaceInfo, pkg_idx: usize) -> (r:
        AppBuildConfig)
        ensures
            spec_app_build_folded(r, self),
    {
        let BuildConfigInheritable { common, ssldotcom_windows_sign: _, macos_sign: _, cargo } = self;
        let folded = match cargo {
            None => None,
            Some(cl) => {
                let CargoBuildLayer {
                    common: sub_common,
                    features,
                    default_features,
                    all_features,
                    cargo_auditable,
                    cargo_cyclonedx,
                } = cl;
                let min_glibc_version = match sub_common.min_glibc_version {
                    Some(v) => Some(v),
                    None => common.min_glibc_version,
                };
                let features = match features {
                    Some(v) => v,
                    None => Vec::new(),
                };
                Some(
                    CargoBuildConfig {
                        min_glibc_version,
                        features,
                        default_features: match default_features {
                            Some(b) => b,
                            None => true,
                        },
                        all_features: match all_features {
                            Some(b) => b,
                            None => false,
                        },
                        cargo_auditable: match cargo_auditable {
                            Some(b) => b,
                            None => false,
                        },
                        cargo_cyclonedx: match cargo_cyclonedx {
                            Some(b) => b,
                            None => false,
                        },
                    },
                )
            },
        };
        AppBuildConfig { cargo: folded }
    }
}

} // verus!
