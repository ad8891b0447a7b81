//! The top-level configuration types and the resolution pipeline.
//!
//! A fragment arrives as a [`TomlLayer`]. Resolution normalizes its paths,
//! merges it (workspace layer first, package layer second) onto compiled-in
//! defaults held in an inheritable intermediate, folds common fragments
//! down, and produces the immutable [`WorkspaceConfig`] or [`AppConfig`]
//! that the rest of the system reads.

use vstd::prelude::*;
use crate::CURRENT_CONFIG_VERSION;
use crate::artifacts::{
    ArtifactLayer, WorkspaceArtifactConfig, AppArtifactConfig, spec_ws_artifact_merged,
    spec_app_artifact_merged, spec_artifact_layer_normalized, extras_normalized,
};
use crate::artifacts::ArchiveLayer;
use crate::builds::{
    BuildLayer, CargoBuildLayer, BuildConfigInheritable, WorkspaceBuildConfig, AppBuildConfig,
    spec_build_defaults, spec_build_inheritable_merged, spec_ws_build_fold,
};
use crate::ci::{CiLayer, CiConfigInheritable, CiConfig, spec_ci_defaults, spec_ci_inheritable_merged, spec_ci_fold};
use crate::errors::{DistError, DistResult, GlobalOnlyField, MergeWarning};
use crate::hosts::{
    HostLayer, HostConfigInheritable, WorkspaceHostConfig, AppHostConfig, spec_host_defaults,
    spec_host_inheritable_merged, spec_ws_host_fold, spec_app_host_fold,
    spec_github_host_normalized,
};
use crate::installers::{
    InstallerLayer, InstallerConfigInheritable, WorkspaceInstallerConfig, AppInstallerConfig,
    InstallPathStrategy, spec_installer_defaults, spec_installer_inheritable_merged,
    spec_app_installer_folded,
};
use crate::layer::{BoolOr, merge_opt, merge_val, apply_opt, apply_val};
use crate::paths::{paths_normalized, opt_path_normalized};
use crate::publishers::{
    PublisherLayer, PublisherConfigInheritable, PublisherConfig, spec_publisher_defaults,
    spec_publisher_inheritable_merged, spec_publisher_fold,
};
use crate::workspace::{WorkspaceInfo, PackageInfo};

verus! {

/// A generate target whose output may be checked for up-to-dateness.
#[derive(Debug, Clone, Copy, PartialEq, Eq)]
pub enum GenerateMode {
    /// CI scripts.
    Ci,
    /// Windows installer templates.
    Msi,
}

/// A release-engine version, in plain semantic-version form.
#[derive(Debug, Clone, Copy, PartialEq, Eq)]
pub struct Version {
    /// Major version number.
    pub major: u64,
    /// Minor version number.
    pub minor: u64,
    /// Patch version number.
    pub patch: u64,
}

/// This engine's own version, stamped into fragments on request.
pub open spec fn spec_current_dist_version() -> Version {
    Version { major: 0, minor: 1, patch: 0 }
}

/// This engine's own version.
pub fn current_dist_version() -> (r: Version)
    ensures
        r == spec_current_dist_version(),
{
    Version { major: 0, minor: 1, patch: 0 }
}

/// The raw input read from one fragment. Every field is optional: absence
/// means "not specified here", never "set to a falsy value".
#[derive(Debug, Clone, PartialEq, Eq)]
pub struct TomlLayer {
    /// The intended version of the release engine to build with.
    pub dist_version: Option<Version>,
    /// The configuration file format revision.
    pub config_version: u64,
    /// An override for where the release engine is downloaded from.
    pub dist_url_override: Option<String>,
    /// Whether the package should be distributed at all.
    pub dist: Option<bool>,
    /// Generate targets whose output is not checked for up-to-dateness.
    pub allow_dirty: Option<Vec<GenerateMode>>,
    /// The full set of target triples to build for.
    pub targets: Option<Vec<String>>,
    /// Artifact settings.
    pub artifacts: Option<ArtifactLayer>,
    /// Build settings.
    pub builds: Option<BuildLayer>,
    /// CI settings.
    pub ci: Option<CiLayer>,
    /// Host settings.
    pub hosts: Option<HostLayer>,
    /// Installer settings.
    pub installers: Option<InstallerLayer>,
    /// Publisher settings.
    pub publishers: Option<PublisherLayer>,
}

/// The all-unset fragment, carrying the current format revision.
pub open spec fn spec_toml_layer_default() -> TomlLayer {
    TomlLayer {
        dist_version: None,
        config_version: CURRENT_CONFIG_VERSION,
        dist_url_override: None,
        dist: None,
        allow_dirty: None,
        targets: None,
        artifacts: None,
        builds: None,
        ci: None,
        hosts: None,
        installers: None,
        publishers: None,
    }
}

impl Default for TomlLayer {
    /// The all-unset fragment, carrying the current format revision.
    fn default() -> (r: Self)
        ensures
            r == spec_toml_layer_default(),
    {
        TomlLayer {
            dist_version: None,
            config_version: CURRENT_CONFIG_VERSION,
            dist_url_override: None,
            dist: None,
            allow_dirty: None,
            targets: None,
            artifacts: None,
            builds: None,
            ci: None,
            hosts: None,
            installers: None,
            publishers: None,
        }
    }
}

/// A whole configuration file: the workspace table, the package table, and
/// the release-engine table.
#[derive(Debug, Clone, PartialEq, Eq)]
pub struct DistConfig {
    /// The `[workspace]` table.
    pub workspace: Option<WorkspaceInfo>,
    /// The `[package]` table.
    pub package: Option<PackageInfo>,
    /// The `[dist]` table.
    pub dist: Option<TomlLayer>,
}

impl Default for DistConfig {
    /// An empty configuration file.
    fn default() -> (r: Self)
        ensures
            r.workspace is None,
            r.package is None,
            r.dist is None,
    {
        DistConfig { workspace: None, package: None, dist: None }
    }
}

/// Fully resolved configuration global to the entire workspace.
#[derive(Debug, Clone, PartialEq, Eq)]
pub struct WorkspaceConfig {
    /// The intended version of the release engine to build with.
    pub dist_version: Option<Version>,
    /// An override for where the release engine is downloaded from.
    pub dist_url_override: Option<String>,
    /// Generate targets whose output is not checked for up-to-dateness.
    pub allow_dirty: Vec<GenerateMode>,
    /// CI configuration.
    pub ci: CiConfig,
    /// Artifact configuration.
    pub artifacts: WorkspaceArtifactConfig,
    /// Host configuration.
    pub hosts: WorkspaceHostConfig,
    /// Build configuration.
    pub builds: WorkspaceBuildConfig,
    /// Installer configuration.
    pub installers: WorkspaceInstallerConfig,
}

/// Configuration global to the workspace whose inheritance relationships
/// have not been folded in yet.
#[derive(Debug, Clone, PartialEq, Eq)]
pub struct WorkspaceConfigInheritable {
    /// The intended version of the release engine to build with.
    pub dist_version: Option<Version>,
    /// An override for where the release engine is downloaded from.
    pub dist_url_override: Option<String>,
    /// Generate targets whose output is not checked for up-to-dateness.
    pub allow_dirty: Vec<GenerateMode>,
    /// Artifact configuration (no common fragment, already final).
    pub artifacts: WorkspaceArtifactConfig,
    /// CI configuration, common fragment not yet folded.
    pub ci: CiConfigInheritable,
    /// Host configuration, common fragment not yet folded.
    pub hosts: HostConfigInheritable,
    /// Build configuration, common fragment not yet folded.
    pub builds: BuildConfigInheritable,
    /// Installer configuration, common fragment not yet folded.
    pub installers: InstallerConfigInheritable,
}

/// A fragment merged onto the workspace-scoped intermediate: workspace
/// fields merge field by field, package-only fields are ignored.
pub open spec fn spec_ws_inheritable_merged(
    c: WorkspaceConfigInheritable,
    l: TomlLayer,
) -> WorkspaceConfigInheritable {
    WorkspaceConfigInheritable {
        dist_version: merge_opt(c.dist_version, l.dist_version),
        dist_url_override: merge_opt(c.dist_url_override, l.dist_url_override),
        allow_dirty: merge_val(c.allow_dirty, l.allow_dirty),
        artifacts: spec_ws_artifact_merged(c.artifacts, l.artifacts),
        ci: spec_ci_inheritable_merged(c.ci, l.ci),
        hosts: spec_host_inheritable_merged(c.hosts, l.hosts),
        builds: spec_build_inheritable_merged(c.builds, l.builds),
        installers: spec_installer_inheritable_merged(c.installers, l.installers),
    }
}

impl WorkspaceConfigInheritable {
    /// Get the defaults for workspace-level config.
    pub fn defaults_for_workspace(workspaces: &WorkspaceInfo) -> (r: Self)
        ensures
            r.dist_version is None,
            r.dist_url_override is None,
            r.allow_dirty@ == Seq::<GenerateMode>::empty(),
            r.artifacts == (WorkspaceArtifactConfig { source_tarball: true }),
            r.ci == spec_ci_defaults(),
            r.hosts == spec_host_defaults(),
            r.builds == spec_build_defaults(),
            r.installers == spec_installer_defaults(),
    {
        WorkspaceConfigInheritable {
            artifacts: WorkspaceArtifactConfig::defaults_for_workspace(workspaces),
            ci: CiConfigInheritable::defaults_for_workspace(workspaces),
            hosts: HostConfigInheritable::defaults_for_workspace(workspaces),
            builds: BuildConfigInheritable::defaults_for_workspace(workspaces),
            installers: InstallerConfigInheritable::defaults_for_workspace(workspaces),
            dist_version: None,
            dist_url_override: None,
            allow_dirty: Vec::new(),
        }
    }

    /// Merge a fragment onto this intermediate; the fragment's
    /// package-only fields are ignored here.
    pub fn apply_layer(&mut self, src: TomlLayer)
        ensures
            *final(self) == spec_ws_inheritable_merged(*old(self), src),
    {
        let TomlLayer {
            dist_version,
            config_version: _,
            dist_url_override,
            dist: _,
            allow_dirty,
            targets: _,
            artifacts,
            builds,
            ci,
            hosts,
            installers,
            publishers: _,
        } = src;
        self.artifacts.apply_val_layer(artifacts);
        self.builds.apply_val_layer(builds);
        self.hosts.apply_val_layer(hosts);
        self.installers.apply_val_layer(installers);
        self.ci.apply_val_layer(ci);
        apply_opt(&mut self.dist_version, dist_version);
        apply_opt(&mut self.dist_url_override, dist_url_override);
        apply_val(&mut self.allow_dirty, allow_dirty);
    }

    /// Apply the inheritance to get the final workspace configuration.
    pub fn apply_inheritance_for_workspace(self, workspaces: &WorkspaceInfo) -> (r: WorkspaceConfig)
        ensures
            r.dist_version == self.dist_version,
            r.dist_url_override == self.dist_url_override,
            r.allow_dirty == self.allow_dirty,
            r.artifacts == self.artifacts,
            r.ci == spec_ci_fold(self.ci),
            r.hosts == spec_ws_host_fold(self.hosts),
            r.builds == spec_ws_build_fold(self.builds),
            r.installers.updater == self.installers.updater,
    {
        let WorkspaceConfigInheritable {
            artifacts,
            ci,
            hosts,
            builds,
            installers,
            dist_version,
            dist_url_override,
            allow_dirty,
        } = self;
        WorkspaceConfig {
            artifacts,
            ci: ci.apply_inheritance_for_workspace(workspaces),
            hosts: hosts.apply_inheritance_for_workspace(workspaces),
            builds: builds.apply_inheritance_for_workspace(workspaces),
            installers: installers.apply_inheritance_for_workspace(workspaces),
            dist_version,
            dist_url_override,
            allow_dirty,
        }
    }
}

/// Fully resolved configuration scoped to one package.
#[derive(Debug, Clone, PartialEq, Eq)]
pub struct AppConfig {
    /// Artifact configuration.
    pub artifacts: AppArtifactConfig,
    /// Build configuration.
    pub builds: AppBuildConfig,
    /// Host configuration.
    pub hosts: AppHostConfig,
    /// Installer configuration.
    pub installers: AppInstallerConfig,
    /// Publisher configuration.
    pub publishers: PublisherConfig,
    /// Whether the package should be distributed at all.
    pub dist: Option<bool>,
    /// The full set of target triples to build for.
    pub targets: Vec<String>,
}

/// Configuration scoped to one package whose inheritance relationships have
/// not been folded in yet.
#[derive(Debug, Clone, PartialEq, Eq)]
pub struct AppConfigInheritable {
    /// Artifact configuration (no common fragment, already final).
    pub artifacts: AppArtifactConfig,
    /// Build configuration, common fragment not yet folded.
    pub builds: BuildConfigInheritable,
    /// Host configuration, common fragment not yet folded.
    pub hosts: HostConfigInheritable,
    /// Installer configuration, common fragment not yet folded.
    pub installers: InstallerConfigInheritable,
    /// Publisher configuration, common fragment not yet folded.
    pub publishers: PublisherConfigInheritable,
    /// Whether the package should be distributed at all.
    pub dist: Option<bool>,
    /// The full set of target triples to build for.
    pub targets: Vec<String>,
}

/// A fragment merged onto the package-scoped intermediate: package fields
/// merge field by field, workspace-only fields are ignored.
pub open spec fn spec_app_inheritable_merged(
    c: AppConfigInheritable,
    l: TomlLayer,
) -> AppConfigInheritable {
    AppConfigInheritable {
        artifacts: spec_app_artifact_merged(c.artifacts, l.artifacts),
        builds: spec_build_inheritable_merged(c.builds, l.builds),
        hosts: spec_host_inheritable_merged(c.hosts, l.hosts),
        installers: spec_installer_inheritable_merged(c.installers, l.installers),
        publishers: spec_publisher_inheritable_merged(c.publishers, l.publishers),
        dist: merge_opt(c.dist, l.dist),
        targets: merge_val(c.targets, l.targets),
    }
}

impl AppConfigInheritable {
    /// Get the defaults for the given package.
    pub fn defaults_for_package(workspaces: &WorkspaceInfo, pkg_idx: usize) -> (r: Self)
        ensures
            r.artifacts.archives.include_globs@ == Seq::<String>::empty(),
            r.artifacts.archives.auto_includes == true,
            r.artifacts.extra@ == Seq::<crate::artifacts::ExtraArtifact>::empty(),
            r.builds == spec_build_defaults(),
            r.hosts == spec_host_defaults(),
            r.installers == spec_installer_defaults(),
            r.publishers == spec_publisher_defaults(),
            r.dist is None,
            r.targets@ == Seq::<String>::empty(),
    {
        AppConfigInheritable {
            artifacts: AppArtifactConfig::defaults_for_package(workspaces, pkg_idx),
            builds: BuildConfigInheritable::defaults_for_package(workspaces, pkg_idx),
            hosts: HostConfigInheritable::defaults_for_package(workspaces, pkg_idx),
            installers: InstallerConfigInheritable::defaults_for_package(workspaces, pkg_idx),
            publishers: PublisherConfigInheritable::defaults_for_package(workspaces, pkg_idx),
            dist: None,
            targets: Vec::new(),
        }
    }

    /// Merge a fragment onto this intermediate; the fragment's
    /// workspace-only fields are ignored here.
    pub fn apply_layer(&mut self, src: TomlLayer)
        ensures
            *final(self) == spec_app_inheritable_merged(*old(self), src),
    {
        let TomlLayer {
            dist_version: _,
            config_version: _,
            dist_url_override: _,
            dist,
            allow_dirty: _,
            targets,
            artifacts,
            builds,
            ci: _,
            hosts,
            installers,
            publishers,
        } = src;
        self.artifacts.apply_val_layer(artifacts);
        self.builds.apply_val_layer(builds);
        self.hosts.apply_val_layer(hosts);
        self.installers.apply_val_layer(installers);
        self.publishers.apply_val_layer(publishers);
        apply_opt(&mut self.dist, dist);
        apply_val(&mut self.targets, targets);
    }

    /// Fold in inheritance relationships to get the final package config.
    pub fn apply_inheritance_for_package(self, workspaces: &WorkspaceInfo, pkg_idx: usize) -> (r:
        AppConfig)
        ensures
            r.artifacts == self.artifacts,
            crate::builds::spec_app_build_folded(r.builds, self.builds),
            r.hosts == spec_app_host_fold(self.hosts),
            spec_app_installer_folded(r.installers, self.installers),
            r.publishers == spec_publisher_fold(self.publishers),
            r.dist == self.dist,
            r.targets == self.targets,
    {
        let AppConfigInheritable {
            artifacts,
            builds,
            hosts,
            installers,
            publishers,
            dist: do_dist,
            targets,
        } = self;
        AppConfig {
            artifacts,
            builds: builds.apply_inheritance_for_package(workspaces, pkg_idx),
            hosts: hosts.apply_inheritance_for_package(workspaces, pkg_idx),
            installers: installers.apply_inheritance_for_package(workspaces, pkg_idx),
            publishers: publishers.apply_inheritance_for_package(workspaces, pkg_idx),
            dist: do_dist,
            targets,
        }
    }
}

/// The workspace host configuration a raw (not yet normalized) layer
/// resolves to.
pub open spec fn spec_ws_host_resolved_from_layer(l: Option<HostLayer>) -> WorkspaceHostConfig {
    spec_ws_host_fold(spec_host_inheritable_merged(spec_host_defaults(), l))
}

/// Two workspace host configurations agree, except that the first one's
/// submodule path is the second one's rebased onto `base`.
pub open spec fn spec_ws_host_cfg_normalized_eq(
    r: WorkspaceHostConfig,
    e: WorkspaceHostConfig,
    base: Seq<char>,
) -> bool {
    &&& r.force_latest == e.force_latest
    &&& (r.github is Some <==> e.github is Some)
    &&& e.github is Some ==> {
        let rg = r.github.unwrap();
        let eg = e.github.unwrap();
        &&& rg.display == eg.display
        &&& rg.display_name == eg.display_name
        &&& opt_path_normalized(rg.submodule_path, eg.submodule_path, base)
    }
}

/// The include globs one fragment carries, if any.
pub open spec fn spec_layer_globs(a: Option<ArtifactLayer>) -> Option<Vec<String>> {
    if a is Some && a.unwrap().archives is Some {
        a.unwrap().archives.unwrap().include_globs
    } else {
        None
    }
}

/// The automatic-includes toggle one fragment carries, if any.
pub open spec fn spec_layer_auto_includes(a: Option<ArtifactLayer>) -> Option<bool> {
    if a is Some && a.unwrap().archives is Some {
        a.unwrap().archives.unwrap().auto_includes
    } else {
        None
    }
}

/// The extra artifacts one fragment carries, if any.
pub open spec fn spec_layer_extra(a: Option<ArtifactLayer>) -> Option<
    Vec<crate::artifacts::ExtraArtifact>,
> {
    if a is Some {
        a.unwrap().extra
    } else {
        None
    }
}

/// How a package's resolved artifacts relate to the raw workspace and
/// package fragments: the package fragment wins field by field, each path
/// normalized against the root of the fragment that declared it.
pub open spec fn spec_app_artifacts_resolved(
    r: AppArtifactConfig,
    g: Option<ArtifactLayer>,
    l: Option<ArtifactLayer>,
    ws_base: Seq<char>,
    pkg_base: Seq<char>,
) -> bool {
    &&& (if spec_layer_globs(l) is Some {
        paths_normalized(r.archives.include_globs@, spec_layer_globs(l).unwrap()@, pkg_base)
    } else if spec_layer_globs(g) is Some {
        paths_normalized(r.archives.include_globs@, spec_layer_globs(g).unwrap()@, ws_base)
    } else {
        r.archives.include_globs@ == Seq::<String>::empty()
    })
    &&& r.archives.auto_includes == merge_val(
        merge_val(true, spec_layer_auto_includes(g)),
        spec_layer_auto_includes(l),
    )
    &&& (if spec_layer_extra(l) is Some {
        extras_normalized(r.extra@, spec_layer_extra(l).unwrap()@, pkg_base)
    } else if spec_layer_extra(g) is Some {
        extras_normalized(r.extra@, spec_layer_extra(g).unwrap()@, ws_base)
    } else {
        r.extra@ == Seq::<crate::artifacts::ExtraArtifact>::empty()
    })
}

/// An intermediate rebuilt from an already-folded package configuration:
/// the artifacts section and the plain fields carry over, each folding
/// domain is rebuilt with its values explicitly set and its domain-level
/// common fragment gone.
pub open spec fn spec_app_inheritable_of_final(c: AppConfig) -> AppConfigInheritable {
    AppConfigInheritable {
        artifacts: c.artifacts,
        builds: crate::builds::spec_build_inheritable_of_final(c.builds),
        hosts: crate::hosts::spec_app_host_inheritable_of_final(c.hosts),
        installers: crate::installers::spec_installer_inheritable_of_final(
            c.installers,
            crate::installers::spec_common_installer_unset(),
            false,
        ),
        publishers: crate::publishers::spec_publisher_inheritable_of_final(
            c.publishers,
            crate::publishers::CommonPublisherLayer { prereleases: None },
        ),
        dist: c.dist,
        targets: c.targets,
    }
}

/// Folding a final configuration's already-folded intermediate a second
/// time yields identical content: every value the first fold resolved is
/// explicitly set in the rebuilt intermediate, so nothing changes.
pub proof fn lemma_app_fold_idempotent(c: AppConfig, r: AppConfig)
    requires
        r.artifacts == spec_app_inheritable_of_final(c).artifacts,
        crate::builds::spec_app_build_folded(r.builds, spec_app_inheritable_of_final(c).builds),
        r.hosts == spec_app_host_fold(spec_app_inheritable_of_final(c).hosts),
        spec_app_installer_folded(r.installers, spec_app_inheritable_of_final(c).installers),
        r.publishers == spec_publisher_fold(spec_app_inheritable_of_final(c).publishers),
        r.dist == spec_app_inheritable_of_final(c).dist,
        r.targets == spec_app_inheritable_of_final(c).targets,
    ensures
        r.artifacts == c.artifacts,
        r.hosts == c.hosts,
        r.publishers == c.publishers,
        r.dist == c.dist,
        r.targets == c.targets,
        r.builds.cargo is Some <==> c.builds.cargo is Some,
        c.builds.cargo is Some ==> {
            let rc = r.builds.cargo.unwrap();
            let cc = c.builds.cargo.unwrap();
            &&& rc.min_glibc_version == cc.min_glibc_version
            &&& rc.features@ == cc.features@
            &&& rc.default_features == cc.default_features
            &&& rc.all_features == cc.all_features
            &&& rc.cargo_auditable == cc.cargo_auditable
            &&& rc.cargo_cyclonedx == cc.cargo_cyclonedx
        },
        crate::installers::spec_app_installer_cfg_eq(r.installers, c.installers),
{
    crate::builds::lemma_build_fold_idempotent(c.builds, r.builds);
    crate::hosts::lemma_app_host_fold_idempotent(c.hosts);
    crate::publishers::lemma_publisher_fold_idempotent(
        c.publishers,
        crate::publishers::CommonPublisherLayer { prereleases: None },
    );
    crate::installers::lemma_installer_fold_idempotent(
        c.installers,
        crate::installers::spec_common_installer_unset(),
        false,
        r.installers,
    );
}

/// The target list a package resolves to: the package fragment's when
/// set, else the workspace fragment's, else none.
pub open spec fn spec_resolved_targets(g: TomlLayer, l: TomlLayer) -> Seq<String> {
    if l.targets is Some {
        l.targets.unwrap()@
    } else if g.targets is Some {
        g.targets.unwrap()@
    } else {
        Seq::empty()
    }
}

/// Precedence: for a field with a compiled default, a workspace value and
/// a package value, the package fragment always wins. Stated here for the
/// target list; [`crate::layer::lemma_merge_precedence`] states it for the
/// generic combinator every scalar field merges through.
pub proof fn lemma_precedence_targets(g: TomlLayer, l: TomlLayer)
    requires
        l.targets is Some,
    ensures
        spec_resolved_targets(g, l) == l.targets.unwrap()@,
{
}

/// Precedence, stated across the package-scope fields at once: whatever
/// intermediate `c` the compiled defaults and any earlier layers produced,
/// a value the later fragment `l` carries always wins when it is merged
/// on, at every nesting level.
pub proof fn lemma_precedence_app_layer(c: AppConfigInheritable, l: TomlLayer)
    ensures
        l.dist is Some ==> spec_app_inheritable_merged(c, l).dist == l.dist,
        l.targets is Some ==> spec_app_inheritable_merged(c, l).targets == l.targets.unwrap(),
        spec_layer_globs(l.artifacts) is Some ==> spec_app_inheritable_merged(
            c,
            l,
        ).artifacts.archives.include_globs == spec_layer_globs(l.artifacts).unwrap(),
        spec_layer_auto_includes(l.artifacts) is Some ==> spec_app_inheritable_merged(
            c,
            l,
        ).artifacts.archives.auto_includes == spec_layer_auto_includes(l.artifacts).unwrap(),
        spec_layer_extra(l.artifacts) is Some ==> spec_app_inheritable_merged(
            c,
            l,
        ).artifacts.extra == spec_layer_extra(l.artifacts).unwrap(),
        l.builds is Some && l.builds.unwrap().common.min_glibc_version is Some
            ==> spec_app_inheritable_merged(c, l).builds.common.min_glibc_version
            == l.builds.unwrap().common.min_glibc_version,
        spec_cargo_val(l.builds) is Some && spec_cargo_val(l.builds).unwrap().features is Some
            ==> spec_app_inheritable_merged(c, l).builds.cargo is Some
            && spec_app_inheritable_merged(c, l).builds.cargo.unwrap().features == spec_cargo_val(
            l.builds,
        ).unwrap().features,
        l.hosts is Some && l.hosts.unwrap().common.display is Some ==> spec_app_inheritable_merged(
            c,
            l,
        ).hosts.common.display == l.hosts.unwrap().common.display,
        l.hosts is Some && l.hosts.unwrap().common.display_name is Some
            ==> spec_app_inheritable_merged(c, l).hosts.common.display_name
            == l.hosts.unwrap().common.display_name,
        l.hosts is Some && l.hosts.unwrap().force_latest is Some ==> spec_app_inheritable_merged(
            c,
            l,
        ).hosts.force_latest == l.hosts.unwrap().force_latest.unwrap(),
        l.installers is Some && l.installers.unwrap().common.success_msg is Some
            ==> spec_app_inheritable_merged(c, l).installers.common.success_msg
            == l.installers.unwrap().common.success_msg,
        l.installers is Some && l.installers.unwrap().common.install_path is Some
            ==> spec_app_inheritable_merged(c, l).installers.common.install_path
            == l.installers.unwrap().common.install_path,
        l.installers is Some && l.installers.unwrap().updater is Some
            ==> spec_app_inheritable_merged(c, l).installers.updater == l.installers.unwrap(
        ).updater.unwrap(),
{
}

/// Precedence for the workspace-scope fields: whatever intermediate `c`
/// the compiled defaults and any earlier layers produced, a value the
/// later fragment `l` carries always wins when it is merged on.
pub proof fn lemma_precedence_ws_layer(c: WorkspaceConfigInheritable, l: TomlLayer)
    ensures
        l.dist_version is Some ==> spec_ws_inheritable_merged(c, l).dist_version == l.dist_version,
        l.dist_url_override is Some ==> spec_ws_inheritable_merged(c, l).dist_url_override
            == l.dist_url_override,
        l.allow_dirty is Some ==> spec_ws_inheritable_merged(c, l).allow_dirty == l.allow_dirty.unwrap(),
        l.artifacts is Some && l.artifacts.unwrap().source_tarball is Some
            ==> spec_ws_inheritable_merged(c, l).artifacts.source_tarball == l.artifacts.unwrap(
        ).source_tarball.unwrap(),
        l.builds is Some && l.builds.unwrap().macos_sign is Some ==> spec_ws_inheritable_merged(
            c,
            l,
        ).builds.macos_sign == l.builds.unwrap().macos_sign.unwrap(),
        l.builds is Some && l.builds.unwrap().ssldotcom_windows_sign is Some
            ==> spec_ws_inheritable_merged(c, l).builds.ssldotcom_windows_sign == l.builds.unwrap(
        ).ssldotcom_windows_sign,
        l.ci is Some && l.ci.unwrap().common.fail_fast is Some ==> spec_ws_inheritable_merged(
            c,
            l,
        ).ci.common.fail_fast == l.ci.unwrap().common.fail_fast,
        l.hosts is Some && l.hosts.unwrap().force_latest is Some ==> spec_ws_inheritable_merged(
            c,
            l,
        ).hosts.force_latest == l.hosts.unwrap().force_latest.unwrap(),
{
}

/// Precedence through folding: a domain-level common value set by the
/// package fragment reaches the intermediate in place of both the
/// workspace fragment's value and the compiled default.
pub proof fn lemma_precedence_success_msg(g: TomlLayer, l: TomlLayer)
    requires
        l.installers is Some,
        l.installers.unwrap().common.success_msg is Some,
    ensures
        spec_installer_inheritable_merged(
            spec_installer_inheritable_merged(spec_installer_defaults(), g.installers),
            l.installers,
        ).common.success_msg == l.installers.unwrap().common.success_msg,
{
}

/// Fragment-default-fill extends include globs instead of replacing them:
/// when both fragments carry globs, the merged fragment carries the
/// package's entries followed by the workspace's.
pub proof fn lemma_include_globs_extended(
    r: Option<ArtifactLayer>,
    pkg: Option<ArtifactLayer>,
    ws: Option<ArtifactLayer>,
)
    requires
        spec_artifacts_filled(r, pkg, ws),
        spec_layer_globs(pkg) is Some,
        spec_layer_globs(ws) is Some,
    ensures
        spec_layer_globs(r) is Some,
        spec_layer_globs(r).unwrap()@ == spec_layer_globs(pkg).unwrap()@ + spec_layer_globs(
            ws,
        ).unwrap()@,
{
}

/// A scope violation is non-fatal and inert: a package fragment that sets
/// the workspace-only CI section earns a warning, and the resolved package
/// configuration is exactly what the same fragment without the CI section
/// resolves to.
pub proof fn lemma_package_ci_ignored(
    c: AppConfigInheritable,
    l: TomlLayer,
    l2: TomlLayer,
    path: String,
)
    requires
        l2 == (TomlLayer { ci: None, ..l }),
        l.ci is Some,
    ensures
        spec_global_only_warnings(l, path).contains(spec_warn(GlobalOnlyField::Ci, path)),
        spec_app_inheritable_merged(c, l) == spec_app_inheritable_merged(c, l2),
{
    let head = spec_top_warnings(l.dist_version, l.dist_url_override, l.allow_dirty, path)
        + spec_artifact_warnings(l.artifacts, path) + spec_build_warnings(l.builds, path);
    let tail = spec_tail_warnings(l.ci, l.hosts, l.publishers, path);
    let all = spec_global_only_warnings(l, path);
    assert(all =~= head + tail);
    assert(tail[0] == spec_warn(GlobalOnlyField::Ci, path));
    assert(all[head.len() as int] == spec_warn(GlobalOnlyField::Ci, path));
}

/// Every workspace-only top-level field the package-scope merge ignores
/// is inert: a package fragment with those fields cleared merges onto the
/// package intermediate exactly as the full fragment does. (The publishers
/// section, also workspace-only, is handled one level up: [`app_config`]
/// never hands a package fragment's publishers to the merge, as its
/// contract states.)
pub proof fn lemma_workspace_only_fields_inert(
    c: AppConfigInheritable,
    l: TomlLayer,
    l2: TomlLayer,
)
    requires
        l2 == (TomlLayer {
            ci: None,
            allow_dirty: None,
            dist_version: None,
            dist_url_override: None,
            ..l
        }),
    ensures
        spec_app_inheritable_merged(c, l) == spec_app_inheritable_merged(c, l2),
{
}

/// Compute the workspace-level config: normalize the workspace fragment's
/// paths against the workspace root, merge it over compiled defaults, and
/// fold the common fragments down.
pub fn workspace_config(workspaces: &WorkspaceInfo, global_config: TomlLayer) -> (r:
    WorkspaceConfig)
    ensures
        r.dist_version == global_config.dist_version,
        r.dist_url_override == global_config.dist_url_override,
        r.allow_dirty@ == (if global_config.allow_dirty is Some {
            global_config.allow_dirty.unwrap()@
        } else {
            Seq::<GenerateMode>::empty()
        }),
        r.artifacts == spec_ws_artifact_merged(
            (WorkspaceArtifactConfig { source_tarball: true }),
            global_config.artifacts,
        ),
        r.ci == spec_ci_fold(spec_ci_inheritable_merged(spec_ci_defaults(), global_config.ci)),
        r.builds == spec_ws_build_fold(
            spec_build_inheritable_merged(spec_build_defaults(), global_config.builds),
        ),
        r.installers.updater == spec_installer_inheritable_merged(
            spec_installer_defaults(),
            global_config.installers,
        ).updater,
        spec_ws_host_cfg_normalized_eq(
            r.hosts,
            spec_ws_host_resolved_from_layer(global_config.hosts),
            workspaces.workspace_dir@,
        ),
{
    let mut global_config = global_config;
    global_config.make_relative_to(&workspaces.workspace_dir);
    let mut config = WorkspaceConfigInheritable::defaults_for_workspace(workspaces);
    config.apply_layer(global_config);
    config.apply_inheritance_for_workspace(workspaces)
}

/// Compute the package-level config: normalize each fragment's paths
/// against the root of the file that declared them, merge the workspace
/// fragment and then the package fragment over compiled defaults (the later
/// layer wins), and fold the common fragments down.
pub fn app_config(
    workspaces: &WorkspaceInfo,
    pkg_idx: usize,
    global_config: TomlLayer,
    local_config: TomlLayer,
) -> (r: AppConfig)
    requires
        pkg_idx < workspaces.packages@.len(),
    ensures
        r.dist == merge_opt(global_config.dist, local_config.dist),
        r.targets@ == spec_resolved_targets(global_config, local_config),
        spec_app_artifacts_resolved(
            r.artifacts,
            global_config.artifacts,
            local_config.artifacts,
            workspaces.workspace_dir@,
            workspaces.packages@[pkg_idx as int].package_root@,
        ),
        crate::builds::spec_app_build_folded(
            r.builds,
            spec_build_inheritable_merged(
                spec_build_inheritable_merged(spec_build_defaults(), global_config.builds),
                local_config.builds,
            ),
        ),
        r.hosts == spec_app_host_fold(
            spec_host_inheritable_merged(
                spec_host_inheritable_merged(spec_host_defaults(), global_config.hosts),
                local_config.hosts,
            ),
        ),
        spec_app_installer_folded(
            r.installers,
            spec_installer_inheritable_merged(
                spec_installer_inheritable_merged(
                    spec_installer_defaults(),
                    global_config.installers,
                ),
                local_config.installers,
            ),
        ),
        r.publishers == spec_publisher_fold(
            spec_publisher_inheritable_merged(spec_publisher_defaults(), global_config.publishers),
        ),
{
    let mut global_config = global_config;
    let mut local_config = local_config;
    let package = &workspaces.packages[pkg_idx];
    global_config.make_relative_to(&workspaces.workspace_dir);
    local_config.make_relative_to(&package.package_root);
    // Publishers are workspace-only: whatever the package fragment said of
    // them is never honored here, so only the workspace fragment's section
    // takes part in the merge.
    local_config.publishers = None;
    let mut config = AppConfigInheritable::defaults_for_package(workspaces, pkg_idx);
    config.apply_layer(global_config);
    config.apply_layer(local_config);
    config.apply_inheritance_for_package(workspaces, pkg_idx)
}

/// Whether a fragment requests install paths that cannot coexist: more
/// than one strategy together with the exclusive package-manager-home
/// strategy.
pub open spec fn spec_install_paths_incompatible(l: TomlLayer) -> bool {
    &&& l.installers is Some
    &&& l.installers.unwrap().common.install_path is Some
    &&& {
        let p = l.installers.unwrap().common.install_path.unwrap()@;
        p.len() > 1 && p.contains(InstallPathStrategy::CargoHome)
    }
}

/// Whether the list names the package-manager-home strategy.
fn contains_cargo_home(v: &Vec<InstallPathStrategy>) -> (r: bool)
    ensures
        r == v@.contains(InstallPathStrategy::CargoHome),
{
    let n = v.len();
    let mut i: usize = 0;
    while i < n
        invariant
            i <= n,
            n == v.len(),
            forall|j: int| 0 <= j < i ==> !(#[trigger] v@[j] matches InstallPathStrategy::CargoHome),
        decreases n - i,
    {
        match &v[i] {
            InstallPathStrategy::CargoHome => {
                assert(v@.contains(InstallPathStrategy::CargoHome));
                return true;
            },
            _ => {},
        }
        i = i + 1;
    }
    false
}

/// Fill-if-unset: the destination keeps its own value and only adopts the
/// source where it said nothing itself.
pub open spec fn spec_fill<T>(dest: Option<T>, src: Option<T>) -> Option<T> {
    if dest is None {
        src
    } else {
        dest
    }
}

/// How the merged artifact section relates to the package's and the
/// workspace's: a wholly unset package section is copied verbatim; an
/// existing one keeps its fields, except that workspace include globs are
/// appended after the package's own.
pub open spec fn spec_artifacts_filled(
    r: Option<ArtifactLayer>,
    pkg: Option<ArtifactLayer>,
    ws: Option<ArtifactLayer>,
) -> bool {
    match pkg {
        None => r == ws,
        Some(p) => match spec_layer_globs(ws) {
            None => r == Some(p),
            Some(wg) => match r {
                None => false,
                Some(ra) => {
                    &&& ra.source_tarball == p.source_tarball
                    &&& ra.extra == p.extra
                    &&& match ra.archives {
                        None => false,
                        Some(rar) => match p.archives {
                            None => {
                                &&& rar.auto_includes is None
                                &&& rar.include_globs == Some(wg)
                            },
                            Some(par) => {
                                &&& rar.auto_includes == par.auto_includes
                                &&& match par.include_globs {
                                    None => rar.include_globs == Some(wg),
                                    Some(pg) => match rar.include_globs {
                                        None => false,
                                        Some(rg) => rg@ == pg@ + wg@,
                                    },
                                }
                            },
                        },
                    }
                },
            },
        },
    }
}

/// One scope-violation warning.
pub open spec fn spec_warn(f: GlobalOnlyField, path: String) -> MergeWarning {
    MergeWarning { field: f, manifest_path: path }
}

/// One warning when the condition holds, nothing otherwise.
pub open spec fn spec_warn_if(cond: bool, f: GlobalOnlyField, path: String) -> Seq<MergeWarning> {
    if cond {
        seq![spec_warn(f, path)]
    } else {
        Seq::empty()
    }
}

/// The detailed cargo sub-structure a build section carries, if any.
pub open spec fn spec_cargo_val(b: Option<BuildLayer>) -> Option<CargoBuildLayer> {
    match b {
        Some(bl) => match bl.cargo {
            Some(BoolOr::Val(c)) => Some(c),
            _ => None,
        },
        None => None,
    }
}

/// Warnings for workspace-only top-level fields set in a package fragment.
pub open spec fn spec_top_warnings(
    dist_version: Option<Version>,
    dist_url_override: Option<String>,
    allow_dirty: Option<Vec<GenerateMode>>,
    path: String,
) -> Seq<MergeWarning> {
    spec_warn_if(dist_version is Some, GlobalOnlyField::DistVersion, path)
        + spec_warn_if(dist_url_override is Some, GlobalOnlyField::DistUrlOverride, path)
        + spec_warn_if(allow_dirty is Some, GlobalOnlyField::AllowDirty, path)
}

/// Warnings for workspace-only artifact fields set in a package fragment.
pub open spec fn spec_artifact_warnings(a: Option<ArtifactLayer>, path: String) -> Seq<
    MergeWarning,
> {
    spec_warn_if(
        a is Some && a.unwrap().source_tarball is Some,
        GlobalOnlyField::ArtifactsSourceTarball,
        path,
    )
}

/// Warnings for workspace-only build fields set in a package fragment.
pub open spec fn spec_build_warnings(b: Option<BuildLayer>, path: String) -> Seq<MergeWarning> {
    spec_warn_if(
        b is Some && b.unwrap().ssldotcom_windows_sign is Some,
        GlobalOnlyField::BuildsSsldotcomWindowsSign,
        path,
    )
        + spec_warn_if(
        b is Some && b.unwrap().macos_sign == Some(true),
        GlobalOnlyField::BuildsMacosSign,
        path,
    )
        + spec_warn_if(
        spec_cargo_val(b) is Some && spec_cargo_val(b).unwrap().features is Some,
        GlobalOnlyField::CargoFeatures,
        path,
    )
        + spec_warn_if(
        spec_cargo_val(b) is Some && spec_cargo_val(b).unwrap().default_features == Some(true),
        GlobalOnlyField::CargoDefaultFeatures,
        path,
    )
        + spec_warn_if(
        spec_cargo_val(b) is Some && spec_cargo_val(b).unwrap().all_features == Some(true),
        GlobalOnlyField::CargoAllFeatures,
        path,
    )
        + spec_warn_if(
        spec_cargo_val(b) is Some && spec_cargo_val(b).unwrap().cargo_auditable == Some(true),
        GlobalOnlyField::CargoAuditable,
        path,
    )
        + spec_warn_if(
        spec_cargo_val(b) is Some && spec_cargo_val(b).unwrap().cargo_cyclonedx == Some(true),
        GlobalOnlyField::CargoCyclonedx,
        path,
    )
}

/// Whether a package fragment set the workspace-only GitHub host section
/// to anything but a bare `false`.
pub open spec fn spec_hosts_github_violation(h: Option<HostLayer>) -> bool {
    match h {
        Some(hl) => match hl.github {
            None => false,
            Some(BoolOr::Bool(b)) => b,
            Some(BoolOr::Val(_)) => true,
        },
        None => false,
    }
}

/// Warnings for the wholly workspace-only sections set in a package
/// fragment.
pub open spec fn spec_tail_warnings(
    ci: Option<CiLayer>,
    hosts: Option<HostLayer>,
    publishers: Option<PublisherLayer>,
    path: String,
) -> Seq<MergeWarning> {
    spec_warn_if(ci is Some, GlobalOnlyField::Ci, path)
        + spec_warn_if(spec_hosts_github_violation(hosts), GlobalOnlyField::HostsGithub, path)
        + spec_warn_if(publishers is Some, GlobalOnlyField::Publishers, path)
}

/// Every scope-violation warning a package fragment earns, in the order
/// the fields are checked.
pub open spec fn spec_global_only_warnings(l: TomlLayer, path: String) -> Seq<MergeWarning> {
    spec_top_warnings(l.dist_version, l.dist_url_override, l.allow_dirty, path)
        + spec_artifact_warnings(l.artifacts, path)
        + spec_build_warnings(l.builds, path)
        + spec_tail_warnings(l.ci, l.hosts, l.publishers, path)
}

/// Adopt the source value only where the destination said nothing.
fn fill_opt<T>(dest: &mut Option<T>, src: Option<T>)
    ensures
        *final(dest) == spec_fill(*old(dest), src),
{
    if dest.is_none() {
        *dest = src;
    }
}

/// Record the warnings for workspace-only top-level fields.
fn push_top_warnings(
    warnings: &mut Vec<MergeWarning>,
    dist_version: &Option<Version>,
    dist_url_override: &Option<String>,
    allow_dirty: &Option<Vec<GenerateMode>>,
    path: &String,
)
    ensures
        final(warnings)@ == old(warnings)@ + spec_top_warnings(
            *dist_version,
            *dist_url_override,
            *allow_dirty,
            *path,
        ),
{
    if dist_version.is_some() {
        warnings.push(
            MergeWarning { field: GlobalOnlyField::DistVersion, manifest_path: path.clone() },
        );
    }
    if dist_url_override.is_some() {
        warnings.push(
            MergeWarning { field: GlobalOnlyField::DistUrlOverride, manifest_path: path.clone() },
        );
    }
    if allow_dirty.is_some() {
        warnings.push(
            MergeWarning { field: GlobalOnlyField::AllowDirty, manifest_path: path.clone() },
        );
    }
    proof {
        assert(final(warnings)@ =~= old(warnings)@ + spec_top_warnings(
            *dist_version,
            *dist_url_override,
            *allow_dirty,
            *path,
        ));
    }
}

/// Record the warnings for workspace-only artifact fields.
fn push_artifact_warnings(
    warnings: &mut Vec<MergeWarning>,
    artifacts: &Option<ArtifactLayer>,
    path: &String,
)
    ensures
        final(warnings)@ == old(warnings)@ + spec_artifact_warnings(*artifacts, *path),
{
    match artifacts {
        Some(a) => {
            if a.source_tarball.is_some() {
                warnings.push(
                    MergeWarning {
                        field: GlobalOnlyField::ArtifactsSourceTarball,
                        manifest_path: path.clone(),
                    },
                );
            }
        },
        None => {},
    }
    proof {
        assert(final(warnings)@ =~= old(warnings)@ + spec_artifact_warnings(*artifacts, *path));
    }
}

/// Record the warnings for workspace-only build fields.
#[verifier::rlimit(60)]
fn push_build_warnings(
    warnings: &mut Vec<MergeWarning>,
    builds: &Option<BuildLayer>,
    path: &String,
)
    ensures
        final(warnings)@ == old(warnings)@ + spec_build_warnings(*builds, *path),
{
    match builds {
        None => {},
        Some(b) => {
            if b.ssldotcom_windows_sign.is_some() {
                warnings.push(
                    MergeWarning {
                        field: GlobalOnlyField::BuildsSsldotcomWindowsSign,
                        manifest_path: path.clone(),
                    },
                );
            }
            match b.macos_sign {
                Some(true) => {
                    warnings.push(
                        MergeWarning {
                            field: GlobalOnlyField::BuildsMacosSign,
                            manifest_path: path.clone(),
                        },
                    );
                },
                _ => {},
            }
            proof {
                assert(warnings@ =~= old(warnings)@ + spec_warn_if(
                    b.ssldotcom_windows_sign is Some,
                    GlobalOnlyField::BuildsSsldotcomWindowsSign,
                    *path,
                ) + spec_warn_if(
                    b.macos_sign == Some(true),
                    GlobalOnlyField::BuildsMacosSign,
                    *path,
                ));
            }
            match &b.cargo {
                Some(BoolOr::Val(c)) => {
                    if c.features.is_some() {
                        warnings.push(
                            MergeWarning {
                                field: GlobalOnlyField::CargoFeatures,
                                manifest_path: path.clone(),
                            },
                        );
                    }
                    match c.default_features {
                        Some(true) => {
                            warnings.push(
                                MergeWarning {
                                    field: GlobalOnlyField::CargoDefaultFeatures,
                                    manifest_path: path.clone(),
                                },
                            );
                        },
                        _ => {},
                    }
                    match c.all_features {
                        Some(true) => {
                            warnings.push(
                                MergeWarning {
                                    field: GlobalOnlyField::CargoAllFeatures,
                                    manifest_path: path.clone(),
                                },
                            );
                        },
                        _ => {},
                    }
                    match c.cargo_auditable {
                        Some(true) => {
                            warnings.push(
                                MergeWarning {
                                    field: GlobalOnlyField::CargoAuditable,
                                    manifest_path: path.clone(),
                                },
                            );
                        },
                        _ => {},
                    }
                    match c.cargo_cyclonedx {
                        Some(true) => {
                            warnings.push(
                                MergeWarning {
                                    field: GlobalOnlyField::CargoCyclonedx,
                                    manifest_path: path.clone(),
                                },
                            );
                        },
                        _ => {},
                    }
                },
                _ => {},
            }
        },
    }
    proof {
        assert(final(warnings)@ =~= old(warnings)@ + spec_build_warnings(*builds, *path));
    }
}

/// Record the warnings for the wholly workspace-only sections.
fn push_tail_warnings(
    warnings: &mut Vec<MergeWarning>,
    ci: &Option<CiLayer>,
    hosts: &Option<HostLayer>,
    publishers: &Option<PublisherLayer>,
    path: &String,
)
    ensures
        final(warnings)@ == old(warnings)@ + spec_tail_warnings(*ci, *hosts, *publishers, *path),
{
    if ci.is_some() {
        warnings.push(MergeWarning { field: GlobalOnlyField::Ci, manifest_path: path.clone() });
    }
    match hosts {
        Some(h) => {
            match &h.github {
                Some(g) => {
                    if g.is_not_false() {
                        warnings.push(
                            MergeWarning {
                                field: GlobalOnlyField::HostsGithub,
                                manifest_path: path.clone(),
                            },
                        );
                    }
                },
                None => {},
            }
        },
        None => {},
    }
    if publishers.is_some() {
        warnings.push(
            MergeWarning { field: GlobalOnlyField::Publishers, manifest_path: path.clone() },
        );
    }
    proof {
        assert(final(warnings)@ =~= old(warnings)@ + spec_tail_warnings(
            *ci,
            *hosts,
            *publishers,
            *path,
        ));
    }
}

impl TomlLayer {
    /// Update the format revision to the current default.
    pub fn with_current_config_version(self) -> (r: Self)
        ensures
            r == (TomlLayer { config_version: CURRENT_CONFIG_VERSION, ..self }),
    {
        TomlLayer { config_version: CURRENT_CONFIG_VERSION, ..self }
    }

    /// Update the pinned engine version to the running engine's own.
    pub fn with_current_dist_version(self) -> (r: Self)
        ensures
            r == (TomlLayer { dist_version: Some(spec_current_dist_version()), ..self }),
    {
        TomlLayer { dist_version: Some(current_dist_version()), ..self }
    }

    /// Reject a fragment that declares a format revision newer than this
    /// engine understands; an older or current revision is accepted.
    pub fn validate_config_version(&self) -> (r: DistResult<()>)
        ensures
            r is Ok <==> self.config_version <= CURRENT_CONFIG_VERSION,
            r is Err ==> r->Err_0 == (DistError::UnsupportedConfigVersion {
                declared: self.config_version,
            }),
    {
        if self.config_version > CURRENT_CONFIG_VERSION {
            Err(DistError::UnsupportedConfigVersion { declared: self.config_version })
        } else {
            Ok(())
        }
    }

    /// Determine whether the configured install paths are compatible with
    /// each other: requesting the package-manager-home strategy alongside
    /// any other strategy is rejected.
    pub fn validate_install_paths(&self) -> (r: DistResult<()>)
        ensures
            r is Err <==> spec_install_paths_incompatible(*self),
            r is Err ==> r->Err_0 == DistError::IncompatibleInstallPathConfiguration,
    {
        match &self.installers {
            Some(installers) => {
                match &installers.common.install_path {
                    Some(paths) => {
                        if paths.len() > 1 && contains_cargo_home(paths) {
                            return Err(DistError::IncompatibleInstallPathConfiguration);
                        }
                    },
                    None => {},
                }
            },
            None => {},
        }
        Ok(())
    }

    /// Merge a workspace fragment into this package fragment: every
    /// package-legal field left unset here is copied from the workspace
    /// fragment (include globs are instead extended, package entries
    /// first), and every workspace-only field set here earns a non-fatal
    /// warning while its value is dropped, never honored. The publishers
    /// section is wholly workspace-only: whatever this fragment said, it
    /// is replaced by the workspace's.
    pub fn merge_workspace_config(
        &mut self,
        workspace_config: TomlLayer,
        package_manifest_path: &String,
    ) -> (warnings: Vec<MergeWarning>)
        ensures
            warnings@ == spec_global_only_warnings(*old(self), *package_manifest_path),
            final(self).config_version == old(self).config_version,
            final(self).dist_version == old(self).dist_version,
            final(self).dist_url_override == old(self).dist_url_override,
            final(self).allow_dirty == old(self).allow_dirty,
            final(self).hosts == old(self).hosts,
            final(self).installers == spec_fill(old(self).installers, workspace_config.installers),
            final(self).targets == spec_fill(old(self).targets, workspace_config.targets),
            final(self).dist == spec_fill(old(self).dist, workspace_config.dist),
            final(self).builds == spec_fill(old(self).builds, workspace_config.builds),
            final(self).ci == spec_fill(old(self).ci, workspace_config.ci),
            final(self).publishers == workspace_config.publishers,
            spec_artifacts_filled(
                final(self).artifacts,
                old(self).artifacts,
                workspace_config.artifacts,
            ),
    {
        // Warn about workspace-only settings this package fragment set
        let mut warnings: Vec<MergeWarning> = Vec::new();
        push_top_warnings(
            &mut warnings,
            &self.dist_version,
            &self.dist_url_override,
            &self.allow_dirty,
            package_manifest_path,
        );
        push_artifact_warnings(&mut warnings, &self.artifacts, package_manifest_path);
        push_build_warnings(&mut warnings, &self.builds, package_manifest_path);
        push_tail_warnings(
            &mut warnings,
            &self.ci,
            &self.hosts,
            &self.publishers,
            package_manifest_path,
        );

        let TomlLayer {
            installers: ws_installers,
            targets: ws_targets,
            dist: ws_dist,
            artifacts: ws_artifacts,
            builds: ws_builds,
            ci: ws_ci,
            publishers: ws_publishers,
            dist_version: _,
            config_version: _,
            dist_url_override: _,
            allow_dirty: _,
            hosts: _,
        } = workspace_config;

        // Fill the package-legal sections the package fragment left unset
        fill_opt(&mut self.installers, ws_installers);
        fill_opt(&mut self.targets, ws_targets);
        fill_opt(&mut self.dist, ws_dist);
        fill_opt(&mut self.builds, ws_builds);
        fill_opt(&mut self.ci, ws_ci);
        // Publishers are workspace-only: a package-set section was warned
        // about above and is dropped here, never honored.
        self.publishers = ws_publishers;

        // Artifacts: a wholly unset package section is copied verbatim;
        // otherwise workspace include globs extend the package's own.
        match ws_artifacts {
            None => {},
            Some(wsa) => {
                if self.artifacts.is_none() {
                    self.artifacts = Some(wsa);
                } else {
                    let ArtifactLayer { archives: ws_archives, extra: _, source_tarball: _ } = wsa;
                    let ws_globs = match ws_archives {
                        Some(a) => a.include_globs,
                        None => None,
                    };
                    match ws_globs {
                        None => {},
                        Some(wg) => {
                            let cur = self.artifacts.take();
                            match cur {
                                None => {},
                                Some(mut p) => {
                                    let ar = p.archives.take();
                                    match ar {
                                        None => {
                                            p.archives = Some(
                                                ArchiveLayer {
                                                    include_globs: Some(wg),
                                                    auto_includes: None,
                                                },
                                            );
                                        },
                                        Some(mut par) => {
                                            let g = par.include_globs.take();
                                            match g {
                                                None => {
                                                    par.include_globs = Some(wg);
                                                },
                                                Some(mut pg) => {
                                                    let mut wgm = wg;
                                                    pg.append(&mut wgm);
                                                    par.include_globs = Some(pg);
                                                },
                                            }
                                            p.archives = Some(par);
                                        },
                                    }
                                    self.artifacts = Some(p);
                                },
                            }
                        },
                    }
                }
            },
        }
        warnings
    }

    /// Rebase every config-file-relative path in this fragment onto
    /// `base_path`. This runs exactly once per fragment, before any merge:
    /// afterwards the fragment's provenance is forgotten.
    pub fn make_relative_to(&mut self, base_path: &String)
        ensures
            final(self).dist_version == old(self).dist_version,
            final(self).config_version == old(self).config_version,
            final(self).dist_url_override == old(self).dist_url_override,
            final(self).dist == old(self).dist,
            final(self).allow_dirty == old(self).allow_dirty,
            final(self).targets == old(self).targets,
            final(self).builds == old(self).builds,
            final(self).ci == old(self).ci,
            final(self).installers == old(self).installers,
            final(self).publishers == old(self).publishers,
            (final(self).artifacts is Some <==> old(self).artifacts is Some),
            old(self).artifacts is Some ==> spec_artifact_layer_normalized(
                final(self).artifacts.unwrap(),
                old(self).artifacts.unwrap(),
                base_path@,
            ),
            (final(self).hosts is Some <==> old(self).hosts is Some),
            old(self).hosts is Some ==> {
                let nh = final(self).hosts.unwrap();
                let h = old(self).hosts.unwrap();
                &&& nh.common == h.common
                &&& nh.force_latest == h.force_latest
                &&& spec_github_host_normalized(nh.github, h.github, base_path@)
            },
    {
        let ar = self.artifacts.take();
        match ar {
            None => {},
            Some(mut a) => {
                a.make_relative_to(base_path);
                self.artifacts = Some(a);
            },
        }
        let ho = self.hosts.take();
        match ho {
            None => {},
            Some(mut h) => {
                h.make_relative_to(base_path);
                self.hosts = Some(h);
            },
        }
    }
}

} // verus!
