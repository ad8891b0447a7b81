//! Error and warning values returned by configuration resolution.

use vstd::prelude::*;

verus! {

/// A fatal error raised while resolving a configuration.
#[derive(Debug, Clone, Copy, PartialEq, Eq)]
pub enum DistError {
    /// More than one install-path strategy was requested together with the
    /// exclusive package-manager-home strategy.
    IncompatibleInstallPathConfiguration,
    /// A fragment declared a configuration format revision newer than this
    /// engine supports.
    UnsupportedConfigVersion { declared: u64 },
    /// A signing certificate was not valid standard base64.
    CertificateDecodeError,
}

pub type DistResult<T> = Result<T, DistError>;

/// A field that is only legal in the workspace-level fragment.
#[derive(Debug, Clone, Copy, PartialEq, Eq)]
pub enum GlobalOnlyField {
    /// `dist-version`.
    DistVersion,
    /// `dist-url-override`.
    DistUrlOverride,
    /// `allow-dirty`.
    AllowDirty,
    /// `artifacts.source-tarball`.
    ArtifactsSourceTarball,
    /// `builds.ssldotcom-windows-sign`.
    BuildsSsldotcomWindowsSign,
    /// `builds.macos-sign`.
    BuildsMacosSign,
    /// `cargo.features`.
    CargoFeatures,
    /// `cargo.default-features`.
    CargoDefaultFeatures,
    /// `cargo.all-features`.
    CargoAllFeatures,
    /// `cargo.cargo-auditable`.
    CargoAuditable,
    /// `cargo.cargo-cyclonedx`.
    CargoCyclonedx,
    /// The whole `ci` table.
    Ci,
    /// `hosts.github`.
    HostsGithub,
    /// The whole `publishers` table.
    Publishers,
}

impl GlobalOnlyField {
    /// The field's name as it appears in a fragment.
    pub open spec fn spec_field_name(self) -> Seq<char> {
        match self {
            GlobalOnlyField::DistVersion => "dist-version"@,
            GlobalOnlyField::DistUrlOverride => "dist-url-override"@,
            GlobalOnlyField::AllowDirty => "allow-dirty"@,
            GlobalOnlyField::ArtifactsSourceTarball => "artifacts.source-tarball"@,
            GlobalOnlyField::BuildsSsldotcomWindowsSign => "builds.ssldotcom-windows-sign"@,
            GlobalOnlyField::BuildsMacosSign => "builds.macos-sign"@,
            GlobalOnlyField::CargoFeatures => "cargo.features"@,
            GlobalOnlyField::CargoDefaultFeatures => "cargo.default-features"@,
            GlobalOnlyField::CargoAllFeatures => "cargo.all-features"@,
            GlobalOnlyField::CargoAuditable => "cargo.cargo-auditable"@,
            GlobalOnlyField::CargoCyclonedx => "cargo.cargo-cyclonedx"@,
            GlobalOnlyField::Ci => "ci"@,
            GlobalOnlyField::HostsGithub => "hosts.github"@,
            GlobalOnlyField::Publishers => "dist.publishers"@,
        }
    }

    /// The field's name as it appears in a fragment.
    pub fn field_name(&self) -> (r: &'static str)
        ensures
            r@ == self.spec_field_name(),
    {
        match self {
            GlobalOnlyField::DistVersion => "dist-version",
            GlobalOnlyField::DistUrlOverride => "dist-url-override",
            GlobalOnlyField::AllowDirty => "allow-dirty",
            GlobalOnlyField::ArtifactsSourceTarball => "artifacts.source-tarball",
            GlobalOnlyField::BuildsSsldotcomWindowsSign => "builds.ssldotcom-windows-sign",
            GlobalOnlyField::BuildsMacosSign => "builds.macos-sign",
            GlobalOnlyField::CargoFeatures => "cargo.features",
            GlobalOnlyField::CargoDefaultFeatures => "cargo.default-features",
            GlobalOnlyField::CargoAllFeatures => "cargo.all-features",
            GlobalOnlyField::CargoAuditable => "cargo.cargo-auditable",
            GlobalOnlyField::CargoCyclonedx => "cargo.cargo-cyclonedx",
            GlobalOnlyField::Ci => "ci",
            GlobalOnlyField::HostsGithub => "hosts.github",
            GlobalOnlyField::Publishers => "dist.publishers",
        }
    }
}

/// A non-fatal warning: a package fragment set a field that is only
/// accepted at workspace scope, and the value is being dropped.
#[derive(Debug, Clone, PartialEq, Eq)]
pub struct MergeWarning {
    /// Which field was set out of scope.
    pub field: GlobalOnlyField,
    /// The manifest the offending fragment came from.
    pub manifest_path: String,
}

} // verus!
