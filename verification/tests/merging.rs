//! The cross-scope merger: fragment-default-fill, include-glob extension,
//! and scope-violation warnings; plus toggle-or-struct merging and
//! fold idempotence.

use dist_config::artifacts::{ArchiveLayer, ArtifactLayer};
use dist_config::builds::{
    apply_cargo_bool_layer, BuildLayer, CargoBuildLayer, CommonBuildLayer,
};
use dist_config::ci::{CiLayer, CommonCiLayer, GithubCiLayer};
use dist_config::config::{app_config, TomlLayer};
use dist_config::errors::GlobalOnlyField;
use dist_config::installers::{
    CommonInstallerConfig, CommonInstallerLayer, InstallerConfigInheritable, InstallerLayer,
};
use dist_config::layer::BoolOr;
use dist_config::publishers::{CommonPublisherLayer, PublisherLayer};
use dist_config::workspace::{PackageInfo, WorkspaceInfo};

fn one_package_workspace() -> WorkspaceInfo {
    WorkspaceInfo {
        workspace_dir: "/repo".to_string(),
        packages: vec![PackageInfo {
            name: "app".to_string(),
            package_root: "/repo/pkg".to_string(),
        }],
    }
}

fn artifacts_with_globs(globs: Vec<&str>) -> ArtifactLayer {
    ArtifactLayer {
        archives: Some(ArchiveLayer {
            include_globs: Some(globs.into_iter().map(str::to_string).collect()),
            auto_includes: None,
        }),
        extra: None,
        source_tarball: None,
    }
}

#[test]
fn include_globs_extend_package_then_workspace() {
    let mut pkg = TomlLayer::default();
    pkg.artifacts = Some(artifacts_with_globs(vec!["a"]));
    let mut ws = TomlLayer::default();
    ws.artifacts = Some(artifacts_with_globs(vec!["b"]));
    let warnings = pkg.merge_workspace_config(ws, &"/repo/pkg/Cargo.toml".to_string());
    assert!(warnings.is_empty());
    let merged = pkg
        .artifacts
        .unwrap()
        .archives
        .unwrap()
        .include_globs
        .unwrap();
    assert_eq!(merged, vec!["a".to_string(), "b".to_string()]);
}

#[test]
fn unset_sibling_sections_copy_wholesale_not_deep() {
    let mut pkg = TomlLayer::default();
    pkg.artifacts = Some(artifacts_with_globs(vec!["a"]));
    let mut ws = TomlLayer::default();
    ws.builds = Some(BuildLayer {
        common: CommonBuildLayer {
            min_glibc_version: None,
        },
        ssldotcom_windows_sign: None,
        macos_sign: None,
        cargo: Some(BoolOr::Bool(true)),
    });
    ws.targets = Some(vec!["x86_64-pc-windows-msvc".to_string()]);
    let ws_builds = ws.builds.clone();
    let warnings = pkg.merge_workspace_config(ws, &"/repo/pkg/Cargo.toml".to_string());
    assert!(warnings.is_empty());
    // The whole unset section arrives verbatim from the workspace.
    assert_eq!(pkg.builds, ws_builds);
    assert_eq!(pkg.targets, Some(vec!["x86_64-pc-windows-msvc".to_string()]));
    // The package's own artifacts section is kept, not deep-merged.
    let globs = pkg
        .artifacts
        .unwrap()
        .archives
        .unwrap()
        .include_globs
        .unwrap();
    assert_eq!(globs, vec!["a".to_string()]);
}

#[test]
fn wholly_unset_artifacts_section_copies_verbatim() {
    let mut pkg = TomlLayer::default();
    let mut ws = TomlLayer::default();
    ws.artifacts = Some(artifacts_with_globs(vec!["b"]));
    let expected = ws.artifacts.clone();
    let warnings = pkg.merge_workspace_config(ws, &"/repo/pkg/Cargo.toml".to_string());
    assert!(warnings.is_empty());
    assert_eq!(pkg.artifacts, expected);
}

#[test]
fn global_only_fields_warn_and_stay_unhonored() {
    let manifest = "/repo/pkg/Cargo.toml".to_string();
    let mut pkg = TomlLayer::default();
    pkg.ci = Some(CiLayer {
        common: CommonCiLayer {
            fail_fast: Some(true),
        },
        github: Some(BoolOr::Bool(true)),
    });
    pkg.dist_version = Some(dist_config::config::current_dist_version());
    let warnings = pkg.merge_workspace_config(TomlLayer::default(), &manifest);
    let fields: Vec<GlobalOnlyField> = warnings.iter().map(|w| w.field).collect();
    assert_eq!(
        fields,
        vec![GlobalOnlyField::DistVersion, GlobalOnlyField::Ci]
    );
    assert!(warnings.iter().all(|w| w.manifest_path == manifest));
    assert_eq!(warnings[0].field.field_name(), "dist-version");
    assert_eq!(warnings[1].field.field_name(), "ci");
}

#[test]
fn package_ci_section_never_reaches_the_final_config() {
    // The same fragments with and without the illegal package-level CI
    // section resolve to identical package configurations.
    let ws = one_package_workspace();
    let mut local_with_ci = TomlLayer::default();
    local_with_ci.ci = Some(CiLayer {
        common: CommonCiLayer {
            fail_fast: Some(true),
        },
        github: Some(BoolOr::Bool(true)),
    });
    let local_without_ci = TomlLayer::default();
    let with_ci = app_config(&ws, 0, TomlLayer::default(), local_with_ci);
    let without_ci = app_config(&ws, 0, TomlLayer::default(), local_without_ci);
    assert_eq!(with_ci, without_ci);
}

#[test]
fn package_publishers_section_is_dropped_with_warning() {
    let manifest = "/repo/pkg/Cargo.toml".to_string();
    let mut pkg = TomlLayer::default();
    pkg.publishers = Some(PublisherLayer {
        common: CommonPublisherLayer {
            prereleases: Some(true),
        },
        homebrew: Some(BoolOr::Bool(true)),
        npm: None,
    });
    // No workspace publishers: the package-set section earns a warning
    // and vanishes rather than surviving the merge.
    let warnings = pkg.merge_workspace_config(TomlLayer::default(), &manifest);
    let fields: Vec<GlobalOnlyField> = warnings.iter().map(|w| w.field).collect();
    assert_eq!(fields, vec![GlobalOnlyField::Publishers]);
    assert!(pkg.publishers.is_none());
    // With workspace publishers present, the workspace's section replaces
    // the package's wholesale.
    let mut pkg = TomlLayer::default();
    pkg.publishers = Some(PublisherLayer {
        common: CommonPublisherLayer {
            prereleases: Some(true),
        },
        homebrew: Some(BoolOr::Bool(true)),
        npm: None,
    });
    let mut ws = TomlLayer::default();
    ws.publishers = Some(PublisherLayer {
        common: CommonPublisherLayer { prereleases: None },
        homebrew: None,
        npm: Some(BoolOr::Bool(true)),
    });
    let expected = ws.publishers.clone();
    let warnings = pkg.merge_workspace_config(ws, &manifest);
    assert_eq!(warnings.len(), 1);
    assert_eq!(pkg.publishers, expected);
}

#[test]
fn package_publishers_section_never_reaches_the_final_config() {
    let ws = one_package_workspace();
    let mut local_with_publishers = TomlLayer::default();
    local_with_publishers.publishers = Some(PublisherLayer {
        common: CommonPublisherLayer {
            prereleases: Some(true),
        },
        homebrew: Some(BoolOr::Bool(true)),
        npm: Some(BoolOr::Bool(true)),
    });
    let with_publishers = app_config(&ws, 0, TomlLayer::default(), local_with_publishers);
    let without_publishers = app_config(&ws, 0, TomlLayer::default(), TomlLayer::default());
    assert_eq!(with_publishers, without_publishers);
    assert!(with_publishers.publishers.homebrew.is_none());
    assert!(with_publishers.publishers.npm.is_none());
}

#[test]
fn cargo_warnings_fire_for_each_global_only_build_field() {
    let manifest = "/repo/pkg/Cargo.toml".to_string();
    let mut pkg = TomlLayer::default();
    pkg.builds = Some(BuildLayer {
        common: CommonBuildLayer {
            min_glibc_version: None,
        },
        ssldotcom_windows_sign: None,
        macos_sign: Some(true),
        cargo: Some(BoolOr::Val(CargoBuildLayer {
            common: CommonBuildLayer {
                min_glibc_version: None,
            },
            features: Some(vec!["tls".to_string()]),
            default_features: Some(false),
            all_features: Some(true),
            cargo_auditable: None,
            cargo_cyclonedx: None,
        })),
    });
    let warnings = pkg.merge_workspace_config(TomlLayer::default(), &manifest);
    let fields: Vec<GlobalOnlyField> = warnings.iter().map(|w| w.field).collect();
    assert_eq!(
        fields,
        vec![
            GlobalOnlyField::BuildsMacosSign,
            GlobalOnlyField::CargoFeatures,
            GlobalOnlyField::CargoAllFeatures,
        ]
    );
}

#[test]
fn toggle_then_struct_promotes_and_struct_then_false_clears() {
    let mut dest: Option<CargoBuildLayer> = None;
    apply_cargo_bool_layer(&mut dest, Some(BoolOr::Bool(true)));
    let enabled = dest.clone().expect("enabled with defaults");
    assert_eq!(enabled.features, None);
    apply_cargo_bool_layer(
        &mut dest,
        Some(BoolOr::Val(CargoBuildLayer {
            common: CommonBuildLayer {
                min_glibc_version: None,
            },
            features: Some(vec!["tls".to_string()]),
            default_features: None,
            all_features: None,
            cargo_auditable: None,
            cargo_cyclonedx: None,
        })),
    );
    assert_eq!(
        dest.clone().expect("still enabled").features,
        Some(vec!["tls".to_string()])
    );
    apply_cargo_bool_layer(&mut dest, Some(BoolOr::Bool(false)));
    assert!(dest.is_none());
    apply_cargo_bool_layer(&mut dest, None);
    assert!(dest.is_none());
}

#[test]
fn folding_an_already_folded_intermediate_changes_nothing() {
    let ws = one_package_workspace();
    let mut inter = InstallerConfigInheritable::defaults_for_package(&ws, 0);
    inter.apply_layer(InstallerLayer {
        common: CommonInstallerLayer {
            install_path: None,
            success_msg: Some("done".to_string()),
        },
        homebrew: None,
        shell: Some(BoolOr::Bool(true)),
        powershell: None,
        updater: None,
    });
    let folded = inter.apply_inheritance_for_package(&ws, 0);
    // Rebuild an intermediate whose sub-structure values are exactly the
    // folded ones, all explicitly set; the domain-level fragment is gone.
    let refold_input = InstallerConfigInheritable {
        common: CommonInstallerLayer {
            install_path: None,
            success_msg: None,
        },
        homebrew: None,
        shell: folded.shell.clone().map(|s| {
            dist_config::installers::ShellInstallerLayer {
                common: CommonInstallerLayer {
                    install_path: Some(s.common.install_path),
                    success_msg: Some(s.common.success_msg),
                },
            }
        }),
        powershell: None,
        updater: false,
    };
    let refolded = refold_input.apply_inheritance_for_package(&ws, 0);
    assert_eq!(refolded, folded);
}

#[test]
fn ci_fail_fast_folds_from_domain_level() {
    let ws = one_package_workspace();
    let mut inter = dist_config::ci::CiConfigInheritable::defaults_for_workspace(&ws);
    inter.apply_layer(CiLayer {
        common: CommonCiLayer {
            fail_fast: Some(true),
        },
        github: Some(BoolOr::Val(GithubCiLayer {
            common: CommonCiLayer { fail_fast: None },
            build_setup: Some("rustup default stable".to_string()),
        })),
    });
    let cfg = inter.apply_inheritance_for_workspace(&ws);
    let github = cfg.github.expect("github ci enabled");
    assert!(github.fail_fast);
    assert_eq!(
        github.build_setup.as_deref(),
        Some("rustup default stable")
    );
}

#[test]
fn common_installer_config_apply_layer_overwrites_when_present() {
    let mut cfg = CommonInstallerConfig {
        install_path: vec![dist_config::installers::InstallPathStrategy::CargoHome],
        success_msg: "old".to_string(),
    };
    cfg.apply_layer(CommonInstallerLayer {
        install_path: None,
        success_msg: Some("new".to_string()),
    });
    assert_eq!(cfg.success_msg, "new");
    assert_eq!(
        cfg.install_path,
        vec![dist_config::installers::InstallPathStrategy::CargoHome]
    );
}
