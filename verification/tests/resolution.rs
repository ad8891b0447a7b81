//! End-to-end resolution: defaults, precedence, folding, and the
//! installer scenario.

use dist_config::config::{app_config, workspace_config, GenerateMode, TomlLayer};
use dist_config::installers::{
    CommonInstallerLayer, HomebrewInstallerLayer, InstallPathStrategy, InstallerLayer,
};
use dist_config::layer::BoolOr;
use dist_config::workspace::{PackageInfo, WorkspaceInfo};
use dist_config::hosts::{CommonHostLayer, GithubHostLayer, HostLayer};
use dist_config::publishers::{CommonPublisherLayer, PublisherLayer};
use dist_config::builds::{BuildLayer, CargoBuildLayer, CommonBuildLayer, GlibcVersion};

fn one_package_workspace() -> WorkspaceInfo {
    WorkspaceInfo {
        workspace_dir: "/repo".to_string(),
        packages: vec![PackageInfo {
            name: "app".to_string(),
            package_root: "/repo/pkg".to_string(),
        }],
    }
}

fn installer_layer_with(common: CommonInstallerLayer) -> InstallerLayer {
    InstallerLayer {
        common,
        homebrew: None,
        shell: None,
        powershell: None,
        updater: None,
    }
}

#[test]
fn workspace_defaults_from_empty_fragment() {
    let ws = one_package_workspace();
    let cfg = workspace_config(&ws, TomlLayer::default());
    assert_eq!(cfg.dist_version, None);
    assert_eq!(cfg.dist_url_override, None);
    assert!(cfg.allow_dirty.is_empty());
    assert!(cfg.artifacts.source_tarball);
    assert!(cfg.ci.github.is_none());
    assert!(cfg.hosts.github.is_none());
    assert!(!cfg.hosts.force_latest);
    assert_eq!(cfg.builds.ssldotcom_windows_sign, None);
    assert!(!cfg.builds.macos_sign);
    assert!(!cfg.installers.updater);
}

#[test]
fn app_defaults_from_empty_fragments() {
    let ws = one_package_workspace();
    let cfg = app_config(&ws, 0, TomlLayer::default(), TomlLayer::default());
    assert!(cfg.artifacts.archives.include_globs.is_empty());
    assert!(cfg.artifacts.archives.auto_includes);
    assert!(cfg.artifacts.extra.is_empty());
    assert!(cfg.builds.cargo.is_none());
    assert!(cfg.hosts.display);
    assert_eq!(cfg.hosts.display_name, None);
    assert!(cfg.installers.homebrew.is_none());
    assert!(cfg.installers.shell.is_none());
    assert!(cfg.installers.powershell.is_none());
    assert!(cfg.publishers.homebrew.is_none());
    assert!(cfg.publishers.npm.is_none());
    assert_eq!(cfg.dist, None);
    assert!(cfg.targets.is_empty());
}

#[test]
fn package_value_wins_over_workspace_and_default() {
    let ws = one_package_workspace();
    let mut global = TomlLayer::default();
    global.targets = Some(vec!["x86_64-unknown-linux-gnu".to_string()]);
    global.dist = Some(false);
    let mut local = TomlLayer::default();
    local.targets = Some(vec!["aarch64-apple-darwin".to_string()]);
    local.dist = Some(true);
    let cfg = app_config(&ws, 0, global, local);
    assert_eq!(cfg.targets, vec!["aarch64-apple-darwin".to_string()]);
    assert_eq!(cfg.dist, Some(true));
}

#[test]
fn workspace_value_shows_through_where_package_is_silent() {
    let ws = one_package_workspace();
    let mut global = TomlLayer::default();
    global.targets = Some(vec!["x86_64-unknown-linux-gnu".to_string()]);
    let cfg = app_config(&ws, 0, global, TomlLayer::default());
    assert_eq!(cfg.targets, vec!["x86_64-unknown-linux-gnu".to_string()]);
}

#[test]
fn success_msg_set_by_package_beats_workspace() {
    let ws = one_package_workspace();
    let mut global = TomlLayer::default();
    global.installers = Some(installer_layer_with(CommonInstallerLayer {
        install_path: None,
        success_msg: Some("from workspace".to_string()),
    }));
    let mut local = TomlLayer::default();
    let mut local_installers = installer_layer_with(CommonInstallerLayer {
        install_path: None,
        success_msg: Some("from package".to_string()),
    });
    local_installers.shell = Some(BoolOr::Bool(true));
    local.installers = Some(local_installers);
    let cfg = app_config(&ws, 0, global, local);
    let shell = cfg.installers.shell.expect("shell installer enabled");
    assert_eq!(shell.common.success_msg, "from package");
}

#[test]
fn workspace_success_msg_reaches_every_enabled_installer() {
    // The scenario: the workspace fragment sets the common success
    // message and the package sets no installer customization of its own;
    // every installer kind the package enables reads that message.
    let ws = one_package_workspace();
    let mut global = TomlLayer::default();
    global.installers = Some(installer_layer_with(CommonInstallerLayer {
        install_path: None,
        success_msg: Some("done".to_string()),
    }));
    let mut local = TomlLayer::default();
    let mut local_installers = installer_layer_with(CommonInstallerLayer {
        install_path: None,
        success_msg: None,
    });
    local_installers.shell = Some(BoolOr::Bool(true));
    local_installers.powershell = Some(BoolOr::Bool(true));
    local_installers.homebrew = Some(BoolOr::Val(HomebrewInstallerLayer {
        common: CommonInstallerLayer {
            install_path: None,
            success_msg: None,
        },
        tap: Some("axodotdev/homebrew-tap".to_string()),
        formula: None,
        version_formulas: None,
    }));
    local.installers = Some(local_installers);
    let cfg = app_config(&ws, 0, global, local);
    let homebrew = cfg.installers.homebrew.expect("homebrew installer enabled");
    let shell = cfg.installers.shell.expect("shell installer enabled");
    let powershell = cfg.installers.powershell.expect("powershell installer enabled");
    assert_eq!(homebrew.common.success_msg, "done");
    assert_eq!(shell.common.success_msg, "done");
    assert_eq!(powershell.common.success_msg, "done");
    assert_eq!(homebrew.tap.as_deref(), Some("axodotdev/homebrew-tap"));
}

#[test]
fn success_msg_falls_back_to_compiled_default() {
    let ws = one_package_workspace();
    let mut local = TomlLayer::default();
    let mut local_installers = installer_layer_with(CommonInstallerLayer {
        install_path: None,
        success_msg: None,
    });
    local_installers.shell = Some(BoolOr::Bool(true));
    local.installers = Some(local_installers);
    let cfg = app_config(&ws, 0, TomlLayer::default(), local);
    let shell = cfg.installers.shell.expect("shell installer enabled");
    assert_eq!(shell.common.success_msg, "everything's installed!");
    assert_eq!(
        shell.common.install_path,
        vec![InstallPathStrategy::CargoHome]
    );
}

#[test]
fn bool_false_disables_an_installer_set_by_workspace() {
    let ws = one_package_workspace();
    let mut global = TomlLayer::default();
    let mut global_installers = installer_layer_with(CommonInstallerLayer {
        install_path: None,
        success_msg: None,
    });
    global_installers.shell = Some(BoolOr::Bool(true));
    global.installers = Some(global_installers);
    let mut local = TomlLayer::default();
    let mut local_installers = installer_layer_with(CommonInstallerLayer {
        install_path: None,
        success_msg: None,
    });
    local_installers.shell = Some(BoolOr::Bool(false));
    local.installers = Some(local_installers);
    let cfg = app_config(&ws, 0, global, local);
    assert!(cfg.installers.shell.is_none());
}

#[test]
fn workspace_submodule_path_is_normalized_through_resolution() {
    let ws = one_package_workspace();
    let mut global = TomlLayer::default();
    global.hosts = Some(HostLayer {
        common: CommonHostLayer {
            display: None,
            display_name: Some("My App".to_string()),
        },
        github: Some(BoolOr::Val(GithubHostLayer {
            common: CommonHostLayer {
                display: None,
                display_name: None,
            },
            submodule_path: Some("./assets".to_string()),
        })),
        force_latest: Some(true),
    });
    let cfg = workspace_config(&ws, global);
    let github = cfg.hosts.github.expect("github host enabled");
    assert_eq!(github.submodule_path.as_deref(), Some("/repo/assets"));
    // The domain-level display name folds into the sub-structure.
    assert_eq!(github.display_name.as_deref(), Some("My App"));
    assert!(github.display);
    assert!(cfg.hosts.force_latest);
}

#[test]
fn publisher_prereleases_fold_from_domain_level() {
    let ws = one_package_workspace();
    let mut global = TomlLayer::default();
    global.publishers = Some(PublisherLayer {
        common: CommonPublisherLayer {
            prereleases: Some(true),
        },
        homebrew: Some(BoolOr::Bool(true)),
        npm: None,
    });
    let cfg = app_config(&ws, 0, global, TomlLayer::default());
    let homebrew = cfg.publishers.homebrew.expect("homebrew publisher enabled");
    assert!(homebrew.prereleases);
    assert!(cfg.publishers.npm.is_none());
}

#[test]
fn cargo_build_folds_domain_glibc_and_defaults() {
    let ws = one_package_workspace();
    let mut local = TomlLayer::default();
    local.builds = Some(BuildLayer {
        common: CommonBuildLayer {
            min_glibc_version: Some(GlibcVersion { major: 2, series: 17 }),
        },
        ssldotcom_windows_sign: None,
        macos_sign: None,
        cargo: Some(BoolOr::Val(CargoBuildLayer {
            common: CommonBuildLayer {
                min_glibc_version: None,
            },
            features: None,
            default_features: None,
            all_features: None,
            cargo_auditable: Some(true),
            cargo_cyclonedx: None,
        })),
    });
    let cfg = app_config(&ws, 0, TomlLayer::default(), local);
    let cargo = cfg.builds.cargo.expect("cargo build enabled");
    assert_eq!(
        cargo.min_glibc_version,
        Some(GlibcVersion { major: 2, series: 17 })
    );
    assert!(cargo.features.is_empty());
    assert!(cargo.default_features);
    assert!(!cargo.all_features);
    assert!(cargo.cargo_auditable);
    assert!(!cargo.cargo_cyclonedx);
}

#[test]
fn allow_dirty_and_dist_version_resolve_at_workspace_scope() {
    let ws = one_package_workspace();
    let mut global = TomlLayer::default();
    global.allow_dirty = Some(vec![GenerateMode::Ci]);
    global.dist_version = Some(dist_config::config::current_dist_version());
    let cfg = workspace_config(&ws, global);
    assert_eq!(cfg.allow_dirty, vec![GenerateMode::Ci]);
    assert!(cfg.dist_version.is_some());
}
