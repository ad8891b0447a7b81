//! Path normalization, install-path validation, version stamping, and the
//! code-signing decision.

use dist_config::artifacts::{ArchiveLayer, ArtifactLayer, ExtraArtifact};
use dist_config::config::TomlLayer;
use dist_config::CURRENT_CONFIG_VERSION;
use dist_config::errors::DistError;
use dist_config::hosts::{CommonHostLayer, GithubHostLayer, HostLayer};
use dist_config::installers::{CommonInstallerLayer, InstallPathStrategy, InstallerLayer};
use dist_config::layer::BoolOr;
use dist_config::paths::make_path_relative_to;
use dist_config::sign::{triple_is_darwin, Codesign, CodesignEnv};

fn installer_layer_with_paths(paths: Vec<InstallPathStrategy>) -> InstallerLayer {
    InstallerLayer {
        common: CommonInstallerLayer {
            install_path: Some(paths),
            success_msg: None,
        },
        homebrew: None,
        shell: None,
        powershell: None,
        updater: None,
    }
}

#[test]
fn relative_path_normalizes_once_against_its_root() {
    let base = "/repo/pkg".to_string();
    let mut path = "./x".to_string();
    make_path_relative_to(&mut path, &base);
    assert_eq!(path, "/repo/pkg/x");
    // Re-normalizing the now-absolute path is a no-op.
    make_path_relative_to(&mut path, &base);
    assert_eq!(path, "/repo/pkg/x");
}

#[test]
fn absolute_path_is_left_untouched() {
    let base = "/repo/pkg".to_string();
    let mut path = "/opt/assets".to_string();
    make_path_relative_to(&mut path, &base);
    assert_eq!(path, "/opt/assets");
}

#[test]
fn bare_relative_path_is_rebased() {
    let base = "/repo".to_string();
    let mut path = "docs/readme.md".to_string();
    make_path_relative_to(&mut path, &base);
    assert_eq!(path, "/repo/docs/readme.md");
}

#[test]
fn fragment_normalization_covers_every_path_field() {
    let mut layer = TomlLayer::default();
    layer.artifacts = Some(ArtifactLayer {
        archives: Some(ArchiveLayer {
            include_globs: Some(vec!["./licenses/*".to_string(), "/abs/keep".to_string()]),
            auto_includes: Some(true),
        }),
        extra: Some(vec![ExtraArtifact {
            working_dir: "./tools".to_string(),
            artifacts: vec!["site.tar".to_string()],
            build: vec!["make".to_string(), "site".to_string()],
        }]),
        source_tarball: None,
    });
    layer.hosts = Some(HostLayer {
        common: CommonHostLayer {
            display: None,
            display_name: None,
        },
        github: Some(BoolOr::Val(GithubHostLayer {
            common: CommonHostLayer {
                display: None,
                display_name: None,
            },
            submodule_path: Some("./vendor/assets".to_string()),
        })),
        force_latest: None,
    });
    layer.make_relative_to(&"/repo".to_string());
    let artifacts = layer.artifacts.unwrap();
    assert_eq!(
        artifacts.archives.unwrap().include_globs.unwrap(),
        vec!["/repo/licenses/*".to_string(), "/abs/keep".to_string()]
    );
    let extra = artifacts.extra.unwrap();
    assert_eq!(extra[0].working_dir, "/repo/tools");
    assert_eq!(extra[0].artifacts, vec!["site.tar".to_string()]);
    match layer.hosts.unwrap().github.unwrap() {
        BoolOr::Val(github) => {
            assert_eq!(github.submodule_path.as_deref(), Some("/repo/vendor/assets"));
        }
        BoolOr::Bool(_) => panic!("github host layer lost its detailed form"),
    }
}

#[test]
fn conflicting_install_strategies_are_rejected() {
    let mut layer = TomlLayer::default();
    layer.installers = Some(installer_layer_with_paths(vec![
        InstallPathStrategy::CargoHome,
        InstallPathStrategy::HomeSubdir {
            subdir: ".app/bin".to_string(),
        },
    ]));
    assert_eq!(
        layer.validate_install_paths(),
        Err(DistError::IncompatibleInstallPathConfiguration)
    );
}

#[test]
fn exclusive_strategy_alone_is_accepted() {
    let mut layer = TomlLayer::default();
    layer.installers = Some(installer_layer_with_paths(vec![
        InstallPathStrategy::CargoHome,
    ]));
    assert_eq!(layer.validate_install_paths(), Ok(()));
}

#[test]
fn several_non_exclusive_strategies_are_accepted() {
    let mut layer = TomlLayer::default();
    layer.installers = Some(installer_layer_with_paths(vec![
        InstallPathStrategy::HomeSubdir {
            subdir: ".app/bin".to_string(),
        },
        InstallPathStrategy::EnvSubdir {
            env_key: "XDG_BIN_HOME".to_string(),
            subdir: "".to_string(),
        },
    ]));
    assert_eq!(layer.validate_install_paths(), Ok(()));
}

#[test]
fn version_checks_and_stamping() {
    let mut layer = TomlLayer::default();
    assert_eq!(layer.validate_config_version(), Ok(()));
    layer.config_version = CURRENT_CONFIG_VERSION + 1;
    assert_eq!(
        layer.validate_config_version(),
        Err(DistError::UnsupportedConfigVersion {
            declared: CURRENT_CONFIG_VERSION + 1
        })
    );
    let stamped = layer.with_current_config_version();
    assert_eq!(stamped.config_version, CURRENT_CONFIG_VERSION);
    let pinned = stamped.with_current_dist_version();
    assert_eq!(
        pinned.dist_version,
        Some(dist_config::config::current_dist_version())
    );
}

#[test]
fn darwin_triples_are_recognized() {
    assert!(triple_is_darwin("aarch64-apple-darwin"));
    assert!(triple_is_darwin("x86_64-apple-darwin"));
    assert!(!triple_is_darwin("x86_64-unknown-linux-gnu"));
    assert!(!triple_is_darwin("x86_64-pc-windows-msvc"));
    assert!(!triple_is_darwin("dar"));
}

#[test]
fn certificate_decodes_through_base64() {
    let env = CodesignEnv::from(
        "Developer ID Application: Example",
        "passphrase",
        "aGk=",
        "someone@example.com",
        "app-specific",
    )
    .expect("valid base64 certificate");
    // "aGk=" is the standard base64 encoding of the two bytes below; a
    // wrapper that handed its input through unchanged would fail here.
    assert_eq!(env.certificate, b"hi".to_vec());
    assert_eq!(env.identity, "Developer ID Application: Example");
}

#[test]
fn undecodable_certificate_is_an_error() {
    let res = CodesignEnv::from("id", "pw", "!!!not base64!!!", "aid", "npw");
    assert!(matches!(res, Err(DistError::CertificateDecodeError)));
}

#[test]
fn signing_is_skipped_off_darwin_and_with_missing_credentials() {
    let all = |s: &str| Some(s.to_string());
    // Not a Darwin host: no signing, whatever the credentials.
    let res = Codesign::new(
        "x86_64-unknown-linux-gnu",
        all("id"),
        all("pw"),
        all("aGk="),
        all("aid"),
        all("npw"),
    );
    assert!(matches!(res, Ok(None)));
    // Darwin host with an incomplete credential set: no signing.
    let res = Codesign::new("aarch64-apple-darwin", all("id"), None, all("aGk="), all("aid"), all("npw"));
    assert!(matches!(res, Ok(None)));
    // Darwin host with the full set: signing, with the decoded certificate.
    let res = Codesign::new(
        "aarch64-apple-darwin",
        all("id"),
        all("pw"),
        all("aGk="),
        all("aid"),
        all("npw"),
    );
    let signer = res.expect("no error").expect("signing enabled");
    assert_eq!(signer.env.certificate, b"hi".to_vec());
    // Darwin host with a corrupt certificate: a hard error.
    let res = Codesign::new(
        "aarch64-apple-darwin",
        all("id"),
        all("pw"),
        all("???"),
        all("aid"),
        all("npw"),
    );
    assert!(matches!(res, Err(DistError::CertificateDecodeError)));
}
