//! Installer configuration.
//!
//! The installer domain is where the common fragment matters most: a
//! success message or an install-path strategy list set once at the domain
//! level folds into every installer kind the package enables, unless that
//! installer set its own value.

use vstd::prelude::*;
use crate::layer::{BoolOr, merge_opt, merge_val, apply_opt, apply_val};
use crate::workspace::WorkspaceInfo;

verus! {

/// Where an installer puts the installed binaries.
#[derive(Debug, Clone, PartialEq, Eq)]
pub enum InstallPathStrategy {
    /// Install into the package manager's own home directory. This
    /// strategy is exclusive of every other one.
    CargoHome,
    /// Install into a subdirectory of the user's home directory.
    HomeSubdir {
        /// The subdirectory under the home directory.
        subdir: String,
    },
    /// Install into a subdirectory named by an environment variable.
    EnvSubdir {
        /// The environment variable holding the base directory.
        env_key: String,
        /// The subdirectory under that base.
        subdir: String,
    },
}

/// Common installer fields shared by every installer kind.
#[derive(Debug, Clone, PartialEq, Eq)]
pub struct CommonInstallerLayer {
    /// The install-path strategies the installer may use.
    pub install_path: Option<Vec<InstallPathStrategy>>,
    /// The message printed once installation succeeds.
    pub success_msg: Option<String>,
}

/// Fully resolved common installer fields.
#[derive(Debug, Clone, PartialEq, Eq)]
pub struct CommonInstallerConfig {
    /// The install-path strategies the installer may use.
    pub install_path: Vec<InstallPathStrategy>,
    /// The message printed once installation succeeds.
    pub success_msg: String,
}

/// What one fragment said about the Homebrew installer.
#[derive(Debug, Clone, PartialEq, Eq)]
pub struct HomebrewInstallerLayer {
    /// Common options.
    pub common: CommonInstallerLayer,
    /// A Homebrew tap to push the Homebrew formula to, if built.
    pub tap: Option<String>,
    /// Customize the name of the Homebrew formula.
    pub formula: Option<String>,
    /// Create version-specific Homebrew formulas.
    pub version_formulas: Option<bool>,
}

/// Fully resolved Homebrew installer settings.
#[derive(Debug, Clone, PartialEq, Eq)]
pub struct HomebrewInstallerConfig {
    /// Common options.
    pub common: CommonInstallerConfig,
    /// A Homebrew tap to push the Homebrew formula to, if built.
    pub tap: Option<String>,
    /// Customize the name of the Homebrew formula.
    pub formula: Option<String>,
    /// Create version-specific Homebrew formulas.
    pub version_formulas: Option<bool>,
}

/// What one fragment said about the shell installer.
#[derive(Debug, Clone, PartialEq, Eq)]
pub struct ShellInstallerLayer {
    /// Common options.
    pub common: CommonInstallerLayer,
}

/// Fully resolved shell installer settings.
#[derive(Debug, Clone, PartialEq, Eq)]
pub struct ShellInstallerConfig {
    /// Common options.
    pub common: CommonInstallerConfig,
}

/// What one fragment said about the PowerShell installer.
#[derive(Debug, Clone, PartialEq, Eq)]
pub struct PowershellInstallerLayer {
    /// Common options.
    pub common: CommonInstallerLayer,
}

/// Fully resolved PowerShell installer settings.
#[derive(Debug, Clone, PartialEq, Eq)]
pub struct PowershellInstallerConfig {
    /// Common options.
    pub common: CommonInstallerConfig,
}

/// What one fragment said about installers.
#[derive(Debug, Clone, PartialEq, Eq)]
pub struct InstallerLayer {
    /// Common options, settable at the domain level.
    pub common: CommonInstallerLayer,
    /// The Homebrew installer, or a bare toggle for it.
    pub homebrew: Option<BoolOr<HomebrewInstallerLayer>>,
    /// The shell installer, or a bare toggle for it.
    pub shell: Option<BoolOr<ShellInstallerLayer>>,
    /// The PowerShell installer, or a bare toggle for it.
    pub powershell: Option<BoolOr<PowershellInstallerLayer>>,
    /// Whether a standalone updater is bundled.
    pub updater: Option<bool>,
}

/// Installer configuration whose common fragment has not been folded yet.
#[derive(Debug, Clone, PartialEq, Eq)]
pub struct InstallerConfigInheritable {
    /// Common options recorded at the domain level.
    pub common: CommonInstallerLayer,
    /// The Homebrew installer, still in layer form.
    pub homebrew: Option<HomebrewInstallerLayer>,
    /// The shell installer, still in layer form.
    pub shell: Option<ShellInstallerLayer>,
    /// The PowerShell installer, still in layer form.
    pub powershell: Option<PowershellInstallerLayer>,
    /// Whether a standalone updater is bundled.
    pub updater: bool,
}

/// Fully resolved installer configuration global to the workspace.
#[derive(Debug, Clone, Copy, PartialEq, Eq)]
pub struct WorkspaceInstallerConfig {
    /// Whether a standalone updater is bundled.
    pub updater: bool,
}

/// Fully resolved installer configuration for one package.
#[derive(Debug, Clone, PartialEq, Eq)]
pub struct AppInstallerConfig {
    /// Homebrew installer settings, when enabled.
    pub homebrew: Option<HomebrewInstallerConfig>,
    /// Shell installer settings, when enabled.
    pub shell: Option<ShellInstallerConfig>,
    /// PowerShell installer settings, when enabled.
    pub powershell: Option<PowershellInstallerConfig>,
}

/// The message printed when no fragment customized it.
pub open spec fn default_success_msg() -> Seq<char> {
    "everything's installed!"@
}

/// The success message an installer resolves to: its own value when set,
/// else the domain-level value, else the compiled default.
pub open spec fn spec_resolved_msg(sub: Option<String>, dom: Option<String>) -> Seq<char> {
    if sub is Some {
        sub.unwrap()@
    } else if dom is Some {
        dom.unwrap()@
    } else {
        default_success_msg()
    }
}

/// The strategy list an installer resolves to: its own list when set, else
/// the domain-level list, else the package manager's home directory.
pub open spec fn spec_resolved_install_path(
    sub: Option<Vec<InstallPathStrategy>>,
    dom: Option<Vec<InstallPathStrategy>>,
) -> Seq<InstallPathStrategy> {
    if sub is Some {
        sub.unwrap()@
    } else if dom is Some {
        dom.unwrap()@
    } else {
        seq![InstallPathStrategy::CargoHome]
    }
}

/// How a resolved common block relates to the layered values it was folded
/// from.
pub open spec fn spec_common_resolved(
    r: CommonInstallerConfig,
    sub: CommonInstallerLayer,
    dom: CommonInstallerLayer,
) -> bool {
    &&& r.success_msg@ == spec_resolved_msg(sub.success_msg, dom.success_msg)
    &&& r.install_path@ == spec_resolved_install_path(sub.install_path, dom.install_path)
}

/// The all-unset common installer fragment.
pub open spec fn spec_common_installer_unset() -> CommonInstallerLayer {
    CommonInstallerLayer { install_path: None, success_msg: None }
}

/// One common installer fragment merged onto another.
pub open spec fn spec_common_installer_merged(
    a: CommonInstallerLayer,
    b: CommonInstallerLayer,
) -> CommonInstallerLayer {
    CommonInstallerLayer {
        install_path: merge_opt(a.install_path, b.install_path),
        success_msg: merge_opt(a.success_msg, b.success_msg),
    }
}

/// The all-unset Homebrew installer layer.
pub open spec fn spec_homebrew_layer_default() -> HomebrewInstallerLayer {
    HomebrewInstallerLayer {
        common: spec_common_installer_unset(),
        tap: None,
        formula: None,
        version_formulas: None,
    }
}

/// One Homebrew installer layer merged onto another.
pub open spec fn spec_homebrew_layer_merged(
    a: HomebrewInstallerLayer,
    b: HomebrewInstallerLayer,
) -> HomebrewInstallerLayer {
    HomebrewInstallerLayer {
        common: spec_common_installer_merged(a.common, b.common),
        tap: merge_opt(a.tap, b.tap),
        formula: merge_opt(a.formula, b.formula),
        version_formulas: merge_opt(a.version_formulas, b.version_formulas),
    }
}

/// The toggle-or-struct merge for the Homebrew installer.
pub open spec fn spec_merge_homebrew_bool_layer(
    dest: Option<HomebrewInstallerLayer>,
    src: Option<BoolOr<HomebrewInstallerLayer>>,
) -> Option<HomebrewInstallerLayer> {
    match src {
        None => dest,
        Some(BoolOr::Bool(b)) => if b {
            Some(spec_homebrew_layer_default())
        } else {
            None
        },
        Some(BoolOr::Val(l)) => Some(
            spec_homebrew_layer_merged(
                if dest is Some {
                    dest.unwrap()
                } else {
                    spec_homebrew_layer_default()
                },
                l,
            ),
        ),
    }
}

/// The toggle-or-struct merge for the shell installer.
pub open spec fn spec_merge_shell_bool_layer(
    dest: Option<ShellInstallerLayer>,
    src: Option<BoolOr<ShellInstallerLayer>>,
) -> Option<ShellInstallerLayer> {
    match src {
        None => dest,
        Some(BoolOr::Bool(b)) => if b {
            Some(ShellInstallerLayer { common: spec_common_installer_unset() })
        } else {
            None
        },
        Some(BoolOr::Val(l)) => Some(
            ShellInstallerLayer {
                common: spec_common_installer_merged(
                    if dest is Some {
                        dest.unwrap().common
                    } else {
                        spec_common_installer_unset()
                    },
                    l.common,
                ),
            },
        ),
    }
}

/// The toggle-or-struct merge for the PowerShell installer.
pub open spec fn spec_merge_powershell_bool_layer(
    dest: Option<PowershellInstallerLayer>,
    src: Option<BoolOr<PowershellInstallerLayer>>,
) -> Option<PowershellInstallerLayer> {
    match src {
        None => dest,
        Some(BoolOr::Bool(b)) => if b {
            Some(PowershellInstallerLayer { common: spec_common_installer_unset() })
        } else {
            None
        },
        Some(BoolOr::Val(l)) => Some(
            PowershellInstallerLayer {
                common: spec_common_installer_merged(
                    if dest is Some {
                        dest.unwrap().common
                    } else {
                        spec_common_installer_unset()
                    },
                    l.common,
                ),
            },
        ),
    }
}

/// An installer layer merged onto the inheritable intermediate.
pub open spec fn spec_installer_inheritable_merged(
    c: InstallerConfigInheritable,
    l: Option<InstallerLayer>,
) -> InstallerConfigInheritable {
    if l is Some {
        InstallerConfigInheritable {
            common: spec_common_installer_merged(c.common, l.unwrap().common),
            homebrew: spec_merge_homebrew_bool_layer(c.homebrew, l.unwrap().homebrew),
            shell: spec_merge_shell_bool_layer(c.shell, l.unwrap().shell),
            powershell: spec_merge_powershell_bool_layer(c.powershell, l.unwrap().powershell),
            updater: merge_val(c.updater, l.unwrap().updater),
        }
    } else {
        c
    }
}

/// The compiled-in installer defaults: no installer until asked for, no
/// updater.
pub open spec fn spec_installer_defaults() -> InstallerConfigInheritable {
    InstallerConfigInheritable {
        common: spec_common_installer_unset(),
        homebrew: None,
        shell: None,
        powershell: None,
        updater: false,
    }
}

/// How the folded package installer configuration relates to the
/// intermediate it came from: an installer is present exactly when the
/// intermediate enabled it, its common block is folded from its own and the
/// domain-level values, and its private fields carry over unchanged.
pub open spec fn spec_app_installer_folded(
    r: AppInstallerConfig,
    c: InstallerConfigInheritable,
) -> bool {
    &&& r.homebrew is Some <==> c.homebrew is Some
    &&& c.homebrew is Some ==> {
        let hl = c.homebrew.unwrap();
        let hr = r.homebrew.unwrap();
        &&& spec_common_resolved(hr.common, hl.common, c.common)
        &&& hr.tap == hl.tap
        &&& hr.formula == hl.formula
        &&& hr.version_formulas == hl.version_formulas
    }
    &&& r.shell is Some <==> c.shell is Some
    &&& c.shell is Some ==> spec_common_resolved(r.shell.unwrap().common, c.shell.unwrap().common, c.common)
    &&& r.powershell is Some <==> c.powershell is Some
    &&& c.powershell is Some ==> spec_common_resolved(
        r.powershell.unwrap().common,
        c.powershell.unwrap().common,
        c.common,
    )
}

/// Two resolved common blocks carry the same content.
pub open spec fn spec_common_cfg_eq(a: CommonInstallerConfig, b: CommonInstallerConfig) -> bool {
    &&& a.success_msg@ == b.success_msg@
    &&& a.install_path@ == b.install_path@
}

/// Two resolved package installer configurations carry the same content.
pub open spec fn spec_app_installer_cfg_eq(a: AppInstallerConfig, b: AppInstallerConfig) -> bool {
    &&& (a.homebrew is Some <==> b.homebrew is Some)
    &&& a.homebrew is Some ==> {
        let ha = a.homebrew.unwrap();
        let hb = b.homebrew.unwrap();
        &&& spec_common_cfg_eq(ha.common, hb.common)
        &&& ha.tap == hb.tap
        &&& ha.formula == hb.formula
        &&& ha.version_formulas == hb.version_formulas
    }
    &&& (a.shell is Some <==> b.shell is Some)
    &&& a.shell is Some ==> spec_common_cfg_eq(a.shell.unwrap().common, b.shell.unwrap().common)
    &&& (a.powershell is Some <==> b.powershell is Some)
    &&& a.powershell is Some ==> spec_common_cfg_eq(
        a.powershell.unwrap().common,
        b.powershell.unwrap().common,
    )
}

/// An intermediate rebuilt from an already-folded package installer
/// configuration: every common value is explicitly set at the
/// sub-structure, so nothing is left for folding to fill.
pub open spec fn spec_installer_inheritable_of_final(
    c: AppInstallerConfig,
    dom: CommonInstallerLayer,
    updater: bool,
) -> InstallerConfigInheritable {
    InstallerConfigInheritable {
        common: dom,
        homebrew: match c.homebrew {
            None => None,
            Some(h) => Some(
                HomebrewInstallerLayer {
                    common: CommonInstallerLayer {
                        install_path: Some(h.common.install_path),
                        success_msg: Some(h.common.success_msg),
                    },
                    tap: h.tap,
                    formula: h.formula,
                    version_formulas: h.version_formulas,
                },
            ),
        },
        shell: match c.shell {
            None => None,
            Some(s) => Some(
                ShellInstallerLayer {
                    common: CommonInstallerLayer {
                        install_path: Some(s.common.install_path),
                        success_msg: Some(s.common.success_msg),
                    },
                },
            ),
        },
        powershell: match c.powershell {
            None => None,
            Some(p) => Some(
                PowershellInstallerLayer {
                    common: CommonInstallerLayer {
                        install_path: Some(p.common.install_path),
                        success_msg: Some(p.common.success_msg),
                    },
                },
            ),
        },
        updater,
    }
}

/// Folding is idempotent: an already-folded configuration has every common
/// value explicitly set, so folding its rebuilt intermediate a second time
/// reproduces the identical content — whatever the domain-level fragment
/// holds, it never shows through.
pub proof fn lemma_installer_fold_idempotent(
    c: AppInstallerConfig,
    dom: CommonInstallerLayer,
    updater: bool,
    r: AppInstallerConfig,
)
    requires
        spec_app_installer_folded(r, spec_installer_inheritable_of_final(c, dom, updater)),
    ensures
        spec_app_installer_cfg_eq(r, c),
{
}

/// Duplicate one install-path strategy.
fn dup_strategy(s: &InstallPathStrategy) -> (r: InstallPathStrategy)
    ensures
        r == *s,
{
    match s {
        InstallPathStrategy::CargoHome => InstallPathStrategy::CargoHome,
        InstallPathStrategy::HomeSubdir { subdir } => InstallPathStrategy::HomeSubdir {
            subdir: subdir.clone(),
        },
        InstallPathStrategy::EnvSubdir { env_key, subdir } => InstallPathStrategy::EnvSubdir {
            env_key: env_key.clone(),
            subdir: subdir.clone(),
        },
    }
}

/// Duplicate a strategy list.
fn dup_strategies(v: &Vec<InstallPathStrategy>) -> (r: Vec<InstallPathStrategy>)
    ensures
        r@ == v@,
{
    let mut r: Vec<InstallPathStrategy> = Vec::new();
    let n = v.len();
    let mut i: usize = 0;
    while i < n
        invariant
            i <= n,
            n == v.len(),
            r@ =~= v@.subrange(0, i as int),
        decreases n - i,
    {
        r.push(dup_strategy(&v[i]));
        i = i + 1;
    }
    proof {
        assert(r@ =~= v@);
    }
    r
}

/// Resolve one installer's common block from its own layered values and the
/// domain-level fragment.
fn resolved_common(sub: CommonInstallerLayer, dom: &CommonInstallerLayer) -> (r:
    CommonInstallerConfig)
    ensures
        spec_common_resolved(r, sub, *dom),
{
    let CommonInstallerLayer { install_path, success_msg } = sub;
    let success_msg: String = match success_msg {
        Some(s) => s,
        None => match &dom.success_msg {
            Some(s) => s.clone(),
            None => "everything's installed!".to_owned(),
        },
    };
    let install_path: Vec<InstallPathStrategy> = match install_path {
        Some(v) => v,
        None => match &dom.install_path {
            Some(v) => dup_strategies(v),
            None => {
                let mut v: Vec<InstallPathStrategy> = Vec::new();
                v.push(InstallPathStrategy::CargoHome);
                proof {
                    assert(v@ =~= seq![InstallPathStrategy::CargoHome]);
                }
                v
            },
        },
    };
    CommonInstallerConfig { install_path, success_msg }
}

impl CommonInstallerConfig {
    /// Merge a common installer layer onto this resolved block.
    pub fn apply_layer(&mut self, src: CommonInstallerLayer)
        ensures
            final(self).install_path == merge_val(old(self).install_path, src.install_path),
            final(self).success_msg == merge_val(old(self).success_msg, src.success_msg),
    {
        let CommonInstallerLayer { install_path, success_msg } = src;
        apply_val(&mut self.install_path, install_path);
        apply_val(&mut self.success_msg, success_msg);
    }
}

impl CommonInstallerLayer {
    /// Merge another common installer layer onto this one.
    pub fn apply_layer(&mut self, src: CommonInstallerLayer)
        ensures
            *final(self) == spec_common_installer_merged(*old(self), src),
    {
        let CommonInstallerLayer { install_path, success_msg } = src;
        apply_opt(&mut self.install_path, install_path);
        apply_opt(&mut self.success_msg, success_msg);
    }
}

impl HomebrewInstallerConfig {
    /// The default Homebrew installer settings for a package: the given
    /// common block, nothing Homebrew-specific customized.
    pub fn defaults_for_package(
        workspaces: &WorkspaceInfo,
        pkg_idx: usize,
        common: CommonInstallerConfig,
    ) -> (r: Self)
        ensures
            r.common == common,
            r.tap is None,
            r.formula is None,
            r.version_formulas is None,
    {
        HomebrewInstallerConfig { common, tap: None, formula: None, version_formulas: None }
    }

    /// Merge a Homebrew installer layer onto these resolved settings.
    pub fn apply_layer(&mut self, src: HomebrewInstallerLayer)
        ensures
            final(self).common.install_path == merge_val(
                old(self).common.install_path,
                src.common.install_path,
            ),
            final(self).common.success_msg == merge_val(
                old(self).common.success_msg,
                src.common.success_msg,
            ),
            final(self).tap == merge_opt(old(self).tap, src.tap),
            final(self).formula == merge_opt(old(self).formula, src.formula),
            final(self).version_formulas == merge_opt(old(self).version_formulas, src.version_formulas),
    {
        let HomebrewInstallerLayer { common, tap, formula, version_formulas } = src;
        self.common.apply_layer(common);
        apply_opt(&mut self.tap, tap);
        apply_opt(&mut self.formula, formula);
        apply_opt(&mut self.version_formulas, version_formulas);
    }
}

impl HomebrewInstallerLayer {
    /// Merge another Homebrew installer layer onto this one.
    pub fn apply_layer(&mut self, src: HomebrewInstallerLayer)
        ensures
            *final(self) == spec_homebrew_layer_merged(*old(self), src),
    {
        let HomebrewInstallerLayer { common, tap, formula, version_formulas } = src;
        self.common.apply_layer(common);
        apply_opt(&mut self.tap, tap);
        apply_opt(&mut self.formula, formula);
        apply_opt(&mut self.version_formulas, version_formulas);
    }
}

/// The all-unset Homebrew installer layer.
pub fn homebrew_layer_default() -> (r: HomebrewInstallerLayer)
    ensures
        r == spec_homebrew_layer_default(),
{
    HomebrewInstallerLayer {
        common: CommonInstallerLayer { install_path: None, success_msg: None },
        tap: None,
        formula: None,
        version_formulas: None,
    }
}

/// Apply a toggle-or-struct value to the Homebrew installer.
pub fn apply_homebrew_bool_layer(
    dest: &mut Option<HomebrewInstallerLayer>,
    src: Option<BoolOr<HomebrewInstallerLayer>>,
)
    ensures
        *final(dest) == spec_merge_homebrew_bool_layer(*old(dest), src),
{
    match src {
        None => {},
        Some(BoolOr::Bool(false)) => {
            *dest = None;
        },
        Some(BoolOr::Bool(true)) => {
            *dest = Some(homebrew_layer_default());
        },
        Some(BoolOr::Val(l)) => {
            let cur = dest.take();
            let mut base = match cur {
                Some(d) => d,
                None => homebrew_layer_default(),
            };
            base.apply_layer(l);
            *dest = Some(base);
        },
    }
}

/// Apply a toggle-or-struct value to the shell installer.
pub fn apply_shell_bool_layer(
    dest: &mut Option<ShellInstallerLayer>,
    src: Option<BoolOr<ShellInstallerLayer>>,
)
    ensures
        *final(dest) == spec_merge_shell_bool_layer(*old(dest), src),
{
    match src {
        None => {},
        Some(BoolOr::Bool(false)) => {
            *dest = None;
        },
        Some(BoolOr::Bool(true)) => {
            *dest = Some(
                ShellInstallerLayer {
                    common: CommonInstallerLayer { install_path: None, success_msg: None },
                },
            );
        },
        Some(BoolOr::Val(l)) => {
            let cur = dest.take();
            let mut base = match cur {
                Some(d) => d,
                None => ShellInstallerLayer {
                    common: CommonInstallerLayer { install_path: None, success_msg: None },
                },
            };
            base.common.apply_layer(l.common);
            *dest = Some(base);
        },
    }
}

/// Apply a toggle-or-struct value to the PowerShell installer.
pub fn apply_powershell_bool_layer(
    dest: &mut Option<PowershellInstallerLayer>,
    src: Option<BoolOr<PowershellInstallerLayer>>,
)
    ensures
        *final(dest) == spec_merge_powershell_bool_layer(*old(dest), src),
{
    match src {
        None => {},
        Some(BoolOr::Bool(false)) => {
            *dest = None;
        },
        Some(BoolOr::Bool(true)) => {
            *dest = Some(
                PowershellInstallerLayer {
                    common: CommonInstallerLayer { install_path: None, success_msg: None },
                },
            );
        },
        Some(BoolOr::Val(l)) => {
            let cur = dest.take();
            let mut base = match cur {
                Some(d) => d,
                None => PowershellInstallerLayer {
                    common: CommonInstallerLayer { install_path: None, success_msg: None },
                },
            };
            base.common.apply_layer(l.common);
            *dest = Some(base);
        },
    }
}

impl InstallerConfigInheritable {
    /// The compiled-in defaults for the workspace scope.
    pub fn defaults_for_workspace(workspaces: &WorkspaceInfo) -> (r: Self)
        ensures
            r == spec_installer_defaults(),
    {
        InstallerConfigInheritable {
            common: CommonInstallerLayer { install_path: None, success_msg: None },
            homebrew: None,
            shell: None,
            powershell: None,
            updater: false,
        }
    }

    /// The compiled-in defaults for one package.
    pub fn defaults_for_package(workspaces: &WorkspaceInfo, pkg_idx: usize) -> (r: Self)
        ensures
            r == spec_installer_defaults(),
    {
        InstallerConfigInheritable {
            common: CommonInstallerLayer { install_path: None, success_msg: None },
            homebrew: None,
            shell: None,
            powershell: None,
            updater: false,
        }
    }

    /// Merge an installer layer onto this intermediate.
    pub fn apply_layer(&mut self, src: InstallerLayer)
        ensures
            *final(self) == spec_installer_inheritable_merged(*old(self), Some(src)),
    {
        let InstallerLayer { common, homebrew, shell, powershell, updater } = src;
        self.common.apply_layer(common);
        apply_homebrew_bool_layer(&mut self.homebrew, homebrew);
        apply_shell_bool_layer(&mut self.shell, shell);
        apply_powershell_bool_layer(&mut self.powershell, powershell);
        apply_val(&mut self.updater, updater);
    }

    /// Merge an optional installer layer onto this intermediate.
    pub fn apply_val_layer(&mut self, src: Option<InstallerLayer>)
        ensures
            *final(self) == spec_installer_inheritable_merged(*old(self), src),
    {
        match src {
            None => {},
            Some(l) => self.apply_layer(l),
        }
    }

    /// Fold to the final workspace installer configuration: only the
    /// updater toggle is global.
    pub fn apply_inheritance_for_workspace(self, workspaces: &WorkspaceInfo) -> (r:
        WorkspaceInstallerConfig)
        ensures
            r.updater == self.updater,
    {
        WorkspaceInstallerConfig { updater: self.updater }
    }

    /// Fold to the final package installer configuration: every enabled
    /// installer kind receives the domain-level common values it did not
    /// set itself, and the domain-level fragment is then discarded.
    pub fn apply_inheritance_for_package(self, workspaces: &WorkspaceInfo, pkg_idx: usize) -> (r:
        AppInstallerConfig)
        ensures
            spec_app_installer_folded(r, self),
    {
        let InstallerConfigInheritable { common: dom, homebrew, shell, powershell, updater: _ } =
            self;
        let homebrew = match homebrew {
            None => None,
            Some(hl) => {
                let HomebrewInstallerLayer { common, tap, formula, version_formulas } = hl;
                Some(
                    HomebrewInstallerConfig {
                        common: resolved_common(common, &dom),
                        tap,
                        formula,
                        version_formulas,
                    },
                )
            },
        };
        let shell = match shell {
            None => None,
            Some(sl) => Some(ShellInstallerConfig { common: resolved_common(sl.common, &dom) }),
        };
        let powershell = match powershell {
            None => None,
            Some(pl) => Some(
                PowershellInstallerConfig { common: resolved_common(pl.common, &dom) },
            ),
        };
        AppInstallerConfig { homebrew, shell, powershell }
    }
}

} // verus!
