//! Publisher configuration.
//!
//! Publishers are legal at workspace scope only, but the resolved settings
//! belong to each package; the common fragment (the prerelease toggle)
//! folds into every enabled publisher.

use vstd::prelude::*;
use crate::layer::{BoolOr, merge_opt, apply_opt};
use crate::workspace::WorkspaceInfo;

verus! {

/// Common publisher fields shared by every publisher sub-structure.
#[derive(Debug, Clone, Copy, PartialEq, Eq)]
pub struct CommonPublisherLayer {
    /// Whether prereleases are published too.
    pub prereleases: Option<bool>,
}

/// What one fragment said about the Homebrew publisher.
#[derive(Debug, Clone, Copy, PartialEq, Eq)]
pub struct HomebrewPublisherLayer {
    /// Common publisher fields, settable on this sub-structure directly.
    pub common: CommonPublisherLayer,
}

/// What one fragment said about the npm publisher.
#[derive(Debug, Clone, Copy, PartialEq, Eq)]
pub struct NpmPublisherLayer {
    /// Common publisher fields, settable on this sub-structure directly.
    pub common: CommonPublisherLayer,
}

/// What one fragment said about publishers.
#[derive(Debug, Clone, PartialEq, Eq)]
pub struct PublisherLayer {
    /// Common publisher fields, settable at the domain level.
    pub common: CommonPublisherLayer,
    /// The Homebrew publisher, or a bare toggle for it.
    pub homebrew: Option<BoolOr<HomebrewPublisherLayer>>,
    /// The npm publisher, or a bare toggle for it.
    pub npm: Option<BoolOr<NpmPublisherLayer>>,
}

/// Publisher configuration whose common fragment has not been folded yet.
#[derive(Debug, Clone, PartialEq, Eq)]
pub struct PublisherConfigInheritable {
    /// Common publisher fields recorded at the domain level.
    pub common: CommonPublisherLayer,
    /// The Homebrew publisher, still in layer form.
    pub homebrew: Option<HomebrewPublisherLayer>,
    /// The npm publisher, still in layer form.
    pub npm: Option<NpmPublisherLayer>,
}

/// Fully resolved Homebrew publisher settings.
#[derive(Debug, Clone, Copy, PartialEq, Eq)]
pub struct HomebrewPublisherConfig {
    /// Whether prereleases are published too.
    pub prereleases: bool,
}

/// Fully resolved npm publisher settings.
#[derive(Debug, Clone, Copy, PartialEq, Eq)]
pub struct NpmPublisherConfig {
    /// Whether prereleases are published too.
    pub prereleases: bool,
}

/// Fully resolved publisher configuration for one package.
#[derive(Debug, Clone, Copy, PartialEq, Eq)]
pub struct PublisherConfig {
    /// Homebrew publisher settings, when enabled.
    pub homebrew: Option<HomebrewPublisherConfig>,
    /// npm publisher settings, when enabled.
    pub npm: Option<NpmPublisherConfig>,
}

/// The all-unset Homebrew publisher layer.
pub open spec fn spec_homebrew_publisher_default() -> HomebrewPublisherLayer {
    HomebrewPublisherLayer { common: CommonPublisherLayer { prereleases: None } }
}

/// The all-unset npm publisher layer.
pub open spec fn spec_npm_publisher_default() -> NpmPublisherLayer {
    NpmPublisherLayer { common: CommonPublisherLayer { prereleases: None } }
}

/// The toggle-or-struct merge for the Homebrew publisher.
pub open spec fn spec_merge_homebrew_pub_bool_layer(
    dest: Option<HomebrewPublisherLayer>,
    src: Option<BoolOr<HomebrewPublisherLayer>>,
) -> Option<HomebrewPublisherLayer> {
    match src {
        None => dest,
        Some(BoolOr::Bool(b)) => if b {
            Some(spec_homebrew_publisher_default())
        } else {
            None
        },
        Some(BoolOr::Val(l)) => Some(
            HomebrewPublisherLayer {
                common: CommonPublisherLayer {
                    prereleases: merge_opt(
                        if dest is Some {
                            dest.unwrap().common.prereleases
                        } else {
                            None
                        },
                        l.common.prereleases,
                    ),
                },
            },
        ),
    }
}

/// The toggle-or-struct merge for the npm publisher.
pub open spec fn spec_merge_npm_pub_bool_layer(
    dest: Option<NpmPublisherLayer>,
    src: Option<BoolOr<NpmPublisherLayer>>,
) -> Option<NpmPublisherLayer> {
    match src {
        None => dest,
        Some(BoolOr::Bool(b)) => if b {
            Some(spec_npm_publisher_default())
        } else {
            None
        },
        Some(BoolOr::Val(l)) => Some(
            NpmPublisherLayer {
                common: CommonPublisherLayer {
                    prereleases: merge_opt(
                        if dest is Some {
                            dest.unwrap().common.prereleases
                        } else {
                            None
                        },
                        l.common.prereleases,
                    ),
                },
            },
        ),
    }
}

/// A publisher layer merged onto the inheritable intermediate.
pub open spec fn spec_publisher_inheritable_merged(
    c: PublisherConfigInheritable,
    l: Option<PublisherLayer>,
) -> PublisherConfigInheritable {
    if l is Some {
        PublisherConfigInheritable {
            common: CommonPublisherLayer {
                prereleases: merge_opt(c.common.prereleases, l.unwrap().common.prereleases),
            },
            homebrew: spec_merge_homebrew_pub_bool_layer(c.homebrew, l.unwrap().homebrew),
            npm: spec_merge_npm_pub_bool_layer(c.npm, l.unwrap().npm),
        }
    } else {
        c
    }
}

/// The compiled-in publisher defaults: nothing published until asked for.
pub open spec fn spec_publisher_defaults() -> PublisherConfigInheritable {
    PublisherConfigInheritable {
        common: CommonPublisherLayer { prereleases: None },
        homebrew: None,
        npm: None,
    }
}

/// The fold to the package scope: the domain-level prerelease toggle
/// cascades into every enabled publisher that left it unset, and the common
/// fragment is then discarded.
pub open spec fn spec_publisher_fold(c: PublisherConfigInheritable) -> PublisherConfig {
    PublisherConfig {
        homebrew: match c.homebrew {
            None => None,
            Some(h) => Some(
                HomebrewPublisherConfig {
                    prereleases: if h.common.prereleases is Some {
                        h.common.prereleases.unwrap()
                    } else if c.common.prereleases is Some {
                        c.common.prereleases.unwrap()
                    } else {
                        false
                    },
                },
            ),
        },
        npm: match c.npm {
            None => None,
            Some(n) => Some(
                NpmPublisherConfig {
                    prereleases: if n.common.prereleases is Some {
                        n.common.prereleases.unwrap()
                    } else if c.common.prereleases is Some {
                        c.common.prereleases.unwrap()
                    } else {
                        false
                    },
                },
            ),
        },
    }
}

/// An intermediate rebuilt from an already-folded publisher
/// configuration: the folded toggle is explicitly set at each enabled
/// publisher.
pub open spec fn spec_publisher_inheritable_of_final(
    c: PublisherConfig,
    dom: CommonPublisherLayer,
) -> PublisherConfigInheritable {
    PublisherConfigInheritable {
        common: dom,
        homebrew: match c.homebrew {
            None => None,
            Some(h) => Some(
                HomebrewPublisherLayer {
                    common: CommonPublisherLayer { prereleases: Some(h.prereleases) },
                },
            ),
        },
        npm: match c.npm {
            None => None,
            Some(n) => Some(
                NpmPublisherLayer {
                    common: CommonPublisherLayer { prereleases: Some(n.prereleases) },
                },
            ),
        },
    }
}

/// Folding is idempotent: folding the rebuilt intermediate of an
/// already-folded publisher configuration reproduces the identical value,
/// whatever the domain-level fragment holds.
pub proof fn lemma_publisher_fold_idempotent(c: PublisherConfig, dom: CommonPublisherLayer)
    ensures
        spec_publisher_fold(spec_publisher_inheritable_of_final(c, dom)) == c,
{
}

impl PublisherConfigInheritable {
    /// The compiled-in defaults for one package.
    pub fn defaults_for_package(workspaces: &WorkspaceInfo, pkg_idx: usize) -> (r: Self)
        ensures
            r == spec_publisher_defaults(),
    {
        PublisherConfigInheritable {
            common: CommonPublisherLayer { prereleases: None },
            homebrew: None,
            npm: None,
        }
    }

    /// Merge a publisher layer onto this intermediate.
    pub fn apply_layer(&mut self, src: PublisherLayer)
        ensures
            *final(self) == spec_publisher_inheritable_merged(*old(self), Some(src)),
    {
        let PublisherLayer { common, homebrew, npm } = src;
        apply_opt(&mut self.common.prereleases, common.prereleases);
        match homebrew {
            None => {},
            Some(BoolOr::Bool(false)) => {
                self.homebrew = None;
            },
            Some(BoolOr::Bool(true)) => {
                self.homebrew = Some(
                    HomebrewPublisherLayer { common: CommonPublisherLayer { prereleases: None } },
                );
            },
            Some(BoolOr::Val(l)) => {
                let cur = self.homebrew.take();
                let mut base = match cur {
                    Some(d) => d,
                    None => HomebrewPublisherLayer {
                        common: CommonPublisherLayer { prereleases: None },
                    },
                };
                apply_opt(&mut base.common.prereleases, l.common.prereleases);
                self.homebrew = Some(base);
            },
        }
        match npm {
            None => {},
            Some(BoolOr::Bool(false)) => {
                self.npm = None;
            },
            Some(BoolOr::Bool(true)) => {
                self.npm = Some(
                    NpmPublisherLayer { common: CommonPublisherLayer { prereleases: None } },
                );
            },
            Some(BoolOr::Val(l)) => {
                let cur = self.npm.take();
                let mut base = match cur {
                    Some(d) => d,
                    None => NpmPublisherLayer { common: CommonPublisherLayer { prereleases: None } },
                };
                apply_opt(&mut base.common.prereleases, l.common.prereleases);
                self.npm = Some(base);
            },
        }
    }

    /// Merge an optional publisher layer onto this intermediate.
    pub fn apply_val_layer(&mut self, src: Option<PublisherLayer>)
        ensures
            *final(self) == spec_publisher_inheritable_merged(*old(self), src),
    {
        match src {
            None => {},
            Some(l) => self.apply_layer(l),
        }
    }

    /// Fold to the final publisher configuration.
    pub fn apply_inheritance_for_package(self, workspaces: &WorkspaceInfo, pkg_idx: usize) -> (r:
        PublisherConfig)
        ensures
            r == spec_publisher_fold(self),
    {
        let PublisherConfigInheritable { common, homebrew, npm } = self;
        PublisherConfig {
            homebrew: match homebrew {
                None => None,
                Some(h) => Some(
                    HomebrewPublisherConfig {
                        prereleases: match h.common.prereleases {
                            Some(b) => b,
                            None => match common.prereleases {
                                Some(b) => b,
                                None => false,
                            },
                        },
                    },
                ),
            },
            npm: match npm {
                None => None,
                Some(n) => Some(
                    NpmPublisherConfig {
                        prereleases: match n.common.prereleases {
                            Some(b) => b,
                            None => match common.prereleases {
                                Some(b) => b,
                                None => false,
                            },
                        },
                    },
                ),
            },
        }
    }
}

} // verus!
