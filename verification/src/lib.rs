//! Layered configuration resolution for a packaging and release tool.
//!
//! Configuration arrives as partially-specified fragments (a workspace-wide
//! fragment and a per-package fragment). The engine normalizes path-valued
//! fields, merges the fragments over compiled-in defaults with a strict
//! precedence order, folds "common" field values down into the more specific
//! sub-configurations that left them unset, validates the result, and hands
//! out an immutable, fully-resolved configuration.

pub mod errors;
pub mod layer;
pub mod paths;
pub mod workspace;
pub mod artifacts;
pub mod builds;
pub mod ci;
pub mod hosts;
pub mod installers;
pub mod publishers;
pub mod config;
pub mod sign;

use vstd::prelude::*;

verus! {

/// The newest configuration file format revision this engine understands.
pub const CURRENT_CONFIG_VERSION: u64 = 1;

} // verus!
