//! Generic merge combinators applied uniformly across every configuration
//! field.
//!
//! A later layer is merged onto an earlier one with pure, order-sensitive
//! operators: a value the incoming layer left unset never clears what is
//! already there.

use vstd::prelude::*;

verus! {

/// A field whose surface value is either a bare toggle ("enable with
/// defaults" / "disable") or a detailed override structure.
#[derive(Debug, Clone, PartialEq, Eq)]
pub enum BoolOr<T> {
    /// Just a boolean: wholly enable (with defaults) or wholly disable.
    Bool(bool),
    /// A detailed structure of overrides.
    Val(T),
}

impl<T> BoolOr<T> {
    /// True unless this is the bare toggle `false`.
    pub fn is_not_false(&self) -> (r: bool)
        ensures
            r == !(*self matches BoolOr::Bool(false)),
    {
        match self {
            BoolOr::Bool(b) => *b,
            BoolOr::Val(_) => true,
        }
    }
}

/// Overwrite-if-present on an optional destination: an incoming `Some`
/// replaces the old value, an incoming `None` leaves it alone.
pub open spec fn merge_opt<T>(dest: Option<T>, src: Option<T>) -> Option<T> {
    if src is Some {
        src
    } else {
        dest
    }
}

/// Overwrite-if-present on a required destination: the incoming layer either
/// supplies a replacement value or leaves the destination unchanged.
pub open spec fn merge_val<T>(dest: T, src: Option<T>) -> T {
    if src is Some {
        src.unwrap()
    } else {
        dest
    }
}

/// Apply [`merge_opt`]: replace `dest` only when `src` carries a value.
pub fn apply_opt<T>(dest: &mut Option<T>, src: Option<T>)
    ensures
        *final(dest) == merge_opt(*old(dest), src),
{
    match src {
        Some(v) => {
            *dest = Some(v);
        },
        None => {},
    }
}

/// Apply [`merge_val`]: replace `dest` only when `src` carries a value.
pub fn apply_val<T>(dest: &mut T, src: Option<T>)
    ensures
        *final(dest) == merge_val(*old(dest), src),
{
    match src {
        Some(v) => {
            *dest = v;
        },
        None => {},
    }
}

/// Applying two layers in order keeps the later layer's value whenever it is
/// set: the earlier layer (or the starting default) shows through only where
/// every later layer stayed silent.
pub proof fn lemma_merge_precedence<T>(dest: Option<T>, ws: Option<T>, pkg: Option<T>)
    requires
        pkg is Some,
    ensures
        merge_opt(merge_opt(dest, ws), pkg) == pkg,
{
}

} // verus!
