//! The path normalizer.
//!
//! Fragments may declare paths relative to the file they came from. Before
//! any merging, each such path is rewritten to be relative to a fixed root
//! (the workspace root for the workspace fragment, the package root for the
//! package fragment), because once fragments are merged their provenance is
//! lost. Absolute paths are left untouched, so the rewrite is idempotent.

use vstd::prelude::*;
use vstd::string::*;

verus! {

/// A path is absolute when it starts with the root separator.
pub open spec fn spec_is_absolute(p: Seq<char>) -> bool {
    p.len() > 0 && p[0] == '/'
}

/// A leading `./` adds nothing to a relative path; rebasing drops it.
pub open spec fn spec_strip_dot_prefix(p: Seq<char>) -> Seq<char> {
    if p.len() >= 2 && p[0] == '.' && p[1] == '/' {
        p.subrange(2, p.len() as int)
    } else {
        p
    }
}

/// A relative path rebased onto `base`: the base, the separator, then the
/// path without any leading `./`.
pub open spec fn spec_joined(base: Seq<char>, p: Seq<char>) -> Seq<char> {
    base + seq!['/'] + spec_strip_dot_prefix(p)
}

/// What normalization does to one path value: an absolute path is untouched,
/// a relative one is rebased onto `base`.
pub open spec fn spec_normalized_path(p: Seq<char>, base: Seq<char>) -> Seq<char> {
    if spec_is_absolute(p) {
        p
    } else {
        spec_joined(base, p)
    }
}

/// How normalization rewrites a list of paths: each entry is rebased onto
/// `base`, in place and in order.
pub open spec fn paths_normalized(new: Seq<String>, prev: Seq<String>, base: Seq<char>) -> bool {
    &&& new.len() == prev.len()
    &&& forall|i: int|
        0 <= i < prev.len() ==> #[trigger] new[i]@ == spec_normalized_path(prev[i]@, base)
}

/// How normalization rewrites an optional path: present stays present and
/// is rebased, absent stays absent.
pub open spec fn opt_path_normalized(new: Option<String>, prev: Option<String>, base: Seq<char>) -> bool {
    match prev {
        None => new is None,
        Some(p) => match new {
            Some(np) => np@ == spec_normalized_path(p@, base),
            None => false,
        },
    }
}

/// Whether `p` starts with the root separator.
pub fn is_absolute_path(p: &str) -> (r: bool)
    ensures
        r == spec_is_absolute(p@),
{
    p.unicode_len() > 0 && p.get_char(0) == '/'
}

/// Rebase `p` onto `base` when `p` is relative; an absolute `p` comes back
/// unchanged.
pub fn normalized_path(p: String, base: &String) -> (r: String)
    ensures
        r@ == spec_normalized_path(p@, base@),
{
    if is_absolute_path(p.as_str()) {
        p
    } else {
        let n = p.as_str().unicode_len();
        let ps = p.as_str();
        let stripped: &str = if n >= 2 && ps.get_char(0) == '.' && ps.get_char(1) == '/' {
            ps.substring_char(2, n)
        } else {
            ps
        };
        let mut r = base.clone();
        r.append("/");
        r.append(stripped);
        proof {
            reveal_strlit("/");
            assert(("/")@ =~= seq!['/']);
            assert(r@ =~= spec_normalized_path(p@, base@));
        }
        r
    }
}

/// Rewrite a single config-file-relative path to be relative to `base_path`;
/// an already-absolute path stays as it is.
pub fn make_path_relative_to(path: &mut String, base_path: &String)
    ensures
        final(path)@ == spec_normalized_path(old(path)@, base_path@),
{
    let cur = (*path).clone();
    *path = normalized_path(cur, base_path);
}

/// Normalization happens exactly once: a path already rebased onto an
/// absolute root is absolute itself, so rebasing it again changes nothing.
pub proof fn lemma_normalize_idempotent(p: Seq<char>, base: Seq<char>)
    requires
        spec_is_absolute(base),
    ensures
        spec_normalized_path(spec_normalized_path(p, base), base) == spec_normalized_path(p, base),
{
    assert(spec_is_absolute(spec_normalized_path(p, base)));
}

} // verus!
