//! File paths as text, with `/` between their parts.

use crate::text::chars_of;
use vstd::prelude::*;

verus! {

/// Whether a path starts at the root.
pub open spec fn is_absolute_path(path: Seq<char>) -> bool {
    path.len() > 0 && path[0] == '/'
}

/// `path` as seen from `base`: an absolute path is itself, a relative one goes
/// below `base`.
pub open spec fn joined_path(base: Seq<char>, path: Seq<char>) -> Seq<char> {
    if is_absolute_path(path) {
        path
    } else if base.len() == 0 || base.last() == '/' {
        base + path
    } else {
        base + seq!['/'] + path
    }
}

/// Whether a path starts at the root.
pub fn is_absolute(path: &str) -> (absolute: bool)
    ensures
        absolute == is_absolute_path(path@),
{
    let chars = chars_of(path);
    chars.len() > 0 && chars[0] == '/'
}

/// `path` as seen from `base`.
pub fn join_path(base: &str, path: &str) -> (joined: String)
    ensures
        joined@ == joined_path(base@, path@),
{
    if is_absolute(path) {
        return path.to_string();
    }
    let chars = chars_of(base);
    let mut joined = base.to_string();
    if chars.len() > 0 && chars[chars.len() - 1] != '/' {
        joined.push('/');
        assert(joined@ =~= base@ + seq!['/']);
    }
    joined.append(path);
    joined
}

/// What was resolved once stays as it is under every other base, where the first
/// base is absolute.
pub proof fn resolving_again_changes_nothing(
    base: Seq<char>,
    other_base: Seq<char>,
    path: Seq<char>,
)
    requires
        is_absolute_path(base),
    ensures
        is_absolute_path(joined_path(base, path)),
        joined_path(other_base, joined_path(base, path)) == joined_path(base, path),
{
}

}
