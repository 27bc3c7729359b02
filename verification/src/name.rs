//! File names as relative paths, and the rule that keeps them below a root.
//!
//! A name is read the way a POSIX path is: components separated by `/`. The
//! backslash is treated as a separator too, so that a name cannot smuggle a
//! parent step past the check on a platform that reads it as one.

use crate::text::chars_of;
use vstd::prelude::*;

verus! {

/// Whether `c` separates the components of a path.
pub open spec fn is_separator(c: char) -> bool {
    c == '/' || c == '\\'
}

/// Whether a component that consists of exactly two dots starts at index `i`
/// of `path`: the step to the parent directory.
pub open spec fn parent_step_at(path: Seq<char>, i: int) -> bool {
    &&& 0 <= i
    &&& i + 2 <= path.len()
    &&& path[i] == '.'
    &&& path[i + 1] == '.'
    &&& (i == 0 || is_separator(path[i - 1]))
    &&& (i + 2 == path.len() || is_separator(path[i + 2]))
}

/// Whether some component of `path` steps to a parent directory.
pub open spec fn climbs(path: Seq<char>) -> bool {
    exists|i: int| parent_step_at(path, i)
}

/// Whether `path` starts at the root of the file system rather than at the
/// directory it is joined to.
pub open spec fn rooted(path: Seq<char>) -> bool {
    path.len() > 0 && is_separator(path[0])
}

/// Whether `name`, joined to any directory, names a place at or below that
/// directory: it is relative and none of its components is `..`.
pub open spec fn confined(name: Seq<char>) -> bool {
    !rooted(name) && !climbs(name)
}

/// `root` and `name` as one path. A separator is put between the two unless
/// `root` is empty or already ends in one.
pub open spec fn joined(root: Seq<char>, name: Seq<char>) -> Seq<char> {
    if root.len() == 0 || is_separator(root.last()) {
        root + name
    } else {
        root + seq!['/'] + name
    }
}

/// Whether `c` separates the components of a path.
pub fn separates(c: char) -> (b: bool)
    ensures
        b == is_separator(c),
{
    c == '/' || c == '\\'
}

/// Decides [`confined`].
pub fn is_confined(name: &str) -> (ok: bool)
    ensures
        ok == confined(name@),
{
    let chars = chars_of(name);
    let n = chars.len();
    if n > 0 && separates(chars[0]) {
        return false;
    }
    let mut i: usize = 0;
    while i < n
        invariant
            i <= n,
            n == chars@.len(),
            chars@ == name@,
            forall|j: int| 0 <= j < i ==> !parent_step_at(chars@, j),
        decreases n - i,
    {
        if n - i >= 2 && chars[i] == '.' && chars[i + 1] == '.' && (i == 0 || separates(
            chars[i - 1],
        )) && (n - i == 2 || separates(chars[i + 2])) {
            assert(parent_step_at(name@, i as int));
            return false;
        }
        i += 1;
    }
    true
}

/// Computes [`joined`].
pub fn join(root: &str, name: &str) -> (path: String)
    ensures
        path@ == joined(root@, name@),
{
    let chars = chars_of(root);
    let n = chars.len();
    let base = root.to_owned();
    if n == 0 || separates(chars[n - 1]) {
        base.concat(name)
    } else {
        proof {
            reveal_strlit("/");
            assert("/"@ =~= seq!['/']);
        }
        base.concat("/").concat(name)
    }
}

/// A confined name cannot leave the directory it is joined to: the joined
/// path begins with the root as it was given, and it steps to a parent
/// directory only where the root itself already does.
pub proof fn lemma_confined_stays_below(root: Seq<char>, name: Seq<char>)
    requires
        confined(name),
    ensures
        root.is_prefix_of(joined(root, name)),
        forall|i: int| parent_step_at(joined(root, name), i) ==> parent_step_at(root, i),
        climbs(joined(root, name)) ==> climbs(root),
{
    let path = joined(root, name);
    let gap: int = if root.len() == 0 || is_separator(root.last()) {
        0
    } else {
        1
    };
    let start = root.len() + gap;
    assert forall|i: int| parent_step_at(path, i) implies parent_step_at(root, i) by {
        if i >= start {
            // A parent step of the path that begins in the name is one of
            // the name, which has none.
            assert(parent_step_at(name, i - start));
        }
        // Elsewhere it lies in the root, or across the seam between the
        // root and the name, where a separator stands.
    }
    if climbs(path) {
        let i = choose|i: int| parent_step_at(path, i);
        assert(parent_step_at(root, i));
    }
}

/// Two names that are joined to one root give one path only if they are one
/// name.
pub proof fn lemma_joined_injective(root: Seq<char>, a: Seq<char>, b: Seq<char>)
    requires
        joined(root, a) == joined(root, b),
    ensures
        a == b,
{
    let start = joined(root, a).len() - a.len();
    assert forall|k: int| 0 <= k < a.len() implies a[k] == b[k] by {
        assert(joined(root, a)[start + k] == a[k]);
        assert(joined(root, b)[start + k] == b[k]);
    }
    assert(a =~= b);
}

} // verus!
