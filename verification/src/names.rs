//! Workspace names.
//!
//! A worktree name is a single path segment, so a branch name such as
//! `feature/login` is turned into `feature_login` before it names a worktree.

use vstd::prelude::*;
use crate::text::{has_char, push_char};

verus! {

/// The character that stands in for `c` in a worktree name.
pub open spec fn flat_char(c: char) -> char {
    if c == '/' {
        '_'
    } else {
        c
    }
}

/// The worktree name that belongs to a workspace name: every `/` replaced by `_`.
pub open spec fn normalized(name: Seq<char>) -> Seq<char> {
    Seq::new(name.len(), |i: int| flat_char(name[i]))
}

/// Whether a name has a path separator in it.
pub open spec fn has_separator(name: Seq<char>) -> bool {
    name.contains('/')
}

/// Replaces every `/` of a workspace name by `_`.
pub fn normalize_workspace_name(workspace_name: &str) -> (res: String)
    ensures
        res@ == normalized(workspace_name@),
{
    let n = workspace_name.unicode_len();
    let mut out = String::new();
    let mut i: usize = 0;
    while i < n
        invariant
            n == workspace_name@.len(),
            i <= n,
            out@ == normalized(workspace_name@).take(i as int),
        decreases n - i,
    {
        let c = workspace_name.get_char(i);
        let d = if c == '/' { '_' } else { c };
        push_char(&mut out, d);
        assert(out@ =~= normalized(workspace_name@).take(i as int + 1));
        i = i + 1;
    }
    assert(normalized(workspace_name@).take(n as int) =~= normalized(workspace_name@));
    out
}

/// Tells whether a name has a `/` in it.
pub fn contains_separator(name: &str) -> (b: bool)
    ensures
        b == has_separator(name@),
{
    has_char(name, '/')
}

/// A normalized name has no path separator left.
pub proof fn lemma_normalized_is_flat(name: Seq<char>)
    ensures
        !has_separator(normalized(name)),
        normalized(name).len() == name.len(),
{
}

/// Normalizing twice is the same as normalizing once.
pub proof fn lemma_normalized_idempotent(name: Seq<char>)
    ensures
        normalized(normalized(name)) == normalized(name),
{
    assert(normalized(normalized(name)) =~= normalized(name));
}

/// A name without a path separator is its own normalized form.
pub proof fn lemma_flat_name_unchanged(name: Seq<char>)
    requires
        !has_separator(name),
    ensures
        normalized(name) == name,
{
    assert(normalized(name) =~= name);
}

} // verus!
