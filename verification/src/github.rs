//! The host side of the lifecycle: telling pull-request worktrees apart from
//! plain-branch worktrees, and the fail-open merge verdict drawn from a host
//! lookup. The lookups themselves go over an external service; the shell
//! performs them and hands the outcome back in as plain values.

use vstd::prelude::*;
use crate::strutil::{
    last_segment, parse_u64, spec_digits_value, spec_last_segment, spec_numeral_body,
    spec_parses_as_u64, spec_trim, str_eq, str_trim,
};

verus! {

/// A stateless façade over the code-hosting service.
pub struct GitHub {}

impl GitHub {
    pub fn new() -> (g: GitHub) {
        GitHub {  }
    }

    /// The candidate pull-request number a worktree path stands for, derived
    /// purely from its last path segment; nothing when that segment is not a
    /// numeral. This is what lets cleanup route pull-request worktrees to the
    /// host and plain-branch worktrees to the ancestry check, with no stored
    /// metadata.
    pub fn extract_pr_number_from_worktree(&self, worktree: &str) -> (r: Option<u64>)
        ensures
            r is Some <==> spec_parses_as_u64(spec_last_segment(worktree@)),
            r matches Some(n) ==> n == spec_digits_value(
                spec_numeral_body(spec_last_segment(worktree@)),
            ),
    {
        let segment = last_segment(worktree);
        parse_u64(segment)
    }
}

/// The fail-open merge verdict for a pull request: only a lookup that
/// succeeded and reported the merged state counts; any failure yields
/// "not merged" so one unreachable pull request cannot block other cleanup
/// work. `state_output` is the lookup's raw reported state, whitespace and
/// all.
pub fn pr_merged_verdict(lookup_succeeded: bool, state_output: &str) -> (r: bool)
    ensures
        r == (lookup_succeeded && spec_trim(state_output@) == "MERGED"@),
{
    if !lookup_succeeded {
        return false;
    }
    let state = str_trim(state_output);
    str_eq(state, "MERGED")
}

} // verus!
