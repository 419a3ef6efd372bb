//! The version-control side of the lifecycle: parsing the worktree listing,
//! the existence check, the pull/sync policy, and the fail-closed ancestry
//! verdict shared by the merge and fast-forward checks.
//!
//! The library decides; the surrounding shell performs the actual
//! version-control invocations and hands their textual output and exit
//! status back in as plain values. Paths are modelled as the strings the
//! listing reports, joined and compared textually.

use vstd::prelude::*;
use crate::error::Error;
use crate::strutil::{spec_starts_with, str_eq, str_starts_with};

verus! {

/// A stateless façade over the local repository.
pub struct Git {}

impl Git {
    pub fn new() -> (g: Git) {
        Git {  }
    }
}

/// Completed lines of `s` paired with the still-open final line: a line ends
/// at each line-feed character, and the last line may end with the text.
pub open spec fn spec_lines_acc(s: Seq<char>) -> (Seq<Seq<char>>, Seq<char>)
    decreases s.len(),
{
    if s.len() == 0 {
        (Seq::empty(), Seq::empty())
    } else {
        let prev = spec_lines_acc(s.drop_last());
        if s.last() == '\n' {
            (prev.0.push(prev.1), Seq::empty())
        } else {
            (prev.0, prev.1.push(s.last()))
        }
    }
}

/// The lines of `s`: split at line feeds, with no empty line after a final
/// line feed.
pub open spec fn spec_lines(s: Seq<char>) -> Seq<Seq<char>> {
    let acc = spec_lines_acc(s);
    if acc.1.len() == 0 {
        acc.0
    } else {
        acc.0.push(acc.1)
    }
}

/// The worktree paths in a sequence of listing lines: for each line that
/// begins with the worktree marker, the text after the marker.
pub open spec fn spec_worktree_entries(lines: Seq<Seq<char>>) -> Seq<Seq<char>>
    decreases lines.len(),
{
    if lines.len() == 0 {
        Seq::empty()
    } else {
        let prev = spec_worktree_entries(lines.drop_last());
        if spec_starts_with(lines.last(), "worktree "@) {
            prev.push(lines.last().skip("worktree "@.len() as int))
        } else {
            prev
        }
    }
}

/// The worktree paths reported by the porcelain worktree listing `s`.
pub open spec fn spec_parse_worktree_list(s: Seq<char>) -> Seq<Seq<char>> {
    spec_worktree_entries(spec_lines(s))
}

/// Splits `s` into its lines.
pub fn split_lines(s: &str) -> (r: Vec<String>)
    ensures
        r.deep_view() == spec_lines(s@),
{
    let n = s.unicode_len();
    let mut done: Vec<String> = Vec::new();
    let mut line_start: usize = 0;
    let mut i: usize = 0;
    while i < n
        invariant
            n == s@.len(),
            line_start <= i <= n,
            spec_lines_acc(s@.take(i as int)) == (done.deep_view(), s@.subrange(
                line_start as int,
                i as int,
            )),
        decreases n - i,
    {
        let c = s.get_char(i);
        proof {
            assert(s@.take(i + 1).drop_last() =~= s@.take(i as int));
            assert(s@.take(i + 1).last() == s@[i as int]);
        }
        if c == '\n' {
            let line = s.substring_char(line_start, i);
            let ghost old_done = done.deep_view();
            done.push(String::from_str(line));
            line_start = i + 1;
            proof {
                assert(done.deep_view() =~= old_done.push(line@));
                assert(s@.subrange(i + 1, i + 1) =~= Seq::<char>::empty());
            }
        } else {
            proof {
                assert(s@.subrange(line_start as int, i as int).push(s@[i as int]) =~= s@.subrange(
                    line_start as int,
                    i + 1,
                ));
            }
        }
        i += 1;
    }
    proof {
        assert(s@.take(n as int) =~= s@);
    }
    if line_start < n {
        let line = s.substring_char(line_start, n);
        let ghost old_done = done.deep_view();
        done.push(String::from_str(line));
        proof {
            assert(done.deep_view() =~= old_done.push(line@));
        }
    }
    done
}

/// Parses the porcelain worktree listing: the path of each registered
/// worktree stands on a line after the worktree marker.
pub fn parse_worktree_list(output: &str) -> (r: Vec<String>)
    ensures
        r.deep_view() == spec_parse_worktree_list(output@),
{
    let lines = split_lines(output);
    let ghost lv = lines.deep_view();
    let mut out: Vec<String> = Vec::new();
    let mut i: usize = 0;
    while i < lines.len()
        invariant
            lv == lines.deep_view(),
            lv.len() == lines@.len(),
            i <= lines@.len(),
            out.deep_view() == spec_worktree_entries(lv.take(i as int)),
        decreases lines@.len() - i,
    {
        proof {
            assert(lv.take(i + 1).drop_last() =~= lv.take(i as int));
            assert(lv.take(i + 1).last() == lv[i as int]);
            assert(lv[i as int] == lines@[i as int]@);
        }
        let line = &lines[i];
        if str_starts_with(line.as_str(), "worktree ") {
            proof {
                reveal_strlit("worktree ");
            }
            let len = line.as_str().unicode_len();
            let entry = line.as_str().substring_char(9, len);
            let ghost old_out = out.deep_view();
            out.push(String::from_str(entry));
            proof {
                assert(entry@ =~= lv[i as int].skip("worktree "@.len() as int));
                assert(out.deep_view() =~= old_out.push(entry@));
            }
        }
        i += 1;
    }
    proof {
        assert(lv.take(lv.len() as int) =~= lv);
    }
    out
}

/// The path of a worktree registered for `rel`, relative to the repository
/// root: the two joined with a separator.
pub open spec fn spec_joined_path(root: Seq<char>, rel: Seq<char>) -> Seq<char> {
    root + seq!['/'] + rel
}

impl Git {
    /// Whether a worktree is registered at `path` (taken relative to the
    /// repository root), judged against the given live listing. Nothing is
    /// cached: each call is answered from the listing handed in.
    pub fn exists_worktree(&self, worktrees: &Vec<String>, repo_root: &str, path: &str) -> (r:
        bool)
        ensures
            r == worktrees.deep_view().contains(spec_joined_path(repo_root@, path@)),
    {
        let target = String::from_str(repo_root).concat("/").concat(path);
        proof {
            reveal_strlit("/");
            assert("/"@ =~= seq!['/']);
            assert(target@ =~= spec_joined_path(repo_root@, path@));
        }
        let ghost wv = worktrees.deep_view();
        let n = worktrees.len();
        let mut i: usize = 0;
        while i < n
            invariant
                wv == worktrees.deep_view(),
                wv.len() == worktrees@.len(),
                n == worktrees@.len(),
                i <= n,
                target@ == spec_joined_path(repo_root@, path@),
                forall|j: int| 0 <= j < i ==> wv[j] != target@,
            decreases n - i,
        {
            proof {
                assert(wv[i as int] == worktrees@[i as int]@);
            }
            if str_eq(worktrees[i].as_str(), target.as_str()) {
                proof {
                    assert(wv.contains(target@)) by {
                        assert(wv[i as int] == target@);
                    }
                }
                return true;
            }
            i += 1;
        }
        proof {
            assert(!wv.contains(target@)) by {
                if wv.contains(target@) {
                    let j = choose|j: int| 0 <= j < wv.len() && wv[j] == target@;
                    assert(wv[j] != target@);
                }
            }
        }
        false
    }
}

/// The fail-closed rule shared by the merge-ancestry and fast-forward
/// checks: the verdict is positive only when the reference in question
/// resolved and the current commit is its ancestor. An indeterminate
/// resolution counts as "no", never as an error — not safe to delete.
pub fn ancestry_verdict(reference_resolved: bool, head_is_ancestor: bool) -> (r: bool)
    ensures
        r == (reference_resolved && head_is_ancestor),
{
    reference_resolved && head_is_ancestor
}

/// What a sync of a worktree with its upstream amounts to.
#[derive(Debug, Clone, PartialEq, Eq)]
pub enum SyncAction {
    /// Nothing to do: the worktree is absent, has no upstream, or the mode
    /// asks for no sync.
    Skip,
    /// A standard fast-forward pull.
    Pull,
    /// A fetch followed by a hard reset to the named remote reference,
    /// discarding local changes.
    FetchAndReset { remote_ref: String },
}

/// The remote reference a forced sync resets to.
pub open spec fn spec_remote_ref(branch: Seq<char>) -> Seq<char> {
    "origin/"@ + branch
}

/// The sync policy. Sync is best-effort: an absent worktree, a missing
/// upstream, or an upstream that does not resolve to a valid remote object
/// all yield no action rather than an error. Only then is the mode read:
/// `default` pulls, `force` fetches and resets hard to the remote branch,
/// `off` does nothing, and anything else is refused.
pub fn sync_plan(
    worktree_on_disk: bool,
    upstream_configured: bool,
    upstream_resolves: bool,
    branch: &str,
    mode: &str,
) -> (r: Result<SyncAction, Error>)
    ensures
        !(worktree_on_disk && upstream_configured && upstream_resolves) ==> r == Ok::<SyncAction, Error>(SyncAction::Skip),
        worktree_on_disk && upstream_configured && upstream_resolves ==> {
            if mode@ == "default"@ {
                r == Ok::<SyncAction, Error>(SyncAction::Pull)
            } else if mode@ == "force"@ {
                r matches Ok(SyncAction::FetchAndReset { remote_ref }) && remote_ref@
                    == spec_remote_ref(branch@)
            } else if mode@ == "off"@ {
                r == Ok::<SyncAction, Error>(SyncAction::Skip)
            } else {
                r matches Err(Error::InvalidPullMode { mode: m }) && m@ == mode@
            }
        },
{
    if !worktree_on_disk {
        return Ok(SyncAction::Skip);
    }
    if !upstream_configured {
        return Ok(SyncAction::Skip);
    }
    if !upstream_resolves {
        return Ok(SyncAction::Skip);
    }
    if str_eq(mode, "default") {
        Ok(SyncAction::Pull)
    } else if str_eq(mode, "force") {
        let remote_ref = String::from_str("origin/").concat(branch);
        Ok(SyncAction::FetchAndReset { remote_ref })
    } else if str_eq(mode, "off") {
        Ok(SyncAction::Skip)
    } else {
        Err(Error::InvalidPullMode { mode: String::from_str(mode) })
    }
}

} // verus!
