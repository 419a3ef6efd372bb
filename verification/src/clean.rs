//! The bulk-cleanup decision engine: which worktrees are candidates, which
//! of those are eligible for removal, and what the operator's confirmation
//! decides. A worktree is eligible only when its branch is merged and its
//! checkout can fast-forward — two independent, fail-closed checks — and
//! nothing outside the configured base directory is ever touched.

use vstd::prelude::*;
use crate::strutil::{spec_starts_with, str_eq, str_starts_with};

verus! {

/// Whether `path` is the base directory itself or a descendant of it: the
/// base followed by a separator and more.
pub open spec fn spec_is_under(path: Seq<char>, base: Seq<char>) -> bool {
    path == base || (spec_starts_with(path, base) && path.len() > base.len() && path[base.len() as int]
        == '/')
}

/// Whether `path` lies under the base directory `base`.
pub fn is_under_base(path: &str, base: &str) -> (r: bool)
    ensures
        r == spec_is_under(path@, base@),
{
    if str_eq(path, base) {
        return true;
    }
    if !str_starts_with(path, base) {
        return false;
    }
    let plen = path.unicode_len();
    let blen = base.unicode_len();
    if plen <= blen {
        proof {
            assert(path@ =~= base@);
        }
        return false;
    }
    path.get_char(blen) == '/'
}

/// The worktrees among `worktrees` that cleanup may examine at all: those
/// lying under the base directory, in listing order.
pub open spec fn spec_candidates(worktrees: Seq<Seq<char>>, base: Seq<char>) -> Seq<Seq<char>>
    decreases worktrees.len(),
{
    if worktrees.len() == 0 {
        Seq::empty()
    } else {
        let prev = spec_candidates(worktrees.drop_last(), base);
        if spec_is_under(worktrees.last(), base) {
            prev.push(worktrees.last())
        } else {
            prev
        }
    }
}

/// Filters the live worktree listing down to the cleanup candidates: the
/// worktrees under the base directory.
pub fn clean_candidates(worktrees: &Vec<String>, base: &str) -> (c: Vec<String>)
    ensures
        c.deep_view() == spec_candidates(worktrees.deep_view(), base@),
{
    let ghost wv = worktrees.deep_view();
    let mut out: Vec<String> = Vec::new();
    let mut i: usize = 0;
    while i < worktrees.len()
        invariant
            wv == worktrees.deep_view(),
            wv.len() == worktrees@.len(),
            i <= worktrees@.len(),
            out.deep_view() == spec_candidates(wv.take(i as int), base@),
        decreases worktrees@.len() - i,
    {
        proof {
            assert(wv.take(i + 1).drop_last() =~= wv.take(i as int));
            assert(wv.take(i + 1).last() == wv[i as int]);
            assert(wv[i as int] == worktrees@[i as int]@);
        }
        if is_under_base(worktrees[i].as_str(), base) {
            let ghost old_out = out.deep_view();
            out.push(worktrees[i].clone());
            proof {
                assert(out.deep_view() =~= old_out.push(wv[i as int]));
            }
        }
        i += 1;
    }
    proof {
        assert(wv.take(wv.len() as int) =~= wv);
    }
    out
}

/// Law: a cleanup candidate always lies under the base directory — a
/// worktree outside it is never examined, whatever its merge state.
pub proof fn lemma_candidates_stay_under_base(
    worktrees: Seq<Seq<char>>,
    base: Seq<char>,
    path: Seq<char>,
)
    requires
        spec_candidates(worktrees, base).contains(path),
    ensures
        spec_is_under(path, base),
    decreases worktrees.len(),
{
    if worktrees.len() > 0 {
        let prev = spec_candidates(worktrees.drop_last(), base);
        if spec_is_under(worktrees.last(), base) {
            let j = choose|j: int|
                0 <= j < prev.push(worktrees.last()).len() && prev.push(worktrees.last())[j]
                    == path;
            if j < prev.len() {
                assert(prev.contains(path)) by {
                    assert(prev[j] == path);
                }
                lemma_candidates_stay_under_base(worktrees.drop_last(), base, path);
            }
        } else {
            lemma_candidates_stay_under_base(worktrees.drop_last(), base, path);
        }
    }
}

/// The merge state cleanup gathered for one candidate worktree: whether its
/// branch is merged (by host lookup for a pull-request worktree, by
/// ancestry otherwise) and whether its checkout can fast-forward.
#[derive(Debug, Clone)]
pub struct WorktreeStatus {
    pub path: String,
    pub merged: bool,
    pub fast_forward: bool,
}

/// The eligibility rule: a worktree may be removed only when its branch is
/// merged and its checkout can fast-forward, both. Each check fails closed,
/// so an indeterminate state keeps the worktree.
pub fn eligible_for_removal(merged: bool, fast_forward: bool) -> (r: bool)
    ensures
        r == (merged && fast_forward),
{
    merged && fast_forward
}

/// The paths proposed for removal: those whose status passes the
/// eligibility rule, in the order examined.
pub open spec fn spec_proposal(statuses: Seq<WorktreeStatus>) -> Seq<Seq<char>>
    decreases statuses.len(),
{
    if statuses.len() == 0 {
        Seq::empty()
    } else {
        let prev = spec_proposal(statuses.drop_last());
        if statuses.last().merged && statuses.last().fast_forward {
            prev.push(statuses.last().path@)
        } else {
            prev
        }
    }
}

/// Builds the removal proposal from the gathered statuses.
pub fn removal_proposal(statuses: &Vec<WorktreeStatus>) -> (r: Vec<String>)
    ensures
        r.deep_view() == spec_proposal(statuses@),
{
    let mut out: Vec<String> = Vec::new();
    let mut i: usize = 0;
    while i < statuses.len()
        invariant
            i <= statuses@.len(),
            out.deep_view() == spec_proposal(statuses@.take(i as int)),
        decreases statuses@.len() - i,
    {
        proof {
            assert(statuses@.take(i + 1).drop_last() =~= statuses@.take(i as int));
            assert(statuses@.take(i + 1).last() == statuses@[i as int]);
        }
        if eligible_for_removal(statuses[i].merged, statuses[i].fast_forward) {
            let ghost old_out = out.deep_view();
            out.push(statuses[i].path.clone());
            proof {
                assert(out.deep_view() =~= old_out.push(statuses@[i as int].path@));
            }
        }
        i += 1;
    }
    proof {
        assert(statuses@.take(statuses@.len() as int) =~= statuses@);
    }
    out
}

/// Law: a path is proposed for removal exactly when some examined status
/// carries it with both the merged and the fast-forward verdicts positive.
pub proof fn lemma_proposal_iff_merged_and_fast_forward(
    statuses: Seq<WorktreeStatus>,
    path: Seq<char>,
)
    ensures
        spec_proposal(statuses).contains(path) <==> exists|i: int|
            0 <= i < statuses.len() && statuses[i].path@ == path && statuses[i].merged
                && statuses[i].fast_forward,
    decreases statuses.len(),
{
    if statuses.len() > 0 {
        let n = statuses.len();
        let prev_s = statuses.drop_last();
        let prev = spec_proposal(prev_s);
        let last = statuses.last();
        let eligible = last.merged && last.fast_forward;
        let prop = spec_proposal(statuses);
        lemma_proposal_iff_merged_and_fast_forward(prev_s, path);
        if prop.contains(path) {
            let j = choose|j: int| 0 <= j < prop.len() && prop[j] == path;
            if eligible && j == prev.len() {
                assert(statuses[n - 1].path@ == path && statuses[n - 1].merged && statuses[n
                    - 1].fast_forward);
            } else {
                assert(prev[j] == path);
                assert(prev.contains(path));
                let k = choose|k: int|
                    0 <= k < prev_s.len() && prev_s[k].path@ == path && prev_s[k].merged
                        && prev_s[k].fast_forward;
                assert(statuses[k] == prev_s[k]);
                assert(statuses[k].path@ == path && statuses[k].merged
                    && statuses[k].fast_forward);
            }
        }
        if exists|i: int|
            0 <= i < n && statuses[i].path@ == path && statuses[i].merged
                && statuses[i].fast_forward {
            let i = choose|i: int|
                0 <= i < n && statuses[i].path@ == path && statuses[i].merged
                    && statuses[i].fast_forward;
            if i == n - 1 {
                assert(eligible);
                assert(prop[prev.len() as int] == path);
                assert(prop.contains(path));
            } else {
                assert(prev_s[i] == statuses[i]);
                assert(prev_s[i].path@ == path && prev_s[i].merged && prev_s[i].fast_forward);
                assert(prev.contains(path));
                let j = choose|j: int| 0 <= j < prev.len() && prev[j] == path;
                assert(prop[j] == path);
                assert(prop.contains(path));
            }
        }
    }
}

/// Law: whatever reaches the proposal came through the candidate filter, so
/// cleanup never proposes a path outside the base directory — even one that
/// is merged and fast-forwardable.
pub proof fn lemma_proposal_stays_under_base(
    worktrees: Seq<Seq<char>>,
    base: Seq<char>,
    statuses: Seq<WorktreeStatus>,
    path: Seq<char>,
)
    requires
        forall|i: int| 0 <= i < statuses.len() ==> spec_candidates(worktrees, base).contains(
            #[trigger] statuses[i].path@,
        ),
        spec_proposal(statuses).contains(path),
    ensures
        spec_is_under(path, base),
{
    lemma_proposal_iff_merged_and_fast_forward(statuses, path);
    let i = choose|i: int|
        0 <= i < statuses.len() && statuses[i].path@ == path && statuses[i].merged
            && statuses[i].fast_forward;
    assert(spec_candidates(worktrees, base).contains(path));
    lemma_candidates_stay_under_base(worktrees, base, path);
}

/// The operator's confirmation: an affirmative answer is a lone `y`, in
/// either case, surrounded by nothing but whitespace.
pub fn confirmation_accepted(input: &str) -> (r: bool)
    ensures
        r == (crate::strutil::spec_trim(input@) == seq!['y'] || crate::strutil::spec_trim(input@)
            == seq!['Y']),
{
    let t = crate::strutil::str_trim(input);
    let n = t.unicode_len();
    if n != 1 {
        proof {
            assert(t@ != seq!['y'] && t@ != seq!['Y']) by {
                assert(seq!['y'].len() == 1 && seq!['Y'].len() == 1);
            }
        }
        return false;
    }
    let c = t.get_char(0);
    proof {
        if c == 'y' {
            assert(t@ =~= seq!['y']);
        }
        if c == 'Y' {
            assert(t@ =~= seq!['Y']);
        }
        if c != 'y' && c != 'Y' {
            assert(t@ != seq!['y'] && t@ != seq!['Y']) by {
                assert(seq!['y'][0] == 'y' && seq!['Y'][0] == 'Y');
            }
        }
    }
    c == 'y' || c == 'Y'
}

/// What cleanup goes on to remove once the operator has answered: the whole
/// proposal on an affirmative answer, nothing otherwise.
pub fn clean_decision(proposal: Vec<String>, confirmed: bool) -> (r: Vec<String>)
    ensures
        confirmed ==> r.deep_view() == proposal.deep_view(),
        !confirmed ==> r.deep_view() == Seq::<Seq<char>>::empty(),
{
    if confirmed {
        proposal
    } else {
        let empty: Vec<String> = Vec::new();
        proof {
            assert(empty.deep_view() =~= Seq::<Seq<char>>::empty());
        }
        empty
    }
}

/// The registry of worktree paths after the removals in `removed` are
/// carried out, each independently of the others.
pub open spec fn spec_registry_after_removals(
    reg: Seq<Seq<char>>,
    removed: Seq<Seq<char>>,
) -> Seq<Seq<char>>
    decreases reg.len(),
{
    if reg.len() == 0 {
        reg
    } else {
        let prev = spec_registry_after_removals(reg.drop_last(), removed);
        if removed.contains(reg.last()) {
            prev
        } else {
            prev.push(reg.last())
        }
    }
}

/// Law: declining the confirmation removes nothing — the registry of
/// worktrees is exactly what it was before cleanup ran.
pub proof fn lemma_decline_leaves_worktrees_unchanged(reg: Seq<Seq<char>>)
    ensures
        spec_registry_after_removals(reg, Seq::empty()) == reg,
    decreases reg.len(),
{
    if reg.len() > 0 {
        lemma_decline_leaves_worktrees_unchanged(reg.drop_last());
        assert(spec_registry_after_removals(reg, Seq::empty()) =~= reg) by {
            assert(reg.drop_last().push(reg.last()) =~= reg);
        }
    }
}

} // verus!
