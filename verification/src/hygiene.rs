//! Leftovers of operations: op records, leases, worktree registrations and
//! savepoints.

use vstd::prelude::*;
use crate::kinds::repaired_unasked;
use crate::lists::{
    flat_map_contains, flat_map_member, joined_lists_contain, mapped_contains, single_contains,
};
use crate::text::holds;
use crate::violation::{
    CheckViolation, DeadOpLeaseKind, LeaseStamp, OpVerb, OrphanedSavepointKind, PathText, RepoPath,
    RevisionId, WorkweaveName,
};
use crate::violation_view::CheckViolationView;

verus! {

/// A checkout the hygiene scan visits.
#[derive(Debug)]
pub struct StateHygieneScanTarget {
    pub workweave: Option<WorkweaveName>,
    pub abs: PathText,
    pub repo: RepoPath,
}

/// A workspace root the hygiene scan visits.
#[derive(Debug)]
pub struct StateHygieneOpStateTarget {
    pub workspace_dir: PathText,
}

/// An operation record.
#[derive(Debug)]
pub struct OpRecord {
    pub id: String,
    pub verb: OpVerb,
    pub started_at: String,
}

/// A lease whose recorded owner does not hold the operation.
#[derive(Debug)]
pub struct DeadLease {
    pub workspace_dir: PathText,
    pub op_id: String,
    pub recorded_owner: PathText,
    pub reason: DeadOpLeaseKind,
    pub created_at: Option<LeaseStamp>,
}

/// What a workspace root holds: the operation record and the dead lease, where
/// they are there and can be read.
#[derive(Debug)]
pub struct OpStateReading {
    pub target: StateHygieneOpStateTarget,
    pub owner: Option<OpRecord>,
    pub dead_lease: Option<DeadLease>,
}

/// A savepoint: its operation, the revision it holds, and whether HEAD carries
/// that revision, where these can be told.
#[derive(Debug)]
pub struct SavepointReading {
    pub op_id: String,
    pub revision: Option<RevisionId>,
    pub carried_by_head: Option<bool>,
}

/// What a checkout's repo holds.
#[derive(Debug)]
pub struct RepoStateReading {
    pub target: StateHygieneScanTarget,
    pub is_repo: bool,
    /// The missing directories of stale worktree registrations; empty where
    /// they cannot be listed.
    pub stale_registrations: Vec<PathText>,
    pub head_readable: bool,
    /// `None` where the savepoints cannot be listed.
    pub savepoints: Option<Vec<SavepointReading>>,
}

/// What the operation record of a workspace root raises.
pub open spec fn owner_findings(r: OpStateReading) -> Seq<CheckViolationView> {
    match r.owner {
        Some(o) => seq![
            CheckViolationView::StaleOpState {
                workspace_dir: r.target.workspace_dir@,
                verb: o.verb.deep_view(),
                started_at: o.started_at@,
            },
        ],
        None => Seq::empty(),
    }
}

/// What the lease of a workspace root raises.
pub open spec fn lease_findings(r: OpStateReading) -> Seq<CheckViolationView> {
    match r.dead_lease {
        Some(l) => seq![
            CheckViolationView::DeadOpLease {
                workspace_dir: l.workspace_dir@,
                op_id: l.op_id@,
                recorded_owner: l.recorded_owner@,
                sub_kind: l.reason.deep_view(),
                created_at: l.created_at.deep_view(),
            },
        ],
        None => Seq::empty(),
    }
}

/// What a workspace root raises.
pub open spec fn op_state_findings(r: OpStateReading) -> Seq<CheckViolationView> {
    owner_findings(r) + lease_findings(r)
}

/// Whether an operation is recorded at one of the workspace roots.
pub open spec fn op_is_live(roots: Seq<OpStateReading>, op_id: Seq<char>) -> bool {
    exists|i: int|
        0 <= i < roots.len() && #[trigger] recorded_op(roots[i]) == Some(op_id)
}

/// The operation recorded at a workspace root.
pub open spec fn recorded_op(r: OpStateReading) -> Option<Seq<char>> {
    match r.owner {
        Some(o) => Some(o.id@),
        None => None,
    }
}

/// Whether a savepoint holds nothing that HEAD does not carry. Where that
/// cannot be told the savepoint counts as live.
pub open spec fn savepoint_kind(head_readable: bool, s: SavepointReading) -> OrphanedSavepointKind {
    if head_readable && s.revision is Some && s.carried_by_head == Some(true) {
        OrphanedSavepointKind::Redundant
    } else {
        OrphanedSavepointKind::Live
    }
}

/// What a savepoint raises: nothing while its operation is recorded.
pub open spec fn savepoint_rule(
    roots: Seq<OpStateReading>,
    r: RepoStateReading,
) -> spec_fn(SavepointReading) -> Seq<CheckViolationView> {
    |s: SavepointReading|
        if op_is_live(roots, s.op_id@) {
            Seq::empty()
        } else {
            seq![
                CheckViolationView::OrphanedSavepoint {
                    workweave: r.target.workweave.deep_view(),
                    repo: r.target.repo@,
                    op_id: s.op_id@,
                    sub_kind: savepoint_kind(r.head_readable, s),
                },
            ]
        }
}

/// The finding of a stale worktree registration.
pub open spec fn registration_rule(r: RepoStateReading) -> spec_fn(Seq<char>) -> CheckViolationView {
    |p: Seq<char>|
        CheckViolationView::StaleWorktreeRegistration {
            workweave: r.target.workweave.deep_view(),
            repo: r.target.repo@,
            missing_path: p,
        }
}

/// What a checkout's repo raises.
pub open spec fn repo_state_findings(roots: Seq<OpStateReading>, r: RepoStateReading) -> Seq<
    CheckViolationView,
> {
    if !r.is_repo {
        Seq::empty()
    } else {
        r.stale_registrations.deep_view().map_values(registration_rule(r)) + match r.savepoints {
            Some(list) => list@.flat_map(savepoint_rule(roots, r)),
            None => Seq::empty(),
        }
    }
}

/// What each checkout's repo raises.
pub open spec fn repo_state_rule(roots: Seq<OpStateReading>) -> spec_fn(RepoStateReading) -> Seq<
    CheckViolationView,
> {
    |r: RepoStateReading| repo_state_findings(roots, r)
}

/// What the hygiene scan raises, repos before roots.
pub open spec fn hygiene_findings(
    repos: Seq<RepoStateReading>,
    roots: Seq<OpStateReading>,
) -> Seq<CheckViolationView> {
    repos.flat_map(repo_state_rule(roots)) + roots.flat_map(
        |r: OpStateReading| op_state_findings(r),
    )
}

fn copy_verb(v: &OpVerb) -> (copy: OpVerb)
    ensures
        copy.deep_view() == v.deep_view(),
{
    OpVerb { name: v.name.clone(), resume_command: v.resume_command.clone() }
}

fn copy_reason(k: &DeadOpLeaseKind) -> (copy: DeadOpLeaseKind)
    ensures
        copy.deep_view() == k.deep_view(),
{
    match k {
        DeadOpLeaseKind::OwnerRecordAbsent => DeadOpLeaseKind::OwnerRecordAbsent,
        DeadOpLeaseKind::OwnerOpIdMismatch { owner_op_id } => DeadOpLeaseKind::OwnerOpIdMismatch {
            owner_op_id: owner_op_id.clone(),
        },
    }
}

fn copy_stamp(s: &Option<LeaseStamp>) -> (copy: Option<LeaseStamp>)
    ensures
        copy.deep_view() == s.deep_view(),
{
    match s {
        Some(l) => Some(
            LeaseStamp { created_at: l.created_at.clone(), elapsed: l.elapsed.clone() },
        ),
        None => None,
    }
}

/// Copies a workweave's name where there is one.
pub fn copy_workweave(w: &Option<WorkweaveName>) -> (copy: Option<WorkweaveName>)
    ensures
        copy.deep_view() == w.deep_view(),
{
    match w {
        Some(name) => Some(name.clone()),
        None => None,
    }
}

/// Adds what a workspace root raises.
fn push_op_state(violations: &mut Vec<CheckViolation>, r: &OpStateReading)
    ensures
        final(violations).deep_view() == old(violations).deep_view() + op_state_findings(*r),
{
    let ghost start = violations.deep_view();
    if let Some(o) = &r.owner {
        violations.push(
            CheckViolation::StaleOpState {
                workspace_dir: r.target.workspace_dir.clone(),
                verb: copy_verb(&o.verb),
                started_at: o.started_at.clone(),
            },
        );
    }
    assert(violations.deep_view() =~= start + owner_findings(*r));
    let ghost middle = violations.deep_view();
    if let Some(l) = &r.dead_lease {
        violations.push(
            CheckViolation::DeadOpLease {
                workspace_dir: l.workspace_dir.clone(),
                op_id: l.op_id.clone(),
                recorded_owner: l.recorded_owner.clone(),
                sub_kind: copy_reason(&l.reason),
                created_at: copy_stamp(&l.created_at),
            },
        );
    }
    assert(violations.deep_view() =~= middle + lease_findings(*r));
    assert(violations.deep_view() =~= start + op_state_findings(*r));
}

/// Adds what a checkout's repo raises.
fn push_repo_state(
    violations: &mut Vec<CheckViolation>,
    live: &Vec<String>,
    roots: Ghost<Seq<OpStateReading>>,
    r: &RepoStateReading,
)
    requires
        forall|id: Seq<char>| #[trigger] live.deep_view().contains(id) <==> op_is_live(roots@, id),
    ensures
        final(violations).deep_view() == old(violations).deep_view() + repo_state_findings(
            roots@,
            *r,
        ),
{
    let ghost start = violations.deep_view();
    if !r.is_repo {
        assert(violations.deep_view() =~= start + repo_state_findings(roots@, *r));
        return;
    }
    let ghost paths = r.stale_registrations.deep_view();
    let ghost g = registration_rule(*r);
    let mut i: usize = 0;
    assert(violations.deep_view() =~= start + paths.take(0).map_values(g));
    while i < r.stale_registrations.len()
        invariant
            0 <= i <= r.stale_registrations.len(),
            paths == r.stale_registrations.deep_view(),
            g == registration_rule(*r),
            violations.deep_view() == start + paths.take(i as int).map_values(g),
        decreases r.stale_registrations.len() - i,
    {
        let ghost prior = violations.deep_view();
        violations.push(
            CheckViolation::StaleWorktreeRegistration {
                workweave: copy_workweave(&r.target.workweave),
                repo: r.target.repo.clone(),
                missing_path: r.stale_registrations[i].clone(),
            },
        );
        proof {
            assert(paths[i as int] == r.stale_registrations@[i as int]@);
            assert(violations.deep_view() =~= prior.push(g(paths[i as int])));
            assert(paths.take(i as int + 1) =~= paths.take(i as int).push(paths[i as int]));
            assert(paths.take(i as int + 1).map_values(g) =~= paths.take(i as int).map_values(
                g,
            ).push(g(paths[i as int])));
            assert(violations.deep_view() =~= start + paths.take(i as int + 1).map_values(g));
        }
        i = i + 1;
    }
    assert(paths.take(i as int) =~= paths);
    let ghost middle = violations.deep_view();
    if let Some(list) = &r.savepoints {
        let ghost f = savepoint_rule(roots@, *r);
        let mut k: usize = 0;
        assert(violations.deep_view() =~= middle + list@.take(0).flat_map(f));
        while k < list.len()
            invariant
                0 <= k <= list.len(),
                f == savepoint_rule(roots@, *r),
                forall|id: Seq<char>| #[trigger]
                    live.deep_view().contains(id) <==> op_is_live(roots@, id),
                violations.deep_view() == middle + list@.take(k as int).flat_map(f),
            decreases list.len() - k,
        {
            let ghost prior = violations.deep_view();
            let s: &SavepointReading = &list[k];
            if !holds(live, &s.op_id) {
                let carried: bool = match s.carried_by_head {
                    Some(c) => c,
                    None => false,
                };
                let sub_kind: OrphanedSavepointKind = if r.head_readable && s.revision.is_some()
                    && carried {
                    OrphanedSavepointKind::Redundant
                } else {
                    OrphanedSavepointKind::Live
                };
                violations.push(
                    CheckViolation::OrphanedSavepoint {
                        workweave: copy_workweave(&r.target.workweave),
                        repo: r.target.repo.clone(),
                        op_id: s.op_id.clone(),
                        sub_kind,
                    },
                );
            }
            proof {
                list@.lemma_flat_map_take_append(f, k as int);
                assert(violations.deep_view() =~= prior + f(list@[k as int]));
                assert(violations.deep_view() =~= middle + list@.take(k as int + 1).flat_map(f));
            }
            k = k + 1;
        }
        assert(list@.take(k as int) =~= list@);
    }
    assert(violations.deep_view() =~= start + repo_state_findings(roots@, *r));
}

/// Reports what operations left behind: first in the checkouts' repos, then at
/// the workspace roots.
pub fn scan_state_hygiene(
    repos: &Vec<RepoStateReading>,
    op_states: &Vec<OpStateReading>,
) -> (violations: Vec<CheckViolation>)
    ensures
        violations.deep_view() == hygiene_findings(repos@, op_states@),
{
    let ghost f = |r: OpStateReading| op_state_findings(r);
    let mut at_roots: Vec<CheckViolation> = Vec::new();
    let mut live: Vec<String> = Vec::new();
    let mut i: usize = 0;
    assert(at_roots.deep_view() =~= op_states@.take(0).flat_map(f));
    while i < op_states.len()
        invariant
            0 <= i <= op_states.len(),
            f == (|r: OpStateReading| op_state_findings(r)),
            at_roots.deep_view() == op_states@.take(i as int).flat_map(f),
            forall|id: Seq<char>| #[trigger]
                live.deep_view().contains(id) <==> op_is_live(op_states@.take(i as int), id),
        decreases op_states.len() - i,
    {
        let ghost before = live.deep_view();
        push_op_state(&mut at_roots, &op_states[i]);
        if let Some(o) = &op_states[i].owner {
            live.push(o.id.clone());
        }
        proof {
            op_states@.lemma_flat_map_take_append(f, i as int);
            let now = op_states@.take(i as int + 1);
            assert forall|id: Seq<char>| #[trigger]
                live.deep_view().contains(id) <==> op_is_live(now, id) by {
                if op_is_live(now, id) {
                    let k = choose|k: int|
                        0 <= k < now.len() && #[trigger] recorded_op(now[k]) == Some(id);
                    if k < i {
                        assert(recorded_op(op_states@.take(i as int)[k]) == Some(id));
                        assert(before.contains(id));
                        let x = choose|x: int| 0 <= x < before.len() && before[x] == id;
                        assert(live.deep_view()[x] == id);
                    } else {
                        assert(live.deep_view()[before.len() as int] == id);
                    }
                }
                if live.deep_view().contains(id) {
                    let x = choose|x: int|
                        0 <= x < live.deep_view().len() && live.deep_view()[x] == id;
                    if x < before.len() {
                        assert(before[x] == id);
                        assert(before.contains(id));
                        let k = choose|k: int|
                            0 <= k < i && #[trigger] recorded_op(op_states@.take(i as int)[k])
                                == Some(id);
                        assert(recorded_op(now[k]) == Some(id));
                    } else {
                        assert(recorded_op(now[i as int]) == Some(id));
                    }
                }
            }
        }
        i = i + 1;
    }
    assert(op_states@.take(i as int) =~= op_states@);
    let ghost g = repo_state_rule(op_states@);
    let mut violations: Vec<CheckViolation> = Vec::new();
    let mut k: usize = 0;
    assert(violations.deep_view() =~= repos@.take(0).flat_map(g));
    while k < repos.len()
        invariant
            0 <= k <= repos.len(),
            g == repo_state_rule(op_states@),
            forall|id: Seq<char>| #[trigger]
                live.deep_view().contains(id) <==> op_is_live(op_states@, id),
            violations.deep_view() == repos@.take(k as int).flat_map(g),
        decreases repos.len() - k,
    {
        push_repo_state(&mut violations, &live, Ghost(op_states@), &repos[k]);
        proof {
            repos@.lemma_flat_map_take_append(g, k as int);
            assert(violations.deep_view() =~= repos@.take(k as int + 1).flat_map(g));
        }
        k = k + 1;
    }
    assert(repos@.take(k as int) =~= repos@);
    let ghost in_repos = violations.deep_view();
    let ghost last = at_roots.deep_view();
    violations.append(&mut at_roots);
    assert(violations.deep_view() =~= in_repos + last);
    violations
}

/// What repairing a leftover does to the machine.
#[derive(Debug)]
pub enum HygieneRepair {
    /// Prune the worktree registrations of a repo.
    PruneWorktrees { repo: PathText },
    /// Drop the savepoint of an operation.
    DropSavepoint { repo: PathText, op_id: String },
    /// Remove the lease of a workspace root.
    RemoveLease { workspace_dir: PathText },
    /// Nothing: the finding is not repaired here.
    Leave,
}

/// Whether a repair is the one a finding calls for.
pub open spec fn repair_for(v: CheckViolationView, repo: Seq<char>, r: HygieneRepair) -> bool {
    match v {
        CheckViolationView::StaleWorktreeRegistration { .. } => {
            r matches HygieneRepair::PruneWorktrees { repo: at } && at@ == repo
        },
        CheckViolationView::OrphanedSavepoint { op_id, sub_kind, .. } => if sub_kind is Redundant {
            r matches HygieneRepair::DropSavepoint { repo: at, op_id: id } && at@ == repo && id@
                == op_id
        } else {
            r is Leave
        },
        CheckViolationView::DeadOpLease { workspace_dir, .. } => {
            r matches HygieneRepair::RemoveLease { workspace_dir: dir } && dir@ == workspace_dir
        },
        _ => r is Leave,
    }
}

/// The repair of a leftover in the repo at `repo_abs`. A savepoint that holds
/// commits nothing else anchors is left alone.
pub fn fix_state_hygiene(violation: &CheckViolation, repo_abs: &PathText) -> (repair: HygieneRepair)
    ensures
        repair_for(violation.deep_view(), repo_abs@, repair),
{
    match violation {
        CheckViolation::StaleWorktreeRegistration { .. } => HygieneRepair::PruneWorktrees {
            repo: repo_abs.clone(),
        },
        CheckViolation::OrphanedSavepoint { op_id, sub_kind, .. } => match sub_kind {
            OrphanedSavepointKind::Redundant => HygieneRepair::DropSavepoint {
                repo: repo_abs.clone(),
                op_id: op_id.clone(),
            },
            OrphanedSavepointKind::Live => HygieneRepair::Leave,
        },
        CheckViolation::DeadOpLease { workspace_dir, .. } => HygieneRepair::RemoveLease {
            workspace_dir: workspace_dir.clone(),
        },
        _ => HygieneRepair::Leave,
    }
}

/// What happened when a repair was carried out, worded for the report.
pub open spec fn prune_failure_text(repo: Seq<char>) -> Seq<char> {
    "worktree prune failed in "@ + repo
}

/// Words a failed prune.
pub fn prune_failure(repo: &PathText) -> (text: String)
    ensures
        text@ == prune_failure_text(repo@),
{
    "worktree prune failed in ".to_owned().concat(repo)
}

/// Only findings that `--fix` repairs unasked are repaired here.
pub proof fn hygiene_repairs_are_sanctioned(v: CheckViolationView, repo: Seq<char>, r: HygieneRepair)
    requires
        repair_for(v, repo, r),
        !(r is Leave),
    ensures
        repaired_unasked(v),
{
}

/// The savepoints of an operation that is recorded somewhere are never
/// reported, so never dropped.
pub proof fn running_operations_keep_their_savepoints(
    repos: Seq<RepoStateReading>,
    roots: Seq<OpStateReading>,
    i: int,
)
    requires
        0 <= i < hygiene_findings(repos, roots).len(),
    ensures
        hygiene_findings(repos, roots)[i] matches CheckViolationView::OrphanedSavepoint {
            op_id,
            ..
        } ==> !op_is_live(roots, op_id),
{
    let f = |r: OpStateReading| op_state_findings(r);
    let g = repo_state_rule(roots);
    let first = repos.flat_map(g);
    let found = hygiene_findings(repos, roots)[i];
    if i >= first.len() {
        let j = i - first.len();
        assert(roots.flat_map(f)[j] == found);
        let k = flat_map_member(roots, f, j);
        let r = roots[k];
        let part = op_state_findings(r);
        let n = choose|n: int| 0 <= n < part.len() && part[n] == found;
        if n < owner_findings(r).len() {
            assert(owner_findings(r)[n] == found);
        } else {
            assert(lease_findings(r)[n - owner_findings(r).len()] == found);
        }
    } else {
        assert(first[i] == found);
        let k = flat_map_member(repos, g, i);
        let r = repos[k];
        let part = repo_state_findings(roots, r);
        let n = choose|n: int| 0 <= n < part.len() && part[n] == found;
        let stale = r.stale_registrations.deep_view().map_values(registration_rule(r));
        if n < stale.len() {
            assert(stale[n] == found);
        } else {
            let list = r.savepoints->0@;
            let m = n - stale.len();
            assert(list.flat_map(savepoint_rule(roots, r))[m] == found);
            let q = flat_map_member(list, savepoint_rule(roots, r), m);
            let raised = savepoint_rule(roots, r)(list[q]);
            let z = choose|z: int| 0 <= z < raised.len() && raised[z] == found;
            assert(raised[z] == found);
        }
    }
}

/// A savepoint that holds what HEAD does not carry, and an operation that was
/// interrupted, are left to the operator.
pub proof fn work_in_progress_is_left_alone(v: CheckViolationView, repo: Seq<char>, r: HygieneRepair)
    requires
        repair_for(v, repo, r),
    ensures
        v is StaleOpState ==> r is Leave,
        v matches CheckViolationView::OrphanedSavepoint { sub_kind, .. } ==> sub_kind is Live
            ==> r is Leave,
{
}

/// A savepoint is redundant exactly where HEAD could be read and carries it.
pub proof fn carried_savepoints_are_redundant(head_readable: bool, s: SavepointReading)
    ensures
        savepoint_kind(head_readable, s) == OrphanedSavepointKind::Redundant <==> head_readable
            && s.revision is Some && s.carried_by_head == Some(true),
        s.carried_by_head != Some(true) ==> savepoint_kind(head_readable, s)
            == OrphanedSavepointKind::Live,
{
}

/// A repo is reported for each stale worktree registration, and for each
/// savepoint of an operation that no longer runs, in its own checkout; a
/// directory that is no repo raises nothing.
pub proof fn leftovers_are_told_in_place(
    roots: Seq<OpStateReading>,
    r: RepoStateReading,
    v: CheckViolationView,
)
    ensures
        repo_state_findings(roots, r).contains(v) <==> r.is_repo && {
            ||| exists|i: int|
                0 <= i < r.stale_registrations@.len() && v == (
                CheckViolationView::StaleWorktreeRegistration {
                    workweave: r.target.workweave.deep_view(),
                    repo: r.target.repo@,
                    missing_path: (#[trigger] r.stale_registrations@[i])@,
                })
            ||| (r.savepoints matches Some(list) && exists|i: int|
                #![trigger list@[i]]
                0 <= i < list@.len() && !op_is_live(roots, list@[i].op_id@) && v == (
                CheckViolationView::OrphanedSavepoint {
                    workweave: r.target.workweave.deep_view(),
                    repo: r.target.repo@,
                    op_id: list@[i].op_id@,
                    sub_kind: savepoint_kind(r.head_readable, list@[i]),
                }))
        },
{
    if r.is_repo {
        let paths = r.stale_registrations.deep_view();
        let f = registration_rule(r);
        let a = paths.map_values(f);
        let b = match r.savepoints {
            Some(list) => list@.flat_map(savepoint_rule(roots, r)),
            None => Seq::empty(),
        };
        joined_lists_contain(a, b, v);
        mapped_contains(paths, f, v);
        assert forall|i: int| 0 <= i < paths.len() implies #[trigger] paths[i]
            == r.stale_registrations@[i]@ by {}
        if a.contains(v) {
            let i = choose|i: int| 0 <= i < paths.len() && #[trigger] f(paths[i]) == v;
            assert(paths[i] == r.stale_registrations@[i]@);
        }
        assert forall|i: int|
            0 <= i < r.stale_registrations@.len() && v == (
            CheckViolationView::StaleWorktreeRegistration {
                workweave: r.target.workweave.deep_view(),
                repo: r.target.repo@,
                missing_path: (#[trigger] r.stale_registrations@[i])@,
            }) implies a.contains(v) by {
            assert(f(paths[i]) == v);
        }
        if let Some(list) = r.savepoints {
            let g = savepoint_rule(roots, r);
            flat_map_contains(list@, g, v);
            assert forall|i: int| 0 <= i < list@.len() implies (#[trigger] g(list@[i])).contains(v)
                == (g(list@[i]).len() == 1 && g(list@[i])[0] == v) by {
                if g(list@[i]).len() == 1 {
                    single_contains(g(list@[i])[0], v);
                    assert(g(list@[i]) =~= seq![g(list@[i])[0]]);
                }
            }
            assert forall|i: int| 0 <= i < list@.len() implies #[trigger] list@[i] == list@[i] && g(
                list@[i],
            ).len() <= 1 by {}
        }
    }
}

/// An operation record raises a finding where it stands, and a dead lease one
/// with all that the lease records.
pub proof fn operation_records_are_told(r: OpStateReading, v: CheckViolationView)
    ensures
        op_state_findings(r).contains(v) <==> {
            ||| r.owner matches Some(o) && v == (CheckViolationView::StaleOpState {
                workspace_dir: r.target.workspace_dir@,
                verb: o.verb.deep_view(),
                started_at: o.started_at@,
            })
            ||| r.dead_lease matches Some(l) && v == (CheckViolationView::DeadOpLease {
                workspace_dir: l.workspace_dir@,
                op_id: l.op_id@,
                recorded_owner: l.recorded_owner@,
                sub_kind: l.reason.deep_view(),
                created_at: l.created_at.deep_view(),
            })
        },
{
    joined_lists_contain(owner_findings(r), lease_findings(r), v);
    if owner_findings(r).len() > 0 {
        single_contains(owner_findings(r)[0], v);
        assert(owner_findings(r) =~= seq![owner_findings(r)[0]]);
    }
    if lease_findings(r).len() > 0 {
        single_contains(lease_findings(r)[0], v);
        assert(lease_findings(r) =~= seq![lease_findings(r)[0]]);
    }
}

/// The scan reports what each repo and each record raises, and nothing else.
pub proof fn hygiene_covers_repos_and_records(
    repos: Seq<RepoStateReading>,
    roots: Seq<OpStateReading>,
    v: CheckViolationView,
)
    ensures
        hygiene_findings(repos, roots).contains(v) <==> {
            ||| exists|i: int|
                0 <= i < repos.len() && repo_state_findings(roots, #[trigger] repos[i]).contains(v)
            ||| exists|i: int|
                0 <= i < roots.len() && op_state_findings(#[trigger] roots[i]).contains(v)
        },
{
    let f = repo_state_rule(roots);
    let g = |r: OpStateReading| op_state_findings(r);
    let a = repos.flat_map(f);
    let b = roots.flat_map(g);
    joined_lists_contain(a, b, v);
    flat_map_contains(repos, f, v);
    flat_map_contains(roots, g, v);
    if a.contains(v) {
        let i = choose|i: int| 0 <= i < repos.len() && (#[trigger] f(repos[i])).contains(v);
        assert(repo_state_findings(roots, repos[i]).contains(v));
    }
    if b.contains(v) {
        let i = choose|i: int| 0 <= i < roots.len() && (#[trigger] g(roots[i])).contains(v);
        assert(op_state_findings(roots[i]).contains(v));
    }
    assert forall|i: int|
        0 <= i < repos.len() && repo_state_findings(roots, #[trigger] repos[i]).contains(
            v,
        ) implies a.contains(v) by {
        assert(f(repos[i]).contains(v));
    }
    assert forall|i: int|
        0 <= i < roots.len() && op_state_findings(#[trigger] roots[i]).contains(v) implies b.contains(
        v,
    ) by {
        assert(g(roots[i]).contains(v));
    }
}

/// A stale registration is pruned, a redundant savepoint dropped and a dead
/// lease removed, each where its finding is; everything else is left alone.
pub proof fn hygiene_is_restored_in_place(v: CheckViolationView, repo: Seq<char>, r: HygieneRepair)
    requires
        repair_for(v, repo, r),
    ensures
        r is PruneWorktrees <==> v is StaleWorktreeRegistration,
        r matches HygieneRepair::PruneWorktrees { repo: at } ==> at@ == repo,
        r is DropSavepoint <==> (v matches CheckViolationView::OrphanedSavepoint { sub_kind, .. }
            && sub_kind == OrphanedSavepointKind::Redundant),
        r matches HygieneRepair::DropSavepoint { repo: at, op_id: id } ==> at@ == repo && (
        v matches CheckViolationView::OrphanedSavepoint { op_id, .. } && op_id == id@),
        r is RemoveLease <==> v is DeadOpLease,
        r matches HygieneRepair::RemoveLease { workspace_dir: dir } ==> (
        v matches CheckViolationView::DeadOpLease { workspace_dir, .. } && workspace_dir == dir@),
{
}

} // verus!
