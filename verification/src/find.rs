//! The checks that need nothing but the loaded projects and the clones' HEADs.

use vstd::prelude::*;
use crate::lists::{flat_map_contains, flat_map_member, joined_lists_contain};
use crate::model::{
    lock_pins, lookup, value_of, LockFile, Project, RepoEntry, ResolvedLockFile, Role,
};
use crate::text::holds;
use crate::violation::{CheckViolation, ProjectName, RepoPath, RevisionId};
use crate::violation_view::CheckViolationView;

verus! {

/// What the checks read.
#[derive(Debug)]
pub struct CheckInput {
    /// The repos some loaded manifest lists.
    pub known_repos: Vec<RepoPath>,
    /// The clones found on disk.
    pub repos_on_disk: Vec<RepoPath>,
    pub projects: Vec<Project>,
    /// The HEAD of each clone, where it can be read.
    pub head_revisions: Vec<(RepoPath, RevisionId)>,
    /// The locks, resolved against the clones, of the projects that have one.
    pub resolved_locks: Vec<(ProjectName, ResolvedLockFile)>,
    /// Whether clones that no project lists are reported. A clone is one of
    /// those only if every project is loaded.
    pub check_orphans: bool,
}

/// What a clone raises: no project lists it.
pub open spec fn orphan_rule(known: Seq<Seq<char>>) -> spec_fn(Seq<char>) -> Seq<CheckViolationView> {
    |repo: Seq<char>|
        if known.contains(repo) {
            Seq::empty()
        } else {
            seq![CheckViolationView::OrphanedClone { path: repo }]
        }
}

/// What a manifest entry raises: its clone is missing, and it is needed.
pub open spec fn dangling_entry_rule(project: Seq<char>, on_disk: Seq<Seq<char>>) -> spec_fn(
    (RepoPath, RepoEntry),
) -> Seq<CheckViolationView> {
    |e: (RepoPath, RepoEntry)|
        if !on_disk.contains(e.0@) && !(e.1.role is Reference) {
            seq![CheckViolationView::DanglingReference { project, repo: e.0@ }]
        } else {
            Seq::empty()
        }
}

/// What a pin raises: the clone's HEAD is another revision.
pub open spec fn stale_rule(
    project: Seq<char>,
    heads: Seq<(RepoPath, RevisionId)>,
) -> spec_fn((RepoPath, RevisionId)) -> Seq<CheckViolationView> {
    |pin: (RepoPath, RevisionId)|
        match value_of(heads, pin.0@) {
            Some(actual) => if pin.1@ != actual@ {
                seq![
                    CheckViolationView::StaleLock {
                        project,
                        repo: pin.0@,
                        locked: pin.1@,
                        actual: actual@,
                    },
                ]
            } else {
                Seq::empty()
            },
            None => Seq::empty(),
        }
}

/// What a manifest entry raises: the lock does not pin it.
pub open spec fn unpinned_rule(project: Seq<char>, lock: LockFile) -> spec_fn(
    (RepoPath, RepoEntry),
) -> Seq<CheckViolationView> {
    |e: (RepoPath, RepoEntry)|
        if lock_pins(lock, e.0@) {
            Seq::empty()
        } else {
            seq![CheckViolationView::IncompleteLock { project, repo: e.0@ }]
        }
}

/// What a project's resolved lock raises.
pub open spec fn stale_findings(input: CheckInput, p: Project) -> Seq<CheckViolationView> {
    match value_of(input.resolved_locks@, p.name@) {
        Some(lock) => lock.repositories@.flat_map(stale_rule(p.name@, input.head_revisions@)),
        None => Seq::empty(),
    }
}

/// What the gaps in a project's lock raise.
pub open spec fn unpinned_findings(p: Project) -> Seq<CheckViolationView> {
    match p.lock {
        Some(lock) => p.manifest.repositories@.flat_map(unpinned_rule(p.name@, lock)),
        None => Seq::empty(),
    }
}

/// What a project raises.
pub open spec fn project_findings(input: CheckInput) -> spec_fn(Project) -> Seq<CheckViolationView> {
    |p: Project|
        p.manifest.repositories@.flat_map(
            dangling_entry_rule(p.name@, input.repos_on_disk.deep_view()),
        ) + stale_findings(input, p) + unpinned_findings(p)
}

/// What the clones raise for want of a project.
pub open spec fn orphan_findings(input: CheckInput) -> Seq<CheckViolationView> {
    if input.check_orphans {
        input.repos_on_disk.deep_view().flat_map(orphan_rule(input.known_repos.deep_view()))
    } else {
        Seq::empty()
    }
}

/// What the checks raise: first the clones no project lists, then, project by
/// project, missing clones, stale pins and missing pins.
pub open spec fn input_findings(input: CheckInput) -> Seq<CheckViolationView> {
    orphan_findings(input) + input.projects@.flat_map(project_findings(input))
}

/// Adds what a project raises.
fn push_project(violations: &mut Vec<CheckViolation>, input: &CheckInput, p: &Project)
    ensures
        final(violations).deep_view() == old(violations).deep_view() + project_findings(*input)(*p),
{
    let ghost start = violations.deep_view();
    let list: &Vec<(RepoPath, RepoEntry)> = &p.manifest.repositories;
    let ghost f = dangling_entry_rule(p.name@, input.repos_on_disk.deep_view());
    let mut i: usize = 0;
    assert(violations.deep_view() =~= start + list@.take(0).flat_map(f));
    while i < list.len()
        invariant
            0 <= i <= list.len(),
            f == dangling_entry_rule(p.name@, input.repos_on_disk.deep_view()),
            violations.deep_view() == start + list@.take(i as int).flat_map(f),
        decreases list.len() - i,
    {
        let ghost prior = violations.deep_view();
        if !holds(&input.repos_on_disk, &list[i].0) && list[i].1.role != Role::Reference {
            violations.push(
                CheckViolation::DanglingReference {
                    project: p.name.clone(),
                    repo: list[i].0.clone(),
                },
            );
        }
        proof {
            list@.lemma_flat_map_take_append(f, i as int);
            assert(violations.deep_view() =~= prior + f(list@[i as int]));
            assert(violations.deep_view() =~= start + list@.take(i as int + 1).flat_map(f));
        }
        i = i + 1;
    }
    assert(list@.take(i as int) =~= list@);
    let ghost first = violations.deep_view();
    if let Some(lock) = lookup(&input.resolved_locks, &p.name) {
        let pins: &Vec<(RepoPath, RevisionId)> = &lock.repositories;
        let ghost g = stale_rule(p.name@, input.head_revisions@);
        let mut k: usize = 0;
        assert(violations.deep_view() =~= first + pins@.take(0).flat_map(g));
        while k < pins.len()
            invariant
                0 <= k <= pins.len(),
                g == stale_rule(p.name@, input.head_revisions@),
                violations.deep_view() == first + pins@.take(k as int).flat_map(g),
            decreases pins.len() - k,
        {
            let ghost prior = violations.deep_view();
            if let Some(actual) = lookup(&input.head_revisions, &pins[k].0) {
                if pins[k].1 != *actual {
                    violations.push(
                        CheckViolation::StaleLock {
                            project: p.name.clone(),
                            repo: pins[k].0.clone(),
                            locked: pins[k].1.clone(),
                            actual: actual.clone(),
                        },
                    );
                }
            }
            proof {
                pins@.lemma_flat_map_take_append(g, k as int);
                assert(violations.deep_view() =~= prior + g(pins@[k as int]));
                assert(violations.deep_view() =~= first + pins@.take(k as int + 1).flat_map(g));
            }
            k = k + 1;
        }
        assert(pins@.take(k as int) =~= pins@);
    }
    assert(violations.deep_view() =~= first + stale_findings(*input, *p));
    let ghost second = violations.deep_view();
    if let Some(lock) = &p.lock {
        let ghost h = unpinned_rule(p.name@, *lock);
        let mut k: usize = 0;
        assert(violations.deep_view() =~= second + list@.take(0).flat_map(h));
        while k < list.len()
            invariant
                0 <= k <= list.len(),
                h == unpinned_rule(p.name@, *lock),
                violations.deep_view() == second + list@.take(k as int).flat_map(h),
            decreases list.len() - k,
        {
            let ghost prior = violations.deep_view();
            if !lock.pins(&list[k].0) {
                violations.push(
                    CheckViolation::IncompleteLock {
                        project: p.name.clone(),
                        repo: list[k].0.clone(),
                    },
                );
            }
            proof {
                list@.lemma_flat_map_take_append(h, k as int);
                assert(violations.deep_view() =~= prior + h(list@[k as int]));
                assert(violations.deep_view() =~= second + list@.take(k as int + 1).flat_map(h));
            }
            k = k + 1;
        }
        assert(list@.take(k as int) =~= list@);
    }
    assert(violations.deep_view() =~= second + unpinned_findings(*p));
    assert(violations.deep_view() =~= start + project_findings(*input)(*p));
}

/// Reports orphaned clones, missing clones, stale pins and missing pins.
pub fn find_violations(input: &CheckInput) -> (violations: Vec<CheckViolation>)
    ensures
        violations.deep_view() == input_findings(*input),
{
    let mut violations: Vec<CheckViolation> = Vec::new();
    if input.check_orphans {
        let ghost all = input.repos_on_disk.deep_view();
        let ghost f = orphan_rule(input.known_repos.deep_view());
        let mut i: usize = 0;
        assert(violations.deep_view() =~= all.take(0).flat_map(f));
        while i < input.repos_on_disk.len()
            invariant
                0 <= i <= input.repos_on_disk.len(),
                all == input.repos_on_disk.deep_view(),
                f == orphan_rule(input.known_repos.deep_view()),
                violations.deep_view() == all.take(i as int).flat_map(f),
            decreases input.repos_on_disk.len() - i,
        {
            let ghost prior = violations.deep_view();
            assert(all[i as int] == input.repos_on_disk@[i as int]@);
            if !holds(&input.known_repos, &input.repos_on_disk[i]) {
                violations.push(
                    CheckViolation::OrphanedClone { path: input.repos_on_disk[i].clone() },
                );
            }
            proof {
                all.lemma_flat_map_take_append(f, i as int);
                assert(violations.deep_view() =~= prior + f(all[i as int]));
            }
            i = i + 1;
        }
        assert(all.take(i as int) =~= all);
    }
    assert(violations.deep_view() =~= orphan_findings(*input));
    let ghost first = violations.deep_view();
    let ghost g = project_findings(*input);
    let mut k: usize = 0;
    assert(violations.deep_view() =~= first + input.projects@.take(0).flat_map(g));
    while k < input.projects.len()
        invariant
            0 <= k <= input.projects.len(),
            g == project_findings(*input),
            violations.deep_view() == first + input.projects@.take(k as int).flat_map(g),
        decreases input.projects.len() - k,
    {
        push_project(&mut violations, input, &input.projects[k]);
        proof {
            input.projects@.lemma_flat_map_take_append(g, k as int);
            assert(violations.deep_view() =~= first + input.projects@.take(k as int + 1).flat_map(
                g,
            ));
        }
        k = k + 1;
    }
    assert(input.projects@.take(k as int) =~= input.projects@);
    violations
}

/// Orphaned clones are reported only where all projects were loaded.
pub proof fn orphans_need_every_project(input: CheckInput, path: Seq<char>)
    requires
        input_findings(input).contains(CheckViolationView::OrphanedClone { path }),
    ensures
        input.check_orphans,
        input.repos_on_disk.deep_view().contains(path),
        !input.known_repos.deep_view().contains(path),
{
    let v = CheckViolationView::OrphanedClone { path };
    let all = input_findings(input);
    let k = choose|k: int| 0 <= k < all.len() && all[k] == v;
    let first = orphan_findings(input);
    if k < first.len() {
        let repos = input.repos_on_disk.deep_view();
        let f = orphan_rule(input.known_repos.deep_view());
        assert(first[k] == v);
        let i = flat_map_member(repos, f, k);
        assert(f(repos[i]).contains(v));
        assert(repos[i] == path);
    } else {
        let g = project_findings(input);
        let j = k - first.len();
        assert(input.projects@.flat_map(g)[j] == v);
        let i = flat_map_member(input.projects@, g, j);
        project_raises_no_orphan(input, input.projects@[i], path);
    }
}

proof fn project_raises_no_orphan(input: CheckInput, p: Project, path: Seq<char>)
    ensures
        !project_findings(input)(p).contains(CheckViolationView::OrphanedClone { path }),
{
    let v = CheckViolationView::OrphanedClone { path };
    let all = project_findings(input)(p);
    let list = p.manifest.repositories@;
    let f = dangling_entry_rule(p.name@, input.repos_on_disk.deep_view());
    let a = list.flat_map(f);
    let b = stale_findings(input, p);
    let c = unpinned_findings(p);
    if all.contains(v) {
        let k = choose|k: int| 0 <= k < all.len() && all[k] == v;
        if k < a.len() {
            assert(a[k] == v);
            let i = flat_map_member(list, f, k);
            assert(f(list[i]).contains(v));
        } else if k < a.len() + b.len() {
            assert(b[k - a.len()] == v);
            let lock = value_of(input.resolved_locks@, p.name@)->0;
            let g = stale_rule(p.name@, input.head_revisions@);
            let i = flat_map_member(lock.repositories@, g, k - a.len());
            assert(g(lock.repositories@[i]).contains(v));
        } else {
            assert(c[k - a.len() - b.len()] == v);
            let lock = p.lock->0;
            let h = unpinned_rule(p.name@, lock);
            let i = flat_map_member(list, h, k - a.len() - b.len());
            assert(h(list[i]).contains(v));
        }
    }
}

/// A reference repo is never reported as missing.
pub proof fn references_may_be_missing(
    project: Seq<char>,
    on_disk: Seq<Seq<char>>,
    e: (RepoPath, RepoEntry),
)
    requires
        e.1.role is Reference,
    ensures
        dangling_entry_rule(project, on_disk)(e).len() == 0,
{
}

/// What a finding of a project comes from: a missing clone, a stale pin or a
/// missing pin.
proof fn project_findings_contain(input: CheckInput, p: Project, v: CheckViolationView)
    ensures
        project_findings(input)(p).contains(v) <==> {
            ||| exists|i: int|
                0 <= i < p.manifest.repositories@.len() && (#[trigger] dangling_entry_rule(
                    p.name@,
                    input.repos_on_disk.deep_view(),
                )(p.manifest.repositories@[i])).contains(v)
            ||| stale_findings(input, p).contains(v)
            ||| unpinned_findings(p).contains(v)
        },
{
    let f = dangling_entry_rule(p.name@, input.repos_on_disk.deep_view());
    let a = p.manifest.repositories@.flat_map(f);
    flat_map_contains(p.manifest.repositories@, f, v);
    joined_lists_contain(a, stale_findings(input, p), v);
    joined_lists_contain(a + stale_findings(input, p), unpinned_findings(p), v);
}

/// What a finding of a project comes from is a loaded project.
proof fn findings_contain(input: CheckInput, v: CheckViolationView)
    ensures
        input_findings(input).contains(v) <==> orphan_findings(input).contains(v) || exists|i: int|
            0 <= i < input.projects@.len() && (#[trigger] project_findings(input)(
                input.projects@[i],
            )).contains(v),
{
    let g = project_findings(input);
    flat_map_contains(input.projects@, g, v);
    joined_lists_contain(orphan_findings(input), input.projects@.flat_map(g), v);
}

/// No clone is reported for want of a project but as orphaned.
proof fn orphan_findings_are_orphans(input: CheckInput, v: CheckViolationView)
    requires
        orphan_findings(input).contains(v),
    ensures
        v is OrphanedClone,
{
    let repos = input.repos_on_disk.deep_view();
    let f = orphan_rule(input.known_repos.deep_view());
    flat_map_contains(repos, f, v);
}

/// A clone is reported as missing exactly where a loaded project lists it,
/// whatever it is used for unless as a reference, and it is not among the clones
/// on disk.
pub proof fn missing_clones_are_reported(input: CheckInput, project: Seq<char>, repo: Seq<char>)
    ensures
        input_findings(input).contains(CheckViolationView::DanglingReference { project, repo }) <==> (
        exists|i: int, k: int|
            #![trigger input.projects@[i].manifest.repositories@[k]]
            0 <= i < input.projects@.len() && 0 <= k
                < input.projects@[i].manifest.repositories@.len() && input.projects@[i].name@
                == project && input.projects@[i].manifest.repositories@[k].0@ == repo
                && input.projects@[i].manifest.repositories@[k].1.role != Role::Reference)
            && !input.repos_on_disk.deep_view().contains(repo),
{
    let v = CheckViolationView::DanglingReference { project, repo };
    findings_contain(input, v);
    if orphan_findings(input).contains(v) {
        orphan_findings_are_orphans(input, v);
    }
    if input_findings(input).contains(v) {
        let i = choose|i: int|
            0 <= i < input.projects@.len() && (#[trigger] project_findings(input)(
                input.projects@[i],
            )).contains(v);
        let p = input.projects@[i];
        project_findings_contain(input, p, v);
        stale_findings_are_stale(input, p, v);
        unpinned_findings_are_unpinned(p, v);
        let f = dangling_entry_rule(p.name@, input.repos_on_disk.deep_view());
        let k = choose|k: int|
            0 <= k < p.manifest.repositories@.len() && (#[trigger] f(
                p.manifest.repositories@[k],
            )).contains(v);
        assert(input.projects@[i].manifest.repositories@[k].0@ == repo);
    }
    if (exists|i: int, k: int|
        #![trigger input.projects@[i].manifest.repositories@[k]]
        0 <= i < input.projects@.len() && 0 <= k < input.projects@[i].manifest.repositories@.len()
            && input.projects@[i].name@ == project
            && input.projects@[i].manifest.repositories@[k].0@ == repo
            && input.projects@[i].manifest.repositories@[k].1.role != Role::Reference)
        && !input.repos_on_disk.deep_view().contains(repo) {
        let (i, k) = choose|i: int, k: int|
            #![trigger input.projects@[i].manifest.repositories@[k]]
            0 <= i < input.projects@.len() && 0 <= k
                < input.projects@[i].manifest.repositories@.len() && input.projects@[i].name@
                == project && input.projects@[i].manifest.repositories@[k].0@ == repo
                && input.projects@[i].manifest.repositories@[k].1.role != Role::Reference;
        let p = input.projects@[i];
        let f = dangling_entry_rule(p.name@, input.repos_on_disk.deep_view());
        assert(f(p.manifest.repositories@[k])[0] == v);
        assert(f(p.manifest.repositories@[k]).contains(v));
        project_findings_contain(input, p, v);
        assert(project_findings(input)(input.projects@[i]).contains(v));
    }
}

/// What a resolved lock raises are stale pins of its project.
proof fn stale_findings_are_stale(input: CheckInput, p: Project, v: CheckViolationView)
    ensures
        stale_findings(input, p).contains(v) ==> v is StaleLock,
{
    if let Some(lock) = value_of(input.resolved_locks@, p.name@) {
        flat_map_contains(lock.repositories@, stale_rule(p.name@, input.head_revisions@), v);
    }
}

/// What the gaps of a lock raise are missing pins.
proof fn unpinned_findings_are_unpinned(p: Project, v: CheckViolationView)
    ensures
        unpinned_findings(p).contains(v) ==> v is IncompleteLock,
{
    if let Some(lock) = p.lock {
        flat_map_contains(p.manifest.repositories@, unpinned_rule(p.name@, lock), v);
    }
}

/// What missing clones raise is just that.
proof fn dangling_findings_are_dangling(input: CheckInput, p: Project, v: CheckViolationView)
    ensures
        (exists|i: int|
            0 <= i < p.manifest.repositories@.len() && (#[trigger] dangling_entry_rule(
                p.name@,
                input.repos_on_disk.deep_view(),
            )(p.manifest.repositories@[i])).contains(v)) ==> v is DanglingReference,
{
}

/// A pin is reported as stale exactly where the resolved lock of a loaded
/// project holds it and the clone's HEAD can be read and is another revision;
/// the finding names the pin as locked and the HEAD as actual.
pub proof fn stale_pins_are_reported(
    input: CheckInput,
    project: Seq<char>,
    repo: Seq<char>,
    locked: Seq<char>,
    actual: Seq<char>,
)
    ensures
        input_findings(input).contains(
            CheckViolationView::StaleLock { project, repo, locked, actual },
        ) <==> (exists|i: int| 0 <= i < input.projects@.len() && (#[trigger] input.projects@[i]).name@
            == project) && (value_of(input.resolved_locks@, project) matches Some(lock) && exists|
            k: int,
        |
            0 <= k < lock.repositories@.len() && (#[trigger] lock.repositories@[k]).0@ == repo
                && lock.repositories@[k].1@ == locked) && (value_of(input.head_revisions@, repo)
            matches Some(head) && head@ == actual) && locked != actual,
{
    let v = CheckViolationView::StaleLock { project, repo, locked, actual };
    findings_contain(input, v);
    if orphan_findings(input).contains(v) {
        orphan_findings_are_orphans(input, v);
    }
    let g = stale_rule(project, input.head_revisions@);
    if input_findings(input).contains(v) {
        let i = choose|i: int|
            0 <= i < input.projects@.len() && (#[trigger] project_findings(input)(
                input.projects@[i],
            )).contains(v);
        let p = input.projects@[i];
        project_findings_contain(input, p, v);
        dangling_findings_are_dangling(input, p, v);
        unpinned_findings_are_unpinned(p, v);
        let lock = value_of(input.resolved_locks@, p.name@)->0;
        let h = stale_rule(p.name@, input.head_revisions@);
        flat_map_contains(lock.repositories@, h, v);
        let k = choose|k: int|
            0 <= k < lock.repositories@.len() && (#[trigger] h(lock.repositories@[k])).contains(v);
        assert(lock.repositories@[k].0@ == repo);
    }
    if (exists|i: int| 0 <= i < input.projects@.len() && (#[trigger] input.projects@[i]).name@
        == project) && (value_of(input.resolved_locks@, project) matches Some(lock) && exists|
        k: int,
    |
        0 <= k < lock.repositories@.len() && (#[trigger] lock.repositories@[k]).0@ == repo
            && lock.repositories@[k].1@ == locked) && (value_of(input.head_revisions@, repo)
        matches Some(head) && head@ == actual) && locked != actual {
        let i = choose|i: int|
            0 <= i < input.projects@.len() && (#[trigger] input.projects@[i]).name@ == project;
        let p = input.projects@[i];
        let lock = value_of(input.resolved_locks@, project)->0;
        let k = choose|k: int|
            0 <= k < lock.repositories@.len() && (#[trigger] lock.repositories@[k]).0@ == repo
                && lock.repositories@[k].1@ == locked;
        assert(g(lock.repositories@[k])[0] == v);
        assert(g(lock.repositories@[k]).contains(v));
        flat_map_contains(lock.repositories@, g, v);
        project_findings_contain(input, p, v);
        assert(project_findings(input)(input.projects@[i]).contains(v));
    }
}

/// A repo is reported as unpinned exactly where a loaded project with a lock
/// lists it and no pin of that lock is for it.
pub proof fn unpinned_repos_are_reported(input: CheckInput, project: Seq<char>, repo: Seq<char>)
    ensures
        input_findings(input).contains(CheckViolationView::IncompleteLock { project, repo }) <==> (
        exists|i: int, k: int|
            #![trigger input.projects@[i].manifest.repositories@[k]]
            0 <= i < input.projects@.len() && 0 <= k
                < input.projects@[i].manifest.repositories@.len() && input.projects@[i].name@
                == project && input.projects@[i].manifest.repositories@[k].0@ == repo && (
            input.projects@[i].lock matches Some(lock) && forall|n: int|
                0 <= n < lock.repositories@.len() ==> (#[trigger] lock.repositories@[n]).0@
                    != repo)),
{
    let v = CheckViolationView::IncompleteLock { project, repo };
    findings_contain(input, v);
    if orphan_findings(input).contains(v) {
        orphan_findings_are_orphans(input, v);
    }
    if input_findings(input).contains(v) {
        let i = choose|i: int|
            0 <= i < input.projects@.len() && (#[trigger] project_findings(input)(
                input.projects@[i],
            )).contains(v);
        let p = input.projects@[i];
        project_findings_contain(input, p, v);
        dangling_findings_are_dangling(input, p, v);
        stale_findings_are_stale(input, p, v);
        let lock = p.lock->0;
        let h = unpinned_rule(p.name@, lock);
        flat_map_contains(p.manifest.repositories@, h, v);
        let k = choose|k: int|
            0 <= k < p.manifest.repositories@.len() && (#[trigger] h(
                p.manifest.repositories@[k],
            )).contains(v);
        assert(input.projects@[i].manifest.repositories@[k].0@ == repo);
    }
    if exists|i: int, k: int|
        #![trigger input.projects@[i].manifest.repositories@[k]]
        0 <= i < input.projects@.len() && 0 <= k < input.projects@[i].manifest.repositories@.len()
            && input.projects@[i].name@ == project
            && input.projects@[i].manifest.repositories@[k].0@ == repo && (
        input.projects@[i].lock matches Some(lock) && forall|n: int|
            0 <= n < lock.repositories@.len() ==> (#[trigger] lock.repositories@[n]).0@ != repo) {
        let (i, k) = choose|i: int, k: int|
            #![trigger input.projects@[i].manifest.repositories@[k]]
            0 <= i < input.projects@.len() && 0 <= k
                < input.projects@[i].manifest.repositories@.len() && input.projects@[i].name@
                == project && input.projects@[i].manifest.repositories@[k].0@ == repo && (
            input.projects@[i].lock matches Some(lock) && forall|n: int|
                0 <= n < lock.repositories@.len() ==> (#[trigger] lock.repositories@[n]).0@
                    != repo);
        let p = input.projects@[i];
        let h = unpinned_rule(p.name@, p.lock->0);
        assert(h(p.manifest.repositories@[k])[0] == v);
        assert(h(p.manifest.repositories@[k]).contains(v));
        flat_map_contains(p.manifest.repositories@, h, v);
        project_findings_contain(input, p, v);
        assert(project_findings(input)(input.projects@[i]).contains(v));
    }
}

/// Where every project was loaded, each clone on disk that none lists is
/// reported.
pub proof fn unlisted_clones_are_reported(input: CheckInput, path: Seq<char>)
    requires
        input.check_orphans,
        input.repos_on_disk.deep_view().contains(path),
        !input.known_repos.deep_view().contains(path),
    ensures
        input_findings(input).contains(CheckViolationView::OrphanedClone { path }),
{
    let v = CheckViolationView::OrphanedClone { path };
    let repos = input.repos_on_disk.deep_view();
    let f = orphan_rule(input.known_repos.deep_view());
    let i = choose|i: int| 0 <= i < repos.len() && repos[i] == path;
    assert(f(repos[i])[0] == v);
    assert(f(repos[i]).contains(v));
    flat_map_contains(repos, f, v);
    findings_contain(input, v);
}

} // verus!
