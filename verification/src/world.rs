//! What a run of the doctor reads before any scan.

use vstd::prelude::*;
use crate::find::CheckInput;
use crate::lists::{flat_map_contains, flat_map_holds};
use crate::model::{Project, RepoEntry, ResolvedLockFile};
use crate::order::{distinct, distinct_keeps_each_once, note};
use crate::receipts::{focused, in_focus};
use crate::violation::{PathText, ProjectName, RepoPath, RevisionId};

verus! {

/// A clone on disk and its HEAD, or why that cannot be read.
#[derive(Debug)]
pub struct HeadRead {
    pub repo: RepoPath,
    pub head: Result<RevisionId, String>,
}

/// A lock resolved against the clones, and the repos whose pins would not
/// resolve.
#[derive(Debug)]
pub struct LockResolution {
    pub resolved: ResolvedLockFile,
    pub failures: Vec<RepoPath>,
}

/// A project that loaded, and its lock's resolution where it has a lock.
#[derive(Debug)]
pub struct LoadedProject {
    pub project: Project,
    pub resolution: Option<LockResolution>,
}

/// An attempt to load a project: the project, or why it would not load.
#[derive(Debug)]
pub struct ProjectLoad {
    pub name: ProjectName,
    pub manifest_path: PathText,
    pub loaded: Result<LoadedProject, String>,
}

/// A project that would not load.
#[derive(Debug)]
pub struct UnparsedProject {
    pub name: ProjectName,
    pub manifest_path: PathText,
    pub message: String,
}

/// A directory with a manifest whose name is no usable project name.
#[derive(Debug)]
pub struct UnnameableDir {
    pub dir: PathText,
    pub derived: String,
    pub error: String,
}

/// What a run reads off the disk.
#[derive(Debug)]
pub struct WorldReading {
    pub workspace_dir: PathText,
    pub active_project: Option<ProjectName>,
    pub scope_all: bool,
    pub heads: Vec<HeadRead>,
    /// The `projects/` directory and why it cannot be listed, where it is
    /// there and cannot.
    pub projects_dir_error: Option<(PathText, String)>,
    pub loads: Vec<ProjectLoad>,
    pub projectless: Vec<PathText>,
    pub unnameable: Vec<UnnameableDir>,
}

/// What the scans of a run work on.
#[derive(Debug)]
pub struct DoctorWorld {
    pub workspace_dir: PathText,
    pub active_project: Option<ProjectName>,
    pub scope_all: bool,
    pub input: CheckInput,
    pub unparseable_projects: Vec<UnparsedProject>,
    pub head_read_failures: Vec<(RepoPath, String)>,
    pub lock_resolve_failures: Vec<(ProjectName, RepoPath)>,
    pub projects_dir_read_error: Option<(PathText, String)>,
    pub projectless: Vec<PathText>,
    pub unnameable: Vec<UnnameableDir>,
}

/// The project a run is narrowed to, where it is.
pub open spec fn scope_of(scope_all: bool, active: Option<ProjectName>) -> Option<Seq<char>> {
    if scope_all {
        None
    } else {
        active.deep_view()
    }
}

impl DoctorWorld {
    /// The project the run is narrowed to. A run over everything, and one
    /// without an active project, is narrowed to none.
    pub fn project_scope(&self) -> (scope: Option<ProjectName>)
        ensures
            scope.deep_view() == scope_of(self.scope_all, self.active_project),
    {
        if self.scope_all {
            None
        } else {
            match &self.active_project {
                Some(name) => Some(name.clone()),
                None => None,
            }
        }
    }
}

/// The projects that are loaded: those the run is about, in order.
pub fn projects_to_load(
    found: &Vec<ProjectName>,
    scope_all: bool,
    active: &Option<ProjectName>,
) -> (names: Vec<ProjectName>)
    ensures
        names.deep_view() == found.deep_view().filter(
            |p: Seq<char>| in_focus(scope_of(scope_all, *active), p),
        ),
{
    let ghost all = found.deep_view();
    let ghost keep = |p: Seq<char>| in_focus(scope_of(scope_all, *active), p);
    let mut names: Vec<ProjectName> = Vec::new();
    let mut i: usize = 0;
    assert(names.deep_view() =~= all.take(0).filter(keep)) by {
        reveal(Seq::filter);
    }
    while i < found.len()
        invariant
            0 <= i <= found.len(),
            all == found.deep_view(),
            keep == (|p: Seq<char>| in_focus(scope_of(scope_all, *active), p)),
            names.deep_view() == all.take(i as int).filter(keep),
        decreases found.len() - i,
    {
        let ghost prior = names.deep_view();
        proof {
            assert(all.take(i as int + 1) =~= all.take(i as int).push(all[i as int]));
            all.take(i as int).lemma_filter_push(all[i as int], keep);
        }
        if scope_all || focused(active, &found[i]) {
            names.push(found[i].clone());
            assert(names.deep_view() =~= prior.push(all[i as int]));
        }
        i = i + 1;
    }
    assert(all.take(i as int) =~= all);
    names
}

/// The HEAD of a clone, where it was read.
pub open spec fn head_rule() -> spec_fn(HeadRead) -> Seq<(Seq<char>, Seq<char>)> {
    |h: HeadRead|
        match h.head {
            Ok(revision) => seq![(h.repo@, revision@)],
            Err(_) => Seq::empty(),
        }
}

/// Why the HEAD of a clone could not be read, where it could not.
pub open spec fn head_failure_rule() -> spec_fn(HeadRead) -> Seq<(Seq<char>, Seq<char>)> {
    |h: HeadRead|
        match h.head {
            Ok(_) => Seq::empty(),
            Err(error) => seq![(h.repo@, error@)],
        }
}

/// The project that loaded, if any.
pub open spec fn project_rule() -> spec_fn(ProjectLoad) -> Seq<Project> {
    |l: ProjectLoad|
        match l.loaded {
            Ok(p) => seq![p.project],
            Err(_) => Seq::empty(),
        }
}

/// The project that would not load, if any.
pub open spec fn unparsed_rule() -> spec_fn(ProjectLoad) -> Seq<UnparsedProject> {
    |l: ProjectLoad|
        match l.loaded {
            Ok(_) => Seq::empty(),
            Err(message) => seq![
                UnparsedProject { name: l.name, manifest_path: l.manifest_path, message },
            ],
        }
}

/// The lock of a project that loaded, resolved, if any.
pub open spec fn resolved_rule() -> spec_fn(ProjectLoad) -> Seq<(Seq<char>, ResolvedLockFile)> {
    |l: ProjectLoad|
        match l.loaded {
            Ok(p) => match p.resolution {
                Some(r) => seq![(p.project.name@, r.resolved)],
                None => Seq::empty(),
            },
            Err(_) => Seq::empty(),
        }
}

/// The pins of a project that would not resolve.
pub open spec fn unresolved_rule() -> spec_fn(ProjectLoad) -> Seq<(Seq<char>, Seq<char>)> {
    |l: ProjectLoad|
        match l.loaded {
            Ok(p) => match p.resolution {
                Some(r) => r.failures.deep_view().map_values(
                    |repo: Seq<char>| (p.project.name@, repo),
                ),
                None => Seq::empty(),
            },
            Err(_) => Seq::empty(),
        }
}

/// The repos a project's manifest lists.
pub open spec fn listed_repos(p: Project) -> Seq<Seq<char>> {
    p.manifest.repositories@.map_values(|e: (RepoPath, RepoEntry)| e.0@)
}

/// The repos the manifest of a project that loaded lists.
pub open spec fn listed_rule() -> spec_fn(ProjectLoad) -> Seq<Seq<char>> {
    |l: ProjectLoad|
        match l.loaded {
            Ok(p) => listed_repos(p.project),
            Err(_) => Seq::empty(),
        }
}

/// Notes the repos a manifest lists.
fn note_repos(known: &mut Vec<RepoPath>, list: &Vec<(RepoPath, RepoEntry)>, seen: Ghost<Seq<Seq<char>>>)
    requires
        old(known).deep_view() == distinct(seen@),
    ensures
        final(known).deep_view() == distinct(
            seen@ + list@.map_values(|e: (RepoPath, RepoEntry)| e.0@),
        ),
{
    let ghost text = |e: (RepoPath, RepoEntry)| e.0@;
    let mut i: usize = 0;
    assert(seen@ + list@.take(0).map_values(text) =~= seen@);
    while i < list.len()
        invariant
            0 <= i <= list.len(),
            text == (|e: (RepoPath, RepoEntry)| e.0@),
            known.deep_view() == distinct(seen@ + list@.take(i as int).map_values(text)),
        decreases list.len() - i,
    {
        proof {
            let now = seen@ + list@.take(i as int).map_values(text);
            let next = seen@ + list@.take(i as int + 1).map_values(text);
            assert(next.drop_last() =~= now);
            assert(next.last() == list@[i as int].0@);
        }
        let _new: bool = note(known, &list[i].0);
        i = i + 1;
    }
    assert(list@.take(i as int) =~= list@);
}

/// Pairs the pins that would not resolve with their project.
fn push_failures(failures: &mut Vec<(ProjectName, RepoPath)>, name: &ProjectName, repos: Vec<RepoPath>)
    ensures
        final(failures).deep_view() == old(failures).deep_view() + repos.deep_view().map_values(
            |repo: Seq<char>| (name@, repo),
        ),
{
    let ghost all = repos.deep_view();
    let ghost pair = |repo: Seq<char>| (name@, repo);
    let ghost start = failures.deep_view();
    assert(start + all.take(0).map_values(pair) =~= start);
    for repo in it: repos
        invariant
            it.seq() == repos@,
            all == repos.deep_view(),
            pair == (|repo: Seq<char>| (name@, repo)),
            failures.deep_view() == start + all.take(it.index() as int).map_values(pair),
    {
        let ghost i = it.index() as int;
        let ghost prior = failures.deep_view();
        proof {
            assert(all[i] == repo@);
            assert(all.take(i + 1).map_values(pair) =~= all.take(i).map_values(pair).push(
                pair(all[i]),
            ));
        }
        failures.push((name.clone(), repo));
        assert(failures.deep_view() =~= prior.push((name@, all[i])));
    }
    assert(all.take(all.len() as int) =~= all);
}

/// Sorts the clones' HEADs into those that were read and those that were not.
fn sort_heads(heads: Vec<HeadRead>) -> (sorted: (
    Vec<RepoPath>,
    Vec<(RepoPath, RevisionId)>,
    Vec<(RepoPath, String)>,
))
    ensures
        sorted.0.deep_view() == heads@.map_values(|h: HeadRead| h.repo@),
        sorted.1.deep_view() == heads@.flat_map(head_rule()),
        sorted.2.deep_view() == heads@.flat_map(head_failure_rule()),
{
    let ghost f = head_rule();
    let ghost g = head_failure_rule();
    let ghost text = |h: HeadRead| h.repo@;
    let mut on_disk: Vec<RepoPath> = Vec::new();
    let mut revisions: Vec<(RepoPath, RevisionId)> = Vec::new();
    let mut failures: Vec<(RepoPath, String)> = Vec::new();
    assert(on_disk.deep_view() =~= heads@.take(0).map_values(text));
    assert(revisions.deep_view() =~= heads@.take(0).flat_map(f));
    assert(failures.deep_view() =~= heads@.take(0).flat_map(g));
    for h in it: heads
        invariant
            it.seq() == heads@,
            f == head_rule(),
            g == head_failure_rule(),
            text == (|h: HeadRead| h.repo@),
            on_disk.deep_view() == heads@.take(it.index() as int).map_values(text),
            revisions.deep_view() == heads@.take(it.index() as int).flat_map(f),
            failures.deep_view() == heads@.take(it.index() as int).flat_map(g),
    {
        let ghost i = it.index() as int;
        let ghost seen = on_disk.deep_view();
        let ghost read = revisions.deep_view();
        let ghost failed = failures.deep_view();
        proof {
            heads@.lemma_flat_map_take_append(f, i);
            heads@.lemma_flat_map_take_append(g, i);
            assert(heads@.take(i + 1).map_values(text) =~= heads@.take(i).map_values(text).push(
                text(heads@[i]),
            ));
        }
        on_disk.push(h.repo.clone());
        assert(on_disk.deep_view() =~= seen.push(h.repo@));
        match h.head {
            Ok(revision) => {
                revisions.push((h.repo, revision));
            },
            Err(error) => {
                failures.push((h.repo, error));
            },
        }
        assert(revisions.deep_view() =~= read + f(heads@[i]));
        assert(failures.deep_view() =~= failed + g(heads@[i]));
    }
    assert(heads@.take(heads@.len() as int) =~= heads@);
    (on_disk, revisions, failures)
}

/// Whether the projects and locks of a world are those that were loaded.
pub open spec fn holds_loaded(r: WorldReading, w: DoctorWorld) -> bool {
    &&& w.input.projects@ == r.loads@.flat_map(project_rule())
    &&& w.input.known_repos.deep_view() == distinct(r.loads@.flat_map(listed_rule()))
    &&& w.unparseable_projects@ == r.loads@.flat_map(unparsed_rule())
    &&& w.lock_resolve_failures.deep_view() == r.loads@.flat_map(unresolved_rule())
    &&& w.input.resolved_locks@.map_values(
        |e: (ProjectName, ResolvedLockFile)| (e.0@, e.1),
    ) == r.loads@.flat_map(resolved_rule())
}

/// Whether the clones of a world are those that were found.
pub open spec fn holds_clones(r: WorldReading, w: DoctorWorld) -> bool {
    &&& w.input.repos_on_disk.deep_view() == r.heads@.map_values(|h: HeadRead| h.repo@)
    &&& w.input.head_revisions.deep_view() == r.heads@.flat_map(head_rule())
    &&& w.head_read_failures.deep_view() == r.heads@.flat_map(head_failure_rule())
}

/// Puts together what the scans work on. A HEAD that cannot be read, a project
/// that will not load and a pin that will not resolve are kept as failures,
/// not dropped. Clones that no project lists are looked for only where every
/// project is loaded.
pub fn load_doctor_world(reading: WorldReading) -> (world: DoctorWorld)
    ensures
        world.workspace_dir == reading.workspace_dir,
        world.active_project == reading.active_project,
        world.scope_all == reading.scope_all,
        world.projects_dir_read_error == reading.projects_dir_error,
        world.projectless == reading.projectless,
        world.unnameable == reading.unnameable,
        world.input.check_orphans == (reading.scope_all || reading.active_project is None),
        holds_clones(reading, world),
        holds_loaded(reading, world),
{
    let ghost given = reading;
    let WorldReading {
        workspace_dir,
        active_project,
        scope_all,
        heads,
        projects_dir_error,
        loads,
        projectless,
        unnameable,
    } = reading;
    let (repos_on_disk, head_revisions, head_read_failures): (
        Vec<RepoPath>,
        Vec<(RepoPath, RevisionId)>,
        Vec<(RepoPath, String)>,
    ) = sort_heads(heads);

    let ghost all = loads@;
    let ghost pf = project_rule();
    let ghost uf = unparsed_rule();
    let ghost lf = listed_rule();
    let ghost rf = resolved_rule();
    let ghost ff = unresolved_rule();
    let ghost entry = |e: (ProjectName, ResolvedLockFile)| (e.0@, e.1);
    let mut projects: Vec<Project> = Vec::new();
    let mut known_repos: Vec<RepoPath> = Vec::new();
    let mut unparseable_projects: Vec<UnparsedProject> = Vec::new();
    let mut lock_resolve_failures: Vec<(ProjectName, RepoPath)> = Vec::new();
    let mut resolved_locks: Vec<(ProjectName, ResolvedLockFile)> = Vec::new();
    proof {
        assert(all.take(0) =~= Seq::empty());
        assert(known_repos.deep_view() =~= Seq::empty());
        assert(lock_resolve_failures.deep_view() =~= Seq::empty());
        assert(resolved_locks@.map_values(entry) =~= Seq::empty());
        assert(all.take(0).flat_map(lf) =~= Seq::empty());
        assert(all.take(0).flat_map(ff) =~= Seq::empty());
        assert(all.take(0).flat_map(rf) =~= Seq::empty());
    }
    for l in it: loads
        invariant
            it.seq() == all,
            all == loads@,
            pf == project_rule(),
            uf == unparsed_rule(),
            lf == listed_rule(),
            rf == resolved_rule(),
            ff == unresolved_rule(),
            entry == (|e: (ProjectName, ResolvedLockFile)| (e.0@, e.1)),
            projects@ == all.take(it.index() as int).flat_map(pf),
            unparseable_projects@ == all.take(it.index() as int).flat_map(uf),
            known_repos.deep_view() == distinct(all.take(it.index() as int).flat_map(lf)),
            lock_resolve_failures.deep_view() == all.take(it.index() as int).flat_map(ff),
            resolved_locks@.map_values(entry) == all.take(it.index() as int).flat_map(rf),
    {
        let ghost i = it.index() as int;
        proof {
            all.lemma_flat_map_take_append(pf, i);
            all.lemma_flat_map_take_append(uf, i);
            all.lemma_flat_map_take_append(lf, i);
            all.lemma_flat_map_take_append(rf, i);
            all.lemma_flat_map_take_append(ff, i);
            assert(all[i] == l);
        }
        let ghost had_projects = projects@;
        let ghost had_unparsed = unparseable_projects@;
        let ghost had_failures = lock_resolve_failures.deep_view();
        let ghost had_locks = resolved_locks@.map_values(entry);
        match l.loaded {
            Ok(p) => {
                let LoadedProject { project, resolution } = p;
                note_repos(
                    &mut known_repos,
                    &project.manifest.repositories,
                    Ghost(all.take(i).flat_map(lf)),
                );
                if let Some(r) = resolution {
                    let LockResolution { resolved, failures } = r;
                    push_failures(&mut lock_resolve_failures, &project.name, failures);
                    resolved_locks.push((project.name.clone(), resolved));
                    assert(resolved_locks@.map_values(entry) =~= had_locks.push(
                        (project.name@, resolved),
                    ));
                }
                projects.push(project);
            },
            Err(message) => {
                unparseable_projects.push(
                    UnparsedProject { name: l.name, manifest_path: l.manifest_path, message },
                );
                assert(all.take(i).flat_map(lf) + lf(all[i]) =~= all.take(i).flat_map(lf));
            },
        }
        assert(projects@ =~= had_projects + pf(all[i]));
        assert(unparseable_projects@ =~= had_unparsed + uf(all[i]));
        assert(lock_resolve_failures.deep_view() =~= had_failures + ff(all[i]));
        assert(resolved_locks@.map_values(entry) =~= had_locks + rf(all[i]));
    }
    assert(all.take(all.len() as int) =~= all);
    let check_orphans: bool = scope_all || active_project.is_none();
    let input = CheckInput {
        known_repos,
        repos_on_disk,
        projects,
        head_revisions,
        resolved_locks,
        check_orphans,
    };
    DoctorWorld {
        workspace_dir,
        active_project,
        scope_all,
        input,
        unparseable_projects,
        head_read_failures,
        lock_resolve_failures,
        projects_dir_read_error: projects_dir_error,
        projectless,
        unnameable,
    }
}

/// A run that is narrowed to a project does not look for clones that no
/// project lists: the clone may belong to one that is not loaded.
pub proof fn narrowed_runs_look_for_no_orphans(scope_all: bool, active: Option<ProjectName>)
    ensures
        scope_of(scope_all, active) is None <==> (scope_all || active is None),
{
}

/// A clone's HEAD is either known or told as unreadable, under the clone's own
/// path, and every clone that was found is on disk.
pub proof fn heads_are_kept_apart(r: WorldReading, w: DoctorWorld, i: int)
    requires
        holds_clones(r, w),
        0 <= i < r.heads@.len(),
    ensures
        w.input.repos_on_disk.deep_view().contains(r.heads@[i].repo@),
        r.heads@[i].head matches Ok(revision) ==> w.input.head_revisions.deep_view().contains(
            (r.heads@[i].repo@, revision@),
        ),
        r.heads@[i].head matches Err(error) ==> w.head_read_failures.deep_view().contains(
            (r.heads@[i].repo@, error@),
        ),
        w.input.repos_on_disk@.len() == r.heads@.len(),
        forall|repo: Seq<char>, revision: Seq<char>|
            #[trigger] w.input.head_revisions.deep_view().contains((repo, revision)) ==> exists|
                k: int,
            |
                0 <= k < r.heads@.len() && (#[trigger] r.heads@[k]).repo@ == repo && (
                r.heads@[k].head matches Ok(at) && at@ == revision),
{
    let names = r.heads@.map_values(|h: HeadRead| h.repo@);
    assert(names[i] == r.heads@[i].repo@);
    assert(names.contains(names[i]));
    assert(w.input.repos_on_disk.deep_view().len() == names.len());
    let f = head_rule();
    let g = head_failure_rule();
    match r.heads@[i].head {
        Ok(revision) => {
            assert(f(r.heads@[i])[0] == (r.heads@[i].repo@, revision@));
            flat_map_holds(r.heads@, f, i, (r.heads@[i].repo@, revision@));
        },
        Err(error) => {
            assert(g(r.heads@[i])[0] == (r.heads@[i].repo@, error@));
            flat_map_holds(r.heads@, g, i, (r.heads@[i].repo@, error@));
        },
    }
    assert forall|repo: Seq<char>, revision: Seq<char>|
        #[trigger] w.input.head_revisions.deep_view().contains((repo, revision)) implies exists|
        k: int,
    |
        0 <= k < r.heads@.len() && (#[trigger] r.heads@[k]).repo@ == repo && (
        r.heads@[k].head matches Ok(at) && at@ == revision) by {
        flat_map_contains(r.heads@, f, (repo, revision));
        let k = choose|k: int|
            0 <= k < r.heads@.len() && (#[trigger] f(r.heads@[k])).contains((repo, revision));
        assert(r.heads@[k].repo@ == repo);
    }
}

/// A project that loaded is looked at, with its lock where that resolved, and
/// every pin that would not resolve is kept under its name; one that would not
/// load is told, with why.
pub proof fn loads_are_kept_apart(r: WorldReading, w: DoctorWorld, i: int)
    requires
        holds_loaded(r, w),
        0 <= i < r.loads@.len(),
    ensures
        r.loads@[i].loaded matches Ok(p) ==> {
            &&& w.input.projects@.contains(p.project)
            &&& forall|k: int|
                0 <= k < p.project.manifest.repositories@.len()
                    ==> w.input.known_repos.deep_view().contains(
                    (#[trigger] p.project.manifest.repositories@[k]).0@,
                )
            &&& p.resolution matches Some(resolution) ==> {
                &&& forall|k: int|
                    0 <= k < resolution.failures@.len()
                        ==> w.lock_resolve_failures.deep_view().contains(
                        (p.project.name@, (#[trigger] resolution.failures@[k])@),
                    )
                &&& exists|k: int|
                    0 <= k < w.input.resolved_locks@.len() && (
                    #[trigger] w.input.resolved_locks@[k]).0@ == p.project.name@
                        && w.input.resolved_locks@[k].1 == resolution.resolved
            }
        },
        r.loads@[i].loaded matches Err(message) ==> w.unparseable_projects@.contains(
            UnparsedProject {
                name: r.loads@[i].name,
                manifest_path: r.loads@[i].manifest_path,
                message,
            },
        ),
{
    let l = r.loads@[i];
    match l.loaded {
        Ok(p) => {
            assert(project_rule()(l)[0] == p.project);
            flat_map_holds(r.loads@, project_rule(), i, p.project);
            let listed = r.loads@.flat_map(listed_rule());
            distinct_keeps_each_once(listed);
            assert forall|k: int|
                0 <= k < p.project.manifest.repositories@.len() implies w.input.known_repos.deep_view().contains(
                (#[trigger] p.project.manifest.repositories@[k]).0@,
            ) by {
                let repo = p.project.manifest.repositories@[k].0@;
                assert(listed_repos(p.project)[k] == repo);
                assert(listed_rule()(l).contains(repo));
                flat_map_holds(r.loads@, listed_rule(), i, repo);
            }
            if let Some(resolution) = p.resolution {
                let named = (p.project.name@, resolution.resolved);
                assert(resolved_rule()(l)[0] == named);
                flat_map_holds(r.loads@, resolved_rule(), i, named);
                let kept = w.input.resolved_locks@.map_values(
                    |e: (ProjectName, ResolvedLockFile)| (e.0@, e.1),
                );
                assert(kept == r.loads@.flat_map(resolved_rule()));
                let k = choose|k: int| 0 <= k < kept.len() && kept[k] == named;
                assert(w.input.resolved_locks@[k].0@ == p.project.name@);
                let f = unresolved_rule();
                let repos = resolution.failures.deep_view();
                assert forall|k: int|
                    0 <= k < resolution.failures@.len() implies w.lock_resolve_failures.deep_view().contains(
                    (p.project.name@, (#[trigger] resolution.failures@[k])@),
                ) by {
                    assert(repos[k] == resolution.failures@[k]@);
                    assert(f(l)[k] == (p.project.name@, repos[k]));
                    flat_map_holds(r.loads@, f, i, (p.project.name@, repos[k]));
                }
            }
        },
        Err(message) => {
            let u = UnparsedProject { name: l.name, manifest_path: l.manifest_path, message };
            assert(unparsed_rule()(l)[0] == u);
            flat_map_holds(r.loads@, unparsed_rule(), i, u);
        },
    }
}

/// A run over everything is narrowed to no project, and any other to the active
/// one.
pub proof fn scope_is_the_active_project(scope_all: bool, active: Option<ProjectName>)
    ensures
        scope_all ==> scope_of(scope_all, active) is None,
        !scope_all && active is Some ==> scope_of(scope_all, active) == Some(active->0@),
{
}

} // verus!
