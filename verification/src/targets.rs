//! Which checkouts and workspace roots a run of the doctor visits.

use vstd::prelude::*;
use crate::hygiene::{StateHygieneOpStateTarget, StateHygieneScanTarget};
use crate::lists::{flat_map_contains, joined_lists_contain, mapped_contains, single_contains};
use crate::model::{Project, RepoEntry};
use crate::order::{distinct, note};
use crate::repairs::RepoLocation;
use crate::text::{decimal, decimal_text, holds, join_path, joined};
use crate::violation::{PathText, RepoPath, WorkweaveName};

verus! {

/// What a [`StateHygieneScanTarget`] says.
pub struct TargetView {
    pub workweave: Option<Seq<char>>,
    pub abs: Seq<char>,
    pub repo: Seq<char>,
}

impl DeepView for StateHygieneScanTarget {
    type V = TargetView;

    open spec fn deep_view(&self) -> TargetView {
        TargetView { workweave: self.workweave.deep_view(), abs: self.abs@, repo: self.repo@ }
    }
}

/// A workweave on disk: the name it goes by, whether that is a usable name,
/// and its directory.
#[derive(Debug)]
pub struct WorkweaveDir {
    pub name: String,
    pub usable: bool,
    pub dir: PathText,
}

/// The checkout of a manifest entry in the weave at `root`.
pub open spec fn entry_target(workweave: Option<Seq<char>>, root: Seq<char>) -> spec_fn(
    (RepoPath, RepoEntry),
) -> TargetView {
    |e: (RepoPath, RepoEntry)| TargetView { workweave, abs: joined(root, e.0@), repo: e.0@ }
}

/// The checkouts of a project in the weave at `root`.
pub open spec fn project_targets(workweave: Option<Seq<char>>, root: Seq<char>) -> spec_fn(
    Project,
) -> Seq<TargetView> {
    |p: Project| p.manifest.repositories@.map_values(entry_target(workweave, root))
}

/// The checkouts of all projects in the weave at `root`.
pub open spec fn weave_targets(
    workweave: Option<Seq<char>>,
    root: Seq<char>,
    projects: Seq<Project>,
) -> Seq<TargetView> {
    projects.flat_map(project_targets(workweave, root))
}

/// The checkouts of all projects in a workweave. One whose name is not usable
/// is passed over.
pub open spec fn workweave_targets(projects: Seq<Project>) -> spec_fn(WorkweaveDir) -> Seq<
    TargetView,
> {
    |w: WorkweaveDir|
        if w.usable {
            weave_targets(Some(w.name@), w.dir@, projects)
        } else {
            Seq::empty()
        }
}

/// Every checkout a manifest names: in the weave itself, and in each
/// workweave.
pub open spec fn all_targets(
    root: Seq<char>,
    workweaves: Seq<WorkweaveDir>,
    projects: Seq<Project>,
) -> Seq<TargetView> {
    weave_targets(None, root, projects) + workweaves.flat_map(workweave_targets(projects))
}

/// Whether some target stands for the same checkout.
pub open spec fn visited(targets: Seq<TargetView>, t: TargetView) -> bool {
    exists|i: int|
        0 <= i < targets.len() && (#[trigger] targets[i]).workweave == t.workweave
            && targets[i].abs == t.abs
}

/// The targets that are on disk, each checkout at the first place it occurs.
pub open spec fn visits(targets: Seq<TargetView>, on_disk: Seq<Seq<char>>) -> Seq<TargetView>
    decreases targets.len(),
{
    if targets.len() == 0 {
        Seq::empty()
    } else {
        let before = visits(targets.drop_last(), on_disk);
        if on_disk.contains(targets.last().abs) && !visited(before, targets.last()) {
            before.push(targets.last())
        } else {
            before
        }
    }
}

/// No checkout is visited twice, whatever the projects share, and none that is
/// not on disk is visited.
pub proof fn checkouts_are_visited_once(targets: Seq<TargetView>, on_disk: Seq<Seq<char>>)
    ensures
        forall|i: int, j: int|
            0 <= i < j < visits(targets, on_disk).len() ==> (#[trigger] visits(
                targets,
                on_disk,
            )[i]).workweave != (#[trigger] visits(targets, on_disk)[j]).workweave || visits(
                targets,
                on_disk,
            )[i].abs != visits(targets, on_disk)[j].abs,
        forall|i: int|
            0 <= i < visits(targets, on_disk).len() ==> on_disk.contains(
                (#[trigger] visits(targets, on_disk)[i]).abs,
            ),
        forall|i: int|
            0 <= i < targets.len() && on_disk.contains((#[trigger] targets[i]).abs) ==> visited(
                visits(targets, on_disk),
                targets[i],
            ),
    decreases targets.len(),
{
    if targets.len() > 0 {
        let init = targets.drop_last();
        let before = visits(init, on_disk);
        let after = visits(targets, on_disk);
        checkouts_are_visited_once(init, on_disk);
        assert forall|i: int|
            0 <= i < targets.len() && on_disk.contains((#[trigger] targets[i]).abs) implies visited(
            after,
            targets[i],
        ) by {
            if i < init.len() {
                assert(init[i] == targets[i]);
                assert(visited(before, init[i]));
                let k = choose|k: int|
                    0 <= k < before.len() && (#[trigger] before[k]).workweave
                        == targets[i].workweave && before[k].abs == targets[i].abs;
                assert(after[k] == before[k]);
            } else if visited(before, targets.last()) {
                let k = choose|k: int|
                    0 <= k < before.len() && (#[trigger] before[k]).workweave
                        == targets[i].workweave && before[k].abs == targets[i].abs;
                assert(after[k] == before[k]);
            } else {
                assert(after[before.len() as int] == targets[i]);
            }
        }
        assert forall|i: int, j: int| 0 <= i < j < after.len() implies (#[trigger] after[i]).workweave
            != (#[trigger] after[j]).workweave || after[i].abs != after[j].abs by {
            assert(after[i] == before[i]);
            if j < before.len() {
                assert(after[j] == before[j]);
            }
        }
    }
}

fn same_name(a: &Option<WorkweaveName>, b: &Option<WorkweaveName>) -> (same: bool)
    ensures
        same == (a.deep_view() == b.deep_view()),
{
    match (a, b) {
        (Some(x), Some(y)) => *x == *y,
        (None, None) => true,
        _ => false,
    }
}

fn copy_name(name: &Option<WorkweaveName>) -> (copy: Option<WorkweaveName>)
    ensures
        copy.deep_view() == name.deep_view(),
{
    match name {
        Some(n) => Some(n.clone()),
        None => None,
    }
}

/// Adds a target, where it is on disk and not visited yet.
fn visit(
    targets: &mut Vec<StateHygieneScanTarget>,
    on_disk: &Vec<PathText>,
    t: StateHygieneScanTarget,
    seen: Ghost<Seq<TargetView>>,
)
    requires
        old(targets).deep_view() == visits(seen@, on_disk.deep_view()),
    ensures
        final(targets).deep_view() == visits(seen@.push(t.deep_view()), on_disk.deep_view()),
{
    proof {
        assert(seen@.push(t.deep_view()).drop_last() =~= seen@);
    }
    if !holds(on_disk, &t.abs) {
        return;
    }
    let mut i: usize = 0;
    while i < targets.len()
        invariant
            0 <= i <= targets.len(),
            targets.deep_view() == visits(seen@, on_disk.deep_view()),
            on_disk.deep_view().contains(t.abs@),
            forall|k: int|
                0 <= k < i ==> (#[trigger] targets.deep_view()[k]).workweave
                    != t.workweave.deep_view() || targets.deep_view()[k].abs != t.abs@,
            seen@.push(t.deep_view()).drop_last() == seen@,
        decreases targets.len() - i,
    {
        assert(targets.deep_view()[i as int] == targets@[i as int].deep_view());
        if same_name(&targets[i].workweave, &t.workweave) && targets[i].abs == t.abs {
            assert(visited(targets.deep_view(), t.deep_view()));
            return;
        }
        i = i + 1;
    }
    let ghost before = targets.deep_view();
    targets.push(t);
    assert(targets.deep_view() =~= before.push(t.deep_view()));
}

/// Visits the checkouts of all projects in the weave at `root`.
fn visit_weave(
    targets: &mut Vec<StateHygieneScanTarget>,
    on_disk: &Vec<PathText>,
    workweave: &Option<WorkweaveName>,
    root: &PathText,
    projects: &Vec<Project>,
    seen: Ghost<Seq<TargetView>>,
)
    requires
        old(targets).deep_view() == visits(seen@, on_disk.deep_view()),
    ensures
        final(targets).deep_view() == visits(
            seen@ + weave_targets(workweave.deep_view(), root@, projects@),
            on_disk.deep_view(),
        ),
{
    let ghost f = project_targets(workweave.deep_view(), root@);
    let ghost g = entry_target(workweave.deep_view(), root@);
    let mut i: usize = 0;
    assert(seen@ + projects@.take(0).flat_map(f) =~= seen@);
    while i < projects.len()
        invariant
            0 <= i <= projects.len(),
            f == project_targets(workweave.deep_view(), root@),
            g == entry_target(workweave.deep_view(), root@),
            targets.deep_view() == visits(
                seen@ + projects@.take(i as int).flat_map(f),
                on_disk.deep_view(),
            ),
        decreases projects.len() - i,
    {
        let list: &Vec<(RepoPath, RepoEntry)> = &projects[i].manifest.repositories;
        let ghost base = seen@ + projects@.take(i as int).flat_map(f);
        let mut k: usize = 0;
        assert(base + list@.take(0).map_values(g) =~= base);
        while k < list.len()
            invariant
                0 <= k <= list.len(),
                g == entry_target(workweave.deep_view(), root@),
                targets.deep_view() == visits(
                    base + list@.take(k as int).map_values(g),
                    on_disk.deep_view(),
                ),
            decreases list.len() - k,
        {
            let t = StateHygieneScanTarget {
                workweave: copy_name(workweave),
                abs: join_path(root, &list[k].0),
                repo: list[k].0.clone(),
            };
            let ghost now = base + list@.take(k as int).map_values(g);
            proof {
                assert(list@.take(k as int + 1).map_values(g) =~= list@.take(k as int).map_values(
                    g,
                ).push(g(list@[k as int])));
                assert(base + list@.take(k as int + 1).map_values(g) =~= now.push(t.deep_view()));
            }
            visit(targets, on_disk, t, Ghost(now));
            k = k + 1;
        }
        proof {
            assert(list@.take(k as int) =~= list@);
            projects@.lemma_flat_map_take_append(f, i as int);
            assert(base + list@.map_values(g) =~= seen@ + (projects@.take(i as int).flat_map(f) + f(
                projects@[i as int],
            )));
        }
        i = i + 1;
    }
    assert(projects@.take(i as int) =~= projects@);
}

/// The checkouts the drift scan visits: every one on disk that a manifest
/// names, in the weave at `root` and then in each workweave. `on_disk` are the
/// paths that are there.
pub fn drift_targets(
    root: &PathText,
    workweaves: &Vec<WorkweaveDir>,
    projects: &Vec<Project>,
    on_disk: &Vec<PathText>,
) -> (targets: Vec<StateHygieneScanTarget>)
    ensures
        targets.deep_view() == visits(
            all_targets(root@, workweaves@, projects@),
            on_disk.deep_view(),
        ),
{
    let mut targets: Vec<StateHygieneScanTarget> = Vec::new();
    let ghost f = workweave_targets(projects@);
    assert(targets.deep_view() =~= visits(Seq::empty(), on_disk.deep_view()));
    visit_weave(&mut targets, on_disk, &None, root, projects, Ghost(Seq::empty()));
    let ghost base = weave_targets(None, root@, projects@);
    assert(Seq::<TargetView>::empty() + base =~= base);
    let mut i: usize = 0;
    assert(base + workweaves@.take(0).flat_map(f) =~= base);
    while i < workweaves.len()
        invariant
            0 <= i <= workweaves.len(),
            f == workweave_targets(projects@),
            targets.deep_view() == visits(
                base + workweaves@.take(i as int).flat_map(f),
                on_disk.deep_view(),
            ),
        decreases workweaves.len() - i,
    {
        let ghost now = base + workweaves@.take(i as int).flat_map(f);
        if workweaves[i].usable {
            let name: Option<WorkweaveName> = Some(workweaves[i].name.clone());
            visit_weave(&mut targets, on_disk, &name, &workweaves[i].dir, projects, Ghost(now));
        } else {
            assert(now + f(workweaves@[i as int]) =~= now);
        }
        proof {
            workweaves@.lemma_flat_map_take_append(f, i as int);
            assert(now + f(workweaves@[i as int]) =~= base + (workweaves@.take(i as int).flat_map(f)
                + f(workweaves@[i as int])));
        }
        i = i + 1;
    }
    assert(workweaves@.take(i as int) =~= workweaves@);
    targets
}

/// The paths the drift scan might visit, in order: those a caller has to look
/// for on disk.
pub fn drift_candidates(root: &PathText, projects: &Vec<Project>) -> (paths: Vec<PathText>)
    ensures
        paths.deep_view() == weave_targets(None, root@, projects@).map_values(
            |t: TargetView| t.abs,
        ),
{
    let ghost f = project_targets(None, root@);
    let ghost path = |t: TargetView| t.abs;
    let mut paths: Vec<PathText> = Vec::new();
    let mut i: usize = 0;
    assert(paths.deep_view() =~= projects@.take(0).flat_map(f).map_values(path));
    while i < projects.len()
        invariant
            0 <= i <= projects.len(),
            f == project_targets(None, root@),
            path == (|t: TargetView| t.abs),
            paths.deep_view() == projects@.take(i as int).flat_map(f).map_values(path),
        decreases projects.len() - i,
    {
        let list: &Vec<(RepoPath, RepoEntry)> = &projects[i].manifest.repositories;
        let ghost base = paths.deep_view();
        let ghost here = f(projects@[i as int]);
        let mut k: usize = 0;
        assert(base + here.take(0).map_values(path) =~= base);
        while k < list.len()
            invariant
                0 <= k <= list.len(),
                path == (|t: TargetView| t.abs),
                here == list@.map_values(entry_target(None, root@)),
                paths.deep_view() == base + here.take(k as int).map_values(path),
            decreases list.len() - k,
        {
            let ghost prior = paths.deep_view();
            proof {
                assert(here.take(k as int + 1).map_values(path) =~= here.take(k as int).map_values(
                    path,
                ).push(path(here[k as int])));
            }
            paths.push(join_path(root, &list[k].0));
            assert(paths.deep_view() =~= prior.push(here[k as int].abs));
            k = k + 1;
        }
        proof {
            assert(here.take(k as int) =~= here);
            projects@.lemma_flat_map_take_append(f, i as int);
            assert((projects@.take(i as int).flat_map(f) + here).map_values(path) =~= base
                + here.map_values(path));
        }
        i = i + 1;
    }
    assert(projects@.take(i as int) =~= projects@);
    paths
}

/// The directories of the workweaves with a usable name, by name; a later one
/// replaces an earlier one of the same name, in its place.
pub open spec fn named_dirs(workweaves: Seq<WorkweaveDir>) -> Seq<(Seq<char>, Seq<char>)>
    decreases workweaves.len(),
{
    if workweaves.len() == 0 {
        Seq::empty()
    } else if workweaves.last().usable {
        with_dir(named_dirs(workweaves.drop_last()), workweaves.last().name@, workweaves.last().dir@)
    } else {
        named_dirs(workweaves.drop_last())
    }
}

/// A list of directories by name, with one added or replaced.
pub open spec fn with_dir(dirs: Seq<(Seq<char>, Seq<char>)>, name: Seq<char>, dir: Seq<char>) -> Seq<
    (Seq<char>, Seq<char>),
> {
    if exists|i: int| 0 <= i < dirs.len() && (#[trigger] dirs[i]).0 == name {
        dirs.map_values(
            |d: (Seq<char>, Seq<char>)|
                if d.0 == name {
                    (name, dir)
                } else {
                    d
                },
        )
    } else {
        dirs.push((name, dir))
    }
}

/// Adds or replaces the directory of a workweave.
fn insert_dir(dirs: &mut Vec<(WorkweaveName, PathText)>, name: &WorkweaveName, dir: &PathText)
    ensures
        final(dirs).deep_view() == with_dir(old(dirs).deep_view(), name@, dir@),
{
    let ghost before = dirs.deep_view();
    let ghost put = |d: (Seq<char>, Seq<char>)|
        if d.0 == name@ {
            (name@, dir@)
        } else {
            d
        };
    let mut found: bool = false;
    let mut i: usize = 0;
    while i < dirs.len()
        invariant
            0 <= i <= dirs.len(),
            dirs@.len() == before.len(),
            put == (|d: (Seq<char>, Seq<char>)|
                if d.0 == name@ {
                    (name@, dir@)
                } else {
                    d
                }),
            forall|k: int| 0 <= k < i ==> #[trigger] dirs.deep_view()[k] == put(before[k]),
            forall|k: int| i <= k < before.len() ==> #[trigger] dirs.deep_view()[k] == before[k],
            found == exists|k: int| 0 <= k < i && (#[trigger] before[k]).0 == name@,
        decreases dirs.len() - i,
    {
        assert(dirs.deep_view()[i as int] == dirs@[i as int].deep_view());
        assert(dirs.deep_view()[i as int] == before[i as int]);
        let ghost now = dirs.deep_view();
        if dirs[i].0 == *name {
            found = true;
            assert(before[i as int].0 == name@);
            let entry: (WorkweaveName, PathText) = (name.clone(), dir.clone());
            dirs.set(i, entry);
            assert(dirs.deep_view() =~= now.update(i as int, (name@, dir@)));
        }
        i = i + 1;
    }
    if !found {
        let ghost now = dirs.deep_view();
        assert(now =~= before);
        dirs.push((name.clone(), dir.clone()));
        assert(dirs.deep_view() =~= before.push((name@, dir@)));
    } else {
        assert(dirs.deep_view() =~= before.map_values(put));
    }
}

/// Lists the directories of the workweaves by name.
pub fn workweave_dirs(workweaves: &Vec<WorkweaveDir>) -> (dirs: Vec<(WorkweaveName, PathText)>)
    ensures
        dirs.deep_view() == named_dirs(workweaves@),
{
    let mut dirs: Vec<(WorkweaveName, PathText)> = Vec::new();
    let mut i: usize = 0;
    assert(dirs.deep_view() =~= named_dirs(workweaves@.take(0)));
    while i < workweaves.len()
        invariant
            0 <= i <= workweaves.len(),
            dirs.deep_view() == named_dirs(workweaves@.take(i as int)),
        decreases workweaves.len() - i,
    {
        proof {
            assert(workweaves@.take(i as int + 1).drop_last() =~= workweaves@.take(i as int));
            assert(workweaves@.take(i as int + 1).last() == workweaves@[i as int]);
        }
        if workweaves[i].usable {
            insert_dir(&mut dirs, &workweaves[i].name, &workweaves[i].dir);
        }
        i = i + 1;
    }
    assert(workweaves@.take(i as int) =~= workweaves@);
    dirs
}

/// The checkouts of a project's own repo: in the weave itself, and in each
/// workweave.
pub open spec fn own_repo_targets(root: Seq<char>, dirs: Seq<(Seq<char>, Seq<char>)>) -> spec_fn(
    Seq<char>,
) -> Seq<TargetView> {
    |repo: Seq<char>|
        seq![TargetView { workweave: None, abs: joined(root, repo), repo }] + dirs.map_values(
            |d: (Seq<char>, Seq<char>)|
                TargetView { workweave: Some(d.0), abs: joined(d.1, repo), repo },
        )
}

/// What the checkouts of the projects' own repos add: those that are
/// directories, each once.
pub open spec fn added_visits(
    drift: Seq<TargetView>,
    more: Seq<TargetView>,
    directories: Seq<Seq<char>>,
) -> Seq<TargetView>
    decreases more.len(),
{
    if more.len() == 0 {
        drift
    } else {
        let before = added_visits(drift, more.drop_last(), directories);
        if directories.contains(more.last().abs) && !visited(before, more.last()) {
            before.push(more.last())
        } else {
            before
        }
    }
}

/// Adds a target, where it is a directory and not visited yet.
fn add_visit(
    targets: &mut Vec<StateHygieneScanTarget>,
    directories: &Vec<PathText>,
    t: StateHygieneScanTarget,
    drift: Ghost<Seq<TargetView>>,
    more: Ghost<Seq<TargetView>>,
)
    requires
        old(targets).deep_view() == added_visits(drift@, more@, directories.deep_view()),
    ensures
        final(targets).deep_view() == added_visits(
            drift@,
            more@.push(t.deep_view()),
            directories.deep_view(),
        ),
{
    proof {
        assert(more@.push(t.deep_view()).drop_last() =~= more@);
    }
    if !holds(directories, &t.abs) {
        return;
    }
    let mut i: usize = 0;
    while i < targets.len()
        invariant
            0 <= i <= targets.len(),
            targets.deep_view() == added_visits(drift@, more@, directories.deep_view()),
            directories.deep_view().contains(t.abs@),
            forall|k: int|
                0 <= k < i ==> (#[trigger] targets.deep_view()[k]).workweave
                    != t.workweave.deep_view() || targets.deep_view()[k].abs != t.abs@,
            more@.push(t.deep_view()).drop_last() == more@,
        decreases targets.len() - i,
    {
        assert(targets.deep_view()[i as int] == targets@[i as int].deep_view());
        if same_name(&targets[i].workweave, &t.workweave) && targets[i].abs == t.abs {
            assert(visited(targets.deep_view(), t.deep_view()));
            return;
        }
        i = i + 1;
    }
    let ghost before = targets.deep_view();
    targets.push(t);
    assert(targets.deep_view() =~= before.push(t.deep_view()));
}

/// The checkouts the hygiene scan visits: those of the drift scan, and those
/// of the projects' own repos, which no manifest lists. `project_repos` are
/// the repos' paths below a weave, and `directories` the directories that are
/// there.
pub fn hygiene_targets(
    drift: Vec<StateHygieneScanTarget>,
    root: &PathText,
    dirs: &Vec<(WorkweaveName, PathText)>,
    project_repos: &Vec<RepoPath>,
    directories: &Vec<PathText>,
) -> (targets: Vec<StateHygieneScanTarget>)
    ensures
        targets.deep_view() == added_visits(
            drift.deep_view(),
            project_repos.deep_view().flat_map(own_repo_targets(root@, dirs.deep_view())),
            directories.deep_view(),
        ),
{
    let ghost dv = drift.deep_view();
    let ghost all = project_repos.deep_view();
    let ghost f = own_repo_targets(root@, dirs.deep_view());
    let mut targets: Vec<StateHygieneScanTarget> = drift;
    let mut i: usize = 0;
    assert(all.take(0).flat_map(f) =~= Seq::empty());
    while i < project_repos.len()
        invariant
            0 <= i <= project_repos.len(),
            all == project_repos.deep_view(),
            f == own_repo_targets(root@, dirs.deep_view()),
            targets.deep_view() == added_visits(
                dv,
                all.take(i as int).flat_map(f),
                directories.deep_view(),
            ),
        decreases project_repos.len() - i,
    {
        let repo: &RepoPath = &project_repos[i];
        let ghost base = all.take(i as int).flat_map(f);
        let ghost here = f(all[i as int]);
        proof {
            all.lemma_flat_map_take_append(f, i as int);
            assert(all[i as int] == repo@);
            assert(base + here.take(0) =~= base);
            assert(base + here.take(1) =~= base.push(here[0]));
        }
        let first = StateHygieneScanTarget {
            workweave: None,
            abs: join_path(root, repo),
            repo: repo.clone(),
        };
        add_visit(&mut targets, directories, first, Ghost(dv), Ghost(base));
        let mut k: usize = 0;
        while k < dirs.len()
            invariant
                0 <= k <= dirs.len(),
                here == own_repo_targets(root@, dirs.deep_view())(repo@),
                targets.deep_view() == added_visits(
                    dv,
                    base + here.take(k as int + 1),
                    directories.deep_view(),
                ),
            decreases dirs.len() - k,
        {
            let t = StateHygieneScanTarget {
                workweave: Some(dirs[k].0.clone()),
                abs: join_path(&dirs[k].1, repo),
                repo: repo.clone(),
            };
            let ghost now = base + here.take(k as int + 1);
            proof {
                assert(dirs.deep_view()[k as int] == (dirs@[k as int].0@, dirs@[k as int].1@));
                assert(here[k as int + 1] == t.deep_view());
                assert(base + here.take(k as int + 2) =~= now.push(t.deep_view()));
            }
            add_visit(&mut targets, directories, t, Ghost(dv), Ghost(now));
            k = k + 1;
        }
        proof {
            assert(here.take(k as int + 1) =~= here);
        }
        i = i + 1;
    }
    assert(all.take(i as int) =~= all);
    targets
}

/// The workspace roots whose operation state is looked at: that of the weave,
/// and each workweave's, each once.
pub fn op_state_targets(root: &PathText, dirs: &Vec<(WorkweaveName, PathText)>) -> (targets: Vec<
    StateHygieneOpStateTarget,
>)
    ensures
        targets@.map_values(|t: StateHygieneOpStateTarget| t.workspace_dir@) == distinct(
            seq![root@] + dirs.deep_view().map_values(|d: (Seq<char>, Seq<char>)| d.1),
        ),
{
    let ghost path = |d: (Seq<char>, Seq<char>)| d.1;
    let ghost all = seq![root@] + dirs.deep_view().map_values(path);
    let ghost of = |t: StateHygieneOpStateTarget| t.workspace_dir@;
    let mut seen: Vec<PathText> = Vec::new();
    let mut targets: Vec<StateHygieneOpStateTarget> = Vec::new();
    proof {
        assert(seen.deep_view() =~= Seq::empty());
        assert(all.take(1).drop_last() =~= Seq::empty());
        assert(all.take(1).last() == root@);
        reveal_with_fuel(distinct, 2);
    }
    let _new: bool = note(&mut seen, root);
    targets.push(StateHygieneOpStateTarget { workspace_dir: root.clone() });
    assert(targets@.map_values(of) =~= seen.deep_view());
    let mut i: usize = 0;
    while i < dirs.len()
        invariant
            0 <= i <= dirs.len(),
            path == (|d: (Seq<char>, Seq<char>)| d.1),
            all == seq![root@] + dirs.deep_view().map_values(path),
            of == (|t: StateHygieneOpStateTarget| t.workspace_dir@),
            seen.deep_view() == distinct(all.take(i as int + 1)),
            targets@.map_values(of) == seen.deep_view(),
        decreases dirs.len() - i,
    {
        let ghost before = targets@.map_values(of);
        proof {
            assert(dirs.deep_view()[i as int] == (dirs@[i as int].0@, dirs@[i as int].1@));
            assert(all[i as int + 1] == dirs@[i as int].1@);
            assert(all.take(i as int + 2).drop_last() =~= all.take(i as int + 1));
            assert(all.take(i as int + 2).last() == dirs@[i as int].1@);
        }
        if note(&mut seen, &dirs[i].1) {
            targets.push(StateHygieneOpStateTarget { workspace_dir: dirs[i].1.clone() });
            assert(targets@.map_values(of) =~= before.push(dirs@[i as int].1@));
        }
        i = i + 1;
    }
    assert(all.take(i as int + 1) =~= all);
    targets
}

/// Where the checkouts that were visited are.
pub fn repo_locations(targets: Vec<StateHygieneScanTarget>) -> (locations: Vec<RepoLocation>)
    ensures
        locations@.len() == targets@.len(),
        forall|i: int|
            0 <= i < targets@.len() ==> (#[trigger] locations@[i]).workweave == targets@[i].workweave
                && locations@[i].repo == targets@[i].repo && locations@[i].abs == targets@[i].abs,
{
    let mut locations: Vec<RepoLocation> = Vec::new();
    for t in it: targets
        invariant
            it.seq() == targets@,
            locations@.len() == it.index(),
            forall|i: int|
                0 <= i < it.index() ==> (#[trigger] locations@[i]).workweave
                    == targets@[i].workweave && locations@[i].repo == targets@[i].repo
                    && locations@[i].abs == targets@[i].abs,
    {
        locations.push(RepoLocation { workweave: t.workweave, repo: t.repo, abs: t.abs });
    }
    locations
}

/// How many checkouts pass between two progress lines: a twentieth of them,
/// rounded up, and at least one.
pub open spec fn progress_step(total: nat) -> nat {
    if total == 0 {
        1
    } else {
        ((total + 19) / 20) as nat
    }
}

/// The line that is told after `done` of `total` checkouts, if any. Short
/// scans are told only when they start.
pub open spec fn progress_text(done: nat, total: nat) -> Option<Seq<char>> {
    if total >= 50 && done % progress_step(total) == 0 {
        Some("doctor: scanned "@ + decimal_text(done) + "/"@ + decimal_text(total))
    } else {
        None
    }
}

/// The line that is told when a scan starts, if any.
pub fn progress_start(total: usize) -> (line: Option<String>)
    ensures
        line.deep_view() == if total > 0 {
            Some(
                "doctor: scanning "@ + decimal_text(total as nat) + " worktree(s) for drift..."@,
            )
        } else {
            None
        },
{
    if total > 0 {
        Some(
            "doctor: scanning ".to_owned().concat(&decimal(total)).concat(
                " worktree(s) for drift...",
            ),
        )
    } else {
        None
    }
}

/// The line that is told after `done` of `total` checkouts.
pub fn progress_line(done: usize, total: usize) -> (line: Option<String>)
    ensures
        line.deep_view() == progress_text(done as nat, total as nat),
{
    if total < 50 {
        return None;
    }
    let step: usize = (total - 1) / 20 + 1;
    assert(step == progress_step(total as nat));
    if done % step == 0 {
        Some(
            "doctor: scanned ".to_owned().concat(&decimal(done)).concat("/").concat(
                &decimal(total),
            ),
        )
    } else {
        None
    }
}

/// The checkouts that are visited are those of every repo a project lists: in
/// the primary, and in every workweave that can be named, each below the
/// directory of its own weave.
pub proof fn every_checkout_is_a_target(
    root: Seq<char>,
    workweaves: Seq<WorkweaveDir>,
    projects: Seq<Project>,
    t: TargetView,
)
    ensures
        all_targets(root, workweaves, projects).contains(t) <==> listed_by_some(projects, t.repo)
            && {
            ||| t.workweave is None && t.abs == joined(root, t.repo)
            ||| exists|i: int|
                0 <= i < workweaves.len() && (#[trigger] workweaves[i]).usable && t.workweave
                    == Some(workweaves[i].name@) && t.abs == joined(workweaves[i].dir@, t.repo)
        },
{
    let f = workweave_targets(projects);
    let a = weave_targets(None, root, projects);
    let b = workweaves.flat_map(f);
    joined_lists_contain(a, b, t);
    weave_targets_hold(None, root, projects, t);
    flat_map_contains(workweaves, f, t);
    if b.contains(t) {
        let i = choose|i: int| 0 <= i < workweaves.len() && (#[trigger] f(workweaves[i])).contains(t);
        weave_targets_hold(Some(workweaves[i].name@), workweaves[i].dir@, projects, t);
        assert(workweaves[i].usable);
    }
    assert forall|i: int|
        0 <= i < workweaves.len() && (#[trigger] workweaves[i]).usable && t.workweave == Some(
            workweaves[i].name@,
        ) && t.abs == joined(workweaves[i].dir@, t.repo) && listed_by_some(
            projects,
            t.repo,
        ) implies b.contains(t) by {
        weave_targets_hold(Some(workweaves[i].name@), workweaves[i].dir@, projects, t);
        assert(f(workweaves[i]).contains(t));
    }
}

/// Whether some project's manifest lists a repo.
pub open spec fn listed_by_some(projects: Seq<Project>, repo: Seq<char>) -> bool {
    exists|i: int, k: int|
        #![trigger projects[i].manifest.repositories@[k]]
        0 <= i < projects.len() && 0 <= k < projects[i].manifest.repositories@.len()
            && projects[i].manifest.repositories@[k].0@ == repo
}

proof fn weave_targets_hold(
    workweave: Option<Seq<char>>,
    root: Seq<char>,
    projects: Seq<Project>,
    t: TargetView,
)
    ensures
        weave_targets(workweave, root, projects).contains(t) <==> listed_by_some(projects, t.repo)
            && t.workweave == workweave && t.abs == joined(root, t.repo),
{
    let f = project_targets(workweave, root);
    let g = entry_target(workweave, root);
    flat_map_contains(projects, f, t);
    if weave_targets(workweave, root, projects).contains(t) {
        let i = choose|i: int| 0 <= i < projects.len() && (#[trigger] f(projects[i])).contains(t);
        let list = projects[i].manifest.repositories@;
        mapped_contains(list, g, t);
        let k = choose|k: int| 0 <= k < list.len() && #[trigger] g(list[k]) == t;
        assert(projects[i].manifest.repositories@[k].0@ == t.repo);
    }
    if listed_by_some(projects, t.repo) && t.workweave == workweave && t.abs == joined(
        root,
        t.repo,
    ) {
        let (i, k) = choose|i: int, k: int|
            #![trigger projects[i].manifest.repositories@[k]]
            0 <= i < projects.len() && 0 <= k < projects[i].manifest.repositories@.len()
                && projects[i].manifest.repositories@[k].0@ == t.repo;
        let list = projects[i].manifest.repositories@;
        assert(g(list[k]) == t);
        mapped_contains(list, g, t);
        assert(f(projects[i]).contains(t));
    }
}

/// Visiting makes up no checkout: each that is visited is a target.
pub proof fn only_targets_are_visited(
    targets: Seq<TargetView>,
    on_disk: Seq<Seq<char>>,
    t: TargetView,
)
    requires
        visits(targets, on_disk).contains(t),
    ensures
        targets.contains(t),
    decreases targets.len(),
{
    if targets.len() > 0 {
        let init = targets.drop_last();
        let before = visits(init, on_disk);
        if before.contains(t) {
            only_targets_are_visited(init, on_disk, t);
            let i = choose|i: int| 0 <= i < init.len() && init[i] == t;
            assert(targets[i] == t);
        } else {
            let all = visits(targets, on_disk);
            let k = choose|k: int| 0 <= k < all.len() && all[k] == t;
            if k < before.len() {
                assert(before[k] == t);
            }
            assert(targets[targets.len() - 1] == t);
        }
    }
}

/// What is added to the visits are directories that are there and were not
/// visited yet; nothing that was to be visited is dropped.
pub proof fn added_visits_are_new(
    drift: Seq<TargetView>,
    more: Seq<TargetView>,
    directories: Seq<Seq<char>>,
)
    ensures
        drift.is_prefix_of(added_visits(drift, more, directories)),
        forall|i: int|
            drift.len() <= i < added_visits(drift, more, directories).len() ==> directories.contains(
                (#[trigger] added_visits(drift, more, directories)[i]).abs,
            ) && more.contains(added_visits(drift, more, directories)[i]),
        forall|i: int|
            0 <= i < more.len() && directories.contains((#[trigger] more[i]).abs) ==> visited(
                added_visits(drift, more, directories),
                more[i],
            ),
    decreases more.len(),
{
    if more.len() > 0 {
        let init = more.drop_last();
        let last = more.last();
        let before = added_visits(drift, init, directories);
        let all = added_visits(drift, more, directories);
        added_visits_are_new(drift, init, directories);
        assert(more[more.len() - 1] == last);
        assert forall|i: int| drift.len() <= i < all.len() implies directories.contains(
            (#[trigger] all[i]).abs,
        ) && more.contains(all[i]) by {
            if i < before.len() {
                assert(all[i] == before[i]);
                let k = choose|k: int| 0 <= k < init.len() && init[k] == before[i];
                assert(more[k] == all[i]);
            }
        }
        assert forall|i: int|
            0 <= i < more.len() && directories.contains((#[trigger] more[i]).abs) implies visited(
            all,
            more[i],
        ) by {
            if i < init.len() {
                assert(init[i] == more[i]);
                assert(visited(before, init[i]));
                let k = choose|k: int|
                    0 <= k < before.len() && (#[trigger] before[k]).workweave == more[i].workweave
                        && before[k].abs == more[i].abs;
                assert(all[k] == before[k]);
            } else if visited(before, last) {
                let k = choose|k: int|
                    0 <= k < before.len() && (#[trigger] before[k]).workweave == last.workweave
                        && before[k].abs == last.abs;
                assert(all[k] == before[k]);
            } else {
                assert(all[all.len() - 1] == last);
            }
        }
    }
}

/// A project's own repo is visited in the primary and in every workweave, each
/// below the directory of its weave.
pub proof fn own_repos_are_visited_everywhere(
    root: Seq<char>,
    dirs: Seq<(Seq<char>, Seq<char>)>,
    repo: Seq<char>,
    t: TargetView,
)
    ensures
        own_repo_targets(root, dirs)(repo).contains(t) <==> t.repo == repo && {
            ||| t.workweave is None && t.abs == joined(root, repo)
            ||| exists|i: int|
                0 <= i < dirs.len() && t.workweave == Some((#[trigger] dirs[i]).0) && t.abs
                    == joined(dirs[i].1, repo)
        },
{
    let first = TargetView { workweave: None, abs: joined(root, repo), repo };
    let f = |d: (Seq<char>, Seq<char>)|
        TargetView { workweave: Some(d.0), abs: joined(d.1, repo), repo };
    joined_lists_contain(seq![first], dirs.map_values(f), t);
    single_contains(first, t);
    mapped_contains(dirs, f, t);
    if dirs.map_values(f).contains(t) {
        let i = choose|i: int| 0 <= i < dirs.len() && #[trigger] f(dirs[i]) == t;
        assert(t.workweave == Some(dirs[i].0));
    }
    assert forall|i: int|
        0 <= i < dirs.len() && t.workweave == Some((#[trigger] dirs[i]).0) && t.abs == joined(
            dirs[i].1,
            repo,
        ) && t.repo == repo implies dirs.map_values(f).contains(t) by {
        assert(f(dirs[i]) == t);
    }
}

/// A workweave's name stands for the directory that was listed for it last, and
/// only names that can be used stand for one.
pub proof fn names_stand_for_their_last_directory(workweaves: Seq<WorkweaveDir>, name: Seq<char>)
    ensures
        forall|i: int|
            0 <= i < named_dirs(workweaves).len() && (#[trigger] named_dirs(workweaves)[i]).0 == name
                ==> exists|k: int|
                #![trigger workweaves[k]]
                0 <= k < workweaves.len() && workweaves[k].usable && workweaves[k].name@ == name
                    && workweaves[k].dir@ == named_dirs(workweaves)[i].1 && forall|j: int|
                    k < j < workweaves.len() && (#[trigger] workweaves[j]).usable
                        ==> workweaves[j].name@ != name,
        forall|k: int|
            0 <= k < workweaves.len() && (#[trigger] workweaves[k]).usable && workweaves[k].name@
                == name ==> exists|i: int|
                0 <= i < named_dirs(workweaves).len() && (#[trigger] named_dirs(workweaves)[i]).0
                    == name,
    decreases workweaves.len(),
{
    if workweaves.len() > 0 {
        let init = workweaves.drop_last();
        let n = workweaves.len() - 1;
        let before = named_dirs(init);
        let all = named_dirs(workweaves);
        names_stand_for_their_last_directory(init, name);
        assert(workweaves[n] == workweaves.last());
        assert forall|k: int| 0 <= k < n implies #[trigger] workweaves[k] == init[k] by {}
        let fresh = workweaves[n].usable && workweaves[n].name@ == name;
        assert forall|i: int| 0 <= i < all.len() && (#[trigger] all[i]).0 == name implies exists|
            k: int,
        |
            #![trigger workweaves[k]]
            0 <= k < workweaves.len() && workweaves[k].usable && workweaves[k].name@ == name
                && workweaves[k].dir@ == all[i].1 && forall|j: int|
                k < j < workweaves.len() && (#[trigger] workweaves[j]).usable ==> workweaves[j].name@
                    != name by {
            if fresh {
                assert(all[i].1 == workweaves[n].dir@);
            } else {
                assert(i < before.len());
                assert(all[i] == before[i]);
                let k = choose|k: int|
                    #![trigger init[k]]
                    0 <= k < init.len() && init[k].usable && init[k].name@ == name && init[k].dir@
                        == before[i].1 && forall|j: int|
                        k < j < init.len() && (#[trigger] init[j]).usable ==> init[j].name@ != name;
                assert(workweaves[k] == init[k]);
                assert forall|j: int|
                    k < j < workweaves.len() && (#[trigger] workweaves[j]).usable implies workweaves[j].name@
                    != name by {
                    if j < n {
                        assert(init[j].usable);
                    }
                }
            }
        }
        assert forall|k: int|
            0 <= k < workweaves.len() && (#[trigger] workweaves[k]).usable && workweaves[k].name@
                == name implies exists|i: int|
            0 <= i < all.len() && (#[trigger] all[i]).0 == name by {
            if k < n {
                assert(init[k].usable);
                let i = choose|i: int| 0 <= i < before.len() && (#[trigger] before[i]).0 == name;
                assert(all[i].0 == name);
            } else if exists|i: int| 0 <= i < before.len() && (#[trigger] before[i]).0 == name {
                let i = choose|i: int| 0 <= i < before.len() && (#[trigger] before[i]).0 == name;
                assert(all[i].0 == name);
            } else {
                assert(all[all.len() - 1].0 == name);
            }
        }
    }
}

/// Progress is told of large runs alone, some twenty times: never more steps
/// than that are counted, and the last is told where it falls on one.
pub proof fn progress_is_told_sparingly(done: nat, total: nat)
    ensures
        progress_text(done, total) is Some ==> total >= 50 && exists|k: nat|
            #![trigger k * progress_step(total)]
            done == k * progress_step(total),
        total < 50 ==> progress_text(done, total) is None,
        20 * progress_step(total) >= total,
        total > 0 ==> 20 * (progress_step(total) - 1) < total,
        progress_step(total) > 0,
{
    let step = progress_step(total);
    if total >= 50 && done % step == 0 {
        let k = done / step;
        vstd::arithmetic::div_mod::lemma_fundamental_div_mod(done as int, step as int);
        assert(done == k * step) by (nonlinear_arith)
            requires
                done == step * k + 0,
        ;
    }
}

} // verus!
