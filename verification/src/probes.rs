//! What the scans ask of the disk, worked out from the loaded projects.

use vstd::prelude::*;
use crate::hygiene::StateHygieneScanTarget;
use crate::lists::{joined_lists_contain, mapped_contains, single_contains};
use crate::model::{
    lookup, manifest_lists, value_is_listed, value_of, LockEntry, Manifest, Project, RepoEntry,
    Role, VcsType,
};
use crate::order::arranged;
use crate::receipts::sorted_names;
use crate::targets::{entry_target, project_targets, weave_targets, workweave_targets, WorkweaveDir};
use crate::text::{join_path, joined};
use crate::violation::{PathText, ProjectName, RepoPath, WorkweaveName};

verus! {

/// A manifest entry whose clone's remote is to be read.
#[derive(Debug)]
pub struct OriginTarget {
    pub repo: RepoPath,
    pub path: PathText,
    pub vcs_type: VcsType,
    pub manifest_url: String,
    pub role: Role,
}

/// What an [`OriginTarget`] says.
pub struct OriginTargetView {
    pub repo: Seq<char>,
    pub path: Seq<char>,
    pub vcs_type: VcsType,
    pub manifest_url: Seq<char>,
    pub role: Role,
}

impl DeepView for OriginTarget {
    type V = OriginTargetView;

    open spec fn deep_view(&self) -> OriginTargetView {
        OriginTargetView {
            repo: self.repo@,
            path: self.path@,
            vcs_type: self.vcs_type,
            manifest_url: self.manifest_url@,
            role: self.role,
        }
    }
}

/// A lock entry whose revision is to be looked for in the clone.
#[derive(Debug)]
pub struct PinTarget {
    pub repo: RepoPath,
    pub path: PathText,
    /// The backend the manifest declares, where it lists the repo.
    pub vcs_type: Option<VcsType>,
    pub version: String,
}

/// What a [`PinTarget`] says.
pub struct PinTargetView {
    pub repo: Seq<char>,
    pub path: Seq<char>,
    pub vcs_type: Option<VcsType>,
    pub version: Seq<char>,
}

impl DeepView for PinTarget {
    type V = PinTargetView;

    open spec fn deep_view(&self) -> PinTargetView {
        PinTargetView {
            repo: self.repo@,
            path: self.path@,
            vcs_type: self.vcs_type,
            version: self.version@,
        }
    }
}

/// A project's clones, as far as the provenance scan looks at them.
#[derive(Debug)]
pub struct ProvenanceTarget {
    pub project: ProjectName,
    pub origins: Vec<OriginTarget>,
    pub pins: Vec<PinTarget>,
}

/// What a [`ProvenanceTarget`] says.
pub struct ProvenanceTargetView {
    pub project: Seq<char>,
    pub origins: Seq<OriginTargetView>,
    pub pins: Seq<PinTargetView>,
}

impl DeepView for ProvenanceTarget {
    type V = ProvenanceTargetView;

    open spec fn deep_view(&self) -> ProvenanceTargetView {
        ProvenanceTargetView {
            project: self.project@,
            origins: self.origins.deep_view(),
            pins: self.pins.deep_view(),
        }
    }
}

/// What is read for a manifest entry.
pub open spec fn origin_target(root: Seq<char>) -> spec_fn((RepoPath, RepoEntry)) -> OriginTargetView {
    |e: (RepoPath, RepoEntry)|
        OriginTargetView {
            repo: e.0@,
            path: joined(root, e.0@),
            vcs_type: e.1.vcs_type,
            manifest_url: e.1.url@,
            role: e.1.role,
        }
}

/// The backend that a manifest declares for a repo.
pub open spec fn declared_backend(m: Manifest, repo: Seq<char>) -> Option<VcsType> {
    match value_of(m.repositories@, repo) {
        Some(entry) => Some(entry.vcs_type),
        None => None,
    }
}

/// What is read for a lock entry. The lock names paths and the manifest names
/// backends.
pub open spec fn pin_target(root: Seq<char>, m: Manifest) -> spec_fn(
    (RepoPath, LockEntry),
) -> PinTargetView {
    |e: (RepoPath, LockEntry)|
        PinTargetView {
            repo: e.0@,
            path: joined(root, e.0@),
            vcs_type: declared_backend(m, e.0@),
            version: e.1.version@,
        }
}

/// What the provenance scan reads for a project: every manifest entry, and
/// every lock entry where there is a lock.
pub open spec fn provenance_target(root: Seq<char>) -> spec_fn(Project) -> ProvenanceTargetView {
    |p: Project|
        ProvenanceTargetView {
            project: p.name@,
            origins: p.manifest.repositories@.map_values(origin_target(root)),
            pins: match p.lock {
                Some(lock) => lock.repositories@.map_values(pin_target(root, p.manifest)),
                None => Seq::empty(),
            },
        }
}

/// Lists what is read for the entries of a manifest.
fn origin_targets(root: &PathText, manifest: &Manifest) -> (targets: Vec<OriginTarget>)
    ensures
        targets.deep_view() == manifest.repositories@.map_values(origin_target(root@)),
{
    let list: &Vec<(RepoPath, RepoEntry)> = &manifest.repositories;
    let ghost f = origin_target(root@);
    let mut targets: Vec<OriginTarget> = Vec::new();
    let mut i: usize = 0;
    while i < list.len()
        invariant
            0 <= i <= list.len(),
            f == origin_target(root@),
            targets@.len() == i,
            forall|k: int| 0 <= k < i ==> (#[trigger] targets@[k]).deep_view() == f(list@[k]),
        decreases list.len() - i,
    {
        let repo: &RepoPath = &list[i].0;
        let entry: &RepoEntry = &list[i].1;
        targets.push(
            OriginTarget {
                repo: repo.clone(),
                path: join_path(root, repo),
                vcs_type: entry.vcs_type,
                manifest_url: entry.url.clone(),
                role: entry.role,
            },
        );
        i = i + 1;
    }
    assert(targets.deep_view() =~= list@.map_values(f));
    targets
}

/// Lists what is read for the entries of a lock.
fn pin_targets(
    root: &PathText,
    manifest: &Manifest,
    pins: &Vec<(RepoPath, LockEntry)>,
) -> (targets: Vec<PinTarget>)
    ensures
        targets.deep_view() == pins@.map_values(pin_target(root@, *manifest)),
{
    let ghost f = pin_target(root@, *manifest);
    let mut targets: Vec<PinTarget> = Vec::new();
    let mut i: usize = 0;
    while i < pins.len()
        invariant
            0 <= i <= pins.len(),
            f == pin_target(root@, *manifest),
            targets@.len() == i,
            forall|k: int| 0 <= k < i ==> (#[trigger] targets@[k]).deep_view() == f(pins@[k]),
        decreases pins.len() - i,
    {
        let repo: &RepoPath = &pins[i].0;
        let vcs_type: Option<VcsType> = match lookup(&manifest.repositories, repo) {
            Some(entry) => Some(entry.vcs_type),
            None => None,
        };
        targets.push(
            PinTarget {
                repo: repo.clone(),
                path: join_path(root, repo),
                vcs_type,
                version: pins[i].1.version.clone(),
            },
        );
        i = i + 1;
    }
    assert(targets.deep_view() =~= pins@.map_values(f));
    targets
}

/// Lists what the provenance scan reads, project by project.
pub fn provenance_targets(root: &PathText, projects: &Vec<Project>) -> (targets: Vec<
    ProvenanceTarget,
>)
    ensures
        targets.deep_view() == projects@.map_values(provenance_target(root@)),
{
    let ghost f = provenance_target(root@);
    let mut targets: Vec<ProvenanceTarget> = Vec::new();
    let mut i: usize = 0;
    while i < projects.len()
        invariant
            0 <= i <= projects.len(),
            f == provenance_target(root@),
            targets@.len() == i,
            forall|k: int| 0 <= k < i ==> (#[trigger] targets@[k]).deep_view() == f(projects@[k]),
        decreases projects.len() - i,
    {
        let p: &Project = &projects[i];
        let pins: Vec<PinTarget> = match &p.lock {
            Some(lock) => pin_targets(root, &p.manifest, &lock.repositories),
            None => Vec::new(),
        };
        assert(p.lock is None ==> pins.deep_view() =~= Seq::empty());
        targets.push(
            ProvenanceTarget {
                project: p.name.clone(),
                origins: origin_targets(root, &p.manifest),
                pins,
            },
        );
        i = i + 1;
    }
    assert(targets.deep_view() =~= projects@.map_values(f));
    targets
}

/// Where a repo's attributes file is.
pub open spec fn attributes_file(root: Seq<char>, repo: Seq<char>) -> (Seq<char>, Seq<char>) {
    (repo, joined(joined(root, repo), ".gitattributes"@))
}

/// The attributes file of a manifest entry.
pub open spec fn entry_attributes(root: Seq<char>) -> spec_fn((RepoPath, RepoEntry)) -> (
    Seq<char>,
    Seq<char>,
) {
    |e: (RepoPath, RepoEntry)| attributes_file(root, e.0@)
}

/// The attributes files of a project: its own repo's, where that is a usable
/// path, and then those of its manifest entries.
pub open spec fn project_attributes(root: Seq<char>, own: Seq<(ProjectName, RepoPath)>) -> spec_fn(
    Project,
) -> Seq<(Seq<char>, Seq<char>)> {
    |p: Project|
        (match value_of(own, p.name@) {
            Some(repo) => seq![attributes_file(root, repo@)],
            None => Seq::empty(),
        }) + p.manifest.repositories@.map_values(entry_attributes(root))
}

/// Lists the repos whose attributes files are read, each with that file's path.
/// `own` gives each project's own repo.
pub fn attributes_targets(
    root: &PathText,
    projects: &Vec<Project>,
    own: &Vec<(ProjectName, RepoPath)>,
) -> (files: Vec<(RepoPath, PathText)>)
    ensures
        files.deep_view() == projects@.flat_map(project_attributes(root@, own@)),
{
    let ghost f = project_attributes(root@, own@);
    let ghost g = entry_attributes(root@);
    let mut files: Vec<(RepoPath, PathText)> = Vec::new();
    let mut i: usize = 0;
    assert(files.deep_view() =~= projects@.take(0).flat_map(f));
    while i < projects.len()
        invariant
            0 <= i <= projects.len(),
            f == project_attributes(root@, own@),
            g == entry_attributes(root@),
            files.deep_view() == projects@.take(i as int).flat_map(f),
        decreases projects.len() - i,
    {
        let ghost prior = files.deep_view();
        let p: &Project = &projects[i];
        let list: &Vec<(RepoPath, RepoEntry)> = &p.manifest.repositories;
        if let Some(repo) = lookup(own, &p.name) {
            let file: PathText = join_path(&join_path(root, repo), ".gitattributes");
            files.push((repo.clone(), file));
        }
        let ghost first = files.deep_view();
        assert(first =~= prior + match value_of(own@, p.name@) {
            Some(repo) => seq![attributes_file(root@, repo@)],
            None => Seq::empty(),
        });
        let mut k: usize = 0;
        assert(first =~= first + list@.take(0).map_values(g));
        while k < list.len()
            invariant
                0 <= k <= list.len(),
                g == entry_attributes(root@),
                files.deep_view() == first + list@.take(k as int).map_values(g),
            decreases list.len() - k,
        {
            let ghost before = files.deep_view();
            let repo: &RepoPath = &list[k].0;
            let file: PathText = join_path(&join_path(root, repo), ".gitattributes");
            files.push((repo.clone(), file));
            proof {
                assert(files.deep_view() =~= before.push(g(list@[k as int])));
                assert(list@.take(k as int + 1).map_values(g) =~= list@.take(k as int).map_values(
                    g,
                ).push(g(list@[k as int])));
            }
            k = k + 1;
        }
        proof {
            assert(list@.take(k as int) =~= list@);
            projects@.lemma_flat_map_take_append(f, i as int);
            assert(files.deep_view() =~= prior + f(projects@[i as int]));
        }
        i = i + 1;
    }
    assert(projects@.take(i as int) =~= projects@);
    files
}

/// Lists the checkouts that are looked at for missing submodules: for each
/// workweave with a usable name, every manifest entry of every project.
pub fn submodule_targets(workweaves: &Vec<WorkweaveDir>, projects: &Vec<Project>) -> (targets: Vec<
    StateHygieneScanTarget,
>)
    ensures
        targets.deep_view() == workweaves@.flat_map(workweave_targets(projects@)),
{
    let ghost f = workweave_targets(projects@);
    let mut targets: Vec<StateHygieneScanTarget> = Vec::new();
    let mut i: usize = 0;
    assert(targets.deep_view() =~= workweaves@.take(0).flat_map(f));
    while i < workweaves.len()
        invariant
            0 <= i <= workweaves.len(),
            f == workweave_targets(projects@),
            targets.deep_view() == workweaves@.take(i as int).flat_map(f),
        decreases workweaves.len() - i,
    {
        let ghost prior = targets.deep_view();
        if workweaves[i].usable {
            push_checkouts(&mut targets, &workweaves[i].name, &workweaves[i].dir, projects);
        }
        proof {
            workweaves@.lemma_flat_map_take_append(f, i as int);
            assert(targets.deep_view() =~= prior + f(workweaves@[i as int]));
        }
        i = i + 1;
    }
    assert(workweaves@.take(i as int) =~= workweaves@);
    targets
}

/// Adds every checkout of a workweave.
fn push_checkouts(
    targets: &mut Vec<StateHygieneScanTarget>,
    name: &WorkweaveName,
    dir: &PathText,
    projects: &Vec<Project>,
)
    ensures
        final(targets).deep_view() == old(targets).deep_view() + weave_targets(
            Some(name@),
            dir@,
            projects@,
        ),
{
    let ghost start = targets.deep_view();
    let ghost f = project_targets(Some(name@), dir@);
    let ghost g = entry_target(Some(name@), dir@);
    let mut i: usize = 0;
    assert(start =~= start + projects@.take(0).flat_map(f));
    while i < projects.len()
        invariant
            0 <= i <= projects.len(),
            f == project_targets(Some(name@), dir@),
            g == entry_target(Some(name@), dir@),
            targets.deep_view() == start + projects@.take(i as int).flat_map(f),
        decreases projects.len() - i,
    {
        let list: &Vec<(RepoPath, RepoEntry)> = &projects[i].manifest.repositories;
        let ghost prior = targets.deep_view();
        let mut k: usize = 0;
        assert(prior =~= prior + list@.take(0).map_values(g));
        while k < list.len()
            invariant
                0 <= k <= list.len(),
                g == entry_target(Some(name@), dir@),
                targets.deep_view() == prior + list@.take(k as int).map_values(g),
            decreases list.len() - k,
        {
            let ghost before = targets.deep_view();
            let repo: &RepoPath = &list[k].0;
            let t: StateHygieneScanTarget = StateHygieneScanTarget {
                workweave: Some(name.clone()),
                abs: join_path(dir, repo),
                repo: repo.clone(),
            };
            assert(t.deep_view() == g(list@[k as int]));
            targets.push(t);
            proof {
                assert(targets.deep_view() =~= before.push(g(list@[k as int])));
                assert(list@.take(k as int + 1).map_values(g) =~= list@.take(k as int).map_values(
                    g,
                ).push(g(list@[k as int])));
            }
            k = k + 1;
        }
        proof {
            assert(list@.take(k as int) =~= list@);
            projects@.lemma_flat_map_take_append(f, i as int);
            assert(targets.deep_view() =~= start + projects@.take(i as int + 1).flat_map(f));
        }
        i = i + 1;
    }
    assert(projects@.take(i as int) =~= projects@);
}

/// A repo whose object stores are looked at: its slot in the weave, and its
/// checkout in each workweave.
#[derive(Debug)]
pub struct StoresTarget {
    pub repo: RepoPath,
    pub slot: PathText,
    pub checkouts: Vec<PathText>,
}

/// What a [`StoresTarget`] says.
pub struct StoresTargetView {
    pub repo: Seq<char>,
    pub slot: Seq<char>,
    pub checkouts: Seq<Seq<char>>,
}

impl DeepView for StoresTarget {
    type V = StoresTargetView;

    open spec fn deep_view(&self) -> StoresTargetView {
        StoresTargetView {
            repo: self.repo@,
            slot: self.slot@,
            checkouts: self.checkouts.deep_view(),
        }
    }
}

/// Where a repo is looked for: in the weave at `root`, and in every workweave.
pub open spec fn stores_target(root: Seq<char>, workweaves: Seq<WorkweaveDir>) -> spec_fn(
    Seq<char>,
) -> StoresTargetView {
    |repo: Seq<char>|
        StoresTargetView {
            repo,
            slot: joined(root, repo),
            checkouts: workweaves.map_values(|w: WorkweaveDir| joined(w.dir@, repo)),
        }
}

/// Lists the places of every known repo, the repos in order.
pub fn stores_targets(
    root: &PathText,
    known_repos: &Vec<RepoPath>,
    workweaves: &Vec<WorkweaveDir>,
) -> (targets: Vec<StoresTarget>)
    ensures
        targets.deep_view() == arranged(
            known_repos.deep_view(),
            known_repos.deep_view(),
        ).map_values(stores_target(root@, workweaves@)),
{
    let ghost f = stores_target(root@, workweaves@);
    let mut repos: Vec<RepoPath> = Vec::new();
    let mut n: usize = 0;
    while n < known_repos.len()
        invariant
            0 <= n <= known_repos.len(),
            repos@.len() == n,
            forall|k: int| 0 <= k < n ==> (#[trigger] repos@[k])@ == known_repos@[k]@,
        decreases known_repos.len() - n,
    {
        repos.push(known_repos[n].clone());
        n = n + 1;
    }
    assert(repos.deep_view() =~= known_repos.deep_view());
    let sorted: Vec<RepoPath> = sorted_names(repos);
    let mut targets: Vec<StoresTarget> = Vec::new();
    let mut i: usize = 0;
    while i < sorted.len()
        invariant
            0 <= i <= sorted.len(),
            f == stores_target(root@, workweaves@),
            targets@.len() == i,
            forall|k: int| 0 <= k < i ==> (#[trigger] targets@[k]).deep_view() == f(sorted@[k]@),
        decreases sorted.len() - i,
    {
        let repo: &RepoPath = &sorted[i];
        let mut checkouts: Vec<PathText> = Vec::new();
        let mut k: usize = 0;
        while k < workweaves.len()
            invariant
                0 <= k <= workweaves.len(),
                checkouts@.len() == k,
                forall|j: int|
                    0 <= j < k ==> (#[trigger] checkouts@[j])@ == joined(
                        workweaves@[j].dir@,
                        repo@,
                    ),
            decreases workweaves.len() - k,
        {
            checkouts.push(join_path(&workweaves[k].dir, repo));
            k = k + 1;
        }
        assert(checkouts.deep_view() =~= workweaves@.map_values(
            |w: WorkweaveDir| joined(w.dir@, repo@),
        ));
        targets.push(StoresTarget { repo: repo.clone(), slot: join_path(root, repo), checkouts });
        i = i + 1;
    }
    assert(targets.deep_view() =~= sorted.deep_view().map_values(f));
    targets
}

/// Lists the projects that are each read once for their cargo members and once
/// for their own repo: every one that was loaded, in order.
pub fn probed_projects(projects: &Vec<Project>) -> (names: Vec<ProjectName>)
    ensures
        names.deep_view() == projects@.map_values(|p: Project| p.name@),
{
    let mut names: Vec<ProjectName> = Vec::new();
    let mut i: usize = 0;
    while i < projects.len()
        invariant
            0 <= i <= projects.len(),
            names@.len() == i,
            forall|k: int| 0 <= k < i ==> (#[trigger] names@[k])@ == projects@[k].name@,
        decreases projects.len() - i,
    {
        names.push(projects[i].name.clone());
        i = i + 1;
    }
    assert(names.deep_view() =~= projects@.map_values(|p: Project| p.name@));
    names
}

/// Every manifest entry's remote is read in its own clone, against its own URL
/// and role, and every pin in its own, with the backend that the manifest
/// declares for it.
pub proof fn entries_are_probed_in_place(root: Seq<char>, p: Project, i: int)
    ensures
        0 <= i < p.manifest.repositories@.len() ==> {
            let t = provenance_target(root)(p).origins[i];
            &&& t.repo == p.manifest.repositories@[i].0@
            &&& t.path == joined(root, t.repo)
            &&& t.manifest_url == p.manifest.repositories@[i].1.url@
            &&& t.role == p.manifest.repositories@[i].1.role
            &&& t.vcs_type == p.manifest.repositories@[i].1.vcs_type
        },
        p.lock matches Some(lock) ==> 0 <= i < lock.repositories@.len() ==> {
            let t = provenance_target(root)(p).pins[i];
            &&& t.repo == lock.repositories@[i].0@
            &&& t.path == joined(root, t.repo)
            &&& t.version == lock.repositories@[i].1.version@
            &&& t.vcs_type is Some <==> manifest_lists(p.manifest, t.repo)
        },
        provenance_target(root)(p).project == p.name@,
        provenance_target(root)(p).origins.len() == p.manifest.repositories@.len(),
        p.lock is None ==> provenance_target(root)(p).pins.len() == 0,
        p.lock matches Some(lock) ==> provenance_target(root)(p).pins.len()
            == lock.repositories@.len(),
{
    if let Some(lock) = p.lock {
        if 0 <= i < lock.repositories@.len() {
            value_is_listed(p.manifest.repositories@, lock.repositories@[i].0@);
        }
    }
}

/// The attributes that are read are those of every listed repo and of the
/// project's own, each in its clone's top directory.
pub proof fn attributes_are_read_of_every_repo(
    root: Seq<char>,
    own: Seq<(ProjectName, RepoPath)>,
    p: Project,
    file: (Seq<char>, Seq<char>),
)
    ensures
        project_attributes(root, own)(p).contains(file) <==> file.1 == joined(
            joined(root, file.0),
            ".gitattributes"@,
        ) && {
            ||| manifest_lists(p.manifest, file.0)
            ||| value_of(own, p.name@) matches Some(repo) && repo@ == file.0
        },
{
    let f = entry_attributes(root);
    let list = p.manifest.repositories@;
    let a = match value_of(own, p.name@) {
        Some(repo) => seq![attributes_file(root, repo@)],
        None => Seq::empty(),
    };
    joined_lists_contain(a, list.map_values(f), file);
    mapped_contains(list, f, file);
    if a.len() > 0 {
        single_contains(a[0], file);
        assert(a =~= seq![a[0]]);
    }
    if list.map_values(f).contains(file) {
        let i = choose|i: int| 0 <= i < list.len() && #[trigger] f(list[i]) == file;
        assert(p.manifest.repositories@[i].0@ == file.0);
    }
    if manifest_lists(p.manifest, file.0) && file.1 == joined(
        joined(root, file.0),
        ".gitattributes"@,
    ) {
        let i = choose|i: int|
            0 <= i < list.len() && (#[trigger] p.manifest.repositories@[i]).0@ == file.0;
        assert(f(list[i]) == file);
    }
}

/// A repo's stores are looked for in the weave's clone and in every workweave.
pub proof fn stores_are_looked_for_everywhere(
    root: Seq<char>,
    workweaves: Seq<WorkweaveDir>,
    repo: Seq<char>,
    i: int,
)
    ensures
        stores_target(root, workweaves)(repo).repo == repo,
        stores_target(root, workweaves)(repo).slot == joined(root, repo),
        stores_target(root, workweaves)(repo).checkouts.len() == workweaves.len(),
        0 <= i < workweaves.len() ==> stores_target(root, workweaves)(repo).checkouts[i] == joined(
            workweaves[i].dir@,
            repo,
        ),
{
}

} // verus!
