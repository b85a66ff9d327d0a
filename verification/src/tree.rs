//! The integrity of the workweave directories: markers, names and parents.

use vstd::prelude::*;
use crate::lists::{filtered_contains, flat_map_contains, joined_lists_contain, single_contains};
use crate::order::{
    arranged, arranging_keeps_everything, key_of_path, note, order_of, path_key, sort_order,
};
use crate::registry::{
    indices, ledger_findings, reconciliation_findings, scan_registry_reconciliation,
    scan_unreadable_owned_state, tree_finding, FoundWorkweave, LedgerReading, ProjectRegistry,
};
use crate::text::{tells, telling};
use crate::violation::{
    CheckViolation, PathText, ProjectName, WorkweaveName, WorkweaveTreeIntegrityKind,
};
use crate::violation_view::{CheckViolationView, WorkweaveTreeIntegrityKindView};

verus! {

/// A workweave's name and the directory name its project renders for it.
#[derive(Debug, Clone)]
pub struct NamedDir {
    pub name: WorkweaveName,
    pub dir_name: String,
}

/// What a workweave marker says, and what its paths were found to be.
#[derive(Debug, Clone)]
pub struct MarkerReading {
    pub project: ProjectName,
    /// The primary weave as the marker spells it.
    pub primary: PathText,
    /// Whether that is the workspace being scanned.
    pub names_this_workspace: bool,
    pub primary_resolved: PathText,
    pub primary_is_workspace: bool,
    /// The parent as the marker spells it.
    pub parent: PathText,
    pub parent_exists: bool,
    /// The parent's resolved path, or its spelling where it does not resolve.
    pub parent_resolved: PathText,
}

/// What reading a directory's marker gave.
#[derive(Debug, Clone)]
pub enum MarkerState {
    /// There is no marker file.
    Absent,
    /// The marker file went away while it was being read.
    Gone,
    /// The marker does not parse; `detail` says why where no migration will
    /// help.
    Unreadable { detail: Option<String> },
    Read { marker: MarkerReading },
}

/// A directory below a markerless directory of a container.
#[derive(Debug, Clone)]
pub struct NestedDir {
    pub path: PathText,
    /// The project its marker names, where it carries a readable one.
    pub project: Option<ProjectName>,
    /// The name the registry records for it.
    pub recorded: Option<NamedDir>,
    /// The name its basename renders.
    pub derived: Option<NamedDir>,
}

/// A directory in a workweave container.
#[derive(Debug, Clone)]
pub struct ContainerDir {
    pub path: PathText,
    /// The resolved path, where it resolves.
    pub canonical: Option<PathText>,
    pub basename: Option<String>,
    pub marker: MarkerState,
    /// The name its project's registry records for it.
    pub recorded: Option<NamedDir>,
    /// Whether its project renders the basename for some workweave name.
    pub rendered: bool,
    pub children: Vec<NestedDir>,
}

/// Everything the integrity scan reads.
pub struct TreeObservation {
    /// The workspace's resolved path.
    pub workspace: PathText,
    pub registries: Vec<ProjectRegistry>,
    /// The workweaves found in the containers, container by container.
    pub found: Vec<FoundWorkweave>,
    pub ledgers: Vec<LedgerReading>,
    /// The directories listed in the containers, container by container.
    pub dirs: Vec<ContainerDir>,
}

/// The path a directory is told apart by.
pub open spec fn dir_identity(d: ContainerDir) -> Seq<char> {
    match d.canonical {
        Some(c) => c@,
        None => d.path@,
    }
}

/// Whether the directory at place `i` is listed there for the first time.
pub open spec fn first_listed(dirs: Seq<ContainerDir>, i: int) -> bool {
    forall|j: int| 0 <= j < i ==> dir_identity(#[trigger] dirs[j]) != dir_identity(dirs[i])
}

/// The places where a directory is listed for the first time.
pub open spec fn fresh_places(dirs: Seq<ContainerDir>) -> Seq<int> {
    indices(dirs.len()).filter(|i: int| first_listed(dirs, i))
}

/// The directories to check: each once, in the order of their paths.
pub open spec fn checked_places(dirs: Seq<ContainerDir>) -> Seq<int> {
    let fresh = fresh_places(dirs);
    arranged(fresh, fresh.map_values(|i: int| path_key(dirs[i].path@)))
}

/// The name a nested directory is known by: the recorded one before the one
/// its basename renders.
pub open spec fn nested_name(c: NestedDir) -> Option<NamedDir> {
    match c.recorded {
        Some(n) => Some(n),
        None => c.derived,
    }
}

/// What a directory one level too deep raises.
pub open spec fn nested_findings(c: NestedDir) -> Seq<CheckViolationView> {
    match (c.project, nested_name(c)) {
        (Some(project), Some(n)) => seq![
            tree_finding(
                c.path@,
                WorkweaveTreeIntegrityKindView::NestedWorkweaveDir {
                    project: project@,
                    workweave_name: n.name@,
                    expected_dir_name: n.dir_name@,
                },
            ),
        ],
        _ => Seq::empty(),
    }
}

/// What the directories below a markerless directory raise.
pub open spec fn all_nested_findings(children: Seq<NestedDir>) -> Seq<CheckViolationView> {
    children.flat_map(|c: NestedDir| nested_findings(c))
}

/// What a marker of another workspace raises.
pub open spec fn foreign_finding(dir: Seq<char>, m: MarkerReading) -> CheckViolationView {
    tree_finding(
        dir,
        if m.primary_is_workspace {
            WorkweaveTreeIntegrityKindView::ForeignPrimaryOtherWorkspace {
                marker_primary: m.primary_resolved@,
            }
        } else {
            WorkweaveTreeIntegrityKindView::ForeignPrimary { marker_primary: m.primary@ }
        },
    )
}

/// What a parent that is not there raises.
pub open spec fn dangling_findings(dir: Seq<char>, m: MarkerReading) -> Seq<CheckViolationView> {
    if m.parent_exists {
        Seq::empty()
    } else {
        seq![
            tree_finding(
                dir,
                WorkweaveTreeIntegrityKindView::DanglingParent { parent_path: m.parent@ },
            ),
        ]
    }
}

/// How a directory not named as its records expect is described.
pub open spec fn misnamed_detail(project: Seq<char>, n: NamedDir) -> Seq<char> {
    "the marker records project `"@ + project
        + "` and the name the registry records for this path is `"@ + n.name@
        + "`, so the records expect `"@ + n.dir_name@ + "`"@
}

/// How a directory whose intended name cannot be derived is described.
pub open spec fn underivable_detail(project: Seq<char>) -> Seq<char> {
    "the basename is not a directory name project `"@ + project
        + "` renders for any workweave name, and no registry entry of project `"@ + project
        + "` names this path, so the intended name is not derivable"@
}

/// What a directory's name raises against its marker and registry.
pub open spec fn name_findings(d: ContainerDir, project: Seq<char>) -> Seq<CheckViolationView> {
    match (d.basename, d.recorded) {
        (None, _) => Seq::empty(),
        (Some(basename), Some(n)) => if basename@ == n.dir_name@ {
            Seq::empty()
        } else {
            seq![
                tree_finding(
                    d.path@,
                    WorkweaveTreeIntegrityKindView::MisnamedDir {
                        expected_dir_name: Some(n.dir_name@),
                        detail: misnamed_detail(project, n),
                    },
                ),
            ]
        },
        (Some(_), None) => if d.rendered {
            Seq::empty()
        } else {
            seq![
                tree_finding(
                    d.path@,
                    WorkweaveTreeIntegrityKindView::MisnamedDir {
                        expected_dir_name: None,
                        detail: underivable_detail(project),
                    },
                ),
            ]
        },
    }
}

/// What one directory of a container raises on its own.
pub open spec fn dir_findings(d: ContainerDir) -> Seq<CheckViolationView> {
    match d.marker {
        MarkerState::Absent => if all_nested_findings(d.children@).len() == 0 {
            seq![tree_finding(d.path@, WorkweaveTreeIntegrityKindView::UnregisteredDir)]
        } else {
            all_nested_findings(d.children@)
        },
        MarkerState::Gone => seq![
            tree_finding(d.path@, WorkweaveTreeIntegrityKindView::UnregisteredDir),
        ],
        MarkerState::Unreadable { detail } => match detail {
            Some(t) => seq![
                tree_finding(
                    d.path@,
                    WorkweaveTreeIntegrityKindView::UnreadableMarker { detail: t@ },
                ),
            ],
            None => Seq::empty(),
        },
        MarkerState::Read { marker } => if marker.names_this_workspace {
            dangling_findings(d.path@, marker) + name_findings(d, marker.project@)
        } else {
            seq![foreign_finding(d.path@, marker)]
        },
    }
}

/// A workweave's place in the chain of parents.
pub struct Link {
    pub canonical: Seq<char>,
    pub project: Seq<char>,
    pub parent: Seq<char>,
}

/// The link a directory forms: it has a marker of this workspace and its path
/// resolves.
pub open spec fn link_of(d: ContainerDir) -> Seq<Link> {
    match (d.marker, d.canonical) {
        (MarkerState::Read { marker }, Some(c)) => if marker.names_this_workspace {
            seq![
                Link {
                    canonical: c@,
                    project: marker.project@,
                    parent: marker.parent_resolved@,
                },
            ]
        } else {
            Seq::empty()
        },
        _ => Seq::empty(),
    }
}

/// The links the checked directories form.
pub open spec fn links_of(dirs: Seq<ContainerDir>, places: Seq<int>) -> Seq<Link> {
    places.flat_map(link_rule(dirs))
}

/// The link the directory at a place forms.
pub open spec fn link_rule(dirs: Seq<ContainerDir>) -> spec_fn(int) -> Seq<Link> {
    |i: int| link_of(dirs[i])
}

/// The link of the directory `path`.
pub open spec fn link_at(links: Seq<Link>, path: Seq<char>) -> Option<Link>
    decreases links.len(),
{
    if links.len() == 0 {
        None
    } else {
        match link_at(links.drop_last(), path) {
            Some(l) => Some(l),
            None => if links.last().canonical == path {
                Some(links.last())
            } else {
                None
            },
        }
    }
}

/// How many links stand outside `visited`.
pub open spec fn unvisited(links: Seq<Link>, visited: Set<Seq<char>>) -> nat
    decreases links.len(),
{
    if links.len() == 0 {
        0
    } else {
        unvisited(links.drop_last(), visited) + if visited.contains(links.last().canonical) {
            0nat
        } else {
            1nat
        }
    }
}

/// Visiting more leaves no more outside.
pub proof fn visiting_shrinks(links: Seq<Link>, visited: Set<Seq<char>>, path: Seq<char>)
    ensures
        unvisited(links, visited.insert(path)) <= unvisited(links, visited),
        link_at(links, path) is Some && !visited.contains(path) ==> unvisited(
            links,
            visited.insert(path),
        ) < unvisited(links, visited),
        link_at(links, path) is Some ==> link_at(links, path)->0.canonical == path,
    decreases links.len(),
{
    if links.len() > 0 {
        visiting_shrinks(links.drop_last(), visited, path);
    }
}

/// How a chain of parents that runs in a circle is described.
pub open spec fn cycle_detail(path: Seq<char>) -> Seq<char> {
    "marker `parent` chain contains a cycle through `"@ + path + "`"@
}

/// How a parent of another project is described.
pub open spec fn foreign_parent_detail(
    path: Seq<char>,
    parent_project: Seq<char>,
    project: Seq<char>,
) -> Seq<char> {
    "marker `parent` (`"@ + path + "`) belongs to project `"@ + parent_project
        + "` but this workweave is project `"@ + project + "`"@
}

/// What is wrong with the chain of parents from `current` on, where something
/// is: it comes back to where it has been before it reaches the workspace, or
/// it passes through a workweave of another project.
pub open spec fn chain_anomaly(
    links: Seq<Link>,
    workspace: Seq<char>,
    project: Seq<char>,
    visited: Set<Seq<char>>,
    current: Seq<char>,
) -> Option<Seq<char>>
    decreases unvisited(links, visited),
{
    if current == workspace {
        None
    } else if visited.contains(current) {
        Some(cycle_detail(current))
    } else {
        match link_at(links, current) {
            None => None,
            Some(l) => if l.project != project {
                Some(foreign_parent_detail(current, l.project, project))
            } else {
                proof {
                    visiting_shrinks(links, visited, current);
                }
                chain_anomaly(links, workspace, project, visited.insert(current), l.parent)
            },
        }
    }
}

/// What is wrong with the chain of parents that starts at a link.
pub open spec fn link_anomaly(links: Seq<Link>, workspace: Seq<char>, l: Link) -> Option<Seq<char>> {
    if l.parent == l.canonical {
        Some("marker `parent` points to the workweave itself (self-loop)"@)
    } else {
        chain_anomaly(links, workspace, l.project, set![l.canonical], l.parent)
    }
}

/// What the chain of parents of one directory raises.
pub open spec fn chain_findings(
    links: Seq<Link>,
    workspace: Seq<char>,
    d: ContainerDir,
) -> Seq<CheckViolationView> {
    let own = link_of(d);
    if own.len() == 0 {
        Seq::empty()
    } else {
        match link_anomaly(links, workspace, own[0]) {
            Some(detail) => seq![
                tree_finding(
                    d.path@,
                    WorkweaveTreeIntegrityKindView::ParentChainAnomaly { detail },
                ),
            ],
            None => Seq::empty(),
        }
    }
}

/// What each directory raises on its own.
pub open spec fn dir_rule(dirs: Seq<ContainerDir>) -> spec_fn(int) -> Seq<CheckViolationView> {
    |i: int| dir_findings(dirs[i])
}

/// What each directory's chain of parents raises.
pub open spec fn chain_rule(
    dirs: Seq<ContainerDir>,
    links: Seq<Link>,
    workspace: Seq<char>,
) -> spec_fn(int) -> Seq<CheckViolationView> {
    |i: int| chain_findings(links, workspace, dirs[i])
}

/// What the integrity scan raises.
pub open spec fn tree_findings(o: TreeObservation) -> Seq<CheckViolationView> {
    let places = checked_places(o.dirs@);
    let links = links_of(o.dirs@, places);
    reconciliation_findings(o.registries@, o.found@) + o.ledgers@.flat_map(
        |l: LedgerReading| ledger_findings(l),
    ) + places.flat_map(dir_rule(o.dirs@)) + places.flat_map(
        chain_rule(o.dirs@, links, o.workspace@),
    )
}

/// Whether `path` is a workweave of `project` whose parent is `parent`.
pub open spec fn leads_to(
    links: Seq<Link>,
    project: Seq<char>,
    path: Seq<char>,
    parent: Seq<char>,
) -> bool {
    link_at(links, path) matches Some(l) && l.project == project && l.parent == parent
}

/// A chain of parents that runs through workweaves of the same project,
/// without passing any place twice, to the workspace or out of the links
/// raises nothing.
pub proof fn sound_chain_raises_nothing(
    links: Seq<Link>,
    workspace: Seq<char>,
    project: Seq<char>,
    visited: Set<Seq<char>>,
    chain: Seq<Seq<char>>,
)
    requires
        chain.len() > 0,
        chain.no_duplicates(),
        forall|i: int| 0 <= i < chain.len() ==> !visited.contains(#[trigger] chain[i]),
        forall|i: int|
            0 <= i < chain.len() - 1 ==> #[trigger] chain[i] != workspace && leads_to(
                links,
                project,
                chain[i],
                chain[i + 1],
            ),
        chain.last() == workspace || link_at(links, chain.last()) is None,
    ensures
        chain_anomaly(links, workspace, project, visited, chain[0]) is None,
    decreases chain.len(),
{
    if chain.len() > 1 {
        let rest = chain.drop_first();
        assert(chain[0] != workspace);
        assert forall|i: int| 0 <= i < rest.len() implies !visited.insert(chain[0]).contains(
            #[trigger] rest[i],
        ) by {
            assert(rest[i] == chain[i + 1]);
        }
        assert forall|i: int| 0 <= i < rest.len() - 1 implies #[trigger] rest[i] != workspace
            && leads_to(links, project, rest[i], rest[i + 1]) by {
            assert(rest[i] == chain[i + 1]);
        }
        assert(rest.last() == chain.last());
        sound_chain_raises_nothing(links, workspace, project, visited.insert(chain[0]), rest);
        assert(rest[0] == chain[1]);
        visiting_shrinks(links, visited, chain[0]);
    }
}

/// A workweave that is its own parent raises a self-loop, whatever else there
/// is.
pub proof fn self_parent_is_reported(links: Seq<Link>, workspace: Seq<char>, l: Link)
    requires
        l.parent == l.canonical,
    ensures
        link_anomaly(links, workspace, l) is Some,
{
}

/// Two workweaves of a project that name each other as parent are both
/// reported.
pub proof fn mutual_parents_are_reported(
    links: Seq<Link>,
    workspace: Seq<char>,
    a: Link,
    b: Link,
)
    requires
        a.canonical != b.canonical,
        a.parent == b.canonical,
        b.parent == a.canonical,
        a.project == b.project,
        link_at(links, b.canonical) == Some(b),
        a.canonical != workspace,
        b.canonical != workspace,
    ensures
        link_anomaly(links, workspace, a) == Some(cycle_detail(a.canonical)),
{
    let visited = set![a.canonical];
    visiting_shrinks(links, visited, b.canonical);
    assert(chain_anomaly(links, workspace, a.project, visited.insert(b.canonical), a.canonical)
        == Some(cycle_detail(a.canonical)));
    assert(chain_anomaly(links, workspace, a.project, visited, b.canonical) == chain_anomaly(
        links,
        workspace,
        a.project,
        visited.insert(b.canonical),
        b.parent,
    ));
}

/// The path a directory is told apart by.
fn identity_of(d: &ContainerDir) -> (path: PathText)
    ensures
        path@ == dir_identity(*d),
{
    match &d.canonical {
        Some(c) => c.clone(),
        None => d.path.clone(),
    }
}

/// The places of the directories to check, in order.
fn places_to_check(dirs: &Vec<ContainerDir>) -> (places: Vec<usize>)
    ensures
        places@.map_values(|i: usize| i as int) == checked_places(dirs@),
        forall|k: int| 0 <= k < places@.len() ==> (#[trigger] places@[k]) < dirs@.len(),
{
    let ghost all = indices(dirs@.len());
    let ghost is_first = |i: int| first_listed(dirs@, i);
    let mut fresh: Vec<usize> = Vec::new();
    let mut keys: Vec<Vec<char>> = Vec::new();
    let mut seen: Vec<String> = Vec::new();
    let mut i: usize = 0;
    assert(fresh@.map_values(|k: usize| k as int) =~= all.take(0).filter(is_first)) by {
        reveal(Seq::filter);
    }
    while i < dirs.len()
        invariant
            0 <= i <= dirs.len(),
            all == indices(dirs@.len()),
            is_first == (|i: int| first_listed(dirs@, i)),
            fresh@.map_values(|k: usize| k as int) == all.take(i as int).filter(is_first),
            keys@.len() == fresh@.len(),
            forall|k: int|
                0 <= k < fresh@.len() ==> (#[trigger] fresh@[k]) < dirs@.len() && keys@[k]@
                    == path_key(dirs@[fresh@[k] as int].path@),
            forall|c: Seq<char>|
                #[trigger] seen.deep_view().contains(c) <==> exists|j: int|
                    0 <= j < i && dir_identity(#[trigger] dirs@[j]) == c,
        decreases dirs.len() - i,
    {
        let identity: PathText = identity_of(&dirs[i]);
        let ghost before = seen.deep_view();
        let ghost prior = fresh@;
        let new: bool = note(&mut seen, &identity);
        proof {
            assert(new == first_listed(dirs@, i as int));
            assert(all.take(i as int + 1) =~= all.take(i as int).push(i as int));
            all.take(i as int).lemma_filter_push(i as int, is_first);
        }
        if new {
            fresh.push(i);
            keys.push(key_of_path(&dirs[i].path));
        }
        proof {
            if new {
                assert(fresh@.map_values(|k: usize| k as int) =~= prior.map_values(
                    |k: usize| k as int,
                ).push(i as int));
            }
            assert forall|c: Seq<char>|
                #[trigger] seen.deep_view().contains(c) <==> exists|j: int|
                    0 <= j < i + 1 && dir_identity(#[trigger] dirs@[j]) == c by {
                if seen.deep_view().contains(c) {
                    if !before.contains(c) {
                        assert(dir_identity(dirs@[i as int]) == c);
                    }
                }
                if exists|j: int| 0 <= j < i + 1 && dir_identity(#[trigger] dirs@[j]) == c {
                    let j = choose|j: int| 0 <= j < i + 1 && dir_identity(#[trigger] dirs@[j]) == c;
                    if j < i {
                        assert(before.contains(c));
                    }
                    if before.contains(c) {
                        let x = choose|x: int| 0 <= x < before.len() && before[x] == c;
                        assert(seen.deep_view()[x] == c);
                    } else {
                        assert(seen.deep_view()[before.len() as int] == c);
                    }
                }
            }
        }
        i = i + 1;
    }
    proof {
        assert(all.take(i as int) =~= all);
        assert(keys.deep_view() =~= fresh_places(dirs@).map_values(
            |i: int| path_key(dirs@[i].path@),
        )) by {
            assert forall|k: int| 0 <= k < keys@.len() implies keys.deep_view()[k] == path_key(
                dirs@[fresh_places(dirs@)[k]].path@,
            ) by {
                assert(fresh_places(dirs@)[k] == fresh@[k] as int);
                assert(keys.deep_view()[k] =~= keys@[k]@);
            }
        }
    }
    let order: Vec<usize> = sort_order(&keys);
    let mut places: Vec<usize> = Vec::new();
    let mut k: usize = 0;
    while k < order.len()
        invariant
            0 <= k <= order.len(),
            places@.len() == k,
            forall|m: int| 0 <= m < order@.len() ==> (#[trigger] order@[m]) < fresh@.len(),
            forall|m: int| 0 <= m < fresh@.len() ==> (#[trigger] fresh@[m]) < dirs@.len(),
            forall|m: int|
                0 <= m < k ==> #[trigger] places@[m] == fresh@[order@[m] as int] && places@[m]
                    < dirs@.len(),
        decreases order.len() - k,
    {
        places.push(fresh[order[k]]);
        k = k + 1;
    }
    proof {
        let fp = fresh_places(dirs@);
        let ks = fp.map_values(|i: int| path_key(dirs@[i].path@));
        assert(order_of(ks) == order@.map_values(|i: usize| i as int));
        assert(places@.map_values(|i: usize| i as int) =~= arranged(fp, ks)) by {
            assert forall|m: int| 0 <= m < places@.len() implies places@.map_values(
                |i: usize| i as int,
            )[m] == arranged(fp, ks)[m] by {
                assert(order_of(ks)[m] == order@[m] as int);
                assert(fp[order@[m] as int] == fresh@[order@[m] as int] as int);
            }
        }
    }
    places
}

/// Reports the workweaves below a markerless directory.
pub fn nested_workweave_findings(children: &Vec<NestedDir>) -> (violations: Vec<CheckViolation>)
    ensures
        violations.deep_view() == all_nested_findings(children@),
{
    let mut violations: Vec<CheckViolation> = Vec::new();
    let ghost f = |c: NestedDir| nested_findings(c);
    let mut i: usize = 0;
    assert(violations.deep_view() =~= children@.take(0).flat_map(f));
    while i < children.len()
        invariant
            0 <= i <= children.len(),
            f == (|c: NestedDir| nested_findings(c)),
            violations.deep_view() == children@.take(i as int).flat_map(f),
        decreases children.len() - i,
    {
        let ghost prior = violations.deep_view();
        let child: &NestedDir = &children[i];
        if let Some(project) = &child.project {
            let named: &Option<NamedDir> = if child.recorded.is_some() {
                &child.recorded
            } else {
                &child.derived
            };
            if let Some(n) = named {
                violations.push(
                    CheckViolation::WorkweaveTreeIntegrity {
                        workweave_dir: child.path.clone(),
                        sub_kind: WorkweaveTreeIntegrityKind::NestedWorkweaveDir {
                            project: project.clone(),
                            workweave_name: n.name.clone(),
                            expected_dir_name: n.dir_name.clone(),
                        },
                    },
                );
            }
        }
        proof {
            children@.lemma_flat_map_take_append(f, i as int);
            assert(violations.deep_view() =~= prior + nested_findings(children@[i as int]));
        }
        i = i + 1;
    }
    assert(children@.take(i as int) =~= children@);
    violations
}

/// Adds a workweave-tree finding.
fn push_tree(violations: &mut Vec<CheckViolation>, dir: &PathText, kind: WorkweaveTreeIntegrityKind)
    ensures
        final(violations).deep_view() == old(violations).deep_view().push(
            tree_finding(dir@, kind.deep_view()),
        ),
{
    let ghost before = violations.deep_view();
    violations.push(
        CheckViolation::WorkweaveTreeIntegrity { workweave_dir: dir.clone(), sub_kind: kind },
    );
    assert(violations.deep_view() =~= before.push(tree_finding(dir@, kind.deep_view())));
}

/// Adds what a directory's name raises.
fn push_name(violations: &mut Vec<CheckViolation>, d: &ContainerDir, project: &String)
    ensures
        final(violations).deep_view() == old(violations).deep_view() + name_findings(*d, project@),
{
    let ghost before = violations.deep_view();
    if let Some(basename) = &d.basename {
        match &d.recorded {
            Some(n) => {
                if *basename != n.dir_name {
                    let detail: String = "the marker records project `".to_owned()
                        .concat(project)
                        .concat("` and the name the registry records for this path is `")
                        .concat(&n.name)
                        .concat("`, so the records expect `")
                        .concat(&n.dir_name)
                        .concat("`");
                    push_tree(
                        violations,
                        &d.path,
                        WorkweaveTreeIntegrityKind::MisnamedDir {
                            expected_dir_name: Some(n.dir_name.clone()),
                            detail,
                        },
                    );
                }
            },
            None => {
                if !d.rendered {
                    let detail: String = "the basename is not a directory name project `".to_owned()
                        .concat(project)
                        .concat(
                            "` renders for any workweave name, and no registry entry of project `",
                        )
                        .concat(project)
                        .concat("` names this path, so the intended name is not derivable");
                    push_tree(
                        violations,
                        &d.path,
                        WorkweaveTreeIntegrityKind::MisnamedDir { expected_dir_name: None, detail },
                    );
                }
            },
        }
    }
    assert(violations.deep_view() =~= before + name_findings(*d, project@));
}

/// Adds what one directory raises on its own.
fn push_dir(violations: &mut Vec<CheckViolation>, d: &ContainerDir)
    ensures
        final(violations).deep_view() == old(violations).deep_view() + dir_findings(*d),
{
    let ghost before = violations.deep_view();
    match &d.marker {
        MarkerState::Absent => {
            let mut nested: Vec<CheckViolation> = nested_workweave_findings(&d.children);
            let ghost found = nested.deep_view();
            let ghost prior = violations@;
            let ghost moved = nested@;
            if nested.len() == 0 {
                push_tree(violations, &d.path, WorkweaveTreeIntegrityKind::UnregisteredDir);
            } else {
                violations.append(&mut nested);
                assert(violations@ == prior + moved);
                assert(violations.deep_view() =~= before + found);
            }
        },
        MarkerState::Gone => {
            push_tree(violations, &d.path, WorkweaveTreeIntegrityKind::UnregisteredDir);
        },
        MarkerState::Unreadable { detail } => {
            if let Some(t) = detail {
                push_tree(
                    violations,
                    &d.path,
                    WorkweaveTreeIntegrityKind::UnreadableMarker { detail: t.clone() },
                );
            }
        },
        MarkerState::Read { marker } => {
            if marker.names_this_workspace {
                if !marker.parent_exists {
                    push_tree(
                        violations,
                        &d.path,
                        WorkweaveTreeIntegrityKind::DanglingParent {
                            parent_path: marker.parent.clone(),
                        },
                    );
                }
                assert(violations.deep_view() =~= before + dangling_findings(d.path@, *marker));
                push_name(violations, d, &marker.project);
            } else if marker.primary_is_workspace {
                push_tree(
                    violations,
                    &d.path,
                    WorkweaveTreeIntegrityKind::ForeignPrimaryOtherWorkspace {
                        marker_primary: marker.primary_resolved.clone(),
                    },
                );
            } else {
                push_tree(
                    violations,
                    &d.path,
                    WorkweaveTreeIntegrityKind::ForeignPrimary {
                        marker_primary: marker.primary.clone(),
                    },
                );
            }
        },
    }
    assert(violations.deep_view() =~= before + dir_findings(*d));
}

/// A link as the scan holds it.
struct LinkEntry {
    canonical: PathText,
    project: ProjectName,
    parent: PathText,
}

impl LinkEntry {
    spec fn model(self) -> Link {
        Link { canonical: self.canonical@, project: self.project@, parent: self.parent@ }
    }
}

spec fn models(links: Seq<LinkEntry>) -> Seq<Link> {
    links.map_values(|l: LinkEntry| l.model())
}

/// The link a directory forms.
fn make_link(d: &ContainerDir) -> (link: Option<LinkEntry>)
    ensures
        match link {
            Some(l) => link_of(*d) == seq![l.model()],
            None => link_of(*d).len() == 0,
        },
{
    match (&d.marker, &d.canonical) {
        (MarkerState::Read { marker }, Some(c)) => {
            if marker.names_this_workspace {
                Some(
                    LinkEntry {
                        canonical: c.clone(),
                        project: marker.project.clone(),
                        parent: marker.parent_resolved.clone(),
                    },
                )
            } else {
                None
            }
        },
        _ => None,
    }
}

/// The links the checked directories form.
fn make_links(dirs: &Vec<ContainerDir>, places: &Vec<usize>) -> (links: Vec<LinkEntry>)
    requires
        forall|k: int| 0 <= k < places@.len() ==> (#[trigger] places@[k]) < dirs@.len(),
    ensures
        models(links@) == links_of(dirs@, places@.map_values(|i: usize| i as int)),
{
    let mut links: Vec<LinkEntry> = Vec::new();
    let ghost at = places@.map_values(|i: usize| i as int);
    let ghost f = link_rule(dirs@);
    let mut k: usize = 0;
    assert(models(links@) =~= at.take(0).flat_map(f));
    while k < places.len()
        invariant
            0 <= k <= places.len(),
            at == places@.map_values(|i: usize| i as int),
            f == link_rule(dirs@),
            forall|m: int| 0 <= m < places@.len() ==> (#[trigger] places@[m]) < dirs@.len(),
            models(links@) == at.take(k as int).flat_map(f),
        decreases places.len() - k,
    {
        let ghost prior = models(links@);
        let link: Option<LinkEntry> = make_link(&dirs[places[k]]);
        if let Some(l) = link {
            links.push(l);
        }
        proof {
            at.lemma_flat_map_take_append(f, k as int);
            assert(at[k as int] == places@[k as int] as int);
            assert(models(links@) =~= prior + f(at[k as int]));
        }
        k = k + 1;
    }
    assert(at.take(k as int) =~= at);
    links
}

/// The link of the directory `path`.
fn find_link<'a>(links: &'a Vec<LinkEntry>, path: &PathText) -> (link: Option<&'a LinkEntry>)
    ensures
        match link {
            Some(l) => link_at(models(links@), path@) == Some(l.model()),
            None => link_at(models(links@), path@) is None,
        },
{
    let ghost all = models(links@);
    let mut i: usize = 0;
    while i < links.len()
        invariant
            0 <= i <= links.len(),
            all == models(links@),
            link_at(all.take(i as int), path@) is None,
        decreases links.len() - i,
    {
        proof {
            assert(all.take(i as int + 1).drop_last() =~= all.take(i as int));
            assert(all.take(i as int + 1).last() == links@[i as int].model());
        }
        if links[i].canonical == *path {
            proof {
                link_stays(all, i as int + 1, path@);
            }
            return Some(&links[i]);
        }
        i = i + 1;
    }
    assert(all.take(i as int) =~= all);
    None
}

proof fn link_stays(links: Seq<Link>, n: int, path: Seq<char>)
    requires
        0 <= n <= links.len(),
        link_at(links.take(n), path) is Some,
    ensures
        link_at(links, path) == link_at(links.take(n), path),
    decreases links.len(),
{
    if n == links.len() {
        assert(links.take(n) =~= links);
    } else {
        assert(links.drop_last().take(n) =~= links.take(n));
        link_stays(links.drop_last(), n, path);
    }
}

/// Follows the chain of parents of one link.
fn walk_chain(links: &Vec<LinkEntry>, workspace: &PathText, own: &LinkEntry) -> (detail: Option<
    String,
>)
    ensures
        detail.deep_view() == link_anomaly(models(links@), workspace@, own.model()),
{
    if own.parent == own.canonical {
        return Some("marker `parent` points to the workweave itself (self-loop)".to_owned());
    }
    let ghost all = models(links@);
    let mut visited: Vec<String> = Vec::new();
    visited.push(own.canonical.clone());
    let mut current: PathText = own.parent.clone();
    assert(visited.deep_view().to_set() =~= set![own.canonical@]) by {
        assert(visited.deep_view()[0] == own.canonical@);
    }
    loop
        invariant
            all == models(links@),
            link_anomaly(all, workspace@, own.model()) == chain_anomaly(
                all,
                workspace@,
                own.project@,
                visited.deep_view().to_set(),
                current@,
            ),
        decreases unvisited(all, visited.deep_view().to_set()),
    {
        if current == *workspace {
            return None;
        }
        let ghost before = visited.deep_view();
        if !note(&mut visited, &current) {
            assert(before.to_set().contains(current@));
            return Some(
                "marker `parent` chain contains a cycle through `".to_owned()
                    .concat(&current)
                    .concat("`"),
            );
        }
        assert(!before.to_set().contains(current@));
        match find_link(links, &current) {
            None => {
                return None;
            },
            Some(l) => {
                if l.project != own.project {
                    return Some(
                        "marker `parent` (`".to_owned()
                            .concat(&current)
                            .concat("`) belongs to project `")
                            .concat(&l.project)
                            .concat("` but this workweave is project `")
                            .concat(&own.project)
                            .concat("`"),
                    );
                }
                proof {
                    visiting_shrinks(all, before.to_set(), current@);
                    assert(visited.deep_view().to_set() =~= before.to_set().insert(current@)) by {
                        assert(visited.deep_view()[before.len() as int] == current@);
                        assert forall|t: Seq<char>|
                            visited.deep_view().contains(t) == (before.contains(t) || t
                                == current@) by {
                            if before.contains(t) {
                                let x = choose|x: int| 0 <= x < before.len() && before[x] == t;
                                assert(visited.deep_view()[x] == t);
                            }
                        }
                    }
                }
                current = l.parent.clone();
            },
        }
    }
}

/// Checks every workweave directory: its registry entry, its marker, its name
/// and the chain of parents its marker starts.
pub fn scan_workweave_tree_integrity(observation: &TreeObservation) -> (violations: Vec<
    CheckViolation,
>)
    ensures
        violations.deep_view() == tree_findings(*observation),
{
    let ghost o = *observation;
    let ghost dirs = observation.dirs@;
    let ghost places_model = checked_places(dirs);
    let ghost links_model = links_of(dirs, places_model);
    let mut violations: Vec<CheckViolation> = scan_registry_reconciliation(
        &observation.registries,
        &observation.found,
    );
    let mut unreadable: Vec<CheckViolation> = scan_unreadable_owned_state(&observation.ledgers);
    let ghost first = violations.deep_view();
    let ghost second = unreadable.deep_view();
    violations.append(&mut unreadable);
    assert(violations.deep_view() =~= first + second);
    let places: Vec<usize> = places_to_check(&observation.dirs);
    let ghost fd = dir_rule(dirs);
    let mut i: usize = 0;
    assert(violations.deep_view() =~= first + second + places_model.take(0).flat_map(fd));
    while i < places.len()
        invariant
            0 <= i <= places.len(),
            dirs == observation.dirs@,
            places@.map_values(|k: usize| k as int) == places_model,
            forall|k: int| 0 <= k < places@.len() ==> (#[trigger] places@[k]) < dirs.len(),
            fd == dir_rule(dirs),
            violations.deep_view() == first + second + places_model.take(i as int).flat_map(fd),
        decreases places.len() - i,
    {
        push_dir(&mut violations, &observation.dirs[places[i]]);
        proof {
            places_model.lemma_flat_map_take_append(fd, i as int);
            assert(places_model[i as int] == places@[i as int] as int);
            assert(violations.deep_view() =~= first + second + places_model.take(
                i as int + 1,
            ).flat_map(fd));
        }
        i = i + 1;
    }
    assert(places_model.take(i as int) =~= places_model);
    let ghost third = violations.deep_view();
    let links: Vec<LinkEntry> = make_links(&observation.dirs, &places);
    let ghost fc = chain_rule(dirs, links_model, observation.workspace@);
    let mut j: usize = 0;
    assert(violations.deep_view() =~= third + places_model.take(0).flat_map(fc));
    while j < places.len()
        invariant
            0 <= j <= places.len(),
            dirs == observation.dirs@,
            places@.map_values(|k: usize| k as int) == places_model,
            forall|k: int| 0 <= k < places@.len() ==> (#[trigger] places@[k]) < dirs.len(),
            models(links@) == links_model,
            fc == chain_rule(dirs, links_model, observation.workspace@),
            violations.deep_view() == third + places_model.take(j as int).flat_map(fc),
        decreases places.len() - j,
    {
        let ghost prior = violations.deep_view();
        let d: &ContainerDir = &observation.dirs[places[j]];
        if let Some(own) = make_link(d) {
            if let Some(detail) = walk_chain(&links, &observation.workspace, &own) {
                push_tree(
                    &mut violations,
                    &d.path,
                    WorkweaveTreeIntegrityKind::ParentChainAnomaly { detail },
                );
            }
        }
        proof {
            places_model.lemma_flat_map_take_append(fc, j as int);
            assert(places_model[j as int] == places@[j as int] as int);
            assert(violations.deep_view() =~= prior + fc(places_model[j as int]));
            assert(violations.deep_view() =~= third + places_model.take(j as int + 1).flat_map(fc));
        }
        j = j + 1;
    }
    assert(places_model.take(j as int) =~= places_model);
    assert(violations.deep_view() =~= tree_findings(o));
    violations
}

/// Every directory of the containers is checked once, where it is listed first.
pub proof fn directories_are_checked_once(dirs: Seq<ContainerDir>, i: int)
    ensures
        checked_places(dirs).contains(i) <==> 0 <= i < dirs.len() && forall|j: int|
            0 <= j < i ==> dir_identity(#[trigger] dirs[j]) != dir_identity(dirs[i]),
{
    let all = indices(dirs.len());
    let keep = |i: int| first_listed(dirs, i);
    let fresh = fresh_places(dirs);
    arranging_keeps_everything(fresh, fresh.map_values(|i: int| path_key(dirs[i].path@)), i);
    filtered_contains(all, keep, i);
    if 0 <= i < dirs.len() {
        assert(all[i] == i);
        assert(all.contains(i));
    }
    if all.contains(i) {
        let k = choose|k: int| 0 <= k < all.len() && all[k] == i;
        assert(all[k] == k);
    }
}

/// The scan reports what the registries, the ledgers, the directories and their
/// chains of parents raise, and nothing else.
pub proof fn tree_scan_covers_everything(o: TreeObservation, v: CheckViolationView)
    ensures
        tree_findings(o).contains(v) <==> {
            ||| reconciliation_findings(o.registries@, o.found@).contains(v)
            ||| exists|i: int|
                0 <= i < o.ledgers@.len() && ledger_findings(#[trigger] o.ledgers@[i]).contains(v)
            ||| exists|i: int|
                #![trigger o.dirs@[i]]
                checked_places(o.dirs@).contains(i) && dir_findings(o.dirs@[i]).contains(v)
            ||| exists|i: int|
                #![trigger o.dirs@[i]]
                checked_places(o.dirs@).contains(i) && chain_findings(
                    links_of(o.dirs@, checked_places(o.dirs@)),
                    o.workspace@,
                    o.dirs@[i],
                ).contains(v)
        },
{
    let places = checked_places(o.dirs@);
    let links = links_of(o.dirs@, places);
    let f = |l: LedgerReading| ledger_findings(l);
    let g = dir_rule(o.dirs@);
    let h = chain_rule(o.dirs@, links, o.workspace@);
    let a = reconciliation_findings(o.registries@, o.found@);
    let b = o.ledgers@.flat_map(f);
    let c = places.flat_map(g);
    let d = places.flat_map(h);
    joined_lists_contain(a, b, v);
    joined_lists_contain(a + b, c, v);
    joined_lists_contain(a + b + c, d, v);
    flat_map_contains(o.ledgers@, f, v);
    flat_map_contains(places, g, v);
    flat_map_contains(places, h, v);
    if b.contains(v) {
        let i = choose|i: int| 0 <= i < o.ledgers@.len() && (#[trigger] f(o.ledgers@[i])).contains(v);
        assert(ledger_findings(o.ledgers@[i]).contains(v));
    }
    if c.contains(v) {
        let k = choose|k: int| 0 <= k < places.len() && (#[trigger] g(places[k])).contains(v);
        assert(places.contains(places[k]));
        assert(dir_findings(o.dirs@[places[k]]).contains(v));
    }
    if d.contains(v) {
        let k = choose|k: int| 0 <= k < places.len() && (#[trigger] h(places[k])).contains(v);
        assert(places.contains(places[k]));
        assert(chain_findings(links, o.workspace@, o.dirs@[places[k]]).contains(v));
    }
    assert forall|i: int|
        0 <= i < o.ledgers@.len() && ledger_findings(#[trigger] o.ledgers@[i]).contains(v) implies
        b.contains(v) by {
        assert(f(o.ledgers@[i]).contains(v));
    }
    assert forall|i: int|
        #![trigger o.dirs@[i]]
        places.contains(i) && dir_findings(o.dirs@[i]).contains(v) implies c.contains(v) by {
        let k = choose|k: int| 0 <= k < places.len() && places[k] == i;
        assert(g(places[k]).contains(v));
    }
    assert forall|i: int|
        #![trigger o.dirs@[i]]
        places.contains(i) && chain_findings(links, o.workspace@, o.dirs@[i]).contains(v) implies
        d.contains(v) by {
        let k = choose|k: int| 0 <= k < places.len() && places[k] == i;
        assert(h(places[k]).contains(v));
    }
}

/// What a directory raises follows from its marker. Without one it is
/// unregistered, unless workweaves are nested in it; an unreadable one is told
/// where no migration will help; one of another workspace is foreign; and one
/// of this workspace is held to its parent and its name.
pub proof fn markers_decide_what_is_told(d: ContainerDir, v: CheckViolationView)
    requires
        dir_findings(d).contains(v),
    ensures
        v matches CheckViolationView::WorkweaveTreeIntegrity { workweave_dir, sub_kind } && {
            &&& !(sub_kind is NestedWorkweaveDir) ==> workweave_dir == d.path@
            &&& sub_kind is UnregisteredDir ==> d.marker is Absent || d.marker is Gone
            &&& sub_kind is NestedWorkweaveDir ==> d.marker is Absent && exists|i: int|
                0 <= i < d.children@.len() && nested_findings(#[trigger] d.children@[i]).contains(v)
            &&& sub_kind matches WorkweaveTreeIntegrityKindView::UnreadableMarker { detail } ==> (
            d.marker matches MarkerState::Unreadable { detail: Some(t) } && t@ == detail)
            &&& sub_kind matches WorkweaveTreeIntegrityKindView::ForeignPrimary { marker_primary }
                ==> (d.marker matches MarkerState::Read { marker } && !marker.names_this_workspace
                && !marker.primary_is_workspace && marker.primary@ == marker_primary)
            &&& sub_kind matches WorkweaveTreeIntegrityKindView::ForeignPrimaryOtherWorkspace {
                marker_primary,
            } ==> (d.marker matches MarkerState::Read { marker } && !marker.names_this_workspace
                && marker.primary_is_workspace && marker.primary_resolved@ == marker_primary)
            &&& sub_kind matches WorkweaveTreeIntegrityKindView::DanglingParent { parent_path } ==> (
            d.marker matches MarkerState::Read { marker } && marker.names_this_workspace
                && !marker.parent_exists && marker.parent@ == parent_path)
            &&& sub_kind matches WorkweaveTreeIntegrityKindView::MisnamedDir {
                expected_dir_name,
                ..
            } ==> d.marker is Read && d.basename is Some && match d.recorded {
                Some(n) => expected_dir_name == Some(n.dir_name@) && n.dir_name@
                    != d.basename->0@,
                None => expected_dir_name is None && !d.rendered,
            }
            &&& !(sub_kind is ParentChainAnomaly) && !(sub_kind is StaleRegistryEntry) && !(sub_kind
                is UnregisteredWorkweave) && !(sub_kind is TrackedIndex)
        },
{
    if let MarkerState::Read { marker } = d.marker {
        joined_lists_contain(
            dangling_findings(d.path@, marker),
            name_findings(d, marker.project@),
            v,
        );
    }
    if all_nested_findings(d.children@).contains(v) {
        let f = |c: NestedDir| nested_findings(c);
        flat_map_contains(d.children@, f, v);
        let i = choose|i: int|
            0 <= i < d.children@.len() && (#[trigger] f(d.children@[i])).contains(v);
        assert(nested_findings(d.children@[i]).contains(v));
    }
}

/// Nothing is passed over: a directory without a marker, with a foreign one, or
/// with a parent that is gone or a name it should not have raises a finding.
pub proof fn defective_directories_are_told(d: ContainerDir)
    ensures
        d.marker is Absent || d.marker is Gone ==> dir_findings(d).len() > 0,
        d.marker matches MarkerState::Unreadable { detail } ==> (dir_findings(d).len() > 0
            <==> detail is Some),
        d.marker matches MarkerState::Read { marker } ==> {
            &&& !marker.names_this_workspace ==> dir_findings(d).len() == 1
            &&& marker.names_this_workspace ==> dir_findings(d).len() == (if marker.parent_exists {
                0int
            } else {
                1
            }) + (if d.basename is Some && match d.recorded {
                Some(n) => n.dir_name@ != d.basename->0@,
                None => !d.rendered,
            } {
                1int
            } else {
                0
            })
        },
{
}

/// A directory nested in another is told under its own path, by the name the
/// registry records, or else the one its basename renders.
pub proof fn nested_directories_are_named(c: NestedDir, v: CheckViolationView)
    ensures
        nested_findings(c).contains(v) <==> (c.project matches Some(project) && {
            ||| c.recorded matches Some(n) && v == nested_as(c, project@, n)
            ||| c.recorded is None && (c.derived matches Some(n) && v == nested_as(c, project@, n))
        }),
{
    if nested_findings(c).len() > 0 {
        single_contains(nested_findings(c)[0], v);
        assert(nested_findings(c) =~= seq![nested_findings(c)[0]]);
    }
}

/// What is told of a nested directory of this name.
pub open spec fn nested_as(c: NestedDir, project: Seq<char>, n: NamedDir) -> CheckViolationView {
    CheckViolationView::WorkweaveTreeIntegrity {
        workweave_dir: c.path@,
        sub_kind: WorkweaveTreeIntegrityKindView::NestedWorkweaveDir {
            project,
            workweave_name: n.name@,
            expected_dir_name: n.dir_name@,
        },
    }
}

/// A parent of another project is an anomaly.
pub proof fn foreign_parents_are_told(links: Seq<Link>, workspace: Seq<char>, l: Link, parent: Link)
    requires
        l.parent != l.canonical,
        l.parent != workspace,
        link_at(links, l.parent) == Some(parent),
        parent.project != l.project,
    ensures
        link_anomaly(links, workspace, l) == Some(
            foreign_parent_detail(l.parent, parent.project, l.project),
        ),
{
}

/// A workweave that hangs off the workspace itself, or off a directory that is
/// no workweave, has a sound chain.
pub proof fn direct_children_are_sound(links: Seq<Link>, workspace: Seq<char>, l: Link)
    requires
        l.parent != l.canonical,
        l.parent == workspace || link_at(links, l.parent) is None,
    ensures
        link_anomaly(links, workspace, l) is None,
{
}

/// The link at a path is the first that stands there.
pub proof fn links_are_found(links: Seq<Link>, path: Seq<char>)
    ensures
        match link_at(links, path) {
            None => forall|i: int| 0 <= i < links.len() ==> (#[trigger] links[i]).canonical != path,
            Some(l) => exists|i: int|
                #![trigger links[i]]
                0 <= i < links.len() && links[i] == l && l.canonical == path && forall|j: int|
                    0 <= j < i ==> (#[trigger] links[j]).canonical != path,
        },
    decreases links.len(),
{
    if links.len() > 0 {
        let init = links.drop_last();
        let n = links.len() - 1;
        links_are_found(init, path);
        assert forall|j: int| 0 <= j < n implies #[trigger] links[j] == init[j] by {}
        match link_at(init, path) {
            Some(l) => {
                let i = choose|i: int|
                    #![trigger init[i]]
                    0 <= i < init.len() && init[i] == l && l.canonical == path && forall|j: int|
                        0 <= j < i ==> (#[trigger] init[j]).canonical != path;
                assert(links[i] == l);
                assert forall|j: int| 0 <= j < i implies (#[trigger] links[j]).canonical
                    != path by {
                    assert(init[j].canonical != path);
                }
            },
            None => {
                assert forall|j: int| 0 <= j < n implies (#[trigger] links[j]).canonical
                    != path by {
                    assert(init[j].canonical != path);
                }
                assert(links[n] == links.last());
            },
        }
    }
}

/// A directory forms a link where its marker is of this workspace and its path
/// resolves: from itself to the parent its marker names.
pub proof fn markers_form_links(d: ContainerDir)
    ensures
        link_of(d).len() <= 1,
        link_of(d).len() == 1 <==> d.canonical is Some && (d.marker matches MarkerState::Read {
            marker,
        } && marker.names_this_workspace),
        link_of(d).len() == 1 ==> (d.marker matches MarkerState::Read { marker } && link_of(d)[0]
            == (Link {
            canonical: d.canonical->0@,
            project: marker.project@,
            parent: marker.parent_resolved@,
        })),
{
}

/// An anomaly of its chain is told of the directory it starts at.
pub proof fn chain_anomalies_are_told(
    links: Seq<Link>,
    workspace: Seq<char>,
    d: ContainerDir,
    v: CheckViolationView,
)
    ensures
        chain_findings(links, workspace, d).contains(v) <==> link_of(d).len() == 1 && (link_anomaly(
            links,
            workspace,
            link_of(d)[0],
        ) matches Some(detail) && v == (CheckViolationView::WorkweaveTreeIntegrity {
            workweave_dir: d.path@,
            sub_kind: WorkweaveTreeIntegrityKindView::ParentChainAnomaly { detail },
        })),
{
    let all = chain_findings(links, workspace, d);
    if all.len() > 0 {
        single_contains(all[0], v);
        assert(all =~= seq![all[0]]);
    }
}

/// A defect of a directory is told with the records that disagree.
pub proof fn messages_name_their_subjects(
    project: Seq<char>,
    n: NamedDir,
    path: Seq<char>,
    parent_project: Seq<char>,
)
    ensures
        tells(misnamed_detail(project, n), seq![project].push(n.name@).push(n.dir_name@)),
        tells(underivable_detail(project), seq![project].push(project)),
        tells(cycle_detail(path), seq![path]),
        tells(
            foreign_parent_detail(path, parent_project, project),
            seq![path].push(parent_project).push(project),
        ),
{
    broadcast use telling;
}

} // verus!
