//! Directories that claim to be both a primary weave and a workweave.

use vstd::prelude::*;
use crate::lists::{filtered_contains, mapped_contains};
use crate::order::{
    arranged, arranging_keeps_everything, key_of_path, note, order_of, path_key, sort_order,
};
use crate::registry::indices;
use crate::text::{tells, telling};
use crate::violation::{
    CheckViolation, MarkerDefect, PathText, ProjectName, WeaveRootIdentityConflictKind,
};
use crate::violation_view::{CheckViolationView, WeaveRootIdentityConflictKindView};

verus! {

/// The active-project pointer of a directory.
#[derive(Debug)]
pub enum ActivePointer {
    Absent,
    Present { project: Option<ProjectName> },
}

/// A workweave of a registry, with its directory's resolved path.
#[derive(Debug)]
pub struct RecordedDir {
    pub name: String,
    pub canonical: PathText,
}

/// A readable marker that stands beside a pointer.
#[derive(Debug)]
pub struct DisputedMarker {
    pub project: ProjectName,
    pub primary: PathText,
    /// Whether the marker names the workspace being scanned.
    pub names_primary: bool,
    /// What the registry of the marker's project records; empty where it
    /// cannot be read.
    pub registry: Vec<RecordedDir>,
}

/// What a directory carries.
#[derive(Debug)]
pub enum RootObservation {
    /// At most one of the two files, or neither with anything to say.
    Settled,
    MarkerUnverifiable { marker_path: PathText, defect: MarkerDefect, pointer: ActivePointer },
    Disputed { pointer: Option<ProjectName>, marker: DisputedMarker },
}

/// A directory, by its resolved path, and what it carries.
#[derive(Debug)]
pub struct RootReading {
    pub root: PathText,
    pub observation: RootObservation,
}

/// Whether `name` is the first workweave recorded at `root`.
pub open spec fn first_recorded(registry: Seq<RecordedDir>, root: Seq<char>) -> Option<Seq<char>>
    decreases registry.len(),
{
    if registry.len() == 0 {
        None
    } else {
        match first_recorded(registry.drop_last(), root) {
            Some(name) => Some(name),
            None => if registry.last().canonical@ == root {
                Some(registry.last().name@)
            } else {
                None
            },
        }
    }
}

/// Why the registry of this workspace has no say over a marker.
pub open spec fn elsewhere_detail(primary: Seq<char>) -> Seq<char> {
    "The marker names primary `"@ + primary
        + "`, which is not this workspace, so this workspace's registry has no say over it."@
}

/// Why a marker of this workspace is not vouched for.
pub open spec fn unrecorded_detail(project: Seq<char>) -> Seq<char> {
    "The marker names project `"@ + project
        + "` of this workspace, but that project's registry does not record this directory — most \
         likely a workweave copied out-of-band (`cp -r`), whose registry entry still names the \
         original."@
}

/// What is known about a disputed directory.
pub open spec fn dispute_kind(root: Seq<char>, marker: DisputedMarker) -> WeaveRootIdentityConflictKindView {
    if !marker.names_primary {
        WeaveRootIdentityConflictKindView::Unwitnessed { detail: elsewhere_detail(marker.primary@) }
    } else {
        match first_recorded(marker.registry@, root) {
            Some(name) => WeaveRootIdentityConflictKindView::RegisteredWorkweave {
                project: marker.project@,
                workweave_name: name,
            },
            None => WeaveRootIdentityConflictKindView::Unwitnessed {
                detail: unrecorded_detail(marker.project@),
            },
        }
    }
}

/// The finding a directory raises, or none.
pub open spec fn identity_finding(r: RootReading) -> Option<CheckViolationView> {
    match r.observation {
        RootObservation::Settled => None,
        RootObservation::MarkerUnverifiable { marker_path, defect, pointer } => match pointer {
            ActivePointer::Absent => None,
            ActivePointer::Present { project } => Some(
                CheckViolationView::WeaveRootIdentityConflict {
                    root: r.root@,
                    pointer_project: project.deep_view(),
                    sub_kind: WeaveRootIdentityConflictKindView::MarkerUnverifiable {
                        marker_path: marker_path@,
                        defect: defect.deep_view(),
                    },
                },
            ),
        },
        RootObservation::Disputed { pointer, marker } => Some(
            CheckViolationView::WeaveRootIdentityConflict {
                root: r.root@,
                pointer_project: pointer.deep_view(),
                sub_kind: dispute_kind(r.root@, marker),
            },
        ),
    }
}

/// Whether the directory at place `i` is visited there for the first time.
pub open spec fn first_visited(roots: Seq<RootReading>, i: int) -> bool {
    forall|j: int| 0 <= j < i ==> (#[trigger] roots[j]).root@ != roots[i].root@
}

/// The places of the directories that raise a finding, each directory once.
pub open spec fn conflicted_places(roots: Seq<RootReading>) -> Seq<int> {
    indices(roots.len()).filter(
        |i: int| first_visited(roots, i) && identity_finding(roots[i]) is Some,
    )
}

/// What the directories raise, in the order of their paths.
pub open spec fn identity_findings(roots: Seq<RootReading>) -> Seq<CheckViolationView> {
    let places = conflicted_places(roots);
    arranged(places, places.map_values(|i: int| path_key(roots[i].root@))).map_values(
        |i: int| identity_finding(roots[i])->0,
    )
}

/// `--fix` deletes a pointer only in a directory the registry vouches for.
pub proof fn only_registered_workweaves_lose_their_pointer(r: RootReading)
    ensures
        identity_finding(r) matches Some(v) ==> (crate::kinds::repaired_unasked(v) <==> (
        r.observation matches RootObservation::Disputed { marker, .. } && marker.names_primary
            && first_recorded(marker.registry@, r.root@) is Some)),
{
}

/// The name recorded for `root`.
fn recorded_name(registry: &Vec<RecordedDir>, root: &PathText) -> (name: Option<String>)
    ensures
        name.deep_view() == first_recorded(registry@, root@),
{
    let mut i: usize = 0;
    while i < registry.len()
        invariant
            0 <= i <= registry.len(),
            first_recorded(registry@.take(i as int), root@) is None,
        decreases registry.len() - i,
    {
        proof {
            assert(registry@.take(i as int + 1).drop_last() =~= registry@.take(i as int));
        }
        if registry[i].canonical == *root {
            proof {
                recorded_stays(registry@, i as int + 1, root@);
            }
            return Some(registry[i].name.clone());
        }
        i = i + 1;
    }
    assert(registry@.take(i as int) =~= registry@);
    None
}

proof fn recorded_stays(registry: Seq<RecordedDir>, n: int, root: Seq<char>)
    requires
        0 <= n <= registry.len(),
        first_recorded(registry.take(n), root) is Some,
    ensures
        first_recorded(registry, root) == first_recorded(registry.take(n), root),
    decreases registry.len(),
{
    if n == registry.len() {
        assert(registry.take(n) =~= registry);
    } else {
        assert(registry.drop_last().take(n) =~= registry.take(n));
        recorded_stays(registry.drop_last(), n, root);
    }
}

fn copy_defect(d: &MarkerDefect) -> (copy: MarkerDefect)
    ensures
        copy.deep_view() == d.deep_view(),
{
    MarkerDefect { name: d.name.clone(), refusal: d.refusal.clone() }
}

fn copy_name(n: &Option<ProjectName>) -> (copy: Option<ProjectName>)
    ensures
        copy.deep_view() == n.deep_view(),
{
    match n {
        Some(p) => Some(p.clone()),
        None => None,
    }
}

/// Says whether a directory carries both files, and which is the stray where
/// that can be told.
pub fn classify_weave_root_identity(r: &RootReading) -> (violation: Option<CheckViolation>)
    ensures
        violation.deep_view() == identity_finding(*r),
{
    match &r.observation {
        RootObservation::Settled => None,
        RootObservation::MarkerUnverifiable { marker_path, defect, pointer } => match pointer {
            ActivePointer::Absent => None,
            ActivePointer::Present { project } => Some(
                CheckViolation::WeaveRootIdentityConflict {
                    root: r.root.clone(),
                    pointer_project: copy_name(project),
                    sub_kind: WeaveRootIdentityConflictKind::MarkerUnverifiable {
                        marker_path: marker_path.clone(),
                        defect: copy_defect(defect),
                    },
                },
            ),
        },
        RootObservation::Disputed { pointer, marker } => {
            let sub_kind: WeaveRootIdentityConflictKind = if !marker.names_primary {
                WeaveRootIdentityConflictKind::Unwitnessed {
                    detail: "The marker names primary `".to_owned()
                        .concat(&marker.primary)
                        .concat(
                            "`, which is not this workspace, so this workspace's registry has no \
                             say over it.",
                        ),
                }
            } else {
                match recorded_name(&marker.registry, &r.root) {
                    Some(workweave_name) => WeaveRootIdentityConflictKind::RegisteredWorkweave {
                        project: marker.project.clone(),
                        workweave_name,
                    },
                    None => WeaveRootIdentityConflictKind::Unwitnessed {
                        detail: "The marker names project `".to_owned()
                            .concat(&marker.project)
                            .concat(
                                "` of this workspace, but that project's registry does not record \
                                 this directory — most likely a workweave copied out-of-band \
                                 (`cp -r`), whose registry entry still names the original.",
                            ),
                    },
                }
            };
            Some(
                CheckViolation::WeaveRootIdentityConflict {
                    root: r.root.clone(),
                    pointer_project: copy_name(pointer),
                    sub_kind,
                },
            )
        },
    }
}

/// Reports every directory that carries both files: the primary weave, the
/// active one and the directories of the containers, each once, in the order
/// of their paths.
pub fn scan_weave_root_identity(roots: &Vec<RootReading>) -> (violations: Vec<CheckViolation>)
    ensures
        violations.deep_view() == identity_findings(roots@),
{
    let ghost all = indices(roots@.len());
    let ghost raises = |i: int| first_visited(roots@, i) && identity_finding(roots@[i]) is Some;
    let mut places: Vec<usize> = Vec::new();
    let mut keys: Vec<Vec<char>> = Vec::new();
    let mut seen: Vec<String> = Vec::new();
    let mut i: usize = 0;
    assert(places@.map_values(|k: usize| k as int) =~= all.take(0).filter(raises)) by {
        reveal(Seq::filter);
    }
    while i < roots.len()
        invariant
            0 <= i <= roots.len(),
            all == indices(roots@.len()),
            raises == (|i: int| first_visited(roots@, i) && identity_finding(roots@[i]) is Some),
            places@.map_values(|k: usize| k as int) == all.take(i as int).filter(raises),
            keys@.len() == places@.len(),
            forall|k: int|
                0 <= k < places@.len() ==> (#[trigger] places@[k]) < roots@.len() && keys@[k]@
                    == path_key(roots@[places@[k] as int].root@) && identity_finding(
                    roots@[places@[k] as int],
                ) is Some,
            forall|c: Seq<char>|
                #[trigger] seen.deep_view().contains(c) <==> exists|j: int|
                    0 <= j < i && (#[trigger] roots@[j]).root@ == c,
        decreases roots.len() - i,
    {
        let ghost before = seen.deep_view();
        let ghost prior = places@;
        let new: bool = note(&mut seen, &roots[i].root);
        let conflicted: bool = new && classify_weave_root_identity(&roots[i]).is_some();
        proof {
            assert(new == first_visited(roots@, i as int));
            assert(all.take(i as int + 1) =~= all.take(i as int).push(i as int));
            all.take(i as int).lemma_filter_push(i as int, raises);
        }
        if conflicted {
            places.push(i);
            keys.push(key_of_path(&roots[i].root));
        }
        proof {
            if conflicted {
                assert(places@.map_values(|k: usize| k as int) =~= prior.map_values(
                    |k: usize| k as int,
                ).push(i as int));
            }
            assert forall|c: Seq<char>|
                #[trigger] seen.deep_view().contains(c) <==> exists|j: int|
                    0 <= j < i + 1 && (#[trigger] roots@[j]).root@ == c by {
                if seen.deep_view().contains(c) {
                    if !before.contains(c) {
                        assert(roots@[i as int].root@ == c);
                    }
                }
                if exists|j: int| 0 <= j < i + 1 && (#[trigger] roots@[j]).root@ == c {
                    let j = choose|j: int| 0 <= j < i + 1 && (#[trigger] roots@[j]).root@ == c;
                    if j < i {
                        assert(before.contains(c));
                    }
                    if before.contains(c) {
                        let x = choose|x: int| 0 <= x < before.len() && before[x] == c;
                        assert(seen.deep_view()[x] == c);
                    } else {
                        assert(seen.deep_view()[before.len() as int] == c);
                    }
                }
            }
        }
        i = i + 1;
    }
    let ghost cp = conflicted_places(roots@);
    let ghost ks = cp.map_values(|i: int| path_key(roots@[i].root@));
    proof {
        assert(all.take(i as int) =~= all);
        assert(places@.map_values(|k: usize| k as int) == cp);
        assert forall|k: int| 0 <= k < keys@.len() implies keys.deep_view()[k] == ks[k] by {
            assert(cp[k] == places@[k] as int);
            assert(keys.deep_view()[k] =~= keys@[k]@);
        }
        assert(keys.deep_view() =~= ks);
    }
    let order: Vec<usize> = sort_order(&keys);
    let mut violations: Vec<CheckViolation> = Vec::new();
    let mut k: usize = 0;
    while k < order.len()
        invariant
            0 <= k <= order.len(),
            violations@.len() == k,
            order@.map_values(|i: usize| i as int) == order_of(ks),
            forall|m: int| 0 <= m < order@.len() ==> (#[trigger] order@[m]) < places@.len(),
            places@.map_values(|k: usize| k as int) == cp,
            forall|m: int|
                0 <= m < places@.len() ==> (#[trigger] places@[m]) < roots@.len()
                    && identity_finding(roots@[places@[m] as int]) is Some,
            forall|m: int|
                0 <= m < k ==> Some((#[trigger] violations@[m]).deep_view()) == identity_finding(
                    roots@[cp[order_of(ks)[m]]],
                ),
        decreases order.len() - k,
    {
        proof {
            assert(order_of(ks)[k as int] == order@[k as int] as int);
            assert(cp[order@[k as int] as int] == places@[order@[k as int] as int] as int);
        }
        if let Some(v) = classify_weave_root_identity(&roots[places[order[k]]]) {
            violations.push(v);
        }
        k = k + 1;
    }
    proof {
        assert(violations.deep_view() =~= identity_findings(roots@)) by {
            assert forall|m: int| 0 <= m < violations@.len() implies violations.deep_view()[m]
                == identity_findings(roots@)[m] by {
                assert(arranged(cp, ks)[m] == cp[order_of(ks)[m]]);
                assert(Some(violations@[m].deep_view()) == identity_finding(
                    roots@[cp[order_of(ks)[m]]],
                ));
            }
        }
    }
    violations
}

/// The registry vouches for a directory exactly where one of its entries
/// records it, and the first such entry names it.
pub proof fn records_vouch_for_directories(registry: Seq<RecordedDir>, root: Seq<char>)
    ensures
        match first_recorded(registry, root) {
            None => forall|i: int|
                0 <= i < registry.len() ==> (#[trigger] registry[i]).canonical@ != root,
            Some(name) => exists|i: int|
                #![trigger registry[i]]
                0 <= i < registry.len() && registry[i].canonical@ == root && registry[i].name@
                    == name && forall|j: int|
                    0 <= j < i ==> (#[trigger] registry[j]).canonical@ != root,
        },
    decreases registry.len(),
{
    if registry.len() > 0 {
        let init = registry.drop_last();
        let n = registry.len() - 1;
        records_vouch_for_directories(init, root);
        assert forall|j: int| 0 <= j < n implies (#[trigger] registry[j]) == init[j] by {}
        match first_recorded(init, root) {
            Some(name) => {
                let i = choose|i: int|
                    #![trigger init[i]]
                    0 <= i < init.len() && init[i].canonical@ == root && init[i].name@ == name
                        && forall|j: int| 0 <= j < i ==> (#[trigger] init[j]).canonical@ != root;
                assert(registry[i] == init[i]);
                assert forall|j: int| 0 <= j < i implies (#[trigger] registry[j]).canonical@
                    != root by {
                    assert(init[j].canonical@ != root);
                }
            },
            None => {
                assert forall|j: int| 0 <= j < n implies (#[trigger] registry[j]).canonical@
                    != root by {
                    assert(init[j].canonical@ != root);
                }
                assert(registry[n] == registry.last());
            },
        }
    }
}

/// A directory that carries both a pointer and a marker is in conflict, and a
/// settled one is not. What is said of it is its own: its path, the project its
/// pointer names, and, where the registry of the marker's project records it,
/// that project and the recorded name.
pub proof fn conflicts_are_classified(r: RootReading)
    ensures
        r.observation is Settled ==> identity_finding(r) is None,
        r.observation is Disputed ==> identity_finding(r) is Some,
        r.observation matches RootObservation::MarkerUnverifiable { pointer, .. } ==> (
        identity_finding(r) is Some <==> pointer is Present),
        identity_finding(r) matches Some(v) ==> v is WeaveRootIdentityConflict
            && v->WeaveRootIdentityConflict_root == r.root@,
        r.observation matches RootObservation::MarkerUnverifiable {
            marker_path,
            defect,
            pointer: ActivePointer::Present { project },
        } ==> identity_finding(r) == Some(
            CheckViolationView::WeaveRootIdentityConflict {
                root: r.root@,
                pointer_project: project.deep_view(),
                sub_kind: WeaveRootIdentityConflictKindView::MarkerUnverifiable {
                    marker_path: marker_path@,
                    defect: defect.deep_view(),
                },
            },
        ),
        r.observation matches RootObservation::Disputed { pointer, marker } ==> {
            let v = identity_finding(r)->0;
            &&& v->pointer_project == pointer.deep_view()
            &&& v->WeaveRootIdentityConflict_sub_kind is RegisteredWorkweave <==> marker.names_primary
                && exists|i: int|
                0 <= i < marker.registry@.len() && (#[trigger] marker.registry@[i]).canonical@
                    == r.root@
            &&& v->WeaveRootIdentityConflict_sub_kind
                matches WeaveRootIdentityConflictKindView::RegisteredWorkweave {
                project,
                workweave_name,
            } ==> project == marker.project@ && exists|i: int|
                0 <= i < marker.registry@.len() && (#[trigger] marker.registry@[i]).canonical@
                    == r.root@ && marker.registry@[i].name@ == workweave_name
            &&& !(v->WeaveRootIdentityConflict_sub_kind is MarkerUnverifiable)
        },
{
    if let RootObservation::Disputed { marker, .. } = r.observation {
        records_vouch_for_directories(marker.registry@, r.root@);
    }
}

/// Every directory in conflict is reported, and nothing else is.
pub proof fn conflicts_are_reported(roots: Seq<RootReading>, v: CheckViolationView)
    ensures
        identity_findings(roots).contains(v) <==> exists|i: int|
            #![trigger roots[i]]
            0 <= i < roots.len() && identity_finding(roots[i]) == Some(v) && forall|j: int|
                0 <= j < i ==> (#[trigger] roots[j]).root@ != roots[i].root@,
{
    let keep = |i: int| first_visited(roots, i) && identity_finding(roots[i]) is Some;
    let all = indices(roots.len());
    let places = conflicted_places(roots);
    let keys = places.map_values(|i: int| path_key(roots[i].root@));
    let sorted = arranged(places, keys);
    let f = |i: int| identity_finding(roots[i])->0;
    mapped_contains(sorted, f, v);
    if identity_findings(roots).contains(v) {
        let k = choose|k: int| 0 <= k < sorted.len() && #[trigger] f(sorted[k]) == v;
        let i = sorted[k];
        assert(sorted.contains(i));
        arranging_keeps_everything(places, keys, i);
        filtered_contains(all, keep, i);
        let n = choose|n: int| 0 <= n < all.len() && all[n] == i;
        assert(all[n] == n);
        assert(identity_finding(roots[i]) == Some(v));
    }
    if exists|i: int|
        #![trigger roots[i]]
        0 <= i < roots.len() && identity_finding(roots[i]) == Some(v) && forall|j: int|
            0 <= j < i ==> (#[trigger] roots[j]).root@ != roots[i].root@ {
        let i = choose|i: int|
            #![trigger roots[i]]
            0 <= i < roots.len() && identity_finding(roots[i]) == Some(v) && forall|j: int|
                0 <= j < i ==> (#[trigger] roots[j]).root@ != roots[i].root@;
        assert(all[i] == i);
        assert(all.contains(i));
        filtered_contains(all, keep, i);
        arranging_keeps_everything(places, keys, i);
        let k = choose|k: int| 0 <= k < sorted.len() && sorted[k] == i;
        assert(f(sorted[k]) == v);
    }
}

/// What is known of a disputed marker names what it records.
pub proof fn messages_name_their_subjects(primary: Seq<char>, project: Seq<char>)
    ensures
        tells(elsewhere_detail(primary), seq![primary]),
        tells(unrecorded_detail(project), seq![project]),
{
    broadcast use telling;
}

} // verus!
