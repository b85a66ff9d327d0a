//! The one place that decides which scans a run of the doctor makes, and in
//! which order their findings stand.

use vstd::prelude::*;
use crate::attributes::{phantom_findings, scan_phantom_merge_drivers, AttributesReading};
use crate::branches::{discipline_findings, scan_branch_discipline, BranchObservation};
use crate::drift::{
    classify_drift, clone_of_worktree, exclusion_gap, index_drift, replay_exclusion_finding,
    tree_drift, worktree_canonical_clone_missing, GitDirLink, IndexTreeState, ReplayExclusionState,
    WorkingTreeState,
};
use crate::find::{find_violations, input_findings};
use crate::hygiene::{
    copy_workweave, hygiene_findings, scan_state_hygiene, OpStateReading, RepoStateReading, StateHygieneScanTarget,
};
use crate::identity::{identity_findings, scan_weave_root_identity, RootReading};
use crate::legacy::{
    legacy_manifests, legacy_markers, scan_for_legacy_workweave_markers,
    scan_workspace_for_legacy_manifests, LegacyManifestFile, LegacyWorkweaveMarkerFile,
    LegacyWorkweaveMarkerFileView, MarkerDirReading, ProjectDirReading,
};
use crate::lists::{flat_map_contains, flat_map_holds, joined_lists_contain, single_contains};
use crate::provenance::{
    cargo_findings, provenance_findings, scan_cargo_ecosystem, scan_provenance,
    scan_uninitialized_submodules_in_workweaves, submodule_findings, CargoReading,
    ProvenanceReading, SubmoduleReading,
};
use crate::receipts::{
    dangling_receipt_rule, focused, in_focus, pre_flat_receipt_rule, scan_dangling_receipts,
    scan_pre_flat_receipts, ReceiptsReading,
};
use crate::registry::indices;
use crate::scope::{branch_discipline_in_scope, finding_in_scope, ScopeReading};
use crate::siblings::{scan_confusable_siblings, sibling_findings, ConfusablePair};
use crate::topology::{repo_topology_findings, scan_clone_topology, RepoStores};
use crate::tree::{scan_workweave_tree_integrity, tree_findings, TreeObservation};
use crate::violation::{CheckViolation, IndexDriftKind, PathText, ProjectName, WorkingTreeDriftKind};
use crate::violation_view::CheckViolationView;
use crate::world::{scope_of, DoctorWorld, UnnameableDir, UnparsedProject};

verus! {

/// The active-project pointer, and the directory it stands for.
#[derive(Debug)]
pub struct PointerReading {
    pub project: ProjectName,
    pub dir: PathText,
    pub is_there: bool,
}

/// A project's workweave index, where it predates ownership receipts.
#[derive(Debug)]
pub struct PendingIndex {
    pub project: ProjectName,
    pub index_path: Option<PathText>,
}

/// A checkout the drift scan visits, and what was found of it.
#[derive(Debug)]
pub struct DriftReading {
    pub target: StateHygieneScanTarget,
    pub link: GitDirLink,
    pub common: Option<PathText>,
    /// Whether the clone a linked worktree belongs to is there.
    pub clone_is_there: bool,
    pub dirty: Option<bool>,
    pub index: IndexTreeState,
    pub tree: WorkingTreeState,
}

/// A project's own repo, its replay exclusion and its merge driver.
#[derive(Debug)]
pub struct ProjectProbe {
    pub project: ProjectName,
    pub is_dir: bool,
    pub exclusion: Result<ReplayExclusionState, String>,
    pub driver: Result<bool, String>,
}

/// What the scans of a run read, apart from the cargo members and the
/// submodules.
pub struct DoctorReadings {
    pub pointer: Option<PointerReading>,
    pub roots: Vec<RootReading>,
    pub project_dirs: Vec<ProjectDirReading>,
    pub marker_dirs: Vec<MarkerDirReading>,
    pub pending_indexes: Vec<PendingIndex>,
    pub tree: TreeObservation,
    pub siblings: Vec<ConfusablePair>,
    pub provenance: Vec<ProvenanceReading>,
    pub attributes: Vec<AttributesReading>,
    /// Whether the run stands in the primary, where the workweaves can be
    /// listed.
    pub from_primary: bool,
    pub stores: Vec<RepoStores>,
    pub receipts: Vec<ReceiptsReading>,
    pub branches: BranchObservation,
    pub scope: ScopeReading,
    pub drift: Vec<DriftReading>,
    pub hygiene: Vec<RepoStateReading>,
    pub op_states: Vec<OpStateReading>,
    pub probes: Vec<ProjectProbe>,
    /// The name of the merge driver's setting.
    pub config_key: String,
}

/// What the active-project pointer raises: its directory is not there.
pub open spec fn pointer_findings(pointer: Option<PointerReading>) -> Seq<CheckViolationView> {
    match pointer {
        Some(p) => if p.is_there {
            Seq::empty()
        } else {
            seq![
                CheckViolationView::DanglingActiveProject { project: p.project@, missing_dir: p.dir@ },
            ]
        },
        None => Seq::empty(),
    }
}

/// What a project that would not load raises.
pub open spec fn unparsed_finding() -> spec_fn(UnparsedProject) -> Seq<CheckViolationView> {
    |u: UnparsedProject|
        seq![
            CheckViolationView::UnparseableProject {
                project: u.name@,
                manifest_path: u.manifest_path@,
                message: u.message@,
            },
        ]
}

/// What a manifest in the retired format raises, where its project is looked
/// at.
pub open spec fn legacy_format_rule(scope: Option<Seq<char>>) -> spec_fn(ProjectDirReading) -> Seq<
    CheckViolationView,
> {
    |d: ProjectDirReading|
        if in_focus(scope, d.relative@) {
            seq![
                CheckViolationView::LegacyManifestFormat {
                    project: d.relative@,
                    legacy_path: d.legacy_path@,
                    refusal: d.refusal@,
                },
            ]
        } else {
            Seq::empty()
        }
}

/// What a marker in the retired format raises.
pub open spec fn legacy_marker_finding() -> spec_fn(LegacyWorkweaveMarkerFileView) -> Seq<
    CheckViolationView,
> {
    |m: LegacyWorkweaveMarkerFileView|
        seq![
            CheckViolationView::LegacyWorkweaveMarker {
                marker_path: m.marker_path,
                primary: m.primary,
            },
        ]
}

/// What an index that predates receipts raises, where its project is looked
/// at.
pub open spec fn pending_rule(scope: Option<Seq<char>>) -> spec_fn(PendingIndex) -> Seq<
    CheckViolationView,
> {
    |p: PendingIndex|
        match p.index_path {
            Some(path) => if in_focus(scope, p.project@) {
                seq![
                    CheckViolationView::LegacyWorkweaveIndex {
                        project: p.project@,
                        index_path: path@,
                    },
                ]
            } else {
                Seq::empty()
            },
            None => Seq::empty(),
        }
}

/// What a project's cargo members raise.
pub open spec fn cargo_rule() -> spec_fn(CargoReading) -> Seq<CheckViolationView> {
    |c: CargoReading|
        match c {
            CargoReading::Members { count, skews, shadows } => cargo_findings(
                count as nat,
                skews@,
                shadows@,
            ),
            _ => Seq::empty(),
        }
}

/// The findings that belong to the project a run is narrowed to.
pub open spec fn kept_in_scope(s: ScopeReading, scope: Option<Seq<char>>) -> spec_fn(
    CheckViolationView,
) -> Seq<CheckViolationView> {
    |v: CheckViolationView|
        if scope matches Some(a) ==> finding_in_scope(s, v, a) {
            seq![v]
        } else {
            Seq::empty()
        }
}

/// What a checkout's drift raises. A linked worktree whose clone is gone
/// raises that alone: everything else would be misread in it.
pub open spec fn drift_findings() -> spec_fn(DriftReading) -> Seq<CheckViolationView> {
    |d: DriftReading|
        if d.target.workweave is Some && !d.clone_is_there && clone_of_worktree(
            d.link,
            d.common,
        ) is Some {
            seq![
                CheckViolationView::MissingCanonicalClone {
                    workweave: d.target.workweave.deep_view()->0,
                    repo: d.target.repo@,
                    canonical_path: clone_of_worktree(d.link, d.common)->0,
                },
            ]
        } else if d.dirty == Some(false) {
            Seq::empty()
        } else {
            index_findings(d) + tree_drift_findings(d)
        }
}

/// What a checkout's index raises.
pub open spec fn index_findings(d: DriftReading) -> Seq<CheckViolationView> {
    match index_drift(d.index) {
        Some(kind) => seq![
            CheckViolationView::IndexDrift {
                workweave: d.target.workweave.deep_view(),
                repo: d.target.repo@,
                kind,
            },
        ],
        None => Seq::empty(),
    }
}

/// What a checkout's working tree raises.
pub open spec fn tree_drift_findings(d: DriftReading) -> Seq<CheckViolationView> {
    match tree_drift(d.tree) {
        Some(kind) => seq![
            CheckViolationView::WorkingTreeDrift {
                workweave: d.target.workweave.deep_view(),
                repo: d.target.repo@,
                kind,
            },
        ],
        None => Seq::empty(),
    }
}

/// What a project's replay exclusion raises.
pub open spec fn exclusion_findings(p: ProjectProbe) -> Seq<CheckViolationView> {
    match p.exclusion {
        Ok(state) => match exclusion_gap(state) {
            Some(sub_kind) => seq![
                CheckViolationView::MissingReplayExclusion { project: p.project@, sub_kind },
            ],
            None => Seq::empty(),
        },
        Err(error) => seq![
            CheckViolationView::ReplayExclusionUnreadable { project: p.project@, error: error@ },
        ],
    }
}

/// What a project's merge driver raises.
pub open spec fn driver_findings(p: ProjectProbe, key: Seq<char>) -> Seq<CheckViolationView> {
    match p.driver {
        Ok(is_there) => if is_there {
            Seq::empty()
        } else {
            seq![
                CheckViolationView::MissingMergeDriverConfig { project: p.project@, config_key: key },
            ]
        },
        Err(error) => seq![
            CheckViolationView::MergeDriverConfigUnreadable {
                project: p.project@,
                config_key: key,
                error: error@,
            },
        ],
    }
}

/// What a project's own repo raises, where it is there.
pub open spec fn probe_findings(key: Seq<char>) -> spec_fn(ProjectProbe) -> Seq<CheckViolationView> {
    |p: ProjectProbe|
        if p.is_dir {
            exclusion_findings(p) + driver_findings(p, key)
        } else {
            Seq::empty()
        }
}

/// What a HEAD that cannot be read raises.
pub open spec fn head_finding() -> spec_fn((String, String)) -> Seq<CheckViolationView> {
    |h: (String, String)|
        seq![CheckViolationView::HeadUnreadable { repo: h.0@, error: h.1@ }]
}

/// What a pin that will not resolve raises.
pub open spec fn pin_finding() -> spec_fn((String, String)) -> Seq<CheckViolationView> {
    |p: (String, String)|
        seq![CheckViolationView::UnresolvableLockEntry { project: p.0@, repo: p.1@ }]
}

/// What a `projects/` directory that cannot be listed raises.
pub open spec fn listing_findings(error: Option<(PathText, String)>) -> Seq<CheckViolationView> {
    match error {
        Some(e) => seq![CheckViolationView::ProjectsDirUnreadable { path: e.0@, error: e.1@ }],
        None => Seq::empty(),
    }
}

/// What a directory without a project raises.
pub open spec fn projectless_finding() -> spec_fn(PathText) -> Seq<CheckViolationView> {
    |dir: PathText| seq![CheckViolationView::ProjectlessDir { dir: dir@ }]
}

/// What a directory whose name is no project name raises.
pub open spec fn unnameable_finding() -> spec_fn(UnnameableDir) -> Seq<CheckViolationView> {
    |u: UnnameableDir|
        seq![
            CheckViolationView::UnnameableProject {
                dir: u.dir@,
                derived: u.derived@,
                error: u.error@,
            },
        ]
}

/// What the projects and their formats raise.
pub open spec fn project_level(w: DoctorWorld, r: DoctorReadings) -> Seq<CheckViolationView> {
    let scope = scope_of(w.scope_all, w.active_project);
    input_findings(w.input) + pointer_findings(r.pointer) + identity_findings(r.roots@)
        + w.unparseable_projects@.flat_map(unparsed_finding()) + legacy_manifests(
        r.project_dirs@,
    ).flat_map(legacy_format_rule(scope)) + legacy_markers(r.marker_dirs@).flat_map(
        legacy_marker_finding(),
    ) + r.pending_indexes@.flat_map(pending_rule(scope))
}

/// What the weave as a whole raises.
pub open spec fn weave_level(
    r: DoctorReadings,
    cargo: Seq<CargoReading>,
    submodules: Seq<SubmoduleReading>,
) -> Seq<CheckViolationView> {
    tree_findings(r.tree) + sibling_findings(r.siblings@) + r.provenance@.flat_map(
        |p: ProvenanceReading| provenance_findings(p),
    ) + indices(r.attributes@.len()).flat_map(phantom_findings(r.attributes@))
        + cargo.flat_map(cargo_rule()) + submodule_level(r, submodules) + r.stores@.flat_map(
        |s: RepoStores| repo_topology_findings(s),
    )
}

/// What the submodules of the workweaves raise, where they can be listed.
pub open spec fn submodule_level(r: DoctorReadings, submodules: Seq<SubmoduleReading>) -> Seq<
    CheckViolationView,
> {
    if r.from_primary {
        submodules.flat_map(|s: SubmoduleReading| submodule_findings(s))
    } else {
        Seq::empty()
    }
}

/// What receipts and branches raise.
pub open spec fn branch_level(w: DoctorWorld, r: DoctorReadings) -> Seq<CheckViolationView> {
    let scope = scope_of(w.scope_all, w.active_project);
    r.receipts@.flat_map(dangling_receipt_rule(scope)) + r.branches.recorded.projects@.flat_map(
        pre_flat_receipt_rule(r.branches.recorded, scope),
    ) + discipline_findings(r.branches).flat_map(kept_in_scope(r.scope, scope))
}

/// What the checkouts and the projects' own repos raise.
pub open spec fn checkout_level(r: DoctorReadings) -> Seq<CheckViolationView> {
    r.drift@.flat_map(drift_findings()) + hygiene_findings(r.hygiene@, r.op_states@)
        + r.probes@.flat_map(probe_findings(r.config_key@))
}

/// What could not be read raises.
pub open spec fn failure_level(w: DoctorWorld) -> Seq<CheckViolationView> {
    w.head_read_failures@.flat_map(head_finding()) + w.lock_resolve_failures@.flat_map(
        pin_finding(),
    ) + listing_findings(w.projects_dir_read_error) + w.projectless@.flat_map(
        projectless_finding(),
    ) + w.unnameable@.flat_map(unnameable_finding())
}

/// Everything a run finds, in order.
pub open spec fn doctor_findings(
    w: DoctorWorld,
    r: DoctorReadings,
    cargo: Seq<CargoReading>,
    submodules: Seq<SubmoduleReading>,
) -> Seq<CheckViolationView> {
    project_level(w, r) + weave_level(r, cargo, submodules) + branch_level(w, r) + checkout_level(r)
        + failure_level(w)
}

/// Moves findings to the end of a list.
fn extend(violations: &mut Vec<CheckViolation>, more: Vec<CheckViolation>)
    ensures
        final(violations).deep_view() == old(violations).deep_view() + more.deep_view(),
{
    let ghost mv = more.deep_view();
    let mut rest: Vec<CheckViolation> = more;
    violations.append(&mut rest);
    assert(violations.deep_view() =~= old(violations).deep_view() + mv);
}

/// The HEADs that cannot be read.
fn push_heads(violations: &mut Vec<CheckViolation>, list: &Vec<(String, String)>)
    ensures
        final(violations).deep_view() == old(violations).deep_view() + list@.flat_map(head_finding()),
{
    let ghost start = violations.deep_view();
    let ghost f = head_finding();
    let mut i: usize = 0;
    assert(violations.deep_view() =~= start + list@.take(0).flat_map(f));
    while i < list.len()
        invariant
            0 <= i <= list.len(),
            f == head_finding(),
            violations.deep_view() == start + list@.take(i as int).flat_map(f),
        decreases list.len() - i,
    {
        let ghost prior = violations.deep_view();
        proof {
            list@.lemma_flat_map_take_append(f, i as int);
        }
        let x: &(String, String) = &list[i];
        violations.push(CheckViolation::HeadUnreadable { repo: x.0.clone(), error: x.1.clone() });
        assert(violations.deep_view() =~= prior + f(list@[i as int]));
        i = i + 1;
    }
    assert(list@.take(i as int) =~= list@);
}

/// The pins that will not resolve.
fn push_pins(violations: &mut Vec<CheckViolation>, list: &Vec<(String, String)>)
    ensures
        final(violations).deep_view() == old(violations).deep_view() + list@.flat_map(pin_finding()),
{
    let ghost start = violations.deep_view();
    let ghost f = pin_finding();
    let mut i: usize = 0;
    assert(violations.deep_view() =~= start + list@.take(0).flat_map(f));
    while i < list.len()
        invariant
            0 <= i <= list.len(),
            f == pin_finding(),
            violations.deep_view() == start + list@.take(i as int).flat_map(f),
        decreases list.len() - i,
    {
        let ghost prior = violations.deep_view();
        proof {
            list@.lemma_flat_map_take_append(f, i as int);
        }
        let x: &(String, String) = &list[i];
        violations.push(
            CheckViolation::UnresolvableLockEntry { project: x.0.clone(), repo: x.1.clone() },
        );
        assert(violations.deep_view() =~= prior + f(list@[i as int]));
        i = i + 1;
    }
    assert(list@.take(i as int) =~= list@);
}

/// The directories without a project.
fn push_projectless(violations: &mut Vec<CheckViolation>, list: &Vec<PathText>)
    ensures
        final(violations).deep_view() == old(violations).deep_view() + list@.flat_map(projectless_finding()),
{
    let ghost start = violations.deep_view();
    let ghost f = projectless_finding();
    let mut i: usize = 0;
    assert(violations.deep_view() =~= start + list@.take(0).flat_map(f));
    while i < list.len()
        invariant
            0 <= i <= list.len(),
            f == projectless_finding(),
            violations.deep_view() == start + list@.take(i as int).flat_map(f),
        decreases list.len() - i,
    {
        let ghost prior = violations.deep_view();
        proof {
            list@.lemma_flat_map_take_append(f, i as int);
        }
        let x: &PathText = &list[i];
        violations.push(CheckViolation::ProjectlessDir { dir: x.clone() });
        assert(violations.deep_view() =~= prior + f(list@[i as int]));
        i = i + 1;
    }
    assert(list@.take(i as int) =~= list@);
}

/// The directories whose names are no project names.
fn push_unnameable(violations: &mut Vec<CheckViolation>, list: &Vec<UnnameableDir>)
    ensures
        final(violations).deep_view() == old(violations).deep_view() + list@.flat_map(unnameable_finding()),
{
    let ghost start = violations.deep_view();
    let ghost f = unnameable_finding();
    let mut i: usize = 0;
    assert(violations.deep_view() =~= start + list@.take(0).flat_map(f));
    while i < list.len()
        invariant
            0 <= i <= list.len(),
            f == unnameable_finding(),
            violations.deep_view() == start + list@.take(i as int).flat_map(f),
        decreases list.len() - i,
    {
        let ghost prior = violations.deep_view();
        proof {
            list@.lemma_flat_map_take_append(f, i as int);
        }
        let x: &UnnameableDir = &list[i];
        violations.push(
            CheckViolation::UnnameableProject {
                dir: x.dir.clone(),
                derived: x.derived.clone(),
                error: x.error.clone(),
            },
        );
        assert(violations.deep_view() =~= prior + f(list@[i as int]));
        i = i + 1;
    }
    assert(list@.take(i as int) =~= list@);
}

/// The projects that would not load.
fn push_unparsed(violations: &mut Vec<CheckViolation>, list: &Vec<UnparsedProject>)
    ensures
        final(violations).deep_view() == old(violations).deep_view() + list@.flat_map(unparsed_finding()),
{
    let ghost start = violations.deep_view();
    let ghost f = unparsed_finding();
    let mut i: usize = 0;
    assert(violations.deep_view() =~= start + list@.take(0).flat_map(f));
    while i < list.len()
        invariant
            0 <= i <= list.len(),
            f == unparsed_finding(),
            violations.deep_view() == start + list@.take(i as int).flat_map(f),
        decreases list.len() - i,
    {
        let ghost prior = violations.deep_view();
        proof {
            list@.lemma_flat_map_take_append(f, i as int);
        }
        let x: &UnparsedProject = &list[i];
        violations.push(
            CheckViolation::UnparseableProject {
                project: x.name.clone(),
                manifest_path: x.manifest_path.clone(),
                message: x.message.clone(),
            },
        );
        assert(violations.deep_view() =~= prior + f(list@[i as int]));
        i = i + 1;
    }
    assert(list@.take(i as int) =~= list@);
}

/// The manifests in the retired format, of the projects looked at.
fn push_legacy_formats(
    violations: &mut Vec<CheckViolation>,
    list: &Vec<LegacyManifestFile>,
    scope: &Option<ProjectName>,
    dirs: Ghost<Seq<ProjectDirReading>>,
)
    requires
        list@.len() == dirs@.len(),
        forall|k: int|
            0 <= k < list@.len() ==> {
                &&& (#[trigger] list@[k]).project@ == dirs@[k].relative@
                &&& list@[k].legacy_path@ == dirs@[k].legacy_path@
                &&& list@[k].refusal@ == dirs@[k].refusal@
            },
    ensures
        final(violations).deep_view() == old(violations).deep_view() + dirs@.flat_map(
            legacy_format_rule(scope.deep_view()),
        ),
{
    let ghost start = violations.deep_view();
    let ghost f = legacy_format_rule(scope.deep_view());
    let mut i: usize = 0;
    assert(violations.deep_view() =~= start + dirs@.take(0).flat_map(f));
    while i < list.len()
        invariant
            0 <= i <= list.len(),
            list@.len() == dirs@.len(),
            forall|k: int|
                0 <= k < list@.len() ==> {
                    &&& (#[trigger] list@[k]).project@ == dirs@[k].relative@
                    &&& list@[k].legacy_path@ == dirs@[k].legacy_path@
                    &&& list@[k].refusal@ == dirs@[k].refusal@
                },
            f == legacy_format_rule(scope.deep_view()),
            violations.deep_view() == start + dirs@.take(i as int).flat_map(f),
        decreases list.len() - i,
    {
        let ghost prior = violations.deep_view();
        proof {
            dirs@.lemma_flat_map_take_append(f, i as int);
        }
        let x: &LegacyManifestFile = &list[i];
        if focused(scope, &x.project) {
            violations.push(
                CheckViolation::LegacyManifestFormat {
                    project: x.project.clone(),
                    legacy_path: x.legacy_path.clone(),
                    refusal: x.refusal.clone(),
                },
            );
        }
        assert(violations.deep_view() =~= prior + f(dirs@[i as int]));
        i = i + 1;
    }
    assert(dirs@.take(i as int) =~= dirs@);
}

/// The markers in the retired format.
fn push_legacy_markers(violations: &mut Vec<CheckViolation>, list: &Vec<LegacyWorkweaveMarkerFile>)
    ensures
        final(violations).deep_view() == old(violations).deep_view() + list.deep_view().flat_map(
            legacy_marker_finding(),
        ),
{
    let ghost start = violations.deep_view();
    let ghost f = legacy_marker_finding();
    let ghost all = list.deep_view();
    let mut i: usize = 0;
    assert(violations.deep_view() =~= start + all.take(0).flat_map(f));
    while i < list.len()
        invariant
            0 <= i <= list.len(),
            all == list.deep_view(),
            f == legacy_marker_finding(),
            violations.deep_view() == start + all.take(i as int).flat_map(f),
        decreases list.len() - i,
    {
        let ghost prior = violations.deep_view();
        proof {
            all.lemma_flat_map_take_append(f, i as int);
            assert(all[i as int] == list@[i as int].deep_view());
        }
        violations.push(
            CheckViolation::LegacyWorkweaveMarker {
                marker_path: list[i].marker_path.clone(),
                primary: list[i].primary.clone(),
            },
        );
        assert(violations.deep_view() =~= prior + f(all[i as int]));
        i = i + 1;
    }
    assert(all.take(i as int) =~= all);
}

/// The indexes that predate receipts, of the projects looked at.
fn push_pending(violations: &mut Vec<CheckViolation>, list: &Vec<PendingIndex>, scope: &Option<ProjectName>)
    ensures
        final(violations).deep_view() == old(violations).deep_view() + list@.flat_map(pending_rule(scope.deep_view())),
{
    let ghost start = violations.deep_view();
    let ghost f = pending_rule(scope.deep_view());
    let mut i: usize = 0;
    assert(violations.deep_view() =~= start + list@.take(0).flat_map(f));
    while i < list.len()
        invariant
            0 <= i <= list.len(),
            f == pending_rule(scope.deep_view()),
            violations.deep_view() == start + list@.take(i as int).flat_map(f),
        decreases list.len() - i,
    {
        let ghost prior = violations.deep_view();
        proof {
            list@.lemma_flat_map_take_append(f, i as int);
        }
        let x: &PendingIndex = &list[i];
        if let Some(path) = &x.index_path {
            if focused(scope, &x.project) {
                violations.push(
                    CheckViolation::LegacyWorkweaveIndex {
                        project: x.project.clone(),
                        index_path: path.clone(),
                    },
                );
            }
        }
        assert(violations.deep_view() =~= prior + f(list@[i as int]));
        i = i + 1;
    }
    assert(list@.take(i as int) =~= list@);
}

/// What the cargo members of each project raise.
fn push_cargo(violations: &mut Vec<CheckViolation>, list: Vec<CargoReading>)
    ensures
        final(violations).deep_view() == old(violations).deep_view() + list@.flat_map(cargo_rule()),
{
    let ghost start = violations.deep_view();
    let ghost f = cargo_rule();
    assert(violations.deep_view() =~= start + list@.take(0).flat_map(f));
    for x in it: list
        invariant
            it.seq() == list@,
            f == cargo_rule(),
            violations.deep_view() == start + list@.take(it.index() as int).flat_map(f),
    {
        let ghost i = it.index() as int;
        let ghost prior = violations.deep_view();
        proof {
            list@.lemma_flat_map_take_append(f, i);
        }
        if let Ok(found) = scan_cargo_ecosystem(x) {
            extend(violations, found);
        }
        assert(violations.deep_view() =~= prior + f(list@[i]));
    }
    assert(list@.take(list@.len() as int) =~= list@);
}

/// The findings that belong to the project a run is narrowed to.
fn push_in_scope(
    violations: &mut Vec<CheckViolation>,
    list: Vec<CheckViolation>,
    s: &ScopeReading,
    scope: &Option<ProjectName>,
)
    ensures
        final(violations).deep_view() == old(violations).deep_view() + list.deep_view().flat_map(
            kept_in_scope(*s, scope.deep_view()),
        ),
{
    let ghost start = violations.deep_view();
    let ghost f = kept_in_scope(*s, scope.deep_view());
    let ghost all = list.deep_view();
    assert(violations.deep_view() =~= start + all.take(0).flat_map(f));
    for v in it: list
        invariant
            it.seq() == list@,
            all == list.deep_view(),
            f == kept_in_scope(*s, scope.deep_view()),
            violations.deep_view() == start + all.take(it.index() as int).flat_map(f),
    {
        let ghost i = it.index() as int;
        let ghost prior = violations.deep_view();
        proof {
            all.lemma_flat_map_take_append(f, i);
            assert(all[i] == v.deep_view());
        }
        let kept: bool = match scope {
            Some(a) => branch_discipline_in_scope(&v, s, a),
            None => true,
        };
        if kept {
            violations.push(v);
        }
        assert(violations.deep_view() =~= prior + f(all[i]));
    }
    assert(all.take(all.len() as int) =~= all);
}

/// What the drift of each checkout raises.
fn push_drift(violations: &mut Vec<CheckViolation>, list: &Vec<DriftReading>)
    ensures
        final(violations).deep_view() == old(violations).deep_view() + list@.flat_map(drift_findings()),
{
    let ghost start = violations.deep_view();
    let ghost f = drift_findings();
    let mut i: usize = 0;
    assert(violations.deep_view() =~= start + list@.take(0).flat_map(f));
    while i < list.len()
        invariant
            0 <= i <= list.len(),
            f == drift_findings(),
            violations.deep_view() == start + list@.take(i as int).flat_map(f),
        decreases list.len() - i,
    {
        let ghost prior = violations.deep_view();
        proof {
            list@.lemma_flat_map_take_append(f, i as int);
        }
        let x: &DriftReading = &list[i];
        let mut gone: bool = false;
        if let Some(workweave) = &x.target.workweave {
            if let Some(canonical_path) = worktree_canonical_clone_missing(
                &x.link,
                &x.common,
                x.clone_is_there,
            ) {
                violations.push(
                    CheckViolation::MissingCanonicalClone {
                        workweave: workweave.clone(),
                        repo: x.target.repo.clone(),
                        canonical_path,
                    },
                );
                gone = true;
            }
        }
        if !gone {
            let (index, tree): (Option<IndexDriftKind>, Option<WorkingTreeDriftKind>) =
                classify_drift(x.dirty, x.index, x.tree);
            if let Some(kind) = index {
                violations.push(
                    CheckViolation::IndexDrift {
                        workweave: copy_workweave(&x.target.workweave),
                        repo: x.target.repo.clone(),
                        kind,
                    },
                );
            }
            if let Some(kind) = tree {
                violations.push(
                    CheckViolation::WorkingTreeDrift {
                        workweave: copy_workweave(&x.target.workweave),
                        repo: x.target.repo.clone(),
                        kind,
                    },
                );
            }
        }
        assert(violations.deep_view() =~= prior + f(list@[i as int]));
        i = i + 1;
    }
    assert(list@.take(i as int) =~= list@);
}

/// What each project's own repo raises.
fn push_probes(violations: &mut Vec<CheckViolation>, list: &Vec<ProjectProbe>, key: &String)
    ensures
        final(violations).deep_view() == old(violations).deep_view() + list@.flat_map(probe_findings(key@)),
{
    let ghost start = violations.deep_view();
    let ghost f = probe_findings(key@);
    let mut i: usize = 0;
    assert(violations.deep_view() =~= start + list@.take(0).flat_map(f));
    while i < list.len()
        invariant
            0 <= i <= list.len(),
            f == probe_findings(key@),
            violations.deep_view() == start + list@.take(i as int).flat_map(f),
        decreases list.len() - i,
    {
        let ghost prior = violations.deep_view();
        proof {
            list@.lemma_flat_map_take_append(f, i as int);
        }
        let x: &ProjectProbe = &list[i];
        if x.is_dir {
            match &x.exclusion {
                Ok(state) => {
                    if let Some(sub_kind) = replay_exclusion_finding(*state) {
                        violations.push(
                            CheckViolation::MissingReplayExclusion {
                                project: x.project.clone(),
                                sub_kind,
                            },
                        );
                    }
                },
                Err(error) => violations.push(
                    CheckViolation::ReplayExclusionUnreadable {
                        project: x.project.clone(),
                        error: error.clone(),
                    },
                ),
            }
            assert(violations.deep_view() =~= prior + exclusion_findings(*x));
            match &x.driver {
                Ok(is_there) => {
                    if !*is_there {
                        violations.push(
                            CheckViolation::MissingMergeDriverConfig {
                                project: x.project.clone(),
                                config_key: key.clone(),
                            },
                        );
                    }
                },
                Err(error) => violations.push(
                    CheckViolation::MergeDriverConfigUnreadable {
                        project: x.project.clone(),
                        config_key: key.clone(),
                        error: error.clone(),
                    },
                ),
            }
        }
        assert(violations.deep_view() =~= prior + f(list@[i as int]));
        i = i + 1;
    }
    assert(list@.take(i as int) =~= list@);
}

/// What could not be read, as findings.
fn push_failures(violations: &mut Vec<CheckViolation>, world: &DoctorWorld)
    ensures
        final(violations).deep_view() == old(violations).deep_view() + failure_level(*world),
{
    let ghost start = violations.deep_view();
    push_heads(violations, &world.head_read_failures);
    push_pins(violations, &world.lock_resolve_failures);
    let ghost before = violations.deep_view();
    if let Some(e) = &world.projects_dir_read_error {
        violations.push(
            CheckViolation::ProjectsDirUnreadable { path: e.0.clone(), error: e.1.clone() },
        );
    }
    assert(violations.deep_view() =~= before + listing_findings(world.projects_dir_read_error));
    push_projectless(violations, &world.projectless);
    push_unnameable(violations, &world.unnameable);
    assert(violations.deep_view() =~= start + failure_level(*world));
}

/// What the projects and their formats raise.
fn push_project_level(violations: &mut Vec<CheckViolation>, world: &DoctorWorld, r: &DoctorReadings)
    ensures
        final(violations).deep_view() == old(violations).deep_view() + project_level(*world, *r),
{
    let ghost start = violations.deep_view();
    let scope: Option<ProjectName> = world.project_scope();
    extend(violations, find_violations(&world.input));
    let ghost before = violations.deep_view();
    if let Some(p) = &r.pointer {
        if !p.is_there {
            violations.push(
                CheckViolation::DanglingActiveProject {
                    project: p.project.clone(),
                    missing_dir: p.dir.clone(),
                },
            );
        }
    }
    assert(violations.deep_view() =~= before + pointer_findings(r.pointer));
    extend(violations, scan_weave_root_identity(&r.roots));
    push_unparsed(violations, &world.unparseable_projects);
    let found: Vec<LegacyManifestFile> = scan_workspace_for_legacy_manifests(&r.project_dirs);
    push_legacy_formats(
        violations,
        &found,
        &scope,
        Ghost(legacy_manifests(r.project_dirs@)),
    );
    let markers: Vec<LegacyWorkweaveMarkerFile> = scan_for_legacy_workweave_markers(&r.marker_dirs);
    push_legacy_markers(violations, &markers);
    push_pending(violations, &r.pending_indexes, &scope);
    assert(violations.deep_view() =~= start + project_level(*world, *r));
}

/// What the weave as a whole raises.
fn push_weave_level(
    violations: &mut Vec<CheckViolation>,
    r: &DoctorReadings,
    cargo: Vec<CargoReading>,
    submodules: Vec<SubmoduleReading>,
)
    ensures
        final(violations).deep_view() == old(violations).deep_view() + weave_level(
            *r,
            cargo@,
            submodules@,
        ),
{
    let ghost start = violations.deep_view();
    extend(violations, scan_workweave_tree_integrity(&r.tree));
    extend(violations, scan_confusable_siblings(&r.siblings));
    extend(violations, scan_provenance(&r.provenance));
    extend(violations, scan_phantom_merge_drivers(&r.attributes));
    push_cargo(violations, cargo);
    let ghost before = violations.deep_view();
    if r.from_primary {
        extend(violations, scan_uninitialized_submodules_in_workweaves(submodules));
    }
    assert(violations.deep_view() =~= before + submodule_level(*r, submodules@));
    extend(violations, scan_clone_topology(&r.stores));
    assert(violations.deep_view() =~= start + weave_level(*r, cargo@, submodules@));
}

/// Collects everything a run finds. Both the report and the wire format take
/// their findings from here, so neither can miss what the other shows.
pub fn collect_doctor_violations(
    world: &DoctorWorld,
    r: &DoctorReadings,
    cargo: Vec<CargoReading>,
    submodules: Vec<SubmoduleReading>,
) -> (violations: Vec<CheckViolation>)
    ensures
        violations.deep_view() == doctor_findings(*world, *r, cargo@, submodules@),
{
    let scope: Option<ProjectName> = world.project_scope();
    let mut violations: Vec<CheckViolation> = Vec::new();
    let ghost a = project_level(*world, *r);
    let ghost b = a + weave_level(*r, cargo@, submodules@);
    let ghost c = b + branch_level(*world, *r);
    push_project_level(&mut violations, world, r);
    assert(violations.deep_view() =~= a);
    push_weave_level(&mut violations, r, cargo, submodules);
    assert(violations.deep_view() =~= b);
    extend(&mut violations, scan_dangling_receipts(&r.receipts, &scope));
    extend(&mut violations, scan_pre_flat_receipts(&r.branches.recorded, &scope));
    push_in_scope(&mut violations, scan_branch_discipline(&r.branches), &r.scope, &scope);
    assert(violations.deep_view() =~= c);
    push_drift(&mut violations, &r.drift);
    extend(&mut violations, scan_state_hygiene(&r.hygiene, &r.op_states));
    push_probes(&mut violations, &r.probes, &r.config_key);
    assert(violations.deep_view() =~= c + checkout_level(*r));
    push_failures(&mut violations, world);
    violations
}

/// Only a workweave's checkout can lack its clone: in the weave itself the
/// checkout is the clone.
pub proof fn only_workweaves_lack_clones(d: DriftReading, i: int)
    requires
        0 <= i < drift_findings()(d).len(),
    ensures
        drift_findings()(d)[i] is MissingCanonicalClone ==> d.target.workweave is Some,
        drift_findings()(d)[i] is MissingCanonicalClone ==> drift_findings()(d).len() == 1,
{
}

/// A checkout that is clean and whose clone is there raises nothing.
pub proof fn clean_checkouts_raise_nothing(d: DriftReading)
    requires
        d.dirty == Some(false),
        d.clone_is_there,
    ensures
        drift_findings()(d).len() == 0,
{
}

proof fn project_level_holds(w: DoctorWorld, r: DoctorReadings, v: CheckViolationView)
    ensures
        ({
            let scope = scope_of(w.scope_all, w.active_project);
            project_level(w, r).contains(v) <==> {
                ||| input_findings(w.input).contains(v)
                ||| pointer_findings(r.pointer).contains(v)
                ||| identity_findings(r.roots@).contains(v)
                ||| w.unparseable_projects@.flat_map(unparsed_finding()).contains(v)
                ||| legacy_manifests(r.project_dirs@).flat_map(legacy_format_rule(scope)).contains(v)
                ||| legacy_markers(r.marker_dirs@).flat_map(legacy_marker_finding()).contains(v)
                ||| r.pending_indexes@.flat_map(pending_rule(scope)).contains(v)
            }
        }),
{
    let scope = scope_of(w.scope_all, w.active_project);
    let a = input_findings(w.input);
    let b = pointer_findings(r.pointer);
    let c = identity_findings(r.roots@);
    let d = w.unparseable_projects@.flat_map(unparsed_finding());
    let e = legacy_manifests(r.project_dirs@).flat_map(legacy_format_rule(scope));
    let f = legacy_markers(r.marker_dirs@).flat_map(legacy_marker_finding());
    let g = r.pending_indexes@.flat_map(pending_rule(scope));
    joined_lists_contain(a, b, v);
    joined_lists_contain(a + b, c, v);
    joined_lists_contain(a + b + c, d, v);
    joined_lists_contain(a + b + c + d, e, v);
    joined_lists_contain(a + b + c + d + e, f, v);
    joined_lists_contain(a + b + c + d + e + f, g, v);
}

proof fn weave_level_holds(
    r: DoctorReadings,
    cargo: Seq<CargoReading>,
    submodules: Seq<SubmoduleReading>,
    v: CheckViolationView,
)
    ensures
        weave_level(r, cargo, submodules).contains(v) <==> {
            ||| tree_findings(r.tree).contains(v)
            ||| sibling_findings(r.siblings@).contains(v)
            ||| r.provenance@.flat_map(|p: ProvenanceReading| provenance_findings(p)).contains(v)
            ||| indices(r.attributes@.len()).flat_map(phantom_findings(r.attributes@)).contains(v)
            ||| cargo.flat_map(cargo_rule()).contains(v)
            ||| r.from_primary && submodules.flat_map(
                |s: SubmoduleReading| submodule_findings(s),
            ).contains(v)
            ||| r.stores@.flat_map(|s: RepoStores| repo_topology_findings(s)).contains(v)
        },
{
    let a = tree_findings(r.tree);
    let b = sibling_findings(r.siblings@);
    let c = r.provenance@.flat_map(|p: ProvenanceReading| provenance_findings(p));
    let d = indices(r.attributes@.len()).flat_map(phantom_findings(r.attributes@));
    let e = cargo.flat_map(cargo_rule());
    let f = submodule_level(r, submodules);
    let g = r.stores@.flat_map(|s: RepoStores| repo_topology_findings(s));
    joined_lists_contain(a, b, v);
    joined_lists_contain(a + b, c, v);
    joined_lists_contain(a + b + c, d, v);
    joined_lists_contain(a + b + c + d, e, v);
    joined_lists_contain(a + b + c + d + e, f, v);
    joined_lists_contain(a + b + c + d + e + f, g, v);
}

proof fn failure_level_holds(w: DoctorWorld, v: CheckViolationView)
    ensures
        failure_level(w).contains(v) <==> {
            ||| w.head_read_failures@.flat_map(head_finding()).contains(v)
            ||| w.lock_resolve_failures@.flat_map(pin_finding()).contains(v)
            ||| listing_findings(w.projects_dir_read_error).contains(v)
            ||| w.projectless@.flat_map(projectless_finding()).contains(v)
            ||| w.unnameable@.flat_map(unnameable_finding()).contains(v)
        },
{
    let a = w.head_read_failures@.flat_map(head_finding());
    let b = w.lock_resolve_failures@.flat_map(pin_finding());
    let c = listing_findings(w.projects_dir_read_error);
    let d = w.projectless@.flat_map(projectless_finding());
    let e = w.unnameable@.flat_map(unnameable_finding());
    joined_lists_contain(a, b, v);
    joined_lists_contain(a + b, c, v);
    joined_lists_contain(a + b + c, d, v);
    joined_lists_contain(a + b + c + d, e, v);
}

/// A run reports what its scans found, all of it and nothing else. The branch
/// scan alone is narrowed afterwards, to the project in scope, and submodules
/// are looked at from the primary alone.
pub proof fn runs_report_what_scans_find(
    w: DoctorWorld,
    r: DoctorReadings,
    cargo: Seq<CargoReading>,
    submodules: Seq<SubmoduleReading>,
    v: CheckViolationView,
)
    ensures
        ({
            let scope = scope_of(w.scope_all, w.active_project);
            doctor_findings(w, r, cargo, submodules).contains(v) <==> {
                ||| input_findings(w.input).contains(v)
                ||| pointer_findings(r.pointer).contains(v)
                ||| identity_findings(r.roots@).contains(v)
                ||| w.unparseable_projects@.flat_map(unparsed_finding()).contains(v)
                ||| legacy_manifests(r.project_dirs@).flat_map(legacy_format_rule(scope)).contains(v)
                ||| legacy_markers(r.marker_dirs@).flat_map(legacy_marker_finding()).contains(v)
                ||| r.pending_indexes@.flat_map(pending_rule(scope)).contains(v)
                ||| tree_findings(r.tree).contains(v)
                ||| sibling_findings(r.siblings@).contains(v)
                ||| r.provenance@.flat_map(|p: ProvenanceReading| provenance_findings(p)).contains(v)
                ||| indices(r.attributes@.len()).flat_map(phantom_findings(r.attributes@)).contains(
                    v,
                )
                ||| cargo.flat_map(cargo_rule()).contains(v)
                ||| r.from_primary && submodules.flat_map(
                    |s: SubmoduleReading| submodule_findings(s),
                ).contains(v)
                ||| r.stores@.flat_map(|s: RepoStores| repo_topology_findings(s)).contains(v)
                ||| r.receipts@.flat_map(dangling_receipt_rule(scope)).contains(v)
                ||| r.branches.recorded.projects@.flat_map(
                    pre_flat_receipt_rule(r.branches.recorded, scope),
                ).contains(v)
                ||| discipline_findings(r.branches).contains(v) && (scope matches Some(active)
                    ==> finding_in_scope(r.scope, v, active))
                ||| r.drift@.flat_map(drift_findings()).contains(v)
                ||| hygiene_findings(r.hygiene@, r.op_states@).contains(v)
                ||| r.probes@.flat_map(probe_findings(r.config_key@)).contains(v)
                ||| w.head_read_failures@.flat_map(head_finding()).contains(v)
                ||| w.lock_resolve_failures@.flat_map(pin_finding()).contains(v)
                ||| listing_findings(w.projects_dir_read_error).contains(v)
                ||| w.projectless@.flat_map(projectless_finding()).contains(v)
                ||| w.unnameable@.flat_map(unnameable_finding()).contains(v)
            }
        }),
{
    let scope = scope_of(w.scope_all, w.active_project);
    project_level_holds(w, r, v);
    weave_level_holds(r, cargo, submodules, v);
    failure_level_holds(w, v);
    let p = project_level(w, r);
    let q = weave_level(r, cargo, submodules);
    let b = branch_level(w, r);
    let c = checkout_level(r);
    joined_lists_contain(p, q, v);
    joined_lists_contain(p + q, b, v);
    joined_lists_contain(p + q + b, c, v);
    joined_lists_contain(p + q + b + c, failure_level(w), v);
    let b1 = r.receipts@.flat_map(dangling_receipt_rule(scope));
    let b2 = r.branches.recorded.projects@.flat_map(
        pre_flat_receipt_rule(r.branches.recorded, scope),
    );
    let kept = kept_in_scope(r.scope, scope);
    let b3 = discipline_findings(r.branches).flat_map(kept);
    joined_lists_contain(b1, b2, v);
    joined_lists_contain(b1 + b2, b3, v);
    in_scope_findings_are_kept(discipline_findings(r.branches), r.scope, scope, v);
    let c1 = r.drift@.flat_map(drift_findings());
    let c2 = hygiene_findings(r.hygiene@, r.op_states@);
    let c3 = r.probes@.flat_map(probe_findings(r.config_key@));
    joined_lists_contain(c1, c2, v);
    joined_lists_contain(c1 + c2, c3, v);
}

proof fn in_scope_findings_are_kept(
    found: Seq<CheckViolationView>,
    s: ScopeReading,
    scope: Option<Seq<char>>,
    v: CheckViolationView,
)
    ensures
        found.flat_map(kept_in_scope(s, scope)).contains(v) <==> found.contains(v) && (
        scope matches Some(active) ==> finding_in_scope(s, v, active)),
{
    let kept = kept_in_scope(s, scope);
    flat_map_contains(found, kept, v);
    if found.flat_map(kept).contains(v) {
        let i = choose|i: int| 0 <= i < found.len() && (#[trigger] kept(found[i])).contains(v);
        single_contains(found[i], v);
        assert(found.contains(found[i]));
    }
    if found.contains(v) && (scope matches Some(active) ==> finding_in_scope(s, v, active)) {
        let i = choose|i: int| 0 <= i < found.len() && found[i] == v;
        single_contains(found[i], v);
        assert(kept(found[i]).contains(v));
    }
}

/// A checkout that drifts is reported where it is, in its own workweave and
/// repo, and what is known to be committed is told apart from live work. A
/// worktree whose clone is gone is reported as that alone.
pub proof fn drift_is_reported_in_place(d: DriftReading, v: CheckViolationView)
    requires
        drift_findings()(d).contains(v),
    ensures
        v matches CheckViolationView::IndexDrift { workweave, repo, kind } ==> {
            &&& workweave == d.target.workweave.deep_view()
            &&& repo == d.target.repo@
            &&& d.index is RecentAncestorTree <==> kind == IndexDriftKind::SafeToFix
            &&& d.index is Unrecognized <==> kind == IndexDriftKind::LiveStaged
        },
        v matches CheckViolationView::WorkingTreeDrift { workweave, repo, kind } ==> {
            &&& workweave == d.target.workweave.deep_view()
            &&& repo == d.target.repo@
            &&& d.tree is RestorableFromHead <==> kind == WorkingTreeDriftKind::SafeToFix
            &&& d.tree is Unrecognized <==> kind == WorkingTreeDriftKind::LiveEdits
        },
        v matches CheckViolationView::MissingCanonicalClone { workweave, repo, canonical_path }
            ==> Some(workweave) == d.target.workweave.deep_view() && repo == d.target.repo@
            && !d.clone_is_there && clone_of_worktree(d.link, d.common) == Some(canonical_path),
        v is IndexDrift || v is WorkingTreeDrift || v is MissingCanonicalClone,
        !(v is MissingCanonicalClone) ==> d.dirty != Some(false),
{
    joined_lists_contain(index_findings(d), tree_drift_findings(d), v);
}

/// A checkout whose clone is there and which may be dirty is reported for its
/// index and for its files, each exactly where it differs from HEAD.
pub proof fn dirty_checkouts_are_reported(d: DriftReading)
    requires
        d.clone_is_there || d.target.workweave is None,
        d.dirty != Some(false),
    ensures
        !(d.index is MatchesHead) <==> exists|v: CheckViolationView|
            #[trigger] drift_findings()(d).contains(v) && v is IndexDrift,
        !(d.tree is MatchesHead) <==> exists|v: CheckViolationView|
            #[trigger] drift_findings()(d).contains(v) && v is WorkingTreeDrift,
{
    let a = index_findings(d);
    let b = tree_drift_findings(d);
    if !(d.index is MatchesHead) {
        assert((a + b)[0] is IndexDrift);
        assert(drift_findings()(d).contains((a + b)[0]));
    }
    if !(d.tree is MatchesHead) {
        assert((a + b).last() is WorkingTreeDrift);
        assert(drift_findings()(d).contains((a + b).last()));
    }
    assert forall|v: CheckViolationView| #[trigger] drift_findings()(d).contains(v) implies (v
        is IndexDrift ==> !(d.index is MatchesHead)) && (v is WorkingTreeDrift ==> !(d.tree
        is MatchesHead)) by {
        drift_is_reported_in_place(d, v);
    }
}

/// A project's repo is reported where its replay exclusion is not current and
/// where its merge driver is not configured; what could not be read is told as
/// that, and a project without a directory raises nothing.
pub proof fn project_repos_are_probed(p: ProjectProbe, key: Seq<char>, v: CheckViolationView)
    ensures
        probe_findings(key)(p).contains(v) <==> p.is_dir && match v {
            CheckViolationView::MissingReplayExclusion { project, sub_kind } => project
                == p.project@ && (p.exclusion matches Ok(state) && exclusion_gap(state) == Some(
                sub_kind,
            )),
            CheckViolationView::ReplayExclusionUnreadable { project, error } => project
                == p.project@ && (p.exclusion matches Err(e) && e@ == error),
            CheckViolationView::MissingMergeDriverConfig { project, config_key } => project
                == p.project@ && config_key == key && p.driver == Ok::<bool, String>(false),
            CheckViolationView::MergeDriverConfigUnreadable { project, config_key, error } => {
                project == p.project@ && config_key == key && (p.driver matches Err(e) && e@
                    == error)
            },
            _ => false,
        },
{
    joined_lists_contain(exclusion_findings(p), driver_findings(p, key), v);
    if exclusion_findings(p).len() > 0 {
        single_contains(exclusion_findings(p)[0], v);
        assert(exclusion_findings(p) =~= seq![exclusion_findings(p)[0]]);
    }
    if driver_findings(p, key).len() > 0 {
        single_contains(driver_findings(p, key)[0], v);
        assert(driver_findings(p, key) =~= seq![driver_findings(p, key)[0]]);
    }
}

/// The active-project pointer is reported exactly where its directory is gone.
pub proof fn dangling_pointers_are_reported(
    pointer: Option<PointerReading>,
    project: Seq<char>,
    dir: Seq<char>,
)
    ensures
        pointer_findings(pointer).contains(
            CheckViolationView::DanglingActiveProject { project, missing_dir: dir },
        ) <==> (pointer matches Some(p) && !p.is_there && p.project@ == project && p.dir@ == dir),
        pointer_findings(pointer).len() <= 1,
{
    if let Some(p) = pointer {
        single_contains(
            CheckViolationView::DanglingActiveProject { project: p.project@, missing_dir: p.dir@ },
            CheckViolationView::DanglingActiveProject { project, missing_dir: dir },
        );
    }
}

/// What could not be read or named is told field by field.
pub proof fn failures_are_told(w: DoctorWorld, i: int)
    ensures
        0 <= i < w.head_read_failures@.len() ==> failure_level(w).contains(
            CheckViolationView::HeadUnreadable {
                repo: w.head_read_failures@[i].0@,
                error: w.head_read_failures@[i].1@,
            },
        ),
        0 <= i < w.lock_resolve_failures@.len() ==> failure_level(w).contains(
            CheckViolationView::UnresolvableLockEntry {
                project: w.lock_resolve_failures@[i].0@,
                repo: w.lock_resolve_failures@[i].1@,
            },
        ),
        w.projects_dir_read_error matches Some(e) ==> failure_level(w).contains(
            CheckViolationView::ProjectsDirUnreadable { path: e.0@, error: e.1@ },
        ),
        0 <= i < w.projectless@.len() ==> failure_level(w).contains(
            CheckViolationView::ProjectlessDir { dir: w.projectless@[i]@ },
        ),
        0 <= i < w.unnameable@.len() ==> failure_level(w).contains(
            CheckViolationView::UnnameableProject {
                dir: w.unnameable@[i].dir@,
                derived: w.unnameable@[i].derived@,
                error: w.unnameable@[i].error@,
            },
        ),
{
    if 0 <= i < w.head_read_failures@.len() {
        let v = head_finding()(w.head_read_failures@[i])[0];
        assert(head_finding()(w.head_read_failures@[i]).contains(v));
        flat_map_holds(w.head_read_failures@, head_finding(), i, v);
        failure_level_holds(w, v);
    }
    if 0 <= i < w.lock_resolve_failures@.len() {
        let v = pin_finding()(w.lock_resolve_failures@[i])[0];
        assert(pin_finding()(w.lock_resolve_failures@[i]).contains(v));
        flat_map_holds(w.lock_resolve_failures@, pin_finding(), i, v);
        failure_level_holds(w, v);
    }
    if let Some(e) = w.projects_dir_read_error {
        let v = listing_findings(w.projects_dir_read_error)[0];
        assert(listing_findings(w.projects_dir_read_error).contains(v));
        failure_level_holds(w, v);
    }
    if 0 <= i < w.projectless@.len() {
        let v = projectless_finding()(w.projectless@[i])[0];
        assert(projectless_finding()(w.projectless@[i]).contains(v));
        flat_map_holds(w.projectless@, projectless_finding(), i, v);
        failure_level_holds(w, v);
    }
    if 0 <= i < w.unnameable@.len() {
        let v = unnameable_finding()(w.unnameable@[i])[0];
        assert(unnameable_finding()(w.unnameable@[i]).contains(v));
        flat_map_holds(w.unnameable@, unnameable_finding(), i, v);
        failure_level_holds(w, v);
    }
}

/// Leftovers of earlier formats are reported for the projects in scope, and for
/// every project where the scope is none; what cannot be parsed is reported
/// whatever the scope.
pub proof fn earlier_formats_are_reported(
    scope: Option<Seq<char>>,
    d: ProjectDirReading,
    p: PendingIndex,
    u: UnparsedProject,
)
    ensures
        legacy_format_rule(scope)(d).contains(
            CheckViolationView::LegacyManifestFormat {
                project: d.relative@,
                legacy_path: d.legacy_path@,
                refusal: d.refusal@,
            },
        ) <==> (scope matches Some(active) ==> d.relative@ == active),
        p.index_path matches Some(path) ==> (pending_rule(scope)(p).contains(
            CheckViolationView::LegacyWorkweaveIndex { project: p.project@, index_path: path@ },
        ) <==> (scope matches Some(active) ==> p.project@ == active)),
        p.index_path is None ==> pending_rule(scope)(p).len() == 0,
        unparsed_finding()(u).contains(
            CheckViolationView::UnparseableProject {
                project: u.name@,
                manifest_path: u.manifest_path@,
                message: u.message@,
            },
        ),
{
    if legacy_format_rule(scope)(d).len() > 0 {
        assert(legacy_format_rule(scope)(d).contains(legacy_format_rule(scope)(d)[0]));
    }
    if pending_rule(scope)(p).len() > 0 {
        assert(pending_rule(scope)(p).contains(pending_rule(scope)(p)[0]));
    }
    assert(unparsed_finding()(u).contains(unparsed_finding()(u)[0]));
}

} // verus!
