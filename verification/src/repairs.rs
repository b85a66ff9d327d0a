//! Repairs of collected findings, and the small repairs they are made of.
//!
//! The plan says what is to be done for each finding; what came of it is
//! settled afterwards, which decides what is told and what stays reported.

use vstd::prelude::*;
use crate::kinds::repaired_unasked;
use crate::legacy::LegacyWorkweaveMarkerFile;
use crate::lists::{flat_map_contains, single_contains};
use crate::paths::{dir_above, parent_dir};
use crate::text::{location, location_text, telling, tells};
use crate::violation::{
    BranchDisciplineKind, CheckViolation, IndexDriftKind, OrphanedSavepointKind, PathText,
    ProjectName, RepoPath, WorkingTreeDriftKind, WorkweaveName, WorkweaveTreeIntegrityKind,
};
use crate::violation_view::{
    BranchDisciplineKindView, CheckViolationView, WorkweaveTreeIntegrityKindView,
};

verus! {

/// A marker that was pointed at the primary.
pub open spec fn repointed_text(dir: Seq<char>) -> Seq<char> {
    "[fixed] core: re-pointed dangling parent of "@ + dir + " to primary"@
}

/// Words it: a marker that was pointed at the primary.
fn repointed(dir: &String) -> (text: String)
    ensures
        text@ == repointed_text(dir@),
{
    "[fixed] core: re-pointed dangling parent of ".to_owned()
        .concat(dir)
        .concat(" to primary")
}

/// A registry entry that was dropped.
pub open spec fn entry_pruned_text(name: Seq<char>, path: Seq<char>, project: Seq<char>) -> Seq<char> {
    "[fixed] core: pruned stale registry entry `"@
        + name
        + "` → "@
        + path
        + " in project `"@
        + project
        + "`"@
}

/// Words it: a registry entry that was dropped.
fn entry_pruned(name: &String, path: &String, project: &String) -> (text: String)
    ensures
        text@ == entry_pruned_text(name@, path@, project@),
{
    "[fixed] core: pruned stale registry entry `".to_owned()
        .concat(name)
        .concat("` → ")
        .concat(path)
        .concat(" in project `")
        .concat(project)
        .concat("`")
}

/// A workweave that was recorded.
pub open spec fn workweave_adopted_text(name: Seq<char>, dir: Seq<char>, project: Seq<char>) -> Seq<char> {
    "[fixed] core: adopted workweave `"@
        + name
        + "` at "@
        + dir
        + " into project `"@
        + project
        + "`'s registry"@
}

/// Words it: a workweave that was recorded.
fn workweave_adopted(name: &String, dir: &String, project: &String) -> (text: String)
    ensures
        text@ == workweave_adopted_text(name@, dir@, project@),
{
    "[fixed] core: adopted workweave `".to_owned()
        .concat(name)
        .concat("` at ")
        .concat(dir)
        .concat(" into project `")
        .concat(project)
        .concat("`'s registry")
}

/// An index that was made to match HEAD.
pub open spec fn index_refreshed_text(at: Seq<char>) -> Seq<char> {
    "[fixed] core: index refreshed for "@ + at
}

/// Words it: an index that was made to match HEAD.
fn index_refreshed(at: &String) -> (text: String)
    ensures
        text@ == index_refreshed_text(at@),
{
    "[fixed] core: index refreshed for ".to_owned().concat(at)
}

/// A working tree that was made to match HEAD.
pub open spec fn tree_refreshed_text(at: Seq<char>) -> Seq<char> {
    "[fixed] core: working tree refreshed for "@ + at
}

/// Words it: a working tree that was made to match HEAD.
fn tree_refreshed(at: &String) -> (text: String)
    ensures
        text@ == tree_refreshed_text(at@),
{
    "[fixed] core: working tree refreshed for ".to_owned().concat(at)
}

/// A worktree registration that was dropped.
pub open spec fn registration_pruned_text(at: Seq<char>) -> Seq<char> {
    "[fixed] core: stale-worktree-registration for "@ + at + ": pruned"@
}

/// Words it: a worktree registration that was dropped.
fn registration_pruned(at: &String) -> (text: String)
    ensures
        text@ == registration_pruned_text(at@),
{
    "[fixed] core: stale-worktree-registration for ".to_owned()
        .concat(at)
        .concat(": pruned")
}

/// A savepoint that was dropped.
pub open spec fn savepoint_dropped_text(at: Seq<char>, op_id: Seq<char>) -> Seq<char> {
    "[fixed] core: orphaned-savepoint for "@ + at + ": dropped op_id="@ + op_id
}

/// Words it: a savepoint that was dropped.
fn savepoint_dropped(at: &String, op_id: &String) -> (text: String)
    ensures
        text@ == savepoint_dropped_text(at@, op_id@),
{
    "[fixed] core: orphaned-savepoint for ".to_owned()
        .concat(at)
        .concat(": dropped op_id=")
        .concat(op_id)
}

/// A lease that was removed.
pub open spec fn lease_removed_text(dir: Seq<char>, op_id: Seq<char>) -> Seq<char> {
    "[fixed] core: dead-op-lease for "@ + dir + ": removed lease (op_id="@ + op_id + ")"@
}

/// Words it: a lease that was removed.
fn lease_removed(dir: &String, op_id: &String) -> (text: String)
    ensures
        text@ == lease_removed_text(dir@, op_id@),
{
    "[fixed] core: dead-op-lease for ".to_owned()
        .concat(dir)
        .concat(": removed lease (op_id=")
        .concat(op_id)
        .concat(")")
}

/// A marker that could not be pointed at the primary.
pub open spec fn repoint_failed_text(error: Seq<char>) -> Seq<char> {
    "dangling-parent --fix failed: "@ + error
}

/// Words it: a marker that could not be pointed at the primary.
fn repoint_failed(error: &String) -> (text: String)
    ensures
        text@ == repoint_failed_text(error@),
{
    "dangling-parent --fix failed: ".to_owned().concat(error)
}

/// A registry entry that could not be dropped.
pub open spec fn prune_entry_failed_text(name: Seq<char>, project: Seq<char>, error: Seq<char>) -> Seq<char> {
    "workweave-index --fix failed: prune of stale entry `"@
        + name
        + "` in `"@
        + project
        + "` failed: "@
        + error
}

/// Words it: a registry entry that could not be dropped.
fn prune_entry_failed(name: &String, project: &String, error: &String) -> (text: String)
    ensures
        text@ == prune_entry_failed_text(name@, project@, error@),
{
    "workweave-index --fix failed: prune of stale entry `".to_owned()
        .concat(name)
        .concat("` in `")
        .concat(project)
        .concat("` failed: ")
        .concat(error)
}

/// A workweave that could not be recorded.
pub open spec fn adopt_failed_text(name: Seq<char>, dir: Seq<char>, error: Seq<char>) -> Seq<char> {
    "workweave-index --fix failed: adopt of workweave `"@
        + name
        + "` at "@
        + dir
        + " failed: "@
        + error
}

/// Words it: a workweave that could not be recorded.
fn adopt_failed(name: &String, dir: &String, error: &String) -> (text: String)
    ensures
        text@ == adopt_failed_text(name@, dir@, error@),
{
    "workweave-index --fix failed: adopt of workweave `".to_owned()
        .concat(name)
        .concat("` at ")
        .concat(dir)
        .concat(" failed: ")
        .concat(error)
}

/// An index that could not be reset.
pub open spec fn index_failed_text(at: Seq<char>, error: Seq<char>) -> Seq<char> {
    at + ": index fix failed: "@ + error
}

/// Words it: an index that could not be reset.
fn index_failed(at: &String, error: &String) -> (text: String)
    ensures
        text@ == index_failed_text(at@, error@),
{
    at.clone().concat(": index fix failed: ").concat(error)
}

/// A working tree that could not be restored.
pub open spec fn tree_failed_text(at: Seq<char>, error: Seq<char>) -> Seq<char> {
    at + ": working-tree fix failed: "@ + error
}

/// Words it: a working tree that could not be restored.
fn tree_failed(at: &String, error: &String) -> (text: String)
    ensures
        text@ == tree_failed_text(at@, error@),
{
    at.clone().concat(": working-tree fix failed: ").concat(error)
}

/// A leftover that could not be cleared.
pub open spec fn hygiene_failed_text(error: Seq<char>) -> Seq<char> {
    "state-hygiene --fix failed: "@ + error
}

/// Words it: a leftover that could not be cleared.
fn hygiene_failed(error: &String) -> (text: String)
    ensures
        text@ == hygiene_failed_text(error@),
{
    "state-hygiene --fix failed: ".to_owned().concat(error)
}

/// A marker that was rewritten.
pub open spec fn marker_migrated_text(path: Seq<char>) -> Seq<char> {
    "[fixed] core: migrated legacy workweave marker "@ + path + " to JSON"@
}

/// Words it: a marker that was rewritten.
fn marker_migrated(path: &String) -> (text: String)
    ensures
        text@ == marker_migrated_text(path@),
{
    "[fixed] core: migrated legacy workweave marker ".to_owned()
        .concat(path)
        .concat(" to JSON")
}

/// A marker that could not be rewritten.
pub open spec fn marker_failed_text(error: Seq<char>) -> Seq<char> {
    "legacy workweave marker fix failed: "@ + error
}

/// Words it: a marker that could not be rewritten.
fn marker_failed(error: &String) -> (text: String)
    ensures
        text@ == marker_failed_text(error@),
{
    "legacy workweave marker fix failed: ".to_owned().concat(error)
}

/// A marker that could not be read for its repair.
pub open spec fn marker_unreadable_text(dir: Seq<char>) -> Seq<char> {
    "failed to read "@ + dir + "/.rwv-workweave for --fix"@
}

/// Words it: a marker that could not be read for its repair.
fn marker_unreadable(dir: &String) -> (text: String)
    ensures
        text@ == marker_unreadable_text(dir@),
{
    "failed to read ".to_owned().concat(dir).concat("/.rwv-workweave for --fix")
}

/// A marker that went away before its repair.
pub open spec fn marker_vanished_text(dir: Seq<char>) -> Seq<char> {
    dir + "/.rwv-workweave vanished before --fix could re-point it"@
}

/// Words it: a marker that went away before its repair.
fn marker_vanished(dir: &String) -> (text: String)
    ensures
        text@ == marker_vanished_text(dir@),
{
    dir.clone().concat("/.rwv-workweave vanished before --fix could re-point it")
}

/// A marker that could not be written.
pub open spec fn marker_unwritten_text(dir: Seq<char>) -> Seq<char> {
    "failed to write "@ + dir + "/.rwv-workweave during --fix"@
}

/// Words it: a marker that could not be written.
fn marker_unwritten(dir: &String) -> (text: String)
    ensures
        text@ == marker_unwritten_text(dir@),
{
    "failed to write ".to_owned().concat(dir).concat("/.rwv-workweave during --fix")
}

/// Staged paths that could not be read.
pub open spec fn staged_unreadable_text(dir: Seq<char>) -> Seq<char> {
    "failed to read staged paths in "@ + dir
}

/// Words it: staged paths that could not be read.
fn staged_unreadable(dir: &String) -> (text: String)
    ensures
        text@ == staged_unreadable_text(dir@),
{
    "failed to read staged paths in ".to_owned().concat(dir)
}

/// An attributes file that could not be staged.
pub open spec fn stage_failed_text(dir: Seq<char>) -> Seq<char> {
    "failed to stage .gitattributes in "@ + dir
}

/// Words it: an attributes file that could not be staged.
fn stage_failed(dir: &String) -> (text: String)
    ensures
        text@ == stage_failed_text(dir@),
{
    "failed to stage .gitattributes in ".to_owned().concat(dir)
}

/// Staged changes that could not be looked for.
pub open spec fn staged_unchecked_text(dir: Seq<char>) -> Seq<char> {
    "failed to check staged changes in "@ + dir
}

/// Words it: staged changes that could not be looked for.
fn staged_unchecked(dir: &String) -> (text: String)
    ensures
        text@ == staged_unchecked_text(dir@),
{
    "failed to check staged changes in ".to_owned().concat(dir)
}

/// A commit that failed.
pub open spec fn commit_failed_text(dir: Seq<char>) -> Seq<char> {
    "failed to commit in "@ + dir
}

/// Words it: a commit that failed.
fn commit_failed(dir: &String) -> (text: String)
    ensures
        text@ == commit_failed_text(dir@),
{
    "failed to commit in ".to_owned().concat(dir)
}

/// Where the checkouts a finding can name are. A later entry replaces an
/// earlier one for the same checkout.
#[derive(Debug)]
pub struct RepoLocation {
    pub workweave: Option<WorkweaveName>,
    pub repo: RepoPath,
    pub abs: PathText,
}

/// Where a checkout is.
pub open spec fn location_of(
    locations: Seq<RepoLocation>,
    workweave: Option<Seq<char>>,
    repo: Seq<char>,
) -> Option<Seq<char>>
    decreases locations.len(),
{
    if locations.len() == 0 {
        None
    } else if locations.last().workweave.deep_view() == workweave && locations.last().repo@
        == repo {
        Some(locations.last().abs@)
    } else {
        location_of(locations.drop_last(), workweave, repo)
    }
}

/// Whether two workweave names are the same, or both absent.
fn same_workweave(a: &Option<WorkweaveName>, b: &Option<WorkweaveName>) -> (same: bool)
    ensures
        same == (a.deep_view() == b.deep_view()),
{
    match (a, b) {
        (Some(x), Some(y)) => *x == *y,
        (None, None) => true,
        _ => false,
    }
}

/// Finds where a checkout is.
pub fn locate(
    locations: &Vec<RepoLocation>,
    workweave: &Option<WorkweaveName>,
    repo: &RepoPath,
) -> (abs: Option<PathText>)
    ensures
        abs.deep_view() == location_of(locations@, workweave.deep_view(), repo@),
{
    let mut i: usize = locations.len();
    assert(locations@.take(i as int) =~= locations@);
    while i > 0
        invariant
            0 <= i <= locations.len(),
            location_of(locations@, workweave.deep_view(), repo@) == location_of(
                locations@.take(i as int),
                workweave.deep_view(),
                repo@,
            ),
        decreases i,
    {
        proof {
            assert(locations@.take(i as int).last() == locations@[i - 1]);
            assert(locations@.take(i as int).drop_last() =~= locations@.take(i - 1));
        }
        i = i - 1;
        if same_workweave(&locations[i].workweave, workweave) && locations[i].repo == *repo {
            return Some(locations[i].abs.clone());
        }
    }
    None
}

/// What is to be done for a finding.
#[allow(inconsistent_fields)]
#[derive(Debug)]
pub enum FindingRepair {
    /// Nothing: the finding stays reported.
    Keep,
    /// See whether the branch was among those deleted.
    AwaitDeletion { store: PathText, branch: String },
    /// Point a workweave's marker at the primary.
    RepointParent { workweave_dir: PathText },
    /// Drop an entry from a project's registry.
    PruneEntry { project: String, workweave_name: String, recorded_path: PathText },
    /// Record a workweave in a project's registry.
    AdoptWorkweave { project: String, workweave_name: String, workweave_dir: PathText },
    /// Make the index match HEAD.
    ResetIndex { repo: PathText, location: String },
    /// Make the working tree match HEAD.
    RestoreTree { repo: PathText, location: String },
    /// Drop the worktree registrations whose directories are gone.
    PruneWorktrees { repo: PathText, location: String },
    /// Drop a savepoint.
    DropSavepoint { repo: PathText, location: String, op_id: String },
    /// Remove a lease.
    RemoveLease { workspace_dir: PathText, op_id: String },
}

/// A finding and what is to be done for it.
#[derive(Debug)]
pub struct PlannedRepair {
    pub finding: CheckViolation,
    pub repair: FindingRepair,
}

/// What a [`FindingRepair`] says.
pub enum FindingRepairView {
    Keep,
    AwaitDeletion { store: Seq<char>, branch: Seq<char> },
    RepointParent { workweave_dir: Seq<char> },
    PruneEntry { project: Seq<char>, workweave_name: Seq<char>, recorded_path: Seq<char> },
    AdoptWorkweave { project: Seq<char>, workweave_name: Seq<char>, workweave_dir: Seq<char> },
    ResetIndex { repo: Seq<char>, location: Seq<char> },
    RestoreTree { repo: Seq<char>, location: Seq<char> },
    PruneWorktrees { repo: Seq<char>, location: Seq<char> },
    DropSavepoint { repo: Seq<char>, location: Seq<char>, op_id: Seq<char> },
    RemoveLease { workspace_dir: Seq<char>, op_id: Seq<char> },
}

impl DeepView for FindingRepair {
    type V = FindingRepairView;

    open spec fn deep_view(&self) -> FindingRepairView {
        match *self {
            FindingRepair::Keep => FindingRepairView::Keep,
            FindingRepair::AwaitDeletion { store, branch } => FindingRepairView::AwaitDeletion {
                store: store@,
                branch: branch@,
            },
            FindingRepair::RepointParent { workweave_dir } => FindingRepairView::RepointParent {
                workweave_dir: workweave_dir@,
            },
            FindingRepair::PruneEntry { project, workweave_name, recorded_path } => FindingRepairView::PruneEntry {
                project: project@,
                workweave_name: workweave_name@,
                recorded_path: recorded_path@,
            },
            FindingRepair::AdoptWorkweave { project, workweave_name, workweave_dir } => FindingRepairView::AdoptWorkweave {
                project: project@,
                workweave_name: workweave_name@,
                workweave_dir: workweave_dir@,
            },
            FindingRepair::ResetIndex { repo, location } => FindingRepairView::ResetIndex {
                repo: repo@,
                location: location@,
            },
            FindingRepair::RestoreTree { repo, location } => FindingRepairView::RestoreTree {
                repo: repo@,
                location: location@,
            },
            FindingRepair::PruneWorktrees { repo, location } => FindingRepairView::PruneWorktrees {
                repo: repo@,
                location: location@,
            },
            FindingRepair::DropSavepoint { repo, location, op_id } => FindingRepairView::DropSavepoint {
                repo: repo@,
                location: location@,
                op_id: op_id@,
            },
            FindingRepair::RemoveLease { workspace_dir, op_id } => FindingRepairView::RemoveLease {
                workspace_dir: workspace_dir@,
                op_id: op_id@,
            },
        }
    }
}

/// What a [`PlannedRepair`] says.
pub struct PlannedRepairView {
    pub finding: CheckViolationView,
    pub repair: FindingRepairView,
}

impl DeepView for PlannedRepair {
    type V = PlannedRepairView;

    open spec fn deep_view(&self) -> PlannedRepairView {
        PlannedRepairView {
            finding: self.finding.deep_view(),
            repair: self.repair.deep_view(),
        }
    }
}

/// What is done in a checkout, where it is known where that is.
pub open spec fn at_location(
    locations: Seq<RepoLocation>,
    workweave: Option<Seq<char>>,
    repo: Seq<char>,
    repair: spec_fn(Seq<char>) -> FindingRepairView,
) -> FindingRepairView {
    match location_of(locations, workweave, repo) {
        Some(abs) => repair(abs),
        None => FindingRepairView::Keep,
    }
}

/// What is to be done for a finding. A finding that is only reported, and one
/// whose checkout is not known, is kept.
pub open spec fn repair_of(v: CheckViolationView, locations: Seq<RepoLocation>) -> FindingRepairView {
    match v {
        CheckViolationView::BranchDiscipline {
            repo_path,
            sub_kind: BranchDisciplineKindView::StaleEphemeralBranchSafe { branch, .. },
        } => FindingRepairView::AwaitDeletion { store: repo_path, branch },
        CheckViolationView::WorkweaveTreeIntegrity { workweave_dir, sub_kind } => match sub_kind {
            WorkweaveTreeIntegrityKindView::DanglingParent { .. } => {
                FindingRepairView::RepointParent { workweave_dir }
            },
            WorkweaveTreeIntegrityKindView::StaleRegistryEntry {
                project,
                workweave_name,
                recorded_path,
                ..
            } => FindingRepairView::PruneEntry { project, workweave_name, recorded_path },
            WorkweaveTreeIntegrityKindView::UnregisteredWorkweave { project, workweave_name } => {
                FindingRepairView::AdoptWorkweave { project, workweave_name, workweave_dir }
            },
            _ => FindingRepairView::Keep,
        },
        CheckViolationView::IndexDrift { workweave, repo, kind } => if kind is SafeToFix {
            at_location(
                locations,
                workweave,
                repo,
                |abs: Seq<char>|
                    FindingRepairView::ResetIndex {
                        repo: abs,
                        location: location_text(workweave, repo),
                    },
            )
        } else {
            FindingRepairView::Keep
        },
        CheckViolationView::WorkingTreeDrift { workweave, repo, kind } => if kind is SafeToFix {
            at_location(
                locations,
                workweave,
                repo,
                |abs: Seq<char>|
                    FindingRepairView::RestoreTree {
                        repo: abs,
                        location: location_text(workweave, repo),
                    },
            )
        } else {
            FindingRepairView::Keep
        },
        CheckViolationView::StaleWorktreeRegistration { workweave, repo, .. } => at_location(
            locations,
            workweave,
            repo,
            |abs: Seq<char>|
                FindingRepairView::PruneWorktrees {
                    repo: abs,
                    location: location_text(workweave, repo),
                },
        ),
        CheckViolationView::OrphanedSavepoint { workweave, repo, op_id, sub_kind } => {
            if sub_kind is Redundant {
                at_location(
                    locations,
                    workweave,
                    repo,
                    |abs: Seq<char>|
                        FindingRepairView::DropSavepoint {
                            repo: abs,
                            location: location_text(workweave, repo),
                            op_id,
                        },
                )
            } else {
                FindingRepairView::Keep
            }
        },
        CheckViolationView::DeadOpLease { workspace_dir, op_id, .. } => {
            FindingRepairView::RemoveLease { workspace_dir, op_id }
        },
        _ => FindingRepairView::Keep,
    }
}

/// Nothing is done for a finding that `--fix` does not repair unasked: the
/// register of what may be repaired can narrow these repairs, and they never
/// go beyond it.
pub proof fn only_sanctioned_findings_are_repaired(
    v: CheckViolationView,
    locations: Seq<RepoLocation>,
)
    ensures
        !(repair_of(v, locations) is Keep) ==> repaired_unasked(v),
{
}

/// Decides what is to be done for a finding.
fn plan_repair(v: &CheckViolation, locations: &Vec<RepoLocation>) -> (repair: FindingRepair)
    ensures
        repair.deep_view() == repair_of(v.deep_view(), locations@),
{
    match v {
        CheckViolation::BranchDiscipline {
            repo_path,
            sub_kind: BranchDisciplineKind::StaleEphemeralBranchSafe { branch, .. },
        } => FindingRepair::AwaitDeletion { store: repo_path.clone(), branch: branch.clone() },
        CheckViolation::WorkweaveTreeIntegrity { workweave_dir, sub_kind } => match sub_kind {
            WorkweaveTreeIntegrityKind::DanglingParent { .. } => FindingRepair::RepointParent {
                workweave_dir: workweave_dir.clone(),
            },
            WorkweaveTreeIntegrityKind::StaleRegistryEntry {
                project,
                workweave_name,
                recorded_path,
                ..
            } => FindingRepair::PruneEntry {
                project: project.clone(),
                workweave_name: workweave_name.clone(),
                recorded_path: recorded_path.clone(),
            },
            WorkweaveTreeIntegrityKind::UnregisteredWorkweave { project, workweave_name } => {
                FindingRepair::AdoptWorkweave {
                    project: project.clone(),
                    workweave_name: workweave_name.clone(),
                    workweave_dir: workweave_dir.clone(),
                }
            },
            _ => FindingRepair::Keep,
        },
        CheckViolation::IndexDrift { workweave, repo, kind: IndexDriftKind::SafeToFix } => {
            match locate(locations, workweave, repo) {
                Some(abs) => FindingRepair::ResetIndex {
                    repo: abs,
                    location: location(workweave, repo),
                },
                None => FindingRepair::Keep,
            }
        },
        CheckViolation::WorkingTreeDrift {
            workweave,
            repo,
            kind: WorkingTreeDriftKind::SafeToFix,
        } => match locate(locations, workweave, repo) {
            Some(abs) => FindingRepair::RestoreTree {
                repo: abs,
                location: location(workweave, repo),
            },
            None => FindingRepair::Keep,
        },
        CheckViolation::StaleWorktreeRegistration { workweave, repo, .. } => {
            match locate(locations, workweave, repo) {
                Some(abs) => FindingRepair::PruneWorktrees {
                    repo: abs,
                    location: location(workweave, repo),
                },
                None => FindingRepair::Keep,
            }
        },
        CheckViolation::OrphanedSavepoint {
            workweave,
            repo,
            op_id,
            sub_kind: OrphanedSavepointKind::Redundant,
        } => match locate(locations, workweave, repo) {
            Some(abs) => FindingRepair::DropSavepoint {
                repo: abs,
                location: location(workweave, repo),
                op_id: op_id.clone(),
            },
            None => FindingRepair::Keep,
        },
        CheckViolation::DeadOpLease { workspace_dir, op_id, .. } => FindingRepair::RemoveLease {
            workspace_dir: workspace_dir.clone(),
            op_id: op_id.clone(),
        },
        _ => FindingRepair::Keep,
    }
}

/// What is planned for a stale worktree registration; nothing for any other
/// finding.
pub open spec fn registration_rule(locations: Seq<RepoLocation>) -> spec_fn(
    CheckViolationView,
) -> Seq<PlannedRepairView> {
    |v: CheckViolationView|
        if v is StaleWorktreeRegistration {
            seq![PlannedRepairView { finding: v, repair: repair_of(v, locations) }]
        } else {
            Seq::empty()
        }
}

/// What is planned for any other finding.
pub open spec fn other_rule(locations: Seq<RepoLocation>) -> spec_fn(CheckViolationView) -> Seq<
    PlannedRepairView,
> {
    |v: CheckViolationView|
        if v is StaleWorktreeRegistration {
            Seq::empty()
        } else {
            seq![PlannedRepairView { finding: v, repair: repair_of(v, locations) }]
        }
}

/// The repairs of a run, in two parts. A stale registration makes the deletion
/// of its branch fail, so the registrations come first, the deletions of the
/// branches left behind come next, and the rest follows.
#[derive(Debug)]
pub struct RepairPlan {
    pub registrations: Vec<PlannedRepair>,
    pub others: Vec<PlannedRepair>,
}

/// Plans the repairs of the collected findings, in the order they were found.
pub fn apply_finding_repairs(
    violations: Vec<CheckViolation>,
    locations: &Vec<RepoLocation>,
) -> (plan: RepairPlan)
    ensures
        plan.registrations.deep_view() == violations.deep_view().flat_map(
            registration_rule(locations@),
        ),
        plan.others.deep_view() == violations.deep_view().flat_map(other_rule(locations@)),
{
    let ghost all = violations.deep_view();
    let ghost f = registration_rule(locations@);
    let ghost g = other_rule(locations@);
    let mut registrations: Vec<PlannedRepair> = Vec::new();
    let mut others: Vec<PlannedRepair> = Vec::new();
    assert(registrations.deep_view() =~= all.take(0).flat_map(f));
    assert(others.deep_view() =~= all.take(0).flat_map(g));
    for v in it: violations
        invariant
            it.seq() == violations@,
            all == violations.deep_view(),
            f == registration_rule(locations@),
            g == other_rule(locations@),
            registrations.deep_view() == all.take(it.index() as int).flat_map(f),
            others.deep_view() == all.take(it.index() as int).flat_map(g),
    {
        let ghost i = it.index() as int;
        let ghost firsts = registrations.deep_view();
        let ghost rest = others.deep_view();
        proof {
            all.lemma_flat_map_take_append(f, i);
            all.lemma_flat_map_take_append(g, i);
            assert(all[i] == v.deep_view());
        }
        let repair: FindingRepair = plan_repair(&v, locations);
        let first: bool = match &v {
            CheckViolation::StaleWorktreeRegistration { .. } => true,
            _ => false,
        };
        let planned = PlannedRepair { finding: v, repair };
        if first {
            registrations.push(planned);
        } else {
            others.push(planned);
        }
        assert(registrations.deep_view() =~= firsts + f(all[i]));
        assert(others.deep_view() =~= rest + g(all[i]));
    }
    assert(all.take(all.len() as int) =~= all);
    RepairPlan { registrations, others }
}

/// What came of carrying out a repair.
#[derive(Debug)]
pub enum RepairOutcome {
    Done,
    /// There was nothing to do any more.
    Unneeded,
    Failed { error: String },
    /// It failed, and its error is told already.
    Refused,
}

/// Whether a finding is no longer reported: it was repaired, or is gone, or
/// its repair failed, and then the error is the report.
pub open spec fn settled(repair: FindingRepairView, outcome: RepairOutcome) -> bool {
    match repair {
        FindingRepairView::Keep => false,
        FindingRepairView::RepointParent { .. }
        | FindingRepairView::PruneEntry { .. }
        | FindingRepairView::AdoptWorkweave { .. }
        | FindingRepairView::ResetIndex { .. }
        | FindingRepairView::RestoreTree { .. } => true,
        FindingRepairView::AwaitDeletion { .. }
        | FindingRepairView::PruneWorktrees { .. }
        | FindingRepairView::DropSavepoint { .. }
        | FindingRepairView::RemoveLease { .. } => !(outcome is Unneeded),
    }
}

/// What is announced of a repair.
pub open spec fn announcement(repair: FindingRepairView, outcome: RepairOutcome) -> Option<Seq<char>> {
    if outcome is Done {
        match repair {
            FindingRepairView::Keep => None,
            FindingRepairView::AwaitDeletion { .. } => None,
            FindingRepairView::RepointParent { workweave_dir } => Some(repointed_text(workweave_dir)),
            FindingRepairView::PruneEntry { project, workweave_name, recorded_path } => Some(
                entry_pruned_text(workweave_name, recorded_path, project),
            ),
            FindingRepairView::AdoptWorkweave { project, workweave_name, workweave_dir } => Some(
                workweave_adopted_text(workweave_name, workweave_dir, project),
            ),
            FindingRepairView::ResetIndex { location, .. } => Some(index_refreshed_text(location)),
            FindingRepairView::RestoreTree { location, .. } => Some(tree_refreshed_text(location)),
            FindingRepairView::PruneWorktrees { location, .. } => Some(
                registration_pruned_text(location),
            ),
            FindingRepairView::DropSavepoint { location, op_id, .. } => Some(
                savepoint_dropped_text(location, op_id),
            ),
            FindingRepairView::RemoveLease { workspace_dir, op_id } => Some(
                lease_removed_text(workspace_dir, op_id),
            ),
        }
    } else {
        None
    }
}

/// What is told of a repair that failed.
pub open spec fn repair_error(repair: FindingRepairView, outcome: RepairOutcome) -> Option<Seq<char>> {
    match outcome {
        RepairOutcome::Failed { error } => match repair {
            FindingRepairView::Keep => None,
            FindingRepairView::AwaitDeletion { .. } => Some(error@),
            FindingRepairView::RepointParent { .. } => Some(repoint_failed_text(error@)),
            FindingRepairView::PruneEntry { project, workweave_name, .. } => Some(
                prune_entry_failed_text(workweave_name, project, error@),
            ),
            FindingRepairView::AdoptWorkweave { workweave_name, workweave_dir, .. } => Some(
                adopt_failed_text(workweave_name, workweave_dir, error@),
            ),
            FindingRepairView::ResetIndex { location, .. } => Some(
                index_failed_text(location, error@),
            ),
            FindingRepairView::RestoreTree { location, .. } => Some(
                tree_failed_text(location, error@),
            ),
            FindingRepairView::PruneWorktrees { .. }
            | FindingRepairView::DropSavepoint { .. }
            | FindingRepairView::RemoveLease { .. } => Some(hygiene_failed_text(error@)),
        },
        _ => None,
    }
}

/// The operator is never shown both that a finding was fixed and the finding.
pub proof fn announced_findings_are_not_kept(repair: FindingRepairView, outcome: RepairOutcome)
    ensures
        announcement(repair, outcome) is Some ==> settled(repair, outcome),
{
}

/// No finding vanishes in silence: one that is no longer reported was
/// repaired, or needed no repair any more, or its error is told.
pub proof fn dropped_findings_are_accounted_for(repair: FindingRepairView, outcome: RepairOutcome)
    ensures
        settled(repair, outcome) ==> outcome is Done || outcome is Unneeded || outcome is Refused
            || repair_error(repair, outcome) is Some,
{
}

/// A repair that failed takes its finding off the report: the error stands in
/// its place.
pub proof fn errors_stand_for_their_findings(repair: FindingRepairView, outcome: RepairOutcome)
    requires
        !(repair is Keep),
        outcome is Failed || outcome is Refused,
    ensures
        settled(repair, outcome),
        announcement(repair, outcome) is None,
        outcome is Failed ==> repair_error(repair, outcome) is Some,
{
}

/// The findings that stay reported, and the errors told, in order.
#[derive(Debug)]
pub struct FindingLog {
    pub kept: Vec<CheckViolation>,
    pub errors: Vec<String>,
}

/// Settles a repair: says what is announced of it, and logs the finding where
/// it stays reported and the error where there is one.
pub fn settle_finding(log: &mut FindingLog, planned: PlannedRepair, outcome: RepairOutcome) -> (told:
    Option<String>)
    ensures
        told.deep_view() == announcement(planned.deep_view().repair, outcome),
        final(log).kept.deep_view() == if settled(planned.deep_view().repair, outcome) {
            old(log).kept.deep_view()
        } else {
            old(log).kept.deep_view().push(planned.deep_view().finding)
        },
        final(log).errors.deep_view() == match repair_error(planned.deep_view().repair, outcome) {
            Some(e) => old(log).errors.deep_view().push(e),
            None => old(log).errors.deep_view(),
        },
{
    let ghost pv = planned.deep_view();
    let PlannedRepair { finding, repair } = planned;
    let told: Option<String> = match &outcome {
        RepairOutcome::Done => match &repair {
            FindingRepair::Keep => None,
            FindingRepair::AwaitDeletion { .. } => None,
            FindingRepair::RepointParent { workweave_dir } => Some(repointed(workweave_dir)),
            FindingRepair::PruneEntry { project, workweave_name, recorded_path } => Some(
                entry_pruned(workweave_name, recorded_path, project),
            ),
            FindingRepair::AdoptWorkweave { project, workweave_name, workweave_dir } => Some(
                workweave_adopted(workweave_name, workweave_dir, project),
            ),
            FindingRepair::ResetIndex { location, .. } => Some(index_refreshed(location)),
            FindingRepair::RestoreTree { location, .. } => Some(tree_refreshed(location)),
            FindingRepair::PruneWorktrees { location, .. } => Some(registration_pruned(location)),
            FindingRepair::DropSavepoint { location, op_id, .. } => Some(
                savepoint_dropped(location, op_id),
            ),
            FindingRepair::RemoveLease { workspace_dir, op_id } => Some(
                lease_removed(workspace_dir, op_id),
            ),
        },
        _ => None,
    };
    let error: Option<String> = match &outcome {
        RepairOutcome::Failed { error } => match &repair {
            FindingRepair::Keep => None,
            FindingRepair::AwaitDeletion { .. } => Some(error.clone()),
            FindingRepair::RepointParent { .. } => Some(repoint_failed(error)),
            FindingRepair::PruneEntry { project, workweave_name, .. } => Some(
                prune_entry_failed(workweave_name, project, error),
            ),
            FindingRepair::AdoptWorkweave { workweave_name, workweave_dir, .. } => Some(
                adopt_failed(workweave_name, workweave_dir, error),
            ),
            FindingRepair::ResetIndex { location, .. } => Some(index_failed(location, error)),
            FindingRepair::RestoreTree { location, .. } => Some(tree_failed(location, error)),
            FindingRepair::PruneWorktrees { .. }
            | FindingRepair::DropSavepoint { .. }
            | FindingRepair::RemoveLease { .. } => Some(hygiene_failed(error)),
        },
        _ => None,
    };
    let done: bool = match &repair {
        FindingRepair::Keep => false,
        FindingRepair::RepointParent { .. }
        | FindingRepair::PruneEntry { .. }
        | FindingRepair::AdoptWorkweave { .. }
        | FindingRepair::ResetIndex { .. }
        | FindingRepair::RestoreTree { .. } => true,
        FindingRepair::AwaitDeletion { .. }
        | FindingRepair::PruneWorktrees { .. }
        | FindingRepair::DropSavepoint { .. }
        | FindingRepair::RemoveLease { .. } => match &outcome {
            RepairOutcome::Unneeded => false,
            _ => true,
        },
    };
    if !done {
        log.kept.push(finding);
        assert(log.kept.deep_view() =~= old(log).kept.deep_view().push(pv.finding));
    }
    if let Some(e) = error {
        log.errors.push(e);
        assert(log.errors.deep_view() =~= old(log).errors.deep_view().push(e@));
    }
    told
}

/// Whether a branch is among some.
fn is_among(branches: &Vec<(PathText, String)>, store: &PathText, branch: &String) -> (is: bool)
    ensures
        is == branches.deep_view().contains((store@, branch@)),
{
    let mut i: usize = 0;
    while i < branches.len()
        invariant
            0 <= i <= branches.len(),
            forall|k: int|
                0 <= k < i ==> (#[trigger] branches@[k]).deep_view() != (store@, branch@),
        decreases branches.len() - i,
    {
        if branches[i].0 == *store && branches[i].1 == *branch {
            assert(branches.deep_view()[i as int] == (store@, branch@));
            return true;
        }
        i = i + 1;
    }
    assert forall|k: int| 0 <= k < branches.deep_view().len() implies branches.deep_view()[k] != (
        store@,
        branch@,
    ) by {
        assert(branches.deep_view()[k] == branches@[k].deep_view());
    }
    false
}

/// What came of a stale branch's deletion: whether it was deleted, or was to be
/// deleted and was not, or was none of those to be deleted.
pub fn deletion_outcome(
    chosen: &Vec<(PathText, String)>,
    deleted: &Vec<(PathText, String)>,
    store: &PathText,
    branch: &String,
) -> (outcome: RepairOutcome)
    ensures
        outcome == if deleted.deep_view().contains((store@, branch@)) {
            RepairOutcome::Done
        } else if chosen.deep_view().contains((store@, branch@)) {
            RepairOutcome::Refused
        } else {
            RepairOutcome::Unneeded
        },
{
    if is_among(deleted, store, branch) {
        RepairOutcome::Done
    } else if is_among(chosen, store, branch) {
        RepairOutcome::Refused
    } else {
        RepairOutcome::Unneeded
    }
}

/// The directory of the marker a finding names: the one that is migrated.
pub fn fix_legacy_workweave_marker(finding: &LegacyWorkweaveMarkerFile) -> (dir: PathText)
    requires
        parent_dir(finding.marker_path@) is Some,
    ensures
        parent_dir(finding.marker_path@) == Some(dir@),
{
    match dir_above(&finding.marker_path) {
        Some(dir) => dir,
        None => String::new(),
    }
}

/// What is announced of a marker's migration, where the marker was rewritten.
/// A failure is logged.
pub fn apply_prelude_repairs(
    errors: &mut Vec<String>,
    finding: &LegacyWorkweaveMarkerFile,
    reply: Result<bool, String>,
) -> (told: Option<String>)
    ensures
        told.deep_view() == match reply {
            Ok(done) => if done {
                Some(marker_migrated_text(finding.marker_path@))
            } else {
                None
            },
            Err(_) => None,
        },
        final(errors).deep_view() == match reply {
            Ok(_) => old(errors).deep_view(),
            Err(e) => old(errors).deep_view().push(marker_failed_text(e@)),
        },
{
    match reply {
        Ok(done) => {
            if done {
                Some(marker_migrated(&finding.marker_path))
            } else {
                None
            }
        },
        Err(e) => {
            errors.push(marker_failed(&e));
            assert(errors.deep_view() =~= old(errors).deep_view().push(marker_failed_text(e@)));
            None
        },
    }
}

/// What a workweave marker records.
#[derive(Debug)]
pub struct MarkerFields {
    pub project: ProjectName,
    pub primary: PathText,
    pub parent: PathText,
}

/// What [`MarkerFields`] say.
pub struct MarkerFieldsView {
    pub project: Seq<char>,
    pub primary: Seq<char>,
    pub parent: Seq<char>,
}

impl DeepView for MarkerFields {
    type V = MarkerFieldsView;

    open spec fn deep_view(&self) -> MarkerFieldsView {
        MarkerFieldsView {
            project: self.project@,
            primary: self.primary@,
            parent: self.parent@,
        }
    }
}

/// A marker as it is met when its parent is about to be repaired.
#[derive(Debug)]
pub enum ParentReading {
    Unreadable,
    Vanished,
    Readable { marker: MarkerFields, parent_is_there: bool },
}

/// The next step of repairing a marker's parent.
#[derive(Debug)]
pub enum ParentRepair {
    /// Write this marker in place of the old one.
    Rewrite { marker: MarkerFields },
    /// The parent is there after all: the marker is left alone.
    Healed,
    Failed { error: String },
}

/// A marker with the primary weave as its parent.
pub open spec fn with_parent(marker: MarkerFieldsView, primary: Seq<char>) -> MarkerFieldsView {
    MarkerFieldsView { parent: primary, ..marker }
}

/// Whether a marker whose parent was missing is repaired so: its parent becomes
/// the primary weave and nothing else changes; a parent that is there is left
/// alone.
pub open spec fn repairs_parent(
    marker_dir: Seq<char>,
    primary: Seq<char>,
    reading: ParentReading,
    repair: ParentRepair,
) -> bool {
    match reading {
        ParentReading::Unreadable => repair matches ParentRepair::Failed { error } && error@
            == marker_unreadable_text(marker_dir),
        ParentReading::Vanished => repair matches ParentRepair::Failed { error } && error@
            == marker_vanished_text(marker_dir),
        ParentReading::Readable { marker, parent_is_there } => if parent_is_there {
            repair is Healed
        } else {
            repair matches ParentRepair::Rewrite { marker: new } && new.deep_view() == with_parent(
                marker.deep_view(),
                primary,
            )
        },
    }
}

/// Decides how a marker whose parent was missing is repaired. `primary` is the
/// primary weave's resolved path.
pub fn fix_dangling_parent(
    marker_dir: &PathText,
    primary: &PathText,
    reading: &ParentReading,
) -> (repair: ParentRepair)
    ensures
        repairs_parent(marker_dir@, primary@, *reading, repair),
{
    match reading {
        ParentReading::Unreadable => ParentRepair::Failed { error: marker_unreadable(marker_dir) },
        ParentReading::Vanished => ParentRepair::Failed { error: marker_vanished(marker_dir) },
        ParentReading::Readable { marker, parent_is_there } => {
            if *parent_is_there {
                ParentRepair::Healed
            } else {
                ParentRepair::Rewrite {
                    marker: MarkerFields {
                        project: marker.project.clone(),
                        primary: marker.primary.clone(),
                        parent: primary.clone(),
                    },
                }
            }
        },
    }
}

/// A marker that was rewritten is left alone from then on: read again, it names
/// the primary weave as its parent, and that is there. `there` are the paths
/// that are there.
pub proof fn a_repointed_parent_stays(
    marker_dir: Seq<char>,
    primary: Seq<char>,
    first: ParentReading,
    rewrite: ParentRepair,
    second: ParentReading,
    again: ParentRepair,
    there: spec_fn(Seq<char>) -> bool,
)
    requires
        repairs_parent(marker_dir, primary, first, rewrite),
        rewrite matches ParentRepair::Rewrite { marker: written } && (second
            matches ParentReading::Readable { marker, parent_is_there } && marker.deep_view()
            == written.deep_view() && parent_is_there == there(marker.parent@)),
        there(primary),
        repairs_parent(marker_dir, primary, second, again),
    ensures
        again is Healed,
{
}

/// What came of repairing a marker's parent; `written` says whether the marker
/// could be written, where it was to be.
pub fn settle_parent(marker_dir: &PathText, repair: ParentRepair, written: bool) -> (outcome:
    RepairOutcome)
    ensures
        match repair {
            ParentRepair::Rewrite { .. } => if written {
                outcome is Done
            } else {
                outcome matches RepairOutcome::Failed { error } && error@ == marker_unwritten_text(
                    marker_dir@,
                )
            },
            ParentRepair::Healed => outcome is Unneeded,
            ParentRepair::Failed { error } => outcome == (RepairOutcome::Failed { error }),
        },
{
    match repair {
        ParentRepair::Rewrite { .. } => {
            if written {
                RepairOutcome::Done
            } else {
                RepairOutcome::Failed { error: marker_unwritten(marker_dir) }
            }
        },
        ParentRepair::Healed => RepairOutcome::Unneeded,
        ParentRepair::Failed { error } => RepairOutcome::Failed { error },
    }
}

/// The path a workweave is recorded under: its canonical one, where it has
/// one.
pub fn fix_unregistered_workweave(workweave_dir: &PathText, canonical: Option<PathText>) -> (path:
    PathText)
    ensures
        path@ == match canonical {
            Some(c) => c@,
            None => workweave_dir@,
        },
{
    match canonical {
        Some(c) => c,
        None => workweave_dir.clone(),
    }
}

/// How a commit of the attributes file ended.
#[derive(Debug, PartialEq, Eq, Structural, Clone, Copy)]
pub enum CommitOutcome {
    Committed,
    /// Other work is staged: it is never bundled with a commit of rwv's.
    SkippedUnrelatedStaged,
    NothingToCommit,
}

/// The next step of committing the attributes file.
#[derive(Debug)]
pub enum CommitStep {
    /// List the staged paths.
    ReadStaged,
    /// Stage the attributes file.
    Stage,
    /// See whether anything is staged.
    CheckStaged,
    /// Commit under this message.
    Commit { message: String },
    Finished { outcome: CommitOutcome },
    Stopped { error: String },
}

/// What the outside answered to a step of the commit.
#[derive(Debug)]
pub enum CommitReply {
    Failed,
    Done,
    Staged { paths: Vec<String> },
    Answer { yes: bool },
}

/// Whether a reply answers a step of the commit.
pub open spec fn answers_commit(step: CommitStep, reply: CommitReply) -> bool {
    match step {
        CommitStep::ReadStaged => reply is Staged || reply is Failed,
        CommitStep::Stage => reply is Done || reply is Failed,
        CommitStep::CheckStaged => reply is Answer || reply is Failed,
        CommitStep::Commit { .. } => reply is Done || reply is Failed,
        _ => false,
    }
}

/// Whether something other than the attributes file is staged.
pub open spec fn other_work_staged(paths: Seq<Seq<char>>) -> bool {
    exists|i: int| 0 <= i < paths.len() && #[trigger] paths[i] != ".gitattributes"@
}

/// The message the attributes file is committed under.
pub open spec fn commit_message() -> Seq<char> {
    "chore: migrate rwv.lock merge=ours → merge=rwv-ours (rwv doctor --fix)"@
}

/// Whether `next` is the step that follows a reply.
pub open spec fn commit_follows(
    dir: Seq<char>,
    step: CommitStep,
    reply: CommitReply,
    next: CommitStep,
) -> bool {
    match (step, reply) {
        (CommitStep::ReadStaged, CommitReply::Failed) => {
            next matches CommitStep::Stopped { error } && error@ == staged_unreadable_text(dir)
        },
        (CommitStep::ReadStaged, CommitReply::Staged { paths }) => {
            if other_work_staged(paths.deep_view()) {
                next == (CommitStep::Finished { outcome: CommitOutcome::SkippedUnrelatedStaged })
            } else {
                next is Stage
            }
        },
        (CommitStep::Stage, CommitReply::Failed) => {
            next matches CommitStep::Stopped { error } && error@ == stage_failed_text(dir)
        },
        (CommitStep::Stage, _) => next is CheckStaged,
        (CommitStep::CheckStaged, CommitReply::Failed) => {
            next matches CommitStep::Stopped { error } && error@ == staged_unchecked_text(dir)
        },
        (CommitStep::CheckStaged, CommitReply::Answer { yes }) => if yes {
            next matches CommitStep::Commit { message } && message@ == commit_message()
        } else {
            next == (CommitStep::Finished { outcome: CommitOutcome::NothingToCommit })
        },
        (CommitStep::Commit { .. }, CommitReply::Failed) => {
            next matches CommitStep::Stopped { error } && error@ == commit_failed_text(dir)
        },
        (CommitStep::Commit { .. }, _) => {
            next == (CommitStep::Finished { outcome: CommitOutcome::Committed })
        },
        _ => false,
    }
}

fn other_work(paths: &Vec<String>) -> (is_there: bool)
    ensures
        is_there == other_work_staged(paths.deep_view()),
{
    let attributes: String = ".gitattributes".to_owned();
    let mut i: usize = 0;
    while i < paths.len()
        invariant
            0 <= i <= paths.len(),
            attributes@ == ".gitattributes"@,
            forall|k: int| 0 <= k < i ==> #[trigger] paths.deep_view()[k] == ".gitattributes"@,
        decreases paths.len() - i,
    {
        assert(paths.deep_view()[i as int] == paths@[i as int]@);
        if paths[i] != attributes {
            return true;
        }
        i = i + 1;
    }
    false
}

/// Commits the attributes file of the repo at `dir`: says which step follows a
/// reply. What is staged is read before anything is staged, so other work is
/// never swept into the commit.
pub fn commit_replay_exclusion_migration(
    dir: &PathText,
    step: CommitStep,
    reply: CommitReply,
) -> (next: CommitStep)
    requires
        answers_commit(step, reply),
    ensures
        commit_follows(dir@, step, reply, next),
{
    match (step, reply) {
        (CommitStep::ReadStaged, CommitReply::Failed) => CommitStep::Stopped {
            error: staged_unreadable(dir),
        },
        (CommitStep::ReadStaged, CommitReply::Staged { paths }) => {
            if other_work(&paths) {
                CommitStep::Finished { outcome: CommitOutcome::SkippedUnrelatedStaged }
            } else {
                CommitStep::Stage
            }
        },
        (CommitStep::Stage, CommitReply::Failed) => CommitStep::Stopped {
            error: stage_failed(dir),
        },
        (CommitStep::Stage, _) => CommitStep::CheckStaged,
        (CommitStep::CheckStaged, CommitReply::Failed) => CommitStep::Stopped {
            error: staged_unchecked(dir),
        },
        (CommitStep::CheckStaged, CommitReply::Answer { yes }) => {
            if yes {
                CommitStep::Commit {
                    message: "chore: migrate rwv.lock merge=ours → merge=rwv-ours (rwv doctor --fix)".to_owned(),
                }
            } else {
                CommitStep::Finished { outcome: CommitOutcome::NothingToCommit }
            }
        },
        (CommitStep::Commit { .. }, CommitReply::Failed) => CommitStep::Stopped {
            error: commit_failed(dir),
        },
        (CommitStep::Commit { .. }, _) => CommitStep::Finished { outcome: CommitOutcome::Committed },
        (other, _) => other,
    }
}

/// Nothing is staged or committed where other work was staged before.
pub proof fn other_work_is_never_committed(
    dir: Seq<char>,
    paths: Vec<String>,
    next: CommitStep,
)
    requires
        other_work_staged(paths.deep_view()),
        commit_follows(dir, CommitStep::ReadStaged, CommitReply::Staged { paths }, next),
    ensures
        next == (CommitStep::Finished { outcome: CommitOutcome::SkippedUnrelatedStaged }),
{
}

/// Whether `abs` is where the checkout of `repo` in a workweave, or in the weave
/// itself, was listed last.
pub open spec fn listed_at(
    locations: Seq<RepoLocation>,
    workweave: Option<Seq<char>>,
    repo: Seq<char>,
    abs: Seq<char>,
) -> bool {
    exists|i: int|
        #![trigger locations[i]]
        0 <= i < locations.len() && locations[i].workweave.deep_view() == workweave
            && locations[i].repo@ == repo && locations[i].abs@ == abs && forall|j: int|
            i < j < locations.len() ==> !((#[trigger] locations[j]).workweave.deep_view()
                == workweave && locations[j].repo@ == repo)
}

/// Whether a checkout is listed at all.
pub open spec fn listed(
    locations: Seq<RepoLocation>,
    workweave: Option<Seq<char>>,
    repo: Seq<char>,
) -> bool {
    exists|i: int|
        0 <= i < locations.len() && (#[trigger] locations[i]).workweave.deep_view() == workweave
            && locations[i].repo@ == repo
}

proof fn location_is_listed(
    locations: Seq<RepoLocation>,
    workweave: Option<Seq<char>>,
    repo: Seq<char>,
)
    ensures
        location_of(locations, workweave, repo) is Some <==> listed(locations, workweave, repo),
        location_of(locations, workweave, repo) matches Some(abs) ==> listed_at(
            locations,
            workweave,
            repo,
            abs,
        ),
    decreases locations.len(),
{
    if locations.len() > 0 {
        let init = locations.drop_last();
        let last = locations[locations.len() - 1];
        if last.workweave.deep_view() == workweave && last.repo@ == repo {
            assert(listed_at(locations, workweave, repo, last.abs@));
        } else {
            location_is_listed(init, workweave, repo);
            if listed(init, workweave, repo) {
                let i = choose|i: int|
                    0 <= i < init.len() && (#[trigger] init[i]).workweave.deep_view() == workweave
                        && init[i].repo@ == repo;
                assert(locations[i] == init[i]);
                let abs = location_of(init, workweave, repo)->0;
                let k = choose|k: int|
                    #![trigger init[k]]
                    0 <= k < init.len() && init[k].workweave.deep_view() == workweave
                        && init[k].repo@ == repo && init[k].abs@ == abs && forall|j: int|
                        k < j < init.len() ==> !((#[trigger] init[j]).workweave.deep_view()
                            == workweave && init[j].repo@ == repo);
                assert(locations[k] == init[k]);
                assert forall|j: int| k < j < locations.len() implies !((
                #[trigger] locations[j]).workweave.deep_view() == workweave && locations[j].repo@
                    == repo) by {
                    if j < init.len() {
                        assert(init[j] == locations[j]);
                    }
                }
                assert(listed_at(locations, workweave, repo, abs));
            }
            if listed(locations, workweave, repo) {
                let i = choose|i: int|
                    0 <= i < locations.len() && (#[trigger] locations[i]).workweave.deep_view()
                        == workweave && locations[i].repo@ == repo;
                assert(init[i] == locations[i]);
            }
        }
    }
}

/// Whether a text names a checkout: the repo, behind the workweave's name where
/// it is in one.
pub open spec fn names_checkout(
    text: Seq<char>,
    workweave: Option<Seq<char>>,
    repo: Seq<char>,
) -> bool {
    match workweave {
        Some(w) => text.len() == w.len() + 1 + repo.len() && text.take(w.len() as int) == w
            && text[w.len() as int] == '/' && text.skip(w.len() as int + 1) == repo,
        None => text == repo,
    }
}

proof fn location_names_its_checkout(workweave: Option<Seq<char>>, repo: Seq<char>)
    ensures
        names_checkout(location_text(workweave, repo), workweave, repo),
{
    reveal_strlit("/");
    if let Some(w) = workweave {
        let text = location_text(workweave, repo);
        assert(text.take(w.len() as int) =~= w);
        assert(text.skip(w.len() as int + 1) =~= repo);
    }
}

/// An index is reset exactly where its drift is safe to fix and its checkout is
/// known, and then in the checkout where the drift was found. An index with
/// staged work is kept as it is.
pub proof fn drifted_indexes_are_reset_in_place(
    workweave: Option<Seq<char>>,
    repo: Seq<char>,
    kind: IndexDriftKind,
    locations: Seq<RepoLocation>,
)
    ensures
        ({
            let r = repair_of(CheckViolationView::IndexDrift { workweave, repo, kind }, locations);
            if kind == IndexDriftKind::SafeToFix && listed(locations, workweave, repo) {
                r matches FindingRepairView::ResetIndex { repo: at, location } && listed_at(
                    locations,
                    workweave,
                    repo,
                    at,
                ) && names_checkout(location, workweave, repo)
            } else {
                r is Keep
            }
        }),
{
    location_is_listed(locations, workweave, repo);
    location_names_its_checkout(workweave, repo);
}

/// A working tree is restored exactly where its drift is safe to fix and its
/// checkout is known, and then in the checkout where the drift was found. A tree
/// with live edits is kept as it is.
pub proof fn drifted_trees_are_restored_in_place(
    workweave: Option<Seq<char>>,
    repo: Seq<char>,
    kind: WorkingTreeDriftKind,
    locations: Seq<RepoLocation>,
)
    ensures
        ({
            let r = repair_of(
                CheckViolationView::WorkingTreeDrift { workweave, repo, kind },
                locations,
            );
            if kind == WorkingTreeDriftKind::SafeToFix && listed(locations, workweave, repo) {
                r matches FindingRepairView::RestoreTree { repo: at, location } && listed_at(
                    locations,
                    workweave,
                    repo,
                    at,
                ) && names_checkout(location, workweave, repo)
            } else {
                r is Keep
            }
        }),
{
    location_is_listed(locations, workweave, repo);
    location_names_its_checkout(workweave, repo);
}

/// Stale registrations are pruned in the checkout where they were found,
/// wherever that is known.
pub proof fn registrations_are_pruned_in_place(
    workweave: Option<Seq<char>>,
    repo: Seq<char>,
    missing_path: Seq<char>,
    locations: Seq<RepoLocation>,
)
    ensures
        ({
            let r = repair_of(
                CheckViolationView::StaleWorktreeRegistration { workweave, repo, missing_path },
                locations,
            );
            if listed(locations, workweave, repo) {
                r matches FindingRepairView::PruneWorktrees { repo: at, location } && listed_at(
                    locations,
                    workweave,
                    repo,
                    at,
                ) && names_checkout(location, workweave, repo)
            } else {
                r is Keep
            }
        }),
{
    location_is_listed(locations, workweave, repo);
    location_names_its_checkout(workweave, repo);
}

/// A savepoint is dropped exactly where it is redundant and its checkout is
/// known: that savepoint, in that checkout. One that anchors work is kept.
pub proof fn savepoints_are_dropped_in_place(
    workweave: Option<Seq<char>>,
    repo: Seq<char>,
    op_id: Seq<char>,
    sub_kind: OrphanedSavepointKind,
    locations: Seq<RepoLocation>,
)
    ensures
        ({
            let r = repair_of(
                CheckViolationView::OrphanedSavepoint { workweave, repo, op_id, sub_kind },
                locations,
            );
            if sub_kind == OrphanedSavepointKind::Redundant && listed(locations, workweave, repo) {
                r matches FindingRepairView::DropSavepoint { repo: at, location, op_id: dropped }
                    && listed_at(locations, workweave, repo, at) && dropped == op_id
                    && names_checkout(location, workweave, repo)
            } else {
                r is Keep
            }
        }),
{
    location_is_listed(locations, workweave, repo);
    location_names_its_checkout(workweave, repo);
}

/// Whatever a repair that acts on a checkout is for, the finding names that very
/// checkout: no repair strays into another weave.
pub proof fn repairs_stay_in_their_checkout(v: CheckViolationView, locations: Seq<RepoLocation>)
    ensures
        match repair_of(v, locations) {
            FindingRepairView::ResetIndex { repo: at, .. } => v
                matches CheckViolationView::IndexDrift { workweave, repo, .. } && listed_at(
                locations,
                workweave,
                repo,
                at,
            ),
            FindingRepairView::RestoreTree { repo: at, .. } => v
                matches CheckViolationView::WorkingTreeDrift { workweave, repo, .. } && listed_at(
                locations,
                workweave,
                repo,
                at,
            ),
            FindingRepairView::PruneWorktrees { repo: at, .. } => v
                matches CheckViolationView::StaleWorktreeRegistration { workweave, repo, .. }
                && listed_at(locations, workweave, repo, at),
            FindingRepairView::DropSavepoint { repo: at, op_id, .. } => v
                matches CheckViolationView::OrphanedSavepoint { workweave, repo, op_id: id, .. }
                && listed_at(locations, workweave, repo, at) && id == op_id,
            FindingRepairView::RemoveLease { workspace_dir, op_id } => v
                matches CheckViolationView::DeadOpLease { workspace_dir: dir, op_id: id, .. }
                && dir == workspace_dir && id == op_id,
            FindingRepairView::RepointParent { workweave_dir } => v
                matches CheckViolationView::WorkweaveTreeIntegrity { workweave_dir: dir, sub_kind }
                && dir == workweave_dir && sub_kind is DanglingParent,
            FindingRepairView::PruneEntry { project, workweave_name, recorded_path } => v
                matches CheckViolationView::WorkweaveTreeIntegrity {
                sub_kind: WorkweaveTreeIntegrityKindView::StaleRegistryEntry {
                    project: p,
                    workweave_name: w,
                    recorded_path: r,
                    ..
                },
                ..
            } && p == project && w == workweave_name && r == recorded_path,
            FindingRepairView::AdoptWorkweave { project, workweave_name, workweave_dir } => v
                matches CheckViolationView::WorkweaveTreeIntegrity {
                workweave_dir: dir,
                sub_kind: WorkweaveTreeIntegrityKindView::UnregisteredWorkweave {
                    project: p,
                    workweave_name: w,
                },
            } && p == project && w == workweave_name && dir == workweave_dir,
            FindingRepairView::AwaitDeletion { store, branch } => v
                matches CheckViolationView::BranchDiscipline {
                repo_path,
                sub_kind: BranchDisciplineKindView::StaleEphemeralBranchSafe { branch: b, .. },
            } && repo_path == store && b == branch,
            FindingRepairView::Keep => true,
        },
{
    match v {
        CheckViolationView::IndexDrift { workweave, repo, .. }
        | CheckViolationView::WorkingTreeDrift { workweave, repo, .. }
        | CheckViolationView::StaleWorktreeRegistration { workweave, repo, .. }
        | CheckViolationView::OrphanedSavepoint { workweave, repo, .. } => {
            location_is_listed(locations, workweave, repo);
        },
        _ => {},
    }
}

/// What needs no checkout to be known is always repaired: a dangling parent, a
/// stale registry entry, a workweave no registry records, a dead lease, and a
/// branch left behind that is safe to delete.
pub proof fn placeless_findings_are_repaired(v: CheckViolationView, locations: Seq<RepoLocation>)
    requires
        match v {
            CheckViolationView::DeadOpLease { .. } => true,
            CheckViolationView::WorkweaveTreeIntegrity { sub_kind, .. } => sub_kind
                is DanglingParent || sub_kind is StaleRegistryEntry || sub_kind
                is UnregisteredWorkweave,
            CheckViolationView::BranchDiscipline { sub_kind, .. } => sub_kind
                is StaleEphemeralBranchSafe,
            _ => false,
        },
    ensures
        !(repair_of(v, locations) is Keep),
{
}

/// Every finding is planned once: the stale registrations in the first part and
/// the others in the second, each with its own repair and in the order found.
pub proof fn every_finding_is_planned(
    found: Seq<CheckViolationView>,
    locations: Seq<RepoLocation>,
    planned: PlannedRepairView,
)
    ensures
        found.flat_map(registration_rule(locations)).contains(planned) <==> found.contains(
            planned.finding,
        ) && planned.finding is StaleWorktreeRegistration && planned.repair == repair_of(
            planned.finding,
            locations,
        ),
        found.flat_map(other_rule(locations)).contains(planned) <==> found.contains(planned.finding)
            && !(planned.finding is StaleWorktreeRegistration) && planned.repair == repair_of(
            planned.finding,
            locations,
        ),
        found.flat_map(registration_rule(locations)).len() + found.flat_map(
            other_rule(locations),
        ).len() == found.len(),
    decreases found.len(),
{
    let f = registration_rule(locations);
    let g = other_rule(locations);
    flat_map_contains(found, f, planned);
    flat_map_contains(found, g, planned);
    if found.contains(planned.finding) && planned.repair == repair_of(planned.finding, locations) {
        let i = choose|i: int| 0 <= i < found.len() && found[i] == planned.finding;
        single_contains(planned, planned);
        if planned.finding is StaleWorktreeRegistration {
            assert(f(found[i]) == seq![planned]);
            assert(f(found[i]).contains(planned));
        } else {
            assert(g(found[i]) == seq![planned]);
            assert(g(found[i]).contains(planned));
        }
    }
    if found.len() > 0 {
        let n = found.len() - 1;
        every_finding_is_planned(found.take(n), locations, planned);
        found.lemma_flat_map_take_append(f, n);
        found.lemma_flat_map_take_append(g, n);
        assert(found.take(n + 1) =~= found);
    } else {
        assert(found.flat_map(f) =~= Seq::empty());
        assert(found.flat_map(g) =~= Seq::empty());
    }
}

/// A repair that was carried out takes its finding off the report and is
/// announced, but for a deletion, which is announced with the other deletions.
/// A finding without a repair stays, whatever is said of it.
pub proof fn repairs_done_are_announced(repair: FindingRepairView, outcome: RepairOutcome)
    ensures
        repair is Keep ==> !settled(repair, outcome) && announcement(repair, outcome) is None
            && repair_error(repair, outcome) is None,
        !(repair is Keep) && outcome is Done ==> settled(repair, outcome) && repair_error(
            repair,
            outcome,
        ) is None && (announcement(repair, outcome) is Some <==> !(repair is AwaitDeletion)),
        !(outcome is Done) ==> announcement(repair, outcome) is None,
        repair_error(repair, outcome) is Some <==> outcome is Failed && !(repair is Keep),
{
}

/// Where a repair turned out to be needless, a finding on the tree, the registry
/// or a drift is gone with it; a leftover and a branch stay reported.
pub proof fn needless_repairs_are_told_apart(repair: FindingRepairView)
    ensures
        settled(repair, RepairOutcome::Unneeded) <==> repair is RepointParent || repair is PruneEntry
            || repair is AdoptWorkweave || repair is ResetIndex || repair is RestoreTree,
{
}

/// A workweave whose parent is gone is hung below the primary, and nothing else
/// of its marker changes; one whose parent is there is left alone, and a marker
/// that cannot be read is not written.
pub proof fn parents_are_repointed_to_the_primary(
    marker_dir: Seq<char>,
    primary: Seq<char>,
    reading: ParentReading,
    repair: ParentRepair,
)
    requires
        repairs_parent(marker_dir, primary, reading, repair),
    ensures
        repair is Rewrite <==> (reading matches ParentReading::Readable { parent_is_there, .. }
            && !parent_is_there),
        repair is Healed <==> (reading matches ParentReading::Readable { parent_is_there, .. }
            && parent_is_there),
        repair is Failed <==> reading is Unreadable || reading is Vanished,
        repair matches ParentRepair::Rewrite { marker: new } ==> (
        reading matches ParentReading::Readable { marker, .. } && new.parent@ == primary
            && new.project@ == marker.project@ && new.primary@ == marker.primary@),
{
}

/// The migration of the exclusion is committed only where nothing but the
/// attributes was staged before and staging them changed something; a failure
/// at any step stops it.
pub proof fn migrations_are_committed_alone(
    dir: Seq<char>,
    step: CommitStep,
    reply: CommitReply,
    next: CommitStep,
)
    requires
        answers_commit(step, reply),
        commit_follows(dir, step, reply, next),
    ensures
        next is Stopped <==> reply is Failed,
        next is Stage <==> step is ReadStaged && (reply matches CommitReply::Staged { paths }
            && forall|i: int|
            0 <= i < paths@.len() ==> (#[trigger] paths@[i])@ == ".gitattributes"@),
        next is CheckStaged <==> step is Stage && reply is Done,
        next is Commit <==> step is CheckStaged && reply == (CommitReply::Answer { yes: true }),
        next == (CommitStep::Finished { outcome: CommitOutcome::Committed }) <==> step is Commit
            && reply is Done,
        next == (CommitStep::Finished { outcome: CommitOutcome::NothingToCommit }) <==> step
            is CheckStaged && reply == (CommitReply::Answer { yes: false }),
{
    if let CommitReply::Staged { paths } = reply {
        let all = paths.deep_view();
        assert forall|i: int| 0 <= i < all.len() implies #[trigger] all[i] == paths@[i]@ by {}
        if other_work_staged(all) {
            let i = choose|i: int| 0 <= i < all.len() && #[trigger] all[i] != ".gitattributes"@;
            assert(paths@[i]@ != ".gitattributes"@);
        } else {
            assert forall|i: int| 0 <= i < paths@.len() implies (#[trigger] paths@[i])@
                == ".gitattributes"@ by {
                assert(all[i] == paths@[i]@);
            }
        }
    }
}

/// A repair is told with what it repaired, and a failure with why, in the order
/// they are read.
pub proof fn messages_name_their_subjects(
    dir: Seq<char>,
    name: Seq<char>,
    path: Seq<char>,
    project: Seq<char>,
    at: Seq<char>,
    op_id: Seq<char>,
    error: Seq<char>,
)
    ensures
        tells(repointed_text(dir), seq![dir]),
        tells(entry_pruned_text(name, path, project), seq![name].push(path).push(project)),
        tells(workweave_adopted_text(name, dir, project), seq![name].push(dir).push(project)),
        tells(index_refreshed_text(at), seq![at]),
        tells(tree_refreshed_text(at), seq![at]),
        tells(registration_pruned_text(at), seq![at]),
        tells(savepoint_dropped_text(at, op_id), seq![at].push(op_id)),
        tells(lease_removed_text(dir, op_id), seq![dir].push(op_id)),
        tells(repoint_failed_text(error), seq![error]),
        tells(prune_entry_failed_text(name, project, error), seq![name].push(project).push(error)),
        tells(adopt_failed_text(name, dir, error), seq![name].push(dir).push(error)),
        tells(index_failed_text(at, error), seq![at].push(error)),
        tells(tree_failed_text(at, error), seq![at].push(error)),
        tells(hygiene_failed_text(error), seq![error]),
        tells(marker_migrated_text(path), seq![path]),
        tells(marker_failed_text(error), seq![error]),
        tells(marker_unreadable_text(dir), seq![dir]),
        tells(marker_vanished_text(dir), seq![dir]),
        tells(marker_unwritten_text(dir), seq![dir]),
        tells(staged_unreadable_text(dir), seq![dir]),
        tells(stage_failed_text(dir), seq![dir]),
        tells(staged_unchecked_text(dir), seq![dir]),
        tells(commit_failed_text(dir), seq![dir]),
{
    broadcast use telling;
}

/// What is announced of a repair names what was repaired: the checkout it was
/// done in, the directory, or the registry entry, with its project.
pub proof fn announcements_name_what_was_repaired(repair: FindingRepairView)
    ensures
        announcement(repair, RepairOutcome::Done) matches Some(told) ==> match repair {
            FindingRepairView::Keep | FindingRepairView::AwaitDeletion { .. } => false,
            FindingRepairView::RepointParent { workweave_dir } => tells(told, seq![workweave_dir]),
            FindingRepairView::PruneEntry { project, workweave_name, recorded_path } => tells(
                told,
                seq![workweave_name].push(recorded_path).push(project),
            ),
            FindingRepairView::AdoptWorkweave { project, workweave_name, workweave_dir } => tells(
                told,
                seq![workweave_name].push(workweave_dir).push(project),
            ),
            FindingRepairView::ResetIndex { location, .. }
            | FindingRepairView::RestoreTree { location, .. }
            | FindingRepairView::PruneWorktrees { location, .. } => tells(told, seq![location]),
            FindingRepairView::DropSavepoint { location, op_id, .. } => tells(
                told,
                seq![location].push(op_id),
            ),
            FindingRepairView::RemoveLease { workspace_dir, op_id } => tells(
                told,
                seq![workspace_dir].push(op_id),
            ),
        },
{
    broadcast use telling;
}

/// A failed repair is told with why, after what it was to repair.
pub proof fn repair_errors_tell_why(repair: FindingRepairView, error: String)
    ensures
        repair_error(repair, RepairOutcome::Failed { error }) matches Some(told) ==> tells(
            told,
            seq![error@],
        ) && match repair {
            FindingRepairView::PruneEntry { project, workweave_name, .. } => tells(
                told,
                seq![workweave_name].push(project).push(error@),
            ),
            FindingRepairView::AdoptWorkweave { workweave_name, workweave_dir, .. } => tells(
                told,
                seq![workweave_name].push(workweave_dir).push(error@),
            ),
            FindingRepairView::ResetIndex { location, .. }
            | FindingRepairView::RestoreTree { location, .. } => tells(
                told,
                seq![location].push(error@),
            ),
            _ => true,
        },
{
    broadcast use telling;
}

} // verus!
