//! Repairs of the workspace as a whole, which run before findings are
//! collected so that what they repaired is not reported.

use vstd::prelude::*;
use crate::drift::{exclusion_gap, replay_exclusion_finding, ReplayExclusionState};
use crate::lists::flat_map_contains;
use crate::receipts::{focused, in_focus};
use crate::repairs::CommitOutcome;
use crate::text::{tells, telling};
use crate::violation::{
    CheckViolation, PathText, ProjectName, ReplayExclusionKind, WeaveRootIdentityConflictKind,
};
use crate::violation_view::{CheckViolationView, WeaveRootIdentityConflictKindView};

verus! {

/// A pointer that was cleared.
pub open spec fn pointer_cleared_text(name: Seq<char>) -> Seq<char> {
    "[fixed] core: cleared `.rwv-active` (was pointing at missing project `"@ + name + "`)"@
}

/// Words it: a pointer that was cleared.
fn pointer_cleared(name: &String) -> (text: String)
    ensures
        text@ == pointer_cleared_text(name@),
{
    "[fixed] core: cleared `.rwv-active` (was pointing at missing project `".to_owned()
        .concat(name)
        .concat("`)")
}

/// A pointer that could not be cleared.
pub open spec fn pointer_failed_text(name: Seq<char>, error: Seq<char>) -> Seq<char> {
    "dangling-active-project fix failed for `"@ + name + "`: "@ + error
}

/// Words it: a pointer that could not be cleared.
fn pointer_failed(name: &String, error: &String) -> (text: String)
    ensures
        text@ == pointer_failed_text(name@, error@),
{
    "dangling-active-project fix failed for `".to_owned()
        .concat(name)
        .concat("`: ")
        .concat(error)
}

/// A root whose pointer was cleared.
pub open spec fn root_cleared_text(root: Seq<char>, workweave: Seq<char>, project: Seq<char>) -> Seq<char> {
    "[fixed] core: deleted `.rwv-active` at "@
        + root
        + " (redundant with the `.rwv-workweave` marker of registered workweave `"@
        + workweave
        + "` in project `"@
        + project
        + "`; the marker is unchanged)"@
}

/// Words it: a root whose pointer was cleared.
fn root_cleared(root: &String, workweave: &String, project: &String) -> (text: String)
    ensures
        text@ == root_cleared_text(root@, workweave@, project@),
{
    "[fixed] core: deleted `.rwv-active` at ".to_owned()
        .concat(root)
        .concat(" (redundant with the `.rwv-workweave` marker of registered workweave `")
        .concat(workweave)
        .concat("` in project `")
        .concat(project)
        .concat("`; the marker is unchanged)")
}

/// A root whose pointer could not be cleared.
pub open spec fn root_failed_text(root: Seq<char>, error: Seq<char>) -> Seq<char> {
    "weave-root-identity-conflict fix failed for "@ + root + ": "@ + error
}

/// Words it: a root whose pointer could not be cleared.
fn root_failed(root: &String, error: &String) -> (text: String)
    ensures
        text@ == root_failed_text(root@, error@),
{
    "weave-root-identity-conflict fix failed for ".to_owned()
        .concat(root)
        .concat(": ")
        .concat(error)
}

/// A receipt without a branch that was retracted.
pub open spec fn dangling_retracted_text(name: Seq<char>, store: Seq<char>) -> Seq<char> {
    "[fixed] core: retracted dangling ownership receipt for `"@ + name + "` in "@ + store
}

/// Words it: a receipt without a branch that was retracted.
fn dangling_retracted(name: &String, store: &String) -> (text: String)
    ensures
        text@ == dangling_retracted_text(name@, store@),
{
    "[fixed] core: retracted dangling ownership receipt for `".to_owned()
        .concat(name)
        .concat("` in ")
        .concat(store)
}

/// A receipt of the retired shape that was retracted.
pub open spec fn pre_flat_retracted_text(name: Seq<char>, store: Seq<char>) -> Seq<char> {
    "[fixed] core: retracted the ownership receipt for `"@
        + name
        + "` in "@
        + store
        + " — the name carries a `/` segment, which no workweave on disk mints; the branch \
           itself was left untouched and is now unowned"@
}

/// Words it: a receipt of the retired shape that was retracted.
fn pre_flat_retracted(name: &String, store: &String) -> (text: String)
    ensures
        text@ == pre_flat_retracted_text(name@, store@),
{
    "[fixed] core: retracted the ownership receipt for `".to_owned()
        .concat(name)
        .concat("` in ")
        .concat(store)
        .concat(
            " — the name carries a `/` segment, which no workweave on disk mints; the branch \
             itself was left untouched and is now unowned",
        )
}

/// A store that was reattached.
pub open spec fn reattached_text(store: Seq<char>, branch: Seq<char>) -> Seq<char> {
    "[fixed] core: reattached detached canonical "@ + store + " to `"@ + branch + "`"@
}

/// Words it: a store that was reattached.
fn reattached(store: &String, branch: &String) -> (text: String)
    ensures
        text@ == reattached_text(store@, branch@),
{
    "[fixed] core: reattached detached canonical ".to_owned()
        .concat(store)
        .concat(" to `")
        .concat(branch)
        .concat("`")
}

/// A branch left behind that was deleted.
pub open spec fn branch_deleted_text(branch: Seq<char>, store: Seq<char>) -> Seq<char> {
    "[fixed] core: deleted safe-class stale ephemeral branch `"@ + branch + "` in "@ + store
}

/// Words it: a branch left behind that was deleted.
fn branch_deleted(branch: &String, store: &String) -> (text: String)
    ensures
        text@ == branch_deleted_text(branch@, store@),
{
    "[fixed] core: deleted safe-class stale ephemeral branch `".to_owned()
        .concat(branch)
        .concat("` in ")
        .concat(store)
}

/// What a migration did.
pub open spec fn migration_applied_text(message: Seq<char>) -> Seq<char> {
    "[fixed] core: "@ + message
}

/// Words it: what a migration did.
fn migration_applied(message: &String) -> (text: String)
    ensures
        text@ == migration_applied_text(message@),
{
    "[fixed] core: ".to_owned().concat(message)
}

/// An index that got its receipts.
pub open spec fn index_migrated_text(path: Seq<char>) -> Seq<char> {
    "[fixed] core: added the ref-ownership registry to "@ + path
}

/// Words it: an index that got its receipts.
fn index_migrated(path: &String) -> (text: String)
    ensures
        text@ == index_migrated_text(path@),
{
    "[fixed] core: added the ref-ownership registry to ".to_owned().concat(path)
}

/// An index that could not get its receipts.
pub open spec fn index_unmigrated_text(project: Seq<char>, error: Seq<char>) -> Seq<char> {
    "failed to migrate "@
        + project
        + "'s workweave index to the ref-ownership registry: "@
        + error
}

/// Words it: an index that could not get its receipts.
fn index_unmigrated(project: &String, error: &String) -> (text: String)
    ensures
        text@ == index_unmigrated_text(project@, error@),
{
    "failed to migrate ".to_owned()
        .concat(project)
        .concat("'s workweave index to the ref-ownership registry: ")
        .concat(error)
}

/// The rewriting of a legacy line.
pub open spec fn respelled_text() -> Seq<char> {
    "migrated `rwv.lock merge=ours` → `rwv.lock merge=rwv-ours`"@
}

/// Words it: the rewriting of a legacy line.
fn respelled() -> (text: String)
    ensures
        text@ == respelled_text(),
{
    "migrated `rwv.lock merge=ours` → `rwv.lock merge=rwv-ours`".to_owned()
}

/// The dropping of a legacy line.
pub open spec fn dropped_line_text() -> Seq<char> {
    "dropped the legacy `rwv.lock merge=ours` line, leaving `rwv.lock merge=rwv-ours`"@
}

/// Words it: the dropping of a legacy line.
fn dropped_line() -> (text: String)
    ensures
        text@ == dropped_line_text(),
{
    "dropped the legacy `rwv.lock merge=ours` line, leaving `rwv.lock merge=rwv-ours`".to_owned()
}

/// A replay exclusion that was written.
pub open spec fn exclusion_written_text(project: Seq<char>) -> Seq<char> {
    "[fixed] core: wrote `rwv.lock merge=rwv-ours` to "@ + project + "/.gitattributes"@
}

/// Words it: a replay exclusion that was written.
fn exclusion_written(project: &String) -> (text: String)
    ensures
        text@ == exclusion_written_text(project@),
{
    "[fixed] core: wrote `rwv.lock merge=rwv-ours` to ".to_owned()
        .concat(project)
        .concat("/.gitattributes")
}

/// A replay exclusion that could not be written.
pub open spec fn exclusion_failed_text(project: Seq<char>, error: Seq<char>) -> Seq<char> {
    project + ": failed to write replay-exclusion: "@ + error
}

/// Words it: a replay exclusion that could not be written.
fn exclusion_failed(project: &String, error: &String) -> (text: String)
    ensures
        text@ == exclusion_failed_text(project@, error@),
{
    project.clone().concat(": failed to write replay-exclusion: ").concat(error)
}

/// A migration that was committed.
pub open spec fn exclusion_committed_text(phrase: Seq<char>, project: Seq<char>) -> Seq<char> {
    "[fixed] core: "@ + phrase + " in "@ + project + "/.gitattributes (committed)"@
}

/// Words it: a migration that was committed.
fn exclusion_committed(phrase: &String, project: &String) -> (text: String)
    ensures
        text@ == exclusion_committed_text(phrase@, project@),
{
    "[fixed] core: ".to_owned()
        .concat(phrase)
        .concat(" in ")
        .concat(project)
        .concat("/.gitattributes (committed)")
}

/// A migration that was left uncommitted.
pub open spec fn exclusion_uncommitted_text(phrase: Seq<char>, project: Seq<char>) -> Seq<char> {
    "[fixed] core: "@
        + phrase
        + " in "@
        + project
        + "/.gitattributes (NOT committed: project repo has unrelated staged changes; commit \
           them, then re-run `rwv doctor --fix` to complete the migration)"@
}

/// Words it: a migration that was left uncommitted.
fn exclusion_uncommitted(phrase: &String, project: &String) -> (text: String)
    ensures
        text@ == exclusion_uncommitted_text(phrase@, project@),
{
    "[fixed] core: ".to_owned()
        .concat(phrase)
        .concat(" in ")
        .concat(project)
        .concat(
            "/.gitattributes (NOT committed: project repo has unrelated staged changes; \
             commit them, then re-run `rwv doctor --fix` to complete the migration)",
        )
}

/// A migration with nothing to commit.
pub open spec fn exclusion_unchanged_text(phrase: Seq<char>, project: Seq<char>) -> Seq<char> {
    "[fixed] core: "@ + phrase + " in "@ + project + "/.gitattributes"@
}

/// Words it: a migration with nothing to commit.
fn exclusion_unchanged(phrase: &String, project: &String) -> (text: String)
    ensures
        text@ == exclusion_unchanged_text(phrase@, project@),
{
    "[fixed] core: ".to_owned()
        .concat(phrase)
        .concat(" in ")
        .concat(project)
        .concat("/.gitattributes")
}

/// A migration that could not be committed.
pub open spec fn exclusion_commit_failed_text(project: Seq<char>, error: Seq<char>) -> Seq<char> {
    project + ": migrated .gitattributes but commit failed: "@ + error
}

/// Words it: a migration that could not be committed.
fn exclusion_commit_failed(project: &String, error: &String) -> (text: String)
    ensures
        text@ == exclusion_commit_failed_text(project@, error@),
{
    project.clone().concat(": migrated .gitattributes but commit failed: ").concat(error)
}

/// A merge driver that was planted.
pub open spec fn driver_planted_text(key: Seq<char>, project: Seq<char>) -> Seq<char> {
    "[fixed] core: planted `"@ + key + "` config in "@ + project
}

/// Words it: a merge driver that was planted.
fn driver_planted(key: &String, project: &String) -> (text: String)
    ensures
        text@ == driver_planted_text(key@, project@),
{
    "[fixed] core: planted `".to_owned().concat(key).concat("` config in ").concat(project)
}

/// A merge driver that could not be planted.
pub open spec fn driver_failed_text(project: Seq<char>, key: Seq<char>, error: Seq<char>) -> Seq<char> {
    project + ": failed to plant `"@ + key + "`: "@ + error
}

/// Words it: a merge driver that could not be planted.
fn driver_failed(project: &String, key: &String, error: &String) -> (text: String)
    ensures
        text@ == driver_failed_text(project@, key@, error@),
{
    project.clone().concat(": failed to plant `").concat(key).concat("`: ").concat(error)
}

/// The parts the repairs of the workspace are made of.
#[derive(Debug, Clone, Copy, PartialEq, Eq, Structural)]
pub enum WorkspaceArm {
    /// Clear an active-project pointer at a project that is not there.
    ActivePointer,
    /// Clear the pointer of a root that is a registered workweave.
    RootIdentity,
    /// Retract receipts without a branch.
    DanglingReceipts,
    /// Retract receipts of the retired shape.
    PreFlatReceipts,
    /// Add the receipts to indexes that predate them.
    IndexMigration,
    /// Reattach detached stores.
    Reattach,
    /// Migrate and adopt the branches of workweaves.
    BranchMigration,
    /// Write the replay exclusion of each project.
    ReplayExclusion,
    /// Plant the merge driver of each project.
    MergeDriver,
}

/// The parts in the order they run. Stores are reattached only with consent.
pub open spec fn workspace_arms(reattach: bool) -> Seq<WorkspaceArm> {
    let before = seq![
        WorkspaceArm::ActivePointer,
        WorkspaceArm::RootIdentity,
        WorkspaceArm::DanglingReceipts,
        WorkspaceArm::PreFlatReceipts,
        WorkspaceArm::IndexMigration,
    ];
    let consented = if reattach {
        seq![WorkspaceArm::Reattach]
    } else {
        Seq::empty()
    };
    before + consented + seq![
        WorkspaceArm::BranchMigration,
        WorkspaceArm::ReplayExclusion,
        WorkspaceArm::MergeDriver,
    ]
}

/// The parts the repairs of the workspace are made of, in the order they run.
pub fn apply_workspace_repairs(reattach: bool) -> (arms: Vec<WorkspaceArm>)
    ensures
        arms@ == workspace_arms(reattach),
{
    let mut arms: Vec<WorkspaceArm> = Vec::new();
    arms.push(WorkspaceArm::ActivePointer);
    arms.push(WorkspaceArm::RootIdentity);
    arms.push(WorkspaceArm::DanglingReceipts);
    arms.push(WorkspaceArm::PreFlatReceipts);
    arms.push(WorkspaceArm::IndexMigration);
    if reattach {
        arms.push(WorkspaceArm::Reattach);
    }
    arms.push(WorkspaceArm::BranchMigration);
    arms.push(WorkspaceArm::ReplayExclusion);
    arms.push(WorkspaceArm::MergeDriver);
    assert(arms@ =~= workspace_arms(reattach));
    arms
}

/// The receipts of the retired shape are looked at, the indexes get their
/// receipts and the detached stores are reattached before the branches are
/// migrated: the migration is the last to touch receipts, and it finds no
/// store detached that could be attached.
pub proof fn migration_runs_after_what_it_needs(reattach: bool, i: int, j: int)
    requires
        0 <= i < workspace_arms(reattach).len(),
        0 <= j < workspace_arms(reattach).len(),
        workspace_arms(reattach)[j] is BranchMigration,
        workspace_arms(reattach)[i] is PreFlatReceipts || workspace_arms(
            reattach,
        )[i] is IndexMigration || workspace_arms(reattach)[i] is Reattach
            || workspace_arms(reattach)[i] is DanglingReceipts,
    ensures
        i < j,
{
}

/// Without consent no store is reattached.
pub proof fn no_reattachment_without_consent(i: int)
    requires
        0 <= i < workspace_arms(false).len(),
    ensures
        !(workspace_arms(false)[i] is Reattach),
{
}

/// A list of errors, with one more where there is one.
pub open spec fn with_error(errors: Seq<Seq<char>>, error: Option<Seq<char>>) -> Seq<Seq<char>> {
    match error {
        Some(e) => errors.push(e),
        None => errors,
    }
}

fn report(errors: &mut Vec<String>, error: String)
    ensures
        final(errors).deep_view() == old(errors).deep_view().push(error@),
{
    errors.push(error);
    assert(errors.deep_view() =~= old(errors).deep_view().push(error@));
}

/// What failed, where something did.
pub open spec fn failure(reply: Result<(), String>, told: spec_fn(Seq<char>) -> Seq<char>) -> Option<
    Seq<char>,
> {
    match reply {
        Ok(_) => None,
        Err(e) => Some(told(e@)),
    }
}

/// The project whose pointer is to be cleared: the active one, where its
/// directory is not there.
pub fn dangling_pointer(active: Option<ProjectName>, dir_is_there: bool) -> (name: Option<
    ProjectName,
>)
    ensures
        name.deep_view() == if dir_is_there {
            None
        } else {
            active.deep_view()
        },
{
    if dir_is_there {
        None
    } else {
        active
    }
}

/// What is announced of a pointer that was cleared. A failure is reported.
pub fn settle_pointer(errors: &mut Vec<String>, name: &ProjectName, reply: Result<(), String>) -> (told:
    Option<String>)
    ensures
        told.deep_view() == if reply is Ok {
            Some(pointer_cleared_text(name@))
        } else {
            None
        },
        final(errors).deep_view() == with_error(
            old(errors).deep_view(),
            failure(reply, |e: Seq<char>| pointer_failed_text(name@, e)),
        ),
{
    match reply {
        Ok(()) => Some(pointer_cleared(name)),
        Err(e) => {
            report(errors, pointer_failed(name, &e));
            None
        },
    }
}

/// A root whose pointer is to be cleared, and the workweave it is.
#[derive(Debug)]
pub struct DisputedRoot {
    pub root: PathText,
    pub project: String,
    pub workweave_name: String,
}

/// What a [`DisputedRoot`] says.
pub struct DisputedRootView {
    pub root: Seq<char>,
    pub project: Seq<char>,
    pub workweave_name: Seq<char>,
}

impl DeepView for DisputedRoot {
    type V = DisputedRootView;

    open spec fn deep_view(&self) -> DisputedRootView {
        DisputedRootView {
            root: self.root@,
            project: self.project@,
            workweave_name: self.workweave_name@,
        }
    }
}

/// The root a finding offers for repair. Only a root the registry vouches for
/// is one: elsewhere nothing says which of the two files is the stray.
pub open spec fn root_rule() -> spec_fn(CheckViolationView) -> Seq<DisputedRootView> {
    |v: CheckViolationView|
        match v {
            CheckViolationView::WeaveRootIdentityConflict {
                root,
                sub_kind: WeaveRootIdentityConflictKindView::RegisteredWorkweave {
                    project,
                    workweave_name,
                },
                ..
            } => seq![DisputedRootView { root, project, workweave_name }],
            _ => Seq::empty(),
        }
}

/// Lists the roots whose pointers are to be cleared.
pub fn roots_to_clear(violations: &Vec<CheckViolation>) -> (roots: Vec<DisputedRoot>)
    ensures
        roots.deep_view() == violations.deep_view().flat_map(root_rule()),
{
    let ghost all = violations.deep_view();
    let ghost f = root_rule();
    let mut roots: Vec<DisputedRoot> = Vec::new();
    let mut i: usize = 0;
    assert(roots.deep_view() =~= all.take(0).flat_map(f));
    while i < violations.len()
        invariant
            0 <= i <= violations.len(),
            all == violations.deep_view(),
            f == root_rule(),
            roots.deep_view() == all.take(i as int).flat_map(f),
        decreases violations.len() - i,
    {
        let ghost prior = roots.deep_view();
        proof {
            all.lemma_flat_map_take_append(f, i as int);
            assert(all[i as int] == violations@[i as int].deep_view());
        }
        if let CheckViolation::WeaveRootIdentityConflict {
            root,
            sub_kind: WeaveRootIdentityConflictKind::RegisteredWorkweave { project, workweave_name },
            ..
        } = &violations[i] {
            roots.push(
                DisputedRoot {
                    root: root.clone(),
                    project: project.clone(),
                    workweave_name: workweave_name.clone(),
                },
            );
        }
        assert(roots.deep_view() =~= prior + f(all[i as int]));
        i = i + 1;
    }
    assert(all.take(i as int) =~= all);
    roots
}

/// What is announced of a root whose pointer was cleared. A failure is
/// reported.
pub fn settle_root(errors: &mut Vec<String>, root: &DisputedRoot, reply: Result<(), String>) -> (told:
    Option<String>)
    ensures
        told.deep_view() == if reply is Ok {
            Some(root_cleared_text(root.root@, root.workweave_name@, root.project@))
        } else {
            None
        },
        final(errors).deep_view() == with_error(
            old(errors).deep_view(),
            failure(reply, |e: Seq<char>| root_failed_text(root.root@, e)),
        ),
{
    match reply {
        Ok(()) => Some(root_cleared(&root.root, &root.workweave_name, &root.project)),
        Err(e) => {
            report(errors, root_failed(&root.root, &e));
            None
        },
    }
}

/// The repairs that are announced by path and name.
#[derive(Debug, Clone, Copy, PartialEq, Eq, Structural)]
pub enum NamedRepair {
    DanglingReceipt,
    PreFlatReceipt,
    Reattachment,
    BranchDeletion,
}

/// What is announced of a repair.
pub open spec fn named_repair_text(kind: NamedRepair, path: Seq<char>, name: Seq<char>) -> Seq<char> {
    match kind {
        NamedRepair::DanglingReceipt => dangling_retracted_text(name, path),
        NamedRepair::PreFlatReceipt => pre_flat_retracted_text(name, path),
        NamedRepair::Reattachment => reattached_text(path, name),
        NamedRepair::BranchDeletion => branch_deleted_text(name, path),
    }
}

/// Announces repairs, in order.
pub fn announce_repairs(kind: NamedRepair, repaired: &Vec<(PathText, String)>) -> (told: Vec<String>)
    ensures
        told@.len() == repaired@.len(),
        forall|i: int|
            0 <= i < repaired@.len() ==> (#[trigger] told@[i])@ == named_repair_text(
                kind,
                repaired@[i].0@,
                repaired@[i].1@,
            ),
{
    let mut told: Vec<String> = Vec::new();
    let mut i: usize = 0;
    while i < repaired.len()
        invariant
            0 <= i <= repaired.len(),
            told@.len() == i,
            forall|k: int|
                0 <= k < i ==> (#[trigger] told@[k])@ == named_repair_text(
                    kind,
                    repaired@[k].0@,
                    repaired@[k].1@,
                ),
        decreases repaired.len() - i,
    {
        let path: &PathText = &repaired[i].0;
        let name: &String = &repaired[i].1;
        let text: String = match kind {
            NamedRepair::DanglingReceipt => dangling_retracted(name, path),
            NamedRepair::PreFlatReceipt => pre_flat_retracted(name, path),
            NamedRepair::Reattachment => reattached(path, name),
            NamedRepair::BranchDeletion => branch_deleted(name, path),
        };
        told.push(text);
        i = i + 1;
    }
    told
}

/// Announces what a migration did, in order.
pub fn announce_migrations(applied: &Vec<String>) -> (told: Vec<String>)
    ensures
        told@.len() == applied@.len(),
        forall|i: int|
            0 <= i < applied@.len() ==> (#[trigger] told@[i])@ == migration_applied_text(applied@[i]@),
{
    let mut told: Vec<String> = Vec::new();
    let mut i: usize = 0;
    while i < applied.len()
        invariant
            0 <= i <= applied.len(),
            told@.len() == i,
            forall|k: int|
                0 <= k < i ==> (#[trigger] told@[k])@ == migration_applied_text(applied@[k]@),
        decreases applied.len() - i,
    {
        told.push(migration_applied(&applied[i]));
        i = i + 1;
    }
    told
}

/// Lists the projects whose indexes are migrated: those looked at, in order.
pub fn projects_to_migrate(discovered: &Vec<ProjectName>, active: &Option<ProjectName>) -> (names: Vec<
    ProjectName,
>)
    ensures
        names.deep_view() == discovered.deep_view().filter(
            |p: Seq<char>| in_focus(active.deep_view(), p),
        ),
{
    let ghost all = discovered.deep_view();
    let ghost keep = |p: Seq<char>| in_focus(active.deep_view(), p);
    let mut names: Vec<ProjectName> = Vec::new();
    let mut i: usize = 0;
    assert(names.deep_view() =~= all.take(0).filter(keep)) by {
        reveal(Seq::filter);
    }
    while i < discovered.len()
        invariant
            0 <= i <= discovered.len(),
            all == discovered.deep_view(),
            keep == (|p: Seq<char>| in_focus(active.deep_view(), p)),
            names.deep_view() == all.take(i as int).filter(keep),
        decreases discovered.len() - i,
    {
        let ghost prior = names.deep_view();
        proof {
            assert(all.take(i as int + 1) =~= all.take(i as int).push(all[i as int]));
            all.take(i as int).lemma_filter_push(all[i as int], keep);
        }
        if focused(active, &discovered[i]) {
            names.push(discovered[i].clone());
            assert(names.deep_view() =~= prior.push(all[i as int]));
        }
        i = i + 1;
    }
    assert(all.take(i as int) =~= all);
    names
}

/// What is announced of an index that got its receipts. A failure is reported.
pub fn settle_index(
    errors: &mut Vec<String>,
    project: &ProjectName,
    index_path: &PathText,
    reply: Result<bool, String>,
) -> (told: Option<String>)
    ensures
        told.deep_view() == match reply {
            Ok(done) => if done {
                Some(index_migrated_text(index_path@))
            } else {
                None
            },
            Err(_) => None,
        },
        final(errors).deep_view() == with_error(
            old(errors).deep_view(),
            match reply {
                Ok(_) => None,
                Err(e) => Some(index_unmigrated_text(project@, e@)),
            },
        ),
{
    match reply {
        Ok(done) => {
            if done {
                Some(index_migrated(index_path))
            } else {
                None
            }
        },
        Err(e) => {
            report(errors, index_unmigrated(project, &e));
            None
        },
    }
}

/// What is done about a project's replay exclusion. `None` stands for a state
/// that cannot be read.
pub open spec fn exclusion_repair(state: Option<ReplayExclusionState>) -> Option<ReplayExclusionKind> {
    match state {
        Some(s) => exclusion_gap(s),
        None => None,
    }
}

/// Decides what is done about a project's replay exclusion: it is written
/// exactly where the scan reports it as missing or outdated.
pub fn plan_exclusion(state: Option<ReplayExclusionState>) -> (repair: Option<ReplayExclusionKind>)
    ensures
        repair == exclusion_repair(state),
{
    match state {
        Some(s) => replay_exclusion_finding(s),
        None => None,
    }
}

/// What the rewriting of an outdated replay exclusion is called. One that was
/// absent is written, not migrated, and not committed.
pub open spec fn migration_phrase(kind: ReplayExclusionKind) -> Option<Seq<char>> {
    match kind {
        ReplayExclusionKind::Absent => None,
        ReplayExclusionKind::LegacySpelling => Some(respelled_text()),
        ReplayExclusionKind::LegacyAlongsideCurrent => Some(dropped_line_text()),
    }
}

/// What comes after a replay exclusion was written, or could not be.
#[derive(Debug)]
pub enum ExclusionWritten {
    /// A migration: the attributes file is to be committed.
    Commit,
    Announce { told: String },
    Failed,
}

/// Settles the writing of a replay exclusion. A failure is reported.
pub fn settle_exclusion(
    errors: &mut Vec<String>,
    project: &ProjectName,
    kind: ReplayExclusionKind,
    reply: Result<(), String>,
) -> (written: ExclusionWritten)
    ensures
        match reply {
            Ok(_) => if migration_phrase(kind) is Some {
                written is Commit
            } else {
                written matches ExclusionWritten::Announce { told } && told@
                    == exclusion_written_text(project@)
            },
            Err(_) => written is Failed,
        },
        final(errors).deep_view() == with_error(
            old(errors).deep_view(),
            failure(reply, |e: Seq<char>| exclusion_failed_text(project@, e)),
        ),
{
    match reply {
        Ok(()) => match kind {
            ReplayExclusionKind::Absent => ExclusionWritten::Announce {
                told: exclusion_written(project),
            },
            _ => ExclusionWritten::Commit,
        },
        Err(e) => {
            report(errors, exclusion_failed(project, &e));
            ExclusionWritten::Failed
        },
    }
}

/// What is announced of a migrated replay exclusion.
pub open spec fn exclusion_commit_text(phrase: Seq<char>, project: Seq<char>, outcome: CommitOutcome) -> Seq<
    char,
> {
    match outcome {
        CommitOutcome::Committed => exclusion_committed_text(phrase, project),
        CommitOutcome::SkippedUnrelatedStaged => exclusion_uncommitted_text(phrase, project),
        CommitOutcome::NothingToCommit => exclusion_unchanged_text(phrase, project),
    }
}

/// Settles the commit of a migrated replay exclusion. A failure is reported.
pub fn settle_exclusion_commit(
    errors: &mut Vec<String>,
    project: &ProjectName,
    kind: ReplayExclusionKind,
    reply: Result<CommitOutcome, String>,
) -> (told: Option<String>)
    ensures
        told.deep_view() == match reply {
            Ok(outcome) => match migration_phrase(kind) {
                Some(phrase) => Some(exclusion_commit_text(phrase, project@, outcome)),
                None => None,
            },
            Err(_) => None,
        },
        final(errors).deep_view() == with_error(
            old(errors).deep_view(),
            match reply {
                Ok(_) => None,
                Err(e) => Some(exclusion_commit_failed_text(project@, e@)),
            },
        ),
{
    match reply {
        Ok(outcome) => {
            let phrase: String = match kind {
                ReplayExclusionKind::Absent => {
                    return None;
                },
                ReplayExclusionKind::LegacySpelling => respelled(),
                ReplayExclusionKind::LegacyAlongsideCurrent => dropped_line(),
            };
            match outcome {
                CommitOutcome::Committed => Some(exclusion_committed(&phrase, project)),
                CommitOutcome::SkippedUnrelatedStaged => Some(
                    exclusion_uncommitted(&phrase, project),
                ),
                CommitOutcome::NothingToCommit => Some(exclusion_unchanged(&phrase, project)),
            }
        },
        Err(e) => {
            report(errors, exclusion_commit_failed(project, &e));
            None
        },
    }
}

/// Whether a project's merge driver is to be planted: it is known not to be
/// there.
pub fn plan_driver(configured: Option<bool>) -> (plant: bool)
    ensures
        plant == (configured == Some(false)),
{
    match configured {
        Some(is_there) => !is_there,
        None => false,
    }
}

/// What is announced of a merge driver that was planted. A failure is reported.
pub fn settle_driver(
    errors: &mut Vec<String>,
    project: &ProjectName,
    config_key: &String,
    reply: Result<(), String>,
) -> (told: Option<String>)
    ensures
        told.deep_view() == if reply is Ok {
            Some(driver_planted_text(config_key@, project@))
        } else {
            None
        },
        final(errors).deep_view() == with_error(
            old(errors).deep_view(),
            failure(reply, |e: Seq<char>| driver_failed_text(project@, config_key@, e)),
        ),
{
    match reply {
        Ok(()) => Some(driver_planted(config_key, project)),
        Err(e) => {
            report(errors, driver_failed(project, config_key, &e));
            None
        },
    }
}

/// Every repair of the workspace has its turn; reattaching alone needs consent.
pub proof fn every_repair_has_its_turn(reattach: bool, arm: WorkspaceArm)
    ensures
        workspace_arms(reattach).contains(arm) <==> (arm is Reattach ==> reattach),
        workspace_arms(reattach).no_duplicates(),
{
    let all = workspace_arms(reattach);
    let late: int = if reattach {
        1
    } else {
        0
    };
    match arm {
        WorkspaceArm::ActivePointer => assert(all[0] == arm),
        WorkspaceArm::RootIdentity => assert(all[1] == arm),
        WorkspaceArm::DanglingReceipts => assert(all[2] == arm),
        WorkspaceArm::PreFlatReceipts => assert(all[3] == arm),
        WorkspaceArm::IndexMigration => assert(all[4] == arm),
        WorkspaceArm::Reattach => {
            if reattach {
                assert(all[5] == arm);
            }
        },
        WorkspaceArm::BranchMigration => assert(all[5 + late] == arm),
        WorkspaceArm::ReplayExclusion => assert(all[6 + late] == arm),
        WorkspaceArm::MergeDriver => assert(all[7 + late] == arm),
    }
}

/// A root loses its pointer exactly where the registry vouches for it as a
/// workweave: the pointer that is cleared is at the conflict's own root.
pub proof fn only_vouched_roots_are_cleared(vs: Seq<CheckViolationView>, r: DisputedRootView)
    ensures
        vs.flat_map(root_rule()).contains(r) <==> exists|i: int|
            0 <= i < vs.len() && (#[trigger] vs[i]
                matches CheckViolationView::WeaveRootIdentityConflict { root, sub_kind, .. } && root
                == r.root && sub_kind == (WeaveRootIdentityConflictKindView::RegisteredWorkweave {
                project: r.project,
                workweave_name: r.workweave_name,
            })),
{
    let f = root_rule();
    flat_map_contains(vs, f, r);
    if vs.flat_map(f).contains(r) {
        let i = choose|i: int| 0 <= i < vs.len() && (#[trigger] f(vs[i])).contains(r);
        assert(f(vs[i])[0] == r);
        assert(vs[i] is WeaveRootIdentityConflict);
    }
    assert forall|i: int|
        0 <= i < vs.len() && (#[trigger] vs[i]
            matches CheckViolationView::WeaveRootIdentityConflict { root, sub_kind, .. } && root
            == r.root && sub_kind == (WeaveRootIdentityConflictKindView::RegisteredWorkweave {
            project: r.project,
            workweave_name: r.workweave_name,
        })) implies vs.flat_map(f).contains(r) by {
        assert(f(vs[i])[0] == r);
        assert(f(vs[i]).contains(r));
    }
}

/// A replay exclusion is repaired where it was read and falls short; a legacy
/// one is migrated, and a missing one is written afresh.
pub proof fn exclusions_are_repaired_as_read(state: Option<ReplayExclusionState>)
    ensures
        exclusion_repair(state) is None <==> state is None || state
            == Some(ReplayExclusionState::Current),
        exclusion_repair(state) matches Some(kind) ==> (migration_phrase(kind) is None <==> state
            == Some(ReplayExclusionState::Absent)),
{
}

/// A repair that failed adds its error behind those that were there, and one
/// that succeeded adds none.
pub proof fn errors_are_kept(errors: Seq<Seq<char>>, error: Option<Seq<char>>)
    ensures
        errors.is_prefix_of(with_error(errors, error)),
        error is None ==> with_error(errors, error) == errors,
        error matches Some(e) ==> with_error(errors, error).len() == errors.len() + 1 && with_error(
            errors,
            error,
        ).last() == e,
{
}

/// A repair of the workspace is told with what was repaired and where, and a
/// failure with why.
pub proof fn messages_name_their_subjects(
    name: Seq<char>,
    error: Seq<char>,
    root: Seq<char>,
    workweave: Seq<char>,
    project: Seq<char>,
    store: Seq<char>,
    branch: Seq<char>,
    message: Seq<char>,
    path: Seq<char>,
    phrase: Seq<char>,
    key: Seq<char>,
)
    ensures
        tells(pointer_cleared_text(name), seq![name]),
        tells(pointer_failed_text(name, error), seq![name].push(error)),
        tells(
            root_cleared_text(root, workweave, project),
            seq![root].push(workweave).push(project),
        ),
        tells(root_failed_text(root, error), seq![root].push(error)),
        tells(dangling_retracted_text(name, store), seq![name].push(store)),
        tells(pre_flat_retracted_text(name, store), seq![name].push(store)),
        tells(reattached_text(store, branch), seq![store].push(branch)),
        tells(branch_deleted_text(branch, store), seq![branch].push(store)),
        tells(migration_applied_text(message), seq![message]),
        tells(index_migrated_text(path), seq![path]),
        tells(index_unmigrated_text(project, error), seq![project].push(error)),
        tells(exclusion_written_text(project), seq![project]),
        tells(exclusion_failed_text(project, error), seq![project].push(error)),
        tells(exclusion_committed_text(phrase, project), seq![phrase].push(project)),
        tells(exclusion_uncommitted_text(phrase, project), seq![phrase].push(project)),
        tells(exclusion_unchanged_text(phrase, project), seq![phrase].push(project)),
        tells(exclusion_commit_failed_text(project, error), seq![project].push(error)),
        tells(driver_planted_text(key, project), seq![key].push(project)),
        tells(driver_failed_text(project, key, error), seq![project].push(key).push(error)),
{
    broadcast use telling;
}

/// A repair is announced with what it was done to: a receipt with its branch
/// and store, a reattachment with its store and branch, a deletion with its
/// branch and store.
pub proof fn repairs_are_announced_in_place(kind: NamedRepair, path: Seq<char>, name: Seq<char>)
    ensures
        kind is DanglingReceipt || kind is PreFlatReceipt || kind is BranchDeletion ==> tells(
            named_repair_text(kind, path, name),
            seq![name].push(path),
        ),
        kind is Reattachment ==> tells(named_repair_text(kind, path, name), seq![path].push(name)),
        kind is Reattachment ==> tells(
            named_repair_text(kind, path, name),
            seq!["[fixed] core: reattached detached canonical "@],
        ),
        kind is DanglingReceipt ==> tells(
            named_repair_text(kind, path, name),
            seq!["[fixed] core: retracted dangling ownership receipt for `"@],
        ),
        kind is PreFlatReceipt ==> tells(
            named_repair_text(kind, path, name),
            seq!["[fixed] core: retracted the ownership receipt for `"@],
        ),
        kind is BranchDeletion ==> tells(
            named_repair_text(kind, path, name),
            seq!["[fixed] core: deleted safe-class stale ephemeral branch `"@],
        ),
{
    broadcast use telling;
}

/// What became of the commit is told: that it was made, or, where something
/// else was staged, that it was not.
pub proof fn commits_are_told_as_made(phrase: Seq<char>, project: Seq<char>, outcome: CommitOutcome)
    ensures
        tells(exclusion_commit_text(phrase, project, outcome), seq![phrase].push(project)),
        outcome is Committed ==> tells(
            exclusion_commit_text(phrase, project, outcome),
            seq![project].push("/.gitattributes (committed)"@),
        ),
        outcome is NothingToCommit ==> tells(
            exclusion_commit_text(phrase, project, outcome),
            seq![project].push("/.gitattributes"@),
        ),
        outcome is SkippedUnrelatedStaged ==> exclusion_commit_text(phrase, project, outcome)
            != exclusion_commit_text(phrase, project, CommitOutcome::Committed)
            && exclusion_commit_text(phrase, project, outcome) != exclusion_commit_text(
            phrase,
            project,
            CommitOutcome::NothingToCommit,
        ),
{
    broadcast use telling;
    reveal_strlit("/.gitattributes (committed)");
    reveal_strlit("/.gitattributes");
    reveal_strlit(
        "/.gitattributes (NOT committed: project repo has unrelated staged changes; commit \
           them, then re-run `rwv doctor --fix` to complete the migration)",
    );
    let skipped = exclusion_commit_text(phrase, project, CommitOutcome::SkippedUnrelatedStaged);
    let made = exclusion_commit_text(phrase, project, CommitOutcome::Committed);
    let none = exclusion_commit_text(phrase, project, CommitOutcome::NothingToCommit);
    assert(skipped.len() > made.len() > none.len());
}

/// A migrated exclusion is told as what was done to it: respelled, or the
/// legacy line dropped.
pub proof fn migrations_are_phrased_as_done()
    ensures
        migration_phrase(ReplayExclusionKind::LegacySpelling) == Some(
            "migrated `rwv.lock merge=ours` → `rwv.lock merge=rwv-ours`"@,
        ),
        migration_phrase(ReplayExclusionKind::LegacyAlongsideCurrent) == Some(
            "dropped the legacy `rwv.lock merge=ours` line, leaving `rwv.lock merge=rwv-ours`"@,
        ),
{
}

} // verus!
