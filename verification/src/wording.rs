//! The wording of each finding in the text report.

use vstd::prelude::*;
use crate::text::{
    decimal, decimal_text, join, join_text, location, location_text, quote_all, quoted_list, tells,
    telling,
};
use crate::violation::{
    BranchDisciplineKind, CargoSkewOccurrence, CheckViolation, CloneTopologyKind, DeadOpLeaseKind,
    DriftKind, IndexDriftKind, LeaseStamp, LegacyRefAtTip, OrphanedSavepointKind, ProvenanceKind,
    ReplayExclusionKind, WeaveRootIdentityConflictKind, WorkingTreeDriftKind,
    WorkweaveTreeIntegrityKind,
};
use crate::violation_view::{
    BranchDisciplineKindView, CargoSkewOccurrenceView, CheckViolationView, CloneTopologyKindView,
    DeadOpLeaseKindView, LeaseStampView, LegacyRefAtTipView, ProvenanceKindView,
    WeaveRootIdentityConflictKindView, WorkweaveTreeIntegrityKindView,
};

verus! {

/// The switch a checkout off its branch is advised to make: back to the recorded
/// ref where there is one, and to a new branch only where there is none.
pub open spec fn reattach_advice_text(recorded_ref: Option<Seq<char>>, expected_prefix: Seq<char>) -> Seq<char> {
    match recorded_ref {
        Some(name) => {
            "rwv holds a receipt for `"@
            + name
            + "` in this repo's canonical store — use `git switch "@
            + name
            + "` to return to it"@
        },
        None => {
            "rwv holds no receipt for an ephemeral ref in this repo's canonical store, so \
             there is none to return to — `git switch -c "@
            + expected_prefix
            + "/main` creates one, or recreate the workweave so rwv records it"@
        },
    }
}

/// Words the advice for a checkout off its branch.
fn reattach_advice(recorded_ref: &Option<String>, expected_prefix: &String) -> (text: String)
    ensures
        text@ == reattach_advice_text(recorded_ref.deep_view(), expected_prefix@),
{
    match recorded_ref {
        Some(name) => {
            "rwv holds a receipt for `".to_owned()
                .concat(name)
                .concat("` in this repo's canonical store — use `git switch ")
                .concat(name)
                .concat("` to return to it")
        },
        None => {
            "rwv holds no receipt for an ephemeral ref in this repo's canonical \
                     store, so there is none to return to — `git switch -c ".to_owned()
                .concat(expected_prefix)
                .concat("/main` creates one, or recreate the workweave so rwv records it")
        },
    }
}

/// How the active-project pointer is described.
pub open spec fn pointer_text(pointer: Option<Seq<char>>) -> Seq<char> {
    match pointer {
        Some(project) => "names `"@ + project + "`"@,
        None => "is empty"@,
    }
}

/// Describes the active-project pointer.
fn pointer_words(pointer: &Option<String>) -> (text: String)
    ensures
        text@ == pointer_text(pointer.deep_view()),
{
    match pointer {
        Some(project) => "names `".to_owned().concat(project).concat("`"),
        None => "is empty".to_owned(),
    }
}

/// The wording of a directory that carries both a pointer and a marker.
pub open spec fn identity_text(
    root: Seq<char>,
    pointer_project: Option<Seq<char>>,
    kind: WeaveRootIdentityConflictKindView,
) -> Seq<char> {
    match kind {
        WeaveRootIdentityConflictKindView::RegisteredWorkweave { project, workweave_name } => {
            root
            + ": carries both `.rwv-active` (which "@
            + pointer_text(pointer_project)
            + ") and `.rwv-workweave`; the two are mutually exclusive. This directory is \
               recorded as workweave `"@
            + workweave_name
            + "` of project `"@
            + project
            + "`, so the marker is authoritative and the pointer is an unread duplicate; run \
               `rwv doctor --fix` to delete `.rwv-active` here (the marker is left alone)"@
        },
        WeaveRootIdentityConflictKindView::MarkerUnverifiable { defect, .. } => {
            root
            + ": carries both `.rwv-active` (which "@
            + pointer_text(pointer_project)
            + ") and `.rwv-workweave`; the two are mutually exclusive. "@
            + defect.refusal
            + " `--fix` does not touch the pointer until the marker is repaired"@
        },
        WeaveRootIdentityConflictKindView::Unwitnessed { detail } => {
            root
            + ": carries both `.rwv-active` (which "@
            + pointer_text(pointer_project)
            + ") and `.rwv-workweave`; the two are mutually exclusive. "@
            + detail
            + " Nothing outside this directory says which file is the stray, so `--fix` does \
               not touch either — delete the one you know to be wrong by hand"@
        },
    }
}

/// Words a directory that carries both a pointer and a marker.
fn identity_message(
    root: &String,
    pointer_project: &Option<String>,
    kind: &WeaveRootIdentityConflictKind,
) -> (text: String)
    ensures
        text@ == identity_text(root@, pointer_project.deep_view(), kind.deep_view()),
{
    let pointer: String = pointer_words(pointer_project);
    match kind {
        WeaveRootIdentityConflictKind::RegisteredWorkweave { project, workweave_name } => {
            root.clone()
                .concat(": carries both `.rwv-active` (which ")
                .concat(&pointer)
                .concat(
                    ") and `.rwv-workweave`; the two are mutually exclusive. This directory \
                     is recorded as workweave `",
                )
                .concat(workweave_name)
                .concat("` of project `")
                .concat(project)
                .concat(
                    "`, so the marker is authoritative and the pointer is an unread \
                     duplicate; run `rwv doctor --fix` to delete `.rwv-active` here (the \
                     marker is left alone)",
                )
        },
        WeaveRootIdentityConflictKind::MarkerUnverifiable { defect, .. } => {
            root.clone()
                .concat(": carries both `.rwv-active` (which ")
                .concat(&pointer)
                .concat(") and `.rwv-workweave`; the two are mutually exclusive. ")
                .concat(&defect.refusal)
                .concat(" `--fix` does not touch the pointer until the marker is repaired")
        },
        WeaveRootIdentityConflictKind::Unwitnessed { detail } => {
            root.clone()
                .concat(": carries both `.rwv-active` (which ")
                .concat(&pointer)
                .concat(") and `.rwv-workweave`; the two are mutually exclusive. ")
                .concat(detail)
                .concat(
                    " Nothing outside this directory says which file is the stray, so \
                     `--fix` does not touch either — delete the one you know to be wrong by \
                     hand",
                )
        },
    }
}

/// The wording of a workweave directory, marker or registry entry out of place.
pub open spec fn tree_text(dir: Seq<char>, kind: WorkweaveTreeIntegrityKindView) -> Seq<char> {
    match kind {
        WorkweaveTreeIntegrityKindView::DanglingParent { parent_path } => {
            dir
            + ": marker `parent` points to `"@
            + parent_path
            + "` which does not exist; run `rwv doctor --fix` to re-point parent to primary"@
        },
        WorkweaveTreeIntegrityKindView::ParentChainAnomaly { detail } => {
            dir + ": workweave parent-chain anomaly: "@ + detail
        },
        WorkweaveTreeIntegrityKindView::UnregisteredDir => {
            dir + ": directory under workweaves parent has no `.rwv-workweave` marker"@
        },
        WorkweaveTreeIntegrityKindView::ForeignPrimary { marker_primary } => {
            dir
            + ": marker `primary` (`"@
            + marker_primary
            + "`) does not match this workspace; this workweave may have been copied from \
               another machine"@
        },
        WorkweaveTreeIntegrityKindView::ForeignPrimaryOtherWorkspace { marker_primary } => {
            dir
            + ": belongs to workspace `"@
            + marker_primary
            + "`; not this workspace's to manage"@
        },
        WorkweaveTreeIntegrityKindView::StaleRegistryEntry { project, workweave_name, recorded_path, reason } => {
            "workweave-index: stale entry `"@
            + workweave_name
            + "` in project `"@
            + project
            + "` (recorded at `"@
            + recorded_path
            + "`): "@
            + reason
            + "; run `rwv doctor --fix` to prune"@
        },
        WorkweaveTreeIntegrityKindView::UnregisteredWorkweave { project, workweave_name } => {
            dir
            + ": workweave `"@
            + workweave_name
            + "` for project `"@
            + project
            + "` is present on disk but not recorded in `.rwv-workweave-index`; run `rwv \
               doctor --fix` to adopt it"@
        },
        WorkweaveTreeIntegrityKindView::TrackedIndex { project, index_path } => {
            index_path
            + ": `.rwv-workweave-index` for project `"@
            + project
            + "` is tracked by the project repo; the index is machine-local — run `git rm \
               --cached "@
            + index_path
            + "` and add `.rwv-workweave-index` to `.gitignore`"@
        },
        WorkweaveTreeIntegrityKindView::UnreadableMarker { detail } => detail,
        WorkweaveTreeIntegrityKindView::NestedWorkweaveDir { project, workweave_name, expected_dir_name } => {
            dir
            + ": workweave `"@
            + workweave_name
            + "` for project `"@
            + project
            + "` sits below its container instead of in it, from the era when a \
               multi-segment project name rendered its `/` into the directory name; rwv now \
               spells this workweave `"@
            + expected_dir_name
            + "`. Retire this workweave and create it again — rwv does not rename a live \
               workweave into place, and moving it by hand strands the worktrees inside it"@
        },
        WorkweaveTreeIntegrityKindView::MisnamedDir { expected_dir_name: Some(expected), detail } => {
            dir
            + ": workweave directory name disagrees with its records — "@
            + detail
            + ". Rename the directory to `"@
            + expected
            + "` to restore the recorded identity"@
        },
        WorkweaveTreeIntegrityKindView::MisnamedDir { expected_dir_name: None, detail } => {
            dir
            + ": workweave directory name disagrees with its records — "@
            + detail
            + ". Rename it to the `<project>--<name>` you intend, or remove the directory"@
        },
    }
}

/// Words a workweave directory, marker or registry entry out of place.
fn tree_message(dir: &String, kind: &WorkweaveTreeIntegrityKind) -> (text: String)
    ensures
        text@ == tree_text(dir@, kind.deep_view()),
{
    match kind {
        WorkweaveTreeIntegrityKind::DanglingParent { parent_path } => {
            dir.clone()
                .concat(": marker `parent` points to `")
                .concat(parent_path)
                .concat(
                    "` which does not exist; run `rwv doctor --fix` to re-point parent to \
                     primary",
                )
        },
        WorkweaveTreeIntegrityKind::ParentChainAnomaly { detail } => {
            dir.clone().concat(": workweave parent-chain anomaly: ").concat(detail)
        },
        WorkweaveTreeIntegrityKind::UnregisteredDir => {
            dir.clone()
                .concat(": directory under workweaves parent has no `.rwv-workweave` marker")
        },
        WorkweaveTreeIntegrityKind::ForeignPrimary { marker_primary } => {
            dir.clone()
                .concat(": marker `primary` (`")
                .concat(marker_primary)
                .concat(
                    "`) does not match this workspace; this workweave may have been copied \
                     from another machine",
                )
        },
        WorkweaveTreeIntegrityKind::ForeignPrimaryOtherWorkspace { marker_primary } => {
            dir.clone()
                .concat(": belongs to workspace `")
                .concat(marker_primary)
                .concat("`; not this workspace's to manage")
        },
        WorkweaveTreeIntegrityKind::StaleRegistryEntry { project, workweave_name, recorded_path, reason } => {
            "workweave-index: stale entry `".to_owned()
                .concat(workweave_name)
                .concat("` in project `")
                .concat(project)
                .concat("` (recorded at `")
                .concat(recorded_path)
                .concat("`): ")
                .concat(reason)
                .concat("; run `rwv doctor --fix` to prune")
        },
        WorkweaveTreeIntegrityKind::UnregisteredWorkweave { project, workweave_name } => {
            dir.clone()
                .concat(": workweave `")
                .concat(workweave_name)
                .concat("` for project `")
                .concat(project)
                .concat(
                    "` is present on disk but not recorded in `.rwv-workweave-index`; run \
                     `rwv doctor --fix` to adopt it",
                )
        },
        WorkweaveTreeIntegrityKind::TrackedIndex { project, index_path } => {
            index_path.clone()
                .concat(": `.rwv-workweave-index` for project `")
                .concat(project)
                .concat(
                    "` is tracked by the project repo; the index is machine-local — run `git \
                     rm --cached ",
                )
                .concat(index_path)
                .concat("` and add `.rwv-workweave-index` to `.gitignore`")
        },
        WorkweaveTreeIntegrityKind::UnreadableMarker { detail } => detail.clone(),
        WorkweaveTreeIntegrityKind::NestedWorkweaveDir { project, workweave_name, expected_dir_name } => {
            dir.clone()
                .concat(": workweave `")
                .concat(workweave_name)
                .concat("` for project `")
                .concat(project)
                .concat(
                    "` sits below its container instead of in it, from the era when a \
                     multi-segment project name rendered its `/` into the directory name; \
                     rwv now spells this workweave `",
                )
                .concat(expected_dir_name)
                .concat(
                    "`. Retire this workweave and create it again — rwv does not rename a \
                     live workweave into place, and moving it by hand strands the worktrees \
                     inside it",
                )
        },
        WorkweaveTreeIntegrityKind::MisnamedDir { expected_dir_name: Some(expected), detail } => {
            dir.clone()
                .concat(": workweave directory name disagrees with its records — ")
                .concat(detail)
                .concat(". Rename the directory to `")
                .concat(expected)
                .concat("` to restore the recorded identity")
        },
        WorkweaveTreeIntegrityKind::MisnamedDir { expected_dir_name: None, detail } => {
            dir.clone()
                .concat(": workweave directory name disagrees with its records — ")
                .concat(detail)
                .concat(". Rename it to the `<project>--<name>` you intend, or remove the directory")
        },
    }
}

/// The caution added where a reference repo's remote differs.
pub open spec fn reference_note(is_reference_role: bool) -> Seq<char> {
    if is_reference_role {
        " (note: reference-role repos may intentionally use a different remote — verify before \
         re-pointing)"@
    } else {
        ""@
    }
}

/// Words the caution for a reference repo.
fn reference_suffix(is_reference_role: bool) -> (text: String)
    ensures
        text@ == reference_note(is_reference_role),
{
    if is_reference_role {
        " (note: reference-role repos may intentionally use a different remote — verify before \
         re-pointing)".to_owned()
    } else {
        "".to_owned()
    }
}

/// The wording of a clone that is not what was declared.
pub open spec fn provenance_text(project: Seq<char>, repo: Seq<char>, kind: ProvenanceKindView) -> Seq<char> {
    match kind {
        ProvenanceKindView::OriginUrlMismatch { manifest_url, actual_url, is_reference_role } => {
            project
            + ": "@
            + repo
            + ": origin URL mismatch — manifest has `"@
            + manifest_url
            + "`, clone has `"@
            + actual_url
            + "`; pushes may target the wrong remote (report-only; update the manifest or \
               re-point the remote to converge)"@
            + reference_note(is_reference_role)
        },
        ProvenanceKindView::LockShaUnreachable { sha } => {
            project
            + ": "@
            + repo
            + ": lock pins SHA "@
            + sha
            + " which is absent from the local object store; the canonical store is missing \
               the pinned revision — refresh it from its remote (fetch, not sync)"@
        },
    }
}

/// Words a clone that is not what was declared.
fn provenance_message(project: &String, repo: &String, kind: &ProvenanceKind) -> (text: String)
    ensures
        text@ == provenance_text(project@, repo@, kind.deep_view()),
{
    match kind {
        ProvenanceKind::OriginUrlMismatch { manifest_url, actual_url, is_reference_role } => {
            project.clone()
                .concat(": ")
                .concat(repo)
                .concat(": origin URL mismatch — manifest has `")
                .concat(manifest_url)
                .concat("`, clone has `")
                .concat(actual_url)
                .concat(
                    "`; pushes may target the wrong remote (report-only; update the manifest \
                     or re-point the remote to converge)",
                )
                .concat(&reference_suffix(*is_reference_role))
        },
        ProvenanceKind::LockShaUnreachable { sha } => {
            project.clone()
                .concat(": ")
                .concat(repo)
                .concat(": lock pins SHA ")
                .concat(sha)
                .concat(
                    " which is absent from the local object store; the canonical store is \
                     missing the pinned revision — refresh it from its remote (fetch, not \
                     sync)",
                )
        },
    }
}

/// The wording of a checkout attached to the wrong object store.
pub open spec fn topology_text(workspace_path: Seq<char>, repo: Seq<char>, kind: CloneTopologyKindView) -> Seq<char> {
    match kind {
        CloneTopologyKindView::StandaloneInWorkweave { store_path } => {
            "clone-topology: standalone clone of `"@
            + repo
            + "` lives in a workweave ("@
            + store_path
            + "); the canonical store should be at `<weave>/"@
            + repo
            + "` not under `.workweaves/` (report-only; repair requires object-store \
               re-parenting — re-clone into the canonical slot and reconnect workweaves)"@
        },
        CloneTopologyKindView::DisconnectedWeaveClone { weave_store_path, other_store_path } => {
            "clone-topology: weave-path clone of `"@
            + repo
            + "` at "@
            + weave_store_path
            + " is disconnected — workweave checkouts of this repo use a different canonical \
               store ("@
            + other_store_path
            + "); the weave clone publishes an unread object DAG (report-only; repair \
               requires object-store re-parenting)"@
        },
        CloneTopologyKindView::WrongParentWorktree { expected_store_path, actual_store_path } => {
            "clone-topology: workweave checkout of `"@
            + repo
            + "` at "@
            + workspace_path
            + " is linked into "@
            + actual_store_path
            + " instead of the weave canonical "@
            + expected_store_path
            + "; cross-DAG merged-checks silently answer `no` (report-only; repair requires \
               object-store re-parenting)"@
        },
        CloneTopologyKindView::WeaveCloneIsWorktree { actual_store_path } => {
            "clone-topology: weave-path slot for `"@
            + repo
            + "` at "@
            + workspace_path
            + " is itself a linked worktree of "@
            + actual_store_path
            + "; the canonical store has migrated out of the manifest slot (report-only; \
               repair requires object-store re-parenting — re-clone into the canonical slot)"@
        },
    }
}

/// Words a checkout attached to the wrong object store.
fn topology_message(workspace_path: &String, repo: &String, kind: &CloneTopologyKind) -> (text: String)
    ensures
        text@ == topology_text(workspace_path@, repo@, kind.deep_view()),
{
    match kind {
        CloneTopologyKind::StandaloneInWorkweave { store_path } => {
            "clone-topology: standalone clone of `".to_owned()
                .concat(repo)
                .concat("` lives in a workweave (")
                .concat(store_path)
                .concat("); the canonical store should be at `<weave>/")
                .concat(repo)
                .concat(
                    "` not under `.workweaves/` (report-only; repair requires object-store \
                     re-parenting — re-clone into the canonical slot and reconnect \
                     workweaves)",
                )
        },
        CloneTopologyKind::DisconnectedWeaveClone { weave_store_path, other_store_path } => {
            "clone-topology: weave-path clone of `".to_owned()
                .concat(repo)
                .concat("` at ")
                .concat(weave_store_path)
                .concat(
                    " is disconnected — workweave checkouts of this repo use a different \
                     canonical store (",
                )
                .concat(other_store_path)
                .concat(
                    "); the weave clone publishes an unread object DAG (report-only; repair \
                     requires object-store re-parenting)",
                )
        },
        CloneTopologyKind::WrongParentWorktree { expected_store_path, actual_store_path } => {
            "clone-topology: workweave checkout of `".to_owned()
                .concat(repo)
                .concat("` at ")
                .concat(workspace_path)
                .concat(" is linked into ")
                .concat(actual_store_path)
                .concat(" instead of the weave canonical ")
                .concat(expected_store_path)
                .concat(
                    "; cross-DAG merged-checks silently answer `no` (report-only; repair \
                     requires object-store re-parenting)",
                )
        },
        CloneTopologyKind::WeaveCloneIsWorktree { actual_store_path } => {
            "clone-topology: weave-path slot for `".to_owned()
                .concat(repo)
                .concat("` at ")
                .concat(workspace_path)
                .concat(" is itself a linked worktree of ")
                .concat(actual_store_path)
                .concat(
                    "; the canonical store has migrated out of the manifest slot \
                     (report-only; repair requires object-store re-parenting — re-clone into \
                     the canonical slot)",
                )
        },
    }
}

/// How the retired-shape branch's tip lies to HEAD.
pub open spec fn legacy_relation_text(legacy: LegacyRefAtTipView) -> Seq<char> {
    if legacy.strands_commits {
        "a commit HEAD does not carry"@
    } else {
        "an ancestor of HEAD"@
    }
}

/// Words how the retired-shape branch's tip lies to HEAD.
fn legacy_relation(legacy: &LegacyRefAtTip) -> (text: String)
    ensures
        text@ == legacy_relation_text(legacy.deep_view()),
{
    if legacy.strands_commits {
        "a commit HEAD does not carry".to_owned()
    } else {
        "an ancestor of HEAD".to_owned()
    }
}

/// The warning added where adopting would strand commits.
pub open spec fn stranding_text(legacy: LegacyRefAtTipView) -> Seq<char> {
    if legacy.strands_commits {
        ". THAT STRANDS the commits on `"@ + legacy.branch
            + "`: adopting gives its name up, and they stay reachable only through the reflog"@
    } else {
        ""@
    }
}

/// Words the warning that adopting would strand commits.
fn stranding(legacy: &LegacyRefAtTip) -> (text: String)
    ensures
        text@ == stranding_text(legacy.deep_view()),
{
    if legacy.strands_commits {
        ". THAT STRANDS the commits on `".to_owned()
            .concat(&legacy.branch)
            .concat("`: adopting gives its name up, and they stay reachable only through the reflog")
    } else {
        "".to_owned()
    }
}

/// The wording of a checkout or branch that breaks the branch-ownership rules.
pub open spec fn branch_text(repo_path: Seq<char>, kind: BranchDisciplineKindView) -> Seq<char> {
    match kind {
        BranchDisciplineKindView::SharedBranch { actual_branch, expected_ref, recorded_ref } => {
            repo_path
            + ": workweave checkout is on shared-branch `"@
            + actual_branch
            + "` (expected its ephemeral branch `"@
            + expected_ref
            + "`); manual `git switch` inside a workweave breaks the I3 branch-ownership \
               invariant — "@
            + reattach_advice_text(recorded_ref, expected_ref)
            + " (report-only; no rwv --fix path)"@
        },
        BranchDisciplineKindView::ForeignEphemeral { actual_branch, expected_ref, recorded_ref } => {
            repo_path
            + ": workweave checkout is on `"@
            + actual_branch
            + "`, a ref rwv recorded for a different workweave (expected its ephemeral branch `"@
            + expected_ref
            + "`); "@
            + reattach_advice_text(recorded_ref, expected_ref)
            + " (report-only; no rwv --fix path)"@
        },
        BranchDisciplineKindView::Detached { expected_ref, at_sha, legacy_branch: Some(legacy), .. } => {
            repo_path
            + ": workweave checkout is detached at "@
            + at_sha
            + " while its pre-flat branch `"@
            + legacy.branch
            + "` sits at "@
            + legacy.tip_sha
            + " ("@
            + legacy_relation_text(legacy)
            + "). Reattach to it (`git switch "@
            + legacy.branch
            + "`) and re-run `rwv doctor --fix`, which renames it to `"@
            + expected_ref
            + "`; or run `rwv doctor --fix --adopt-detached-checkouts` to mint `"@
            + expected_ref
            + "` here at "@
            + at_sha
            + " instead"@
            + stranding_text(legacy)
        },
        BranchDisciplineKindView::Detached { expected_ref, recorded_ref, at_sha, legacy_branch: None } => {
            repo_path
            + ": workweave checkout is in detached-HEAD state at "@
            + at_sha
            + " (expected its ephemeral branch `"@
            + expected_ref
            + "`); "@
            + reattach_advice_text(recorded_ref, expected_ref)
            + " — or run `rwv doctor --fix --adopt-detached-checkouts` to mint `"@
            + expected_ref
            + "` here at "@
            + at_sha
        },
        BranchDisciplineKindView::UnmigratedEphemeralBranch { actual_branch, expected_ref } => {
            repo_path
            + ": workweave checkout is on `"@
            + actual_branch
            + "`, the pre-flat `<project>--<workweave>/<segment>` shape rwv no longer mints; \
               `rwv doctor --fix` records an ownership receipt for it and renames it to `"@
            + expected_ref
            + "` — a rename preserves the tip, so no commit moves"@
        },
        BranchDisciplineKindView::BlockedEphemeralNamespace { expected_ref, blocking_refs } => {
            repo_path
            + ": "@
            + decimal_text(blocking_refs.len())
            + " refs share workweave namespace `"@
            + expected_ref
            + "` ("@
            + quoted_list(blocking_refs)
            + "), and git cannot create the ref `"@
            + expected_ref
            + "` while any ref exists under `"@
            + expected_ref
            + "/`. The branch-model migration skips this pair rather than recording an \
               ownership receipt for a rename that cannot happen, so `rwv doctor --fix` will \
               not touch it. Which of those refs is this workweave's branch, and where the \
               others belong, is not rwv's call to make — leave at most one ref under `"@
            + expected_ref
            + "/`, then re-run `rwv doctor --fix` to migrate it"@
        },
        BranchDisciplineKindView::BlockedDetachedNamespace { expected_ref, at_sha, blocking_refs } => {
            repo_path
            + ": workweave checkout is detached at "@
            + at_sha
            + " while "@
            + decimal_text(blocking_refs.len())
            + " refs share its namespace `"@
            + expected_ref
            + "` ("@
            + quoted_list(blocking_refs)
            + "). git cannot create `"@
            + expected_ref
            + "` while any ref exists under `"@
            + expected_ref
            + "/`, so `--adopt-detached-checkouts` cannot run. Leave at most one ref under `"@
            + expected_ref
            + "/`, then re-run `rwv doctor` to get the ordinary detached-HEAD finding with a \
               remedy that will actually run"@
        },
        BranchDisciplineKindView::UnrecordedEphemeralBranch { branch } => {
            repo_path
            + ": branch `"@
            + branch
            + "` is this workweave's ephemeral ref but rwv holds no ownership receipt for \
               it. rwv deletes a branch only against a receipt it recorded, never on the \
               strength of the name, so this one is not rwv's to delete and `rwv workweave \
               delete` will leave it behind; `rwv doctor --fix` adopts it at its current tip"@
        },
        BranchDisciplineKindView::UnbornCheckout { branch } => {
            repo_path
            + ": workweave checkout is on branch `"@
            + branch
            + "`, which has no commits yet — there is no revision to record an ownership \
               receipt against, so the branch-model migration has nothing to adopt here. \
               Make an initial commit, then re-run `rwv doctor --fix`"@
        },
        BranchDisciplineKindView::CanonicalHoldsLiveWorkweaveRef { actual_branch, workweave_name } => {
            repo_path
            + ": canonical store is checked out on `"@
            + actual_branch
            + "`, a ref rwv recorded for workweave `"@
            + workweave_name
            + "` — which is still on disk. git forbids one branch being checked out twice in \
               the same store, so this directory was moved or copied (report-only; no rwv \
               --fix path — nothing here can tell which of the two checkouts is the real one)"@
        },
        BranchDisciplineKindView::CanonicalHoldsLeakedRef { actual_branch, project } => {
            repo_path
            + ": canonical store is checked out on `"@
            + actual_branch
            + "`, a ref rwv recorded for project `"@
            + project
            + "` whose workweave is gone — a leak. `--fix` cannot reclaim it while this \
               store's own HEAD is on it (a branch a worktree uses cannot be deleted); `git \
               switch <tracking-branch>` first, then re-run `rwv doctor --fix`"@
        },
        BranchDisciplineKindView::CanonicalDetached { at_sha, counterpart: Some(name), reattachable: true } => {
            repo_path
            + ": canonical store is in detached-HEAD state at "@
            + at_sha
            + "; its tracking counterpart `"@
            + name
            + "` exists and points at the same commit — `rwv doctor --fix \
               --reattach-checkouts` will reattach it, or `git switch "@
            + name
            + "` by hand"@
        },
        BranchDisciplineKindView::CanonicalDetached { at_sha, counterpart: Some(name), reattachable: false } => {
            repo_path
            + ": canonical store is in detached-HEAD state at "@
            + at_sha
            + "; its tracking counterpart `"@
            + name
            + "` does not exist or points elsewhere, so reattaching would move your working \
               state onto a different commit — reconcile `"@
            + name
            + "` with "@
            + at_sha
            + " yourself, then `git switch "@
            + name
            + "` (report-only; --reattach-checkouts will not fire here)"@
        },
        BranchDisciplineKindView::CanonicalDetached { at_sha, counterpart: None, .. } => {
            repo_path
            + ": canonical store is in detached-HEAD state at "@
            + at_sha
            + "; no tracking declaration resolves for this repo, so rwv cannot name a branch \
               to reattach to (report-only; `git switch <branch>` by hand)"@
        },
        BranchDisciplineKindView::StaleEphemeralBranchSafe { branch, project } => {
            repo_path
            + ": leaked ephemeral branch `"@
            + branch
            + "`, recorded by project `"@
            + project
            + "` for a workweave that is gone (safe class — rwv holds an ownership receipt \
               for it and its tip is reachable from the store's tip; `rwv doctor --fix` will \
               delete it)"@
        },
        BranchDisciplineKindView::StaleEphemeralBranchUnowned { branch } => {
            repo_path
            + ": branch `"@
            + branch
            + "` carries the pre-flat `<project>--<workweave>/<segment>` shape and no \
               workweave on disk claims that namespace, but rwv holds no ownership receipt \
               for it. Ownership is by record, never by name shape, so this branch is not \
               rwv's to delete — and rwv does not guess which workweave a stray ref belonged \
               to. `--fix` will never touch it; remove it by hand if it is yours to remove"@
        },
        BranchDisciplineKindView::StaleEphemeralBranchLive { branch, project, tip_sha } => {
            repo_path
            + ": leaked ephemeral branch `"@
            + branch
            + "`, recorded by project `"@
            + project
            + "` for a workweave that is gone, carries unique commits at tip `"@
            + tip_sha
            + "` (live class — `--fix` will not touch this; recover or delete by hand)"@
        },
    }
}

/// Words a checkout or branch that breaks the branch-ownership rules.
fn branch_message(repo_path: &String, kind: &BranchDisciplineKind) -> (text: String)
    ensures
        text@ == branch_text(repo_path@, kind.deep_view()),
{
    match kind {
        BranchDisciplineKind::SharedBranch { actual_branch, expected_ref, recorded_ref } => {
            repo_path.clone()
                .concat(": workweave checkout is on shared-branch `")
                .concat(actual_branch)
                .concat("` (expected its ephemeral branch `")
                .concat(expected_ref)
                .concat(
                    "`); manual `git switch` inside a workweave breaks the I3 \
                     branch-ownership invariant — ",
                )
                .concat(&reattach_advice(recorded_ref, expected_ref))
                .concat(" (report-only; no rwv --fix path)")
        },
        BranchDisciplineKind::ForeignEphemeral { actual_branch, expected_ref, recorded_ref } => {
            repo_path.clone()
                .concat(": workweave checkout is on `")
                .concat(actual_branch)
                .concat(
                    "`, a ref rwv recorded for a different workweave (expected its ephemeral \
                     branch `",
                )
                .concat(expected_ref)
                .concat("`); ")
                .concat(&reattach_advice(recorded_ref, expected_ref))
                .concat(" (report-only; no rwv --fix path)")
        },
        BranchDisciplineKind::Detached { expected_ref, at_sha, legacy_branch: Some(legacy), .. } => {
            repo_path.clone()
                .concat(": workweave checkout is detached at ")
                .concat(at_sha)
                .concat(" while its pre-flat branch `")
                .concat(&legacy.branch)
                .concat("` sits at ")
                .concat(&legacy.tip_sha)
                .concat(" (")
                .concat(&legacy_relation(legacy))
                .concat("). Reattach to it (`git switch ")
                .concat(&legacy.branch)
                .concat("`) and re-run `rwv doctor --fix`, which renames it to `")
                .concat(expected_ref)
                .concat("`; or run `rwv doctor --fix --adopt-detached-checkouts` to mint `")
                .concat(expected_ref)
                .concat("` here at ")
                .concat(at_sha)
                .concat(" instead")
                .concat(&stranding(legacy))
        },
        BranchDisciplineKind::Detached { expected_ref, recorded_ref, at_sha, legacy_branch: None } => {
            repo_path.clone()
                .concat(": workweave checkout is in detached-HEAD state at ")
                .concat(at_sha)
                .concat(" (expected its ephemeral branch `")
                .concat(expected_ref)
                .concat("`); ")
                .concat(&reattach_advice(recorded_ref, expected_ref))
                .concat(" — or run `rwv doctor --fix --adopt-detached-checkouts` to mint `")
                .concat(expected_ref)
                .concat("` here at ")
                .concat(at_sha)
        },
        BranchDisciplineKind::UnmigratedEphemeralBranch { actual_branch, expected_ref } => {
            repo_path.clone()
                .concat(": workweave checkout is on `")
                .concat(actual_branch)
                .concat(
                    "`, the pre-flat `<project>--<workweave>/<segment>` shape rwv no longer \
                     mints; `rwv doctor --fix` records an ownership receipt for it and \
                     renames it to `",
                )
                .concat(expected_ref)
                .concat("` — a rename preserves the tip, so no commit moves")
        },
        BranchDisciplineKind::BlockedEphemeralNamespace { expected_ref, blocking_refs } => {
            repo_path.clone()
                .concat(": ")
                .concat(&decimal(blocking_refs.len()))
                .concat(" refs share workweave namespace `")
                .concat(expected_ref)
                .concat("` (")
                .concat(&quote_all(blocking_refs))
                .concat("), and git cannot create the ref `")
                .concat(expected_ref)
                .concat("` while any ref exists under `")
                .concat(expected_ref)
                .concat(
                    "/`. The branch-model migration skips this pair rather than recording an \
                     ownership receipt for a rename that cannot happen, so `rwv doctor \
                     --fix` will not touch it. Which of those refs is this workweave's \
                     branch, and where the others belong, is not rwv's call to make — leave \
                     at most one ref under `",
                )
                .concat(expected_ref)
                .concat("/`, then re-run `rwv doctor --fix` to migrate it")
        },
        BranchDisciplineKind::BlockedDetachedNamespace { expected_ref, at_sha, blocking_refs } => {
            repo_path.clone()
                .concat(": workweave checkout is detached at ")
                .concat(at_sha)
                .concat(" while ")
                .concat(&decimal(blocking_refs.len()))
                .concat(" refs share its namespace `")
                .concat(expected_ref)
                .concat("` (")
                .concat(&quote_all(blocking_refs))
                .concat("). git cannot create `")
                .concat(expected_ref)
                .concat("` while any ref exists under `")
                .concat(expected_ref)
                .concat(
                    "/`, so `--adopt-detached-checkouts` cannot run. Leave at most one ref \
                     under `",
                )
                .concat(expected_ref)
                .concat(
                    "/`, then re-run `rwv doctor` to get the ordinary detached-HEAD finding \
                     with a remedy that will actually run",
                )
        },
        BranchDisciplineKind::UnrecordedEphemeralBranch { branch } => {
            repo_path.clone()
                .concat(": branch `")
                .concat(branch)
                .concat(
                    "` is this workweave's ephemeral ref but rwv holds no ownership receipt \
                     for it. rwv deletes a branch only against a receipt it recorded, never \
                     on the strength of the name, so this one is not rwv's to delete and \
                     `rwv workweave delete` will leave it behind; `rwv doctor --fix` adopts \
                     it at its current tip",
                )
        },
        BranchDisciplineKind::UnbornCheckout { branch } => {
            repo_path.clone()
                .concat(": workweave checkout is on branch `")
                .concat(branch)
                .concat(
                    "`, which has no commits yet — there is no revision to record an \
                     ownership receipt against, so the branch-model migration has nothing to \
                     adopt here. Make an initial commit, then re-run `rwv doctor --fix`",
                )
        },
        BranchDisciplineKind::CanonicalHoldsLiveWorkweaveRef { actual_branch, workweave_name } => {
            repo_path.clone()
                .concat(": canonical store is checked out on `")
                .concat(actual_branch)
                .concat("`, a ref rwv recorded for workweave `")
                .concat(workweave_name)
                .concat(
                    "` — which is still on disk. git forbids one branch being checked out \
                     twice in the same store, so this directory was moved or copied \
                     (report-only; no rwv --fix path — nothing here can tell which of the \
                     two checkouts is the real one)",
                )
        },
        BranchDisciplineKind::CanonicalHoldsLeakedRef { actual_branch, project } => {
            repo_path.clone()
                .concat(": canonical store is checked out on `")
                .concat(actual_branch)
                .concat("`, a ref rwv recorded for project `")
                .concat(project)
                .concat(
                    "` whose workweave is gone — a leak. `--fix` cannot reclaim it while \
                     this store's own HEAD is on it (a branch a worktree uses cannot be \
                     deleted); `git switch <tracking-branch>` first, then re-run `rwv doctor \
                     --fix`",
                )
        },
        BranchDisciplineKind::CanonicalDetached { at_sha, counterpart: Some(name), reattachable: true } => {
            repo_path.clone()
                .concat(": canonical store is in detached-HEAD state at ")
                .concat(at_sha)
                .concat("; its tracking counterpart `")
                .concat(name)
                .concat(
                    "` exists and points at the same commit — `rwv doctor --fix \
                     --reattach-checkouts` will reattach it, or `git switch ",
                )
                .concat(name)
                .concat("` by hand")
        },
        BranchDisciplineKind::CanonicalDetached { at_sha, counterpart: Some(name), reattachable: false } => {
            repo_path.clone()
                .concat(": canonical store is in detached-HEAD state at ")
                .concat(at_sha)
                .concat("; its tracking counterpart `")
                .concat(name)
                .concat(
                    "` does not exist or points elsewhere, so reattaching would move your \
                     working state onto a different commit — reconcile `",
                )
                .concat(name)
                .concat("` with ")
                .concat(at_sha)
                .concat(" yourself, then `git switch ")
                .concat(name)
                .concat("` (report-only; --reattach-checkouts will not fire here)")
        },
        BranchDisciplineKind::CanonicalDetached { at_sha, counterpart: None, .. } => {
            repo_path.clone()
                .concat(": canonical store is in detached-HEAD state at ")
                .concat(at_sha)
                .concat(
                    "; no tracking declaration resolves for this repo, so rwv cannot name a \
                     branch to reattach to (report-only; `git switch <branch>` by hand)",
                )
        },
        BranchDisciplineKind::StaleEphemeralBranchSafe { branch, project } => {
            repo_path.clone()
                .concat(": leaked ephemeral branch `")
                .concat(branch)
                .concat("`, recorded by project `")
                .concat(project)
                .concat(
                    "` for a workweave that is gone (safe class — rwv holds an ownership \
                     receipt for it and its tip is reachable from the store's tip; `rwv \
                     doctor --fix` will delete it)",
                )
        },
        BranchDisciplineKind::StaleEphemeralBranchUnowned { branch } => {
            repo_path.clone()
                .concat(": branch `")
                .concat(branch)
                .concat(
                    "` carries the pre-flat `<project>--<workweave>/<segment>` shape and no \
                     workweave on disk claims that namespace, but rwv holds no ownership \
                     receipt for it. Ownership is by record, never by name shape, so this \
                     branch is not rwv's to delete — and rwv does not guess which workweave \
                     a stray ref belonged to. `--fix` will never touch it; remove it by hand \
                     if it is yours to remove",
                )
        },
        BranchDisciplineKind::StaleEphemeralBranchLive { branch, project, tip_sha } => {
            repo_path.clone()
                .concat(": leaked ephemeral branch `")
                .concat(branch)
                .concat("`, recorded by project `")
                .concat(project)
                .concat("` for a workweave that is gone, carries unique commits at tip `")
                .concat(tip_sha)
                .concat("` (live class — `--fix` will not touch this; recover or delete by hand)")
        },
    }
}

/// Why a lease is dead.
pub open spec fn lease_cause_text(
    op_id: Seq<char>,
    recorded_owner: Seq<char>,
    kind: DeadOpLeaseKindView,
) -> Seq<char> {
    match kind {
        DeadOpLeaseKindView::OwnerRecordAbsent => {
            "recorded owner workspace "@ + recorded_owner + " has no `.rwv-op` file"@
        },
        DeadOpLeaseKindView::OwnerOpIdMismatch { owner_op_id } => {
            "recorded owner workspace "@ + recorded_owner + " holds a different op (owner op_id="@
                + owner_op_id + ", lease op_id="@ + op_id + ")"@
        },
    }
}

/// Words why a lease is dead.
fn lease_cause(op_id: &String, recorded_owner: &String, kind: &DeadOpLeaseKind) -> (text: String)
    ensures
        text@ == lease_cause_text(op_id@, recorded_owner@, kind.deep_view()),
{
    match kind {
        DeadOpLeaseKind::OwnerRecordAbsent => {
            "recorded owner workspace ".to_owned()
                .concat(recorded_owner)
                .concat(" has no `.rwv-op` file")
        },
        DeadOpLeaseKind::OwnerOpIdMismatch { owner_op_id } => {
            "recorded owner workspace ".to_owned()
                .concat(recorded_owner)
                .concat(" holds a different op (owner op_id=")
                .concat(owner_op_id)
                .concat(", lease op_id=")
                .concat(op_id)
                .concat(")")
        },
    }
}

/// How old a lease is, where that is known.
pub open spec fn lease_age_text(stamp: Option<LeaseStampView>) -> Seq<char> {
    match stamp {
        Some(s) => " (created_at="@ + s.created_at + ", age="@ + s.elapsed + ")"@,
        None => ""@,
    }
}

/// Words how old a lease is.
fn lease_age(stamp: &Option<LeaseStamp>) -> (text: String)
    ensures
        text@ == lease_age_text(stamp.deep_view()),
{
    match stamp {
        Some(s) => {
            " (created_at=".to_owned()
                .concat(&s.created_at)
                .concat(", age=")
                .concat(&s.elapsed)
                .concat(")")
        },
        None => "".to_owned(),
    }
}

/// One line for each member's requirement.
pub open spec fn skew_list_text(occurrences: Seq<CargoSkewOccurrenceView>) -> Seq<char>
    decreases occurrences.len(),
{
    if occurrences.len() == 0 {
        ""@
    } else {
        skew_list_text(occurrences.drop_last()) + "\n  - "@ + occurrences.last().member + ": "@
            + occurrences.last().requirement
    }
}

/// Lists each member's requirement.
fn skew_list(occurrences: &Vec<CargoSkewOccurrence>) -> (text: String)
    ensures
        text@ == skew_list_text(occurrences.deep_view()),
{
    let mut text: String = "".to_owned();
    let mut i: usize = 0;
    while i < occurrences.len()
        invariant
            0 <= i <= occurrences.len(),
            text@ == skew_list_text(occurrences.deep_view().take(i as int)),
        decreases occurrences.len() - i,
    {
        proof {
            let listed = occurrences.deep_view().take(i as int + 1);
            assert(listed.drop_last() =~= occurrences.deep_view().take(i as int));
            assert(listed.last() == occurrences@[i as int].deep_view());
        }
        text = text.concat("\n  - ").concat(&occurrences[i].member).concat(": ").concat(
            &occurrences[i].requirement,
        );
        i = i + 1;
    }
    proof {
        assert(occurrences.deep_view().take(i as int) =~= occurrences.deep_view());
    }
    text
}

/// The wording of a finding.
pub open spec fn finding_text(v: CheckViolationView) -> Seq<char> {
    match v {
        CheckViolationView::ConfusableSiblings { warning, .. } => warning,
        CheckViolationView::OrphanedClone { path } => {
            "orphaned clone: "@
            + path
            + " — not listed in any project's rwv.toml; run `rwv add <url>` to register it, \
               or remove the directory manually"@
        },
        CheckViolationView::DanglingReference { project, repo } => {
            "dangling reference in "@
            + project
            + ": "@
            + repo
            + " — listed in rwv.toml but not cloned on disk; run `rwv fetch` from the \
               workspace to re-materialize missing manifest members, then re-run `rwv \
               doctor` to verify"@
        },
        CheckViolationView::MissingRole { project, repo } => {
            "missing role in "@
            + project
            + ": "@
            + repo
            + " — add a `role: owned|dependency|reference` field to the rwv.toml entry for \
               this repo"@
        },
        CheckViolationView::StaleLock { project, repo, locked, actual } => {
            "stale lock in "@
            + project
            + ": "@
            + repo
            + " locked="@
            + locked
            + " actual="@
            + actual
            + "; run `rwv lock` to re-snapshot current HEAD SHAs"@
        },
        CheckViolationView::IncompleteLock { project, repo } => {
            "incomplete lock in "@
            + project
            + ": "@
            + repo
            + " has no rwv.lock entry; run `rwv lock` to add it"@
        },
        CheckViolationView::WorkweaveDrift { workweave, kind: DriftKind::Missing, repo } => {
            "workweave drift in "@
            + workweave
            + ": missing worktree "@
            + repo
            + "; run `rwv workweave <project> create --replace-existing` to recreate, or \
               remove the repo from rwv.toml"@
        },
        CheckViolationView::WorkweaveDrift { workweave, kind: DriftKind::Extra, repo } => {
            "workweave drift in "@
            + workweave
            + ": extra worktree "@
            + repo
            + "; this worktree has no manifest entry — run `rwv add` to register it or \
               remove it manually"@
        },
        CheckViolationView::IndexDrift { workweave, repo, kind: IndexDriftKind::SafeToFix } => {
            location_text(workweave, repo) + ": index stale (run `rwv doctor --fix` to reset)"@
        },
        CheckViolationView::IndexDrift { workweave, repo, kind: IndexDriftKind::LiveStaged } => {
            location_text(workweave, repo)
            + ": index has live staged changes (commit or stash first; not auto-fixed)"@
        },
        CheckViolationView::MissingReplayExclusion { project, sub_kind: ReplayExclusionKind::Absent } => {
            project
            + ": project repo missing `rwv.lock merge=rwv-ours` in .gitattributes (run `rwv \
               doctor --fix` to add)"@
        },
        CheckViolationView::MissingReplayExclusion { project, sub_kind: ReplayExclusionKind::LegacySpelling } => {
            project
            + ": project repo has legacy `rwv.lock merge=ours` in .gitattributes; the driver \
               was renamed to close a global-config collision hazard (run `rwv doctor --fix` \
               to migrate to `rwv.lock merge=rwv-ours` and commit)"@
        },
        CheckViolationView::MissingReplayExclusion { project, sub_kind: ReplayExclusionKind::LegacyAlongsideCurrent } => {
            project
            + ": project repo has both `rwv.lock merge=rwv-ours` and legacy `rwv.lock \
               merge=ours` in .gitattributes; git picks between them by reading order, and \
               the legacy name binds to any `merge.ours.driver` a global git config defines \
               (run `rwv doctor --fix` to drop the legacy line and commit)"@
        },
        CheckViolationView::ReplayExclusionUnreadable { project, error } => {
            project + ": failed to read .gitattributes for replay-exclusion check: "@ + error
        },
        CheckViolationView::MissingMergeDriverConfig { project, config_key } => {
            project
            + ": project repo missing `"@
            + config_key
            + "` config (defines the `rwv-ours` merge driver used by bare `git rebase \
               --continue`; run `rwv doctor --fix` to plant)"@
        },
        CheckViolationView::MergeDriverConfigUnreadable { project, config_key, error } => {
            project + ": failed to read `"@ + config_key + "` config: "@ + error
        },
        CheckViolationView::HeadUnreadable { repo, error } => {
            repo + ": HEAD unreadable ("@ + error + ")"@
        },
        CheckViolationView::ProjectsDirUnreadable { path, error } => {
            path
            + ": projects directory unreadable ("@
            + error
            + "); every project under it is invisible to this scan"@
        },
        CheckViolationView::ProjectlessDir { dir } => {
            dir
            + ": directory under projects/ holds no rwv.toml at any depth, so it is not a \
               project and rwv lists nothing for it; write a rwv.toml there \
               (`[repositories]` alone is enough) or remove the directory"@
        },
        CheckViolationView::UnnameableProject { dir, derived, error } => {
            dir
            + ": holds a rwv.toml but `"@
            + derived
            + "` is not a usable project name ("@
            + error
            + "), so no verb can address it; rename the directory to a name rwv accepts"@
        },
        CheckViolationView::UnresolvableLockEntry { project, repo } => {
            project
            + ": lock references unknown revision for "@
            + repo
            + "; run `rwv lock` or fetch"@
        },
        CheckViolationView::LegacyManifestFormat { project, refusal, .. } => {
            project + ": "@ + refusal
        },
        CheckViolationView::LegacyWorkweaveMarker { marker_path, .. } => {
            marker_path
            + " is a legacy (YAML) workweave marker; run `rwv doctor --fix` to migrate"@
        },
        CheckViolationView::LegacyWorkweaveIndex { index_path, .. } => {
            index_path
            + " is a legacy workweave index written before ref-ownership receipts existed \
               (no `receipts` field), so rwv can neither record nor destroy an ephemeral ref \
               for this project; run `rwv doctor --fix` to add the field — it is the \
               precondition for every other arm of the migration"@
        },
        CheckViolationView::UnreadableOwnedState { project, state_path, error } => {
            state_path
            + ": rwv's record of the generations it accepted does not parse ("@
            + error
            + "); until it is rebuilt, the managed-file drift and derived-state staleness \
               checks report nothing for project `"@
            + project
            + "` — including for files that had already drifted. Run `rwv materialize` to \
               re-derive its generated files and record them afresh"@
        },
        CheckViolationView::UnreadableWorkweaveIndex { project, index_path, error } => {
            index_path
            + ": workweave index does not parse ("@
            + error
            + "); the recorded workweaves and ownership receipts for project `"@
            + project
            + "` are unevaluated, and every `rwv doctor --fix` arm that writes this file \
               fails until it parses — repair or delete the file, then re-run `rwv doctor \
               --fix` to re-adopt the workweaves on disk"@
        },
        CheckViolationView::UnparseableProject { project, message, .. } => {
            project + ": "@ + message
        },
        CheckViolationView::WorkingTreeDrift { workweave, repo, kind: WorkingTreeDriftKind::SafeToFix } => {
            location_text(workweave, repo)
            + ": working tree stale (run `rwv doctor --fix` to restore)"@
        },
        CheckViolationView::WorkingTreeDrift { workweave, repo, kind: WorkingTreeDriftKind::LiveEdits } => {
            location_text(workweave, repo)
            + ": working tree has live edits (commit or stash first; not auto-fixed)"@
        },
        CheckViolationView::DanglingActiveProject { project, missing_dir } => {
            "active project `"@
            + project
            + "` is set in `.rwv-active` but `"@
            + missing_dir
            + "` does not exist; run `rwv activate <existing-project>` or remove `.rwv-active`"@
        },
        CheckViolationView::WeaveRootIdentityConflict { root, pointer_project, sub_kind } => identity_text(root, pointer_project, sub_kind),
        CheckViolationView::WorkweaveTreeIntegrity { workweave_dir, sub_kind } => tree_text(workweave_dir, sub_kind),
        CheckViolationView::Provenance { project, repo, sub_kind } => provenance_text(project, repo, sub_kind),
        CheckViolationView::CloneTopology { workspace_path, repo, sub_kind } => topology_text(workspace_path, repo, sub_kind),
        CheckViolationView::BranchDiscipline { repo_path, sub_kind } => branch_text(repo_path, sub_kind),
        CheckViolationView::StaleWorktreeRegistration { workweave, repo, missing_path } => {
            location_text(workweave, repo)
            + ": stale-worktree-registration: missing path "@
            + missing_path
            + " (run `rwv doctor --fix` to prune)"@
        },
        CheckViolationView::DanglingRefReceipt { project, store_path, ref_name } => {
            store_path
            + ": project `"@
            + project
            + "` holds an ownership receipt for `"@
            + ref_name
            + "` but no such ref is there — the benign residue of a crash between the \
               receipt write and the ref creation. rwv writes the receipt first on purpose, \
               so a crash leaves a receipt with no ref rather than a ref rwv could never \
               destroy. It authorizes nothing; run `rwv doctor --fix` to retract it"@
        },
        CheckViolationView::PreFlatRefReceipt { project, store_path, ref_name } => {
            store_path
            + ": project `"@
            + project
            + "` holds an ownership receipt for `"@
            + ref_name
            + "`, whose name carries a `/` segment — no workweave on disk mints that name, \
               so rwv cannot have created the ref under the flat scheme. Left recorded, the \
               canonical-store scan reads the branch as a leak rwv owns and may delete. Run \
               `rwv doctor --fix` to retract the receipt: that drops the record only — the \
               branch is not touched, and afterwards it is unowned, which `--fix` never \
               deletes"@
        },
        CheckViolationView::StaleOpState { workspace_dir, verb, started_at } => {
            workspace_dir
            + "/.rwv-op: stale-op-state present (started_at="@
            + started_at
            + "); resume with `"@
            + verb.resume_command
            + "` or roll back with `rwv abort`. Never auto-fixed — another terminal may be \
               mid-conflict-resolution."@
        },
        CheckViolationView::DeadOpLease { workspace_dir, op_id, recorded_owner, sub_kind, created_at } => {
            workspace_dir
            + "/.rwv-op-lease: dead-op-lease op_id="@
            + op_id
            + lease_age_text(created_at)
            + " — "@
            + lease_cause_text(op_id, recorded_owner, sub_kind)
            + "; safe to auto-fix with `rwv doctor --fix` (removes the lease file)."@
        },
        CheckViolationView::OrphanedSavepoint { workweave, repo, op_id, sub_kind: OrphanedSavepointKind::Redundant } => {
            location_text(workweave, repo)
            + ": orphaned-savepoint (redundant — tip reachable from HEAD; run `rwv doctor \
               --fix` to drop) op_id="@
            + op_id
        },
        CheckViolationView::OrphanedSavepoint { workweave, repo, op_id, sub_kind: OrphanedSavepointKind::Live } => {
            location_text(workweave, repo)
            + ": orphaned-savepoint (last pointer to unreachable commits; keep — recover or \
               delete by hand with `git branch <name> <sha>`) op_id="@
            + op_id
        },
        CheckViolationView::CargoVersionSkew { crate_name, occurrences } => {
            "cargo version skew: `"@
            + crate_name
            + "` required at differing versions across members (report-only — rwv cannot \
               mandate versions in sovereign repos)"@
            + skew_list_text(occurrences)
        },
        CheckViolationView::CargoPatchShadowing { weave_config, member_config, registry, crate_name } => {
            "cargo patch shadowing: `[patch."@
            + registry
            + "]."@
            + crate_name
            + "` in "@
            + member_config
            + " silently defeats the weave-level entry in "@
            + weave_config
            + " (cargo merges .cargo/config.toml closest-wins per key, with no warning when \
               a patch is inert)"@
        },
        CheckViolationView::MissingCanonicalClone { workweave, repo, canonical_path } => {
            workweave
            + "/"@
            + repo
            + ": canonical clone for `"@
            + repo
            + "` is absent (expected at "@
            + canonical_path
            + ") — this worktree cannot be classified; run `rwv fetch` from the workspace \
               root to re-materialize it, then re-run `rwv doctor` to verify"@
        },
        CheckViolationView::UninitializedSubmodule { workweave, repo, empty_paths } => {
            workweave
            + "/"@
            + repo
            + ": submodules not initialized — "@
            + decimal_text(empty_paths.len())
            + " submodule path(s) are empty on disk: "@
            + join_text(empty_paths, ", "@)
            + "; fix: `git -C <worktree>/"@
            + repo
            + " submodule update --init --recursive`"@
        },
        CheckViolationView::PhantomMergeDriver { repo, pattern, driver } => {
            repo
            + ": .gitattributes assigns merge driver `"@
            + driver
            + "` to `"@
            + pattern
            + "`, but rwv defines no driver by that name — the `rwv-` prefix is rwv's, so \
               nothing else defines it either and the line silently does nothing (git falls \
               back to a textual merge). Use `merge=rwv-ours` for a derived path whose \
               target-side copy should win, or drop the line"@
        },
    }
}

/// Words a finding for the text report.
pub fn finding_message(v: &CheckViolation) -> (text: String)
    ensures
        text@ == finding_text(v.deep_view()),
{
    match v {
        CheckViolation::ConfusableSiblings { warning, .. } => warning.clone(),
        CheckViolation::OrphanedClone { path } => {
            "orphaned clone: ".to_owned()
                .concat(path)
                .concat(
                    " — not listed in any project's rwv.toml; run `rwv add <url>` to \
                     register it, or remove the directory manually",
                )
        },
        CheckViolation::DanglingReference { project, repo } => {
            "dangling reference in ".to_owned()
                .concat(project)
                .concat(": ")
                .concat(repo)
                .concat(
                    " — listed in rwv.toml but not cloned on disk; run `rwv fetch` from the \
                     workspace to re-materialize missing manifest members, then re-run `rwv \
                     doctor` to verify",
                )
        },
        CheckViolation::MissingRole { project, repo } => {
            "missing role in ".to_owned()
                .concat(project)
                .concat(": ")
                .concat(repo)
                .concat(
                    " — add a `role: owned|dependency|reference` field to the rwv.toml entry \
                     for this repo",
                )
        },
        CheckViolation::StaleLock { project, repo, locked, actual } => {
            "stale lock in ".to_owned()
                .concat(project)
                .concat(": ")
                .concat(repo)
                .concat(" locked=")
                .concat(locked)
                .concat(" actual=")
                .concat(actual)
                .concat("; run `rwv lock` to re-snapshot current HEAD SHAs")
        },
        CheckViolation::IncompleteLock { project, repo } => {
            "incomplete lock in ".to_owned()
                .concat(project)
                .concat(": ")
                .concat(repo)
                .concat(" has no rwv.lock entry; run `rwv lock` to add it")
        },
        CheckViolation::WorkweaveDrift { workweave, kind: DriftKind::Missing, repo } => {
            "workweave drift in ".to_owned()
                .concat(workweave)
                .concat(": missing worktree ")
                .concat(repo)
                .concat(
                    "; run `rwv workweave <project> create --replace-existing` to recreate, \
                     or remove the repo from rwv.toml",
                )
        },
        CheckViolation::WorkweaveDrift { workweave, kind: DriftKind::Extra, repo } => {
            "workweave drift in ".to_owned()
                .concat(workweave)
                .concat(": extra worktree ")
                .concat(repo)
                .concat(
                    "; this worktree has no manifest entry — run `rwv add` to register it or \
                     remove it manually",
                )
        },
        CheckViolation::IndexDrift { workweave, repo, kind: IndexDriftKind::SafeToFix } => {
            location(workweave, repo).concat(": index stale (run `rwv doctor --fix` to reset)")
        },
        CheckViolation::IndexDrift { workweave, repo, kind: IndexDriftKind::LiveStaged } => {
            location(workweave, repo)
                .concat(": index has live staged changes (commit or stash first; not auto-fixed)")
        },
        CheckViolation::MissingReplayExclusion { project, sub_kind: ReplayExclusionKind::Absent } => {
            project.clone()
                .concat(
                    ": project repo missing `rwv.lock merge=rwv-ours` in .gitattributes (run \
                     `rwv doctor --fix` to add)",
                )
        },
        CheckViolation::MissingReplayExclusion { project, sub_kind: ReplayExclusionKind::LegacySpelling } => {
            project.clone()
                .concat(
                    ": project repo has legacy `rwv.lock merge=ours` in .gitattributes; the \
                     driver was renamed to close a global-config collision hazard (run `rwv \
                     doctor --fix` to migrate to `rwv.lock merge=rwv-ours` and commit)",
                )
        },
        CheckViolation::MissingReplayExclusion { project, sub_kind: ReplayExclusionKind::LegacyAlongsideCurrent } => {
            project.clone()
                .concat(
                    ": project repo has both `rwv.lock merge=rwv-ours` and legacy `rwv.lock \
                     merge=ours` in .gitattributes; git picks between them by reading order, \
                     and the legacy name binds to any `merge.ours.driver` a global git \
                     config defines (run `rwv doctor --fix` to drop the legacy line and \
                     commit)",
                )
        },
        CheckViolation::ReplayExclusionUnreadable { project, error } => {
            project.clone()
                .concat(": failed to read .gitattributes for replay-exclusion check: ")
                .concat(error)
        },
        CheckViolation::MissingMergeDriverConfig { project, config_key } => {
            project.clone()
                .concat(": project repo missing `")
                .concat(config_key)
                .concat(
                    "` config (defines the `rwv-ours` merge driver used by bare `git rebase \
                     --continue`; run `rwv doctor --fix` to plant)",
                )
        },
        CheckViolation::MergeDriverConfigUnreadable { project, config_key, error } => {
            project.clone()
                .concat(": failed to read `")
                .concat(config_key)
                .concat("` config: ")
                .concat(error)
        },
        CheckViolation::HeadUnreadable { repo, error } => {
            repo.clone().concat(": HEAD unreadable (").concat(error).concat(")")
        },
        CheckViolation::ProjectsDirUnreadable { path, error } => {
            path.clone()
                .concat(": projects directory unreadable (")
                .concat(error)
                .concat("); every project under it is invisible to this scan")
        },
        CheckViolation::ProjectlessDir { dir } => {
            dir.clone()
                .concat(
                    ": directory under projects/ holds no rwv.toml at any depth, so it is \
                     not a project and rwv lists nothing for it; write a rwv.toml there \
                     (`[repositories]` alone is enough) or remove the directory",
                )
        },
        CheckViolation::UnnameableProject { dir, derived, error } => {
            dir.clone()
                .concat(": holds a rwv.toml but `")
                .concat(derived)
                .concat("` is not a usable project name (")
                .concat(error)
                .concat("), so no verb can address it; rename the directory to a name rwv accepts")
        },
        CheckViolation::UnresolvableLockEntry { project, repo } => {
            project.clone()
                .concat(": lock references unknown revision for ")
                .concat(repo)
                .concat("; run `rwv lock` or fetch")
        },
        CheckViolation::LegacyManifestFormat { project, refusal, .. } => {
            project.clone().concat(": ").concat(refusal)
        },
        CheckViolation::LegacyWorkweaveMarker { marker_path, .. } => {
            marker_path.clone()
                .concat(" is a legacy (YAML) workweave marker; run `rwv doctor --fix` to migrate")
        },
        CheckViolation::LegacyWorkweaveIndex { index_path, .. } => {
            index_path.clone()
                .concat(
                    " is a legacy workweave index written before ref-ownership receipts \
                     existed (no `receipts` field), so rwv can neither record nor destroy an \
                     ephemeral ref for this project; run `rwv doctor --fix` to add the field \
                     — it is the precondition for every other arm of the migration",
                )
        },
        CheckViolation::UnreadableOwnedState { project, state_path, error } => {
            state_path.clone()
                .concat(": rwv's record of the generations it accepted does not parse (")
                .concat(error)
                .concat(
                    "); until it is rebuilt, the managed-file drift and derived-state \
                     staleness checks report nothing for project `",
                )
                .concat(project)
                .concat(
                    "` — including for files that had already drifted. Run `rwv materialize` \
                     to re-derive its generated files and record them afresh",
                )
        },
        CheckViolation::UnreadableWorkweaveIndex { project, index_path, error } => {
            index_path.clone()
                .concat(": workweave index does not parse (")
                .concat(error)
                .concat("); the recorded workweaves and ownership receipts for project `")
                .concat(project)
                .concat(
                    "` are unevaluated, and every `rwv doctor --fix` arm that writes this \
                     file fails until it parses — repair or delete the file, then re-run \
                     `rwv doctor --fix` to re-adopt the workweaves on disk",
                )
        },
        CheckViolation::UnparseableProject { project, message, .. } => {
            project.clone().concat(": ").concat(message)
        },
        CheckViolation::WorkingTreeDrift { workweave, repo, kind: WorkingTreeDriftKind::SafeToFix } => {
            location(workweave, repo)
                .concat(": working tree stale (run `rwv doctor --fix` to restore)")
        },
        CheckViolation::WorkingTreeDrift { workweave, repo, kind: WorkingTreeDriftKind::LiveEdits } => {
            location(workweave, repo)
                .concat(": working tree has live edits (commit or stash first; not auto-fixed)")
        },
        CheckViolation::DanglingActiveProject { project, missing_dir } => {
            "active project `".to_owned()
                .concat(project)
                .concat("` is set in `.rwv-active` but `")
                .concat(missing_dir)
                .concat(
                    "` does not exist; run `rwv activate <existing-project>` or remove \
                     `.rwv-active`",
                )
        },
        CheckViolation::WeaveRootIdentityConflict { root, pointer_project, sub_kind } => identity_message(root, pointer_project, sub_kind),
        CheckViolation::WorkweaveTreeIntegrity { workweave_dir, sub_kind } => tree_message(workweave_dir, sub_kind),
        CheckViolation::Provenance { project, repo, sub_kind } => provenance_message(project, repo, sub_kind),
        CheckViolation::CloneTopology { workspace_path, repo, sub_kind } => topology_message(workspace_path, repo, sub_kind),
        CheckViolation::BranchDiscipline { repo_path, sub_kind } => branch_message(repo_path, sub_kind),
        CheckViolation::StaleWorktreeRegistration { workweave, repo, missing_path } => {
            location(workweave, repo)
                .concat(": stale-worktree-registration: missing path ")
                .concat(missing_path)
                .concat(" (run `rwv doctor --fix` to prune)")
        },
        CheckViolation::DanglingRefReceipt { project, store_path, ref_name } => {
            store_path.clone()
                .concat(": project `")
                .concat(project)
                .concat("` holds an ownership receipt for `")
                .concat(ref_name)
                .concat(
                    "` but no such ref is there — the benign residue of a crash between the \
                     receipt write and the ref creation. rwv writes the receipt first on \
                     purpose, so a crash leaves a receipt with no ref rather than a ref rwv \
                     could never destroy. It authorizes nothing; run `rwv doctor --fix` to \
                     retract it",
                )
        },
        CheckViolation::PreFlatRefReceipt { project, store_path, ref_name } => {
            store_path.clone()
                .concat(": project `")
                .concat(project)
                .concat("` holds an ownership receipt for `")
                .concat(ref_name)
                .concat(
                    "`, whose name carries a `/` segment — no workweave on disk mints that \
                     name, so rwv cannot have created the ref under the flat scheme. Left \
                     recorded, the canonical-store scan reads the branch as a leak rwv owns \
                     and may delete. Run `rwv doctor --fix` to retract the receipt: that \
                     drops the record only — the branch is not touched, and afterwards it is \
                     unowned, which `--fix` never deletes",
                )
        },
        CheckViolation::StaleOpState { workspace_dir, verb, started_at } => {
            workspace_dir.clone()
                .concat("/.rwv-op: stale-op-state present (started_at=")
                .concat(started_at)
                .concat("); resume with `")
                .concat(&verb.resume_command)
                .concat(
                    "` or roll back with `rwv abort`. Never auto-fixed — another terminal \
                     may be mid-conflict-resolution.",
                )
        },
        CheckViolation::DeadOpLease { workspace_dir, op_id, recorded_owner, sub_kind, created_at } => {
            workspace_dir.clone()
                .concat("/.rwv-op-lease: dead-op-lease op_id=")
                .concat(op_id)
                .concat(&lease_age(created_at))
                .concat(" — ")
                .concat(&lease_cause(op_id, recorded_owner, sub_kind))
                .concat("; safe to auto-fix with `rwv doctor --fix` (removes the lease file).")
        },
        CheckViolation::OrphanedSavepoint { workweave, repo, op_id, sub_kind: OrphanedSavepointKind::Redundant } => {
            location(workweave, repo)
                .concat(
                    ": orphaned-savepoint (redundant — tip reachable from HEAD; run `rwv \
                     doctor --fix` to drop) op_id=",
                )
                .concat(op_id)
        },
        CheckViolation::OrphanedSavepoint { workweave, repo, op_id, sub_kind: OrphanedSavepointKind::Live } => {
            location(workweave, repo)
                .concat(
                    ": orphaned-savepoint (last pointer to unreachable commits; keep — \
                     recover or delete by hand with `git branch <name> <sha>`) op_id=",
                )
                .concat(op_id)
        },
        CheckViolation::CargoVersionSkew { crate_name, occurrences } => {
            "cargo version skew: `".to_owned()
                .concat(crate_name)
                .concat(
                    "` required at differing versions across members (report-only — rwv \
                     cannot mandate versions in sovereign repos)",
                )
                .concat(&skew_list(occurrences))
        },
        CheckViolation::CargoPatchShadowing { weave_config, member_config, registry, crate_name } => {
            "cargo patch shadowing: `[patch.".to_owned()
                .concat(registry)
                .concat("].")
                .concat(crate_name)
                .concat("` in ")
                .concat(member_config)
                .concat(" silently defeats the weave-level entry in ")
                .concat(weave_config)
                .concat(
                    " (cargo merges .cargo/config.toml closest-wins per key, with no warning \
                     when a patch is inert)",
                )
        },
        CheckViolation::MissingCanonicalClone { workweave, repo, canonical_path } => {
            workweave.clone()
                .concat("/")
                .concat(repo)
                .concat(": canonical clone for `")
                .concat(repo)
                .concat("` is absent (expected at ")
                .concat(canonical_path)
                .concat(
                    ") — this worktree cannot be classified; run `rwv fetch` from the \
                     workspace root to re-materialize it, then re-run `rwv doctor` to verify",
                )
        },
        CheckViolation::UninitializedSubmodule { workweave, repo, empty_paths } => {
            workweave.clone()
                .concat("/")
                .concat(repo)
                .concat(": submodules not initialized — ")
                .concat(&decimal(empty_paths.len()))
                .concat(" submodule path(s) are empty on disk: ")
                .concat(&join(empty_paths, ", "))
                .concat("; fix: `git -C <worktree>/")
                .concat(repo)
                .concat(" submodule update --init --recursive`")
        },
        CheckViolation::PhantomMergeDriver { repo, pattern, driver } => {
            repo.clone()
                .concat(": .gitattributes assigns merge driver `")
                .concat(driver)
                .concat("` to `")
                .concat(pattern)
                .concat(
                    "`, but rwv defines no driver by that name — the `rwv-` prefix is rwv's, \
                     so nothing else defines it either and the line silently does nothing \
                     (git falls back to a textual merge). Use `merge=rwv-ours` for a derived \
                     path whose target-side copy should win, or drop the line",
                )
        },
    }
}

/// The wording of a finding names what was found and where, in the order it is
/// read, and tells apart what can be put back from live work.
pub proof fn findings_name_their_subjects(v: CheckViolationView)
    ensures
        v matches CheckViolationView::OrphanedClone { path } ==> tells(
            finding_text(v),
            seq![path],
        ),
        v matches CheckViolationView::DanglingReference { project, repo } ==> tells(
            finding_text(v),
            seq![project].push(repo),
        ),
        v matches CheckViolationView::MissingRole { project, repo } ==> tells(
            finding_text(v),
            seq![project].push(repo),
        ),
        v matches CheckViolationView::StaleLock { project, repo, locked, actual } ==> tells(
            finding_text(v),
            seq![project].push(repo).push(locked).push(actual),
        ),
        v matches CheckViolationView::IncompleteLock { project, repo } ==> tells(
            finding_text(v),
            seq![project].push(repo),
        ),
        v matches CheckViolationView::WorkweaveDrift {
            workweave,
            kind: DriftKind::Missing,
            repo,
        } ==> tells(
            finding_text(v),
            seq!["workweave drift in "@].push(workweave).push(": missing worktree "@).push(repo),
        ),
        v matches CheckViolationView::WorkweaveDrift {
            workweave,
            kind: DriftKind::Extra,
            repo,
        } ==> tells(
            finding_text(v),
            seq!["workweave drift in "@].push(workweave).push(": extra worktree "@).push(repo),
        ),
        v matches CheckViolationView::IndexDrift {
            workweave,
            repo,
            kind: IndexDriftKind::SafeToFix,
        } ==> tells(
            finding_text(v),
            seq![location_text(workweave, repo)]
                .push(": index stale (run `rwv doctor --fix` to reset)"@),
        ),
        v matches CheckViolationView::IndexDrift {
            workweave,
            repo,
            kind: IndexDriftKind::LiveStaged,
        } ==> tells(
            finding_text(v),
            seq![location_text(workweave, repo)]
                .push(": index has live staged changes (commit or stash first; not auto-fixed)"@),
        ),
        v matches CheckViolationView::MissingReplayExclusion {
            project,
            sub_kind: ReplayExclusionKind::Absent,
        } ==> tells(
            finding_text(v),
            seq![project],
        ),
        v matches CheckViolationView::MissingReplayExclusion {
            project,
            sub_kind: ReplayExclusionKind::LegacySpelling,
        } ==> tells(
            finding_text(v),
            seq![project],
        ),
        v matches CheckViolationView::MissingReplayExclusion {
            project,
            sub_kind: ReplayExclusionKind::LegacyAlongsideCurrent,
        } ==> tells(
            finding_text(v),
            seq![project],
        ),
        v matches CheckViolationView::ReplayExclusionUnreadable { project, error } ==> tells(
            finding_text(v),
            seq![project].push(error),
        ),
        v matches CheckViolationView::MissingMergeDriverConfig { project, config_key } ==> tells(
            finding_text(v),
            seq![project].push(config_key),
        ),
        v matches CheckViolationView::MergeDriverConfigUnreadable {
            project,
            config_key,
            error,
        } ==> tells(
            finding_text(v),
            seq![project].push(config_key).push(error),
        ),
        v matches CheckViolationView::HeadUnreadable { repo, error } ==> tells(
            finding_text(v),
            seq![repo].push(error),
        ),
        v matches CheckViolationView::ProjectsDirUnreadable { path, error } ==> tells(
            finding_text(v),
            seq![path].push(error),
        ),
        v matches CheckViolationView::ProjectlessDir { dir } ==> tells(
            finding_text(v),
            seq![dir],
        ),
        v matches CheckViolationView::UnnameableProject { dir, derived, error } ==> tells(
            finding_text(v),
            seq![dir].push(derived).push(error),
        ),
        v matches CheckViolationView::UnresolvableLockEntry { project, repo } ==> tells(
            finding_text(v),
            seq![project].push(repo),
        ),
        v matches CheckViolationView::LegacyManifestFormat { project, refusal, .. } ==> tells(
            finding_text(v),
            seq![project].push(refusal),
        ),
        v matches CheckViolationView::LegacyWorkweaveMarker { marker_path, .. } ==> tells(
            finding_text(v),
            seq![marker_path],
        ),
        v matches CheckViolationView::LegacyWorkweaveIndex { index_path, .. } ==> tells(
            finding_text(v),
            seq![index_path],
        ),
{
    broadcast use telling;
}

/// So does the wording of the other findings.
pub proof fn later_findings_name_their_subjects(v: CheckViolationView)
    ensures
        v matches CheckViolationView::UnreadableOwnedState { project, state_path, error } ==> tells(
            finding_text(v),
            seq![state_path].push(error).push(project),
        ),
        v matches CheckViolationView::UnreadableWorkweaveIndex {
            project,
            index_path,
            error,
        } ==> tells(
            finding_text(v),
            seq![index_path].push(error).push(project),
        ),
        v matches CheckViolationView::UnparseableProject { project, message, .. } ==> tells(
            finding_text(v),
            seq![project].push(message),
        ),
        v matches CheckViolationView::WorkingTreeDrift {
            workweave,
            repo,
            kind: WorkingTreeDriftKind::SafeToFix,
        } ==> tells(
            finding_text(v),
            seq![location_text(workweave, repo)]
                .push(": working tree stale (run `rwv doctor --fix` to restore)"@),
        ),
        v matches CheckViolationView::WorkingTreeDrift {
            workweave,
            repo,
            kind: WorkingTreeDriftKind::LiveEdits,
        } ==> tells(
            finding_text(v),
            seq![location_text(workweave, repo)]
                .push(": working tree has live edits (commit or stash first; not auto-fixed)"@),
        ),
        v matches CheckViolationView::DanglingActiveProject { project, missing_dir } ==> tells(
            finding_text(v),
            seq![project].push(missing_dir),
        ),
        v matches CheckViolationView::StaleWorktreeRegistration {
            workweave,
            repo,
            missing_path,
        } ==> tells(
            finding_text(v),
            seq![location_text(workweave, repo)].push(missing_path),
        ),
        v matches CheckViolationView::DanglingRefReceipt {
            project,
            store_path,
            ref_name,
        } ==> tells(
            finding_text(v),
            seq![store_path].push(project).push(ref_name),
        ),
        v matches CheckViolationView::PreFlatRefReceipt { project, store_path, ref_name } ==> tells(
            finding_text(v),
            seq![store_path].push(project).push(ref_name),
        ),
        v matches CheckViolationView::StaleOpState { workspace_dir, verb, started_at } ==> tells(
            finding_text(v),
            seq![workspace_dir].push(started_at).push(verb.resume_command),
        ),
        v matches CheckViolationView::DeadOpLease {
            workspace_dir,
            op_id,
            recorded_owner,
            sub_kind,
            created_at,
        } ==> tells(
            finding_text(v),
            seq![workspace_dir]
                .push(op_id)
                .push(lease_age_text(created_at))
                .push(lease_cause_text(op_id, recorded_owner, sub_kind)),
        ),
        v matches CheckViolationView::OrphanedSavepoint {
            workweave,
            repo,
            op_id,
            sub_kind: OrphanedSavepointKind::Redundant,
        } ==> tells(
            finding_text(v),
            seq![location_text(workweave, repo)].push(op_id),
        ),
        v matches CheckViolationView::OrphanedSavepoint {
            workweave,
            repo,
            op_id,
            sub_kind: OrphanedSavepointKind::Live,
        } ==> tells(
            finding_text(v),
            seq![location_text(workweave, repo)].push(op_id),
        ),
        v matches CheckViolationView::CargoVersionSkew { crate_name, occurrences } ==> tells(
            finding_text(v),
            seq![crate_name].push(skew_list_text(occurrences)),
        ),
        v matches CheckViolationView::CargoPatchShadowing {
            weave_config,
            member_config,
            registry,
            crate_name,
        } ==> tells(
            finding_text(v),
            seq![registry].push(crate_name).push(member_config).push(weave_config),
        ),
        v matches CheckViolationView::MissingCanonicalClone {
            workweave,
            repo,
            canonical_path,
        } ==> tells(
            finding_text(v),
            seq![workweave].push(repo).push(canonical_path),
        ),
        v matches CheckViolationView::UninitializedSubmodule {
            workweave,
            repo,
            empty_paths,
        } ==> tells(
            finding_text(v),
            seq![workweave]
                .push(repo)
                .push(decimal_text(empty_paths.len()))
                .push(join_text(empty_paths, ", "@)),
        ),
        v matches CheckViolationView::PhantomMergeDriver { repo, pattern, driver } ==> tells(
            finding_text(v),
            seq![repo].push(driver).push(pattern),
        ),
{
    broadcast use telling;
}

/// A conflict of identity is told with its root, the pointer and what else is
/// known of it.
pub proof fn conflicts_name_their_root(
    root: Seq<char>,
    pointer_project: Option<Seq<char>>,
    kind: WeaveRootIdentityConflictKindView,
)
    ensures
        kind matches WeaveRootIdentityConflictKindView::RegisteredWorkweave {
            project,
            workweave_name,
        } ==> tells(
            identity_text(root, pointer_project, kind),
            seq![root].push(pointer_text(pointer_project)).push(workweave_name).push(project),
        ),
        kind matches WeaveRootIdentityConflictKindView::MarkerUnverifiable { defect, .. } ==> tells(
            identity_text(root, pointer_project, kind),
            seq![root].push(pointer_text(pointer_project)).push(defect.refusal),
        ),
        kind matches WeaveRootIdentityConflictKindView::Unwitnessed { detail } ==> tells(
            identity_text(root, pointer_project, kind),
            seq![root].push(pointer_text(pointer_project)).push(detail),
        ),
{
    broadcast use telling;
}

/// A defect of a workweave directory is told with the directory and the records
/// that disagree.
pub proof fn tree_defects_name_their_directory(dir: Seq<char>, kind: WorkweaveTreeIntegrityKindView)
    ensures
        kind matches WorkweaveTreeIntegrityKindView::DanglingParent { parent_path } ==> tells(
            tree_text(dir, kind),
            seq![dir].push(parent_path),
        ),
        kind matches WorkweaveTreeIntegrityKindView::ParentChainAnomaly { detail } ==> tells(
            tree_text(dir, kind),
            seq![dir].push(detail),
        ),
        kind matches WorkweaveTreeIntegrityKindView::UnregisteredDir ==> tells(
            tree_text(dir, kind),
            seq![dir],
        ),
        kind matches WorkweaveTreeIntegrityKindView::ForeignPrimary { marker_primary } ==> tells(
            tree_text(dir, kind),
            seq![dir].push(marker_primary),
        ),
        kind matches WorkweaveTreeIntegrityKindView::ForeignPrimaryOtherWorkspace {
            marker_primary,
        } ==> tells(
            tree_text(dir, kind),
            seq![dir].push(marker_primary),
        ),
        kind matches WorkweaveTreeIntegrityKindView::StaleRegistryEntry {
            project,
            workweave_name,
            recorded_path,
            reason,
        } ==> tells(
            tree_text(dir, kind),
            seq![workweave_name].push(project).push(recorded_path).push(reason),
        ),
        kind matches WorkweaveTreeIntegrityKindView::UnregisteredWorkweave {
            project,
            workweave_name,
        } ==> tells(
            tree_text(dir, kind),
            seq![dir].push(workweave_name).push(project),
        ),
        kind matches WorkweaveTreeIntegrityKindView::TrackedIndex { project, index_path } ==> tells(
            tree_text(dir, kind),
            seq![index_path].push(project),
        ),
        kind matches WorkweaveTreeIntegrityKindView::NestedWorkweaveDir {
            project,
            workweave_name,
            expected_dir_name,
        } ==> tells(
            tree_text(dir, kind),
            seq![dir].push(workweave_name).push(project).push(expected_dir_name),
        ),
        kind matches WorkweaveTreeIntegrityKindView::MisnamedDir {
            expected_dir_name: Some(expected),
            detail,
        } ==> tells(
            tree_text(dir, kind),
            seq![dir].push(detail).push(expected),
        ),
        kind matches WorkweaveTreeIntegrityKindView::MisnamedDir {
            expected_dir_name: None,
            detail,
        } ==> tells(
            tree_text(dir, kind),
            seq![dir].push(detail),
        ),
{
    broadcast use telling;
}

/// A doubtful clone is told with its project and repo, and with what the manifest
/// or the lock says against what was found.
pub proof fn provenance_names_both_sides(project: Seq<char>, repo: Seq<char>, kind: ProvenanceKindView)
    ensures
        kind matches ProvenanceKindView::OriginUrlMismatch {
            manifest_url,
            actual_url,
            is_reference_role,
        } ==> tells(
            provenance_text(project, repo, kind),
            seq![project]
                .push(repo)
                .push(manifest_url)
                .push(actual_url)
                .push(reference_note(is_reference_role)),
        ),
        kind matches ProvenanceKindView::LockShaUnreachable { sha } ==> tells(
            provenance_text(project, repo, kind),
            seq![project].push(repo).push(sha),
        ),
{
    broadcast use telling;
}

/// A misplaced store is told with its repo and the stores involved.
pub proof fn topology_names_the_stores(
    workspace_path: Seq<char>,
    repo: Seq<char>,
    kind: CloneTopologyKindView,
)
    ensures
        kind matches CloneTopologyKindView::StandaloneInWorkweave { store_path } ==> tells(
            topology_text(workspace_path, repo, kind),
            seq![repo].push(store_path),
        ),
        kind matches CloneTopologyKindView::DisconnectedWeaveClone {
            weave_store_path,
            other_store_path,
        } ==> tells(
            topology_text(workspace_path, repo, kind),
            seq![repo].push(weave_store_path).push(other_store_path),
        ),
        kind matches CloneTopologyKindView::WrongParentWorktree {
            expected_store_path,
            actual_store_path,
        } ==> tells(
            topology_text(workspace_path, repo, kind),
            seq![repo].push(workspace_path).push(actual_store_path).push(expected_store_path),
        ),
        kind matches CloneTopologyKindView::WeaveCloneIsWorktree { actual_store_path } ==> tells(
            topology_text(workspace_path, repo, kind),
            seq![repo].push(workspace_path).push(actual_store_path),
        ),
{
    broadcast use telling;
}

/// A branch out of place is told with its checkout, then what was found and what
/// belongs there.
pub proof fn branch_defects_name_their_checkout(repo_path: Seq<char>, kind: BranchDisciplineKindView)
    ensures
        kind matches BranchDisciplineKindView::SharedBranch {
            actual_branch,
            expected_ref,
            recorded_ref,
        } ==> tells(
            branch_text(repo_path, kind),
            seq![repo_path]
                .push(actual_branch)
                .push(expected_ref)
                .push(reattach_advice_text(recorded_ref, expected_ref)),
        ),
        kind matches BranchDisciplineKindView::ForeignEphemeral {
            actual_branch,
            expected_ref,
            recorded_ref,
        } ==> tells(
            branch_text(repo_path, kind),
            seq![repo_path]
                .push(actual_branch)
                .push(expected_ref)
                .push(reattach_advice_text(recorded_ref, expected_ref)),
        ),
        kind matches BranchDisciplineKindView::Detached {
            expected_ref,
            at_sha,
            legacy_branch: Some(legacy),
            ..
        } ==> tells(
            branch_text(repo_path, kind),
            seq![repo_path]
                .push(at_sha)
                .push(legacy.branch)
                .push(legacy.tip_sha)
                .push(legacy_relation_text(legacy))
                .push(expected_ref)
                .push(stranding_text(legacy)),
        ),
        kind matches BranchDisciplineKindView::Detached {
            expected_ref,
            recorded_ref,
            at_sha,
            legacy_branch: None,
        } ==> tells(
            branch_text(repo_path, kind),
            seq![repo_path]
                .push(at_sha)
                .push(expected_ref)
                .push(reattach_advice_text(recorded_ref, expected_ref)),
        ),
        kind matches BranchDisciplineKindView::UnmigratedEphemeralBranch {
            actual_branch,
            expected_ref,
        } ==> tells(
            branch_text(repo_path, kind),
            seq![repo_path].push(actual_branch).push(expected_ref),
        ),
        kind matches BranchDisciplineKindView::BlockedEphemeralNamespace {
            expected_ref,
            blocking_refs,
        } ==> tells(
            branch_text(repo_path, kind),
            seq![repo_path]
                .push(decimal_text(blocking_refs.len()))
                .push(expected_ref)
                .push(quoted_list(blocking_refs)),
        ),
        kind matches BranchDisciplineKindView::BlockedDetachedNamespace {
            expected_ref,
            at_sha,
            blocking_refs,
        } ==> tells(
            branch_text(repo_path, kind),
            seq![repo_path]
                .push(at_sha)
                .push(decimal_text(blocking_refs.len()))
                .push(expected_ref)
                .push(quoted_list(blocking_refs)),
        ),
        kind matches BranchDisciplineKindView::UnrecordedEphemeralBranch { branch } ==> tells(
            branch_text(repo_path, kind),
            seq![repo_path].push(branch),
        ),
        kind matches BranchDisciplineKindView::UnbornCheckout { branch } ==> tells(
            branch_text(repo_path, kind),
            seq![repo_path].push(branch),
        ),
        kind matches BranchDisciplineKindView::CanonicalHoldsLiveWorkweaveRef {
            actual_branch,
            workweave_name,
        } ==> tells(
            branch_text(repo_path, kind),
            seq![repo_path].push(actual_branch).push(workweave_name),
        ),
        kind matches BranchDisciplineKindView::CanonicalHoldsLeakedRef {
            actual_branch,
            project,
        } ==> tells(
            branch_text(repo_path, kind),
            seq![repo_path].push(actual_branch).push(project),
        ),
        kind matches BranchDisciplineKindView::CanonicalDetached {
            at_sha,
            counterpart: Some(name),
            reattachable: true,
        } ==> tells(
            branch_text(repo_path, kind),
            seq![repo_path].push(at_sha).push(name),
        ),
        kind matches BranchDisciplineKindView::CanonicalDetached {
            at_sha,
            counterpart: Some(name),
            reattachable: false,
        } ==> tells(
            branch_text(repo_path, kind),
            seq![repo_path].push(at_sha).push(name),
        ),
        kind matches BranchDisciplineKindView::CanonicalDetached {
            at_sha,
            counterpart: None,
            ..
        } ==> tells(
            branch_text(repo_path, kind),
            seq![repo_path].push(at_sha),
        ),
        kind matches BranchDisciplineKindView::StaleEphemeralBranchSafe {
            branch,
            project,
        } ==> tells(
            branch_text(repo_path, kind),
            seq![repo_path].push(branch).push(project),
        ),
        kind matches BranchDisciplineKindView::StaleEphemeralBranchUnowned { branch } ==> tells(
            branch_text(repo_path, kind),
            seq![repo_path].push(branch),
        ),
        kind matches BranchDisciplineKindView::StaleEphemeralBranchLive {
            branch,
            project,
            tip_sha,
        } ==> tells(
            branch_text(repo_path, kind),
            seq![repo_path].push(branch).push(project).push(tip_sha),
        ),
{
    broadcast use telling;
}

/// A dead lease is told with the owner it records, and with both operations where
/// they differ.
pub proof fn dead_leases_name_their_owner(
    op_id: Seq<char>,
    recorded_owner: Seq<char>,
    kind: DeadOpLeaseKindView,
)
    ensures
        kind matches DeadOpLeaseKindView::OwnerRecordAbsent ==> tells(
            lease_cause_text(op_id, recorded_owner, kind),
            seq![recorded_owner],
        ),
        kind matches DeadOpLeaseKindView::OwnerOpIdMismatch { owner_op_id } ==> tells(
            lease_cause_text(op_id, recorded_owner, kind),
            seq![recorded_owner].push(owner_op_id).push(op_id),
        ),
{
    broadcast use telling;
}

/// The advice for a checkout off its branch names the branch to return to: the
/// receipted one, or else the one to create.
pub proof fn advice_names_the_branch(recorded_ref: Option<Seq<char>>, expected_prefix: Seq<char>)
    ensures
        recorded_ref matches Some(name) ==> tells(
            reattach_advice_text(recorded_ref, expected_prefix),
            seq![name].push(name),
        ),
        recorded_ref is None ==> tells(
            reattach_advice_text(recorded_ref, expected_prefix),
            seq![expected_prefix],
        ),
{
    broadcast use telling;
}

/// Commits are said to be stranded exactly where they would be, and the branch
/// they are on is named.
pub proof fn stranded_commits_are_told(legacy: LegacyRefAtTipView)
    ensures
        legacy.strands_commits ==> tells(stranding_text(legacy), seq![legacy.branch]),
        !legacy.strands_commits ==> stranding_text(legacy).len() == 0,
        legacy.strands_commits <==> legacy_relation_text(legacy) == "a commit HEAD does not carry"@,
{
    broadcast use telling;
    reveal_strlit("");
    reveal_strlit("a commit HEAD does not carry");
    reveal_strlit("an ancestor of HEAD");
    assert("a commit HEAD does not carry"@.len() != "an ancestor of HEAD"@.len());
}

/// A lease's age is told where it is known.
pub proof fn known_ages_are_told(stamp: Option<LeaseStampView>)
    ensures
        stamp matches Some(s) ==> tells(
            lease_age_text(stamp),
            seq![s.created_at].push(s.elapsed),
        ),
        stamp is None ==> lease_age_text(stamp).len() == 0,
{
    broadcast use telling;
    reveal_strlit("");
}

/// Every member's requirement on a skewed crate is listed, the member first.
pub proof fn skews_are_listed(occurrences: Seq<CargoSkewOccurrenceView>, i: int)
    requires
        0 <= i < occurrences.len(),
    ensures
        tells(
            skew_list_text(occurrences),
            seq![occurrences[i].member].push(occurrences[i].requirement),
        ),
    decreases occurrences.len(),
{
    broadcast use telling;
    let init = occurrences.drop_last();
    if i < init.len() {
        skews_are_listed(init, i);
        assert(init[i] == occurrences[i]);
    }
}

/// A clone that is only referred to is told apart.
pub proof fn references_are_told_apart(is_reference_role: bool)
    ensures
        is_reference_role <==> reference_note(is_reference_role).len() > 0,
{
    reveal_strlit("");
    reveal_strlit(
        " (note: reference-role repos may intentionally use a different remote — verify before \
         re-pointing)",
    );
}

} // verus!
