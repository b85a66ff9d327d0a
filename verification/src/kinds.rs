//! What `--fix` may do about a finding, and the kind names findings carry on
//! the wire.

use vstd::prelude::*;
use crate::order::{
    text_before, text_order_is_irreflexive, text_order_is_transitive, text_splits_at,
};
use crate::text::{holds, join, join_text, tells, telling};
use crate::violation::{
    BranchDisciplineKind, CheckViolation, DriftKind, FixDisposition, IndexDriftKind,
    OrphanedSavepointKind, ReplayExclusionKind, WeaveRootIdentityConflictKind, WorkingTreeDriftKind,
    WorkweaveTreeIntegrityKind,
};
use crate::violation_view::{
    BranchDisciplineKindView, CheckViolationView, CloneTopologyKindView, DeadOpLeaseKindView,
    OpVerbView, ProvenanceKindView, WeaveRootIdentityConflictKindView,
    WorkweaveTreeIntegrityKindView,
};

verus! {

/// Whether `--fix` repairs a finding without asking for anything more.
pub open spec fn repaired_unasked(v: CheckViolationView) -> bool {
    match v {
        CheckViolationView::MissingMergeDriverConfig { .. }
        | CheckViolationView::DanglingActiveProject { .. }
        | CheckViolationView::LegacyWorkweaveMarker { .. }
        | CheckViolationView::LegacyWorkweaveIndex { .. }
        | CheckViolationView::StaleWorktreeRegistration { .. }
        | CheckViolationView::DanglingRefReceipt { .. }
        | CheckViolationView::PreFlatRefReceipt { .. }
        | CheckViolationView::DeadOpLease { .. }
        | CheckViolationView::MissingReplayExclusion { .. } => true,
        CheckViolationView::IndexDrift { kind, .. } => kind is SafeToFix,
        CheckViolationView::WorkingTreeDrift { kind, .. } => kind is SafeToFix,
        CheckViolationView::WeaveRootIdentityConflict { sub_kind, .. } => {
            sub_kind is RegisteredWorkweave
        },
        CheckViolationView::WorkweaveTreeIntegrity { sub_kind, .. } => {
            sub_kind is DanglingParent || sub_kind is StaleRegistryEntry
                || sub_kind is UnregisteredWorkweave
        },
        CheckViolationView::BranchDiscipline { sub_kind, .. } => {
            sub_kind is UnmigratedEphemeralBranch || sub_kind is UnrecordedEphemeralBranch
                || sub_kind is StaleEphemeralBranchSafe
        },
        CheckViolationView::OrphanedSavepoint { sub_kind, .. } => sub_kind is Redundant,
        _ => false,
    }
}

/// The flag that consents to repairing a finding, where one does.
pub open spec fn consent_flag(v: CheckViolationView) -> Option<Seq<char>> {
    match v {
        CheckViolationView::BranchDiscipline {
            sub_kind: BranchDisciplineKindView::Detached { .. },
            ..
        } => Some("--adopt-detached-checkouts"@),
        CheckViolationView::BranchDiscipline {
            sub_kind: BranchDisciplineKindView::CanonicalDetached { .. },
            ..
        } => Some("--reattach-checkouts"@),
        _ => None,
    }
}

/// The kind name a finding carries on the wire.
pub open spec fn kind_of(v: CheckViolationView) -> Seq<char> {
    match v {
        CheckViolationView::OrphanedClone { .. } => "orphaned-clone"@,
        CheckViolationView::DanglingReference { .. } => "dangling-reference"@,
        CheckViolationView::MissingRole { .. } => "missing-role"@,
        CheckViolationView::StaleLock { .. } => "stale-lock"@,
        CheckViolationView::IncompleteLock { .. } => "incomplete-lock"@,
        CheckViolationView::WorkweaveDrift { .. } => "workweave-drift"@,
        CheckViolationView::IndexDrift { .. } => "index-drift"@,
        CheckViolationView::WorkingTreeDrift { .. } => "working-tree-drift"@,
        CheckViolationView::MissingReplayExclusion { .. } => "missing-replay-exclusion"@,
        CheckViolationView::ReplayExclusionUnreadable { .. } => "replay-exclusion-unreadable"@,
        CheckViolationView::MissingMergeDriverConfig { .. } => "missing-merge-driver-config"@,
        CheckViolationView::MergeDriverConfigUnreadable { .. } => "merge-driver-config-unreadable"@,
        CheckViolationView::HeadUnreadable { .. } => "head-unreadable"@,
        CheckViolationView::ProjectsDirUnreadable { .. } => "projects-dir-unreadable"@,
        CheckViolationView::ProjectlessDir { .. } => "projectless-dir"@,
        CheckViolationView::UnnameableProject { .. } => "unnameable-project"@,
        CheckViolationView::UnresolvableLockEntry { .. } => "unresolvable-lock-entry"@,
        CheckViolationView::LegacyManifestFormat { .. } => "legacy-manifest-format"@,
        CheckViolationView::DanglingActiveProject { .. } => "dangling-active-project"@,
        CheckViolationView::WeaveRootIdentityConflict { .. } => "weave-root-identity-conflict"@,
        CheckViolationView::LegacyWorkweaveMarker { .. } => "legacy-workweave-marker"@,
        CheckViolationView::LegacyWorkweaveIndex { .. } => "legacy-workweave-index"@,
        CheckViolationView::UnreadableOwnedState { .. } => "unreadable-owned-state"@,
        CheckViolationView::UnreadableWorkweaveIndex { .. } => "unreadable-workweave-index"@,
        CheckViolationView::UnparseableProject { .. } => "unparseable-project"@,
        CheckViolationView::WorkweaveTreeIntegrity { .. } => "workweave-tree-integrity"@,
        CheckViolationView::Provenance { .. } => "provenance"@,
        CheckViolationView::CloneTopology { .. } => "clone-topology"@,
        CheckViolationView::BranchDiscipline { .. } => "branch-discipline"@,
        CheckViolationView::StaleWorktreeRegistration { .. } => "stale-worktree-registration"@,
        CheckViolationView::StaleOpState { .. } => "stale-op-state"@,
        CheckViolationView::DeadOpLease { .. } => "dead-op-lease"@,
        CheckViolationView::DanglingRefReceipt { .. } => "dangling-ref-receipt"@,
        CheckViolationView::PreFlatRefReceipt { .. } => "pre-flat-ref-receipt"@,
        CheckViolationView::OrphanedSavepoint { .. } => "orphaned-savepoint"@,
        CheckViolationView::ConfusableSiblings { .. } => "confusable-siblings"@,
        CheckViolationView::CargoVersionSkew { .. } => "cargo-version-skew"@,
        CheckViolationView::CargoPatchShadowing { .. } => "cargo-patch-shadowing"@,
        CheckViolationView::MissingCanonicalClone { .. } => "missing-canonical-clone"@,
        CheckViolationView::UninitializedSubmodule { .. } => "uninitialized-submodule"@,
        CheckViolationView::PhantomMergeDriver { .. } => "phantom-merge-driver"@,
    }
}

impl CheckViolation {
    /// What `--fix` may do about this finding.
    pub fn fix_disposition(&self) -> (disposition: FixDisposition)
        ensures
            disposition is Auto <==> repaired_unasked(self.deep_view()),
            disposition is Consented <==> consent_flag(self.deep_view()) is Some,
            disposition matches FixDisposition::Consented(flag) ==> consent_flag(self.deep_view())
                == Some(flag@),
    {
        match self {
            CheckViolation::MissingMergeDriverConfig { .. }
            | CheckViolation::DanglingActiveProject { .. }
            | CheckViolation::LegacyWorkweaveMarker { .. }
            | CheckViolation::LegacyWorkweaveIndex { .. }
            | CheckViolation::StaleWorktreeRegistration { .. }
            | CheckViolation::DanglingRefReceipt { .. }
            | CheckViolation::PreFlatRefReceipt { .. }
            | CheckViolation::DeadOpLease { .. } => FixDisposition::Auto,
            CheckViolation::MissingReplayExclusion { sub_kind, .. } => match sub_kind {
                ReplayExclusionKind::Absent
                | ReplayExclusionKind::LegacySpelling
                | ReplayExclusionKind::LegacyAlongsideCurrent => FixDisposition::Auto,
            },
            CheckViolation::IndexDrift { kind, .. } => match kind {
                IndexDriftKind::SafeToFix => FixDisposition::Auto,
                IndexDriftKind::LiveStaged => FixDisposition::ReportOnly,
            },
            CheckViolation::WorkingTreeDrift { kind, .. } => match kind {
                WorkingTreeDriftKind::SafeToFix => FixDisposition::Auto,
                WorkingTreeDriftKind::LiveEdits => FixDisposition::ReportOnly,
            },
            CheckViolation::WeaveRootIdentityConflict { sub_kind, .. } => match sub_kind {
                WeaveRootIdentityConflictKind::RegisteredWorkweave { .. } => FixDisposition::Auto,
                WeaveRootIdentityConflictKind::MarkerUnverifiable { .. }
                | WeaveRootIdentityConflictKind::Unwitnessed { .. } => FixDisposition::ReportOnly,
            },
            CheckViolation::WorkweaveTreeIntegrity { sub_kind, .. } => match sub_kind {
                WorkweaveTreeIntegrityKind::DanglingParent { .. }
                | WorkweaveTreeIntegrityKind::StaleRegistryEntry { .. }
                | WorkweaveTreeIntegrityKind::UnregisteredWorkweave { .. } => FixDisposition::Auto,
                WorkweaveTreeIntegrityKind::ParentChainAnomaly { .. }
                | WorkweaveTreeIntegrityKind::UnregisteredDir
                | WorkweaveTreeIntegrityKind::ForeignPrimary { .. }
                | WorkweaveTreeIntegrityKind::ForeignPrimaryOtherWorkspace { .. }
                | WorkweaveTreeIntegrityKind::TrackedIndex { .. }
                | WorkweaveTreeIntegrityKind::UnreadableMarker { .. }
                | WorkweaveTreeIntegrityKind::NestedWorkweaveDir { .. }
                | WorkweaveTreeIntegrityKind::MisnamedDir { .. } => FixDisposition::ReportOnly,
            },
            CheckViolation::BranchDiscipline { sub_kind, .. } => match sub_kind {
                BranchDisciplineKind::UnmigratedEphemeralBranch { .. }
                | BranchDisciplineKind::UnrecordedEphemeralBranch { .. }
                | BranchDisciplineKind::StaleEphemeralBranchSafe { .. } => FixDisposition::Auto,
                BranchDisciplineKind::Detached { .. } => {
                    FixDisposition::Consented("--adopt-detached-checkouts")
                },
                BranchDisciplineKind::CanonicalDetached { .. } => {
                    FixDisposition::Consented("--reattach-checkouts")
                },
                BranchDisciplineKind::SharedBranch { .. }
                | BranchDisciplineKind::ForeignEphemeral { .. }
                | BranchDisciplineKind::BlockedEphemeralNamespace { .. }
                | BranchDisciplineKind::BlockedDetachedNamespace { .. }
                | BranchDisciplineKind::UnbornCheckout { .. }
                | BranchDisciplineKind::CanonicalHoldsLiveWorkweaveRef { .. }
                | BranchDisciplineKind::CanonicalHoldsLeakedRef { .. }
                | BranchDisciplineKind::StaleEphemeralBranchLive { .. }
                | BranchDisciplineKind::StaleEphemeralBranchUnowned { .. } => {
                    FixDisposition::ReportOnly
                },
            },
            CheckViolation::OrphanedSavepoint { sub_kind, .. } => match sub_kind {
                OrphanedSavepointKind::Redundant => FixDisposition::Auto,
                OrphanedSavepointKind::Live => FixDisposition::ReportOnly,
            },
            CheckViolation::OrphanedClone { .. }
            | CheckViolation::DanglingReference { .. }
            | CheckViolation::MissingRole { .. }
            | CheckViolation::StaleLock { .. }
            | CheckViolation::IncompleteLock { .. }
            | CheckViolation::UnparseableProject { .. }
            | CheckViolation::LegacyManifestFormat { .. }
            | CheckViolation::WorkweaveDrift { .. }
            | CheckViolation::StaleOpState { .. }
            | CheckViolation::CargoVersionSkew { .. }
            | CheckViolation::CargoPatchShadowing { .. }
            | CheckViolation::MissingCanonicalClone { .. }
            | CheckViolation::UninitializedSubmodule { .. }
            | CheckViolation::ReplayExclusionUnreadable { .. }
            | CheckViolation::MergeDriverConfigUnreadable { .. }
            | CheckViolation::HeadUnreadable { .. }
            | CheckViolation::ProjectsDirUnreadable { .. }
            | CheckViolation::ProjectlessDir { .. }
            | CheckViolation::UnnameableProject { .. }
            | CheckViolation::UnresolvableLockEntry { .. }
            | CheckViolation::UnreadableOwnedState { .. }
            | CheckViolation::UnreadableWorkweaveIndex { .. }
            | CheckViolation::Provenance { .. }
            | CheckViolation::CloneTopology { .. }
            | CheckViolation::ConfusableSiblings { .. }
            | CheckViolation::PhantomMergeDriver { .. } => FixDisposition::ReportOnly,
        }
    }

    /// The kind name this finding carries on the wire.
    pub fn wire_kind(&self) -> (kind: &'static str)
        ensures
            kind@ == kind_of(self.deep_view()),
    {
        match self {
            CheckViolation::OrphanedClone { .. } => "orphaned-clone",
            CheckViolation::DanglingReference { .. } => "dangling-reference",
            CheckViolation::MissingRole { .. } => "missing-role",
            CheckViolation::StaleLock { .. } => "stale-lock",
            CheckViolation::IncompleteLock { .. } => "incomplete-lock",
            CheckViolation::WorkweaveDrift { .. } => "workweave-drift",
            CheckViolation::IndexDrift { .. } => "index-drift",
            CheckViolation::WorkingTreeDrift { .. } => "working-tree-drift",
            CheckViolation::MissingReplayExclusion { .. } => "missing-replay-exclusion",
            CheckViolation::ReplayExclusionUnreadable { .. } => "replay-exclusion-unreadable",
            CheckViolation::MissingMergeDriverConfig { .. } => "missing-merge-driver-config",
            CheckViolation::MergeDriverConfigUnreadable { .. } => "merge-driver-config-unreadable",
            CheckViolation::HeadUnreadable { .. } => "head-unreadable",
            CheckViolation::ProjectsDirUnreadable { .. } => "projects-dir-unreadable",
            CheckViolation::ProjectlessDir { .. } => "projectless-dir",
            CheckViolation::UnnameableProject { .. } => "unnameable-project",
            CheckViolation::UnresolvableLockEntry { .. } => "unresolvable-lock-entry",
            CheckViolation::LegacyManifestFormat { .. } => "legacy-manifest-format",
            CheckViolation::DanglingActiveProject { .. } => "dangling-active-project",
            CheckViolation::WeaveRootIdentityConflict { .. } => "weave-root-identity-conflict",
            CheckViolation::LegacyWorkweaveMarker { .. } => "legacy-workweave-marker",
            CheckViolation::LegacyWorkweaveIndex { .. } => "legacy-workweave-index",
            CheckViolation::UnreadableOwnedState { .. } => "unreadable-owned-state",
            CheckViolation::UnreadableWorkweaveIndex { .. } => "unreadable-workweave-index",
            CheckViolation::UnparseableProject { .. } => "unparseable-project",
            CheckViolation::WorkweaveTreeIntegrity { .. } => "workweave-tree-integrity",
            CheckViolation::Provenance { .. } => "provenance",
            CheckViolation::CloneTopology { .. } => "clone-topology",
            CheckViolation::BranchDiscipline { .. } => "branch-discipline",
            CheckViolation::StaleWorktreeRegistration { .. } => "stale-worktree-registration",
            CheckViolation::StaleOpState { .. } => "stale-op-state",
            CheckViolation::DeadOpLease { .. } => "dead-op-lease",
            CheckViolation::DanglingRefReceipt { .. } => "dangling-ref-receipt",
            CheckViolation::PreFlatRefReceipt { .. } => "pre-flat-ref-receipt",
            CheckViolation::OrphanedSavepoint { .. } => "orphaned-savepoint",
            CheckViolation::ConfusableSiblings { .. } => "confusable-siblings",
            CheckViolation::CargoVersionSkew { .. } => "cargo-version-skew",
            CheckViolation::CargoPatchShadowing { .. } => "cargo-patch-shadowing",
            CheckViolation::MissingCanonicalClone { .. } => "missing-canonical-clone",
            CheckViolation::UninitializedSubmodule { .. } => "uninitialized-submodule",
            CheckViolation::PhantomMergeDriver { .. } => "phantom-merge-driver",
        }
    }
}

/// Every kind name a finding can carry, in order.
pub open spec fn all_kinds() -> Seq<Seq<char>> {
    seq![
        "branch-discipline"@,
        "cargo-patch-shadowing"@,
        "cargo-version-skew"@,
        "clone-topology"@,
        "confusable-siblings"@,
        "dangling-active-project"@,
        "dangling-ref-receipt"@,
        "dangling-reference"@,
        "dead-op-lease"@,
        "head-unreadable"@,
        "incomplete-lock"@,
        "index-drift"@,
        "legacy-manifest-format"@,
        "legacy-workweave-index"@,
        "legacy-workweave-marker"@,
        "merge-driver-config-unreadable"@,
        "missing-canonical-clone"@,
        "missing-merge-driver-config"@,
        "missing-replay-exclusion"@,
        "missing-role"@,
        "orphaned-clone"@,
        "orphaned-savepoint"@,
        "phantom-merge-driver"@,
        "pre-flat-ref-receipt"@,
        "projectless-dir"@,
        "projects-dir-unreadable"@,
        "provenance"@,
        "replay-exclusion-unreadable"@,
        "stale-lock"@,
        "stale-op-state"@,
        "stale-worktree-registration"@,
        "uninitialized-submodule"@,
        "unnameable-project"@,
        "unparseable-project"@,
        "unreadable-owned-state"@,
        "unreadable-workweave-index"@,
        "unresolvable-lock-entry"@,
        "weave-root-identity-conflict"@,
        "working-tree-drift"@,
        "workweave-drift"@,
        "workweave-tree-integrity"@,
    ]
}

/// Where a finding's kind name stands among [`all_kinds`].
spec fn kind_index(v: CheckViolationView) -> int {
    match v {
        CheckViolationView::OrphanedClone { .. } => 20,
        CheckViolationView::DanglingReference { .. } => 7,
        CheckViolationView::MissingRole { .. } => 19,
        CheckViolationView::StaleLock { .. } => 28,
        CheckViolationView::IncompleteLock { .. } => 10,
        CheckViolationView::WorkweaveDrift { .. } => 39,
        CheckViolationView::IndexDrift { .. } => 11,
        CheckViolationView::WorkingTreeDrift { .. } => 38,
        CheckViolationView::MissingReplayExclusion { .. } => 18,
        CheckViolationView::ReplayExclusionUnreadable { .. } => 27,
        CheckViolationView::MissingMergeDriverConfig { .. } => 17,
        CheckViolationView::MergeDriverConfigUnreadable { .. } => 15,
        CheckViolationView::HeadUnreadable { .. } => 9,
        CheckViolationView::ProjectsDirUnreadable { .. } => 25,
        CheckViolationView::ProjectlessDir { .. } => 24,
        CheckViolationView::UnnameableProject { .. } => 32,
        CheckViolationView::UnresolvableLockEntry { .. } => 36,
        CheckViolationView::LegacyManifestFormat { .. } => 12,
        CheckViolationView::DanglingActiveProject { .. } => 5,
        CheckViolationView::WeaveRootIdentityConflict { .. } => 37,
        CheckViolationView::LegacyWorkweaveMarker { .. } => 14,
        CheckViolationView::LegacyWorkweaveIndex { .. } => 13,
        CheckViolationView::UnreadableOwnedState { .. } => 34,
        CheckViolationView::UnreadableWorkweaveIndex { .. } => 35,
        CheckViolationView::UnparseableProject { .. } => 33,
        CheckViolationView::WorkweaveTreeIntegrity { .. } => 40,
        CheckViolationView::Provenance { .. } => 26,
        CheckViolationView::CloneTopology { .. } => 3,
        CheckViolationView::BranchDiscipline { .. } => 0,
        CheckViolationView::StaleWorktreeRegistration { .. } => 30,
        CheckViolationView::StaleOpState { .. } => 29,
        CheckViolationView::DeadOpLease { .. } => 8,
        CheckViolationView::DanglingRefReceipt { .. } => 6,
        CheckViolationView::PreFlatRefReceipt { .. } => 23,
        CheckViolationView::OrphanedSavepoint { .. } => 21,
        CheckViolationView::ConfusableSiblings { .. } => 4,
        CheckViolationView::CargoVersionSkew { .. } => 2,
        CheckViolationView::CargoPatchShadowing { .. } => 1,
        CheckViolationView::MissingCanonicalClone { .. } => 16,
        CheckViolationView::UninitializedSubmodule { .. } => 31,
        CheckViolationView::PhantomMergeDriver { .. } => 22,
    }
}

/// Each kind name comes before the one that follows it.
proof fn neighbouring_kinds_are_ordered()
    ensures
        all_kinds().len() == 41,
        forall|i: int|
            0 <= i < 40 ==> text_before(#[trigger] all_kinds()[i], all_kinds()[i + 1]),
{
    let k = all_kinds();
    reveal_strlit("branch-discipline");
    reveal_strlit("cargo-patch-shadowing");
    assert(text_splits_at(k[0], k[1], 0));
    reveal_strlit("cargo-version-skew");
    assert(text_splits_at(k[1], k[2], 6));
    reveal_strlit("clone-topology");
    assert(text_splits_at(k[2], k[3], 1));
    reveal_strlit("confusable-siblings");
    assert(text_splits_at(k[3], k[4], 1));
    reveal_strlit("dangling-active-project");
    assert(text_splits_at(k[4], k[5], 0));
    reveal_strlit("dangling-ref-receipt");
    assert(text_splits_at(k[5], k[6], 9));
    reveal_strlit("dangling-reference");
    assert(text_splits_at(k[6], k[7], 12));
    reveal_strlit("dead-op-lease");
    assert(text_splits_at(k[7], k[8], 1));
    reveal_strlit("head-unreadable");
    assert(text_splits_at(k[8], k[9], 0));
    reveal_strlit("incomplete-lock");
    assert(text_splits_at(k[9], k[10], 0));
    reveal_strlit("index-drift");
    assert(text_splits_at(k[10], k[11], 2));
    reveal_strlit("legacy-manifest-format");
    assert(text_splits_at(k[11], k[12], 0));
    reveal_strlit("legacy-workweave-index");
    assert(text_splits_at(k[12], k[13], 7));
    reveal_strlit("legacy-workweave-marker");
    assert(text_splits_at(k[13], k[14], 17));
    reveal_strlit("merge-driver-config-unreadable");
    assert(text_splits_at(k[14], k[15], 0));
    reveal_strlit("missing-canonical-clone");
    assert(text_splits_at(k[15], k[16], 1));
    reveal_strlit("missing-merge-driver-config");
    assert(text_splits_at(k[16], k[17], 8));
    reveal_strlit("missing-replay-exclusion");
    assert(text_splits_at(k[17], k[18], 8));
    reveal_strlit("missing-role");
    assert(text_splits_at(k[18], k[19], 9));
    reveal_strlit("orphaned-clone");
    assert(text_splits_at(k[19], k[20], 0));
    reveal_strlit("orphaned-savepoint");
    assert(text_splits_at(k[20], k[21], 9));
    reveal_strlit("phantom-merge-driver");
    assert(text_splits_at(k[21], k[22], 0));
    reveal_strlit("pre-flat-ref-receipt");
    assert(text_splits_at(k[22], k[23], 1));
    reveal_strlit("projectless-dir");
    assert(text_splits_at(k[23], k[24], 2));
    reveal_strlit("projects-dir-unreadable");
    assert(text_splits_at(k[24], k[25], 7));
    reveal_strlit("provenance");
    assert(text_splits_at(k[25], k[26], 3));
    reveal_strlit("replay-exclusion-unreadable");
    assert(text_splits_at(k[26], k[27], 0));
    reveal_strlit("stale-lock");
    assert(text_splits_at(k[27], k[28], 0));
    reveal_strlit("stale-op-state");
    assert(text_splits_at(k[28], k[29], 6));
    reveal_strlit("stale-worktree-registration");
    assert(text_splits_at(k[29], k[30], 6));
    reveal_strlit("uninitialized-submodule");
    assert(text_splits_at(k[30], k[31], 0));
    reveal_strlit("unnameable-project");
    assert(text_splits_at(k[31], k[32], 2));
    reveal_strlit("unparseable-project");
    assert(text_splits_at(k[32], k[33], 2));
    reveal_strlit("unreadable-owned-state");
    assert(text_splits_at(k[33], k[34], 2));
    reveal_strlit("unreadable-workweave-index");
    assert(text_splits_at(k[34], k[35], 11));
    reveal_strlit("unresolvable-lock-entry");
    assert(text_splits_at(k[35], k[36], 4));
    reveal_strlit("weave-root-identity-conflict");
    assert(text_splits_at(k[36], k[37], 0));
    reveal_strlit("working-tree-drift");
    assert(text_splits_at(k[37], k[38], 1));
    reveal_strlit("workweave-drift");
    assert(text_splits_at(k[38], k[39], 4));
    reveal_strlit("workweave-tree-integrity");
    assert(text_splits_at(k[39], k[40], 10));
}

/// The kind names stand in strictly increasing order, so none is listed twice.
pub proof fn kinds_are_sorted(i: int, j: int)
    requires
        0 <= i < j < all_kinds().len(),
    ensures
        text_before(all_kinds()[i], all_kinds()[j]),
        all_kinds()[i] != all_kinds()[j],
    decreases j - i,
{
    neighbouring_kinds_are_ordered();
    if i + 1 < j {
        kinds_are_sorted(i, j - 1);
        text_order_is_transitive(all_kinds()[i], all_kinds()[j - 1], all_kinds()[j]);
    }
    text_order_is_irreflexive(all_kinds()[i]);
}

/// The kind names are exactly those that findings carry: every finding's kind
/// is listed, and every listed kind is some finding's.
pub proof fn kinds_are_exactly_those_of_findings(name: Seq<char>)
    ensures
        all_kinds().contains(name) <==> exists|v: CheckViolationView| kind_of(v) == name,
{
    let k = all_kinds();
    if exists|v: CheckViolationView| kind_of(v) == name {
        let v = choose|v: CheckViolationView| kind_of(v) == name;
        assert(k[kind_index(v)] == name);
    }
    if k.contains(name) {
        let i = choose|i: int| 0 <= i < k.len() && k[i] == name;
        every_kind_has_a_finding(i);
    }
}

/// For each listed kind there is a finding that carries it.
proof fn every_kind_has_a_finding(i: int)
    requires
        0 <= i < all_kinds().len(),
    ensures
        exists|v: CheckViolationView| kind_of(v) == all_kinds()[i],
{
    let k = all_kinds();
    let t = Seq::<char>::empty();
    assert(kind_of(CheckViolationView::BranchDiscipline { repo_path: t, sub_kind: BranchDisciplineKindView::SharedBranch { actual_branch: t, expected_ref: t, recorded_ref: None } }) == k[0]);
    assert(kind_of(CheckViolationView::CargoPatchShadowing { weave_config: t, member_config: t, registry: t, crate_name: t }) == k[1]);
    assert(kind_of(CheckViolationView::CargoVersionSkew { crate_name: t, occurrences: Seq::empty() }) == k[2]);
    assert(kind_of(CheckViolationView::CloneTopology { workspace_path: t, repo: t, sub_kind: CloneTopologyKindView::StandaloneInWorkweave { store_path: t } }) == k[3]);
    assert(kind_of(CheckViolationView::ConfusableSiblings { parent: t, first: t, second: t, warning: t }) == k[4]);
    assert(kind_of(CheckViolationView::DanglingActiveProject { project: t, missing_dir: t }) == k[5]);
    assert(kind_of(CheckViolationView::DanglingRefReceipt { project: t, store_path: t, ref_name: t }) == k[6]);
    assert(kind_of(CheckViolationView::DanglingReference { project: t, repo: t }) == k[7]);
    assert(kind_of(CheckViolationView::DeadOpLease { workspace_dir: t, op_id: t, recorded_owner: t, sub_kind: DeadOpLeaseKindView::OwnerRecordAbsent, created_at: None }) == k[8]);
    assert(kind_of(CheckViolationView::HeadUnreadable { repo: t, error: t }) == k[9]);
    assert(kind_of(CheckViolationView::IncompleteLock { project: t, repo: t }) == k[10]);
    assert(kind_of(CheckViolationView::IndexDrift { workweave: None, repo: t, kind: IndexDriftKind::SafeToFix }) == k[11]);
    assert(kind_of(CheckViolationView::LegacyManifestFormat { project: t, legacy_path: t, refusal: t }) == k[12]);
    assert(kind_of(CheckViolationView::LegacyWorkweaveIndex { project: t, index_path: t }) == k[13]);
    assert(kind_of(CheckViolationView::LegacyWorkweaveMarker { marker_path: t, primary: t }) == k[14]);
    assert(kind_of(CheckViolationView::MergeDriverConfigUnreadable { project: t, config_key: t, error: t }) == k[15]);
    assert(kind_of(CheckViolationView::MissingCanonicalClone { workweave: t, repo: t, canonical_path: t }) == k[16]);
    assert(kind_of(CheckViolationView::MissingMergeDriverConfig { project: t, config_key: t }) == k[17]);
    assert(kind_of(CheckViolationView::MissingReplayExclusion { project: t, sub_kind: ReplayExclusionKind::Absent }) == k[18]);
    assert(kind_of(CheckViolationView::MissingRole { project: t, repo: t }) == k[19]);
    assert(kind_of(CheckViolationView::OrphanedClone { path: t }) == k[20]);
    assert(kind_of(CheckViolationView::OrphanedSavepoint { workweave: None, repo: t, op_id: t, sub_kind: OrphanedSavepointKind::Redundant }) == k[21]);
    assert(kind_of(CheckViolationView::PhantomMergeDriver { repo: t, pattern: t, driver: t }) == k[22]);
    assert(kind_of(CheckViolationView::PreFlatRefReceipt { project: t, store_path: t, ref_name: t }) == k[23]);
    assert(kind_of(CheckViolationView::ProjectlessDir { dir: t }) == k[24]);
    assert(kind_of(CheckViolationView::ProjectsDirUnreadable { path: t, error: t }) == k[25]);
    assert(kind_of(CheckViolationView::Provenance { project: t, repo: t, sub_kind: ProvenanceKindView::OriginUrlMismatch { manifest_url: t, actual_url: t, is_reference_role: false } }) == k[26]);
    assert(kind_of(CheckViolationView::ReplayExclusionUnreadable { project: t, error: t }) == k[27]);
    assert(kind_of(CheckViolationView::StaleLock { project: t, repo: t, locked: t, actual: t }) == k[28]);
    assert(kind_of(CheckViolationView::StaleOpState { workspace_dir: t, verb: OpVerbView { name: t, resume_command: t }, started_at: t }) == k[29]);
    assert(kind_of(CheckViolationView::StaleWorktreeRegistration { workweave: None, repo: t, missing_path: t }) == k[30]);
    assert(kind_of(CheckViolationView::UninitializedSubmodule { workweave: t, repo: t, empty_paths: Seq::empty() }) == k[31]);
    assert(kind_of(CheckViolationView::UnnameableProject { dir: t, derived: t, error: t }) == k[32]);
    assert(kind_of(CheckViolationView::UnparseableProject { project: t, manifest_path: t, message: t }) == k[33]);
    assert(kind_of(CheckViolationView::UnreadableOwnedState { project: t, state_path: t, error: t }) == k[34]);
    assert(kind_of(CheckViolationView::UnreadableWorkweaveIndex { project: t, index_path: t, error: t }) == k[35]);
    assert(kind_of(CheckViolationView::UnresolvableLockEntry { project: t, repo: t }) == k[36]);
    assert(kind_of(CheckViolationView::WeaveRootIdentityConflict { root: t, pointer_project: None, sub_kind: WeaveRootIdentityConflictKindView::RegisteredWorkweave { project: t, workweave_name: t } }) == k[37]);
    assert(kind_of(CheckViolationView::WorkingTreeDrift { workweave: None, repo: t, kind: WorkingTreeDriftKind::SafeToFix }) == k[38]);
    assert(kind_of(CheckViolationView::WorkweaveDrift { workweave: t, kind: DriftKind::Missing, repo: t }) == k[39]);
    assert(kind_of(CheckViolationView::WorkweaveTreeIntegrity { workweave_dir: t, sub_kind: WorkweaveTreeIntegrityKindView::DanglingParent { parent_path: t } }) == k[40]);
}

/// Findings of one kind name are of one kind: the name decides the variant.
pub proof fn kind_decides_variant(a: CheckViolationView, b: CheckViolationView)
    requires
        kind_of(a) == kind_of(b),
    ensures
        same_variant(a, b),
{
    let i = kind_index(a);
    let j = kind_index(b);
    assert(all_kinds()[i] == kind_of(a));
    assert(all_kinds()[j] == kind_of(b));
    if i < j {
        kinds_are_sorted(i, j);
    } else if j < i {
        kinds_are_sorted(j, i);
    }
}

/// Whether two findings are of one variant.
pub open spec fn same_variant(a: CheckViolationView, b: CheckViolationView) -> bool {
    match a {
        CheckViolationView::OrphanedClone { .. } => b is OrphanedClone,
        CheckViolationView::DanglingReference { .. } => b is DanglingReference,
        CheckViolationView::MissingRole { .. } => b is MissingRole,
        CheckViolationView::StaleLock { .. } => b is StaleLock,
        CheckViolationView::IncompleteLock { .. } => b is IncompleteLock,
        CheckViolationView::WorkweaveDrift { .. } => b is WorkweaveDrift,
        CheckViolationView::IndexDrift { .. } => b is IndexDrift,
        CheckViolationView::WorkingTreeDrift { .. } => b is WorkingTreeDrift,
        CheckViolationView::MissingReplayExclusion { .. } => b is MissingReplayExclusion,
        CheckViolationView::ReplayExclusionUnreadable { .. } => b is ReplayExclusionUnreadable,
        CheckViolationView::MissingMergeDriverConfig { .. } => b is MissingMergeDriverConfig,
        CheckViolationView::MergeDriverConfigUnreadable { .. } => b is MergeDriverConfigUnreadable,
        CheckViolationView::HeadUnreadable { .. } => b is HeadUnreadable,
        CheckViolationView::ProjectsDirUnreadable { .. } => b is ProjectsDirUnreadable,
        CheckViolationView::ProjectlessDir { .. } => b is ProjectlessDir,
        CheckViolationView::UnnameableProject { .. } => b is UnnameableProject,
        CheckViolationView::UnresolvableLockEntry { .. } => b is UnresolvableLockEntry,
        CheckViolationView::LegacyManifestFormat { .. } => b is LegacyManifestFormat,
        CheckViolationView::DanglingActiveProject { .. } => b is DanglingActiveProject,
        CheckViolationView::WeaveRootIdentityConflict { .. } => b is WeaveRootIdentityConflict,
        CheckViolationView::LegacyWorkweaveMarker { .. } => b is LegacyWorkweaveMarker,
        CheckViolationView::LegacyWorkweaveIndex { .. } => b is LegacyWorkweaveIndex,
        CheckViolationView::UnreadableOwnedState { .. } => b is UnreadableOwnedState,
        CheckViolationView::UnreadableWorkweaveIndex { .. } => b is UnreadableWorkweaveIndex,
        CheckViolationView::UnparseableProject { .. } => b is UnparseableProject,
        CheckViolationView::WorkweaveTreeIntegrity { .. } => b is WorkweaveTreeIntegrity,
        CheckViolationView::Provenance { .. } => b is Provenance,
        CheckViolationView::CloneTopology { .. } => b is CloneTopology,
        CheckViolationView::BranchDiscipline { .. } => b is BranchDiscipline,
        CheckViolationView::StaleWorktreeRegistration { .. } => b is StaleWorktreeRegistration,
        CheckViolationView::StaleOpState { .. } => b is StaleOpState,
        CheckViolationView::DeadOpLease { .. } => b is DeadOpLease,
        CheckViolationView::DanglingRefReceipt { .. } => b is DanglingRefReceipt,
        CheckViolationView::PreFlatRefReceipt { .. } => b is PreFlatRefReceipt,
        CheckViolationView::OrphanedSavepoint { .. } => b is OrphanedSavepoint,
        CheckViolationView::ConfusableSiblings { .. } => b is ConfusableSiblings,
        CheckViolationView::CargoVersionSkew { .. } => b is CargoVersionSkew,
        CheckViolationView::CargoPatchShadowing { .. } => b is CargoPatchShadowing,
        CheckViolationView::MissingCanonicalClone { .. } => b is MissingCanonicalClone,
        CheckViolationView::UninitializedSubmodule { .. } => b is UninitializedSubmodule,
        CheckViolationView::PhantomMergeDriver { .. } => b is PhantomMergeDriver,
    }
}

/// A report's narrowing to named kinds.
///
/// An unknown name is refused: a filter that matched nothing would show an
/// empty report, which reads as a clean one.
pub struct KindFilter {
    kinds: Vec<String>,
}

/// The refusal of a name that is no kind.
pub open spec fn unknown_kind_text(name: Seq<char>) -> Seq<char> {
    "`--kind="@ + name + "` names no doctor finding kind. Valid kinds:\n  "@ + join_text(
        all_kinds(),
        "\n  "@,
    )
}

/// The first name that is no kind.
pub open spec fn first_unknown(names: Seq<Seq<char>>) -> Option<Seq<char>>
    decreases names.len(),
{
    if names.len() == 0 {
        None
    } else {
        match first_unknown(names.drop_last()) {
            Some(name) => Some(name),
            None => if all_kinds().contains(names.last()) {
                None
            } else {
                Some(names.last())
            },
        }
    }
}

impl KindFilter {
    /// The kinds the filter lets through.
    pub closed spec fn names(&self) -> Set<Seq<char>> {
        self.kinds.deep_view().to_set()
    }

    /// Every kind name a finding can carry, sorted.
    pub fn valid_kinds() -> (kinds: Vec<String>)
        ensures
            kinds.deep_view() == all_kinds(),
    {
        let kinds: Vec<String> = vec![
            "branch-discipline".to_owned(),
            "cargo-patch-shadowing".to_owned(),
            "cargo-version-skew".to_owned(),
            "clone-topology".to_owned(),
            "confusable-siblings".to_owned(),
            "dangling-active-project".to_owned(),
            "dangling-ref-receipt".to_owned(),
            "dangling-reference".to_owned(),
            "dead-op-lease".to_owned(),
            "head-unreadable".to_owned(),
            "incomplete-lock".to_owned(),
            "index-drift".to_owned(),
            "legacy-manifest-format".to_owned(),
            "legacy-workweave-index".to_owned(),
            "legacy-workweave-marker".to_owned(),
            "merge-driver-config-unreadable".to_owned(),
            "missing-canonical-clone".to_owned(),
            "missing-merge-driver-config".to_owned(),
            "missing-replay-exclusion".to_owned(),
            "missing-role".to_owned(),
            "orphaned-clone".to_owned(),
            "orphaned-savepoint".to_owned(),
            "phantom-merge-driver".to_owned(),
            "pre-flat-ref-receipt".to_owned(),
            "projectless-dir".to_owned(),
            "projects-dir-unreadable".to_owned(),
            "provenance".to_owned(),
            "replay-exclusion-unreadable".to_owned(),
            "stale-lock".to_owned(),
            "stale-op-state".to_owned(),
            "stale-worktree-registration".to_owned(),
            "uninitialized-submodule".to_owned(),
            "unnameable-project".to_owned(),
            "unparseable-project".to_owned(),
            "unreadable-owned-state".to_owned(),
            "unreadable-workweave-index".to_owned(),
            "unresolvable-lock-entry".to_owned(),
            "weave-root-identity-conflict".to_owned(),
            "working-tree-drift".to_owned(),
            "workweave-drift".to_owned(),
            "workweave-tree-integrity".to_owned(),
        ];
        assert(kinds.deep_view() =~= all_kinds());
        kinds
    }

    /// A filter for the given names, or the refusal of the first that is no
    /// kind.
    pub fn new(names: &Vec<String>) -> (filter: Result<KindFilter, String>)
        ensures
            match first_unknown(names.deep_view()) {
                None => filter is Ok && filter->Ok_0.names() == names.deep_view().to_set(),
                Some(name) => filter is Err && filter->Err_0@ == unknown_kind_text(name),
            },
    {
        let valid: Vec<String> = Self::valid_kinds();
        let mut kinds: Vec<String> = Vec::new();
        let ghost all = names.deep_view();
        let mut i: usize = 0;
        while i < names.len()
            invariant
                0 <= i <= names.len(),
                all == names.deep_view(),
                valid.deep_view() == all_kinds(),
                kinds.deep_view() == all.take(i as int),
                first_unknown(all.take(i as int)) is None,
            decreases names.len() - i,
        {
            proof {
                assert(all.take(i as int + 1).drop_last() =~= all.take(i as int));
                assert(all.take(i as int + 1).last() == names@[i as int]@);
            }
            if !holds(&valid, &names[i]) {
                proof {
                    unknown_stays_first(all, i as int + 1);
                }
                return Err(
                    "`--kind=".to_owned()
                        .concat(&names[i])
                        .concat("` names no doctor finding kind. Valid kinds:\n  ")
                        .concat(&join(&valid, "\n  ")),
                );
            }
            kinds.push(names[i].clone());
            assert(kinds.deep_view() =~= all.take(i as int + 1));
            i = i + 1;
        }
        assert(all.take(i as int) =~= all);
        Ok(KindFilter { kinds })
    }

    /// Whether `v` is of one of the named kinds.
    pub fn admits(&self, v: &CheckViolation) -> (admitted: bool)
        ensures
            admitted == self.names().contains(kind_of(v.deep_view())),
    {
        let kind: String = v.wire_kind().to_owned();
        holds(&self.kinds, &kind)
    }
}

/// A name found to be no kind stays the first such name however many follow.
proof fn unknown_stays_first(names: Seq<Seq<char>>, n: int)
    requires
        0 <= n <= names.len(),
        first_unknown(names.take(n)) is Some,
    ensures
        first_unknown(names) == first_unknown(names.take(n)),
    decreases names.len(),
{
    if n == names.len() {
        assert(names.take(n) =~= names);
    } else {
        assert(names.drop_last().take(n) =~= names.take(n));
        unknown_stays_first(names.drop_last(), n);
    }
}

/// Every kind of finding goes by its own name.
pub proof fn findings_go_by_their_kind(v: CheckViolationView)
    ensures
        v is OrphanedClone ==> kind_of(v) == "orphaned-clone"@,
        v is DanglingReference ==> kind_of(v) == "dangling-reference"@,
        v is MissingRole ==> kind_of(v) == "missing-role"@,
        v is StaleLock ==> kind_of(v) == "stale-lock"@,
        v is IncompleteLock ==> kind_of(v) == "incomplete-lock"@,
        v is WorkweaveDrift ==> kind_of(v) == "workweave-drift"@,
        v is IndexDrift ==> kind_of(v) == "index-drift"@,
        v is WorkingTreeDrift ==> kind_of(v) == "working-tree-drift"@,
        v is MissingReplayExclusion ==> kind_of(v) == "missing-replay-exclusion"@,
        v is ReplayExclusionUnreadable ==> kind_of(v) == "replay-exclusion-unreadable"@,
        v is MissingMergeDriverConfig ==> kind_of(v) == "missing-merge-driver-config"@,
        v is MergeDriverConfigUnreadable ==> kind_of(v) == "merge-driver-config-unreadable"@,
        v is HeadUnreadable ==> kind_of(v) == "head-unreadable"@,
        v is ProjectsDirUnreadable ==> kind_of(v) == "projects-dir-unreadable"@,
        v is ProjectlessDir ==> kind_of(v) == "projectless-dir"@,
        v is UnnameableProject ==> kind_of(v) == "unnameable-project"@,
        v is UnresolvableLockEntry ==> kind_of(v) == "unresolvable-lock-entry"@,
        v is LegacyManifestFormat ==> kind_of(v) == "legacy-manifest-format"@,
        v is DanglingActiveProject ==> kind_of(v) == "dangling-active-project"@,
        v is WeaveRootIdentityConflict ==> kind_of(v) == "weave-root-identity-conflict"@,
        v is LegacyWorkweaveMarker ==> kind_of(v) == "legacy-workweave-marker"@,
        v is LegacyWorkweaveIndex ==> kind_of(v) == "legacy-workweave-index"@,
        v is UnreadableOwnedState ==> kind_of(v) == "unreadable-owned-state"@,
        v is UnreadableWorkweaveIndex ==> kind_of(v) == "unreadable-workweave-index"@,
        v is UnparseableProject ==> kind_of(v) == "unparseable-project"@,
        v is WorkweaveTreeIntegrity ==> kind_of(v) == "workweave-tree-integrity"@,
        v is Provenance ==> kind_of(v) == "provenance"@,
        v is CloneTopology ==> kind_of(v) == "clone-topology"@,
        v is BranchDiscipline ==> kind_of(v) == "branch-discipline"@,
        v is StaleWorktreeRegistration ==> kind_of(v) == "stale-worktree-registration"@,
        v is StaleOpState ==> kind_of(v) == "stale-op-state"@,
        v is DeadOpLease ==> kind_of(v) == "dead-op-lease"@,
        v is DanglingRefReceipt ==> kind_of(v) == "dangling-ref-receipt"@,
        v is PreFlatRefReceipt ==> kind_of(v) == "pre-flat-ref-receipt"@,
        v is OrphanedSavepoint ==> kind_of(v) == "orphaned-savepoint"@,
        v is ConfusableSiblings ==> kind_of(v) == "confusable-siblings"@,
        v is CargoVersionSkew ==> kind_of(v) == "cargo-version-skew"@,
        v is CargoPatchShadowing ==> kind_of(v) == "cargo-patch-shadowing"@,
        v is MissingCanonicalClone ==> kind_of(v) == "missing-canonical-clone"@,
        v is UninitializedSubmodule ==> kind_of(v) == "uninitialized-submodule"@,
        v is PhantomMergeDriver ==> kind_of(v) == "phantom-merge-driver"@,
{
}

/// What only a person can judge is never repaired unasked: staged or edited
/// files, work that no branch keeps, and everything a repair could not put
/// back.
pub proof fn live_work_is_left_alone(v: CheckViolationView)
    ensures
        v matches CheckViolationView::IndexDrift { kind, .. } ==> (repaired_unasked(v) <==> kind
            != IndexDriftKind::LiveStaged),
        v matches CheckViolationView::WorkingTreeDrift { kind, .. } ==> (repaired_unasked(v)
            <==> kind != WorkingTreeDriftKind::LiveEdits),
        v matches CheckViolationView::OrphanedSavepoint { sub_kind, .. } ==> (repaired_unasked(v)
            <==> sub_kind != OrphanedSavepointKind::Live),
        v matches CheckViolationView::BranchDiscipline { sub_kind, .. } ==> (!repaired_unasked(v)
            <==> sub_kind is SharedBranch || sub_kind is ForeignEphemeral || sub_kind is Detached
            || sub_kind is BlockedEphemeralNamespace || sub_kind is BlockedDetachedNamespace
            || sub_kind is UnbornCheckout || sub_kind is CanonicalHoldsLiveWorkweaveRef
            || sub_kind is CanonicalHoldsLeakedRef || sub_kind is CanonicalDetached
            || sub_kind is StaleEphemeralBranchLive || sub_kind is StaleEphemeralBranchUnowned),
        v matches CheckViolationView::WeaveRootIdentityConflict { sub_kind, .. } ==> (
        !repaired_unasked(v) <==> sub_kind is MarkerUnverifiable || sub_kind is Unwitnessed),
        v matches CheckViolationView::WorkweaveTreeIntegrity { sub_kind, .. } ==> (
        !repaired_unasked(v) <==> sub_kind is ParentChainAnomaly || sub_kind is UnregisteredDir
            || sub_kind is ForeignPrimary || sub_kind is ForeignPrimaryOtherWorkspace
            || sub_kind is TrackedIndex || sub_kind is UnreadableMarker || sub_kind
            is NestedWorkweaveDir || sub_kind is MisnamedDir),
        v is OrphanedClone || v is DanglingReference || v is MissingRole || v is StaleLock || v
            is IncompleteLock || v is WorkweaveDrift || v is ProjectlessDir || v is UnnameableProject
            || v is UnresolvableLockEntry || v is LegacyManifestFormat || v is UnparseableProject
            || v is Provenance || v is CloneTopology || v is StaleOpState || v is ConfusableSiblings
            || v is CargoVersionSkew || v is CargoPatchShadowing || v is MissingCanonicalClone || v
            is UninitializedSubmodule || v is PhantomMergeDriver ==> !repaired_unasked(v),
        v is ReplayExclusionUnreadable || v is MergeDriverConfigUnreadable || v is HeadUnreadable
            || v is ProjectsDirUnreadable || v is UnreadableOwnedState || v
            is UnreadableWorkweaveIndex ==> !repaired_unasked(v),
        v is MissingMergeDriverConfig || v is DanglingActiveProject || v is LegacyWorkweaveMarker
            || v is LegacyWorkweaveIndex || v is StaleWorktreeRegistration || v
            is DanglingRefReceipt || v is PreFlatRefReceipt || v is DeadOpLease || v
            is MissingReplayExclusion ==> repaired_unasked(v),
{
}

/// A detached checkout is repaired with consent alone, and each of the two
/// consents covers its own: one the checkouts of workweaves, the other the
/// canonical clones. No other finding is repaired on consent.
pub proof fn consent_covers_detached_checkouts(v: CheckViolationView)
    ensures
        consent_flag(v) == Some("--adopt-detached-checkouts"@) <==> (
        v matches CheckViolationView::BranchDiscipline { sub_kind, .. } && sub_kind is Detached),
        consent_flag(v) == Some("--reattach-checkouts"@) <==> (
        v matches CheckViolationView::BranchDiscipline { sub_kind, .. } && sub_kind
            is CanonicalDetached),
        consent_flag(v) is Some ==> !repaired_unasked(v) && v is BranchDiscipline,
        consent_flag(v) matches Some(flag) ==> flag == "--adopt-detached-checkouts"@ || flag
            == "--reattach-checkouts"@,
{
    reveal_strlit("--adopt-detached-checkouts");
    reveal_strlit("--reattach-checkouts");
    assert("--adopt-detached-checkouts"@.len() != "--reattach-checkouts"@.len());
}

/// A filter is refused exactly where one of its names is no kind of finding,
/// and the refusal names the first such.
pub proof fn unknown_kinds_are_refused(names: Seq<Seq<char>>)
    ensures
        match first_unknown(names) {
            None => forall|i: int|
                0 <= i < names.len() ==> exists|v: CheckViolationView|
                    kind_of(v) == #[trigger] names[i],
            Some(name) => exists|i: int|
                #![trigger names[i]]
                0 <= i < names.len() && names[i] == name && (forall|v: CheckViolationView|
                    #[trigger] kind_of(v) != name) && forall|k: int|
                    0 <= k < i ==> all_kinds().contains(#[trigger] names[k]),
        },
    decreases names.len(),
{
    if names.len() > 0 {
        let init = names.drop_last();
        let n = names.len() - 1;
        unknown_kinds_are_refused(init);
        kinds_are_exactly_those_of_findings(names[n]);
        match first_unknown(init) {
            Some(name) => {
                let i = choose|i: int|
                    #![trigger init[i]]
                    0 <= i < init.len() && init[i] == name && (forall|v: CheckViolationView|
                        #[trigger] kind_of(v) != name) && forall|k: int|
                        0 <= k < i ==> all_kinds().contains(#[trigger] init[k]);
                assert(names[i] == name);
                assert forall|k: int| 0 <= k < i implies all_kinds().contains(
                    #[trigger] names[k],
                ) by {
                    assert(all_kinds().contains(init[k]));
                }
            },
            None => {
                assert forall|k: int| 0 <= k < n implies exists|v: CheckViolationView|
                    kind_of(v) == #[trigger] names[k] by {
                    assert(init[k] == names[k]);
                }
                assert forall|k: int| 0 <= k < n implies all_kinds().contains(
                    #[trigger] names[k],
                ) by {
                    kinds_are_exactly_those_of_findings(names[k]);
                }
                assert(names[n] == names.last());
            },
        }
    }
}

/// A refused filter names the kind that does not exist, and lists those that do.
pub proof fn refused_filters_name_the_kind(name: Seq<char>)
    ensures
        tells(
            unknown_kind_text(name),
            seq![name].push(join_text(all_kinds(), "\n  "@)),
        ),
{
    broadcast use telling;
}

} // verus!
