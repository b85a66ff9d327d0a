//! What each finding says, as a mathematical value: the models the contracts
//! of the scans, the report and the wire format are stated over.

use vstd::prelude::*;
use crate::violation::{
    BranchDisciplineKind, CargoSkewOccurrence, CheckViolation, CloneTopologyKind, DeadOpLeaseKind,
    DriftKind, IndexDriftKind, LeaseStamp, LegacyRefAtTip, MarkerDefect, OpVerb,
    OrphanedSavepointKind, ProvenanceKind, ReplayExclusionKind, WeaveRootIdentityConflictKind,
    WorkingTreeDriftKind, WorkweaveTreeIntegrityKind,
};

verus! {

/// What a [`OpVerb`] says.
pub struct OpVerbView {
    pub name: Seq<char>,
    pub resume_command: Seq<char>,
}

impl DeepView for OpVerb {
    type V = OpVerbView;

    open spec fn deep_view(&self) -> OpVerbView {
        OpVerbView {
            name: self.name@,
            resume_command: self.resume_command@,
        }
    }
}

/// What a [`MarkerDefect`] says.
pub struct MarkerDefectView {
    pub name: Seq<char>,
    pub refusal: Seq<char>,
}

impl DeepView for MarkerDefect {
    type V = MarkerDefectView;

    open spec fn deep_view(&self) -> MarkerDefectView {
        MarkerDefectView {
            name: self.name@,
            refusal: self.refusal@,
        }
    }
}

/// What a [`LeaseStamp`] says.
pub struct LeaseStampView {
    pub created_at: Seq<char>,
    pub elapsed: Seq<char>,
}

impl DeepView for LeaseStamp {
    type V = LeaseStampView;

    open spec fn deep_view(&self) -> LeaseStampView {
        LeaseStampView {
            created_at: self.created_at@,
            elapsed: self.elapsed@,
        }
    }
}

/// What a [`CargoSkewOccurrence`] says.
pub struct CargoSkewOccurrenceView {
    pub member: Seq<char>,
    pub requirement: Seq<char>,
}

impl DeepView for CargoSkewOccurrence {
    type V = CargoSkewOccurrenceView;

    open spec fn deep_view(&self) -> CargoSkewOccurrenceView {
        CargoSkewOccurrenceView {
            member: self.member@,
            requirement: self.requirement@,
        }
    }
}

/// What a [`CheckViolation`] says.
#[allow(inconsistent_fields)]
pub enum CheckViolationView {
    OrphanedClone { path: Seq<char> },
    DanglingReference { project: Seq<char>, repo: Seq<char> },
    MissingRole { project: Seq<char>, repo: Seq<char> },
    StaleLock { project: Seq<char>, repo: Seq<char>, locked: Seq<char>, actual: Seq<char> },
    IncompleteLock { project: Seq<char>, repo: Seq<char> },
    WorkweaveDrift { workweave: Seq<char>, kind: DriftKind, repo: Seq<char> },
    IndexDrift { workweave: Option<Seq<char>>, repo: Seq<char>, kind: IndexDriftKind },
    WorkingTreeDrift { workweave: Option<Seq<char>>, repo: Seq<char>, kind: WorkingTreeDriftKind },
    MissingReplayExclusion { project: Seq<char>, sub_kind: ReplayExclusionKind },
    ReplayExclusionUnreadable { project: Seq<char>, error: Seq<char> },
    MissingMergeDriverConfig { project: Seq<char>, config_key: Seq<char> },
    MergeDriverConfigUnreadable { project: Seq<char>, config_key: Seq<char>, error: Seq<char> },
    HeadUnreadable { repo: Seq<char>, error: Seq<char> },
    ProjectsDirUnreadable { path: Seq<char>, error: Seq<char> },
    ProjectlessDir { dir: Seq<char> },
    UnnameableProject { dir: Seq<char>, derived: Seq<char>, error: Seq<char> },
    UnresolvableLockEntry { project: Seq<char>, repo: Seq<char> },
    LegacyManifestFormat { project: Seq<char>, legacy_path: Seq<char>, refusal: Seq<char> },
    DanglingActiveProject { project: Seq<char>, missing_dir: Seq<char> },
    WeaveRootIdentityConflict {
        root: Seq<char>,
        pointer_project: Option<Seq<char>>,
        sub_kind: WeaveRootIdentityConflictKindView,
    },
    LegacyWorkweaveMarker { marker_path: Seq<char>, primary: Seq<char> },
    LegacyWorkweaveIndex { project: Seq<char>, index_path: Seq<char> },
    UnreadableOwnedState { project: Seq<char>, state_path: Seq<char>, error: Seq<char> },
    UnreadableWorkweaveIndex { project: Seq<char>, index_path: Seq<char>, error: Seq<char> },
    UnparseableProject { project: Seq<char>, manifest_path: Seq<char>, message: Seq<char> },
    WorkweaveTreeIntegrity { workweave_dir: Seq<char>, sub_kind: WorkweaveTreeIntegrityKindView },
    Provenance { project: Seq<char>, repo: Seq<char>, sub_kind: ProvenanceKindView },
    CloneTopology { workspace_path: Seq<char>, repo: Seq<char>, sub_kind: CloneTopologyKindView },
    BranchDiscipline { repo_path: Seq<char>, sub_kind: BranchDisciplineKindView },
    StaleWorktreeRegistration {
        workweave: Option<Seq<char>>,
        repo: Seq<char>,
        missing_path: Seq<char>,
    },
    StaleOpState { workspace_dir: Seq<char>, verb: OpVerbView, started_at: Seq<char> },
    DeadOpLease {
        workspace_dir: Seq<char>,
        op_id: Seq<char>,
        recorded_owner: Seq<char>,
        sub_kind: DeadOpLeaseKindView,
        created_at: Option<LeaseStampView>,
    },
    DanglingRefReceipt { project: Seq<char>, store_path: Seq<char>, ref_name: Seq<char> },
    PreFlatRefReceipt { project: Seq<char>, store_path: Seq<char>, ref_name: Seq<char> },
    ConfusableSiblings {
        parent: Seq<char>,
        first: Seq<char>,
        second: Seq<char>,
        warning: Seq<char>,
    },
    OrphanedSavepoint {
        workweave: Option<Seq<char>>,
        repo: Seq<char>,
        op_id: Seq<char>,
        sub_kind: OrphanedSavepointKind,
    },
    CargoVersionSkew { crate_name: Seq<char>, occurrences: Seq<CargoSkewOccurrenceView> },
    CargoPatchShadowing {
        weave_config: Seq<char>,
        member_config: Seq<char>,
        registry: Seq<char>,
        crate_name: Seq<char>,
    },
    MissingCanonicalClone { workweave: Seq<char>, repo: Seq<char>, canonical_path: Seq<char> },
    UninitializedSubmodule { workweave: Seq<char>, repo: Seq<char>, empty_paths: Seq<Seq<char>> },
    PhantomMergeDriver { repo: Seq<char>, pattern: Seq<char>, driver: Seq<char> },
}

impl DeepView for CheckViolation {
    type V = CheckViolationView;

    open spec fn deep_view(&self) -> CheckViolationView {
        match *self {
            CheckViolation::OrphanedClone { path } => CheckViolationView::OrphanedClone {
                path: path@,
            },
            CheckViolation::DanglingReference { project, repo } => CheckViolationView::DanglingReference {
                project: project@,
                repo: repo@,
            },
            CheckViolation::MissingRole { project, repo } => CheckViolationView::MissingRole {
                project: project@,
                repo: repo@,
            },
            CheckViolation::StaleLock { project, repo, locked, actual } => CheckViolationView::StaleLock {
                project: project@,
                repo: repo@,
                locked: locked@,
                actual: actual@,
            },
            CheckViolation::IncompleteLock { project, repo } => CheckViolationView::IncompleteLock {
                project: project@,
                repo: repo@,
            },
            CheckViolation::WorkweaveDrift { workweave, kind, repo } => CheckViolationView::WorkweaveDrift {
                workweave: workweave@,
                kind,
                repo: repo@,
            },
            CheckViolation::IndexDrift { workweave, repo, kind } => CheckViolationView::IndexDrift {
                workweave: workweave.deep_view(),
                repo: repo@,
                kind,
            },
            CheckViolation::WorkingTreeDrift { workweave, repo, kind } => CheckViolationView::WorkingTreeDrift {
                workweave: workweave.deep_view(),
                repo: repo@,
                kind,
            },
            CheckViolation::MissingReplayExclusion { project, sub_kind } => CheckViolationView::MissingReplayExclusion {
                project: project@,
                sub_kind,
            },
            CheckViolation::ReplayExclusionUnreadable { project, error } => CheckViolationView::ReplayExclusionUnreadable {
                project: project@,
                error: error@,
            },
            CheckViolation::MissingMergeDriverConfig { project, config_key } => CheckViolationView::MissingMergeDriverConfig {
                project: project@,
                config_key: config_key@,
            },
            CheckViolation::MergeDriverConfigUnreadable { project, config_key, error } => CheckViolationView::MergeDriverConfigUnreadable {
                project: project@,
                config_key: config_key@,
                error: error@,
            },
            CheckViolation::HeadUnreadable { repo, error } => CheckViolationView::HeadUnreadable {
                repo: repo@,
                error: error@,
            },
            CheckViolation::ProjectsDirUnreadable { path, error } => CheckViolationView::ProjectsDirUnreadable {
                path: path@,
                error: error@,
            },
            CheckViolation::ProjectlessDir { dir } => CheckViolationView::ProjectlessDir {
                dir: dir@,
            },
            CheckViolation::UnnameableProject { dir, derived, error } => CheckViolationView::UnnameableProject {
                dir: dir@,
                derived: derived@,
                error: error@,
            },
            CheckViolation::UnresolvableLockEntry { project, repo } => CheckViolationView::UnresolvableLockEntry {
                project: project@,
                repo: repo@,
            },
            CheckViolation::LegacyManifestFormat { project, legacy_path, refusal } => CheckViolationView::LegacyManifestFormat {
                project: project@,
                legacy_path: legacy_path@,
                refusal: refusal@,
            },
            CheckViolation::DanglingActiveProject { project, missing_dir } => CheckViolationView::DanglingActiveProject {
                project: project@,
                missing_dir: missing_dir@,
            },
            CheckViolation::WeaveRootIdentityConflict { root, pointer_project, sub_kind } => CheckViolationView::WeaveRootIdentityConflict {
                root: root@,
                pointer_project: pointer_project.deep_view(),
                sub_kind: sub_kind.deep_view(),
            },
            CheckViolation::LegacyWorkweaveMarker { marker_path, primary } => CheckViolationView::LegacyWorkweaveMarker {
                marker_path: marker_path@,
                primary: primary@,
            },
            CheckViolation::LegacyWorkweaveIndex { project, index_path } => CheckViolationView::LegacyWorkweaveIndex {
                project: project@,
                index_path: index_path@,
            },
            CheckViolation::UnreadableOwnedState { project, state_path, error } => CheckViolationView::UnreadableOwnedState {
                project: project@,
                state_path: state_path@,
                error: error@,
            },
            CheckViolation::UnreadableWorkweaveIndex { project, index_path, error } => CheckViolationView::UnreadableWorkweaveIndex {
                project: project@,
                index_path: index_path@,
                error: error@,
            },
            CheckViolation::UnparseableProject { project, manifest_path, message } => CheckViolationView::UnparseableProject {
                project: project@,
                manifest_path: manifest_path@,
                message: message@,
            },
            CheckViolation::WorkweaveTreeIntegrity { workweave_dir, sub_kind } => CheckViolationView::WorkweaveTreeIntegrity {
                workweave_dir: workweave_dir@,
                sub_kind: sub_kind.deep_view(),
            },
            CheckViolation::Provenance { project, repo, sub_kind } => CheckViolationView::Provenance {
                project: project@,
                repo: repo@,
                sub_kind: sub_kind.deep_view(),
            },
            CheckViolation::CloneTopology { workspace_path, repo, sub_kind } => CheckViolationView::CloneTopology {
                workspace_path: workspace_path@,
                repo: repo@,
                sub_kind: sub_kind.deep_view(),
            },
            CheckViolation::BranchDiscipline { repo_path, sub_kind } => CheckViolationView::BranchDiscipline {
                repo_path: repo_path@,
                sub_kind: sub_kind.deep_view(),
            },
            CheckViolation::StaleWorktreeRegistration { workweave, repo, missing_path } => CheckViolationView::StaleWorktreeRegistration {
                workweave: workweave.deep_view(),
                repo: repo@,
                missing_path: missing_path@,
            },
            CheckViolation::StaleOpState { workspace_dir, verb, started_at } => CheckViolationView::StaleOpState {
                workspace_dir: workspace_dir@,
                verb: verb.deep_view(),
                started_at: started_at@,
            },
            CheckViolation::DeadOpLease { workspace_dir, op_id, recorded_owner, sub_kind, created_at } => CheckViolationView::DeadOpLease {
                workspace_dir: workspace_dir@,
                op_id: op_id@,
                recorded_owner: recorded_owner@,
                sub_kind: sub_kind.deep_view(),
                created_at: created_at.deep_view(),
            },
            CheckViolation::DanglingRefReceipt { project, store_path, ref_name } => CheckViolationView::DanglingRefReceipt {
                project: project@,
                store_path: store_path@,
                ref_name: ref_name@,
            },
            CheckViolation::PreFlatRefReceipt { project, store_path, ref_name } => CheckViolationView::PreFlatRefReceipt {
                project: project@,
                store_path: store_path@,
                ref_name: ref_name@,
            },
            CheckViolation::ConfusableSiblings { parent, first, second, warning } => CheckViolationView::ConfusableSiblings {
                parent: parent@,
                first: first@,
                second: second@,
                warning: warning@,
            },
            CheckViolation::OrphanedSavepoint { workweave, repo, op_id, sub_kind } => CheckViolationView::OrphanedSavepoint {
                workweave: workweave.deep_view(),
                repo: repo@,
                op_id: op_id@,
                sub_kind,
            },
            CheckViolation::CargoVersionSkew { crate_name, occurrences } => CheckViolationView::CargoVersionSkew {
                crate_name: crate_name@,
                occurrences: occurrences.deep_view(),
            },
            CheckViolation::CargoPatchShadowing { weave_config, member_config, registry, crate_name } => CheckViolationView::CargoPatchShadowing {
                weave_config: weave_config@,
                member_config: member_config@,
                registry: registry@,
                crate_name: crate_name@,
            },
            CheckViolation::MissingCanonicalClone { workweave, repo, canonical_path } => CheckViolationView::MissingCanonicalClone {
                workweave: workweave@,
                repo: repo@,
                canonical_path: canonical_path@,
            },
            CheckViolation::UninitializedSubmodule { workweave, repo, empty_paths } => CheckViolationView::UninitializedSubmodule {
                workweave: workweave@,
                repo: repo@,
                empty_paths: empty_paths.deep_view(),
            },
            CheckViolation::PhantomMergeDriver { repo, pattern, driver } => CheckViolationView::PhantomMergeDriver {
                repo: repo@,
                pattern: pattern@,
                driver: driver@,
            },
        }
    }
}

impl DeepView for OrphanedSavepointKind {
    type V = OrphanedSavepointKind;

    open spec fn deep_view(&self) -> OrphanedSavepointKind {
        *self
    }
}

/// What a [`DeadOpLeaseKind`] says.
pub enum DeadOpLeaseKindView {
    OwnerRecordAbsent,
    OwnerOpIdMismatch { owner_op_id: Seq<char> },
}

impl DeepView for DeadOpLeaseKind {
    type V = DeadOpLeaseKindView;

    open spec fn deep_view(&self) -> DeadOpLeaseKindView {
        match *self {
            DeadOpLeaseKind::OwnerRecordAbsent => DeadOpLeaseKindView::OwnerRecordAbsent,
            DeadOpLeaseKind::OwnerOpIdMismatch { owner_op_id } => DeadOpLeaseKindView::OwnerOpIdMismatch {
                owner_op_id: owner_op_id@,
            },
        }
    }
}

impl DeepView for DriftKind {
    type V = DriftKind;

    open spec fn deep_view(&self) -> DriftKind {
        *self
    }
}

impl DeepView for ReplayExclusionKind {
    type V = ReplayExclusionKind;

    open spec fn deep_view(&self) -> ReplayExclusionKind {
        *self
    }
}

impl DeepView for IndexDriftKind {
    type V = IndexDriftKind;

    open spec fn deep_view(&self) -> IndexDriftKind {
        *self
    }
}

impl DeepView for WorkingTreeDriftKind {
    type V = WorkingTreeDriftKind;

    open spec fn deep_view(&self) -> WorkingTreeDriftKind {
        *self
    }
}

/// What a [`WeaveRootIdentityConflictKind`] says.
pub enum WeaveRootIdentityConflictKindView {
    RegisteredWorkweave { project: Seq<char>, workweave_name: Seq<char> },
    MarkerUnverifiable { marker_path: Seq<char>, defect: MarkerDefectView },
    Unwitnessed { detail: Seq<char> },
}

impl DeepView for WeaveRootIdentityConflictKind {
    type V = WeaveRootIdentityConflictKindView;

    open spec fn deep_view(&self) -> WeaveRootIdentityConflictKindView {
        match *self {
            WeaveRootIdentityConflictKind::RegisteredWorkweave { project, workweave_name } => WeaveRootIdentityConflictKindView::RegisteredWorkweave {
                project: project@,
                workweave_name: workweave_name@,
            },
            WeaveRootIdentityConflictKind::MarkerUnverifiable { marker_path, defect } => WeaveRootIdentityConflictKindView::MarkerUnverifiable {
                marker_path: marker_path@,
                defect: defect.deep_view(),
            },
            WeaveRootIdentityConflictKind::Unwitnessed { detail } => WeaveRootIdentityConflictKindView::Unwitnessed {
                detail: detail@,
            },
        }
    }
}

/// What a [`WorkweaveTreeIntegrityKind`] says.
#[allow(inconsistent_fields)]
pub enum WorkweaveTreeIntegrityKindView {
    DanglingParent { parent_path: Seq<char> },
    ParentChainAnomaly { detail: Seq<char> },
    UnregisteredDir,
    ForeignPrimary { marker_primary: Seq<char> },
    ForeignPrimaryOtherWorkspace { marker_primary: Seq<char> },
    StaleRegistryEntry {
        project: Seq<char>,
        workweave_name: Seq<char>,
        recorded_path: Seq<char>,
        reason: Seq<char>,
    },
    UnregisteredWorkweave { project: Seq<char>, workweave_name: Seq<char> },
    TrackedIndex { project: Seq<char>, index_path: Seq<char> },
    UnreadableMarker { detail: Seq<char> },
    NestedWorkweaveDir {
        project: Seq<char>,
        workweave_name: Seq<char>,
        expected_dir_name: Seq<char>,
    },
    MisnamedDir { expected_dir_name: Option<Seq<char>>, detail: Seq<char> },
}

impl DeepView for WorkweaveTreeIntegrityKind {
    type V = WorkweaveTreeIntegrityKindView;

    open spec fn deep_view(&self) -> WorkweaveTreeIntegrityKindView {
        match *self {
            WorkweaveTreeIntegrityKind::DanglingParent { parent_path } => WorkweaveTreeIntegrityKindView::DanglingParent {
                parent_path: parent_path@,
            },
            WorkweaveTreeIntegrityKind::ParentChainAnomaly { detail } => WorkweaveTreeIntegrityKindView::ParentChainAnomaly {
                detail: detail@,
            },
            WorkweaveTreeIntegrityKind::UnregisteredDir => WorkweaveTreeIntegrityKindView::UnregisteredDir,
            WorkweaveTreeIntegrityKind::ForeignPrimary { marker_primary } => WorkweaveTreeIntegrityKindView::ForeignPrimary {
                marker_primary: marker_primary@,
            },
            WorkweaveTreeIntegrityKind::ForeignPrimaryOtherWorkspace { marker_primary } => WorkweaveTreeIntegrityKindView::ForeignPrimaryOtherWorkspace {
                marker_primary: marker_primary@,
            },
            WorkweaveTreeIntegrityKind::StaleRegistryEntry { project, workweave_name, recorded_path, reason } => WorkweaveTreeIntegrityKindView::StaleRegistryEntry {
                project: project@,
                workweave_name: workweave_name@,
                recorded_path: recorded_path@,
                reason: reason@,
            },
            WorkweaveTreeIntegrityKind::UnregisteredWorkweave { project, workweave_name } => WorkweaveTreeIntegrityKindView::UnregisteredWorkweave {
                project: project@,
                workweave_name: workweave_name@,
            },
            WorkweaveTreeIntegrityKind::TrackedIndex { project, index_path } => WorkweaveTreeIntegrityKindView::TrackedIndex {
                project: project@,
                index_path: index_path@,
            },
            WorkweaveTreeIntegrityKind::UnreadableMarker { detail } => WorkweaveTreeIntegrityKindView::UnreadableMarker {
                detail: detail@,
            },
            WorkweaveTreeIntegrityKind::NestedWorkweaveDir { project, workweave_name, expected_dir_name } => WorkweaveTreeIntegrityKindView::NestedWorkweaveDir {
                project: project@,
                workweave_name: workweave_name@,
                expected_dir_name: expected_dir_name@,
            },
            WorkweaveTreeIntegrityKind::MisnamedDir { expected_dir_name, detail } => WorkweaveTreeIntegrityKindView::MisnamedDir {
                expected_dir_name: expected_dir_name.deep_view(),
                detail: detail@,
            },
        }
    }
}

/// What a [`ProvenanceKind`] says.
pub enum ProvenanceKindView {
    OriginUrlMismatch { manifest_url: Seq<char>, actual_url: Seq<char>, is_reference_role: bool },
    LockShaUnreachable { sha: Seq<char> },
}

impl DeepView for ProvenanceKind {
    type V = ProvenanceKindView;

    open spec fn deep_view(&self) -> ProvenanceKindView {
        match *self {
            ProvenanceKind::OriginUrlMismatch { manifest_url, actual_url, is_reference_role } => ProvenanceKindView::OriginUrlMismatch {
                manifest_url: manifest_url@,
                actual_url: actual_url@,
                is_reference_role,
            },
            ProvenanceKind::LockShaUnreachable { sha } => ProvenanceKindView::LockShaUnreachable {
                sha: sha@,
            },
        }
    }
}

/// What a [`CloneTopologyKind`] says.
pub enum CloneTopologyKindView {
    StandaloneInWorkweave { store_path: Seq<char> },
    DisconnectedWeaveClone { weave_store_path: Seq<char>, other_store_path: Seq<char> },
    WrongParentWorktree { expected_store_path: Seq<char>, actual_store_path: Seq<char> },
    WeaveCloneIsWorktree { actual_store_path: Seq<char> },
}

impl DeepView for CloneTopologyKind {
    type V = CloneTopologyKindView;

    open spec fn deep_view(&self) -> CloneTopologyKindView {
        match *self {
            CloneTopologyKind::StandaloneInWorkweave { store_path } => CloneTopologyKindView::StandaloneInWorkweave {
                store_path: store_path@,
            },
            CloneTopologyKind::DisconnectedWeaveClone { weave_store_path, other_store_path } => CloneTopologyKindView::DisconnectedWeaveClone {
                weave_store_path: weave_store_path@,
                other_store_path: other_store_path@,
            },
            CloneTopologyKind::WrongParentWorktree { expected_store_path, actual_store_path } => CloneTopologyKindView::WrongParentWorktree {
                expected_store_path: expected_store_path@,
                actual_store_path: actual_store_path@,
            },
            CloneTopologyKind::WeaveCloneIsWorktree { actual_store_path } => CloneTopologyKindView::WeaveCloneIsWorktree {
                actual_store_path: actual_store_path@,
            },
        }
    }
}

/// What a [`BranchDisciplineKind`] says.
pub enum BranchDisciplineKindView {
    SharedBranch {
        actual_branch: Seq<char>,
        expected_ref: Seq<char>,
        recorded_ref: Option<Seq<char>>,
    },
    ForeignEphemeral {
        actual_branch: Seq<char>,
        expected_ref: Seq<char>,
        recorded_ref: Option<Seq<char>>,
    },
    Detached {
        expected_ref: Seq<char>,
        recorded_ref: Option<Seq<char>>,
        at_sha: Seq<char>,
        legacy_branch: Option<LegacyRefAtTipView>,
    },
    UnmigratedEphemeralBranch { actual_branch: Seq<char>, expected_ref: Seq<char> },
    BlockedEphemeralNamespace { expected_ref: Seq<char>, blocking_refs: Seq<Seq<char>> },
    BlockedDetachedNamespace {
        expected_ref: Seq<char>,
        at_sha: Seq<char>,
        blocking_refs: Seq<Seq<char>>,
    },
    UnrecordedEphemeralBranch { branch: Seq<char> },
    UnbornCheckout { branch: Seq<char> },
    CanonicalHoldsLiveWorkweaveRef { actual_branch: Seq<char>, workweave_name: Seq<char> },
    CanonicalHoldsLeakedRef { actual_branch: Seq<char>, project: Seq<char> },
    CanonicalDetached { at_sha: Seq<char>, counterpart: Option<Seq<char>>, reattachable: bool },
    StaleEphemeralBranchSafe { branch: Seq<char>, project: Seq<char> },
    StaleEphemeralBranchLive { branch: Seq<char>, project: Seq<char>, tip_sha: Seq<char> },
    StaleEphemeralBranchUnowned { branch: Seq<char> },
}

impl DeepView for BranchDisciplineKind {
    type V = BranchDisciplineKindView;

    open spec fn deep_view(&self) -> BranchDisciplineKindView {
        match *self {
            BranchDisciplineKind::SharedBranch { actual_branch, expected_ref, recorded_ref } => BranchDisciplineKindView::SharedBranch {
                actual_branch: actual_branch@,
                expected_ref: expected_ref@,
                recorded_ref: recorded_ref.deep_view(),
            },
            BranchDisciplineKind::ForeignEphemeral { actual_branch, expected_ref, recorded_ref } => BranchDisciplineKindView::ForeignEphemeral {
                actual_branch: actual_branch@,
                expected_ref: expected_ref@,
                recorded_ref: recorded_ref.deep_view(),
            },
            BranchDisciplineKind::Detached { expected_ref, recorded_ref, at_sha, legacy_branch } => BranchDisciplineKindView::Detached {
                expected_ref: expected_ref@,
                recorded_ref: recorded_ref.deep_view(),
                at_sha: at_sha@,
                legacy_branch: legacy_branch.deep_view(),
            },
            BranchDisciplineKind::UnmigratedEphemeralBranch { actual_branch, expected_ref } => BranchDisciplineKindView::UnmigratedEphemeralBranch {
                actual_branch: actual_branch@,
                expected_ref: expected_ref@,
            },
            BranchDisciplineKind::BlockedEphemeralNamespace { expected_ref, blocking_refs } => BranchDisciplineKindView::BlockedEphemeralNamespace {
                expected_ref: expected_ref@,
                blocking_refs: blocking_refs.deep_view(),
            },
            BranchDisciplineKind::BlockedDetachedNamespace { expected_ref, at_sha, blocking_refs } => BranchDisciplineKindView::BlockedDetachedNamespace {
                expected_ref: expected_ref@,
                at_sha: at_sha@,
                blocking_refs: blocking_refs.deep_view(),
            },
            BranchDisciplineKind::UnrecordedEphemeralBranch { branch } => BranchDisciplineKindView::UnrecordedEphemeralBranch {
                branch: branch@,
            },
            BranchDisciplineKind::UnbornCheckout { branch } => BranchDisciplineKindView::UnbornCheckout {
                branch: branch@,
            },
            BranchDisciplineKind::CanonicalHoldsLiveWorkweaveRef { actual_branch, workweave_name } => BranchDisciplineKindView::CanonicalHoldsLiveWorkweaveRef {
                actual_branch: actual_branch@,
                workweave_name: workweave_name@,
            },
            BranchDisciplineKind::CanonicalHoldsLeakedRef { actual_branch, project } => BranchDisciplineKindView::CanonicalHoldsLeakedRef {
                actual_branch: actual_branch@,
                project: project@,
            },
            BranchDisciplineKind::CanonicalDetached { at_sha, counterpart, reattachable } => BranchDisciplineKindView::CanonicalDetached {
                at_sha: at_sha@,
                counterpart: counterpart.deep_view(),
                reattachable,
            },
            BranchDisciplineKind::StaleEphemeralBranchSafe { branch, project } => BranchDisciplineKindView::StaleEphemeralBranchSafe {
                branch: branch@,
                project: project@,
            },
            BranchDisciplineKind::StaleEphemeralBranchLive { branch, project, tip_sha } => BranchDisciplineKindView::StaleEphemeralBranchLive {
                branch: branch@,
                project: project@,
                tip_sha: tip_sha@,
            },
            BranchDisciplineKind::StaleEphemeralBranchUnowned { branch } => BranchDisciplineKindView::StaleEphemeralBranchUnowned {
                branch: branch@,
            },
        }
    }
}

/// What a [`LegacyRefAtTip`] says.
pub struct LegacyRefAtTipView {
    pub branch: Seq<char>,
    pub tip_sha: Seq<char>,
    pub strands_commits: bool,
}

impl DeepView for LegacyRefAtTip {
    type V = LegacyRefAtTipView;

    open spec fn deep_view(&self) -> LegacyRefAtTipView {
        LegacyRefAtTipView {
            branch: self.branch@,
            tip_sha: self.tip_sha@,
            strands_commits: self.strands_commits,
        }
    }
}

} // verus!
