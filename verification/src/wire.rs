//! Findings and issues as `rwv doctor --json` carries them.

use vstd::prelude::*;
use crate::issue::{
    Issue, IssueKind, IssueKindView, IssueView, MemberIncompatibilityView, Severity,
};
use crate::text::{join_path, joined};
use crate::violation::{
    BranchDisciplineKind, CargoSkewOccurrence, CheckViolation, CloneTopologyKind, DeadOpLeaseKind,
    DriftKind, IndexDriftKind, LeaseStamp, OpVerb, OrphanedSavepointKind, PathText, ProjectName,
    ProvenanceKind, ReplayExclusionKind, WeaveRootIdentityConflictKind, WorkingTreeDriftKind,
    WorkweaveName, WorkweaveTreeIntegrityKind,
};
use crate::violation_view::{
    BranchDisciplineKindView, CargoSkewOccurrenceView, CheckViolationView, CloneTopologyKindView,
    DeadOpLeaseKindView, LeaseStampView, OpVerbView, ProvenanceKindView,
    WeaveRootIdentityConflictKindView, WorkweaveTreeIntegrityKindView,
};
use crate::kinds::kind_of;

verus! {

/// A finding as it appears on the wire.
#[allow(inconsistent_fields)]
#[derive(Debug)]
pub enum ViolationOutput {
    OrphanedClone { path: String, absolute_path: String },
    DanglingReference { path: String, absolute_path: String, project: String },
    MissingRole { path: String, absolute_path: String, project: String },
    StaleLock {
        path: String,
        absolute_path: String,
        project: String,
        locked: String,
        actual: String,
    },
    IncompleteLock { path: String, absolute_path: String, project: String },
    WorkweaveDrift { path: String, absolute_path: String, workweave: String, sub_kind: DriftKind },
    IndexDrift {
        path: String,
        absolute_path: String,
        workweave: Option<String>,
        sub_kind: IndexDriftKind,
    },
    WorkingTreeDrift {
        path: String,
        absolute_path: String,
        workweave: Option<String>,
        sub_kind: WorkingTreeDriftKind,
    },
    MissingReplayExclusion { project: String, sub_kind: ReplayExclusionKind },
    ReplayExclusionUnreadable { project: String, error: String },
    MissingMergeDriverConfig { project: String, config_key: String },
    MergeDriverConfigUnreadable { project: String, config_key: String, error: String },
    HeadUnreadable { path: String, absolute_path: String, error: String },
    ProjectsDirUnreadable { path: String, error: String },
    ProjectlessDir { absolute_path: String },
    UnnameableProject { absolute_path: String, derived: String, error: String },
    UnresolvableLockEntry { path: String, absolute_path: String, project: String },
    LegacyManifestFormat { project: String, legacy_path: String },
    DanglingActiveProject { project: String, missing_dir: String },
    WeaveRootIdentityConflict {
        root: String,
        pointer_project: Option<String>,
        sub_kind: WeaveRootIdentityConflictKind,
    },
    LegacyWorkweaveMarker { marker_path: String, primary: String },
    LegacyWorkweaveIndex { project: String, index_path: String },
    UnreadableOwnedState { project: String, state_path: String, error: String },
    UnreadableWorkweaveIndex { project: String, index_path: String, error: String },
    UnparseableProject { project: String, manifest_path: String, message: String },
    WorkweaveTreeIntegrity { workweave_dir: String, sub_kind: WorkweaveTreeIntegrityKind },
    Provenance { path: String, absolute_path: String, project: String, sub_kind: ProvenanceKind },
    CloneTopology { path: String, absolute_path: String, sub_kind: CloneTopologyKind },
    BranchDiscipline { repo_path: String, sub_kind: BranchDisciplineKind },
    StaleWorktreeRegistration {
        path: String,
        absolute_path: String,
        workweave: Option<String>,
        missing_path: String,
    },
    StaleOpState { workspace_dir: String, verb: OpVerb, started_at: String },
    DeadOpLease {
        workspace_dir: String,
        op_id: String,
        recorded_owner: String,
        sub_kind: DeadOpLeaseKind,
        created_at: Option<String>,
    },
    DanglingRefReceipt { project: String, store_path: String, ref_name: String },
    PreFlatRefReceipt { project: String, store_path: String, ref_name: String },
    OrphanedSavepoint {
        path: String,
        absolute_path: String,
        workweave: Option<String>,
        op_id: String,
        sub_kind: OrphanedSavepointKind,
    },
    ConfusableSiblings { parent: String, first: String, second: String },
    CargoVersionSkew { crate_name: String, occurrences: Vec<CargoSkewOccurrenceOutput> },
    CargoPatchShadowing {
        weave_config: String,
        member_config: String,
        registry: String,
        crate_name: String,
    },
    MissingCanonicalClone {
        path: String,
        absolute_path: String,
        workweave: String,
        canonical_path: String,
    },
    UninitializedSubmodule {
        absolute_path: String,
        path: String,
        workweave: String,
        empty_paths: Vec<String>,
    },
    PhantomMergeDriver { path: String, absolute_path: String, pattern: String, driver: String },
}

/// One member's requirement on a skewed crate, on the wire.
#[derive(Debug, Clone)]
pub struct CargoSkewOccurrenceOutput {
    pub member: String,
    pub requirement: String,
}

/// An issue's severity on the wire.
#[derive(Debug, Clone, Copy, PartialEq, Eq, Structural)]
pub enum SeverityOutput {
    Warning,
    Error,
}

/// A member incompatibility on the wire.
#[derive(Debug, Clone)]
pub struct MemberIncompatibilityOutput {
    pub path: String,
    pub key: String,
    pub on_disk: String,
    pub required: String,
    pub required_by: String,
}

/// An issue's kind on the wire.
#[derive(Debug, Clone)]
pub enum IssueKindOutput {
    ToolMissing,
    ManagedFileMissing,
    ManagedFileDrift,
    ManagedFileUserHeld,
    Surfacing,
    ConfigRejected,
    MemberIncompatibility(MemberIncompatibilityOutput),
    DerivedStateStale,
    DisabledIntegrationArtifact,
    IntegrationFailed,
    CoreFinding,
}

/// An issue as it appears on the wire.
#[derive(Debug, Clone)]
pub struct IssueOutput {
    pub kind: IssueKindOutput,
    pub integration: String,
    pub severity: SeverityOutput,
    pub message: String,
    pub safe_to_fix: bool,
}

/// What a standing advisory is about.
#[derive(Debug, Clone, Copy, PartialEq, Eq, Structural)]
pub enum AdvisoryKindOutput {
    DerivedStateStale,
}

/// A standing condition with a named remedy and the paths that raised it.
#[derive(Debug, Clone)]
pub struct AdvisoryOutput {
    pub kind: AdvisoryKindOutput,
    pub remedy: String,
    pub inputs: Vec<String>,
}

/// An `rwv-*` executable found on the search path.
#[derive(Debug, Clone)]
pub struct PluginRecord {
    pub name: String,
    pub path: PathText,
    pub shadowed: bool,
    pub shadowed_by: Option<PathText>,
}

/// The coordinates an invocation resolved to.
#[derive(Debug, Clone)]
pub struct Resolution {
    pub workspace: PathText,
    pub workweave: Option<WorkweaveName>,
    pub project: ProjectName,
}

/// The document `rwv doctor --json` emits.
#[derive(Debug)]
pub struct DoctorJsonOutput {
    pub schema_url: String,
    pub violations: Vec<ViolationOutput>,
    pub issues: Vec<IssueOutput>,
    pub advisories: Vec<AdvisoryOutput>,
    pub plugins: Vec<PluginRecord>,
    pub resolution: Option<Resolution>,
}

/// What a [`CargoSkewOccurrenceOutput`] says.
pub struct CargoSkewOccurrenceOutputView {
    pub member: Seq<char>,
    pub requirement: Seq<char>,
}

impl DeepView for CargoSkewOccurrenceOutput {
    type V = CargoSkewOccurrenceOutputView;

    open spec fn deep_view(&self) -> CargoSkewOccurrenceOutputView {
        CargoSkewOccurrenceOutputView {
            member: self.member@,
            requirement: self.requirement@,
        }
    }
}

impl DeepView for SeverityOutput {
    type V = SeverityOutput;

    open spec fn deep_view(&self) -> SeverityOutput {
        *self
    }
}

/// What a [`MemberIncompatibilityOutput`] says.
pub struct MemberIncompatibilityOutputView {
    pub path: Seq<char>,
    pub key: Seq<char>,
    pub on_disk: Seq<char>,
    pub required: Seq<char>,
    pub required_by: Seq<char>,
}

impl DeepView for MemberIncompatibilityOutput {
    type V = MemberIncompatibilityOutputView;

    open spec fn deep_view(&self) -> MemberIncompatibilityOutputView {
        MemberIncompatibilityOutputView {
            path: self.path@,
            key: self.key@,
            on_disk: self.on_disk@,
            required: self.required@,
            required_by: self.required_by@,
        }
    }
}

/// What a [`IssueKindOutput`] says.
pub enum IssueKindOutputView {
    ToolMissing,
    ManagedFileMissing,
    ManagedFileDrift,
    ManagedFileUserHeld,
    Surfacing,
    ConfigRejected,
    MemberIncompatibility(MemberIncompatibilityOutputView),
    DerivedStateStale,
    DisabledIntegrationArtifact,
    IntegrationFailed,
    CoreFinding,
}

impl DeepView for IssueKindOutput {
    type V = IssueKindOutputView;

    open spec fn deep_view(&self) -> IssueKindOutputView {
        match *self {
            IssueKindOutput::ToolMissing => IssueKindOutputView::ToolMissing,
            IssueKindOutput::ManagedFileMissing => IssueKindOutputView::ManagedFileMissing,
            IssueKindOutput::ManagedFileDrift => IssueKindOutputView::ManagedFileDrift,
            IssueKindOutput::ManagedFileUserHeld => IssueKindOutputView::ManagedFileUserHeld,
            IssueKindOutput::Surfacing => IssueKindOutputView::Surfacing,
            IssueKindOutput::ConfigRejected => IssueKindOutputView::ConfigRejected,
            IssueKindOutput::MemberIncompatibility(x0) => IssueKindOutputView::MemberIncompatibility(x0.deep_view()),
            IssueKindOutput::DerivedStateStale => IssueKindOutputView::DerivedStateStale,
            IssueKindOutput::DisabledIntegrationArtifact => IssueKindOutputView::DisabledIntegrationArtifact,
            IssueKindOutput::IntegrationFailed => IssueKindOutputView::IntegrationFailed,
            IssueKindOutput::CoreFinding => IssueKindOutputView::CoreFinding,
        }
    }
}

/// What a [`IssueOutput`] says.
pub struct IssueOutputView {
    pub kind: IssueKindOutputView,
    pub integration: Seq<char>,
    pub severity: SeverityOutput,
    pub message: Seq<char>,
    pub safe_to_fix: bool,
}

impl DeepView for IssueOutput {
    type V = IssueOutputView;

    open spec fn deep_view(&self) -> IssueOutputView {
        IssueOutputView {
            kind: self.kind.deep_view(),
            integration: self.integration@,
            severity: self.severity,
            message: self.message@,
            safe_to_fix: self.safe_to_fix,
        }
    }
}

impl DeepView for AdvisoryKindOutput {
    type V = AdvisoryKindOutput;

    open spec fn deep_view(&self) -> AdvisoryKindOutput {
        *self
    }
}

/// What a [`AdvisoryOutput`] says.
pub struct AdvisoryOutputView {
    pub kind: AdvisoryKindOutput,
    pub remedy: Seq<char>,
    pub inputs: Seq<Seq<char>>,
}

impl DeepView for AdvisoryOutput {
    type V = AdvisoryOutputView;

    open spec fn deep_view(&self) -> AdvisoryOutputView {
        AdvisoryOutputView {
            kind: self.kind,
            remedy: self.remedy@,
            inputs: self.inputs.deep_view(),
        }
    }
}

/// What a [`PluginRecord`] says.
pub struct PluginRecordView {
    pub name: Seq<char>,
    pub path: Seq<char>,
    pub shadowed: bool,
    pub shadowed_by: Option<Seq<char>>,
}

impl DeepView for PluginRecord {
    type V = PluginRecordView;

    open spec fn deep_view(&self) -> PluginRecordView {
        PluginRecordView {
            name: self.name@,
            path: self.path@,
            shadowed: self.shadowed,
            shadowed_by: self.shadowed_by.deep_view(),
        }
    }
}

/// What a [`Resolution`] says.
pub struct ResolutionView {
    pub workspace: Seq<char>,
    pub workweave: Option<Seq<char>>,
    pub project: Seq<char>,
}

impl DeepView for Resolution {
    type V = ResolutionView;

    open spec fn deep_view(&self) -> ResolutionView {
        ResolutionView {
            workspace: self.workspace@,
            workweave: self.workweave.deep_view(),
            project: self.project@,
        }
    }
}

/// What a [`DoctorJsonOutput`] says.
pub struct DoctorJsonOutputView {
    pub schema_url: Seq<char>,
    pub violations: Seq<ViolationOutputView>,
    pub issues: Seq<IssueOutputView>,
    pub advisories: Seq<AdvisoryOutputView>,
    pub plugins: Seq<PluginRecordView>,
    pub resolution: Option<ResolutionView>,
}

impl DeepView for DoctorJsonOutput {
    type V = DoctorJsonOutputView;

    open spec fn deep_view(&self) -> DoctorJsonOutputView {
        DoctorJsonOutputView {
            schema_url: self.schema_url@,
            violations: self.violations.deep_view(),
            issues: self.issues.deep_view(),
            advisories: self.advisories.deep_view(),
            plugins: self.plugins.deep_view(),
            resolution: self.resolution.deep_view(),
        }
    }
}

/// What a [`ViolationOutput`] says.
#[allow(inconsistent_fields)]
pub enum ViolationOutputView {
    OrphanedClone { path: Seq<char>, absolute_path: Seq<char> },
    DanglingReference { path: Seq<char>, absolute_path: Seq<char>, project: Seq<char> },
    MissingRole { path: Seq<char>, absolute_path: Seq<char>, project: Seq<char> },
    StaleLock {
        path: Seq<char>,
        absolute_path: Seq<char>,
        project: Seq<char>,
        locked: Seq<char>,
        actual: Seq<char>,
    },
    IncompleteLock { path: Seq<char>, absolute_path: Seq<char>, project: Seq<char> },
    WorkweaveDrift {
        path: Seq<char>,
        absolute_path: Seq<char>,
        workweave: Seq<char>,
        sub_kind: DriftKind,
    },
    IndexDrift {
        path: Seq<char>,
        absolute_path: Seq<char>,
        workweave: Option<Seq<char>>,
        sub_kind: IndexDriftKind,
    },
    WorkingTreeDrift {
        path: Seq<char>,
        absolute_path: Seq<char>,
        workweave: Option<Seq<char>>,
        sub_kind: WorkingTreeDriftKind,
    },
    MissingReplayExclusion { project: Seq<char>, sub_kind: ReplayExclusionKind },
    ReplayExclusionUnreadable { project: Seq<char>, error: Seq<char> },
    MissingMergeDriverConfig { project: Seq<char>, config_key: Seq<char> },
    MergeDriverConfigUnreadable { project: Seq<char>, config_key: Seq<char>, error: Seq<char> },
    HeadUnreadable { path: Seq<char>, absolute_path: Seq<char>, error: Seq<char> },
    ProjectsDirUnreadable { path: Seq<char>, error: Seq<char> },
    ProjectlessDir { absolute_path: Seq<char> },
    UnnameableProject { absolute_path: Seq<char>, derived: Seq<char>, error: Seq<char> },
    UnresolvableLockEntry { path: Seq<char>, absolute_path: Seq<char>, project: Seq<char> },
    LegacyManifestFormat { project: Seq<char>, legacy_path: Seq<char> },
    DanglingActiveProject { project: Seq<char>, missing_dir: Seq<char> },
    WeaveRootIdentityConflict {
        root: Seq<char>,
        pointer_project: Option<Seq<char>>,
        sub_kind: WeaveRootIdentityConflictKindView,
    },
    LegacyWorkweaveMarker { marker_path: Seq<char>, primary: Seq<char> },
    LegacyWorkweaveIndex { project: Seq<char>, index_path: Seq<char> },
    UnreadableOwnedState { project: Seq<char>, state_path: Seq<char>, error: Seq<char> },
    UnreadableWorkweaveIndex { project: Seq<char>, index_path: Seq<char>, error: Seq<char> },
    UnparseableProject { project: Seq<char>, manifest_path: Seq<char>, message: Seq<char> },
    WorkweaveTreeIntegrity { workweave_dir: Seq<char>, sub_kind: WorkweaveTreeIntegrityKindView },
    Provenance {
        path: Seq<char>,
        absolute_path: Seq<char>,
        project: Seq<char>,
        sub_kind: ProvenanceKindView,
    },
    CloneTopology { path: Seq<char>, absolute_path: Seq<char>, sub_kind: CloneTopologyKindView },
    BranchDiscipline { repo_path: Seq<char>, sub_kind: BranchDisciplineKindView },
    StaleWorktreeRegistration {
        path: Seq<char>,
        absolute_path: Seq<char>,
        workweave: Option<Seq<char>>,
        missing_path: Seq<char>,
    },
    StaleOpState { workspace_dir: Seq<char>, verb: OpVerbView, started_at: Seq<char> },
    DeadOpLease {
        workspace_dir: Seq<char>,
        op_id: Seq<char>,
        recorded_owner: Seq<char>,
        sub_kind: DeadOpLeaseKindView,
        created_at: Option<Seq<char>>,
    },
    DanglingRefReceipt { project: Seq<char>, store_path: Seq<char>, ref_name: Seq<char> },
    PreFlatRefReceipt { project: Seq<char>, store_path: Seq<char>, ref_name: Seq<char> },
    OrphanedSavepoint {
        path: Seq<char>,
        absolute_path: Seq<char>,
        workweave: Option<Seq<char>>,
        op_id: Seq<char>,
        sub_kind: OrphanedSavepointKind,
    },
    ConfusableSiblings { parent: Seq<char>, first: Seq<char>, second: Seq<char> },
    CargoVersionSkew { crate_name: Seq<char>, occurrences: Seq<CargoSkewOccurrenceOutputView> },
    CargoPatchShadowing {
        weave_config: Seq<char>,
        member_config: Seq<char>,
        registry: Seq<char>,
        crate_name: Seq<char>,
    },
    MissingCanonicalClone {
        path: Seq<char>,
        absolute_path: Seq<char>,
        workweave: Seq<char>,
        canonical_path: Seq<char>,
    },
    UninitializedSubmodule {
        absolute_path: Seq<char>,
        path: Seq<char>,
        workweave: Seq<char>,
        empty_paths: Seq<Seq<char>>,
    },
    PhantomMergeDriver {
        path: Seq<char>,
        absolute_path: Seq<char>,
        pattern: Seq<char>,
        driver: Seq<char>,
    },
}

impl DeepView for ViolationOutput {
    type V = ViolationOutputView;

    open spec fn deep_view(&self) -> ViolationOutputView {
        match *self {
            ViolationOutput::OrphanedClone { path, absolute_path } => ViolationOutputView::OrphanedClone {
                path: path@,
                absolute_path: absolute_path@,
            },
            ViolationOutput::DanglingReference { path, absolute_path, project } => ViolationOutputView::DanglingReference {
                path: path@,
                absolute_path: absolute_path@,
                project: project@,
            },
            ViolationOutput::MissingRole { path, absolute_path, project } => ViolationOutputView::MissingRole {
                path: path@,
                absolute_path: absolute_path@,
                project: project@,
            },
            ViolationOutput::StaleLock { path, absolute_path, project, locked, actual } => ViolationOutputView::StaleLock {
                path: path@,
                absolute_path: absolute_path@,
                project: project@,
                locked: locked@,
                actual: actual@,
            },
            ViolationOutput::IncompleteLock { path, absolute_path, project } => ViolationOutputView::IncompleteLock {
                path: path@,
                absolute_path: absolute_path@,
                project: project@,
            },
            ViolationOutput::WorkweaveDrift { path, absolute_path, workweave, sub_kind } => ViolationOutputView::WorkweaveDrift {
                path: path@,
                absolute_path: absolute_path@,
                workweave: workweave@,
                sub_kind,
            },
            ViolationOutput::IndexDrift { path, absolute_path, workweave, sub_kind } => ViolationOutputView::IndexDrift {
                path: path@,
                absolute_path: absolute_path@,
                workweave: workweave.deep_view(),
                sub_kind,
            },
            ViolationOutput::WorkingTreeDrift { path, absolute_path, workweave, sub_kind } => ViolationOutputView::WorkingTreeDrift {
                path: path@,
                absolute_path: absolute_path@,
                workweave: workweave.deep_view(),
                sub_kind,
            },
            ViolationOutput::MissingReplayExclusion { project, sub_kind } => ViolationOutputView::MissingReplayExclusion {
                project: project@,
                sub_kind,
            },
            ViolationOutput::ReplayExclusionUnreadable { project, error } => ViolationOutputView::ReplayExclusionUnreadable {
                project: project@,
                error: error@,
            },
            ViolationOutput::MissingMergeDriverConfig { project, config_key } => ViolationOutputView::MissingMergeDriverConfig {
                project: project@,
                config_key: config_key@,
            },
            ViolationOutput::MergeDriverConfigUnreadable { project, config_key, error } => ViolationOutputView::MergeDriverConfigUnreadable {
                project: project@,
                config_key: config_key@,
                error: error@,
            },
            ViolationOutput::HeadUnreadable { path, absolute_path, error } => ViolationOutputView::HeadUnreadable {
                path: path@,
                absolute_path: absolute_path@,
                error: error@,
            },
            ViolationOutput::ProjectsDirUnreadable { path, error } => ViolationOutputView::ProjectsDirUnreadable {
                path: path@,
                error: error@,
            },
            ViolationOutput::ProjectlessDir { absolute_path } => ViolationOutputView::ProjectlessDir {
                absolute_path: absolute_path@,
            },
            ViolationOutput::UnnameableProject { absolute_path, derived, error } => ViolationOutputView::UnnameableProject {
                absolute_path: absolute_path@,
                derived: derived@,
                error: error@,
            },
            ViolationOutput::UnresolvableLockEntry { path, absolute_path, project } => ViolationOutputView::UnresolvableLockEntry {
                path: path@,
                absolute_path: absolute_path@,
                project: project@,
            },
            ViolationOutput::LegacyManifestFormat { project, legacy_path } => ViolationOutputView::LegacyManifestFormat {
                project: project@,
                legacy_path: legacy_path@,
            },
            ViolationOutput::DanglingActiveProject { project, missing_dir } => ViolationOutputView::DanglingActiveProject {
                project: project@,
                missing_dir: missing_dir@,
            },
            ViolationOutput::WeaveRootIdentityConflict { root, pointer_project, sub_kind } => ViolationOutputView::WeaveRootIdentityConflict {
                root: root@,
                pointer_project: pointer_project.deep_view(),
                sub_kind: sub_kind.deep_view(),
            },
            ViolationOutput::LegacyWorkweaveMarker { marker_path, primary } => ViolationOutputView::LegacyWorkweaveMarker {
                marker_path: marker_path@,
                primary: primary@,
            },
            ViolationOutput::LegacyWorkweaveIndex { project, index_path } => ViolationOutputView::LegacyWorkweaveIndex {
                project: project@,
                index_path: index_path@,
            },
            ViolationOutput::UnreadableOwnedState { project, state_path, error } => ViolationOutputView::UnreadableOwnedState {
                project: project@,
                state_path: state_path@,
                error: error@,
            },
            ViolationOutput::UnreadableWorkweaveIndex { project, index_path, error } => ViolationOutputView::UnreadableWorkweaveIndex {
                project: project@,
                index_path: index_path@,
                error: error@,
            },
            ViolationOutput::UnparseableProject { project, manifest_path, message } => ViolationOutputView::UnparseableProject {
                project: project@,
                manifest_path: manifest_path@,
                message: message@,
            },
            ViolationOutput::WorkweaveTreeIntegrity { workweave_dir, sub_kind } => ViolationOutputView::WorkweaveTreeIntegrity {
                workweave_dir: workweave_dir@,
                sub_kind: sub_kind.deep_view(),
            },
            ViolationOutput::Provenance { path, absolute_path, project, sub_kind } => ViolationOutputView::Provenance {
                path: path@,
                absolute_path: absolute_path@,
                project: project@,
                sub_kind: sub_kind.deep_view(),
            },
            ViolationOutput::CloneTopology { path, absolute_path, sub_kind } => ViolationOutputView::CloneTopology {
                path: path@,
                absolute_path: absolute_path@,
                sub_kind: sub_kind.deep_view(),
            },
            ViolationOutput::BranchDiscipline { repo_path, sub_kind } => ViolationOutputView::BranchDiscipline {
                repo_path: repo_path@,
                sub_kind: sub_kind.deep_view(),
            },
            ViolationOutput::StaleWorktreeRegistration { path, absolute_path, workweave, missing_path } => ViolationOutputView::StaleWorktreeRegistration {
                path: path@,
                absolute_path: absolute_path@,
                workweave: workweave.deep_view(),
                missing_path: missing_path@,
            },
            ViolationOutput::StaleOpState { workspace_dir, verb, started_at } => ViolationOutputView::StaleOpState {
                workspace_dir: workspace_dir@,
                verb: verb.deep_view(),
                started_at: started_at@,
            },
            ViolationOutput::DeadOpLease { workspace_dir, op_id, recorded_owner, sub_kind, created_at } => ViolationOutputView::DeadOpLease {
                workspace_dir: workspace_dir@,
                op_id: op_id@,
                recorded_owner: recorded_owner@,
                sub_kind: sub_kind.deep_view(),
                created_at: created_at.deep_view(),
            },
            ViolationOutput::DanglingRefReceipt { project, store_path, ref_name } => ViolationOutputView::DanglingRefReceipt {
                project: project@,
                store_path: store_path@,
                ref_name: ref_name@,
            },
            ViolationOutput::PreFlatRefReceipt { project, store_path, ref_name } => ViolationOutputView::PreFlatRefReceipt {
                project: project@,
                store_path: store_path@,
                ref_name: ref_name@,
            },
            ViolationOutput::OrphanedSavepoint { path, absolute_path, workweave, op_id, sub_kind } => ViolationOutputView::OrphanedSavepoint {
                path: path@,
                absolute_path: absolute_path@,
                workweave: workweave.deep_view(),
                op_id: op_id@,
                sub_kind,
            },
            ViolationOutput::ConfusableSiblings { parent, first, second } => ViolationOutputView::ConfusableSiblings {
                parent: parent@,
                first: first@,
                second: second@,
            },
            ViolationOutput::CargoVersionSkew { crate_name, occurrences } => ViolationOutputView::CargoVersionSkew {
                crate_name: crate_name@,
                occurrences: occurrences.deep_view(),
            },
            ViolationOutput::CargoPatchShadowing { weave_config, member_config, registry, crate_name } => ViolationOutputView::CargoPatchShadowing {
                weave_config: weave_config@,
                member_config: member_config@,
                registry: registry@,
                crate_name: crate_name@,
            },
            ViolationOutput::MissingCanonicalClone { path, absolute_path, workweave, canonical_path } => ViolationOutputView::MissingCanonicalClone {
                path: path@,
                absolute_path: absolute_path@,
                workweave: workweave@,
                canonical_path: canonical_path@,
            },
            ViolationOutput::UninitializedSubmodule { absolute_path, path, workweave, empty_paths } => ViolationOutputView::UninitializedSubmodule {
                absolute_path: absolute_path@,
                path: path@,
                workweave: workweave@,
                empty_paths: empty_paths.deep_view(),
            },
            ViolationOutput::PhantomMergeDriver { path, absolute_path, pattern, driver } => ViolationOutputView::PhantomMergeDriver {
                path: path@,
                absolute_path: absolute_path@,
                pattern: pattern@,
                driver: driver@,
            },
        }
    }
}

/// The directory of the workweave `name`: the first that is listed for it.
pub open spec fn dir_listed(dirs: Seq<(Seq<char>, Seq<char>)>, name: Seq<char>) -> Option<Seq<char>>
    decreases dirs.len(),
{
    if dirs.len() == 0 {
        None
    } else {
        match dir_listed(dirs.drop_last(), name) {
            Some(dir) => Some(dir),
            None => if dirs.last().0 == name {
                Some(dirs.last().1)
            } else {
                None
            },
        }
    }
}

/// The directory a finding's paths are below: its workweave's, where it names
/// one that is listed, and the workspace's otherwise.
pub open spec fn scoped_root(
    workweave: Option<Seq<char>>,
    root: Seq<char>,
    dirs: Seq<(Seq<char>, Seq<char>)>,
) -> Seq<char> {
    match workweave {
        Some(name) => match dir_listed(dirs, name) {
            Some(dir) => dir,
            None => root,
        },
        None => root,
    }
}

/// When a lease was written.
pub open spec fn stamped_at(stamp: Option<LeaseStampView>) -> Option<Seq<char>> {
    match stamp {
        Some(s) => Some(s.created_at),
        None => None,
    }
}

/// Requirements on a skewed crate, on the wire.
pub open spec fn occurrence_outputs(occurrences: Seq<CargoSkewOccurrenceView>) -> Seq<
    CargoSkewOccurrenceOutputView,
> {
    occurrences.map_values(
        |o: CargoSkewOccurrenceView|
            CargoSkewOccurrenceOutputView { member: o.member, requirement: o.requirement },
    )
}

/// What a finding is on the wire.
pub open spec fn output_of(
    v: CheckViolationView,
    root: Seq<char>,
    dirs: Seq<(Seq<char>, Seq<char>)>,
) -> ViolationOutputView {
    match v {
        CheckViolationView::OrphanedClone { path } => {
            ViolationOutputView::OrphanedClone { absolute_path: joined(root, path), path }
        },
        CheckViolationView::DanglingReference { project, repo } => {
            ViolationOutputView::DanglingReference {
                absolute_path: joined(root, repo),
                path: repo,
                project,
            }
        },
        CheckViolationView::MissingRole { project, repo } => {
            ViolationOutputView::MissingRole {
                absolute_path: joined(root, repo),
                path: repo,
                project,
            }
        },
        CheckViolationView::StaleLock { project, repo, locked, actual } => {
            ViolationOutputView::StaleLock {
                absolute_path: joined(root, repo),
                path: repo,
                project,
                locked,
                actual,
            }
        },
        CheckViolationView::IncompleteLock { project, repo } => {
            ViolationOutputView::IncompleteLock {
                absolute_path: joined(root, repo),
                path: repo,
                project,
            }
        },
        CheckViolationView::WorkweaveDrift { workweave, kind, repo } => {
            ViolationOutputView::WorkweaveDrift {
                absolute_path: joined(scoped_root(Some(workweave), root, dirs), repo),
                path: repo,
                workweave,
                sub_kind: kind,
            }
        },
        CheckViolationView::IndexDrift { workweave, repo, kind } => {
            ViolationOutputView::IndexDrift {
                absolute_path: joined(scoped_root(workweave, root, dirs), repo),
                path: repo,
                workweave,
                sub_kind: kind,
            }
        },
        CheckViolationView::WorkingTreeDrift { workweave, repo, kind } => {
            ViolationOutputView::WorkingTreeDrift {
                absolute_path: joined(scoped_root(workweave, root, dirs), repo),
                path: repo,
                workweave,
                sub_kind: kind,
            }
        },
        CheckViolationView::MissingReplayExclusion { project, sub_kind } => {
            ViolationOutputView::MissingReplayExclusion { project, sub_kind }
        },
        CheckViolationView::ReplayExclusionUnreadable { project, error } => {
            ViolationOutputView::ReplayExclusionUnreadable { project, error }
        },
        CheckViolationView::MissingMergeDriverConfig { project, config_key } => {
            ViolationOutputView::MissingMergeDriverConfig { project, config_key }
        },
        CheckViolationView::MergeDriverConfigUnreadable { project, config_key, error } => {
            ViolationOutputView::MergeDriverConfigUnreadable { project, config_key, error }
        },
        CheckViolationView::HeadUnreadable { repo, error } => {
            ViolationOutputView::HeadUnreadable {
                absolute_path: joined(root, repo),
                path: repo,
                error,
            }
        },
        CheckViolationView::ProjectsDirUnreadable { path, error } => {
            ViolationOutputView::ProjectsDirUnreadable { path, error }
        },
        CheckViolationView::ProjectlessDir { dir } => {
            ViolationOutputView::ProjectlessDir { absolute_path: dir }
        },
        CheckViolationView::UnnameableProject { dir, derived, error } => {
            ViolationOutputView::UnnameableProject { absolute_path: dir, derived, error }
        },
        CheckViolationView::UnresolvableLockEntry { project, repo } => {
            ViolationOutputView::UnresolvableLockEntry {
                absolute_path: joined(root, repo),
                path: repo,
                project,
            }
        },
        CheckViolationView::LegacyManifestFormat { project, legacy_path, .. } => {
            ViolationOutputView::LegacyManifestFormat { project, legacy_path }
        },
        CheckViolationView::DanglingActiveProject { project, missing_dir } => {
            ViolationOutputView::DanglingActiveProject { project, missing_dir }
        },
        CheckViolationView::WeaveRootIdentityConflict { root, pointer_project, sub_kind } => {
            ViolationOutputView::WeaveRootIdentityConflict { root, pointer_project, sub_kind }
        },
        CheckViolationView::LegacyWorkweaveMarker { marker_path, primary } => {
            ViolationOutputView::LegacyWorkweaveMarker { marker_path, primary }
        },
        CheckViolationView::LegacyWorkweaveIndex { project, index_path } => {
            ViolationOutputView::LegacyWorkweaveIndex { project, index_path }
        },
        CheckViolationView::UnreadableOwnedState { project, state_path, error } => {
            ViolationOutputView::UnreadableOwnedState { project, state_path, error }
        },
        CheckViolationView::UnreadableWorkweaveIndex { project, index_path, error } => {
            ViolationOutputView::UnreadableWorkweaveIndex { project, index_path, error }
        },
        CheckViolationView::UnparseableProject { project, manifest_path, message } => {
            ViolationOutputView::UnparseableProject { project, manifest_path, message }
        },
        CheckViolationView::WorkweaveTreeIntegrity { workweave_dir, sub_kind } => {
            ViolationOutputView::WorkweaveTreeIntegrity { workweave_dir, sub_kind }
        },
        CheckViolationView::Provenance { project, repo, sub_kind } => {
            ViolationOutputView::Provenance {
                absolute_path: joined(root, repo),
                path: repo,
                project,
                sub_kind,
            }
        },
        CheckViolationView::CloneTopology { workspace_path, repo, sub_kind } => {
            ViolationOutputView::CloneTopology {
                absolute_path: workspace_path,
                path: repo,
                sub_kind,
            }
        },
        CheckViolationView::BranchDiscipline { repo_path, sub_kind } => {
            ViolationOutputView::BranchDiscipline { repo_path, sub_kind }
        },
        CheckViolationView::StaleWorktreeRegistration { workweave, repo, missing_path } => {
            ViolationOutputView::StaleWorktreeRegistration {
                absolute_path: joined(scoped_root(workweave, root, dirs), repo),
                path: repo,
                workweave,
                missing_path,
            }
        },
        CheckViolationView::StaleOpState { workspace_dir: op_dir, verb, started_at } => {
            ViolationOutputView::StaleOpState { workspace_dir: op_dir, verb, started_at }
        },
        CheckViolationView::DeadOpLease {
            workspace_dir: op_dir,
            op_id,
            recorded_owner,
            sub_kind,
            created_at
        } => {
            ViolationOutputView::DeadOpLease {
                workspace_dir: op_dir,
                op_id,
                recorded_owner,
                sub_kind,
                created_at: stamped_at(created_at),
            }
        },
        CheckViolationView::DanglingRefReceipt { project, store_path, ref_name } => {
            ViolationOutputView::DanglingRefReceipt { project, store_path, ref_name }
        },
        CheckViolationView::PreFlatRefReceipt { project, store_path, ref_name } => {
            ViolationOutputView::PreFlatRefReceipt { project, store_path, ref_name }
        },
        CheckViolationView::OrphanedSavepoint { workweave, repo, op_id, sub_kind } => {
            ViolationOutputView::OrphanedSavepoint {
                absolute_path: joined(scoped_root(workweave, root, dirs), repo),
                path: repo,
                workweave,
                op_id,
                sub_kind,
            }
        },
        CheckViolationView::ConfusableSiblings { parent, first, second, .. } => {
            ViolationOutputView::ConfusableSiblings { parent, first, second }
        },
        CheckViolationView::CargoVersionSkew { crate_name, occurrences } => {
            ViolationOutputView::CargoVersionSkew {
                crate_name,
                occurrences: occurrence_outputs(occurrences),
            }
        },
        CheckViolationView::CargoPatchShadowing {
            weave_config,
            member_config,
            registry,
            crate_name
        } => {
            ViolationOutputView::CargoPatchShadowing {
                weave_config,
                member_config,
                registry,
                crate_name,
            }
        },
        CheckViolationView::MissingCanonicalClone { workweave, repo, canonical_path } => {
            ViolationOutputView::MissingCanonicalClone {
                absolute_path: joined(scoped_root(Some(workweave), root, dirs), repo),
                path: repo,
                workweave,
                canonical_path,
            }
        },
        CheckViolationView::UninitializedSubmodule { workweave, repo, empty_paths } => {
            ViolationOutputView::UninitializedSubmodule {
                absolute_path: joined(scoped_root(Some(workweave), root, dirs), repo),
                path: repo,
                workweave,
                empty_paths,
            }
        },
        CheckViolationView::PhantomMergeDriver { repo, pattern, driver } => {
            ViolationOutputView::PhantomMergeDriver {
                absolute_path: joined(root, repo),
                path: repo,
                pattern,
                driver,
            }
        },
    }
}

/// The kind tag a finding is serialized under.
pub open spec fn output_kind(o: ViolationOutputView) -> Seq<char> {
    match o {
        ViolationOutputView::OrphanedClone { .. } => "orphaned-clone"@,
        ViolationOutputView::DanglingReference { .. } => "dangling-reference"@,
        ViolationOutputView::MissingRole { .. } => "missing-role"@,
        ViolationOutputView::StaleLock { .. } => "stale-lock"@,
        ViolationOutputView::IncompleteLock { .. } => "incomplete-lock"@,
        ViolationOutputView::WorkweaveDrift { .. } => "workweave-drift"@,
        ViolationOutputView::IndexDrift { .. } => "index-drift"@,
        ViolationOutputView::WorkingTreeDrift { .. } => "working-tree-drift"@,
        ViolationOutputView::MissingReplayExclusion { .. } => "missing-replay-exclusion"@,
        ViolationOutputView::ReplayExclusionUnreadable { .. } => "replay-exclusion-unreadable"@,
        ViolationOutputView::MissingMergeDriverConfig { .. } => "missing-merge-driver-config"@,
        ViolationOutputView::MergeDriverConfigUnreadable { .. } => "merge-driver-config-unreadable"@,
        ViolationOutputView::HeadUnreadable { .. } => "head-unreadable"@,
        ViolationOutputView::ProjectsDirUnreadable { .. } => "projects-dir-unreadable"@,
        ViolationOutputView::ProjectlessDir { .. } => "projectless-dir"@,
        ViolationOutputView::UnnameableProject { .. } => "unnameable-project"@,
        ViolationOutputView::UnresolvableLockEntry { .. } => "unresolvable-lock-entry"@,
        ViolationOutputView::LegacyManifestFormat { .. } => "legacy-manifest-format"@,
        ViolationOutputView::DanglingActiveProject { .. } => "dangling-active-project"@,
        ViolationOutputView::WeaveRootIdentityConflict { .. } => "weave-root-identity-conflict"@,
        ViolationOutputView::LegacyWorkweaveMarker { .. } => "legacy-workweave-marker"@,
        ViolationOutputView::LegacyWorkweaveIndex { .. } => "legacy-workweave-index"@,
        ViolationOutputView::UnreadableOwnedState { .. } => "unreadable-owned-state"@,
        ViolationOutputView::UnreadableWorkweaveIndex { .. } => "unreadable-workweave-index"@,
        ViolationOutputView::UnparseableProject { .. } => "unparseable-project"@,
        ViolationOutputView::WorkweaveTreeIntegrity { .. } => "workweave-tree-integrity"@,
        ViolationOutputView::Provenance { .. } => "provenance"@,
        ViolationOutputView::CloneTopology { .. } => "clone-topology"@,
        ViolationOutputView::BranchDiscipline { .. } => "branch-discipline"@,
        ViolationOutputView::StaleWorktreeRegistration { .. } => "stale-worktree-registration"@,
        ViolationOutputView::StaleOpState { .. } => "stale-op-state"@,
        ViolationOutputView::DeadOpLease { .. } => "dead-op-lease"@,
        ViolationOutputView::DanglingRefReceipt { .. } => "dangling-ref-receipt"@,
        ViolationOutputView::PreFlatRefReceipt { .. } => "pre-flat-ref-receipt"@,
        ViolationOutputView::OrphanedSavepoint { .. } => "orphaned-savepoint"@,
        ViolationOutputView::ConfusableSiblings { .. } => "confusable-siblings"@,
        ViolationOutputView::CargoVersionSkew { .. } => "cargo-version-skew"@,
        ViolationOutputView::CargoPatchShadowing { .. } => "cargo-patch-shadowing"@,
        ViolationOutputView::MissingCanonicalClone { .. } => "missing-canonical-clone"@,
        ViolationOutputView::UninitializedSubmodule { .. } => "uninitialized-submodule"@,
        ViolationOutputView::PhantomMergeDriver { .. } => "phantom-merge-driver"@,
    }
}

/// The kind a finding is filtered by is the tag it is serialized under.
pub proof fn wire_form_keeps_kind(
    v: CheckViolationView,
    root: Seq<char>,
    dirs: Seq<(Seq<char>, Seq<char>)>,
)
    ensures
        output_kind(output_of(v, root, dirs)) == kind_of(v),
{
}

/// The directory of the workweave `name`, or the workspace's where none is
/// listed.
fn workweave_root(
    name: &String,
    workspace_dir: &str,
    dirs: &Vec<(WorkweaveName, PathText)>,
) -> (root: String)
    ensures
        root@ == scoped_root(Some(name@), workspace_dir@, dirs.deep_view()),
{
    let ghost all = dirs.deep_view();
    let mut i: usize = 0;
    while i < dirs.len()
        invariant
            0 <= i <= dirs.len(),
            all == dirs.deep_view(),
            dir_listed(all.take(i as int), name@) is None,
        decreases dirs.len() - i,
    {
        proof {
            assert(all.take(i as int + 1).drop_last() =~= all.take(i as int));
            assert(all.take(i as int + 1).last() == (dirs@[i as int].0@, dirs@[i as int].1@));
        }
        if dirs[i].0 == *name {
            proof {
                listed_dir_stays(all, i as int + 1, name@);
            }
            return dirs[i].1.clone();
        }
        i = i + 1;
    }
    assert(all.take(i as int) =~= all);
    workspace_dir.to_owned()
}

/// A directory found for a name stays the one listed however many follow.
proof fn listed_dir_stays(dirs: Seq<(Seq<char>, Seq<char>)>, n: int, name: Seq<char>)
    requires
        0 <= n <= dirs.len(),
        dir_listed(dirs.take(n), name) is Some,
    ensures
        dir_listed(dirs, name) == dir_listed(dirs.take(n), name),
    decreases dirs.len(),
{
    if n == dirs.len() {
        assert(dirs.take(n) =~= dirs);
    } else {
        assert(dirs.drop_last().take(n) =~= dirs.take(n));
        listed_dir_stays(dirs.drop_last(), n, name);
    }
}

/// The directory a finding's paths are below.
fn scope_of(
    workweave: &Option<WorkweaveName>,
    workspace_dir: &str,
    dirs: &Vec<(WorkweaveName, PathText)>,
) -> (root: String)
    ensures
        root@ == scoped_root(workweave.deep_view(), workspace_dir@, dirs.deep_view()),
{
    match workweave {
        Some(name) => workweave_root(name, workspace_dir, dirs),
        None => workspace_dir.to_owned(),
    }
}

/// When a lease was written, on the wire.
fn stamp_text(stamp: Option<LeaseStamp>) -> (at: Option<String>)
    ensures
        at.deep_view() == stamped_at(stamp.deep_view()),
{
    match stamp {
        Some(s) => Some(s.created_at),
        None => None,
    }
}

/// Puts requirements on a skewed crate on the wire.
fn occurrences_out(occurrences: Vec<CargoSkewOccurrence>) -> (out: Vec<CargoSkewOccurrenceOutput>)
    ensures
        out.deep_view() == occurrence_outputs(occurrences.deep_view()),
{
    let mut out: Vec<CargoSkewOccurrenceOutput> = Vec::new();
    for o in it: occurrences
        invariant
            it.seq() == occurrences@,
            out@.len() == it.index(),
            forall|k: int|
                0 <= k < out@.len() ==> (#[trigger] out@[k]).deep_view()
                    == occurrence_outputs(occurrences.deep_view())[k],
    {
        out.push(CargoSkewOccurrenceOutput { member: o.member, requirement: o.requirement });
    }
    assert(out.deep_view() =~= occurrence_outputs(occurrences.deep_view()));
    out
}

impl ViolationOutput {
    /// Puts a finding on the wire: names as they are, and each repo path
    /// beside its absolute form.
    pub fn from_violation(
        violation: CheckViolation,
        workspace_dir: &str,
        workweave_dirs: &Vec<(WorkweaveName, PathText)>,
    ) -> (output: ViolationOutput)
        ensures
            output.deep_view() == output_of(
                violation.deep_view(),
                workspace_dir@,
                workweave_dirs.deep_view(),
            ),
    {
        match violation {
            CheckViolation::OrphanedClone { path } => {
                ViolationOutput::OrphanedClone {
                    absolute_path: join_path(workspace_dir, &path),
                    path,
                }
            },
            CheckViolation::DanglingReference { project, repo } => {
                ViolationOutput::DanglingReference {
                    absolute_path: join_path(workspace_dir, &repo),
                    path: repo,
                    project,
                }
            },
            CheckViolation::MissingRole { project, repo } => {
                ViolationOutput::MissingRole {
                    absolute_path: join_path(workspace_dir, &repo),
                    path: repo,
                    project,
                }
            },
            CheckViolation::StaleLock { project, repo, locked, actual } => {
                ViolationOutput::StaleLock {
                    absolute_path: join_path(workspace_dir, &repo),
                    path: repo,
                    project,
                    locked,
                    actual,
                }
            },
            CheckViolation::IncompleteLock { project, repo } => {
                ViolationOutput::IncompleteLock {
                    absolute_path: join_path(workspace_dir, &repo),
                    path: repo,
                    project,
                }
            },
            CheckViolation::WorkweaveDrift { workweave, kind, repo } => {
                ViolationOutput::WorkweaveDrift {
                    absolute_path: join_path(&workweave_root(&workweave, workspace_dir, workweave_dirs), &repo),
                    path: repo,
                    workweave,
                    sub_kind: kind,
                }
            },
            CheckViolation::IndexDrift { workweave, repo, kind } => {
                ViolationOutput::IndexDrift {
                    absolute_path: join_path(&scope_of(&workweave, workspace_dir, workweave_dirs), &repo),
                    path: repo,
                    workweave,
                    sub_kind: kind,
                }
            },
            CheckViolation::WorkingTreeDrift { workweave, repo, kind } => {
                ViolationOutput::WorkingTreeDrift {
                    absolute_path: join_path(&scope_of(&workweave, workspace_dir, workweave_dirs), &repo),
                    path: repo,
                    workweave,
                    sub_kind: kind,
                }
            },
            CheckViolation::MissingReplayExclusion { project, sub_kind } => {
                ViolationOutput::MissingReplayExclusion { project, sub_kind }
            },
            CheckViolation::ReplayExclusionUnreadable { project, error } => {
                ViolationOutput::ReplayExclusionUnreadable { project, error }
            },
            CheckViolation::MissingMergeDriverConfig { project, config_key } => {
                ViolationOutput::MissingMergeDriverConfig { project, config_key }
            },
            CheckViolation::MergeDriverConfigUnreadable { project, config_key, error } => {
                ViolationOutput::MergeDriverConfigUnreadable { project, config_key, error }
            },
            CheckViolation::HeadUnreadable { repo, error } => {
                ViolationOutput::HeadUnreadable {
                    absolute_path: join_path(workspace_dir, &repo),
                    path: repo,
                    error,
                }
            },
            CheckViolation::ProjectsDirUnreadable { path, error } => {
                ViolationOutput::ProjectsDirUnreadable { path, error }
            },
            CheckViolation::ProjectlessDir { dir } => {
                ViolationOutput::ProjectlessDir { absolute_path: dir }
            },
            CheckViolation::UnnameableProject { dir, derived, error } => {
                ViolationOutput::UnnameableProject { absolute_path: dir, derived, error }
            },
            CheckViolation::UnresolvableLockEntry { project, repo } => {
                ViolationOutput::UnresolvableLockEntry {
                    absolute_path: join_path(workspace_dir, &repo),
                    path: repo,
                    project,
                }
            },
            CheckViolation::LegacyManifestFormat { project, legacy_path, .. } => {
                ViolationOutput::LegacyManifestFormat { project, legacy_path }
            },
            CheckViolation::DanglingActiveProject { project, missing_dir } => {
                ViolationOutput::DanglingActiveProject { project, missing_dir }
            },
            CheckViolation::WeaveRootIdentityConflict { root, pointer_project, sub_kind } => {
                ViolationOutput::WeaveRootIdentityConflict { root, pointer_project, sub_kind }
            },
            CheckViolation::LegacyWorkweaveMarker { marker_path, primary } => {
                ViolationOutput::LegacyWorkweaveMarker { marker_path, primary }
            },
            CheckViolation::LegacyWorkweaveIndex { project, index_path } => {
                ViolationOutput::LegacyWorkweaveIndex { project, index_path }
            },
            CheckViolation::UnreadableOwnedState { project, state_path, error } => {
                ViolationOutput::UnreadableOwnedState { project, state_path, error }
            },
            CheckViolation::UnreadableWorkweaveIndex { project, index_path, error } => {
                ViolationOutput::UnreadableWorkweaveIndex { project, index_path, error }
            },
            CheckViolation::UnparseableProject { project, manifest_path, message } => {
                ViolationOutput::UnparseableProject { project, manifest_path, message }
            },
            CheckViolation::WorkweaveTreeIntegrity { workweave_dir, sub_kind } => {
                ViolationOutput::WorkweaveTreeIntegrity { workweave_dir, sub_kind }
            },
            CheckViolation::Provenance { project, repo, sub_kind } => {
                ViolationOutput::Provenance {
                    absolute_path: join_path(workspace_dir, &repo),
                    path: repo,
                    project,
                    sub_kind,
                }
            },
            CheckViolation::CloneTopology { workspace_path, repo, sub_kind } => {
                ViolationOutput::CloneTopology { absolute_path: workspace_path, path: repo, sub_kind }
            },
            CheckViolation::BranchDiscipline { repo_path, sub_kind } => {
                ViolationOutput::BranchDiscipline { repo_path, sub_kind }
            },
            CheckViolation::StaleWorktreeRegistration { workweave, repo, missing_path } => {
                ViolationOutput::StaleWorktreeRegistration {
                    absolute_path: join_path(&scope_of(&workweave, workspace_dir, workweave_dirs), &repo),
                    path: repo,
                    workweave,
                    missing_path,
                }
            },
            CheckViolation::StaleOpState { workspace_dir: op_dir, verb, started_at } => {
                ViolationOutput::StaleOpState { workspace_dir: op_dir, verb, started_at }
            },
            CheckViolation::DeadOpLease {
                workspace_dir: op_dir,
                op_id,
                recorded_owner,
                sub_kind,
                created_at
            } => {
                ViolationOutput::DeadOpLease {
                    workspace_dir: op_dir,
                    op_id,
                    recorded_owner,
                    sub_kind,
                    created_at: stamp_text(created_at),
                }
            },
            CheckViolation::DanglingRefReceipt { project, store_path, ref_name } => {
                ViolationOutput::DanglingRefReceipt { project, store_path, ref_name }
            },
            CheckViolation::PreFlatRefReceipt { project, store_path, ref_name } => {
                ViolationOutput::PreFlatRefReceipt { project, store_path, ref_name }
            },
            CheckViolation::OrphanedSavepoint { workweave, repo, op_id, sub_kind } => {
                ViolationOutput::OrphanedSavepoint {
                    absolute_path: join_path(&scope_of(&workweave, workspace_dir, workweave_dirs), &repo),
                    path: repo,
                    workweave,
                    op_id,
                    sub_kind,
                }
            },
            CheckViolation::ConfusableSiblings { parent, first, second, .. } => {
                ViolationOutput::ConfusableSiblings { parent, first, second }
            },
            CheckViolation::CargoVersionSkew { crate_name, occurrences } => {
                ViolationOutput::CargoVersionSkew {
                    crate_name,
                    occurrences: occurrences_out(occurrences),
                }
            },
            CheckViolation::CargoPatchShadowing {
                weave_config,
                member_config,
                registry,
                crate_name
            } => {
                ViolationOutput::CargoPatchShadowing {
                    weave_config,
                    member_config,
                    registry,
                    crate_name,
                }
            },
            CheckViolation::MissingCanonicalClone { workweave, repo, canonical_path } => {
                ViolationOutput::MissingCanonicalClone {
                    absolute_path: join_path(&workweave_root(&workweave, workspace_dir, workweave_dirs), &repo),
                    path: repo,
                    workweave,
                    canonical_path,
                }
            },
            CheckViolation::UninitializedSubmodule { workweave, repo, empty_paths } => {
                ViolationOutput::UninitializedSubmodule {
                    absolute_path: join_path(&workweave_root(&workweave, workspace_dir, workweave_dirs), &repo),
                    path: repo,
                    workweave,
                    empty_paths,
                }
            },
            CheckViolation::PhantomMergeDriver { repo, pattern, driver } => {
                ViolationOutput::PhantomMergeDriver {
                    absolute_path: join_path(workspace_dir, &repo),
                    path: repo,
                    pattern,
                    driver,
                }
            },
        }
    }
}

/// What an issue's kind is on the wire.
pub open spec fn issue_kind_output(kind: IssueKindView) -> IssueKindOutputView {
    match kind {
        IssueKindView::ToolMissing => IssueKindOutputView::ToolMissing,
        IssueKindView::ManagedFileMissing => IssueKindOutputView::ManagedFileMissing,
        IssueKindView::ManagedFileDrift => IssueKindOutputView::ManagedFileDrift,
        IssueKindView::ManagedFileUserHeld => IssueKindOutputView::ManagedFileUserHeld,
        IssueKindView::Surfacing => IssueKindOutputView::Surfacing,
        IssueKindView::ConfigRejected => IssueKindOutputView::ConfigRejected,
        IssueKindView::MemberIncompatibility(m) => IssueKindOutputView::MemberIncompatibility(
            MemberIncompatibilityOutputView {
                path: m.path,
                key: m.key,
                on_disk: m.on_disk,
                required: m.required,
                required_by: m.required_by,
            },
        ),
        IssueKindView::DerivedStateStale => IssueKindOutputView::DerivedStateStale,
        IssueKindView::DisabledIntegrationArtifact => {
            IssueKindOutputView::DisabledIntegrationArtifact
        },
        IssueKindView::IntegrationFailed => IssueKindOutputView::IntegrationFailed,
        IssueKindView::CoreFinding => IssueKindOutputView::CoreFinding,
    }
}

/// What an issue is on the wire.
pub open spec fn issue_output(issue: IssueView) -> IssueOutputView {
    IssueOutputView {
        kind: issue_kind_output(issue.kind),
        integration: issue.integration,
        severity: if issue.severity is Error {
            SeverityOutput::Error
        } else {
            SeverityOutput::Warning
        },
        message: issue.message,
        safe_to_fix: issue.safe_to_fix,
    }
}

impl IssueKindOutput {
    /// Puts an issue's kind on the wire.
    pub fn from_kind(kind: IssueKind) -> (output: IssueKindOutput)
        ensures
            output.deep_view() == issue_kind_output(kind.deep_view()),
    {
        match kind {
            IssueKind::ToolMissing => IssueKindOutput::ToolMissing,
            IssueKind::ManagedFileMissing => IssueKindOutput::ManagedFileMissing,
            IssueKind::ManagedFileDrift => IssueKindOutput::ManagedFileDrift,
            IssueKind::ManagedFileUserHeld => IssueKindOutput::ManagedFileUserHeld,
            IssueKind::Surfacing => IssueKindOutput::Surfacing,
            IssueKind::ConfigRejected => IssueKindOutput::ConfigRejected,
            IssueKind::MemberIncompatibility(m) => IssueKindOutput::MemberIncompatibility(
                MemberIncompatibilityOutput {
                    path: m.path,
                    key: m.key,
                    on_disk: m.on_disk,
                    required: m.required,
                    required_by: m.required_by,
                },
            ),
            IssueKind::DerivedStateStale => IssueKindOutput::DerivedStateStale,
            IssueKind::DisabledIntegrationArtifact => {
                IssueKindOutput::DisabledIntegrationArtifact
            },
            IssueKind::IntegrationFailed => IssueKindOutput::IntegrationFailed,
            IssueKind::CoreFinding => IssueKindOutput::CoreFinding,
        }
    }
}

impl IssueOutput {
    /// Puts an issue on the wire.
    pub fn from_issue(issue: Issue) -> (output: IssueOutput)
        ensures
            output.deep_view() == issue_output(issue.deep_view()),
    {
        IssueOutput {
            kind: IssueKindOutput::from_kind(issue.kind),
            integration: issue.integration,
            severity: match issue.severity {
                Severity::Warning => SeverityOutput::Warning,
                Severity::Error => SeverityOutput::Error,
            },
            message: issue.message,
            safe_to_fix: issue.safe_to_fix,
        }
    }
}

/// Builds the document `rwv doctor --json` emits. Every finding and every
/// issue is carried, in order, and the rest is carried as it came.
pub fn build_doctor_json(
    schema_url: &str,
    violations: Vec<CheckViolation>,
    issues: Vec<Issue>,
    workspace_dir: &str,
    workweave_dirs: &Vec<(WorkweaveName, PathText)>,
    resolution: Option<Resolution>,
    plugins: Vec<PluginRecord>,
    advisories: Vec<AdvisoryOutput>,
) -> (document: DoctorJsonOutput)
    ensures
        document.schema_url@ == schema_url@,
        document.violations.deep_view() == violations.deep_view().map_values(
            |v: CheckViolationView| output_of(v, workspace_dir@, workweave_dirs.deep_view()),
        ),
        document.issues.deep_view() == issues.deep_view().map_values(
            |i: IssueView| issue_output(i),
        ),
        document.advisories == advisories,
        document.plugins == plugins,
        document.resolution == resolution,
{
    let ghost dirs = workweave_dirs.deep_view();
    let mut violations_out: Vec<ViolationOutput> = Vec::new();
    for v in it: violations
        invariant
            it.seq() == violations@,
            dirs == workweave_dirs.deep_view(),
            violations_out@.len() == it.index(),
            forall|k: int|
                0 <= k < violations_out@.len() ==> (#[trigger] violations_out@[k]).deep_view()
                    == output_of(violations@[k].deep_view(), workspace_dir@, dirs),
    {
        violations_out.push(ViolationOutput::from_violation(v, workspace_dir, workweave_dirs));
    }
    let mut issues_out: Vec<IssueOutput> = Vec::new();
    for i in it: issues
        invariant
            it.seq() == issues@,
            issues_out@.len() == it.index(),
            forall|k: int|
                0 <= k < issues_out@.len() ==> (#[trigger] issues_out@[k]).deep_view()
                    == issue_output(issues@[k].deep_view()),
    {
        issues_out.push(IssueOutput::from_issue(i));
    }
    proof {
        assert(violations_out.deep_view() =~= violations.deep_view().map_values(
            |v: CheckViolationView| output_of(v, workspace_dir@, dirs),
        ));
        assert(issues_out.deep_view() =~= issues.deep_view().map_values(
            |i: IssueView| issue_output(i),
        ));
    }
    DoctorJsonOutput {
        schema_url: schema_url.to_owned(),
        violations: violations_out,
        issues: issues_out,
        advisories,
        plugins,
        resolution,
    }
}

/// Requirements on a skewed crate, as the wire tells them.
pub open spec fn told_occurrences(occurrences: Seq<CargoSkewOccurrenceOutputView>) -> Seq<
    CargoSkewOccurrenceView,
> {
    occurrences.map_values(
        |o: CargoSkewOccurrenceOutputView|
            CargoSkewOccurrenceView { member: o.member, requirement: o.requirement },
    )
}

/// The finding that a record on the wire tells of, read back from its fields.
pub open spec fn told_finding(o: ViolationOutputView) -> CheckViolationView {
    match o {
        ViolationOutputView::OrphanedClone { path, .. } => {
            CheckViolationView::OrphanedClone { path }
        },
        ViolationOutputView::DanglingReference { project, path, .. } => {
            CheckViolationView::DanglingReference { project, repo: path }
        },
        ViolationOutputView::MissingRole { project, path, .. } => {
            CheckViolationView::MissingRole { project, repo: path }
        },
        ViolationOutputView::StaleLock { project, path, locked, actual, .. } => {
            CheckViolationView::StaleLock { project, repo: path, locked, actual }
        },
        ViolationOutputView::IncompleteLock { project, path, .. } => {
            CheckViolationView::IncompleteLock { project, repo: path }
        },
        ViolationOutputView::WorkweaveDrift { workweave, sub_kind, path, .. } => {
            CheckViolationView::WorkweaveDrift { workweave, kind: sub_kind, repo: path }
        },
        ViolationOutputView::IndexDrift { workweave, path, sub_kind, .. } => {
            CheckViolationView::IndexDrift { workweave, repo: path, kind: sub_kind }
        },
        ViolationOutputView::WorkingTreeDrift { workweave, path, sub_kind, .. } => {
            CheckViolationView::WorkingTreeDrift { workweave, repo: path, kind: sub_kind }
        },
        ViolationOutputView::MissingReplayExclusion { project, sub_kind } => {
            CheckViolationView::MissingReplayExclusion { project, sub_kind }
        },
        ViolationOutputView::ReplayExclusionUnreadable { project, error } => {
            CheckViolationView::ReplayExclusionUnreadable { project, error }
        },
        ViolationOutputView::MissingMergeDriverConfig { project, config_key } => {
            CheckViolationView::MissingMergeDriverConfig { project, config_key }
        },
        ViolationOutputView::MergeDriverConfigUnreadable { project, config_key, error } => {
            CheckViolationView::MergeDriverConfigUnreadable { project, config_key, error }
        },
        ViolationOutputView::HeadUnreadable { path, error, .. } => {
            CheckViolationView::HeadUnreadable { repo: path, error }
        },
        ViolationOutputView::ProjectsDirUnreadable { path, error } => {
            CheckViolationView::ProjectsDirUnreadable { path, error }
        },
        ViolationOutputView::ProjectlessDir { absolute_path } => {
            CheckViolationView::ProjectlessDir { dir: absolute_path }
        },
        ViolationOutputView::UnnameableProject { absolute_path, derived, error } => {
            CheckViolationView::UnnameableProject { dir: absolute_path, derived, error }
        },
        ViolationOutputView::UnresolvableLockEntry { project, path, .. } => {
            CheckViolationView::UnresolvableLockEntry { project, repo: path }
        },
        ViolationOutputView::LegacyManifestFormat { project, legacy_path } => {
            CheckViolationView::LegacyManifestFormat { project, legacy_path, refusal: Seq::empty() }
        },
        ViolationOutputView::DanglingActiveProject { project, missing_dir } => {
            CheckViolationView::DanglingActiveProject { project, missing_dir }
        },
        ViolationOutputView::WeaveRootIdentityConflict { root, pointer_project, sub_kind } => {
            CheckViolationView::WeaveRootIdentityConflict { root, pointer_project, sub_kind }
        },
        ViolationOutputView::LegacyWorkweaveMarker { marker_path, primary } => {
            CheckViolationView::LegacyWorkweaveMarker { marker_path, primary }
        },
        ViolationOutputView::LegacyWorkweaveIndex { project, index_path } => {
            CheckViolationView::LegacyWorkweaveIndex { project, index_path }
        },
        ViolationOutputView::UnreadableOwnedState { project, state_path, error } => {
            CheckViolationView::UnreadableOwnedState { project, state_path, error }
        },
        ViolationOutputView::UnreadableWorkweaveIndex { project, index_path, error } => {
            CheckViolationView::UnreadableWorkweaveIndex { project, index_path, error }
        },
        ViolationOutputView::UnparseableProject { project, manifest_path, message } => {
            CheckViolationView::UnparseableProject { project, manifest_path, message }
        },
        ViolationOutputView::WorkweaveTreeIntegrity { workweave_dir, sub_kind } => {
            CheckViolationView::WorkweaveTreeIntegrity { workweave_dir, sub_kind }
        },
        ViolationOutputView::Provenance { project, path, sub_kind, .. } => {
            CheckViolationView::Provenance { project, repo: path, sub_kind }
        },
        ViolationOutputView::CloneTopology { absolute_path, path, sub_kind } => {
            CheckViolationView::CloneTopology {
                workspace_path: absolute_path,
                repo: path,
                sub_kind,
            }
        },
        ViolationOutputView::BranchDiscipline { repo_path, sub_kind } => {
            CheckViolationView::BranchDiscipline { repo_path, sub_kind }
        },
        ViolationOutputView::StaleWorktreeRegistration { workweave, path, missing_path, .. } => {
            CheckViolationView::StaleWorktreeRegistration { workweave, repo: path, missing_path }
        },
        ViolationOutputView::StaleOpState { workspace_dir, verb, started_at } => {
            CheckViolationView::StaleOpState { workspace_dir, verb, started_at }
        },
        ViolationOutputView::DeadOpLease { workspace_dir, op_id, recorded_owner, sub_kind, .. } => {
            CheckViolationView::DeadOpLease {
                workspace_dir,
                op_id,
                recorded_owner,
                sub_kind,
                created_at: None,
            }
        },
        ViolationOutputView::DanglingRefReceipt { project, store_path, ref_name } => {
            CheckViolationView::DanglingRefReceipt { project, store_path, ref_name }
        },
        ViolationOutputView::PreFlatRefReceipt { project, store_path, ref_name } => {
            CheckViolationView::PreFlatRefReceipt { project, store_path, ref_name }
        },
        ViolationOutputView::OrphanedSavepoint { workweave, path, op_id, sub_kind, .. } => {
            CheckViolationView::OrphanedSavepoint { workweave, repo: path, op_id, sub_kind }
        },
        ViolationOutputView::ConfusableSiblings { parent, first, second } => {
            CheckViolationView::ConfusableSiblings { parent, first, second, warning: Seq::empty() }
        },
        ViolationOutputView::CargoVersionSkew { crate_name, occurrences } => {
            CheckViolationView::CargoVersionSkew {
                crate_name,
                occurrences: told_occurrences(occurrences),
            }
        },
        ViolationOutputView::CargoPatchShadowing {
            weave_config,
            member_config,
            registry,
            crate_name,
        } => {
            CheckViolationView::CargoPatchShadowing {
                weave_config,
                member_config,
                registry,
                crate_name,
            }
        },
        ViolationOutputView::MissingCanonicalClone { workweave, path, canonical_path, .. } => {
            CheckViolationView::MissingCanonicalClone { workweave, repo: path, canonical_path }
        },
        ViolationOutputView::UninitializedSubmodule { workweave, path, empty_paths, .. } => {
            CheckViolationView::UninitializedSubmodule { workweave, repo: path, empty_paths }
        },
        ViolationOutputView::PhantomMergeDriver { path, pattern, driver, .. } => {
            CheckViolationView::PhantomMergeDriver { repo: path, pattern, driver }
        },
    }
}

/// A finding without the wording that only the text report carries: the refusal
/// of a retired manifest, the warning of two confusable names, and a lease's
/// age.
pub open spec fn without_wording(v: CheckViolationView) -> CheckViolationView {
    match v {
        CheckViolationView::LegacyManifestFormat { project, legacy_path, .. } => {
            CheckViolationView::LegacyManifestFormat {
                project,
                legacy_path,
                refusal: Seq::empty(),
            }
        },
        CheckViolationView::ConfusableSiblings { parent, first, second, .. } => {
            CheckViolationView::ConfusableSiblings { parent, first, second, warning: Seq::empty() }
        },
        CheckViolationView::DeadOpLease { workspace_dir, op_id, recorded_owner, sub_kind, .. } => {
            CheckViolationView::DeadOpLease {
                workspace_dir,
                op_id,
                recorded_owner,
                sub_kind,
                created_at: None,
            }
        },
        _ => v,
    }
}

/// The wire loses and swaps nothing: every finding can be read back from its
/// record, field by field, wherever the workspace is.
pub proof fn findings_can_be_read_back(
    v: CheckViolationView,
    root: Seq<char>,
    dirs: Seq<(Seq<char>, Seq<char>)>,
)
    ensures
        told_finding(output_of(v, root, dirs)) == without_wording(v),
        v matches CheckViolationView::DeadOpLease { created_at, .. } ==> (output_of(v, root, dirs)
            matches ViolationOutputView::DeadOpLease { created_at: at, .. } && match created_at {
            Some(stamp) => at == Some(stamp.created_at),
            None => at is None,
        }),
{
    if let CheckViolationView::CargoVersionSkew { occurrences, .. } = v {
        assert(told_occurrences(occurrence_outputs(occurrences)) =~= occurrences);
    }
}

/// The record of a stale pin gives the finding's pin as locked and its HEAD as
/// actual, beside its repo and project.
pub proof fn stale_pins_keep_their_revisions(
    v: CheckViolationView,
    root: Seq<char>,
    dirs: Seq<(Seq<char>, Seq<char>)>,
)
    ensures
        v is StaleLock <==> output_of(v, root, dirs) is StaleLock,
        output_of(v, root, dirs) matches ViolationOutputView::StaleLock {
            path,
            project,
            locked,
            actual,
            ..
        } ==> v->StaleLock_locked == locked && v->StaleLock_actual == actual && v->StaleLock_repo
            == path && v->StaleLock_project == project,
{
}

/// The repo path of a record, and the absolute path beside it.
pub open spec fn told_paths(o: ViolationOutputView) -> Option<(Seq<char>, Seq<char>)> {
    match o {
        ViolationOutputView::OrphanedClone { path, absolute_path }
        | ViolationOutputView::DanglingReference { path, absolute_path, .. }
        | ViolationOutputView::MissingRole { path, absolute_path, .. }
        | ViolationOutputView::StaleLock { path, absolute_path, .. }
        | ViolationOutputView::IncompleteLock { path, absolute_path, .. }
        | ViolationOutputView::WorkweaveDrift { path, absolute_path, .. }
        | ViolationOutputView::IndexDrift { path, absolute_path, .. }
        | ViolationOutputView::WorkingTreeDrift { path, absolute_path, .. }
        | ViolationOutputView::HeadUnreadable { path, absolute_path, .. }
        | ViolationOutputView::UnresolvableLockEntry { path, absolute_path, .. }
        | ViolationOutputView::Provenance { path, absolute_path, .. }
        | ViolationOutputView::StaleWorktreeRegistration { path, absolute_path, .. }
        | ViolationOutputView::OrphanedSavepoint { path, absolute_path, .. }
        | ViolationOutputView::MissingCanonicalClone { path, absolute_path, .. }
        | ViolationOutputView::UninitializedSubmodule { path, absolute_path, .. }
        | ViolationOutputView::PhantomMergeDriver { path, absolute_path, .. } => {
            Some((path, absolute_path))
        },
        _ => None,
    }
}

/// The workweave that a record names.
pub open spec fn told_workweave(o: ViolationOutputView) -> Option<Seq<char>> {
    match o {
        ViolationOutputView::IndexDrift { workweave, .. }
        | ViolationOutputView::WorkingTreeDrift { workweave, .. }
        | ViolationOutputView::StaleWorktreeRegistration { workweave, .. }
        | ViolationOutputView::OrphanedSavepoint { workweave, .. } => workweave,
        ViolationOutputView::WorkweaveDrift { workweave, .. }
        | ViolationOutputView::MissingCanonicalClone { workweave, .. }
        | ViolationOutputView::UninitializedSubmodule { workweave, .. } => Some(workweave),
        _ => None,
    }
}

/// A record's absolute path is its repo path below the weave the finding is in:
/// the directory first listed for the workweave it names, and the workspace
/// where it names none, or none that is listed.
pub proof fn absolute_paths_lead_into_the_weave(
    v: CheckViolationView,
    root: Seq<char>,
    dirs: Seq<(Seq<char>, Seq<char>)>,
)
    ensures
        told_paths(output_of(v, root, dirs)) matches Some((path, absolute)) ==> match told_workweave(
            output_of(v, root, dirs),
        ) {
            None => absolute == joined(root, path),
            Some(w) => {
                ||| absolute == joined(root, path) && forall|i: int|
                    0 <= i < dirs.len() ==> (#[trigger] dirs[i]).0 != w
                ||| exists|i: int|
                    #![trigger dirs[i]]
                    0 <= i < dirs.len() && dirs[i].0 == w && absolute == joined(dirs[i].1, path)
                        && forall|j: int| 0 <= j < i ==> (#[trigger] dirs[j]).0 != w
            },
        },
{
    if let Some(w) = told_workweave(output_of(v, root, dirs)) {
        listed_dirs_are_first(dirs, w);
    }
}

proof fn listed_dirs_are_first(dirs: Seq<(Seq<char>, Seq<char>)>, name: Seq<char>)
    ensures
        match dir_listed(dirs, name) {
            None => forall|i: int| 0 <= i < dirs.len() ==> (#[trigger] dirs[i]).0 != name,
            Some(dir) => exists|i: int|
                #![trigger dirs[i]]
                0 <= i < dirs.len() && dirs[i].0 == name && dirs[i].1 == dir && forall|j: int|
                    0 <= j < i ==> (#[trigger] dirs[j]).0 != name,
        },
    decreases dirs.len(),
{
    if dirs.len() > 0 {
        let init = dirs.drop_last();
        let n = dirs.len() - 1;
        listed_dirs_are_first(init, name);
        assert forall|i: int| 0 <= i < init.len() implies (#[trigger] dirs[i]) == init[i] by {}
        match dir_listed(init, name) {
            Some(dir) => {
                let i = choose|i: int|
                    #![trigger init[i]]
                    0 <= i < init.len() && init[i].0 == name && init[i].1 == dir && forall|j: int|
                        0 <= j < i ==> (#[trigger] init[j]).0 != name;
                assert(dirs[i] == init[i]);
                assert forall|j: int| 0 <= j < i implies (#[trigger] dirs[j]).0 != name by {
                    assert(init[j].0 != name);
                }
            },
            None => {
                assert forall|j: int| 0 <= j < n implies (#[trigger] dirs[j]).0 != name by {
                    assert(init[j].0 != name);
                }
                assert(dirs[n] == dirs.last());
            },
        }
    }
}

/// The kind of an issue that the wire tells of.
pub open spec fn told_issue_kind(kind: IssueKindOutputView) -> IssueKindView {
    match kind {
        IssueKindOutputView::ToolMissing => IssueKindView::ToolMissing,
        IssueKindOutputView::ManagedFileMissing => IssueKindView::ManagedFileMissing,
        IssueKindOutputView::ManagedFileDrift => IssueKindView::ManagedFileDrift,
        IssueKindOutputView::ManagedFileUserHeld => IssueKindView::ManagedFileUserHeld,
        IssueKindOutputView::Surfacing => IssueKindView::Surfacing,
        IssueKindOutputView::ConfigRejected => IssueKindView::ConfigRejected,
        IssueKindOutputView::MemberIncompatibility(m) => IssueKindView::MemberIncompatibility(
            MemberIncompatibilityView {
                path: m.path,
                key: m.key,
                on_disk: m.on_disk,
                required: m.required,
                required_by: m.required_by,
            },
        ),
        IssueKindOutputView::DerivedStateStale => IssueKindView::DerivedStateStale,
        IssueKindOutputView::DisabledIntegrationArtifact => {
            IssueKindView::DisabledIntegrationArtifact
        },
        IssueKindOutputView::IntegrationFailed => IssueKindView::IntegrationFailed,
        IssueKindOutputView::CoreFinding => IssueKindView::CoreFinding,
    }
}

/// Every issue can be read back from its record.
pub proof fn issues_can_be_read_back(issue: IssueView)
    ensures
        ({
            let o = issue_output(issue);
            &&& told_issue_kind(o.kind) == issue.kind
            &&& o.integration == issue.integration
            &&& o.message == issue.message
            &&& o.safe_to_fix == issue.safe_to_fix
            &&& (o.severity == SeverityOutput::Error <==> issue.severity == Severity::Error)
        }),
{
}

} // verus!
