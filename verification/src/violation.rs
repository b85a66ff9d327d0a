//! The findings `rwv doctor` can raise, and what `--fix` may do about each.
//!
//! Paths, names and revisions are held as text. A path is spelled the way the
//! report shows it, with `/` between components and no trailing separator.

use vstd::prelude::*;

verus! {

/// A repository's path below a weave root, such as `github/acme/server`.
pub type RepoPath = String;

/// A project's name: its directory path below `projects/`.
pub type ProjectName = String;

/// The name of a workweave, without its project prefix.
pub type WorkweaveName = String;

/// A revision in the canonical spelling its backend resolves names to.
pub type RevisionId = String;

/// A file or directory path.
pub type PathText = String;

/// The operation an interrupted run was performing: its name on the wire and
/// the command that resumes it.
#[derive(Debug, Clone)]
pub struct OpVerb {
    pub name: String,
    pub resume_command: String,
}

/// Why a workweave marker cannot be relied on: the defect's name on the wire
/// and the sentence that refuses it.
#[derive(Debug, Clone)]
pub struct MarkerDefect {
    pub name: String,
    pub refusal: String,
}

/// When an op lease was written, and how long before the scan that was.
#[derive(Debug, Clone)]
pub struct LeaseStamp {
    pub created_at: String,
    pub elapsed: String,
}

/// One member's requirement on a crate that its siblings require differently.
#[derive(Debug, Clone)]
pub struct CargoSkewOccurrence {
    pub member: String,
    pub requirement: String,
}

/// A convention violation found in a workspace.
#[allow(inconsistent_fields)]
#[derive(Debug)]
pub enum CheckViolation {
    /// A clone on disk that no loaded project lists.
    OrphanedClone { path: RepoPath },
    /// A manifest entry with no clone on disk.
    DanglingReference { project: ProjectName, repo: RepoPath },
    /// A manifest entry without a role.
    MissingRole { project: ProjectName, repo: RepoPath },
    /// A clone whose HEAD is not the revision its lock pins.
    StaleLock { project: ProjectName, repo: RepoPath, locked: RevisionId, actual: RevisionId },
    /// A manifest entry the project's lock does not pin.
    IncompleteLock { project: ProjectName, repo: RepoPath },
    /// A workweave whose worktrees and manifest disagree.
    WorkweaveDrift { workweave: WorkweaveName, kind: DriftKind, repo: RepoPath },
    /// An index that does not match HEAD.
    IndexDrift { workweave: Option<WorkweaveName>, repo: RepoPath, kind: IndexDriftKind },
    /// Tracked files that do not match HEAD.
    WorkingTreeDrift {
        workweave: Option<WorkweaveName>,
        repo: RepoPath,
        kind: WorkingTreeDriftKind,
    },
    /// A project repo whose lock file is not excluded from replay.
    MissingReplayExclusion { project: ProjectName, sub_kind: ReplayExclusionKind },
    /// A project repo whose `.gitattributes` could not be read.
    ReplayExclusionUnreadable { project: ProjectName, error: String },
    /// A project repo without the merge driver's configuration.
    MissingMergeDriverConfig { project: ProjectName, config_key: String },
    /// A project repo whose configuration could not be read.
    MergeDriverConfigUnreadable { project: ProjectName, config_key: String, error: String },
    /// A clone whose HEAD could not be read.
    HeadUnreadable { repo: RepoPath, error: String },
    /// A `projects/` directory that exists and could not be listed.
    ProjectsDirUnreadable { path: PathText, error: String },
    /// A directory below `projects/` that holds no manifest at any depth.
    ProjectlessDir { dir: PathText },
    /// A manifest in a directory whose name is no usable project name.
    UnnameableProject { dir: PathText, derived: String, error: String },
    /// A lock entry naming a revision the clone does not know.
    UnresolvableLockEntry { project: ProjectName, repo: RepoPath },
    /// A project whose only manifest is in the retired format; `refusal` is
    /// the sentence the manifest loader refuses it with.
    LegacyManifestFormat { project: ProjectName, legacy_path: PathText, refusal: String },
    /// An active-project pointer that names a directory that is not there.
    DanglingActiveProject { project: ProjectName, missing_dir: PathText },
    /// A directory that carries both the pointer of a primary weave and the
    /// marker of a workweave.
    WeaveRootIdentityConflict {
        root: PathText,
        pointer_project: Option<ProjectName>,
        sub_kind: WeaveRootIdentityConflictKind,
    },
    /// A workweave marker in the retired format.
    LegacyWorkweaveMarker { marker_path: PathText, primary: PathText },
    /// A workweave index written before ownership receipts existed.
    LegacyWorkweaveIndex { project: ProjectName, index_path: PathText },
    /// A record of accepted generations that does not parse.
    UnreadableOwnedState { project: ProjectName, state_path: PathText, error: String },
    /// A workweave index that does not parse.
    UnreadableWorkweaveIndex { project: ProjectName, index_path: PathText, error: String },
    /// A project that failed to load.
    UnparseableProject { project: ProjectName, manifest_path: PathText, message: String },
    /// A workweave directory, marker or registry entry out of place.
    WorkweaveTreeIntegrity { workweave_dir: PathText, sub_kind: WorkweaveTreeIntegrityKind },
    /// A clone that does not match what the manifest or lock says it came from.
    Provenance { project: ProjectName, repo: RepoPath, sub_kind: ProvenanceKind },
    /// A clone or worktree attached to the wrong object store.
    CloneTopology { workspace_path: PathText, repo: RepoPath, sub_kind: CloneTopologyKind },
    /// A checkout or branch that breaks the branch-ownership rules.
    BranchDiscipline { repo_path: PathText, sub_kind: BranchDisciplineKind },
    /// A worktree registration whose directory is gone.
    StaleWorktreeRegistration {
        workweave: Option<WorkweaveName>,
        repo: RepoPath,
        missing_path: PathText,
    },
    /// An operation record left behind by an interrupted run.
    StaleOpState { workspace_dir: PathText, verb: OpVerb, started_at: String },
    /// A lease whose recorded owner no longer holds the operation.
    DeadOpLease {
        workspace_dir: PathText,
        op_id: String,
        recorded_owner: PathText,
        sub_kind: DeadOpLeaseKind,
        created_at: Option<LeaseStamp>,
    },
    /// An ownership receipt for a ref that is not there.
    DanglingRefReceipt { project: ProjectName, store_path: PathText, ref_name: String },
    /// An ownership receipt for a name of the retired nested shape.
    PreFlatRefReceipt { project: ProjectName, store_path: PathText, ref_name: String },
    /// Two entries of one directory whose names differ in letter case alone;
    /// `warning` is the sentence the workspace layer warns with.
    ConfusableSiblings { parent: String, first: String, second: String, warning: String },
    /// A savepoint no running operation refers to.
    OrphanedSavepoint {
        workweave: Option<WorkweaveName>,
        repo: RepoPath,
        op_id: String,
        sub_kind: OrphanedSavepointKind,
    },
    /// A crate the members require at differing versions.
    CargoVersionSkew { crate_name: String, occurrences: Vec<CargoSkewOccurrence> },
    /// A member's cargo configuration that defeats a weave-level patch.
    CargoPatchShadowing {
        weave_config: PathText,
        member_config: PathText,
        registry: String,
        crate_name: String,
    },
    /// A linked worktree whose object store was removed.
    MissingCanonicalClone { workweave: WorkweaveName, repo: RepoPath, canonical_path: PathText },
    /// Submodule directories that are empty on disk.
    UninitializedSubmodule { workweave: WorkweaveName, repo: RepoPath, empty_paths: Vec<String> },
    /// A merge driver in the reserved namespace that nothing defines.
    PhantomMergeDriver { repo: RepoPath, pattern: String, driver: String },
}

/// What `--fix` may do about a finding.
#[derive(Debug, Clone, Copy, PartialEq, Eq)]
pub enum FixDisposition {
    /// Repaired without further consent.
    Auto,
    /// Repaired only when the named flag was passed.
    Consented(&'static str),
    /// Never touched.
    ReportOnly,
}

/// Whether a savepoint's tip is anchored by anything else.
#[derive(Debug, Clone, Copy, PartialEq, Eq, Structural)]
pub enum OrphanedSavepointKind {
    Redundant,
    Live,
}

/// Why a lease is dead.
#[derive(Debug, Clone)]
pub enum DeadOpLeaseKind {
    /// The owner holds no operation record.
    OwnerRecordAbsent,
    /// The owner is running a different operation.
    OwnerOpIdMismatch { owner_op_id: String },
}

/// How a workweave and its manifest disagree.
#[derive(Debug, Clone, Copy, PartialEq, Eq, Structural)]
pub enum DriftKind {
    Missing,
    Extra,
}

/// How a project repo's replay exclusion falls short.
#[derive(Debug, Clone, Copy, PartialEq, Eq, Structural)]
pub enum ReplayExclusionKind {
    Absent,
    LegacySpelling,
    LegacyAlongsideCurrent,
}

/// Whether a stale index can be reset without losing staged work.
#[derive(Debug, Clone, Copy, PartialEq, Eq, Structural)]
pub enum IndexDriftKind {
    SafeToFix,
    LiveStaged,
}

/// Whether stale files can be restored without losing edits.
#[derive(Debug, Clone, Copy, PartialEq, Eq, Structural)]
pub enum WorkingTreeDriftKind {
    SafeToFix,
    LiveEdits,
}

/// What else is known about a directory that carries both a pointer and a
/// marker.
#[derive(Debug, Clone)]
pub enum WeaveRootIdentityConflictKind {
    /// The registry vouches for the marker, so the pointer is the stray.
    RegisteredWorkweave { project: String, workweave_name: String },
    /// The marker itself cannot be relied on.
    MarkerUnverifiable { marker_path: PathText, defect: MarkerDefect },
    /// Nothing outside the directory says which file is the stray.
    Unwitnessed { detail: String },
}

/// How a workweave directory, marker or registry entry is out of place.
#[allow(inconsistent_fields)]
#[derive(Debug, Clone)]
pub enum WorkweaveTreeIntegrityKind {
    DanglingParent { parent_path: PathText },
    ParentChainAnomaly { detail: String },
    UnregisteredDir,
    ForeignPrimary { marker_primary: PathText },
    ForeignPrimaryOtherWorkspace { marker_primary: PathText },
    StaleRegistryEntry {
        project: String,
        workweave_name: String,
        recorded_path: PathText,
        reason: String,
    },
    UnregisteredWorkweave { project: String, workweave_name: String },
    TrackedIndex { project: String, index_path: PathText },
    UnreadableMarker { detail: String },
    NestedWorkweaveDir { project: String, workweave_name: String, expected_dir_name: String },
    MisnamedDir { expected_dir_name: Option<String>, detail: String },
}

/// How a clone's origin differs from what is declared.
#[derive(Debug, Clone)]
pub enum ProvenanceKind {
    OriginUrlMismatch { manifest_url: String, actual_url: String, is_reference_role: bool },
    LockShaUnreachable { sha: String },
}

/// How a checkout is attached to the wrong object store.
#[derive(Debug, Clone)]
pub enum CloneTopologyKind {
    StandaloneInWorkweave { store_path: PathText },
    DisconnectedWeaveClone { weave_store_path: PathText, other_store_path: PathText },
    WrongParentWorktree { expected_store_path: PathText, actual_store_path: PathText },
    WeaveCloneIsWorktree { actual_store_path: PathText },
}

/// How a checkout or branch breaks the branch-ownership rules.
#[derive(Debug, Clone)]
pub enum BranchDisciplineKind {
    SharedBranch { actual_branch: String, expected_ref: String, recorded_ref: Option<String> },
    ForeignEphemeral { actual_branch: String, expected_ref: String, recorded_ref: Option<String> },
    Detached {
        expected_ref: String,
        recorded_ref: Option<String>,
        at_sha: String,
        legacy_branch: Option<LegacyRefAtTip>,
    },
    UnmigratedEphemeralBranch { actual_branch: String, expected_ref: String },
    BlockedEphemeralNamespace { expected_ref: String, blocking_refs: Vec<String> },
    BlockedDetachedNamespace { expected_ref: String, at_sha: String, blocking_refs: Vec<String> },
    UnrecordedEphemeralBranch { branch: String },
    UnbornCheckout { branch: String },
    CanonicalHoldsLiveWorkweaveRef { actual_branch: String, workweave_name: String },
    CanonicalHoldsLeakedRef { actual_branch: String, project: String },
    CanonicalDetached { at_sha: String, counterpart: Option<String>, reattachable: bool },
    StaleEphemeralBranchSafe { branch: String, project: String },
    StaleEphemeralBranchLive { branch: String, project: String, tip_sha: String },
    StaleEphemeralBranchUnowned { branch: String },
}

/// A retired-shape branch beside a detached checkout, and whether giving its
/// name up would strand commits.
#[derive(Debug, Clone)]
pub struct LegacyRefAtTip {
    pub branch: String,
    pub tip_sha: String,
    pub strands_commits: bool,
}

} // verus!
