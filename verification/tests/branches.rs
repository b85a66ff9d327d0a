use repoweave::branches::{
    canonical_stores, legacy_ref_at_tip, looks_like_a_pre_flat_ref, refs_in_workweave_namespace,
    scan_branch_discipline, scan_canonical_stores, scan_workweave_repo_branches,
    workweave_checkouts, BranchObservation, CanonicalStore, CheckoutCandidate, CheckoutReading,
    HeadReading, ProjectRepoReading, StoreReading, TrackingSource, WorkweaveReading,
};
use repoweave::drift::{
    canonical_clone_dir, classify_drift, classify_index_drift, classify_working_tree_drift,
    locked_projects, replay_exclusion_finding, reset_index_to_head, restore_working_tree_to_head,
    run_check_locked, store_above_worktree_dir, worktree_canonical_clone_missing, Checkout,
    GitDirLink, IndexTreeState, LockedEntry, LockedProject, LockedReading, PinResolution,
    ReplayExclusionState, WorkingTreeState,
};
use repoweave::hygiene::{
    fix_state_hygiene, prune_failure, scan_state_hygiene, DeadLease, HygieneRepair, OpRecord,
    OpStateReading, RepoStateReading, SavepointReading, StateHygieneOpStateTarget,
    StateHygieneScanTarget,
};
use repoweave::model::{Manifest, Project, RepoEntry, Role, VcsType};
use repoweave::receipts::{
    claim, focused, live_minted_ref_names, live_workweave_names, mint,
    receipt_names_a_pre_flat_ref, scan_dangling_receipts, scan_pre_flat_receipts, sorted_names,
    IndexDirReading, LiveName, ProjectIndexReading, ReceiptReading, ReceiptsReading, RecordedRefs,
    TipReading, WorkweaveDirReading,
};
use repoweave::scope::{branch_discipline_in_scope, path_belongs, ScopeReading};
use repoweave::violation::{
    BranchDisciplineKind, CheckViolation, DeadOpLeaseKind, IndexDriftKind, OpVerb,
    OrphanedSavepointKind, ReplayExclusionKind, WorkingTreeDriftKind,
};

fn s(text: &str) -> String {
    text.to_owned()
}

fn texts(list: &[&str]) -> Vec<String> {
    list.iter().map(|t| s(t)).collect()
}

fn at(revision: &str) -> TipReading {
    TipReading::At { revision: s(revision) }
}

fn receipt(name: &str, tip: TipReading, merged: bool) -> ReceiptReading {
    ReceiptReading { store: s("/w/r"), name: s(name), store_is_repo: true, tip, merged }
}

fn recorded(receipts: Vec<ReceiptReading>, live: &[&str]) -> RecordedRefs {
    RecordedRefs::new(vec![ReceiptsReading {
        project: s("web"),
        receipts: Some(receipts),
        live: live.iter().map(|name| LiveName { name: s(name), usable: true }).collect(),
    }])
}

fn checkout(head: HeadReading, namespace: &[&str]) -> CheckoutReading {
    CheckoutReading {
        path: s("/c/web--a/r"),
        store: s("/w/r"),
        namespace: Some(texts(namespace)),
        head,
        legacy_tip: TipReading::At { revision: s("old") },
        legacy_carried: Some(false),
    }
}

fn attached(branch: &str) -> HeadReading {
    HeadReading::Attached { branch: s(branch) }
}

fn in_workweave(refs: &RecordedRefs, c: CheckoutReading) -> Vec<BranchDisciplineKind> {
    let w = WorkweaveReading {
        name: s("a"),
        project: Some(s("web")),
        usable: true,
        checkouts: vec![c],
    };
    let mut violations = Vec::new();
    scan_workweave_repo_branches(refs, &w, &mut violations);
    kinds(violations)
}

fn kinds(violations: Vec<CheckViolation>) -> Vec<BranchDisciplineKind> {
    violations
        .into_iter()
        .map(|v| match v {
            CheckViolation::BranchDiscipline { sub_kind, .. } => sub_kind,
            other => panic!("{other:?}"),
        })
        .collect()
}

#[test]
fn a_branch_is_minted_from_project_and_workweave() {
    assert_eq!(mint(&s("web"), &s("a")), "web--a");
    assert!(claim(&s("web--a"), &s("web--a/main")));
    assert!(!claim(&s("web--a"), &s("web--a")));
    assert!(!claim(&s("web--a"), &s("web--ab/main")));
    assert!(receipt_names_a_pre_flat_ref("web--a/main"));
    assert!(!receipt_names_a_pre_flat_ref("web--a"));
    assert!(looks_like_a_pre_flat_ref("web--a/main"));
    assert!(!looks_like_a_pre_flat_ref("feature/x"));
    assert!(!looks_like_a_pre_flat_ref("web--a"));
}

#[test]
fn a_receipted_checkout_on_its_own_branch_raises_nothing() {
    let refs = recorded(vec![receipt("web--a", at("x"), false)], &["a"]);
    assert!(in_workweave(&refs, checkout(attached("web--a"), &["web--a"])).is_empty());
}

#[test]
fn checkouts_off_their_branch_are_told_apart() {
    let refs = recorded(
        vec![receipt("web--a", at("x"), false), receipt("web--b", at("y"), false)],
        &["a", "b"],
    );
    match &in_workweave(&refs, checkout(attached("main"), &["web--a"]))[..] {
        [BranchDisciplineKind::SharedBranch { actual_branch, expected_ref, recorded_ref }] => {
            assert_eq!(actual_branch, "main");
            assert_eq!(expected_ref, "web--a");
            assert_eq!(recorded_ref.as_deref(), Some("web--a"));
        }
        other => panic!("{other:?}"),
    }
    assert!(matches!(
        &in_workweave(&refs, checkout(attached("web--b"), &["web--a"]))[..],
        [BranchDisciplineKind::ForeignEphemeral { .. }]
    ));
    assert!(matches!(
        &in_workweave(&refs, checkout(HeadReading::Unborn { branch: s("u") }, &[]))[..],
        [BranchDisciplineKind::UnbornCheckout { .. }]
    ));
    assert!(in_workweave(&refs, checkout(HeadReading::Unreadable, &[])).is_empty());
}

#[test]
fn an_unreceipted_branch_is_reported_beside_where_head_is() {
    let refs = recorded(Vec::new(), &["a"]);
    let found = in_workweave(&refs, checkout(attached("web--a"), &["web--a"]));
    assert!(matches!(
        &found[..],
        [BranchDisciplineKind::UnrecordedEphemeralBranch { branch }] if branch == "web--a"
    ));
}

#[test]
fn a_crowded_namespace_blocks_the_migration() {
    let refs = recorded(Vec::new(), &["a"]);
    let legacy = &["web--a/main", "web--a/fix"];
    match &in_workweave(&refs, checkout(attached("web--a/main"), legacy))[..] {
        [BranchDisciplineKind::BlockedEphemeralNamespace { blocking_refs, .. }] => {
            assert_eq!(*blocking_refs, texts(legacy));
        }
        other => panic!("{other:?}"),
    }
    let detached = HeadReading::Detached { at: s("h") };
    assert!(matches!(
        &in_workweave(&refs, checkout(detached, legacy))[..],
        [BranchDisciplineKind::BlockedDetachedNamespace { .. }]
    ));
    assert!(matches!(
        &in_workweave(&refs, checkout(attached("web--a/main"), &["web--a/main"]))[..],
        [BranchDisciplineKind::UnmigratedEphemeralBranch { .. }]
    ));
}

#[test]
fn a_detached_checkout_tells_of_its_older_branch() {
    let refs = recorded(Vec::new(), &["a"]);
    let detached = HeadReading::Detached { at: s("h") };
    match &in_workweave(&refs, checkout(detached, &["web--a/main"]))[..] {
        [BranchDisciplineKind::Detached { at_sha, legacy_branch: Some(legacy), .. }] => {
            assert_eq!(at_sha, "h");
            assert_eq!(legacy.branch, "web--a/main");
            assert_eq!(legacy.tip_sha, "old");
            assert!(legacy.strands_commits);
        }
        other => panic!("{other:?}"),
    }
    let gone = legacy_ref_at_tip(&s("b"), &TipReading::Absent, None);
    assert_eq!((gone.tip_sha.as_str(), gone.strands_commits), ("", false));
    let unreadable = legacy_ref_at_tip(&s("b"), &TipReading::Unreadable, None);
    assert_eq!((unreadable.tip_sha.as_str(), unreadable.strands_commits), ("", true));
    let at = TipReading::At { revision: s("t") };
    assert!(legacy_ref_at_tip(&s("b"), &at, None).strands_commits);
    assert!(legacy_ref_at_tip(&s("b"), &at, Some(false)).strands_commits);
    assert!(!legacy_ref_at_tip(&s("b"), &at, Some(true)).strands_commits);
}

#[test]
fn a_namespace_holds_the_flat_branch_and_the_older_ones() {
    let observed = Some(texts(&["web--a", "web--a/x", "web--ab", "web--a/y"]));
    assert_eq!(
        refs_in_workweave_namespace(&s("web--a"), &observed),
        (true, texts(&["web--a/x", "web--a/y"]))
    );
    assert_eq!(refs_in_workweave_namespace(&s("web--a"), &None), (false, Vec::new()));
}

#[test]
fn checkouts_are_the_directories_that_are_no_aliases() {
    let candidate = |path: &str, is_dir, is_alias| CheckoutCandidate { path: s(path), is_dir, is_alias };
    let paths = workweave_checkouts(
        vec![candidate("/a", true, false), candidate("/b", true, true), candidate("/c", false, false)],
        candidate("/p", true, false),
    );
    assert_eq!(paths, texts(&["/a", "/p"]));
}

fn store(tracking: TrackingSource, head: HeadReading, tip: TipReading) -> StoreReading {
    StoreReading {
        store: CanonicalStore { path: s("/w/r"), tracking },
        remote_default: Some(s("trunk")),
        head,
        counterpart_tip: tip,
        held: Some(Vec::new()),
        branches: Some(Vec::new()),
    }
}

fn in_store(refs: &RecordedRefs, live: &[&str], r: StoreReading) -> Vec<BranchDisciplineKind> {
    let mut violations = Vec::new();
    scan_canonical_stores(refs, &texts(live), &vec![r], &mut violations);
    kinds(violations)
}

#[test]
fn a_detached_store_says_whether_it_can_go_back() {
    let refs = recorded(Vec::new(), &[]);
    let detached = || HeadReading::Detached { at: s("h") };
    let declared = || TrackingSource::Declared { local: s("main") };
    let told = |tracking, tip| match &in_store(&refs, &[], store(tracking, detached(), tip))[..] {
        [BranchDisciplineKind::CanonicalDetached { counterpart, reattachable, .. }] => {
            (counterpart.clone(), *reattachable)
        }
        other => panic!("{other:?}"),
    };
    assert_eq!(told(declared(), at("h")), (Some(s("main")), true));
    assert_eq!(told(declared(), at("x")), (Some(s("main")), false));
    assert_eq!(told(declared(), TipReading::Absent), (Some(s("main")), false));
    assert_eq!(told(TrackingSource::RemoteDefault, at("h")), (Some(s("trunk")), true));
    assert_eq!(told(TrackingSource::Unresolvable, at("h")), (None, false));
}

#[test]
fn a_store_on_a_receipted_branch_is_reported() {
    let refs = recorded(vec![receipt("web--a", at("x"), false)], &["a"]);
    let on = |branch: &str| {
        store(TrackingSource::Unresolvable, attached(branch), TipReading::Absent)
    };
    assert!(matches!(
        &in_store(&refs, &[], on("web--a"))[..],
        [BranchDisciplineKind::CanonicalHoldsLiveWorkweaveRef { workweave_name, .. }]
            if workweave_name == "a"
    ));
    assert!(in_store(&refs, &[], on("main")).is_empty());
    let leaked = recorded(vec![receipt("web--a", at("x"), false)], &[]);
    let found = in_store(&leaked, &[], on("web--a"));
    assert!(matches!(found[0], BranchDisciplineKind::CanonicalHoldsLeakedRef { .. }));
    assert!(matches!(found[1], BranchDisciplineKind::StaleEphemeralBranchLive { .. }));
}

#[test]
fn stale_branches_are_safe_only_with_receipt_and_merge() {
    let of = |merged, tip| {
        let refs = recorded(vec![receipt("web--gone", tip, merged)], &[]);
        in_store(&refs, &[], store(TrackingSource::Unresolvable, attached("main"), TipReading::Absent))
    };
    assert!(matches!(&of(true, at("x"))[..], [BranchDisciplineKind::StaleEphemeralBranchSafe { .. }]));
    match &of(false, at("x"))[..] {
        [BranchDisciplineKind::StaleEphemeralBranchLive { tip_sha, .. }] => assert_eq!(tip_sha, "x"),
        other => panic!("{other:?}"),
    }
    assert!(of(true, TipReading::Absent).is_empty());
    assert!(of(true, TipReading::Unreadable).is_empty());
}

#[test]
fn branches_in_use_or_claimed_are_not_stale() {
    let with = |held: &[&str], branches: &[&str], live: &[&str]| {
        let refs = recorded(vec![receipt("web--gone", at("x"), true)], &[]);
        let mut r = store(TrackingSource::Unresolvable, attached("main"), TipReading::Absent);
        r.held = Some(texts(held));
        r.branches = Some(texts(branches));
        in_store(&refs, live, r)
    };
    assert!(with(&["web--gone"], &[], &[]).is_empty());
    let found = with(&["web--gone"], &["web--x/main", "main", "web--gone"], &[]);
    assert!(matches!(
        &found[..],
        [BranchDisciplineKind::StaleEphemeralBranchUnowned { branch }] if branch == "web--x/main"
    ));
    assert!(with(&["web--gone"], &["web--x/main"], &["web--x"]).is_empty());
    assert!(with(&["web--gone", "web--x/main"], &["web--x/main"], &[]).is_empty());
}

#[test]
fn an_unlistable_store_is_passed_over() {
    let refs = recorded(vec![receipt("web--gone", at("x"), true)], &[]);
    let mut r = store(TrackingSource::Unresolvable, attached("main"), TipReading::Absent);
    r.held = None;
    r.branches = Some(texts(&["web--x/main"]));
    assert!(in_store(&refs, &[], r).is_empty());
    let unreadable = store(TrackingSource::Unresolvable, HeadReading::Unreadable, at("h"));
    assert!(in_store(&refs, &[], unreadable).is_empty());
}

#[test]
fn stores_track_what_every_manifest_agrees_on() {
    let entry = |version: &str| RepoEntry {
        vcs_type: VcsType::Git,
        url: s("u"),
        version: s(version),
        role: Role::Owned,
    };
    let project = |name: &str, version: &str| Project {
        name: s(name),
        manifest: Manifest { repositories: vec![(s("r"), entry(version)), (s("q"), entry("main"))] },
        lock: None,
    };
    let stores = canonical_stores(
        &s("/w"),
        &vec![project("web", "main"), project("api", "dev")],
        &texts(&["q", "r", "z"]),
        &vec![(s("main"), s("main")), (s("dev"), s("dev"))],
        &vec![
            ProjectRepoReading { path: s("/w/projects/web"), is_repo: true },
            ProjectRepoReading { path: s("/w/projects/api"), is_repo: false },
        ],
    );
    let told: Vec<(String, String)> =
        stores.iter().map(|c| (c.path.clone(), format!("{:?}", c.tracking))).collect();
    assert_eq!(
        told,
        vec![
            (s("/w/q"), s("Declared { local: \"main\" }")),
            (s("/w/r"), s("Unresolvable")),
            (s("/w/z"), s("Unresolvable")),
            (s("/w/projects/web"), s("RemoteDefault")),
        ]
    );
}

#[test]
fn live_names_come_from_markers_and_indexes() {
    let dirs = vec![
        WorkweaveDirReading { name: s("b"), usable: true, marker_project: Some(s("web")) },
        WorkweaveDirReading { name: s("x"), usable: true, marker_project: Some(s("api")) },
        WorkweaveDirReading { name: s("n"), usable: true, marker_project: None },
    ];
    let entries = vec![
        IndexDirReading { name: s("a"), usable: true, is_dir: true },
        IndexDirReading { name: s("b"), usable: true, is_dir: true },
        IndexDirReading { name: s("gone"), usable: true, is_dir: false },
    ];
    assert_eq!(live_workweave_names(&s("web"), &dirs, &entries), texts(&["a", "b"]));
    let minted = live_minted_ref_names(
        &dirs,
        &vec![ProjectIndexReading { project: s("web"), entries }],
    );
    assert_eq!(minted, texts(&["web--b", "api--x", "web--a", "web--b"]));
    assert_eq!(sorted_names(texts(&["b", "a", "ab"])), texts(&["a", "ab", "b"]));
    assert!(focused(&None, &s("web")));
    assert!(!focused(&Some(s("api")), &s("web")));
}

#[test]
fn names_that_are_not_usable_keep_no_branch_alive() {
    let refs = |usable| {
        RecordedRefs::new(vec![ReceiptsReading {
            project: s("web"),
            receipts: Some(vec![receipt("web--a b", at("x"), true)]),
            live: vec![LiveName { name: s("a b"), usable }],
        }])
    };
    assert!(refs(true).mints_for_a_live_workweave(&s("web"), &s("web--a b")));
    assert!(!refs(false).mints_for_a_live_workweave(&s("web"), &s("web--a b")));
    assert_eq!(refs(true).for_store(&s("/w/r"))[0].live_workweave, Some(&s("a b")));
    assert_eq!(refs(false).for_store(&s("/w/r"))[0].live_workweave, None);
}

#[test]
fn receipts_dangle_where_their_branch_is_absent() {
    let reading = |project: &str| ReceiptsReading {
        project: s(project),
        receipts: Some(vec![
            receipt("gone", TipReading::Absent, false),
            receipt("there", at("x"), false),
            receipt("torn", TipReading::Unreadable, false),
        ]),
        live: Vec::new(),
    };
    let readings = vec![reading("web"), reading("api")];
    assert_eq!(scan_dangling_receipts(&readings, &None).len(), 2);
    match &scan_dangling_receipts(&readings, &Some(s("api")))[..] {
        [CheckViolation::DanglingRefReceipt { project, store_path, ref_name }] => {
            assert_eq!((project.as_str(), store_path.as_str(), ref_name.as_str()), ("api", "/w/r", "gone"));
        }
        other => panic!("{other:?}"),
    }
}

#[test]
fn segmented_receipts_are_reported_unless_a_workweave_mints_them() {
    let refs = recorded(
        vec![receipt("web--a/main", at("x"), false), receipt("web--b", at("x"), false)],
        &["a", "b"],
    );
    match &scan_pre_flat_receipts(&refs, &None)[..] {
        [CheckViolation::PreFlatRefReceipt { ref_name, .. }] => assert_eq!(ref_name, "web--a/main"),
        other => panic!("{other:?}"),
    }
    assert!(scan_pre_flat_receipts(&refs, &Some(s("api"))).is_empty());
    let minted = recorded(vec![receipt("web--a/main", at("x"), false)], &["a/main"]);
    assert!(minted.mints_for_a_live_workweave(&s("web"), &s("web--a/main")));
    assert!(scan_pre_flat_receipts(&minted, &None).is_empty());
}

#[test]
fn workweaves_come_before_stores() {
    let o = BranchObservation {
        recorded: recorded(Vec::new(), &[]),
        workweaves: vec![
            WorkweaveReading {
                name: s("a"),
                project: Some(s("web")),
                usable: true,
                checkouts: vec![checkout(attached("main"), &[])],
            },
            WorkweaveReading {
                name: s("b"),
                project: None,
                usable: true,
                checkouts: vec![checkout(attached("main"), &[])],
            },
        ],
        workweave_dirs: Vec::new(),
        indexes: Vec::new(),
        stores: vec![store(
            TrackingSource::Unresolvable,
            HeadReading::Detached { at: s("h") },
            TipReading::Absent,
        )],
    };
    let found = kinds(scan_branch_discipline(&o));
    assert!(matches!(found[0], BranchDisciplineKind::SharedBranch { .. }));
    assert!(matches!(found[1], BranchDisciplineKind::CanonicalDetached { .. }));
    assert_eq!(found.len(), 2);
}

fn scope() -> ScopeReading {
    ScopeReading {
        containers: texts(&["/w/.workweaves"]),
        markers: vec![(s("/w/.workweaves/web--a"), s("web"))],
        root: s("/w"),
        known_repos: texts(&["github/o/r"]),
    }
}

#[test]
fn a_scope_holds_the_projects_own_checkouts() {
    assert!(path_belongs(&scope(), &s("/w/.workweaves/web--a/github/o/r"), &s("web")));
    assert!(!path_belongs(&scope(), &s("/w/.workweaves/web--a/github/o/r"), &s("api")));
    assert!(path_belongs(&scope(), &s("/w/github/o/r"), &s("api")));
    assert!(!path_belongs(&scope(), &s("/w/github/o/other"), &s("web")));
    assert!(path_belongs(&scope(), &s("/w/projects/web"), &s("web")));
    assert!(!path_belongs(&scope(), &s("/w/projects/web"), &s("api")));
    assert!(!path_belongs(&scope(), &s("/w/.workweaves/x/github/o/r"), &s("web")));
    let v = CheckViolation::BranchDiscipline {
        repo_path: s("/w/github/o/r"),
        sub_kind: BranchDisciplineKind::UnbornCheckout { branch: s("u") },
    };
    assert!(branch_discipline_in_scope(&v, &scope(), &s("web")));
}

fn target(workweave: Option<&str>) -> StateHygieneScanTarget {
    StateHygieneScanTarget { workweave: workweave.map(s), abs: s("/w/r"), repo: s("r") }
}

#[test]
fn leftovers_are_reported_and_running_operations_keep_theirs() {
    let savepoint = |op_id: &str, carried| SavepointReading {
        op_id: s(op_id),
        revision: Some(s("x")),
        carried_by_head: carried,
    };
    let repos = vec![RepoStateReading {
        target: target(Some("a")),
        is_repo: true,
        stale_registrations: texts(&["/gone"]),
        head_readable: true,
        savepoints: Some(vec![
            savepoint("done", Some(true)),
            savepoint("lost", Some(false)),
            savepoint("running", Some(true)),
        ]),
    }];
    let states = vec![OpStateReading {
        target: StateHygieneOpStateTarget { workspace_dir: s("/w") },
        owner: Some(OpRecord {
            id: s("running"),
            verb: OpVerb { name: s("sync"), resume_command: s("rwv sync --continue") },
            started_at: s("now"),
        }),
        dead_lease: Some(DeadLease {
            workspace_dir: s("/w"),
            op_id: s("dead"),
            recorded_owner: s("/v"),
            reason: DeadOpLeaseKind::OwnerRecordAbsent,
            created_at: None,
        }),
    }];
    let violations = scan_state_hygiene(&repos, &states);
    assert!(matches!(
        &violations[0],
        CheckViolation::StaleWorktreeRegistration { missing_path, .. } if missing_path == "/gone"
    ));
    let savepoints: Vec<(String, OrphanedSavepointKind)> = violations
        .iter()
        .filter_map(|v| match v {
            CheckViolation::OrphanedSavepoint { op_id, sub_kind, .. } => {
                Some((op_id.clone(), *sub_kind))
            }
            _ => None,
        })
        .collect();
    assert_eq!(
        savepoints,
        vec![
            (s("done"), OrphanedSavepointKind::Redundant),
            (s("lost"), OrphanedSavepointKind::Live),
        ]
    );
    assert_eq!(violations.len(), 5);
    assert!(matches!(violations[3], CheckViolation::StaleOpState { .. }));
    assert!(matches!(violations[4], CheckViolation::DeadOpLease { .. }));
}

#[test]
fn only_redundant_savepoints_are_dropped() {
    let savepoint = |sub_kind| CheckViolation::OrphanedSavepoint {
        workweave: None,
        repo: s("r"),
        op_id: s("op"),
        sub_kind,
    };
    assert!(matches!(
        fix_state_hygiene(&savepoint(OrphanedSavepointKind::Redundant), &s("/w/r")),
        HygieneRepair::DropSavepoint { repo, op_id } if repo == "/w/r" && op_id == "op"
    ));
    assert!(matches!(
        fix_state_hygiene(&savepoint(OrphanedSavepointKind::Live), &s("/w/r")),
        HygieneRepair::Leave
    ));
    let stale = CheckViolation::StaleWorktreeRegistration {
        workweave: None,
        repo: s("r"),
        missing_path: s("/gone"),
    };
    assert!(matches!(
        fix_state_hygiene(&stale, &s("/w/r")),
        HygieneRepair::PruneWorktrees { repo } if repo == "/w/r"
    ));
    let orphan = CheckViolation::OrphanedClone { path: s("r") };
    assert!(matches!(fix_state_hygiene(&orphan, &s("/w/r")), HygieneRepair::Leave));
    assert_eq!(prune_failure(&s("/w/r")), "worktree prune failed in /w/r");
}

#[test]
fn drift_is_safe_only_where_it_is_recognized() {
    assert_eq!(classify_index_drift(IndexTreeState::MatchesHead), None);
    assert_eq!(
        classify_index_drift(IndexTreeState::RecentAncestorTree),
        Some(IndexDriftKind::SafeToFix)
    );
    assert_eq!(
        classify_index_drift(IndexTreeState::Unrecognized),
        Some(IndexDriftKind::LiveStaged)
    );
    assert_eq!(
        classify_working_tree_drift(WorkingTreeState::RestorableFromHead),
        Some(WorkingTreeDriftKind::SafeToFix)
    );
    assert_eq!(
        classify_working_tree_drift(WorkingTreeState::Unrecognized),
        Some(WorkingTreeDriftKind::LiveEdits)
    );
    let dirty = classify_drift(
        Some(true),
        IndexTreeState::Unrecognized,
        WorkingTreeState::MatchesHead,
    );
    assert_eq!(dirty, (Some(IndexDriftKind::LiveStaged), None));
    let clean = classify_drift(
        Some(false),
        IndexTreeState::Unrecognized,
        WorkingTreeState::Unrecognized,
    );
    assert_eq!(clean, (None, None));
}

#[test]
fn repairs_of_drift_name_the_repo_when_they_fail() {
    assert_eq!(reset_index_to_head(&s("/w/r"), Ok(())), Ok(()));
    assert_eq!(
        reset_index_to_head(&s("/w/r"), Err(s("locked"))),
        Err(s("failed to reset the index in /w/r"))
    );
    assert_eq!(restore_working_tree_to_head(&s("/w/r"), Ok(Vec::new()), Ok(())), Ok(()));
    assert_eq!(
        restore_working_tree_to_head(&s("/w/r"), Err(s("x")), Ok(())),
        Err(s("failed to list drifted paths in /w/r"))
    );
    assert_eq!(
        restore_working_tree_to_head(&s("/w/r"), Ok(texts(&["f"])), Err(s("x"))),
        Err(s("failed to restore drifted paths in /w/r"))
    );
}

#[test]
fn a_worktrees_store_stands_above_its_git_dir() {
    assert_eq!(
        store_above_worktree_dir(&s("/w/r/.git/worktrees/a")).as_deref(),
        Some("/w/r/.git")
    );
    let linked = GitDirLink::Linked { git_dir: s("/w/r/.git/worktrees/a") };
    let missing = worktree_canonical_clone_missing(&linked, &None, false);
    assert_eq!(missing, canonical_clone_dir(&linked, &None));
    assert_eq!(missing.as_deref(), Some("/w/r"));
    assert_eq!(worktree_canonical_clone_missing(&linked, &None, true), None);
    assert_eq!(worktree_canonical_clone_missing(&GitDirLink::Owned, &None, false), None);
    assert_eq!(worktree_canonical_clone_missing(&GitDirLink::Unreadable, &None, false), None);
}

#[test]
fn exclusions_are_found_wanting_unless_current() {
    assert_eq!(replay_exclusion_finding(ReplayExclusionState::Current), None);
    assert_eq!(
        replay_exclusion_finding(ReplayExclusionState::Absent),
        Some(ReplayExclusionKind::Absent)
    );
    assert_eq!(
        replay_exclusion_finding(ReplayExclusionState::LegacyOnly),
        Some(ReplayExclusionKind::LegacySpelling)
    );
    assert_eq!(
        replay_exclusion_finding(ReplayExclusionState::LegacyAlongsideCurrent),
        Some(ReplayExclusionKind::LegacyAlongsideCurrent)
    );
}

#[test]
fn a_locked_run_looks_at_the_active_project_or_at_all() {
    let all = || texts(&["api", "web"]);
    let primary = |project| Checkout::Primary { project };
    assert_eq!(locked_projects(&primary(None), all()), all());
    assert_eq!(locked_projects(&primary(Some(s("web"))), all()), texts(&["web"]));
    assert_eq!(locked_projects(&Checkout::Workweave { project: s("web") }, all()), texts(&["web"]));
}

#[test]
fn a_locked_run_reports_tips_off_their_pins() {
    let entry = |repo: &str, head: Option<&str>, resolution| LockedEntry {
        repo: s(repo),
        version: s("v1"),
        head: head.map(s),
        resolution,
    };
    let resolved = |revision: &str| PinResolution::Resolved { revision: s(revision) };
    let report = |entries| {
        run_check_locked(&vec![LockedProject {
            name: s("web"),
            reading: LockedReading::Entries { entries },
        }])
    };
    let fresh = report(vec![entry("r", Some("aaa"), resolved("aaa"))]);
    assert!(!fresh.drift);
    assert_eq!(fresh.lines, texts(&["r: ok"]));
    let stale = report(vec![entry("r", Some("bbb"), resolved("aaa"))]);
    assert!(stale.drift);
    assert_eq!(stale.lines, texts(&["r: tip bbb ≠ lock aaa"]));
    let unknown = report(vec![entry("r", Some("bbb"), PinResolution::Unknown { raw: s("v1") })]);
    assert!(unknown.drift);
    assert_eq!(unknown.lines, texts(&["r: lock pins unknown revision v1"]));
    let missing = report(vec![entry("r", None, resolved("aaa"))]);
    assert!(missing.drift);
    assert_eq!(
        missing.lines,
        texts(&["r: missing on disk (lock pins v1); run `rwv sync` to materialize"])
    );
    let dropped = report(vec![entry("r", Some("bbb"), PinResolution::Dropped)]);
    assert!(!dropped.drift && dropped.lines.is_empty());
    let unloadable = run_check_locked(&vec![
        LockedProject { name: s("web"), reading: LockedReading::Unloadable { error: s("torn") } },
        LockedProject { name: s("api"), reading: LockedReading::NoLock },
    ]);
    assert_eq!(
        unloadable.warnings,
        texts(&["warning: skipping project web: manifest unreadable (torn); run `rwv doctor` for \
                 details"])
    );
    assert!(!unloadable.drift && unloadable.lines.is_empty());
}
