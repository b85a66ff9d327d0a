use repoweave::branches::{CanonicalStore, CheckoutReading, HeadReading, StoreReading, TrackingSource};
use repoweave::consent::{AdoptDetachedConsent, ReattachConsent};
use repoweave::drift::ReplayExclusionState;
use repoweave::legacy::LegacyWorkweaveMarkerFile;
use repoweave::migration::{
    adopt_detached_workweave_checkout, adopt_flat_ref, advance_deletion, decide_migration,
    fix_branch_model_migration, fix_dangling_receipts, fix_detached_canonicals,
    fix_pre_flat_receipts, fix_stale_ephemeral_branches, migrate_legacy_ref,
    settle_dangling_receipt, settle_deletions, settle_pre_flat_receipt, settle_reattachment,
    start_detached_adoption, AdoptionStep, BranchInspection, DeletionEnd, DeletionReply,
    DeletionStep, DetachedAdoption, DetachedStep,
    Migration, MigrationCandidate, MigrationDecision, MigrationLog, MigrationStep, RepairLog,
    Reply, Visit,
};
use repoweave::receipts::TipReading;
use repoweave::repairs::{
    apply_finding_repairs, apply_prelude_repairs, commit_replay_exclusion_migration,
    deletion_outcome, fix_dangling_parent, fix_legacy_workweave_marker, fix_unregistered_workweave,
    locate, settle_finding, settle_parent, CommitOutcome, CommitReply, CommitStep, FindingLog,
    FindingRepair, MarkerFields, ParentReading, ParentRepair, PlannedRepair, RepairOutcome, RepoLocation,
};
use repoweave::scope::ScopeReading;
use repoweave::violation::{
    BranchDisciplineKind, CheckViolation, DeadOpLeaseKind, IndexDriftKind, OrphanedSavepointKind,
    ReplayExclusionKind, WeaveRootIdentityConflictKind, WorkingTreeDriftKind,
    WorkweaveTreeIntegrityKind,
};
use repoweave::workspace_repairs::{
    announce_migrations, announce_repairs, apply_workspace_repairs, dangling_pointer, plan_driver,
    plan_exclusion, projects_to_migrate, roots_to_clear, settle_driver, settle_exclusion,
    settle_exclusion_commit, settle_index, settle_pointer, settle_root, DisputedRoot,
    ExclusionWritten, NamedRepair, WorkspaceArm,
};

fn s(text: &str) -> String {
    text.to_owned()
}

fn texts(list: &[&str]) -> Vec<String> {
    list.iter().map(|t| s(t)).collect()
}

fn reattach() -> ReattachConsent {
    ReattachConsent::from_flag(true).unwrap()
}

fn adopt() -> AdoptDetachedConsent {
    AdoptDetachedConsent::from_flag(true).unwrap()
}

fn error(e: &str) -> Reply {
    Reply::Failed { error: s(e) }
}

// Findings.

fn index_drift(workweave: Option<&str>) -> CheckViolation {
    CheckViolation::IndexDrift {
        workweave: workweave.map(s),
        repo: s("r"),
        kind: IndexDriftKind::SafeToFix,
    }
}

fn registration() -> CheckViolation {
    CheckViolation::StaleWorktreeRegistration {
        workweave: None,
        repo: s("r"),
        missing_path: s("/gone"),
    }
}

fn stale_entry() -> CheckViolation {
    CheckViolation::WorkweaveTreeIntegrity {
        workweave_dir: s("/c/web--a"),
        sub_kind: WorkweaveTreeIntegrityKind::StaleRegistryEntry {
            project: s("web"),
            workweave_name: s("a"),
            recorded_path: s("/c/web--a"),
            reason: s("gone"),
        },
    }
}

fn locations() -> Vec<RepoLocation> {
    vec![
        RepoLocation { workweave: None, repo: s("r"), abs: s("/w/r") },
        RepoLocation { workweave: Some(s("a")), repo: s("r"), abs: s("/c/web--a/r") },
    ]
}

fn planned(finding: CheckViolation) -> PlannedRepair {
    let mut plan = apply_finding_repairs(vec![finding], &locations());
    match plan.registrations.pop() {
        Some(planned) => planned,
        None => plan.others.pop().unwrap(),
    }
}

fn settle(finding: CheckViolation, outcome: RepairOutcome) -> (Option<String>, usize, Vec<String>) {
    let mut log = FindingLog { kept: Vec::new(), errors: Vec::new() };
    let told = settle_finding(&mut log, planned(finding), outcome);
    (told, log.kept.len(), log.errors)
}

fn failed() -> RepairOutcome {
    RepairOutcome::Failed { error: s("denied") }
}

#[test]
fn registrations_are_pruned_ahead_of_the_rest() {
    let plan = apply_finding_repairs(
        vec![index_drift(None), registration(), stale_entry()],
        &locations(),
    );
    assert_eq!(plan.registrations.len(), 1);
    assert!(matches!(plan.registrations[0].repair, FindingRepair::PruneWorktrees { .. }));
    assert!(matches!(plan.others[0].repair, FindingRepair::ResetIndex { .. }));
    assert!(matches!(plan.others[1].repair, FindingRepair::PruneEntry { .. }));
}

#[test]
fn a_repair_is_made_where_the_finding_was_made() {
    assert_eq!(locate(&locations(), &Some(s("a")), &s("r")).as_deref(), Some("/c/web--a/r"));
    assert_eq!(locate(&locations(), &None, &s("r")).as_deref(), Some("/w/r"));
    assert_eq!(locate(&locations(), &Some(s("b")), &s("r")), None);
    match planned(index_drift(Some("a"))).repair {
        FindingRepair::ResetIndex { repo, location } => {
            assert_eq!((repo.as_str(), location.as_str()), ("/c/web--a/r", "a/r"));
        }
        other => panic!("{other:?}"),
    }
    assert!(matches!(planned(index_drift(Some("b"))).repair, FindingRepair::Keep));
}

#[test]
fn what_may_only_be_reported_is_kept() {
    let live = CheckViolation::WorkingTreeDrift {
        workweave: None,
        repo: s("r"),
        kind: WorkingTreeDriftKind::LiveEdits,
    };
    assert!(matches!(planned(live).repair, FindingRepair::Keep));
    let orphan = || CheckViolation::OrphanedClone { path: s("r") };
    assert_eq!(settle(orphan(), RepairOutcome::Unneeded), (None, 1, Vec::new()));
}

#[test]
fn a_finished_repair_is_announced_and_drops_its_finding() {
    let told = |v| {
        let (told, kept, errors) = settle(v, RepairOutcome::Done);
        assert_eq!((kept, errors.len()), (0, 0));
        told.unwrap()
    };
    assert_eq!(
        told(registration()),
        "[fixed] core: stale-worktree-registration for r: pruned"
    );
    assert_eq!(told(index_drift(Some("a"))), "[fixed] core: index refreshed for a/r");
    assert_eq!(
        told(stale_entry()),
        "[fixed] core: pruned stale registry entry `a` → /c/web--a in project `web`"
    );
    assert_eq!(
        told(CheckViolation::OrphanedSavepoint {
            workweave: None,
            repo: s("r"),
            op_id: s("op"),
            sub_kind: OrphanedSavepointKind::Redundant,
        }),
        "[fixed] core: orphaned-savepoint for r: dropped op_id=op"
    );
    assert_eq!(
        told(CheckViolation::DeadOpLease {
            workspace_dir: s("/w"),
            op_id: s("op"),
            recorded_owner: s("/v"),
            sub_kind: DeadOpLeaseKind::OwnerRecordAbsent,
            created_at: None,
        }),
        "[fixed] core: dead-op-lease for /w: removed lease (op_id=op)"
    );
    assert_eq!(
        told(CheckViolation::WorkweaveTreeIntegrity {
            workweave_dir: s("/c/web--a"),
            sub_kind: WorkweaveTreeIntegrityKind::DanglingParent { parent_path: s("/gone") },
        }),
        "[fixed] core: re-pointed dangling parent of /c/web--a to primary"
    );
    assert_eq!(
        told(CheckViolation::WorkweaveTreeIntegrity {
            workweave_dir: s("/c/web--a"),
            sub_kind: WorkweaveTreeIntegrityKind::UnregisteredWorkweave {
                project: s("web"),
                workweave_name: s("a"),
            },
        }),
        "[fixed] core: adopted workweave `a` at /c/web--a into project `web`'s registry"
    );
    assert_eq!(
        told(CheckViolation::WorkingTreeDrift {
            workweave: None,
            repo: s("r"),
            kind: WorkingTreeDriftKind::SafeToFix,
        }),
        "[fixed] core: working tree refreshed for r"
    );
}

#[test]
fn a_failed_repair_is_reported_by_its_error_alone() {
    assert_eq!(
        settle(index_drift(None), failed()),
        (None, 0, texts(&["r: index fix failed: denied"]))
    );
    assert_eq!(
        settle(registration(), failed()),
        (None, 0, texts(&["state-hygiene --fix failed: denied"]))
    );
    assert_eq!(
        settle(stale_entry(), failed()),
        (
            None,
            0,
            texts(&["workweave-index --fix failed: prune of stale entry `a` in `web` failed: denied"])
        )
    );
}

#[test]
fn a_stale_branch_is_settled_by_its_deletion() {
    let safe = || CheckViolation::BranchDiscipline {
        repo_path: s("/w/r"),
        sub_kind: BranchDisciplineKind::StaleEphemeralBranchSafe {
            branch: s("web--a"),
            project: s("web"),
        },
    };
    let key = || vec![(s("/w/r"), s("web--a"))];
    let outcome = |chosen, deleted| deletion_outcome(&chosen, &deleted, &s("/w/r"), &s("web--a"));
    assert!(matches!(outcome(key(), key()), RepairOutcome::Done));
    assert!(matches!(outcome(key(), Vec::new()), RepairOutcome::Refused));
    assert!(matches!(outcome(Vec::new(), Vec::new()), RepairOutcome::Unneeded));
    assert_eq!(settle(safe(), RepairOutcome::Done), (None, 0, Vec::new()));
    assert_eq!(settle(safe(), RepairOutcome::Refused), (None, 0, Vec::new()));
    assert_eq!(settle(safe(), RepairOutcome::Unneeded), (None, 1, Vec::new()));
}

#[test]
fn a_legacy_marker_is_migrated_in_its_directory() {
    let finding = LegacyWorkweaveMarkerFile {
        marker_path: s("/c/web--a/.rwv-workweave"),
        primary: s("/w"),
    };
    assert_eq!(fix_legacy_workweave_marker(&finding), "/c/web--a");
    let mut errors = Vec::new();
    assert_eq!(
        apply_prelude_repairs(&mut errors, &finding, Ok(true)).as_deref(),
        Some("[fixed] core: migrated legacy workweave marker /c/web--a/.rwv-workweave to JSON")
    );
    assert_eq!(apply_prelude_repairs(&mut errors, &finding, Ok(false)), None);
    assert_eq!(apply_prelude_repairs(&mut errors, &finding, Err(s("x"))), None);
    assert_eq!(errors, texts(&["legacy workweave marker fix failed: x"]));
}

#[test]
fn a_parent_is_repointed_only_while_it_dangles() {
    let dir = s("/c/web--a");
    let with = |reading| fix_dangling_parent(&dir, &s("/w"), &reading);
    let marker = |parent: &str| MarkerFields {
        project: s("web"),
        primary: s("/w/."),
        parent: s(parent),
    };
    let repair =
        with(ParentReading::Readable { marker: marker("/gone"), parent_is_there: false });
    let written = match &repair {
        ParentRepair::Rewrite { marker } => marker,
        other => panic!("{other:?}"),
    };
    assert_eq!((written.project.as_str(), written.primary.as_str()), ("web", "/w/."));
    assert_eq!(written.parent, "/w");
    assert!(matches!(
        with(ParentReading::Readable { marker: marker(&written.parent), parent_is_there: true }),
        ParentRepair::Healed
    ));
    assert!(matches!(settle_parent(&dir, repair, true), RepairOutcome::Done));
    assert!(matches!(
        settle_parent(&dir, ParentRepair::Healed, true),
        RepairOutcome::Unneeded
    ));
    assert!(matches!(
        settle_parent(&dir, ParentRepair::Failed { error: s("e") }, true),
        RepairOutcome::Failed { error } if error == "e"
    ));
    assert!(matches!(
        with(ParentReading::Unreadable),
        ParentRepair::Failed { error } if error == "failed to read /c/web--a/.rwv-workweave for --fix"
    ));
    assert!(matches!(
        with(ParentReading::Vanished),
        ParentRepair::Failed { error }
            if error == "/c/web--a/.rwv-workweave vanished before --fix could re-point it"
    ));
    assert!(matches!(
        settle_parent(&dir, ParentRepair::Rewrite { marker: marker("/w") }, false),
        RepairOutcome::Failed { error }
            if error == "failed to write /c/web--a/.rwv-workweave during --fix"
    ));
    assert_eq!(fix_unregistered_workweave(&dir, Some(s("/real"))), "/real");
    assert_eq!(fix_unregistered_workweave(&dir, None), dir);
}

fn commit(replies: Vec<CommitReply>) -> CommitStep {
    let mut step = CommitStep::ReadStaged;
    for reply in replies {
        step = commit_replay_exclusion_migration(&s("/p"), step, reply);
    }
    step
}

#[test]
fn an_exclusion_is_committed_alone() {
    let staged = |paths: &[&str]| CommitReply::Staged { paths: texts(paths) };
    match commit(vec![staged(&[".gitattributes"]), CommitReply::Done, CommitReply::Answer { yes: true }]) {
        CommitStep::Commit { message } => assert_eq!(
            message,
            "chore: migrate rwv.lock merge=ours → merge=rwv-ours (rwv doctor --fix)"
        ),
        other => panic!("{other:?}"),
    }
    let outcome = |replies| match commit(replies) {
        CommitStep::Finished { outcome } => outcome,
        other => panic!("{other:?}"),
    };
    assert!(matches!(
        outcome(vec![
            staged(&[]),
            CommitReply::Done,
            CommitReply::Answer { yes: true },
            CommitReply::Done
        ]),
        CommitOutcome::Committed
    ));
    assert!(matches!(
        outcome(vec![staged(&[".gitattributes", "src/x"])]),
        CommitOutcome::SkippedUnrelatedStaged
    ));
    assert!(matches!(
        outcome(vec![staged(&[]), CommitReply::Done, CommitReply::Answer { yes: false }]),
        CommitOutcome::NothingToCommit
    ));
}

#[test]
fn a_commit_that_stops_says_where() {
    let stopped = |replies| match commit(replies) {
        CommitStep::Stopped { error } => error,
        other => panic!("{other:?}"),
    };
    let staged = || CommitReply::Staged { paths: Vec::new() };
    assert_eq!(stopped(vec![CommitReply::Failed]), "failed to read staged paths in /p");
    assert_eq!(
        stopped(vec![staged(), CommitReply::Failed]),
        "failed to stage .gitattributes in /p"
    );
    assert_eq!(
        stopped(vec![staged(), CommitReply::Done, CommitReply::Failed]),
        "failed to check staged changes in /p"
    );
    assert_eq!(
        stopped(vec![
            staged(),
            CommitReply::Done,
            CommitReply::Answer { yes: true },
            CommitReply::Failed
        ]),
        "failed to commit in /p"
    );
}

// The branch-model migration.

fn migration() -> Migration {
    Migration { store: s("/w/r"), legacy: s("web--a/main"), flat: s("web--a") }
}

fn migrate(replies: Vec<Reply>) -> MigrationStep {
    let m = migration();
    let mut step = MigrationStep::VerifyAttachment;
    for reply in replies {
        step = migrate_legacy_ref(&m, step, reply);
    }
    step
}

fn tip(at: &str) -> Reply {
    Reply::Tip { at: Some(s(at)) }
}

fn held(at: Option<&str>) -> Reply {
    Reply::Receipt { at: at.map(s) }
}

#[test]
fn a_branch_is_renamed_behind_its_receipts() {
    let upto = || vec![Reply::Done, tip("t"), held(None), held(Some("t")), Reply::Done];
    assert!(matches!(migrate(upto()), MigrationStep::CheckUnmoved { at } if at == "t"));
    let mut replies = upto();
    replies.push(Reply::Answer { yes: true });
    assert!(matches!(migrate(replies), MigrationStep::Rename));
    let mut replies = upto();
    replies.extend([Reply::Answer { yes: true }, Reply::Done, Reply::Done]);
    assert!(matches!(
        migrate(replies),
        MigrationStep::Finished { message } if message == "migrated `web--a/main` → `web--a` in /w/r"
    ));
    let mut replies = upto();
    replies.extend([Reply::Answer { yes: true }, Reply::Done, error("locked")]);
    assert!(matches!(
        migrate(replies),
        MigrationStep::Finished { message }
            if message == "migrated `web--a/main` → `web--a` in /w/r (its old ownership receipt \
                           could not be retracted: locked; `rwv doctor --fix` will clear it)"
    ));
}

#[test]
fn a_stale_receipt_is_retracted_first() {
    let step = migrate(vec![Reply::Done, tip("t"), held(Some("old"))]);
    assert!(matches!(step, MigrationStep::RetractStale { tip } if tip == "t"));
    let step = migrate(vec![Reply::Done, tip("t"), held(Some("t"))]);
    assert!(matches!(step, MigrationStep::AdoptLegacy { tip } if tip == "t"));
}

#[test]
fn a_migration_stops_where_a_step_fails() {
    let stopped = |replies| match migrate(replies) {
        MigrationStep::Stopped { error } => error,
        other => panic!("{other:?}"),
    };
    assert_eq!(stopped(vec![error("switched")]), "switched");
    assert_eq!(
        stopped(vec![Reply::Done, Reply::Tip { at: None }]),
        "branch `web--a/main` vanished before it could be migrated"
    );
    assert_eq!(
        stopped(vec![
            Reply::Done,
            tip("t"),
            held(None),
            held(Some("t")),
            Reply::Done,
            Reply::Answer { yes: false }
        ]),
        "branch `web--a/main` moved while it was being migrated (recorded at t); re-run `rwv \
         doctor --fix`"
    );
}

#[test]
fn a_flat_branch_is_adopted_at_its_tip() {
    let (store, flat) = (s("/w/r"), s("web--a"));
    let step = adopt_flat_ref(&store, &flat, AdoptionStep::ResolveTip, tip("t"));
    assert!(matches!(&step, AdoptionStep::Record { tip } if tip == "t"));
    assert!(matches!(
        adopt_flat_ref(&store, &flat, step, Reply::Done),
        AdoptionStep::Finished { message }
            if message == "adopted `web--a` in /w/r at t (rwv now holds an ownership receipt for it)"
    ));
    assert!(matches!(
        adopt_flat_ref(&store, &flat, AdoptionStep::ResolveTip, Reply::Tip { at: None }),
        AdoptionStep::Stopped { error }
            if error == "branch `web--a` vanished before it could be adopted"
    ));
}

fn adoption(legacy: Option<&str>) -> DetachedAdoption {
    DetachedAdoption {
        store: s("/w/r"),
        checkout: s("/c/web--a/r"),
        at: s("h"),
        flat: s("web--a"),
        legacy: legacy.map(s),
    }
}

fn adopt_through(legacy: Option<&str>, replies: Vec<Reply>) -> DetachedStep {
    let d = adoption(legacy);
    let mut step = start_detached_adoption(&d);
    for reply in replies {
        step = adopt_detached_workweave_checkout(&d, step, reply, &adopt());
    }
    step
}

#[test]
fn a_detached_checkout_is_adopted_at_head() {
    assert!(matches!(
        adopt_through(None, vec![Reply::Done, Reply::Done]),
        DetachedStep::Finished { messages }
            if messages == texts(&["adopted the detached checkout at /c/web--a/r onto `web--a`"])
    ));
    let through = |merged| {
        adopt_through(
            Some("web--a/main"),
            vec![
                tip("t"),
                Reply::Done,
                Reply::Answer { yes: merged },
                Reply::Done,
                Reply::Done,
                Reply::Done,
                Reply::Done,
            ],
        )
    };
    assert!(matches!(
        through(true),
        DetachedStep::Finished { messages } if messages == texts(&[
            "gave up `web--a/main` in /w/r to make room for `web--a`",
            "adopted the detached checkout at /c/web--a/r onto `web--a`",
        ])
    ));
    assert!(matches!(
        through(false),
        DetachedStep::Finished { messages } if messages == texts(&[
            "gave up `web--a/main` in /w/r to make room for `web--a` — WARNING: this STRANDED the \
             commits at t, which HEAD does not carry; they are reachable only through /w/r's reflog",
            "adopted the detached checkout at /c/web--a/r onto `web--a`",
        ])
    ));
    assert!(matches!(
        adopt_through(Some("web--a/main"), vec![Reply::Tip { at: None }]),
        DetachedStep::Stopped { error }
            if error == "branch `web--a/main` vanished before it could be given up"
    ));
}

fn checkout(head: HeadReading, namespace: &[&str]) -> CheckoutReading {
    CheckoutReading {
        path: s("/c/web--a/r"),
        store: s("/w/r"),
        namespace: Some(texts(namespace)),
        head,
        legacy_tip: TipReading::Absent,
        legacy_carried: None,
    }
}

#[test]
fn the_migration_decides_by_head_and_namespace() {
    let decide = |head, namespace: &[&str], recorded, consent| {
        decide_migration(&s("web--a"), &checkout(head, namespace), recorded, &consent)
    };
    let on = |branch: &str| HeadReading::Attached { branch: s(branch) };
    let detached = || HeadReading::Detached { at: s("h") };
    assert!(matches!(
        decide(on("web--a/main"), &["web--a/main"], false, None),
        MigrationDecision::Migrate { legacy } if legacy == "web--a/main"
    ));
    assert!(matches!(
        decide(on("main"), &["web--a"], false, None),
        MigrationDecision::AdoptFlat
    ));
    assert!(matches!(decide(on("main"), &["web--a"], true, None), MigrationDecision::Leave));
    assert!(matches!(decide(detached(), &[], false, None), MigrationDecision::Leave));
    assert!(matches!(
        decide(detached(), &["web--a/x"], false, Some(adopt())),
        MigrationDecision::AdoptDetached { at, legacy: Some(legacy) }
            if at == "h" && legacy == "web--a/x"
    ));
    assert!(matches!(
        decide(HeadReading::Unreadable, &["web--a"], false, Some(adopt())),
        MigrationDecision::Leave
    ));
    match decide(on("web--a/x"), &["web--a/x", "web--a/y"], false, None) {
        MigrationDecision::Blocked { error } => assert_eq!(
            error,
            "/w/r: skipped the branch-model migration for `web--a` — 2 refs share that namespace \
             (`web--a/x`, `web--a/y`), and git cannot create the ref `web--a` while any ref exists \
             under `web--a/`. rwv recorded no ownership receipt for `web--a` and renamed nothing \
             here; the rest of the migration is unaffected. Which of those refs is this \
             workweave's branch, and where the others belong, is not rwv's call to make — leave at \
             most one ref under `web--a/`, then re-run `rwv doctor --fix` to migrate it"
        ),
        other => panic!("{other:?}"),
    }
}

#[test]
fn the_migration_visits_idle_workweaves_of_its_project() {
    let candidate = |project: Option<&str>, op: Option<&str>, refused: Option<&str>| {
        MigrationCandidate {
            dir: s("/c/web--a"),
            project: project.map(s),
            op_in_flight: op.map(s),
            name_refused: refused.map(s),
        }
    };
    let web = || Some(s("web"));
    let visit = |c| fix_branch_model_migration(&web(), &c);
    assert!(matches!(visit(candidate(Some("web"), None, None)), Visit::Enter));
    assert!(matches!(visit(candidate(Some("api"), None, None)), Visit::Pass));
    assert!(matches!(visit(candidate(None, None, None)), Visit::Pass));
    assert!(matches!(
        visit(candidate(Some("web"), Some("sync runs"), Some("bad"))),
        Visit::Refuse { error }
            if error == "/c/web--a: skipped the branch-model migration — an operation is in \
                         flight (sync runs). Resolve or `rwv abort` it, then re-run `rwv doctor \
                         --fix`"
    ));
    assert!(matches!(
        visit(candidate(Some("web"), None, Some("bad"))),
        Visit::Refuse { error } if error == "/c/web--a: skipped the branch-model migration — bad"
    ));
    let mut log = MigrationLog::new();
    log.settle(&s("/c/web--a/r"), Ok(texts(&["done"])));
    log.settle(&s("/c/web--a/r"), Err(s("broken")));
    log.refuse(s("refused"));
    assert_eq!(log.applied, texts(&["done"]));
    assert_eq!(log.errors, texts(&["/c/web--a/r: broken", "refused"]));
}

// Deletions, reattachments, receipts.

#[test]
fn only_safe_branches_in_scope_are_deleted() {
    let found = |repo: &str, sub_kind| CheckViolation::BranchDiscipline { repo_path: s(repo), sub_kind };
    let safe = |branch: &str| BranchDisciplineKind::StaleEphemeralBranchSafe {
        branch: s(branch),
        project: s("web"),
    };
    let violations = vec![
        found("/w/r", safe("web--a")),
        found("/w/other", safe("web--b")),
        found(
            "/w/r",
            BranchDisciplineKind::StaleEphemeralBranchLive {
                branch: s("web--c"),
                project: s("web"),
                tip_sha: s("t"),
            },
        ),
        found("/w/r", BranchDisciplineKind::StaleEphemeralBranchUnowned { branch: s("x--y/z") }),
    ];
    let scope = ScopeReading {
        containers: Vec::new(),
        markers: Vec::new(),
        root: s("/w"),
        known_repos: texts(&["r"]),
    };
    assert_eq!(
        fix_stale_ephemeral_branches(&violations, &scope, &Some(s("web"))),
        vec![(s("/w/r"), s("web--a"))]
    );
    assert_eq!(fix_stale_ephemeral_branches(&violations, &scope, &None).len(), 2);
}

#[test]
fn a_deletion_needs_receipt_tip_and_merge() {
    let (store, branch) = (s("/w/r"), s("web--a"));
    let inspected = |receipted, tip_readable, merged| DeletionReply::Inspected {
        found: BranchInspection { receipted, tip_readable, merged },
    };
    let follow = |step, reply| advance_deletion(&store, &branch, step, reply);
    let refused = |reply| match follow(DeletionStep::Inspect, reply) {
        DeletionStep::Finished { end: DeletionEnd::Kept { error } } => error,
        other => panic!("{other:?}"),
    };
    assert_eq!(
        refused(inspected(false, true, true)),
        "refusing to delete stale ephemeral branch `web--a` in /w/r: rwv holds no ownership \
         receipt for it — a ref that looks like rwv's is not rwv's"
    );
    assert_eq!(
        refused(inspected(true, false, true)),
        "refusing to delete stale ephemeral branch `web--a` in /w/r: the store's own tip is \
         unreadable, so no merged warrant can be established"
    );
    assert_eq!(
        refused(inspected(true, true, false)),
        "refusing to delete stale ephemeral branch `web--a` in /w/r: its tip is not an ancestor of \
         the store's tip, so it carries commits nothing else names"
    );
    let granted = follow(DeletionStep::Inspect, inspected(true, true, true));
    assert!(matches!(granted, DeletionStep::Delete));
    let failed = |error: &str| DeletionReply::Failed { error: s(error) };
    let end = |step| match step {
        DeletionStep::Finished { end } => end,
        other => panic!("{other:?}"),
    };
    let kept = end(follow(DeletionStep::Delete, failed("in use")));
    assert!(matches!(follow(DeletionStep::Delete, DeletionReply::Done), DeletionStep::Retract));
    let gone = end(follow(DeletionStep::Retract, DeletionReply::Done));
    let recorded = end(follow(DeletionStep::Retract, failed("locked")));
    let chosen = vec![
        (s("/w/r"), s("web--a")),
        (s("/w/r"), s("web--b")),
        (s("/w/q"), s("web--a")),
    ];
    let log = settle_deletions(&chosen, vec![kept, gone, recorded]);
    assert_eq!(log.repaired, vec![(s("/w/r"), s("web--b")), (s("/w/q"), s("web--a"))]);
    assert_eq!(
        log.errors,
        texts(&[
            "failed to delete safe-class stale ephemeral branch `web--a` in /w/r: in use",
            "deleted stale ephemeral branch `web--a` in /w/r but could not retract its ownership \
             receipt: locked",
        ])
    );
}

#[test]
fn a_store_goes_back_only_where_nothing_moves() {
    let reading = |head, at: &str| StoreReading {
        store: CanonicalStore {
            path: s("/w/r"),
            tracking: TrackingSource::Declared { local: s("main") },
        },
        remote_default: None,
        head,
        counterpart_tip: TipReading::At { revision: s(at) },
        held: None,
        branches: None,
    };
    let scope = |known: &[&str]| ScopeReading {
        containers: Vec::new(),
        markers: Vec::new(),
        root: s("/w"),
        known_repos: texts(known),
    };
    let detached = || HeadReading::Detached { at: s("h") };
    let label = |r, known: &[&str]| {
        fix_detached_canonicals(&r, &scope(known), &Some(s("web")), &reattach())
    };
    assert_eq!(label(reading(detached(), "h"), &["r"]).as_deref(), Some("main"));
    assert_eq!(label(reading(detached(), "x"), &["r"]), None);
    assert_eq!(label(reading(detached(), "h"), &[]), None);
    assert_eq!(label(reading(HeadReading::Attached { branch: s("b") }, "h"), &["r"]), None);
    let mut log = RepairLog::new();
    settle_reattachment(&mut log, &s("/w/r"), &s("main"), Err(s("moved")));
    assert_eq!(
        log.errors,
        texts(&["failed to reattach detached canonical /w/r to `main`: moved"])
    );
    settle_reattachment(&mut log, &s("/w/r"), &s("main"), Ok(()));
    assert_eq!(
        announce_repairs(NamedRepair::Reattachment, &log.repaired),
        texts(&["[fixed] core: reattached detached canonical /w/r to `main`"])
    );
}

#[test]
fn receipts_are_retracted_by_their_kind() {
    let dangling = CheckViolation::DanglingRefReceipt {
        project: s("web"),
        store_path: s("/w/r"),
        ref_name: s("web--a"),
    };
    let segmented = CheckViolation::PreFlatRefReceipt {
        project: s("web"),
        store_path: s("/w/r"),
        ref_name: s("web--a/x"),
    };
    let found = vec![dangling, segmented];
    assert_eq!(fix_dangling_receipts(&found), vec![(s("web"), s("/w/r"), s("web--a"))]);
    assert_eq!(fix_pre_flat_receipts(&found), vec![(s("web"), s("/w/r"), s("web--a/x"))]);
    let mut log = RepairLog::new();
    settle_dangling_receipt(&mut log, &s("/w/r"), &s("web--a"), Ok(true));
    settle_dangling_receipt(&mut log, &s("/w/r"), &s("web--b"), Ok(false));
    settle_dangling_receipt(&mut log, &s("/w/r"), &s("web--c"), Err(s("x")));
    settle_pre_flat_receipt(&mut log, &s("/w/r"), &s("d/e"), Err(s("x")));
    assert_eq!(
        log.errors,
        texts(&[
            "failed to retract dangling ownership receipt for `web--c` in /w/r: x",
            "failed to retract the ownership receipt for `d/e` in /w/r: x",
        ])
    );
    assert_eq!(
        announce_repairs(NamedRepair::DanglingReceipt, &log.repaired),
        texts(&["[fixed] core: retracted dangling ownership receipt for `web--a` in /w/r"])
    );
    assert_eq!(
        announce_repairs(NamedRepair::PreFlatReceipt, &log.repaired),
        texts(&["[fixed] core: retracted the ownership receipt for `web--a` in /w/r — the name \
                 carries a `/` segment, which no workweave on disk mints; the branch itself was \
                 left untouched and is now unowned"])
    );
    assert_eq!(
        announce_repairs(NamedRepair::BranchDeletion, &log.repaired),
        texts(&["[fixed] core: deleted safe-class stale ephemeral branch `web--a` in /w/r"])
    );
    assert_eq!(announce_migrations(&texts(&["m"])), texts(&["[fixed] core: m"]));
}

// The workspace.

#[test]
fn the_migration_comes_after_what_it_needs() {
    let place = |arms: &Vec<WorkspaceArm>, wanted: fn(&WorkspaceArm) -> bool| {
        arms.iter().position(wanted)
    };
    let arms = apply_workspace_repairs(true);
    assert_eq!(arms.len(), 9);
    let migration = place(&arms, |a| matches!(a, WorkspaceArm::BranchMigration));
    assert!(place(&arms, |a| matches!(a, WorkspaceArm::PreFlatReceipts)) < migration);
    assert!(place(&arms, |a| matches!(a, WorkspaceArm::IndexMigration)) < migration);
    assert!(place(&arms, |a| matches!(a, WorkspaceArm::Reattach)) < migration);
    let unasked = apply_workspace_repairs(false);
    assert_eq!(unasked.len(), 8);
    assert_eq!(place(&unasked, |a| matches!(a, WorkspaceArm::Reattach)), None);
}

#[test]
fn a_dangling_pointer_is_cleared() {
    assert_eq!(dangling_pointer(Some(s("web")), false).as_deref(), Some("web"));
    assert_eq!(dangling_pointer(Some(s("web")), true), None);
    assert_eq!(dangling_pointer(None, false), None);
    let mut errors = Vec::new();
    assert_eq!(
        settle_pointer(&mut errors, &s("web"), Ok(())).as_deref(),
        Some("[fixed] core: cleared `.rwv-active` (was pointing at missing project `web`)")
    );
    assert_eq!(settle_pointer(&mut errors, &s("web"), Err(s("x"))), None);
    assert_eq!(errors, texts(&["dangling-active-project fix failed for `web`: x"]));
}

#[test]
fn only_a_registered_workweave_loses_its_pointer() {
    let conflict = |sub_kind| CheckViolation::WeaveRootIdentityConflict {
        root: s("/c/web--a"),
        pointer_project: None,
        sub_kind,
    };
    let roots = roots_to_clear(&vec![
        conflict(WeaveRootIdentityConflictKind::Unwitnessed { detail: s("d") }),
        conflict(WeaveRootIdentityConflictKind::RegisteredWorkweave {
            project: s("web"),
            workweave_name: s("a"),
        }),
    ]);
    assert_eq!(roots.len(), 1);
    let root = DisputedRoot { root: s("/c/web--a"), project: s("web"), workweave_name: s("a") };
    let mut errors = Vec::new();
    assert_eq!(
        settle_root(&mut errors, &root, Ok(())).as_deref(),
        Some(
            "[fixed] core: deleted `.rwv-active` at /c/web--a (redundant with the \
             `.rwv-workweave` marker of registered workweave `a` in project `web`; the marker is \
             unchanged)"
        )
    );
    assert_eq!(settle_root(&mut errors, &root, Err(s("x"))), None);
    assert_eq!(errors, texts(&["weave-root-identity-conflict fix failed for /c/web--a: x"]));
}

#[test]
fn indexes_of_the_projects_in_scope_are_migrated() {
    let all = texts(&["api", "web"]);
    assert_eq!(projects_to_migrate(&all, &Some(s("web"))), texts(&["web"]));
    assert_eq!(projects_to_migrate(&all, &None), all);
    let mut errors = Vec::new();
    assert_eq!(
        settle_index(&mut errors, &s("web"), &s("/i"), Ok(true)).as_deref(),
        Some("[fixed] core: added the ref-ownership registry to /i")
    );
    assert_eq!(settle_index(&mut errors, &s("web"), &s("/i"), Ok(false)), None);
    assert_eq!(settle_index(&mut errors, &s("web"), &s("/i"), Err(s("x"))), None);
    assert_eq!(
        errors,
        texts(&["failed to migrate web's workweave index to the ref-ownership registry: x"])
    );
}

#[test]
fn an_exclusion_is_written_or_migrated() {
    assert_eq!(plan_exclusion(None), None);
    assert_eq!(plan_exclusion(Some(ReplayExclusionState::Current)), None);
    assert_eq!(
        plan_exclusion(Some(ReplayExclusionState::LegacyOnly)),
        Some(ReplayExclusionKind::LegacySpelling)
    );
    let mut errors = Vec::new();
    let web = s("web");
    assert!(matches!(
        settle_exclusion(&mut errors, &web, ReplayExclusionKind::Absent, Ok(())),
        ExclusionWritten::Announce { told }
            if told == "[fixed] core: wrote `rwv.lock merge=rwv-ours` to web/.gitattributes"
    ));
    assert!(matches!(
        settle_exclusion(&mut errors, &web, ReplayExclusionKind::LegacySpelling, Ok(())),
        ExclusionWritten::Commit
    ));
    assert!(matches!(
        settle_exclusion(&mut errors, &web, ReplayExclusionKind::Absent, Err(s("x"))),
        ExclusionWritten::Failed
    ));
    assert_eq!(errors, texts(&["web: failed to write replay-exclusion: x"]));
}

#[test]
fn a_migrated_exclusion_says_whether_it_was_committed() {
    let mut errors = Vec::new();
    let mut told = |kind, reply| settle_exclusion_commit(&mut errors, &s("web"), kind, reply);
    assert_eq!(
        told(ReplayExclusionKind::LegacySpelling, Ok(CommitOutcome::Committed)).as_deref(),
        Some(
            "[fixed] core: migrated `rwv.lock merge=ours` → `rwv.lock merge=rwv-ours` in \
             web/.gitattributes (committed)"
        )
    );
    assert_eq!(
        told(ReplayExclusionKind::LegacyAlongsideCurrent, Ok(CommitOutcome::NothingToCommit))
            .as_deref(),
        Some(
            "[fixed] core: dropped the legacy `rwv.lock merge=ours` line, leaving `rwv.lock \
             merge=rwv-ours` in web/.gitattributes"
        )
    );
    assert_eq!(
        told(ReplayExclusionKind::LegacySpelling, Ok(CommitOutcome::SkippedUnrelatedStaged))
            .as_deref(),
        Some(
            "[fixed] core: migrated `rwv.lock merge=ours` → `rwv.lock merge=rwv-ours` in \
             web/.gitattributes (NOT committed: project repo has unrelated staged changes; commit \
             them, then re-run `rwv doctor --fix` to complete the migration)"
        )
    );
    assert_eq!(told(ReplayExclusionKind::LegacySpelling, Err(s("x"))), None);
    assert_eq!(errors, texts(&["web: migrated .gitattributes but commit failed: x"]));
}

#[test]
fn a_missing_driver_is_planted() {
    assert!(plan_driver(Some(false)));
    assert!(!plan_driver(Some(true)));
    assert!(!plan_driver(None));
    let mut errors = Vec::new();
    let key = s("merge.rwv-ours.driver");
    assert_eq!(
        settle_driver(&mut errors, &s("web"), &key, Ok(())).as_deref(),
        Some("[fixed] core: planted `merge.rwv-ours.driver` config in web")
    );
    assert_eq!(settle_driver(&mut errors, &s("web"), &key, Err(s("x"))), None);
    assert_eq!(errors, texts(&["web: failed to plant `merge.rwv-ours.driver`: x"]));
}
