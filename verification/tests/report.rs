use repoweave::issue::{Issue, IssueKind, MemberIncompatibility, Severity};
use repoweave::kinds::KindFilter;
use repoweave::report::{itemized_violations_to_issues, violations_to_issues, CollapsedClass};
use repoweave::violation::{
    BranchDisciplineKind, CargoSkewOccurrence, CheckViolation, DeadOpLeaseKind, DriftKind,
    FixDisposition, IndexDriftKind, LegacyRefAtTip, LeaseStamp, OrphanedSavepointKind,
    ProvenanceKind, ReplayExclusionKind, WeaveRootIdentityConflictKind, WorkingTreeDriftKind,
    WorkweaveTreeIntegrityKind,
};
use repoweave::wire::{
    build_doctor_json, AdvisoryKindOutput, AdvisoryOutput, IssueKindOutput, IssueOutput,
    PluginRecord, Resolution, SeverityOutput, ViolationOutput,
};

fn s(text: &str) -> String {
    text.to_owned()
}

fn tree(sub_kind: WorkweaveTreeIntegrityKind) -> CheckViolation {
    CheckViolation::WorkweaveTreeIntegrity { workweave_dir: s("/w/.workweaves/web--a"), sub_kind }
}

fn branch(sub_kind: BranchDisciplineKind) -> CheckViolation {
    CheckViolation::BranchDiscipline { repo_path: s("/w/github/o/r"), sub_kind }
}

fn stale_lock() -> CheckViolation {
    CheckViolation::StaleLock {
        project: s("web"),
        repo: s("github/o/r"),
        locked: s("aaa"),
        actual: s("bbb"),
    }
}

fn lease() -> CheckViolation {
    CheckViolation::DeadOpLease {
        workspace_dir: s("/w"),
        op_id: s("op1"),
        recorded_owner: s("/v"),
        sub_kind: DeadOpLeaseKind::OwnerRecordAbsent,
        created_at: Some(LeaseStamp { created_at: s("2024"), elapsed: s("1h") }),
    }
}

fn savepoint(sub_kind: OrphanedSavepointKind) -> CheckViolation {
    CheckViolation::OrphanedSavepoint {
        workweave: None,
        repo: s("github/o/r"),
        op_id: s("op1"),
        sub_kind,
    }
}

fn message(v: CheckViolation) -> String {
    let issues = itemized_violations_to_issues(vec![v]);
    assert_eq!(issues.len(), 1);
    issues[0].message.clone()
}

#[test]
fn kinds_are_sorted_and_complete() {
    let kinds = KindFilter::valid_kinds();
    assert_eq!(kinds.len(), 41);
    let mut sorted = kinds.clone();
    sorted.sort();
    sorted.dedup();
    assert_eq!(kinds, sorted);
    assert_eq!(kinds[0], "branch-discipline");
    assert_eq!(kinds[40], "workweave-tree-integrity");
    assert!(kinds.contains(&s("phantom-merge-driver")));
}

#[test]
fn a_kind_names_its_finding() {
    assert_eq!(stale_lock().wire_kind(), "stale-lock");
    assert_eq!(lease().wire_kind(), "dead-op-lease");
    assert_eq!(tree(WorkweaveTreeIntegrityKind::UnregisteredDir).wire_kind(), "workweave-tree-integrity");
    assert_eq!(savepoint(OrphanedSavepointKind::Live).wire_kind(), "orphaned-savepoint");
}

#[test]
fn a_filter_admits_the_named_kinds_only() {
    let filter = KindFilter::new(&vec![s("stale-lock"), s("dead-op-lease")]).unwrap();
    assert!(filter.admits(&stale_lock()));
    assert!(filter.admits(&lease()));
    assert!(!filter.admits(&savepoint(OrphanedSavepointKind::Live)));
    assert!(!KindFilter::new(&Vec::new()).unwrap().admits(&stale_lock()));
}

#[test]
fn an_unknown_kind_is_refused_with_the_valid_ones() {
    let refusal = match KindFilter::new(&vec![s("stale-lock"), s("stale-lok"), s("zzz")]) {
        Err(refusal) => refusal,
        Ok(_) => panic!("an unknown kind was taken"),
    };
    assert_eq!(
        refusal,
        format!(
            "`--kind=stale-lok` names no doctor finding kind. Valid kinds:\n  {}",
            KindFilter::valid_kinds().join("\n  ")
        )
    );
}

#[test]
fn dispositions_say_what_fix_may_do() {
    assert_eq!(stale_lock().fix_disposition(), FixDisposition::ReportOnly);
    assert_eq!(lease().fix_disposition(), FixDisposition::Auto);
    assert_eq!(savepoint(OrphanedSavepointKind::Redundant).fix_disposition(), FixDisposition::Auto);
    assert_eq!(savepoint(OrphanedSavepointKind::Live).fix_disposition(), FixDisposition::ReportOnly);
    let detached = branch(BranchDisciplineKind::Detached {
        expected_ref: s("web--a"),
        recorded_ref: None,
        at_sha: s("aaa"),
        legacy_branch: None,
    });
    assert_eq!(
        detached.fix_disposition(),
        FixDisposition::Consented("--adopt-detached-checkouts")
    );
    let canonical = branch(BranchDisciplineKind::CanonicalDetached {
        at_sha: s("aaa"),
        counterpart: None,
        reattachable: false,
    });
    assert_eq!(canonical.fix_disposition(), FixDisposition::Consented("--reattach-checkouts"));
    let drift = CheckViolation::IndexDrift {
        workweave: None,
        repo: s("r"),
        kind: IndexDriftKind::LiveStaged,
    };
    assert_eq!(drift.fix_disposition(), FixDisposition::ReportOnly);
}

#[test]
fn findings_are_worded_for_the_report() {
    assert_eq!(
        message(CheckViolation::OrphanedClone { path: s("github/o/r") }),
        "orphaned clone: github/o/r — not listed in any project's rwv.toml; run `rwv add <url>` \
         to register it, or remove the directory manually"
    );
    assert_eq!(
        message(stale_lock()),
        "stale lock in web: github/o/r locked=aaa actual=bbb; run `rwv lock` to re-snapshot \
         current HEAD SHAs"
    );
    assert_eq!(
        message(CheckViolation::WorkweaveDrift {
            workweave: s("a"),
            kind: DriftKind::Extra,
            repo: s("github/o/r"),
        }),
        "workweave drift in a: extra worktree github/o/r; this worktree has no manifest entry — \
         run `rwv add` to register it or remove it manually"
    );
    assert_eq!(
        message(CheckViolation::IndexDrift {
            workweave: Some(s("a")),
            repo: s("github/o/r"),
            kind: IndexDriftKind::SafeToFix,
        }),
        "a/github/o/r: index stale (run `rwv doctor --fix` to reset)"
    );
    assert_eq!(
        message(CheckViolation::WorkingTreeDrift {
            workweave: None,
            repo: s("github/o/r"),
            kind: WorkingTreeDriftKind::LiveEdits,
        }),
        "github/o/r: working tree has live edits (commit or stash first; not auto-fixed)"
    );
    assert_eq!(
        message(CheckViolation::MissingReplayExclusion {
            project: s("web"),
            sub_kind: ReplayExclusionKind::Absent,
        }),
        "web: project repo missing `rwv.lock merge=rwv-ours` in .gitattributes (run `rwv doctor \
         --fix` to add)"
    );
    assert_eq!(
        message(CheckViolation::HeadUnreadable { repo: s("r"), error: s("gone") }),
        "r: HEAD unreadable (gone)"
    );
    assert_eq!(
        message(CheckViolation::ProjectlessDir { dir: s("/w/projects/x") }),
        "/w/projects/x: directory under projects/ holds no rwv.toml at any depth, so it is not a \
         project and rwv lists nothing for it; write a rwv.toml there (`[repositories]` alone is \
         enough) or remove the directory"
    );
    assert_eq!(
        message(tree(WorkweaveTreeIntegrityKind::DanglingParent { parent_path: s("/gone") })),
        "/w/.workweaves/web--a: marker `parent` points to `/gone` which does not exist; run `rwv \
         doctor --fix` to re-point parent to primary"
    );
    assert_eq!(
        message(CheckViolation::Provenance {
            project: s("web"),
            repo: s("github/o/r"),
            sub_kind: ProvenanceKind::LockShaUnreachable { sha: s("aaa") },
        }),
        "web: github/o/r: lock pins SHA aaa which is absent from the local object store; the \
         canonical store is missing the pinned revision — refresh it from its remote (fetch, not \
         sync)"
    );
    assert_eq!(
        message(CheckViolation::WeaveRootIdentityConflict {
            root: s("/w"),
            pointer_project: None,
            sub_kind: WeaveRootIdentityConflictKind::Unwitnessed { detail: s("Why.") },
        }),
        "/w: carries both `.rwv-active` (which is empty) and `.rwv-workweave`; the two are \
         mutually exclusive. Why. Nothing outside this directory says which file is the stray, so \
         `--fix` does not touch either — delete the one you know to be wrong by hand"
    );
}

#[test]
fn a_detached_checkout_with_an_older_branch_is_not_safe_to_fix() {
    let v = branch(BranchDisciplineKind::Detached {
        expected_ref: s("web--a"),
        recorded_ref: None,
        at_sha: s("aaa"),
        legacy_branch: Some(LegacyRefAtTip {
            branch: s("web--a/main"),
            tip_sha: s("bbb"),
            strands_commits: true,
        }),
    });
    let issues = itemized_violations_to_issues(vec![v]);
    assert!(!issues[0].safe_to_fix);
    assert_eq!(issues[0].severity, Severity::Warning);
    assert_eq!(
        issues[0].message,
        "/w/github/o/r: workweave checkout is detached at aaa while its pre-flat branch \
         `web--a/main` sits at bbb (a commit HEAD does not carry). Reattach to it (`git switch \
         web--a/main`) and re-run `rwv doctor --fix`, which renames it to `web--a`; or run `rwv \
         doctor --fix --adopt-detached-checkouts` to mint `web--a` here at aaa instead. THAT \
         STRANDS the commits on `web--a/main`: adopting gives its name up, and they stay \
         reachable only through the reflog"
    );
}

#[test]
fn advice_names_the_receipted_branch_or_how_to_get_one() {
    let on = |recorded_ref| {
        message(branch(BranchDisciplineKind::ForeignEphemeral {
            actual_branch: s("x"),
            expected_ref: s("web--a"),
            recorded_ref,
        }))
    };
    assert_eq!(
        on(Some(s("web--a"))),
        "/w/github/o/r: workweave checkout is on `x`, a ref rwv recorded for a different workweave \
         (expected its ephemeral branch `web--a`); rwv holds a receipt for `web--a` in this repo's \
         canonical store — use `git switch web--a` to return to it (report-only; no rwv --fix path)"
    );
    assert_eq!(
        on(None),
        "/w/github/o/r: workweave checkout is on `x`, a ref rwv recorded for a different workweave \
         (expected its ephemeral branch `web--a`); rwv holds no receipt for an ephemeral ref in \
         this repo's canonical store, so there is none to return to — `git switch -c web--a/main` \
         creates one, or recreate the workweave so rwv records it (report-only; no rwv --fix path)"
    );
}

#[test]
fn another_workspaces_workweave_is_not_reported() {
    let v = || {
        tree(WorkweaveTreeIntegrityKind::ForeignPrimaryOtherWorkspace { marker_primary: s("/v") })
    };
    assert!(itemized_violations_to_issues(vec![v()]).is_empty());
    assert!(violations_to_issues(vec![v()]).is_empty());
}

#[test]
fn classes_collapse_to_a_count_behind_the_items() {
    let issues = violations_to_issues(vec![
        savepoint(OrphanedSavepointKind::Live),
        lease(),
        stale_lock(),
        lease(),
        savepoint(OrphanedSavepointKind::Redundant),
    ]);
    let messages: Vec<&str> = issues.iter().map(|i| i.message.as_str()).collect();
    assert_eq!(
        messages,
        vec![
            "stale lock in web: github/o/r locked=aaa actual=bbb; run `rwv lock` to re-snapshot \
             current HEAD SHAs",
            "2 dead-op-lease findings — lease files whose recorded owner holds no matching op; \
             `rwv doctor --fix` clears them; per-item detail: `rwv doctor --json`",
            "1 redundant orphaned-savepoint finding — savepoint tip already anchored by a live \
             branch; `rwv doctor --fix` drops them; per-item detail: `rwv doctor --json`",
            "1 live orphaned-savepoint finding — savepoint holding commits no live ref anchors; \
             report-only, reclaimed by the reviewed operator sweep (report-before-drop); per-item \
             detail: `rwv doctor --json`",
        ]
    );
    assert_eq!(issues[0].severity, Severity::Error);
    assert!(issues[1..].iter().all(|i| i.severity == Severity::Warning));
    assert!(issues[1].safe_to_fix && issues[2].safe_to_fix && !issues[3].safe_to_fix);
    assert!(issues.iter().all(|i| i.integration == "core"));
    assert!(issues.iter().all(|i| matches!(i.kind, IssueKind::CoreFinding)));
}

#[test]
fn class_lines_agree_with_their_count() {
    assert_eq!(
        CollapsedClass::StaleRegistryEntry.issue(1).message,
        "1 stale-registry-entry finding — registered workweave path that no longer round-trips; \
         `rwv doctor --fix` prunes them; per-item detail: `rwv doctor --json`"
    );
    assert_eq!(
        CollapsedClass::StaleRegistryEntry.issue(12).message,
        "12 stale-registry-entry findings — registered workweave paths that no longer round-trip; \
         `rwv doctor --fix` prunes them; per-item detail: `rwv doctor --json`"
    );
    assert_eq!(
        CollapsedClass::StaleEphemeralBranchUnowned.issue(3).message,
        "3 stale-ephemeral-branch-unowned findings — branches with no ownership receipt; not \
         rwv's to delete; per-item detail: `rwv doctor --json`"
    );
    assert!(CollapsedClass::DanglingRefReceipt.auto_fixed());
    assert!(!CollapsedClass::SharedBranch.auto_fixed());
    assert_eq!(CollapsedClass::of(&stale_lock()), None);
    assert_eq!(CollapsedClass::of(&lease()), Some(CollapsedClass::DeadOpLease));
}

#[test]
fn the_wire_resolves_paths_against_the_right_root() {
    let dirs = vec![(s("a"), s("/w/.workweaves/web--a"))];
    let at = |workweave| {
        let v = CheckViolation::IndexDrift {
            workweave,
            repo: s("github/o/r"),
            kind: IndexDriftKind::SafeToFix,
        };
        match ViolationOutput::from_violation(v, "/w", &dirs) {
            ViolationOutput::IndexDrift { path, absolute_path, .. } => (path, absolute_path),
            other => panic!("{other:?}"),
        }
    };
    assert_eq!(at(None), (s("github/o/r"), s("/w/github/o/r")));
    assert_eq!(at(Some(s("a"))), (s("github/o/r"), s("/w/.workweaves/web--a/github/o/r")));
    assert_eq!(at(Some(s("b"))), (s("github/o/r"), s("/w/github/o/r")));
}

#[test]
fn the_wire_keeps_what_a_finding_says() {
    let skew = CheckViolation::CargoVersionSkew {
        crate_name: s("serde"),
        occurrences: vec![CargoSkewOccurrence { member: s("m"), requirement: s("1") }],
    };
    match ViolationOutput::from_violation(skew, "/w", &Vec::new()) {
        ViolationOutput::CargoVersionSkew { crate_name, occurrences } => {
            assert_eq!(crate_name, "serde");
            assert_eq!(occurrences[0].member, "m");
            assert_eq!(occurrences[0].requirement, "1");
        }
        other => panic!("{other:?}"),
    }
    match ViolationOutput::from_violation(lease(), "/w", &Vec::new()) {
        ViolationOutput::DeadOpLease { created_at, recorded_owner, .. } => {
            assert_eq!(created_at.as_deref(), Some("2024"));
            assert_eq!(recorded_owner, "/v");
        }
        other => panic!("{other:?}"),
    }
}

#[test]
fn issues_cross_to_the_wire() {
    let issue = Issue {
        integration: s("cargo"),
        severity: Severity::Error,
        message: s("m"),
        kind: IssueKind::MemberIncompatibility(MemberIncompatibility {
            path: s("p"),
            key: s("k"),
            on_disk: s("1"),
            required: s("2"),
            required_by: s("q"),
        }),
        safe_to_fix: true,
    };
    let out = IssueOutput::from_issue(issue);
    assert_eq!(out.integration, "cargo");
    assert_eq!(out.severity, SeverityOutput::Error);
    assert_eq!(out.message, "m");
    assert!(out.safe_to_fix);
    match out.kind {
        IssueKindOutput::MemberIncompatibility(m) => {
            assert_eq!((m.path, m.key, m.on_disk, m.required, m.required_by),
                (s("p"), s("k"), s("1"), s("2"), s("q")));
        }
        other => panic!("{other:?}"),
    }
}

#[test]
fn the_document_holds_everything_in_order() {
    let doc = build_doctor_json(
        "https://schema",
        vec![stale_lock(), lease()],
        vec![Issue::from_core(Severity::Warning, s("m"), false)],
        "/w",
        &Vec::new(),
        Some(Resolution { workspace: s("/w"), workweave: None, project: s("web") }),
        vec![PluginRecord { name: s("x"), path: s("/b/rwv-x"), shadowed: false, shadowed_by: None }],
        vec![AdvisoryOutput {
            kind: AdvisoryKindOutput::DerivedStateStale,
            remedy: s("r"),
            inputs: vec![s("i")],
        }],
    );
    assert_eq!(doc.schema_url, "https://schema");
    assert!(matches!(doc.violations[0], ViolationOutput::StaleLock { .. }));
    assert!(matches!(doc.violations[1], ViolationOutput::DeadOpLease { .. }));
    assert_eq!(doc.violations.len(), 2);
    assert_eq!(doc.issues.len(), 1);
    assert_eq!(doc.plugins[0].name, "x");
    assert_eq!(doc.advisories[0].inputs, vec![s("i")]);
    assert_eq!(doc.resolution.unwrap().project, "web");
}
