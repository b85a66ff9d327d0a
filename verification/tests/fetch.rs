use repoweave::branches::HeadReading;
use repoweave::fetch::{
    check_lock, fetch_project_repos, find_incomplete_repos, lock_places, merge_lock, orphan_pins,
    outcome_record, plan_activation, plan_lock, project_dir_in, resolve_source, run_fetch,
    run_fetch_in_place, streams_outcomes, work_items, Activation, FetchMode, FetchOutcomeStatus,
    FetchRun, LockPlan, RepoSelection, SourceStart,
};
use repoweave::fetch_repo::{
    fetch_one, role_name, start_fetch, FetchJob, FetchOutcome, FetchReply, FetchStep, PinState,
};
use repoweave::model::{LockEntry, LockFile, Manifest, RepoEntry, Role, VcsType};

fn s(text: &str) -> String {
    text.to_string()
}

// ---------------------------------------------------------------------------
// Sources
// ---------------------------------------------------------------------------

#[test]
fn resolve_source_passes_through_urls() {
    let url = "https://github.com/org/repo.git";
    let (resolved_url, owner) = resolve_source(url).unwrap();
    assert_eq!(resolved_url.to_string(), url);
    assert_eq!(owner, "org");
}

#[test]
fn resolve_source_passes_through_ssh_urls() {
    let url = "git@github.com:org/repo.git";
    let (resolved_url, owner) = resolve_source(url).unwrap();
    assert_eq!(resolved_url.to_string(), url);
    assert_eq!(owner, "org");
}

#[test]
fn resolve_source_passes_through_file_urls() {
    let url = "file:///tmp/repo.git";
    let (resolved_url, owner) = resolve_source(url).unwrap();
    assert_eq!(resolved_url.to_string(), url);
    assert_eq!(owner, "");
}

#[test]
fn resolve_source_resolves_two_part_shorthand() {
    let (url, owner) = resolve_source("cwalv/repoweave").unwrap();
    assert_eq!(url.to_string(), "https://github.com/cwalv/repoweave.git");
    assert_eq!(owner, "cwalv");
}

#[test]
fn resolve_source_resolves_three_part_shorthand() {
    let (url, owner) = resolve_source("gitlab/org/proj").unwrap();
    assert_eq!(url.to_string(), "https://gitlab.com/org/proj.git");
    assert_eq!(owner, "org");
}

#[test]
fn resolve_source_rejects_invalid_shorthand() {
    assert!(resolve_source("not-a-valid-source").is_err());
}

#[test]
fn resolve_source_rejects_four_part_shorthand() {
    assert!(resolve_source("a/b/c/d").is_err());
}

#[test]
fn resolve_source_refuses_local_paths_and_unknown_registries() {
    assert!(resolve_source("./repo").is_err());
    assert!(resolve_source("../repo").is_err());
    assert!(resolve_source("/repo").is_err());
    assert!(resolve_source("").is_err());
    assert_eq!(
        resolve_source("sourceforge/org/proj").unwrap_err(),
        "'sourceforge/org/proj' is neither a URL nor an `owner/repo` or `registry/owner/repo` shorthand"
    );
}

#[test]
fn owners_are_read_off_registry_urls_only() {
    assert_eq!(resolve_source("https://gitlab.com/team/tool.git").unwrap().1, "team");
    assert_eq!(resolve_source("git@gitlab.com:team/tool.git").unwrap().1, "team");
    assert_eq!(resolve_source("https://example.com/team/tool.git").unwrap().1, "");
    assert_eq!(resolve_source("alice@example.com:team/tool.git").unwrap().1, "");
}

// ---------------------------------------------------------------------------
// The lock before a fetch
// ---------------------------------------------------------------------------

fn make_entry(role: Role) -> RepoEntry {
    RepoEntry {
        vcs_type: VcsType::Git,
        url: s("https://example.com/repo.git"),
        version: s("main"),
        role,
    }
}

fn make_lock_entry() -> LockEntry {
    LockEntry {
        vcs_type: VcsType::Git,
        url: s("https://example.com/repo.git"),
        version: s("abc123"),
    }
}

fn primary_and_reference() -> (Manifest, LockFile) {
    let manifest = Manifest {
        repositories: vec![
            (s("github/org/primary"), make_entry(Role::Owned)),
            (s("github/org/reference"), make_entry(Role::Reference)),
        ],
    };
    let lock = LockFile {
        repositories: vec![(s("github/org/primary"), make_lock_entry())],
    };
    (manifest, lock)
}

#[test]
fn find_incomplete_repos_flags_reference_when_no_reference_is_false() {
    let (manifest, lock) = primary_and_reference();
    let incomplete = find_incomplete_repos(&manifest, &lock, false);
    assert_eq!(incomplete, vec![s("github/org/reference")]);
}

#[test]
fn find_incomplete_repos_excludes_reference_when_no_reference_is_true() {
    let (manifest, lock) = primary_and_reference();
    let incomplete = find_incomplete_repos(&manifest, &lock, true);
    assert!(incomplete.is_empty(), "expected empty, got {incomplete:?}");
}

#[test]
fn uncovered_repos_are_named_once_and_in_order() {
    let (mut manifest, mut lock) = primary_and_reference();
    lock.repositories.clear();
    let (_, entry) = manifest.repositories.remove(0);
    manifest.repositories =
        ["a", "b", "c"].iter().map(|path| (s(path), entry.clone())).collect();
    assert_eq!(find_incomplete_repos(&manifest, &lock, false), vec!["a", "b", "c"]);
}

#[test]
fn a_frozen_fetch_needs_a_complete_lock() {
    let (manifest, lock) = primary_and_reference();
    let path = s("/w/projects/p/rwv.lock");
    assert_eq!(
        check_lock(FetchMode::Frozen, &manifest, &None, &path, false).unwrap_err(),
        "rwv fetch --frozen: lock file does not exist at /w/projects/p/rwv.lock"
    );
    let held = Some(lock);
    assert_eq!(
        check_lock(FetchMode::Frozen, &manifest, &held, &path, false).unwrap_err(),
        "rwv fetch --frozen: lock file is incomplete; repos not covered by lock: github/org/reference"
    );
    assert!(check_lock(FetchMode::Frozen, &manifest, &held, &path, true).is_ok());
    assert!(check_lock(FetchMode::Default, &manifest, &None, &path, false).is_ok());
}

#[test]
fn pins_without_an_entry_are_warned_of() {
    let (manifest, mut lock) = primary_and_reference();
    lock.repositories.push((s("github/org/gone"), make_lock_entry()));
    assert_eq!(
        orphan_pins(&manifest, &lock),
        vec![s("rwv fetch: warning: orphan in lock: github/org/gone (lock entry has no manifest entry)")]
    );
}

#[test]
fn a_selection_narrows_the_work() {
    let (manifest, _) = primary_and_reference();
    let all = RepoSelection { everything: true, repos: vec![] };
    let one = RepoSelection { everything: false, repos: vec![s("github/org/reference")] };
    assert_eq!(work_items(&manifest, &all), vec![0, 1]);
    assert_eq!(work_items(&manifest, &one), vec![1]);
}

// ---------------------------------------------------------------------------
// Modes
// ---------------------------------------------------------------------------

#[test]
fn fetch_mode_variants_are_distinct() {
    assert_ne!(FetchMode::Default, FetchMode::Frozen);
}

#[test]
fn fetch_mode_default_is_default_variant() {
    let mode = FetchMode::Default;
    assert_eq!(mode, FetchMode::Default);
}

#[test]
fn fetch_mode_is_copy() {
    let a = FetchMode::Default;
    let b = a;
    assert_eq!(a, b);
}

#[test]
fn fetch_mode_debug() {
    let text = format!("{:?}", FetchMode::Frozen);
    assert!(text.contains("Frozen"));
}

// ---------------------------------------------------------------------------
// One repo
// ---------------------------------------------------------------------------

fn job(pin: PinState, may_detach: bool) -> FetchJob {
    FetchJob {
        repo_path: s("github/org/repo"),
        entry: make_entry(Role::Owned),
        dest: s("/w/github/org/repo"),
        pin,
        no_reference: false,
        may_detach,
        counterpart: Ok(s("main")),
    }
}

fn pinned(may_detach: bool) -> FetchJob {
    job(PinState::Pinned { version: s("v1") }, may_detach)
}

fn outcome(step: FetchStep) -> FetchOutcome {
    match step {
        FetchStep::Finished { outcome } => outcome,
        other => panic!("not finished: {other:?}"),
    }
}

fn failure(step: FetchStep) -> String {
    match outcome(step) {
        FetchOutcome::Failed { msg } => msg,
        other => panic!("not failed: {other:?}"),
    }
}

fn is_ready(step: FetchStep) -> bool {
    matches!(outcome(step), FetchOutcome::Ready { add_to_lock: None })
}

#[test]
fn a_reference_repo_can_be_left_out() {
    let mut j = job(PinState::NoLock, false);
    j.entry.role = Role::Reference;
    j.no_reference = true;
    let (step, told) = start_fetch(&j, true);
    assert!(matches!(outcome(step), FetchOutcome::Skipped));
    assert_eq!(told, vec![s("rwv fetch: skipping github/org/repo (role: reference)")]);
}

#[test]
fn a_present_clone_without_a_pin_is_added_to_the_lock() {
    let (step, told) = start_fetch(&job(PinState::Uncovered, false), true);
    match outcome(step) {
        FetchOutcome::Ready { add_to_lock } => assert_eq!(add_to_lock, Some(s("github/org/repo"))),
        other => panic!("{other:?}"),
    }
    assert_eq!(told, vec![s("rwv fetch: adding github/org/repo to lock at branch HEAD (additive)")]);
}

#[test]
fn a_present_clone_without_a_lock_is_left_alone() {
    let (step, told) = start_fetch(&job(PinState::NoLock, false), true);
    assert!(is_ready(step));
    assert_eq!(told, vec![s("rwv fetch: skip github/org/repo (already exists)")]);
}

#[test]
fn a_present_clone_is_fast_forwarded_to_its_pin() {
    let j = pinned(false);
    let (step, told) = start_fetch(&j, true);
    assert_eq!(told, vec![s("rwv fetch: aligning github/org/repo to v1")]);
    assert!(matches!(&step, FetchStep::ResolvePin { version } if version == "v1"));
    let (step, _) = fetch_one(&j, step, FetchReply::Revision { at: s("bbb") });
    assert!(matches!(&step, FetchStep::ReadHead { target } if target == "bbb"));
    let head = HeadReading::Attached { branch: s("main") };
    let (step, _) = fetch_one(&j, step, FetchReply::Head { head });
    assert!(matches!(&step, FetchStep::ReadRevision { .. }));
    let (step, _) = fetch_one(&j, step, FetchReply::Revision { at: s("aaa") });
    assert!(matches!(&step, FetchStep::CheckAncestor { head, .. } if head == "aaa"));
    let (step, _) = fetch_one(&j, step, FetchReply::Answer { yes: true });
    assert!(matches!(&step, FetchStep::AdvanceBranch { branch, .. } if branch == "main"));
    let (step, _) = fetch_one(&j, step, FetchReply::Done);
    assert!(is_ready(step));
}

fn at_check_ancestor() -> FetchStep {
    FetchStep::CheckAncestor { branch: s("main"), head: s("aaa"), target: s("bbb") }
}

#[test]
fn a_branch_is_not_moved_backwards() {
    let (step, _) = fetch_one(&pinned(false), at_check_ancestor(), FetchReply::Answer { yes: false });
    assert!(failure(step).starts_with(
        "github/org/repo: aligning 'main' to bbb is not a fast-forward — the pin is not a descendant"
    ));
    let (step, _) = fetch_one(&pinned(true), at_check_ancestor(), FetchReply::Answer { yes: false });
    assert!(matches!(&step, FetchStep::Detach { target } if target == "bbb"));
}

#[test]
fn another_branch_is_never_moved() {
    let read = FetchStep::ReadHead { target: s("bbb") };
    let head = HeadReading::Attached { branch: s("mine") };
    let (step, _) = fetch_one(&pinned(false), read, FetchReply::Head { head });
    assert_eq!(
        failure(step),
        "github/org/repo: is on branch 'mine', not the local counterpart ('main') of the branch the \
         manifest declares — rwv fetch moves only that branch, so it will not relocate one it cannot \
         relate to the lock.\n  Switch to 'main' and re-run, or re-run with --detach-checkouts to \
         materialize bbb on a detached HEAD (your branch is not moved)."
    );
    let read = FetchStep::ReadHead { target: s("bbb") };
    let head = HeadReading::Attached { branch: s("mine") };
    let (step, _) = fetch_one(&pinned(true), read, FetchReply::Head { head });
    assert!(matches!(step, FetchStep::Detach { .. }));
}

#[test]
fn a_detached_head_moves_and_an_aligned_one_stays() {
    let j = pinned(false);
    let head = HeadReading::Detached { at: s("aaa") };
    let (step, _) =
        fetch_one(&j, FetchStep::ReadHead { target: s("bbb") }, FetchReply::Head { head });
    assert!(matches!(&step, FetchStep::AdvanceDetached { target } if target == "bbb"));
    let head = HeadReading::Detached { at: s("bbb") };
    let (step, _) =
        fetch_one(&j, FetchStep::ReadHead { target: s("bbb") }, FetchReply::Head { head });
    assert!(is_ready(step));
}

#[test]
fn an_unborn_branch_is_refused() {
    let head = HeadReading::Unborn { branch: s("main") };
    let (step, _) = fetch_one(
        &pinned(true),
        FetchStep::ReadHead { target: s("bbb") },
        FetchReply::Head { head },
    );
    assert!(failure(step).starts_with("github/org/repo: branch 'main' has no commits yet"));
}

#[test]
fn a_missing_pinned_repo_is_cloned_at_its_pin() {
    let j = pinned(false);
    let (step, told) = start_fetch(&j, false);
    assert!(told.is_empty());
    assert!(matches!(&step, FetchStep::CreateParent { parent } if parent == "/w/github/org"));
    let (step, told) = fetch_one(&j, step, FetchReply::Done);
    assert_eq!(
        told,
        vec![
            s("rwv fetch: cloning github/org/repo from https://example.com/repo.git (role: owned)"),
            s("rwv fetch: cloning github/org/repo onto main at v1"),
        ]
    );
    assert!(matches!(&step, FetchStep::CloneAt { branch, version } if branch == "main" && version == "v1"));
    let (step, _) = fetch_one(&j, step, FetchReply::Done);
    assert!(is_ready(step));
}

#[test]
fn a_missing_repo_is_cloned_and_added() {
    let j = job(PinState::Uncovered, false);
    let (step, told) = fetch_one(&j, FetchStep::Clone, FetchReply::Done);
    assert_eq!(
        told,
        vec![s("rwv fetch: cloned github/org/repo at branch HEAD (additive — no lock entry)")]
    );
    match outcome(step) {
        FetchOutcome::Ready { add_to_lock } => assert_eq!(add_to_lock, Some(s("github/org/repo"))),
        other => panic!("{other:?}"),
    }
    let (step, told) = fetch_one(&job(PinState::NoLock, false), FetchStep::Clone, FetchReply::Done);
    assert!(told.is_empty());
    assert!(is_ready(step));
}

#[test]
fn every_step_reports_its_failure() {
    let failed = || FetchReply::Failed { error: s("boom") };
    let j = pinned(false);
    let step = FetchStep::ResolvePin { version: s("v1") };
    assert_eq!(
        failure(fetch_one(&j, step, failed()).0),
        "github/org/repo: failed to resolve v1: boom"
    );
    let step = FetchStep::CreateParent { parent: s("/w/github/org") };
    assert_eq!(
        failure(fetch_one(&j, step, failed()).0),
        "github/org/repo: failed to create directory /w/github/org: boom"
    );
    let step = FetchStep::CloneAt { branch: s("main"), version: s("v1") };
    assert_eq!(
        failure(fetch_one(&j, step, failed()).0),
        "github/org/repo: failed to materialize https://example.com/repo.git at v1: boom"
    );
    assert_eq!(
        failure(fetch_one(&j, FetchStep::Clone, failed()).0),
        "github/org/repo: failed to clone https://example.com/repo.git into /w/github/org/repo: boom"
    );
    let step = FetchStep::Detach { target: s("bbb") };
    assert_eq!(failure(fetch_one(&j, step, failed()).0), "github/org/repo: boom");
}

#[test]
fn a_declaration_that_is_no_branch_is_refused() {
    let mut j = pinned(false);
    j.counterpart = Err(s("empty"));
    let step = FetchStep::CreateParent { parent: s("/w") };
    assert_eq!(
        failure(fetch_one(&j, step, FetchReply::Done).0),
        "github/org/repo: manifest declares an invalid tracking branch 'main': empty"
    );
}

#[test]
fn roles_have_names() {
    assert_eq!(role_name(Role::Owned), "owned");
    assert_eq!(role_name(Role::Dependency), "dependency");
    assert_eq!(role_name(Role::Reference), "reference");
}

// ---------------------------------------------------------------------------
// The end of a fetch
// ---------------------------------------------------------------------------

fn run(json: bool, jobs: usize) -> FetchRun {
    FetchRun {
        root: s("/w"),
        json,
        jobs,
        schema_url: s("https://example.com/fetch.json"),
        resolution: None,
    }
}

fn three_outcomes() -> (Vec<String>, Vec<FetchOutcome>) {
    (
        vec![s("a"), s("b"), s("c")],
        vec![
            FetchOutcome::Ready { add_to_lock: Some(s("a")) },
            FetchOutcome::Skipped,
            FetchOutcome::Failed { msg: s("c: boom") },
        ],
    )
}

#[test]
fn a_failed_fetch_is_summed_up() {
    let (repos, outcomes) = three_outcomes();
    let finish = fetch_project_repos(run(false, 1), &repos, &outcomes);
    assert_eq!(
        finish.stderr,
        vec![
            s("rwv fetch: error: c: boom"),
            s("rwv fetch: 1/2 repo(s) succeeded, 1 failed:"),
            s("  - c: boom"),
        ]
    );
    assert!(finish.stdout.is_empty());
    assert!(finish.document.is_none());
    assert_eq!(finish.error, Some(s("fetch completed with 1 clone failure(s) out of 2 repo(s)")));
    assert_eq!(finish.added_to_lock, vec![s("a")]);
}

#[test]
fn the_document_carries_every_outcome() {
    let (repos, outcomes) = three_outcomes();
    let finish = fetch_project_repos(run(true, 1), &repos, &outcomes);
    assert!(finish.stderr.is_empty());
    assert!(finish.error.is_some());
    let document = finish.document.unwrap();
    assert_eq!(document.schema, "https://example.com/fetch.json");
    let statuses: Vec<FetchOutcomeStatus> = document.outcomes.iter().map(|o| o.status).collect();
    assert_eq!(
        statuses,
        vec![FetchOutcomeStatus::Succeeded, FetchOutcomeStatus::Skipped, FetchOutcomeStatus::Failed]
    );
    assert_eq!(document.outcomes[1].message, Some(s("skipped b")));
    assert_eq!(document.outcomes[2].message, Some(s("c: boom")));
    assert_eq!(document.outcomes[2].absolute_path, "/w/c");
    assert!(document.outcomes[2].is_failure());
    assert!(!document.outcomes[0].is_failure());
}

#[test]
fn streamed_outcomes_leave_no_document() {
    let (repos, outcomes) = three_outcomes();
    assert!(streams_outcomes(true, 2));
    assert!(!streams_outcomes(true, 1));
    assert!(!streams_outcomes(false, 8));
    assert!(fetch_project_repos(run(true, 2), &repos, &outcomes).document.is_none());
    let record = outcome_record(&outcomes[0], &repos[0], &s("/w"));
    assert_eq!(record.path, "a");
    assert_eq!(record.message, None);
}

#[test]
fn a_fetch_without_failures_is_done() {
    let finish = fetch_project_repos(
        run(false, 1),
        &vec![s("a")],
        &vec![FetchOutcome::Ready { add_to_lock: None }],
    );
    assert_eq!(finish.stdout, vec![s("rwv fetch: done (1 repo(s) ready)")]);
    assert!(finish.stderr.is_empty());
    assert!(finish.error.is_none());
}

#[test]
fn the_lock_is_written_only_by_a_full_default_fetch() {
    assert_eq!(plan_lock(FetchMode::Default, true, false, 0), LockPlan::Bootstrap);
    assert_eq!(plan_lock(FetchMode::Default, true, true, 2), LockPlan::Extend);
    assert_eq!(plan_lock(FetchMode::Default, true, true, 0), LockPlan::Leave);
    assert_eq!(plan_lock(FetchMode::Default, false, false, 2), LockPlan::Leave);
    assert_eq!(plan_lock(FetchMode::Frozen, true, false, 2), LockPlan::Leave);
}

#[test]
fn extending_a_lock_keeps_its_pins() {
    let pin = |version: &str| LockEntry {
        vcs_type: VcsType::Git,
        url: s("u"),
        version: s(version),
    };
    let lock = LockFile {
        repositories: vec![(s("a"), pin("tag-1")), (s("d"), pin("tag-4"))],
    };
    let fresh = LockFile {
        repositories: vec![(s("a"), pin("sha1")), (s("c"), pin("sha3")), (s("d"), pin("sha4"))],
    };
    let merged = merge_lock(lock, &fresh, &vec![s("c"), s("b")]);
    let pins: Vec<(&str, &str)> = merged
        .repositories
        .iter()
        .map(|(path, entry)| (path.as_str(), entry.version.as_str()))
        .collect();
    assert_eq!(pins, vec![("a", "tag-1"), ("c", "sha3"), ("d", "tag-4")]);
}

#[test]
fn a_lock_is_made_of_the_clones_that_are_there() {
    let (manifest, _) = primary_and_reference();
    assert_eq!(lock_places(&manifest, true), vec![0]);
    assert_eq!(lock_places(&manifest, false), vec![0, 1]);
}

#[test]
fn a_project_is_activated_only_where_none_is_active() {
    assert!(matches!(
        plan_activation(FetchMode::Default, true, true, &None),
        Activation::Activate
    ));
    match plan_activation(FetchMode::Default, true, true, &Some(s("web"))) {
        Activation::Kept { told } => assert_eq!(
            told,
            "rwv fetch: skipping auto-activate (project 'web' already active)"
        ),
        other => panic!("{other:?}"),
    }
    assert!(matches!(plan_activation(FetchMode::Default, true, false, &None), Activation::No));
    assert!(matches!(plan_activation(FetchMode::Frozen, true, true, &None), Activation::No));
}

#[test]
fn a_taken_name_is_refused_with_a_hint() {
    match run_fetch(&s("/w"), &s("web"), &s("org"), true) {
        SourceStart::Taken { told, error } => {
            assert_eq!(
                told,
                vec![
                    s("Error: project 'web' already exists at projects/web/"),
                    s("Hint: try a scoped path: projects/org/web/"),
                ]
            );
            assert_eq!(error, "project 'web' already exists at projects/web/");
        }
        other => panic!("{other:?}"),
    }
    match run_fetch(&s("/w"), &s("web"), &s(""), true) {
        SourceStart::Taken { told, .. } => {
            assert_eq!(told[1], "Hint: try a scoped path: projects/{owner}/web/")
        }
        other => panic!("{other:?}"),
    }
    match run_fetch(&s("/w"), &s("web"), &s(""), false) {
        SourceStart::Clone { told, project_dir } => {
            assert_eq!(told, "rwv fetch: cloning project 'web'");
            assert_eq!(project_dir, "/w/projects/web");
        }
        other => panic!("{other:?}"),
    }
}

#[test]
fn a_fetch_in_place_clones_into_the_primary() {
    let (dir, root) = run_fetch_in_place(&s("/w/.workweaves/x"), &s("/w"), &s("web"));
    assert_eq!(dir, "/w/.workweaves/x/projects/web");
    assert_eq!(root, "/w");
    assert_eq!(project_dir_in(&s("/w"), &s("web")), "/w/projects/web");
}
