use repoweave::branches::BranchObservation;
use repoweave::collect::{
    collect_doctor_violations, DoctorReadings, DriftReading, PendingIndex, PointerReading,
    ProjectProbe,
};
use repoweave::doctor::{
    collect_doctor_issues, disabled_integration_issues, part_issues, plan_regeneration,
    plan_resurfacing, plan_run, push_stale_generations, run_check, run_check_json,
    stale_generation_advisory, stale_generation_issue, DisabledArtifacts, JsonFrame, OwnedPath,
    ProjectIssues, Regeneration, Repair, RunStage, StaleGeneration,
};
use repoweave::drift::{GitDirLink, IndexTreeState, ReplayExclusionState, WorkingTreeState};
use repoweave::hygiene::StateHygieneScanTarget;
use repoweave::issue::{Issue, IssueKind, Severity};
use repoweave::kinds::KindFilter;
use repoweave::legacy::{MarkerDirReading, ProjectDirReading};
use repoweave::model::{Manifest, Project, RepoEntry, ResolvedLockFile, Role, VcsType};
use repoweave::provenance::{CargoReading, SkewRecord, SubmoduleReading};
use repoweave::receipts::RecordedRefs;
use repoweave::scope::ScopeReading;
use repoweave::targets::{
    drift_candidates, drift_targets, hygiene_targets, op_state_targets, progress_line,
    progress_start, repo_locations, workweave_dirs, WorkweaveDir,
};
use repoweave::tree::TreeObservation;
use repoweave::violation::CheckViolation;
use repoweave::wire::{IssueKindOutput, ViolationOutput};
use repoweave::world::{
    load_doctor_world, projects_to_load, DoctorWorld, HeadRead, LoadedProject, LockResolution,
    ProjectLoad, UnnameableDir, WorldReading,
};

fn s(text: &str) -> String {
    text.to_owned()
}

fn texts(list: &[&str]) -> Vec<String> {
    list.iter().map(|t| s(t)).collect()
}

fn project(name: &str, repos: &[&str]) -> Project {
    let entry = || RepoEntry {
        vcs_type: VcsType::Git,
        url: s("u"),
        version: s("main"),
        role: Role::Owned,
    };
    Project {
        name: s(name),
        manifest: Manifest { repositories: repos.iter().map(|r| (s(r), entry())).collect() },
        lock: None,
    }
}

fn load(name: &str, loaded: Result<LoadedProject, String>) -> ProjectLoad {
    ProjectLoad {
        name: s(name),
        manifest_path: format!("/w/projects/{name}/rwv.toml"),
        loaded,
    }
}

fn world(active: Option<&str>, scope_all: bool) -> DoctorWorld {
    load_doctor_world(WorldReading {
        workspace_dir: s("/w"),
        active_project: active.map(s),
        scope_all,
        heads: vec![
            HeadRead { repo: s("a"), head: Ok(s("aaa")) },
            HeadRead { repo: s("x"), head: Err(s("torn")) },
        ],
        projects_dir_error: Some((s("/w/projects"), s("denied"))),
        loads: vec![
            load(
                "web",
                Ok(LoadedProject {
                    project: project("web", &["b", "a"]),
                    resolution: Some(LockResolution {
                        resolved: ResolvedLockFile { repositories: vec![(s("a"), s("bbb"))] },
                        failures: texts(&["b"]),
                    }),
                }),
            ),
            load("api", Err(s("no [repositories]"))),
        ],
        projectless: texts(&["/w/projects/empty"]),
        unnameable: vec![UnnameableDir { dir: s("/w/projects/x y"), derived: s("x y"), error: s("blank") }],
    })
}

#[test]
fn a_narrowed_run_loads_the_active_project() {
    let found = texts(&["api", "web"]);
    assert_eq!(projects_to_load(&found, false, &Some(s("web"))), texts(&["web"]));
    assert_eq!(projects_to_load(&found, true, &Some(s("web"))), found);
    assert_eq!(projects_to_load(&found, false, &None), found);
}

#[test]
fn a_world_holds_what_was_read_and_what_was_not() {
    let w = world(Some("web"), false);
    assert_eq!(w.input.known_repos, texts(&["b", "a"]));
    assert_eq!(w.input.repos_on_disk, texts(&["a", "x"]));
    assert_eq!(w.input.head_revisions, vec![(s("a"), s("aaa"))]);
    assert_eq!(w.input.projects.len(), 1);
    assert_eq!(w.head_read_failures, vec![(s("x"), s("torn"))]);
    assert_eq!(w.lock_resolve_failures, vec![(s("web"), s("b"))]);
    assert_eq!(w.unparseable_projects[0].message, "no [repositories]");
    assert!(!w.input.check_orphans);
    assert_eq!(w.project_scope().as_deref(), Some("web"));
}

#[test]
fn orphans_need_a_weave_wide_run() {
    assert!(world(Some("web"), true).input.check_orphans);
    assert!(world(None, false).input.check_orphans);
    assert_eq!(world(Some("web"), true).project_scope(), None);
    assert_eq!(world(None, false).project_scope(), None);
}

fn workweaves() -> Vec<WorkweaveDir> {
    vec![
        WorkweaveDir { name: s("one"), usable: true, dir: s("/c/web--one") },
        WorkweaveDir { name: s("not usable"), usable: false, dir: s("/c/odd") },
    ]
}

fn shown(targets: &[StateHygieneScanTarget]) -> Vec<(Option<String>, String)> {
    targets.iter().map(|t| (t.workweave.clone(), t.abs.clone())).collect()
}

#[test]
fn checkouts_on_disk_are_visited_once() {
    let projects = vec![project("web", &["a", "b"]), project("api", &["a"])];
    assert_eq!(drift_candidates(&s("/w"), &projects), texts(&["/w/a", "/w/b", "/w/a"]));
    let on_disk = texts(&["/w/a", "/c/web--one/a", "/c/web--one/b", "/c/odd/a"]);
    let targets = drift_targets(&s("/w"), &workweaves(), &projects, &on_disk);
    assert_eq!(
        shown(&targets),
        vec![
            (None, s("/w/a")),
            (Some(s("one")), s("/c/web--one/a")),
            (Some(s("one")), s("/c/web--one/b")),
        ]
    );
    let dirs = workweave_dirs(&workweaves());
    let directories = texts(&["/w/projects/web", "/c/web--one/projects/web"]);
    let hygiene = hygiene_targets(
        targets,
        &s("/w"),
        &dirs,
        &texts(&["projects/web", "projects/api"]),
        &directories,
    );
    assert_eq!(
        shown(&hygiene[3..]),
        vec![(None, s("/w/projects/web")), (Some(s("one")), s("/c/web--one/projects/web"))]
    );
    let locations = repo_locations(hygiene);
    assert_eq!(locations.len(), 5);
    let roots: Vec<String> =
        op_state_targets(&s("/w"), &dirs).into_iter().map(|t| t.workspace_dir).collect();
    assert_eq!(roots, texts(&["/w", "/c/web--one"]));
}

#[test]
fn a_large_scan_tells_of_its_progress() {
    assert_eq!(progress_start(0), None);
    assert_eq!(
        progress_start(3).as_deref(),
        Some("doctor: scanning 3 worktree(s) for drift...")
    );
    assert_eq!(progress_line(49, 49), None);
    assert_eq!(progress_line(3, 50).as_deref(), Some("doctor: scanned 3/50"));
    assert_eq!(progress_line(4, 50), None);
    assert_eq!(progress_line(60, 60).as_deref(), Some("doctor: scanned 60/60"));
}

fn readings() -> DoctorReadings {
    DoctorReadings {
        pointer: None,
        roots: Vec::new(),
        project_dirs: Vec::new(),
        marker_dirs: Vec::new(),
        pending_indexes: Vec::new(),
        tree: TreeObservation {
            workspace: s("/w"),
            registries: Vec::new(),
            found: Vec::new(),
            ledgers: Vec::new(),
            dirs: Vec::new(),
        },
        siblings: Vec::new(),
        provenance: Vec::new(),
        attributes: Vec::new(),
        from_primary: true,
        stores: Vec::new(),
        receipts: Vec::new(),
        branches: BranchObservation {
            recorded: RecordedRefs::new(Vec::new()),
            workweaves: Vec::new(),
            workweave_dirs: Vec::new(),
            indexes: Vec::new(),
            stores: Vec::new(),
        },
        scope: ScopeReading {
            containers: Vec::new(),
            markers: Vec::new(),
            root: s("/w"),
            known_repos: Vec::new(),
        },
        drift: Vec::new(),
        hygiene: Vec::new(),
        op_states: Vec::new(),
        probes: Vec::new(),
        config_key: s("merge.rwv-ours.driver"),
    }
}

fn kinds(r: &DoctorReadings) -> Vec<String> {
    collect_doctor_violations(&world(Some("web"), false), r, Vec::new(), Vec::new())
        .iter()
        .map(|v| s(v.wire_kind()))
        .collect()
}

#[test]
fn what_could_not_be_read_is_reported_last() {
    assert_eq!(
        kinds(&readings()),
        texts(&[
            "dangling-reference",
            "stale-lock",
            "unparseable-project",
            "head-unreadable",
            "unresolvable-lock-entry",
            "projects-dir-unreadable",
            "projectless-dir",
            "unnameable-project",
        ])
    );
}

#[test]
fn scans_report_in_their_order() {
    let mut r = readings();
    r.pointer = Some(PointerReading { project: s("gone"), dir: s("/w/projects/gone"), is_there: false });
    r.project_dirs = vec![ProjectDirReading {
        relative: s("web"),
        legacy_path: s("/w/projects/web/rwv.yaml"),
        has_legacy: true,
        has_current: false,
        nameable: true,
        refusal: s("no"),
    }];
    r.marker_dirs = vec![MarkerDirReading { marker_path: s("/c/a/.m"), legacy_primary: Some(s("/w")) }];
    r.pending_indexes = vec![
        PendingIndex { project: s("web"), index_path: Some(s("/i")) },
        PendingIndex { project: s("api"), index_path: Some(s("/j")) },
    ];
    r.probes = vec![ProjectProbe {
        project: s("web"),
        is_dir: true,
        exclusion: Ok(ReplayExclusionState::Absent),
        driver: Err(s("torn")),
    }];
    let cargo = vec![
        CargoReading::Unreadable { error: s("bad") },
        CargoReading::Members {
            count: 1,
            skews: vec![SkewRecord { crate_name: s("x"), occurrences: Vec::new() }],
            shadows: Vec::new(),
        },
    ];
    let submodules = vec![SubmoduleReading {
        workweave: s("one"),
        repo: s("a"),
        is_alias: false,
        is_dir: true,
        empty_paths: texts(&["v"]),
    }];
    let found = collect_doctor_violations(&world(Some("web"), false), &r, cargo, submodules);
    let kinds: Vec<&str> = found.iter().map(|v| v.wire_kind()).collect();
    assert_eq!(
        kinds[2..11],
        [
            "dangling-active-project",
            "unparseable-project",
            "legacy-manifest-format",
            "legacy-workweave-marker",
            "legacy-workweave-index",
            "cargo-version-skew",
            "uninitialized-submodule",
            "missing-replay-exclusion",
            "merge-driver-config-unreadable",
        ]
    );
}

#[test]
fn a_checkout_without_its_clone_is_not_called_dirty() {
    let drift = |workweave: Option<&str>, clone_is_there| DriftReading {
        target: StateHygieneScanTarget { workweave: workweave.map(s), abs: s("/x"), repo: s("a") },
        link: GitDirLink::Linked { git_dir: s("/w/a/.git/worktrees/one") },
        common: None,
        clone_is_there,
        dirty: Some(true),
        index: IndexTreeState::RecentAncestorTree,
        tree: WorkingTreeState::Unrecognized,
    };
    let of = |d| {
        let mut r = readings();
        r.drift = vec![d];
        kinds(&r)[3..kinds(&r).len() - 5].to_vec()
    };
    assert_eq!(of(drift(Some("one"), false)), texts(&["missing-canonical-clone"]));
    assert_eq!(of(drift(Some("one"), true)), texts(&["index-drift", "working-tree-drift"]));
    assert_eq!(of(drift(None, false)), texts(&["index-drift", "working-tree-drift"]));
    let mut clean = drift(None, true);
    clean.dirty = Some(false);
    assert_eq!(of(clean), Vec::<String>::new());
}

// Issues.

fn issue(kind: IssueKind, severity: Severity, safe_to_fix: bool) -> Issue {
    Issue { integration: s("npm"), severity, message: s("m"), kind, safe_to_fix }
}

fn fixable() -> Issue {
    issue(IssueKind::ManagedFileDrift, Severity::Warning, true)
}

fn held() -> Issue {
    issue(IssueKind::ManagedFileUserHeld, Severity::Warning, false)
}

fn collected(repair: Repair, verify: Vec<Issue>, regenerated: Option<Result<(), String>>)
    -> (Vec<String>, Vec<Issue>)
{
    let mut issues = Vec::new();
    let told = collect_doctor_issues(
        &mut issues,
        ProjectIssues {
            project: s("web"),
            repair,
            output_dir: s("/w/projects/web"),
            checks: Vec::new(),
            disabled: Vec::new(),
            verify,
            regenerated,
            incompatibilities: Vec::new(),
            surfacing: Vec::new(),
            resurfaced: None,
        },
    );
    (told, issues)
}

#[test]
fn drift_is_regenerated_unless_content_is_held() {
    assert!(matches!(plan_regeneration(Repair::Report, &vec![fixable()]), Regeneration::Report));
    assert!(matches!(plan_regeneration(Repair::Apply, &vec![fixable()]), Regeneration::Regenerate));
    assert!(matches!(
        plan_regeneration(Repair::Apply, &vec![fixable(), held()]),
        Regeneration::Withhold
    ));
    let (told, issues) = collected(Repair::Apply, vec![fixable()], Some(Ok(())));
    assert_eq!(
        told,
        texts(&["[fixed] core: regenerated integration content for project `web` (drift detected)"])
    );
    assert!(issues.is_empty());
    let (told, issues) = collected(Repair::Apply, vec![fixable()], Some(Err(s("x"))));
    assert!(told.is_empty());
    assert_eq!(
        issues[0].message,
        "doctor --fix: failed to regenerate integration content for `web`: x"
    );
    assert_eq!(issues[0].severity, Severity::Error);
}

#[test]
fn held_content_withholds_the_regeneration() {
    let (told, issues) = collected(Repair::Apply, vec![fixable(), held()], None);
    assert!(told.is_empty());
    assert!(matches!(issues[0].kind, IssueKind::ManagedFileUserHeld));
    assert!(issues[1].message.starts_with(
        "doctor --fix: withheld the regeneration of `web`'s integration content."
    ));
    assert!(!issues[1].safe_to_fix);
    assert!(matches!(issues[2].kind, IssueKind::ManagedFileDrift));
    let (_, reported) = collected(Repair::Report, vec![fixable(), held()], None);
    assert_eq!(reported.len(), 2);
    let (safe, unsafe_) = part_issues(vec![held(), fixable(), held()]);
    assert_eq!((safe.len(), unsafe_.len()), (1, 2));
}

#[test]
fn surfacing_is_repaired_on_request() {
    assert!(plan_resurfacing(Repair::Apply, &vec![fixable()]));
    assert!(!plan_resurfacing(Repair::Apply, &vec![held()]));
    assert!(!plan_resurfacing(Repair::Report, &vec![fixable()]));
    let mut issues = Vec::new();
    let told = collect_doctor_issues(
        &mut issues,
        ProjectIssues {
            project: s("web"),
            repair: Repair::Apply,
            output_dir: s("/o"),
            checks: Vec::new(),
            disabled: Vec::new(),
            verify: Vec::new(),
            regenerated: None,
            incompatibilities: Vec::new(),
            surfacing: vec![fixable(), held()],
            resurfaced: Some(Ok(())),
        },
    );
    assert_eq!(
        told,
        texts(&["[fixed] core: re-surfaced symlinks for project `web` (missing/mis-resolved surfacing)"])
    );
    assert_eq!(issues.len(), 1);
}

#[test]
fn what_a_disabled_integration_left_is_described() {
    let found = vec![DisabledArtifacts {
        integration: s("npm"),
        paths: vec![
            OwnedPath::WholeFile { name: s("package.json") },
            OwnedPath::MarkedRegion { name: s(".npmrc") },
        ],
        surfaced: texts(&["package.json"]),
    }];
    let issues = disabled_integration_issues(&s("web"), &s("/o"), &found);
    assert_eq!(
        issues[0].message,
        "npm is disabled for project `web`, so nothing here is its to keep, but content it \
         authored is still on disk: /o/package.json (generated file), /o/.npmrc (managed region), \
         surfaced at the weave root as package.json. Run `rwv materialize` to remove it. `rwv \
         doctor --fix` will not — removal is not a repair, and disabling an integration is one \
         character in rwv.toml"
    );
    assert!(!issues[0].safe_to_fix);
}

#[test]
fn a_stale_generation_names_what_moved() {
    let moved = StaleGeneration {
        generated: s("go.work"),
        moved_inputs: texts(&["a", "b"]),
        provenance_unknown: false,
    };
    assert_eq!(
        stale_generation_issue(&moved).message,
        "go.work may no longer match this checkout — the inputs it was generated from have moved \
         since: a, b. Run `rwv materialize` to re-derive it"
    );
    let advisory = stale_generation_advisory(&moved);
    assert_eq!(advisory.remedy, "rwv materialize");
    assert_eq!(advisory.inputs, texts(&["a", "b"]));
    let unknown = StaleGeneration {
        generated: s("go.work"),
        moved_inputs: Vec::new(),
        provenance_unknown: true,
    };
    let mut issues = Vec::new();
    push_stale_generations(&mut issues, &vec![unknown]);
    assert_eq!(
        issues[0].message,
        "go.work may no longer match this checkout — it was accepted without a record of what \
         produced it, so nothing here can say it still follows from the current inputs. Run `rwv \
         materialize` to re-derive it"
    );
    assert!(matches!(issues[0].kind, IssueKind::DerivedStateStale));
}

// Runs.

fn orphan() -> CheckViolation {
    CheckViolation::OrphanedClone { path: s("x") }
}

fn skew() -> CheckViolation {
    CheckViolation::CargoVersionSkew { crate_name: s("serde"), occurrences: Vec::new() }
}

#[test]
fn repairs_frame_the_collection() {
    let stages = plan_run(true);
    assert_eq!(stages.len(), 7);
    assert!(matches!(stages[0], RunStage::EnforceFloor));
    assert!(matches!(stages[1], RunStage::PreludeRepairs));
    assert!(matches!(stages[3], RunStage::WorkspaceRepairs));
    assert!(matches!(stages[5], RunStage::FindingRepairs));
    assert!(matches!(stages[6], RunStage::Report));
    let plain = plan_run(false);
    assert_eq!(plain.len(), 4);
    assert!(!plain.iter().any(|stage| matches!(
        stage,
        RunStage::PreludeRepairs | RunStage::WorkspaceRepairs | RunStage::FindingRepairs
    )));
}

#[test]
fn a_run_fails_on_errors_alone() {
    let report = run_check(
        vec![skew()],
        Vec::new(),
        vec![issue(IssueKind::ToolMissing, Severity::Warning, true)],
        None,
        true,
    );
    assert!(!report.has_errors);
    assert!(report.records_floor);
    assert_eq!(report.lines[1], "[warning] npm: m");
    let failing = run_check(vec![orphan()], texts(&["fix broke"]), Vec::new(), None, true);
    assert!(failing.has_errors);
    assert!(!failing.records_floor);
    assert!(failing.lines[0].starts_with("[error] core: orphaned clone: x"));
    assert_eq!(failing.lines[1], "[error] core: fix broke");
}

#[test]
fn the_floor_is_recorded_by_a_clean_full_run() {
    let floor = |violations, scope_all| {
        run_check(violations, Vec::new(), Vec::new(), None, scope_all).records_floor
    };
    assert!(floor(Vec::new(), true));
    assert!(floor(vec![skew()], true));
    assert!(!floor(Vec::new(), false));
    let repairable = CheckViolation::LegacyWorkweaveIndex { project: s("web"), index_path: s("/i") };
    assert!(!floor(vec![repairable], true));
    let filter = KindFilter::new(&texts(&["orphaned-clone"])).unwrap();
    let filtered = run_check(Vec::new(), Vec::new(), Vec::new(), Some(&filter), true);
    assert!(!filtered.records_floor);
}

#[test]
fn a_filtered_run_itemizes_the_named_kinds() {
    let filter = KindFilter::new(&texts(&["dangling-ref-receipt"])).unwrap();
    let receipt = || CheckViolation::DanglingRefReceipt {
        project: s("web"),
        store_path: s("/w/r"),
        ref_name: s("web--a"),
    };
    let report = run_check(
        vec![orphan(), receipt(), receipt()],
        Vec::new(),
        Vec::new(),
        Some(&filter),
        false,
    );
    assert_eq!(report.lines.len(), 2);
    assert!(!report.has_errors);
    assert!(report.lines[0].starts_with("[warning] core: /w/r: project `web` holds an ownership"));
}

#[test]
fn the_document_fails_on_any_violation() {
    let frame = || JsonFrame {
        schema_url: s("https://schema"),
        workspace_dir: s("/w"),
        workweave_dirs: Vec::new(),
        resolution: None,
        plugins: Vec::new(),
        stale: vec![StaleGeneration {
            generated: s("go.work"),
            moved_inputs: texts(&["a"]),
            provenance_unknown: false,
        }],
    };
    let (doc, failed) = run_check_json(vec![skew()], Vec::new(), None, frame());
    assert!(failed);
    assert_eq!(doc.advisories[0].inputs, texts(&["a"]));
    let warning = || vec![issue(IssueKind::ToolMissing, Severity::Warning, true)];
    let (doc, failed) = run_check_json(Vec::new(), warning(), None, frame());
    assert!(!failed);
    assert!(matches!(doc.issues[0].kind, IssueKindOutput::ToolMissing));
    let errors = vec![issue(IssueKind::ToolMissing, Severity::Error, true)];
    assert!(run_check_json(Vec::new(), errors, None, frame()).1);
    let filter = KindFilter::new(&texts(&["orphaned-clone"])).unwrap();
    let (doc, failed) =
        run_check_json(vec![skew(), orphan()], warning(), Some(&filter), frame());
    assert!(failed);
    assert_eq!(doc.violations.len(), 1);
    assert!(matches!(doc.violations[0], ViolationOutput::OrphanedClone { .. }));
}
