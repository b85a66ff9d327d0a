use repoweave::attributes::{
    phantom_merge_drivers_in, rwv_defines_merge_driver, scan_phantom_merge_drivers,
    AttributesReading,
};
use repoweave::find::{find_violations, CheckInput};
use repoweave::identity::{
    classify_weave_root_identity, scan_weave_root_identity, ActivePointer, DisputedMarker,
    RecordedDir, RootObservation, RootReading,
};
use repoweave::legacy::{
    scan_for_legacy_workweave_markers, scan_workspace_for_legacy_manifests, MarkerDirReading,
    ProjectDirReading,
};
use repoweave::model::{
    LockEntry, LockFile, Manifest, Project, RepoEntry, ResolvedLockFile, Role, VcsType,
};
use repoweave::provenance::{
    scan_cargo_ecosystem, scan_provenance, scan_uninitialized_submodules_in_workweaves,
    CargoReading, OriginProbe, PinProbe, ProvenanceReading, RemoteReading, ShadowRecord,
    SkewRecord, SubmoduleReading,
};
use repoweave::registry::{
    is_tracked_in_parent_repo, scan_registry_reconciliation, scan_unreadable_owned_state,
    workweave_containers_for_scan, FoundWorkweave, IndexReading, LedgerReading, ProjectRegistry,
    RegistryEntry, RegistryEntryValidation,
};
use repoweave::siblings::{
    report_by_key, scan_confusable_siblings, sibling_groups, split_path, ConfusablePair,
};
use repoweave::topology::{scan_clone_topology, CheckoutStores, RepoStores, StorePath};
use repoweave::tree::{
    nested_workweave_findings, scan_workweave_tree_integrity, ContainerDir, MarkerReading,
    MarkerState, NamedDir, NestedDir, TreeObservation,
};
use repoweave::violation::{
    CargoSkewOccurrence, CheckViolation, CloneTopologyKind, MarkerDefect, ProvenanceKind,
    WeaveRootIdentityConflictKind, WorkweaveTreeIntegrityKind,
};

fn s(text: &str) -> String {
    text.to_owned()
}

fn texts(list: &[&str]) -> Vec<String> {
    list.iter().map(|t| s(t)).collect()
}

fn shown(violations: &[CheckViolation]) -> Vec<String> {
    violations.iter().map(|v| format!("{v:?}")).collect()
}

fn kind(v: &CheckViolation) -> &WorkweaveTreeIntegrityKind {
    match v {
        CheckViolation::WorkweaveTreeIntegrity { sub_kind, .. } => sub_kind,
        other => panic!("{other:?}"),
    }
}

fn entry(name: &str, path: &str, validation: RegistryEntryValidation) -> RegistryEntry {
    RegistryEntry { name: s(name), path: s(path), canonical: s(path), validation }
}

fn registry(project: &str, index: IndexReading) -> ProjectRegistry {
    ProjectRegistry {
        project: s(project),
        index,
        index_path: format!("/w/projects/{project}/.rwv-workweave-index"),
        index_exists: true,
        index_tracked: Some(false),
    }
}

fn found(project: &str, name: &str, dir: &str) -> FoundWorkweave {
    FoundWorkweave { project: s(project), name: s(name), dir: s(dir), canonical: s(dir) }
}

#[test]
fn stale_entries_say_why() {
    let cases = vec![
        (RegistryEntryValidation::MissingDirectory, "recorded directory does not exist"),
        (
            RegistryEntryValidation::MissingMarker,
            "recorded directory has no `.rwv-workweave` marker",
        ),
        (
            RegistryEntryValidation::ForeignPrimary,
            "marker `primary` does not match this workspace",
        ),
        (
            RegistryEntryValidation::ProjectMismatch { actual: s("api") },
            "marker records project `api`, not `web`",
        ),
        (
            RegistryEntryValidation::MarkerUnreadable { detail: s("bad json") },
            "marker is unreadable (bad json)",
        ),
    ];
    for (validation, expected) in cases {
        let workweaves = vec![entry("a", "/w/a", validation)];
        let registries = vec![registry("web", IndexReading::Read { container: s("/w"), workweaves })];
        let violations = scan_registry_reconciliation(&registries, &Vec::new());
        assert_eq!(violations.len(), 1);
        match kind(&violations[0]) {
            WorkweaveTreeIntegrityKind::StaleRegistryEntry { reason, workweave_name, .. } => {
                assert_eq!(reason, expected);
                assert_eq!(workweave_name, "a");
            }
            other => panic!("{other:?}"),
        }
    }
}

#[test]
fn workweaves_no_registry_records_are_reported_once() {
    let valid = entry("a", "/w/a", RegistryEntryValidation::Valid);
    let registries = vec![registry(
        "web",
        IndexReading::Read { container: s("/w"), workweaves: vec![valid] },
    )];
    let on_disk = vec![
        found("web", "a", "/w/a"),
        found("web", "b", "/w/b"),
        found("api", "b", "/w/b"),
    ];
    let violations = scan_registry_reconciliation(&registries, &on_disk);
    assert_eq!(violations.len(), 1);
    match kind(&violations[0]) {
        WorkweaveTreeIntegrityKind::UnregisteredWorkweave { project, workweave_name } => {
            assert_eq!((project.as_str(), workweave_name.as_str()), ("web", "b"));
        }
        other => panic!("{other:?}"),
    }
}

#[test]
fn an_unreadable_index_is_reported_in_place_of_its_workweaves() {
    let registries = vec![registry("web", IndexReading::Unreadable { error: s("torn") })];
    let violations = scan_registry_reconciliation(&registries, &vec![found("web", "a", "/w/a")]);
    assert_eq!(violations.len(), 1);
    match &violations[0] {
        CheckViolation::UnreadableWorkweaveIndex { project, index_path, error } => {
            assert_eq!(project, "web");
            assert_eq!(index_path, "/w/projects/web/.rwv-workweave-index");
            assert_eq!(error, "torn");
        }
        other => panic!("{other:?}"),
    }
}

#[test]
fn a_tracked_index_is_reported() {
    let mut r = registry("web", IndexReading::Absent);
    r.index_tracked = Some(true);
    let violations = scan_registry_reconciliation(&vec![r.clone()], &Vec::new());
    assert!(matches!(kind(&violations[0]), WorkweaveTreeIntegrityKind::TrackedIndex { .. }));
    r.index_exists = false;
    assert!(scan_registry_reconciliation(&vec![r], &Vec::new()).is_empty());
    assert!(is_tracked_in_parent_repo(&s("/w/x"), Some(true)));
    assert!(!is_tracked_in_parent_repo(&s("/w/x"), None));
    assert!(!is_tracked_in_parent_repo(&s("/"), Some(true)));
}

#[test]
fn containers_come_from_the_default_and_the_registries() {
    let registries = vec![
        registry("web", IndexReading::Read { container: s("/c"), workweaves: Vec::new() }),
        registry(
            "api",
            IndexReading::Read {
                container: s("/w/.workweaves"),
                workweaves: vec![entry("a", "/d/api--a", RegistryEntryValidation::Valid)],
            },
        ),
    ];
    let containers = workweave_containers_for_scan(&s("/w/.workweaves"), &registries);
    assert_eq!(containers, texts(&["/w/.workweaves", "/c"]));
}

#[test]
fn unreadable_ledgers_are_reported() {
    let ledgers = vec![
        LedgerReading { project: s("web"), state_path: s("/p"), error: None },
        LedgerReading { project: s("api"), state_path: s("/q"), error: Some(s("torn")) },
    ];
    let violations = scan_unreadable_owned_state(&ledgers);
    assert_eq!(violations.len(), 1);
    assert!(matches!(
        &violations[0],
        CheckViolation::UnreadableOwnedState { project, .. } if project == "api"
    ));
}

fn marker(project: &str, parent: &str) -> MarkerState {
    MarkerState::Read {
        marker: MarkerReading {
            project: s(project),
            primary: s("/w"),
            names_this_workspace: true,
            primary_resolved: s("/w"),
            primary_is_workspace: true,
            parent: s(parent),
            parent_exists: true,
            parent_resolved: s(parent),
        },
    }
}

fn dir(path: &str, marker: MarkerState) -> ContainerDir {
    ContainerDir {
        path: s(path),
        canonical: Some(s(path)),
        basename: Some(split_path(path).1),
        marker,
        recorded: None,
        rendered: true,
        children: Vec::new(),
    }
}

fn tree(dirs: Vec<ContainerDir>) -> Vec<CheckViolation> {
    scan_workweave_tree_integrity(&TreeObservation {
        workspace: s("/w"),
        registries: Vec::new(),
        found: Vec::new(),
        ledgers: Vec::new(),
        dirs,
    })
}

fn anomaly(v: &CheckViolation) -> &str {
    match kind(v) {
        WorkweaveTreeIntegrityKind::ParentChainAnomaly { detail } => detail,
        other => panic!("{other:?}"),
    }
}

#[test]
fn a_sound_chain_of_parents_raises_nothing() {
    let dirs = vec![dir("/c/web--b", marker("web", "/c/web--a")), dir("/c/web--a", marker("web", "/w"))];
    assert!(tree(dirs).is_empty());
}

#[test]
fn a_workweave_that_is_its_own_parent_is_reported() {
    let violations = tree(vec![dir("/c/web--a", marker("web", "/c/web--a"))]);
    assert_eq!(violations.len(), 1);
    assert_eq!(
        anomaly(&violations[0]),
        "marker `parent` points to the workweave itself (self-loop)"
    );
}

#[test]
fn a_cycle_of_parents_is_reported_for_each_of_its_workweaves() {
    let violations = tree(vec![
        dir("/c/web--b", marker("web", "/c/web--a")),
        dir("/c/web--a", marker("web", "/c/web--b")),
    ]);
    let details: Vec<&str> = violations.iter().map(anomaly).collect();
    assert_eq!(
        details,
        vec![
            "marker `parent` chain contains a cycle through `/c/web--a`",
            "marker `parent` chain contains a cycle through `/c/web--b`",
        ]
    );
}

#[test]
fn a_parent_of_another_project_is_reported() {
    let violations = tree(vec![
        dir("/c/api--a", marker("api", "/w")),
        dir("/c/web--a", marker("web", "/c/api--a")),
    ]);
    assert_eq!(violations.len(), 1);
    assert_eq!(
        anomaly(&violations[0]),
        "marker `parent` (`/c/api--a`) belongs to project `api` but this workweave is project `web`"
    );
}

#[test]
fn directories_are_checked_once_and_in_order() {
    let violations = tree(vec![
        dir("/c/z", MarkerState::Absent),
        dir("/c/a-b", MarkerState::Absent),
        dir("/c/a", MarkerState::Gone),
        dir("/c/z", MarkerState::Absent),
    ]);
    let dirs: Vec<&str> = violations
        .iter()
        .map(|v| match v {
            CheckViolation::WorkweaveTreeIntegrity {
                workweave_dir,
                sub_kind: WorkweaveTreeIntegrityKind::UnregisteredDir,
            } => workweave_dir.as_str(),
            other => panic!("{other:?}"),
        })
        .collect();
    assert_eq!(dirs, vec!["/c/a", "/c/a-b", "/c/z"]);
}

#[test]
fn foreign_and_unreadable_markers_are_told_apart() {
    let foreign = |is_workspace| {
        let mut d = dir("/c/web--a", marker("web", "/w"));
        if let MarkerState::Read { marker } = &mut d.marker {
            marker.names_this_workspace = false;
            marker.primary = s("/v/./x");
            marker.primary_resolved = s("/v/x");
            marker.primary_is_workspace = is_workspace;
        }
        tree(vec![d])
    };
    match kind(&foreign(true)[0]) {
        WorkweaveTreeIntegrityKind::ForeignPrimaryOtherWorkspace { marker_primary } => {
            assert_eq!(marker_primary, "/v/x");
        }
        other => panic!("{other:?}"),
    }
    match kind(&foreign(false)[0]) {
        WorkweaveTreeIntegrityKind::ForeignPrimary { marker_primary } => {
            assert_eq!(marker_primary, "/v/./x");
        }
        other => panic!("{other:?}"),
    }
    assert!(tree(vec![dir("/c/a", MarkerState::Unreadable { detail: None })]).is_empty());
    let torn = tree(vec![dir("/c/a", MarkerState::Unreadable { detail: Some(s("torn")) })]);
    assert!(matches!(kind(&torn[0]), WorkweaveTreeIntegrityKind::UnreadableMarker { .. }));
}

#[test]
fn a_misnamed_directory_is_reported_with_the_name_it_should_have() {
    let mut d = dir("/c/web--b", marker("web", "/w"));
    d.recorded = Some(NamedDir { name: s("a"), dir_name: s("web--a") });
    match kind(&tree(vec![d.clone()])[0]) {
        WorkweaveTreeIntegrityKind::MisnamedDir { expected_dir_name, detail } => {
            assert_eq!(expected_dir_name.as_deref(), Some("web--a"));
            assert_eq!(
                detail,
                "the marker records project `web` and the name the registry records for this \
                 path is `a`, so the records expect `web--a`"
            );
        }
        other => panic!("{other:?}"),
    }
    d.recorded = None;
    assert!(tree(vec![d.clone()]).is_empty());
    d.rendered = false;
    match kind(&tree(vec![d])[0]) {
        WorkweaveTreeIntegrityKind::MisnamedDir { expected_dir_name, detail } => {
            assert_eq!(*expected_dir_name, None);
            assert_eq!(
                detail,
                "the basename is not a directory name project `web` renders for any workweave \
                 name, and no registry entry of project `web` names this path, so the intended \
                 name is not derivable"
            );
        }
        other => panic!("{other:?}"),
    }
}

#[test]
fn a_dangling_parent_is_reported_beside_the_rest() {
    let mut d = dir("/c/web--a", marker("web", "/gone"));
    if let MarkerState::Read { marker } = &mut d.marker {
        marker.parent_exists = false;
    }
    let violations = tree(vec![d]);
    assert_eq!(violations.len(), 1);
    assert!(matches!(
        kind(&violations[0]),
        WorkweaveTreeIntegrityKind::DanglingParent { parent_path } if parent_path == "/gone"
    ));
}

#[test]
fn nested_workweaves_stand_in_for_their_directory() {
    let child = NestedDir {
        path: s("/c/team/web--a"),
        project: Some(s("team/web")),
        recorded: None,
        derived: Some(NamedDir { name: s("a"), dir_name: s("team-web--a") }),
    };
    assert_eq!(nested_workweave_findings(&vec![child.clone()]).len(), 1);
    let mut d = dir("/c/team", MarkerState::Absent);
    d.children = vec![child];
    let violations = tree(vec![d]);
    assert_eq!(violations.len(), 1);
    match kind(&violations[0]) {
        WorkweaveTreeIntegrityKind::NestedWorkweaveDir {
            project,
            workweave_name,
            expected_dir_name,
        } => {
            assert_eq!(project, "team/web");
            assert_eq!(workweave_name, "a");
            assert_eq!(expected_dir_name, "team-web--a");
        }
        other => panic!("{other:?}"),
    }
}

fn disputed(names_primary: bool, registry: Vec<RecordedDir>) -> RootReading {
    RootReading {
        root: s("/w/.workweaves/web--a"),
        observation: RootObservation::Disputed {
            pointer: Some(s("web")),
            marker: DisputedMarker {
                project: s("web"),
                primary: s("/v"),
                names_primary,
                registry,
            },
        },
    }
}

fn identity(r: &RootReading) -> WeaveRootIdentityConflictKind {
    match classify_weave_root_identity(r) {
        Some(CheckViolation::WeaveRootIdentityConflict { sub_kind, .. }) => sub_kind,
        other => panic!("{other:?}"),
    }
}

#[test]
fn a_registered_workweave_settles_the_dispute() {
    let here = RecordedDir { name: s("a"), canonical: s("/w/.workweaves/web--a") };
    let there = || RecordedDir { name: s("b"), canonical: s("/w/.workweaves/web--b") };
    match identity(&disputed(true, vec![there(), here])) {
        WeaveRootIdentityConflictKind::RegisteredWorkweave { project, workweave_name } => {
            assert_eq!((project.as_str(), workweave_name.as_str()), ("web", "a"));
        }
        other => panic!("{other:?}"),
    }
    match identity(&disputed(true, vec![there()])) {
        WeaveRootIdentityConflictKind::Unwitnessed { detail } => assert_eq!(
            detail,
            "The marker names project `web` of this workspace, but that project's registry does \
             not record this directory — most likely a workweave copied out-of-band (`cp -r`), \
             whose registry entry still names the original."
        ),
        other => panic!("{other:?}"),
    }
    match identity(&disputed(false, Vec::new())) {
        WeaveRootIdentityConflictKind::Unwitnessed { detail } => assert_eq!(
            detail,
            "The marker names primary `/v`, which is not this workspace, so this workspace's \
             registry has no say over it."
        ),
        other => panic!("{other:?}"),
    }
}

#[test]
fn only_a_root_with_both_files_is_reported() {
    let unverifiable = |root: &str, pointer| RootReading {
        root: s(root),
        observation: RootObservation::MarkerUnverifiable {
            marker_path: s("/w/.rwv-workweave"),
            defect: MarkerDefect { name: s("torn"), refusal: s("It is torn.") },
            pointer,
        },
    };
    let settled = RootReading { root: s("/w"), observation: RootObservation::Settled };
    let roots = vec![
        settled,
        unverifiable("/a", ActivePointer::Absent),
        unverifiable("/b", ActivePointer::Present { project: None }),
        unverifiable("/b", ActivePointer::Present { project: None }),
    ];
    let violations = scan_weave_root_identity(&roots);
    assert_eq!(violations.len(), 1);
    assert!(matches!(
        &violations[0],
        CheckViolation::WeaveRootIdentityConflict {
            pointer_project: None,
            sub_kind: WeaveRootIdentityConflictKind::MarkerUnverifiable { .. },
            ..
        }
    ));
}

#[test]
fn a_legacy_manifest_is_reported_where_no_current_one_is() {
    let reading = |relative: &str, has_legacy, has_current, nameable| ProjectDirReading {
        relative: s(relative),
        legacy_path: format!("/w/projects/{relative}/rwv.yaml"),
        has_legacy,
        has_current,
        nameable,
        refusal: s("no"),
    };
    let dirs = vec![
        reading("web", true, false, true),
        reading("api", true, true, true),
        reading("x", false, false, true),
        reading("bad name", true, false, false),
    ];
    let found = scan_workspace_for_legacy_manifests(&dirs);
    assert_eq!(found.len(), 1);
    assert_eq!(found[0].project, "web");
    assert_eq!(found[0].legacy_path, "/w/projects/web/rwv.yaml");
}

#[test]
fn legacy_markers_are_reported_once() {
    let reading = |path: &str, primary: Option<&str>| MarkerDirReading {
        marker_path: s(path),
        legacy_primary: primary.map(s),
    };
    let dirs = vec![
        reading("/c/b/.rwv-workweave", Some("/w")),
        reading("/c/a/.rwv-workweave", None),
        reading("/c/b/.rwv-workweave", Some("/w")),
    ];
    let found = scan_for_legacy_workweave_markers(&dirs);
    assert_eq!(found.len(), 1);
    assert_eq!(found[0].marker_path, "/c/b/.rwv-workweave");
    assert_eq!(found[0].primary, "/w");
}

fn repo_entry(role: Role) -> RepoEntry {
    RepoEntry {
        vcs_type: VcsType::Git,
        url: s("https://github.com/o/r.git"),
        version: s("main"),
        role,
    }
}

fn project(name: &str, repos: &[&str], lock: Option<&[&str]>) -> Project {
    Project {
        name: s(name),
        manifest: Manifest {
            repositories: repos.iter().map(|r| (s(r), repo_entry(Role::Owned))).collect(),
        },
        lock: lock.map(|pins| LockFile {
            repositories: pins
                .iter()
                .map(|r| {
                    let pin = LockEntry {
                        vcs_type: VcsType::Git,
                        url: s("https://github.com/o/r.git"),
                        version: s("aaa"),
                    };
                    (s(r), pin)
                })
                .collect(),
        }),
    }
}

#[test]
fn siblings_are_grouped_by_their_parent() {
    let p = project("web", &["github/o/b", "solo", "github/o/a", "alone"], None);
    let groups = sibling_groups(&p);
    let told: Vec<(String, Vec<String>)> = groups.into_iter().map(|g| (g.label, g.names)).collect();
    assert_eq!(
        told,
        vec![
            (s("project `web`"), texts(&["solo", "alone"])),
            (s("project `web` at github/o"), texts(&["b", "a"])),
        ]
    );
    assert_eq!(split_path("a/b/c"), (s("a/b"), s("c")));
    assert_eq!(split_path("c"), (s(""), s("c")));
}

#[test]
fn confusable_pairs_are_ordered_as_they_are_spelled_and_told_once() {
    let pair = |parent: &str| ConfusablePair {
        parent: s(parent),
        first: s("A"),
        second: s("a"),
        warning: s("w"),
    };
    let violations =
        scan_confusable_siblings(&vec![pair("a\"x"), pair("b"), pair("a#x"), pair("b")]);
    let parents: Vec<&str> = violations
        .iter()
        .map(|v| match v {
            CheckViolation::ConfusableSiblings { parent, .. } => parent.as_str(),
            other => panic!("{other:?}"),
        })
        .collect();
    assert_eq!(parents, vec!["a#x", "a\"x", "b"]);
}

#[test]
fn only_rwvs_own_undefined_drivers_are_phantoms() {
    assert!(rwv_defines_merge_driver(&s("rwv-ours")));
    assert!(!rwv_defines_merge_driver(&s("rwv-theirs")));
    let text = "# rwv.lock merge=rwv-x\n[attr]m merge=rwv-x\n\n\"a b\" -text merge=rwv-old\n\
                rwv.lock merge=rwv-ours\n*.x merge=union\n  c\tmerge=rwv-a merge=rwv-b  \n\
                d merge=rwv-a merge=rwv-ours\n\"open merge=rwv-z\ne merge=rwv-c\r\n";
    let pair = |p: &str, d: &str| (s(p), s(d));
    assert_eq!(
        phantom_merge_drivers_in(text),
        vec![pair("a b", "rwv-old"), pair("c", "rwv-b"), pair("e", "rwv-c")]
    );
}

#[test]
fn attributes_are_read_once_for_each_repo() {
    let reading = |repo: &str, contents: Option<&str>| AttributesReading {
        repo: s(repo),
        contents: contents.map(s),
    };
    let violations = scan_phantom_merge_drivers(&vec![
        reading("r", Some("a merge=rwv-x")),
        reading("q", None),
        reading("r", Some("a merge=rwv-x")),
        reading("q", Some("a merge=rwv-x")),
    ]);
    assert_eq!(violations.len(), 1);
    assert!(matches!(
        &violations[0],
        CheckViolation::PhantomMergeDriver { repo, pattern, driver }
            if repo == "r" && pattern == "a" && driver == "rwv-x"
    ));
}

#[test]
fn provenance_reports_other_remotes_and_missing_pins() {
    let origin = |repo: &str, present, remote, role| OriginProbe {
        repo: s(repo),
        manifest_url: s("https://m"),
        role,
        present,
        remote,
    };
    let other = || RemoteReading::Recorded { url: s("https://a"), equivalent: false };
    let same = || RemoteReading::Recorded { url: s("https://m"), equivalent: true };
    let pin = |repo: &str, present, resolved: Option<&str>, held| PinProbe {
        repo: s(repo),
        version: s("v1"),
        present,
        resolved: resolved.map(s),
        held,
    };
    let reading = ProvenanceReading {
        project: s("web"),
        origins: vec![
            origin("a", true, other(), Role::Reference),
            origin("b", true, same(), Role::Owned),
            origin("c", false, other(), Role::Owned),
            origin("d", true, RemoteReading::Unset, Role::Owned),
            origin("e", true, RemoteReading::Unreadable, Role::Owned),
        ],
        pins: vec![
            pin("a", true, Some("abc"), Some(false)),
            pin("b", true, None, Some(false)),
            pin("c", true, None, None),
            pin("d", true, None, Some(true)),
            pin("e", false, None, Some(false)),
        ],
    };
    let violations = scan_provenance(&vec![reading]);
    let told: Vec<(String, String)> = violations
        .iter()
        .map(|v| match v {
            CheckViolation::Provenance { repo, sub_kind, .. } => match sub_kind {
                ProvenanceKind::OriginUrlMismatch { actual_url, is_reference_role, .. } => {
                    assert!(*is_reference_role);
                    (repo.clone(), actual_url.clone())
                }
                ProvenanceKind::LockShaUnreachable { sha } => (repo.clone(), sha.clone()),
            },
            other => panic!("{other:?}"),
        })
        .collect();
    assert_eq!(
        told,
        vec![(s("a"), s("https://a")), (s("a"), s("abc")), (s("b"), s("v1"))]
    );
}

#[test]
fn cargo_findings_need_members() {
    let members = |count| CargoReading::Members {
        count,
        skews: vec![SkewRecord {
            crate_name: s("serde"),
            occurrences: vec![CargoSkewOccurrence { member: s("m"), requirement: s("1") }],
        }],
        shadows: vec![ShadowRecord {
            weave_config: s("/w/c"),
            member_config: s("/w/m/c"),
            registry: s("crates-io"),
            crate_name: s("x"),
        }],
    };
    let found = scan_cargo_ecosystem(members(1)).unwrap();
    assert!(matches!(found[0], CheckViolation::CargoVersionSkew { .. }));
    assert!(matches!(found[1], CheckViolation::CargoPatchShadowing { .. }));
    assert_eq!(found.len(), 2);
    assert!(scan_cargo_ecosystem(members(0)).unwrap().is_empty());
    assert!(scan_cargo_ecosystem(CargoReading::Disabled).unwrap().is_empty());
    let error = scan_cargo_ecosystem(CargoReading::Unreadable { error: s("bad") }).unwrap_err();
    assert_eq!(error, "bad");
}

#[test]
fn submodules_are_reported_in_workweave_checkouts_of_their_own() {
    let reading = |workweave: &str, is_alias, is_dir, empty: &[&str]| SubmoduleReading {
        workweave: s(workweave),
        repo: s("r"),
        is_alias,
        is_dir,
        empty_paths: texts(empty),
    };
    let violations = scan_uninitialized_submodules_in_workweaves(vec![
        reading("a", false, true, &["v/x"]),
        reading("b", true, true, &["v/x"]),
        reading("c", false, false, &["v/x"]),
        reading("d", false, true, &[]),
    ]);
    assert_eq!(violations.len(), 1);
    assert!(matches!(
        &violations[0],
        CheckViolation::UninitializedSubmodule { workweave, empty_paths, .. }
            if workweave == "a" && *empty_paths == texts(&["v/x"])
    ));
}

fn store(path: &str) -> StorePath {
    StorePath { raw: s(path), canonical: s(path) }
}

fn stores(slot: Option<&str>, checkouts: Vec<CheckoutStores>) -> RepoStores {
    RepoStores {
        repo: s("github/o/r"),
        slot: s("/w/github/o/r"),
        store: slot.map(store),
        expected: store("/w/github/o/r/.git"),
        checkouts,
    }
}

fn checkout(path: &str, at: Option<&str>, is_alias: bool) -> CheckoutStores {
    CheckoutStores {
        path: s(path),
        is_alias,
        store: at.map(store),
        own_store: format!("{path}/.git"),
    }
}

fn topology(r: RepoStores) -> Vec<CloneTopologyKind> {
    scan_clone_topology(&vec![r])
        .into_iter()
        .map(|v| match v {
            CheckViolation::CloneTopology { sub_kind, .. } => sub_kind,
            other => panic!("{other:?}"),
        })
        .collect()
}

#[test]
fn a_checkout_linked_into_the_slot_raises_nothing() {
    let own = "/w/github/o/r/.git";
    assert!(topology(stores(Some(own), vec![checkout("/c/r", Some(own), false)])).is_empty());
    assert!(topology(stores(None, vec![checkout("/c/r", None, false)])).is_empty());
    assert!(topology(stores(Some(own), vec![checkout("/c/r", Some("/x"), true)])).is_empty());
}

#[test]
fn clones_out_of_place_are_told_apart() {
    let own = "/w/github/o/r/.git";
    let standalone = topology(stores(Some(own), vec![checkout("/c/r", Some("/c/r/.git"), false)]));
    assert!(matches!(standalone[0], CloneTopologyKind::StandaloneInWorkweave { .. }));
    assert!(matches!(standalone[1], CloneTopologyKind::DisconnectedWeaveClone { .. }));
    assert_eq!(standalone.len(), 2);
    let elsewhere = topology(stores(Some(own), vec![checkout("/c/r", Some("/x/.git"), false)]));
    match &elsewhere[0] {
        CloneTopologyKind::WrongParentWorktree { expected_store_path, actual_store_path } => {
            assert_eq!((expected_store_path.as_str(), actual_store_path.as_str()), (own, "/x/.git"));
        }
        other => panic!("{other:?}"),
    }
    let moved = topology(stores(Some("/x/.git"), Vec::new()));
    assert!(matches!(
        &moved[0],
        CloneTopologyKind::WeaveCloneIsWorktree { actual_store_path } if actual_store_path == "/x/.git"
    ));
    assert_eq!(moved.len(), 1);
}

fn input() -> CheckInput {
    CheckInput {
        known_repos: texts(&["a", "b"]),
        repos_on_disk: texts(&["a", "x"]),
        projects: vec![project("web", &["a", "b"], Some(&["a"]))],
        head_revisions: vec![(s("a"), s("bbb"))],
        resolved_locks: vec![(
            s("web"),
            ResolvedLockFile { repositories: vec![(s("a"), s("aaa"))] },
        )],
        check_orphans: true,
    }
}

#[test]
fn the_plain_checks_find_orphans_dangling_references_and_stale_locks() {
    let shown = shown(&find_violations(&input()));
    assert_eq!(
        shown,
        vec![
            "OrphanedClone { path: \"x\" }",
            "DanglingReference { project: \"web\", repo: \"b\" }",
            "StaleLock { project: \"web\", repo: \"a\", locked: \"aaa\", actual: \"bbb\" }",
            "IncompleteLock { project: \"web\", repo: \"b\" }",
        ]
    );
}

#[test]
fn orphans_are_looked_for_only_where_every_project_was_read() {
    let mut narrowed = input();
    narrowed.check_orphans = false;
    assert!(!shown(&find_violations(&narrowed)).iter().any(|v| v.starts_with("Orphaned")));
}

#[test]
fn a_reference_repo_may_be_absent() {
    let mut with_reference = input();
    with_reference.projects[0].manifest.repositories[1].1.role = Role::Reference;
    assert!(!shown(&find_violations(&with_reference)).iter().any(|v| v.starts_with("Dangling")));
}

#[test]
fn pairs_are_reported_by_key() {
    let pair = |parent: &str| ConfusablePair {
        parent: s(parent),
        first: s("A"),
        second: s("a"),
        warning: s("w"),
    };
    let violations =
        report_by_key(&vec![pair("x"), pair("y"), pair("z")], &texts(&["2", "1", "2"]));
    let parents: Vec<&str> = violations
        .iter()
        .map(|v| match v {
            CheckViolation::ConfusableSiblings { parent, .. } => parent.as_str(),
            other => panic!("{other:?}"),
        })
        .collect();
    assert_eq!(parents, vec!["y", "x"]);
}
