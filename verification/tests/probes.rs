use repoweave::branches::{
    scan_branch_discipline, BranchObservation, CanonicalStore, HeadReading, StoreReading,
    TrackingSource,
};
use repoweave::migration::fix_stale_ephemeral_branches;
use repoweave::model::{LockEntry, LockFile, Manifest, Project, RepoEntry, Role, VcsType};
use repoweave::probes::{
    attributes_targets, probed_projects, provenance_targets, stores_targets, submodule_targets,
};
use repoweave::receipts::{LiveName, ReceiptReading, ReceiptsReading, RecordedRefs, TipReading};
use repoweave::scope::ScopeReading;
use repoweave::targets::WorkweaveDir;

fn s(text: &str) -> String {
    text.to_owned()
}

fn texts(list: &[&str]) -> Vec<String> {
    list.iter().map(|t| s(t)).collect()
}

fn entry(url: &str, role: Role) -> RepoEntry {
    RepoEntry { vcs_type: VcsType::Git, url: s(url), version: s("main"), role }
}

fn projects() -> Vec<Project> {
    let pin = |version: &str| LockEntry {
        vcs_type: VcsType::Git,
        url: s("u"),
        version: s(version),
    };
    vec![
        Project {
            name: s("web"),
            manifest: Manifest {
                repositories: vec![
                    (s("g/a"), entry("ua", Role::Owned)),
                    (s("g/b"), entry("ub", Role::Reference)),
                ],
            },
            lock: Some(LockFile {
                repositories: vec![(s("g/a"), pin("1")), (s("g/old"), pin("2"))],
            }),
        },
        Project {
            name: s("api"),
            manifest: Manifest { repositories: vec![(s("g/a"), entry("ua", Role::Owned))] },
            lock: None,
        },
    ]
}

fn workweaves() -> Vec<WorkweaveDir> {
    let dir = |name: &str, usable, dir: &str| WorkweaveDir { name: s(name), usable, dir: s(dir) };
    vec![dir("one", true, "/c/web--one"), dir("not usable", false, "/c/odd")]
}

#[test]
fn every_manifest_and_lock_entry_is_probed() {
    let targets = provenance_targets(&s("/w"), &projects());
    let names: Vec<&str> = targets.iter().map(|t| t.project.as_str()).collect();
    assert_eq!(names, vec!["web", "api"]);
    let origins: Vec<(&str, &str, &str)> = targets[0]
        .origins
        .iter()
        .map(|o| (o.repo.as_str(), o.path.as_str(), o.manifest_url.as_str()))
        .collect();
    assert_eq!(origins, vec![("g/a", "/w/g/a", "ua"), ("g/b", "/w/g/b", "ub")]);
    assert_eq!(targets[0].origins[1].role, Role::Reference);
    let pins: Vec<(&str, &str, &str, bool)> = targets[0]
        .pins
        .iter()
        .map(|p| (p.repo.as_str(), p.path.as_str(), p.version.as_str(), p.vcs_type.is_some()))
        .collect();
    assert_eq!(pins, vec![("g/a", "/w/g/a", "1", true), ("g/old", "/w/g/old", "2", false)]);
    assert_eq!((targets[1].origins.len(), targets[1].pins.len()), (1, 0));
    assert_eq!(probed_projects(&projects()), texts(&["web", "api"]));
}

#[test]
fn attributes_are_read_from_the_own_repo_first() {
    let files = attributes_targets(&s("/w"), &projects(), &vec![(s("web"), s("projects/web"))]);
    let shown: Vec<(&str, &str)> =
        files.iter().map(|(repo, file)| (repo.as_str(), file.as_str())).collect();
    assert_eq!(
        shown,
        vec![
            ("projects/web", "/w/projects/web/.gitattributes"),
            ("g/a", "/w/g/a/.gitattributes"),
            ("g/b", "/w/g/b/.gitattributes"),
            ("g/a", "/w/g/a/.gitattributes"),
        ]
    );
}

#[test]
fn submodules_are_looked_for_in_every_usable_workweave() {
    let targets = submodule_targets(&workweaves(), &projects());
    let shown: Vec<(Option<&str>, &str)> =
        targets.iter().map(|t| (t.workweave.as_deref(), t.abs.as_str())).collect();
    assert_eq!(
        shown,
        vec![
            (Some("one"), "/c/web--one/g/a"),
            (Some("one"), "/c/web--one/g/b"),
            (Some("one"), "/c/web--one/g/a"),
        ]
    );
}

#[test]
fn stores_are_looked_at_in_the_order_of_the_repos() {
    let targets = stores_targets(&s("/w"), &texts(&["g/b", "g/a"]), &workweaves());
    let shown: Vec<(&str, &str)> =
        targets.iter().map(|t| (t.repo.as_str(), t.slot.as_str())).collect();
    assert_eq!(shown, vec![("g/a", "/w/g/a"), ("g/b", "/w/g/b")]);
    assert_eq!(targets[0].checkouts, texts(&["/c/web--one/g/a", "/c/odd/g/a"]));
}

fn observation(receipts: Vec<ReceiptReading>, live: &[&str]) -> BranchObservation {
    BranchObservation {
        recorded: RecordedRefs::new(vec![ReceiptsReading {
            project: s("web"),
            receipts: Some(receipts),
            live: live.iter().map(|name| LiveName { name: s(name), usable: true }).collect(),
        }]),
        workweaves: Vec::new(),
        workweave_dirs: Vec::new(),
        indexes: Vec::new(),
        stores: vec![StoreReading {
            store: CanonicalStore { path: s("/w/g/a"), tracking: TrackingSource::Unresolvable },
            remote_default: None,
            head: HeadReading::Attached { branch: s("main") },
            counterpart_tip: TipReading::Absent,
            held: Some(Vec::new()),
            branches: Some(Vec::new()),
        }],
    }
}

fn receipt(name: &str, tip: TipReading, merged: bool) -> ReceiptReading {
    ReceiptReading { store: s("/w/g/a"), name: s(name), store_is_repo: true, tip, merged }
}

fn chosen(o: &BranchObservation) -> Vec<(String, String)> {
    let scope = ScopeReading {
        containers: Vec::new(),
        markers: Vec::new(),
        root: s("/w"),
        known_repos: texts(&["g/a"]),
    };
    fix_stale_ephemeral_branches(&scan_branch_discipline(o), &scope, &Some(s("web")))
}

#[test]
fn a_second_deletion_run_finds_nothing() {
    let at = |revision: &str| TipReading::At { revision: s(revision) };
    let before = observation(
        vec![
            receipt("web--gone", at("1"), true),
            receipt("web--kept", at("2"), false),
            receipt("web--live", at("3"), true),
        ],
        &["live"],
    );
    assert_eq!(chosen(&before), vec![(s("/w/g/a"), s("web--gone"))]);
    let retracted = observation(
        vec![receipt("web--kept", at("2"), false), receipt("web--live", at("3"), true)],
        &["live"],
    );
    assert_eq!(chosen(&retracted), Vec::new());
    let unretracted = observation(
        vec![
            receipt("web--gone", TipReading::Absent, true),
            receipt("web--kept", at("2"), false),
            receipt("web--live", at("3"), true),
        ],
        &["live"],
    );
    assert_eq!(chosen(&unretracted), Vec::new());
}
