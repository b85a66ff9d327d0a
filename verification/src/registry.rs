//! Reconciling the workweave registries with the workweaves on disk.

use vstd::prelude::*;
use crate::lists::{flat_map_contains, joined_lists_contain, single_contains};
use crate::order::note;
use crate::paths::{dir_above, file_name, name_of, parent_dir};
use crate::text::{tells, telling};
use crate::violation::{CheckViolation, PathText, ProjectName, WorkweaveTreeIntegrityKind};
use crate::violation_view::{CheckViolationView, WorkweaveTreeIntegrityKindView};

verus! {

/// What the directory a registry entry names turned out to be.
#[derive(Debug, Clone)]
pub enum RegistryEntryValidation {
    Valid,
    MissingDirectory,
    MissingMarker,
    ForeignPrimary,
    ProjectMismatch { actual: ProjectName },
    MarkerUnreadable { detail: String },
}

/// One workweave a registry records, with the directory's resolved path.
#[derive(Debug, Clone)]
pub struct RegistryEntry {
    pub name: String,
    pub path: PathText,
    pub canonical: PathText,
    pub validation: RegistryEntryValidation,
}

/// What reading a project's registry gave.
#[derive(Debug, Clone)]
pub enum IndexReading {
    Absent,
    Unreadable { error: String },
    Read { container: PathText, workweaves: Vec<RegistryEntry> },
}

/// A project's registry: its contents, where it is, whether it is there and
/// whether the project's repo tracks it (`None` where that cannot be told).
#[derive(Debug, Clone)]
pub struct ProjectRegistry {
    pub project: ProjectName,
    pub index: IndexReading,
    pub index_path: PathText,
    pub index_exists: bool,
    pub index_tracked: Option<bool>,
}

/// A workweave found in a container, with its directory's resolved path.
#[derive(Debug, Clone)]
pub struct FoundWorkweave {
    pub project: ProjectName,
    pub name: String,
    pub dir: PathText,
    pub canonical: PathText,
}

/// A project's record of the generations it accepted: where it is, and why it
/// does not parse.
#[derive(Debug, Clone)]
pub struct LedgerReading {
    pub project: ProjectName,
    pub state_path: PathText,
    pub error: Option<String>,
}

/// The numbers below `n`.
pub open spec fn indices(n: nat) -> Seq<int> {
    Seq::new(n, |i: int| i)
}

/// What is wrong with a registry entry, or nothing.
pub open spec fn stale_reason(project: Seq<char>, v: RegistryEntryValidation) -> Option<Seq<char>> {
    match v {
        RegistryEntryValidation::Valid => None,
        RegistryEntryValidation::MissingDirectory => Some("recorded directory does not exist"@),
        RegistryEntryValidation::MissingMarker => {
            Some("recorded directory has no `.rwv-workweave` marker"@)
        },
        RegistryEntryValidation::ForeignPrimary => {
            Some("marker `primary` does not match this workspace"@)
        },
        RegistryEntryValidation::ProjectMismatch { actual } => {
            Some("marker records project `"@ + actual@ + "`, not `"@ + project + "`"@)
        },
        RegistryEntryValidation::MarkerUnreadable { detail } => {
            Some("marker is unreadable ("@ + detail@ + ")"@)
        },
    }
}

/// A workweave-tree finding.
pub open spec fn tree_finding(
    dir: Seq<char>,
    sub_kind: WorkweaveTreeIntegrityKindView,
) -> CheckViolationView {
    CheckViolationView::WorkweaveTreeIntegrity { workweave_dir: dir, sub_kind }
}

/// The finding a registry entry raises, or none where it is valid.
pub open spec fn entry_findings(project: Seq<char>, e: RegistryEntry) -> Seq<CheckViolationView> {
    match stale_reason(project, e.validation) {
        None => Seq::empty(),
        Some(reason) => seq![
            tree_finding(
                e.path@,
                WorkweaveTreeIntegrityKindView::StaleRegistryEntry {
                    project,
                    workweave_name: e.name@,
                    recorded_path: e.path@,
                    reason,
                },
            ),
        ],
    }
}

/// The workweaves a registry records.
pub open spec fn recorded_entries(index: IndexReading) -> Seq<RegistryEntry> {
    match index {
        IndexReading::Read { workweaves, .. } => workweaves@,
        _ => Seq::empty(),
    }
}

/// What is raised where a registry does not parse.
pub open spec fn unreadable_findings(r: ProjectRegistry) -> Seq<CheckViolationView> {
    match r.index {
        IndexReading::Unreadable { error } => seq![
            CheckViolationView::UnreadableWorkweaveIndex {
                project: r.project@,
                index_path: r.index_path@,
                error: error@,
            },
        ],
        _ => Seq::empty(),
    }
}

/// What is raised where a project's repo tracks its registry.
pub open spec fn tracked_findings(r: ProjectRegistry) -> Seq<CheckViolationView> {
    if r.index_exists && tracked_in_parent(r.index_path@, r.index_tracked) {
        seq![
            tree_finding(
                r.index_path@,
                WorkweaveTreeIntegrityKindView::TrackedIndex {
                    project: r.project@,
                    index_path: r.index_path@,
                },
            ),
        ]
    } else {
        Seq::empty()
    }
}

/// What each entry of a project's registry raises.
pub open spec fn entry_rule(project: Seq<char>) -> spec_fn(RegistryEntry) -> Seq<
    CheckViolationView,
> {
    |e: RegistryEntry| entry_findings(project, e)
}

/// What one project's registry raises.
pub open spec fn registry_findings(r: ProjectRegistry) -> Seq<CheckViolationView> {
    unreadable_findings(r) + recorded_entries(r.index).flat_map(
        entry_rule(r.project@),
    ) + tracked_findings(r)
}

/// Whether the registry of `project` does not parse.
pub open spec fn registry_unreadable(rs: Seq<ProjectRegistry>, project: Seq<char>) -> bool {
    exists|i: int|
        0 <= i < rs.len() && (#[trigger] rs[i]).project@ == project && rs[i].index is Unreadable
}

/// Whether a valid entry of `project` records the directory `canonical`.
pub open spec fn validly_recorded(
    rs: Seq<ProjectRegistry>,
    project: Seq<char>,
    canonical: Seq<char>,
) -> bool {
    exists|i: int, k: int|
        0 <= i < rs.len() && rs[i].project@ == project && 0 <= k < recorded_entries(
            rs[i].index,
        ).len() && (#[trigger] recorded_entries(rs[i].index)[k]).validation is Valid
            && recorded_entries(rs[i].index)[k].canonical@ == canonical
}

/// Whether a workweave on disk has no registry entry though its project's
/// registry can be read.
pub open spec fn unrecorded(rs: Seq<ProjectRegistry>, f: FoundWorkweave) -> bool {
    !registry_unreadable(rs, f.project@) && !validly_recorded(rs, f.project@, f.canonical@)
}

/// Whether the directory of an unrecorded workweave was already reported
/// before place `i`.
pub open spec fn already_reported(
    rs: Seq<ProjectRegistry>,
    found: Seq<FoundWorkweave>,
    i: int,
    canonical: Seq<char>,
) -> bool {
    exists|j: int|
        0 <= j < i && unrecorded(rs, #[trigger] found[j]) && found[j].canonical@ == canonical
}

/// What the workweave found at place `i` raises.
pub open spec fn found_findings(
    rs: Seq<ProjectRegistry>,
    found: Seq<FoundWorkweave>,
    i: int,
) -> Seq<CheckViolationView> {
    let f = found[i];
    if unrecorded(rs, f) && !already_reported(rs, found, i, f.canonical@) {
        seq![
            tree_finding(
                f.dir@,
                WorkweaveTreeIntegrityKindView::UnregisteredWorkweave {
                    project: f.project@,
                    workweave_name: f.name@,
                },
            ),
        ]
    } else {
        Seq::empty()
    }
}

/// What reconciling the registries with the disk raises: first what each
/// registry raises, then every workweave on disk that none records.
pub open spec fn reconciliation_findings(
    rs: Seq<ProjectRegistry>,
    found: Seq<FoundWorkweave>,
) -> Seq<CheckViolationView> {
    rs.flat_map(|r: ProjectRegistry| registry_findings(r)) + indices(found.len()).flat_map(
        |i: int| found_findings(rs, found, i),
    )
}

/// Whether the repo around `path` tracks it; an unanswered question is a no,
/// and so is a path that names nothing.
pub open spec fn tracked_in_parent(path: Seq<char>, answer: Option<bool>) -> bool {
    parent_dir(path) is Some && file_name(path) is Some && answer == Some(true)
}

/// Whether the repo around `path` tracks it.
pub fn is_tracked_in_parent_repo(path: &PathText, answer: Option<bool>) -> (held: bool)
    ensures
        held == tracked_in_parent(path@, answer),
{
    if dir_above(path).is_none() || name_of(path).is_none() {
        return false;
    }
    match answer {
        Some(held) => held,
        None => false,
    }
}

/// Words what is wrong with a registry entry.
fn reason_words(project: &String, v: &RegistryEntryValidation) -> (reason: Option<String>)
    ensures
        reason.deep_view() == stale_reason(project@, *v),
{
    match v {
        RegistryEntryValidation::Valid => None,
        RegistryEntryValidation::MissingDirectory => {
            Some("recorded directory does not exist".to_owned())
        },
        RegistryEntryValidation::MissingMarker => {
            Some("recorded directory has no `.rwv-workweave` marker".to_owned())
        },
        RegistryEntryValidation::ForeignPrimary => {
            Some("marker `primary` does not match this workspace".to_owned())
        },
        RegistryEntryValidation::ProjectMismatch { actual } => {
            Some(
                "marker records project `".to_owned()
                    .concat(actual)
                    .concat("`, not `")
                    .concat(project)
                    .concat("`"),
            )
        },
        RegistryEntryValidation::MarkerUnreadable { detail } => {
            Some("marker is unreadable (".to_owned().concat(detail).concat(")"))
        },
    }
}

/// Adds what a registry entry raises.
fn push_entry(violations: &mut Vec<CheckViolation>, project: &String, e: &RegistryEntry)
    ensures
        final(violations).deep_view() == old(violations).deep_view() + entry_findings(project@, *e),
{
    let ghost before = violations.deep_view();
    if let Some(reason) = reason_words(project, &e.validation) {
        violations.push(
            CheckViolation::WorkweaveTreeIntegrity {
                workweave_dir: e.path.clone(),
                sub_kind: WorkweaveTreeIntegrityKind::StaleRegistryEntry {
                    project: project.clone(),
                    workweave_name: e.name.clone(),
                    recorded_path: e.path.clone(),
                    reason,
                },
            },
        );
    }
    assert(violations.deep_view() =~= before + entry_findings(project@, *e));
}

/// Adds what one project's registry raises.
fn push_registry(violations: &mut Vec<CheckViolation>, r: &ProjectRegistry)
    ensures
        final(violations).deep_view() == old(violations).deep_view() + registry_findings(*r),
{
    let ghost start = violations.deep_view();
    match &r.index {
        IndexReading::Unreadable { error } => {
            violations.push(
                CheckViolation::UnreadableWorkweaveIndex {
                    project: r.project.clone(),
                    index_path: r.index_path.clone(),
                    error: error.clone(),
                },
            );
        },
        _ => {},
    }
    assert(violations.deep_view() =~= start + unreadable_findings(*r));
    let ghost f = entry_rule(r.project@);
    let ghost entries = recorded_entries(r.index);
    if let IndexReading::Read { workweaves, .. } = &r.index {
        let mut i: usize = 0;
        assert(violations.deep_view() =~= start + unreadable_findings(*r) + entries.take(0).flat_map(
            f,
        ));
        while i < workweaves.len()
            invariant
                0 <= i <= workweaves.len(),
                entries == workweaves@,
                f == entry_rule(r.project@),
                violations.deep_view() == start + unreadable_findings(*r) + entries.take(
                    i as int,
                ).flat_map(f),
            decreases workweaves.len() - i,
        {
            push_entry(violations, &r.project, &workweaves[i]);
            proof {
                entries.lemma_flat_map_take_append(f, i as int);
                assert(violations.deep_view() =~= start + unreadable_findings(*r) + entries.take(
                    i as int + 1,
                ).flat_map(f));
            }
            i = i + 1;
        }
        assert(entries.take(i as int) =~= entries);
    } else {
        assert(entries.flat_map(f) =~= Seq::empty());
        assert(violations.deep_view() =~= start + unreadable_findings(*r) + entries.flat_map(f));
    }
    let ghost middle = violations.deep_view();
    if r.index_exists && is_tracked_in_parent_repo(&r.index_path, r.index_tracked) {
        violations.push(
            CheckViolation::WorkweaveTreeIntegrity {
                workweave_dir: r.index_path.clone(),
                sub_kind: WorkweaveTreeIntegrityKind::TrackedIndex {
                    project: r.project.clone(),
                    index_path: r.index_path.clone(),
                },
            },
        );
    }
    assert(violations.deep_view() =~= middle + tracked_findings(*r));
    assert(violations.deep_view() =~= start + registry_findings(*r));
}

/// Whether the registry of `project` does not parse.
fn cannot_read_registry(rs: &Vec<ProjectRegistry>, project: &String) -> (unreadable: bool)
    ensures
        unreadable == registry_unreadable(rs@, project@),
{
    let mut i: usize = 0;
    while i < rs.len()
        invariant
            0 <= i <= rs.len(),
            forall|k: int|
                0 <= k < i ==> !((#[trigger] rs@[k]).project@ == project@ && rs@[k].index
                    is Unreadable),
        decreases rs.len() - i,
    {
        let unreadable: bool = match &rs[i].index {
            IndexReading::Unreadable { .. } => true,
            _ => false,
        };
        if unreadable && rs[i].project == *project {
            return true;
        }
        i = i + 1;
    }
    false
}

/// Whether a valid entry of the list records `canonical`.
fn records(entries: &Vec<RegistryEntry>, canonical: &String) -> (found: bool)
    ensures
        found == exists|k: int|
            0 <= k < entries@.len() && (#[trigger] entries@[k]).validation is Valid
                && entries@[k].canonical@ == canonical@,
{
    let mut k: usize = 0;
    while k < entries.len()
        invariant
            0 <= k <= entries.len(),
            forall|m: int|
                0 <= m < k ==> !((#[trigger] entries@[m]).validation is Valid
                    && entries@[m].canonical@ == canonical@),
        decreases entries.len() - k,
    {
        let valid: bool = match &entries[k].validation {
            RegistryEntryValidation::Valid => true,
            _ => false,
        };
        if valid && entries[k].canonical == *canonical {
            return true;
        }
        k = k + 1;
    }
    false
}

/// Whether a valid entry of `project` records the directory `canonical`.
fn is_recorded(rs: &Vec<ProjectRegistry>, project: &String, canonical: &String) -> (found: bool)
    ensures
        found == validly_recorded(rs@, project@, canonical@),
{
    let mut i: usize = 0;
    while i < rs.len()
        invariant
            0 <= i <= rs.len(),
            forall|j: int, k: int|
                0 <= j < i && rs@[j].project@ == project@ && 0 <= k < recorded_entries(
                    rs@[j].index,
                ).len() ==> !((#[trigger] recorded_entries(rs@[j].index)[k]).validation is Valid
                    && recorded_entries(rs@[j].index)[k].canonical@ == canonical@),
        decreases rs.len() - i,
    {
        if rs[i].project == *project {
            if let IndexReading::Read { workweaves, .. } = &rs[i].index {
                if records(workweaves, canonical) {
                    proof {
                        let k = choose|k: int|
                            0 <= k < workweaves@.len() && (#[trigger] workweaves@[k]).validation
                                is Valid && workweaves@[k].canonical@ == canonical@;
                        assert(recorded_entries(rs@[i as int].index)[k].validation is Valid);
                    }
                    return true;
                }
            }
        }
        i = i + 1;
    }
    false
}

/// Reconciles the registries with the workweaves on disk.
pub fn scan_registry_reconciliation(
    registries: &Vec<ProjectRegistry>,
    found: &Vec<FoundWorkweave>,
) -> (violations: Vec<CheckViolation>)
    ensures
        violations.deep_view() == reconciliation_findings(registries@, found@),
{
    let mut violations: Vec<CheckViolation> = Vec::new();
    let ghost rs = registries@;
    let ghost fr = |r: ProjectRegistry| registry_findings(r);
    let mut i: usize = 0;
    assert(violations.deep_view() =~= rs.take(0).flat_map(fr));
    while i < registries.len()
        invariant
            0 <= i <= registries.len(),
            rs == registries@,
            fr == (|r: ProjectRegistry| registry_findings(r)),
            violations.deep_view() == rs.take(i as int).flat_map(fr),
        decreases registries.len() - i,
    {
        push_registry(&mut violations, &registries[i]);
        proof {
            rs.lemma_flat_map_take_append(fr, i as int);
        }
        i = i + 1;
    }
    assert(rs.take(i as int) =~= rs);
    let ghost head = violations.deep_view();
    let ghost ff = |k: int| found_findings(rs, found@, k);
    let ghost all = indices(found@.len());
    let mut seen: Vec<String> = Vec::new();
    let mut j: usize = 0;
    assert(violations.deep_view() =~= head + all.take(0).flat_map(ff));
    while j < found.len()
        invariant
            0 <= j <= found.len(),
            rs == registries@,
            all == indices(found@.len()),
            ff == (|k: int| found_findings(rs, found@, k)),
            violations.deep_view() == head + all.take(j as int).flat_map(ff),
            forall|c: Seq<char>|
                #[trigger] seen.deep_view().contains(c) <==> already_reported(
                    rs,
                    found@,
                    j as int,
                    c,
                ),
        decreases found.len() - j,
    {
        let f: &FoundWorkweave = &found[j];
        let ghost before = seen.deep_view();
        let ghost prior = violations.deep_view();
        let open: bool = !cannot_read_registry(registries, &f.project) && !is_recorded(
            registries,
            &f.project,
            &f.canonical,
        );
        if open && note(&mut seen, &f.canonical) {
            violations.push(
                CheckViolation::WorkweaveTreeIntegrity {
                    workweave_dir: f.dir.clone(),
                    sub_kind: WorkweaveTreeIntegrityKind::UnregisteredWorkweave {
                        project: f.project.clone(),
                        workweave_name: f.name.clone(),
                    },
                },
            );
        }
        proof {
            assert(all[j as int] == j as int);
            all.lemma_flat_map_take_append(ff, j as int);
            assert(violations.deep_view() =~= prior + ff(j as int));
            assert(violations.deep_view() =~= head + all.take(j as int + 1).flat_map(ff));
            assert forall|c: Seq<char>|
                #[trigger] seen.deep_view().contains(c) <==> already_reported(
                    rs,
                    found@,
                    j as int + 1,
                    c,
                ) by {
                if seen.deep_view().contains(c) && !before.contains(c) {
                    assert(c == found@[j as int].canonical@);
                }
                if already_reported(rs, found@, j as int + 1, c) {
                    let m = choose|m: int|
                        0 <= m < j + 1 && unrecorded(rs, #[trigger] found@[m])
                            && found@[m].canonical@ == c;
                    if m < j {
                        assert(already_reported(rs, found@, j as int, c));
                        assert(before.contains(c));
                    }
                    if !before.contains(c) {
                        assert(m == j);
                        assert(seen.deep_view() == before.push(c));
                        assert(seen.deep_view()[before.len() as int] == c);
                    } else {
                        let x = choose|x: int| 0 <= x < before.len() && before[x] == c;
                        assert(seen.deep_view()[x] == c);
                    }
                }
                if before.contains(c) {
                    assert(already_reported(rs, found@, j as int, c));
                }
            }
        }
        j = j + 1;
    }
    assert(all.take(j as int) =~= all);
    violations
}

/// What a project's record of accepted generations raises.
pub open spec fn ledger_findings(l: LedgerReading) -> Seq<CheckViolationView> {
    match l.error {
        Some(error) => seq![
            CheckViolationView::UnreadableOwnedState {
                project: l.project@,
                state_path: l.state_path@,
                error: error@,
            },
        ],
        None => Seq::empty(),
    }
}

/// Reports each record of accepted generations that does not parse.
pub fn scan_unreadable_owned_state(ledgers: &Vec<LedgerReading>) -> (violations: Vec<CheckViolation>)
    ensures
        violations.deep_view() == ledgers@.flat_map(|l: LedgerReading| ledger_findings(l)),
{
    let mut violations: Vec<CheckViolation> = Vec::new();
    let ghost f = |l: LedgerReading| ledger_findings(l);
    let mut i: usize = 0;
    assert(violations.deep_view() =~= ledgers@.take(0).flat_map(f));
    while i < ledgers.len()
        invariant
            0 <= i <= ledgers.len(),
            f == (|l: LedgerReading| ledger_findings(l)),
            violations.deep_view() == ledgers@.take(i as int).flat_map(f),
        decreases ledgers.len() - i,
    {
        let ghost prior = violations.deep_view();
        if let Some(error) = &ledgers[i].error {
            violations.push(
                CheckViolation::UnreadableOwnedState {
                    project: ledgers[i].project.clone(),
                    state_path: ledgers[i].state_path.clone(),
                    error: error.clone(),
                },
            );
        }
        proof {
            ledgers@.lemma_flat_map_take_append(f, i as int);
            assert(violations.deep_view() =~= prior + ledger_findings(ledgers@[i as int]));
        }
        i = i + 1;
    }
    assert(ledgers@.take(i as int) =~= ledgers@);
    violations
}

/// The containers a scan visits: the default one, then each that a readable
/// registry records, none of them twice.
pub open spec fn scanned_containers(
    default_container: Seq<char>,
    rs: Seq<ProjectRegistry>,
) -> Seq<Seq<char>> {
    crate::order::distinct(
        seq![default_container] + rs.flat_map(|r: ProjectRegistry| recorded_container(r)),
    )
}

/// The container a registry records, where it can be read.
pub open spec fn recorded_container(r: ProjectRegistry) -> Seq<Seq<char>> {
    match r.index {
        IndexReading::Read { container, .. } => seq![container@],
        _ => Seq::empty(),
    }
}

/// Lists the containers to scan. Paths are compared as they are given, so
/// resolved paths are to be passed.
pub fn workweave_containers_for_scan(
    default_container: &PathText,
    registries: &Vec<ProjectRegistry>,
) -> (containers: Vec<PathText>)
    ensures
        containers.deep_view() == scanned_containers(default_container@, registries@),
{
    let ghost f = |r: ProjectRegistry| recorded_container(r);
    let ghost first = seq![default_container@];
    let mut containers: Vec<PathText> = Vec::new();
    containers.push(default_container.clone());
    let mut i: usize = 0;
    proof {
        assert(first + registries@.take(0).flat_map(f) =~= first);
        assert(first.drop_last() =~= Seq::empty());
        reveal_with_fuel(crate::order::distinct, 2);
        assert(containers.deep_view() =~= crate::order::distinct(first));
    }
    while i < registries.len()
        invariant
            0 <= i <= registries.len(),
            f == (|r: ProjectRegistry| recorded_container(r)),
            first == seq![default_container@],
            containers.deep_view() == crate::order::distinct(
                first + registries@.take(i as int).flat_map(f),
            ),
        decreases registries.len() - i,
    {
        let ghost told = first + registries@.take(i as int).flat_map(f);
        proof {
            registries@.lemma_flat_map_take_append(f, i as int);
        }
        if let IndexReading::Read { container, .. } = &registries[i].index {
            let new: bool = note(&mut containers, container);
            proof {
                let now = first + registries@.take(i as int + 1).flat_map(f);
                assert(now =~= told.push(container@));
                assert(now.drop_last() =~= told);
            }
        } else {
            assert(first + registries@.take(i as int + 1).flat_map(f) =~= told);
        }
        i = i + 1;
    }
    assert(registries@.take(i as int) =~= registries@);
    containers
}

/// A registry entry is stale exactly where it is not valid, and what is told of
/// it is its own: its project, its name and where it is recorded. The reason
/// tells the defects apart.
pub proof fn invalid_entries_are_told(project: Seq<char>, e: RegistryEntry, v: CheckViolationView)
    ensures
        entry_findings(project, e).len() == 0 <==> e.validation is Valid,
        entry_findings(project, e).contains(v) ==> (v
            matches CheckViolationView::WorkweaveTreeIntegrity {
            workweave_dir,
            sub_kind: WorkweaveTreeIntegrityKindView::StaleRegistryEntry {
                project: p,
                workweave_name,
                recorded_path,
                reason,
            },
        } && p == project && workweave_name == e.name@ && recorded_path == e.path@ && workweave_dir
            == e.path@ && stale_reason(project, e.validation) == Some(reason)),
        entry_findings(project, e).len() <= 1,
{
}

/// A marker of another project is told with the project it records, then the
/// one whose registry lists it.
pub proof fn project_mismatches_name_both(actual: ProjectName, project: Seq<char>)
    ensures
        stale_reason(project, RegistryEntryValidation::ProjectMismatch { actual }) == Some(
            "marker records project `"@ + (actual@ + ("`, not `"@ + (project + "`"@))),
        ),
{
    let a = "marker records project `"@;
    let b = "`, not `"@;
    let c = "`"@;
    assert(a + actual@ + b + project + c =~= a + (actual@ + (b + (project + c))));
}

/// A project's registry raises a finding where it could not be read, where an
/// entry is stale, and where its file is there and the repo above tracks it.
pub proof fn registries_are_told(r: ProjectRegistry, v: CheckViolationView)
    ensures
        registry_findings(r).contains(v) <==> {
            ||| r.index matches IndexReading::Unreadable { error } && v == (
            CheckViolationView::UnreadableWorkweaveIndex {
                project: r.project@,
                index_path: r.index_path@,
                error: error@,
            })
            ||| r.index matches IndexReading::Read { workweaves, .. } && exists|i: int|
                0 <= i < workweaves@.len() && entry_findings(
                    r.project@,
                    #[trigger] workweaves@[i],
                ).contains(v)
            ||| r.index_exists && r.index_tracked == Some(true) && parent_dir(r.index_path@) is Some
                && file_name(r.index_path@) is Some && v == (
            CheckViolationView::WorkweaveTreeIntegrity {
                workweave_dir: r.index_path@,
                sub_kind: WorkweaveTreeIntegrityKindView::TrackedIndex {
                    project: r.project@,
                    index_path: r.index_path@,
                },
            })
        },
{
    let f = entry_rule(r.project@);
    let list = recorded_entries(r.index);
    let a = unreadable_findings(r);
    let b = list.flat_map(f);
    let c = tracked_findings(r);
    joined_lists_contain(a, b, v);
    joined_lists_contain(a + b, c, v);
    flat_map_contains(list, f, v);
    if a.len() > 0 {
        single_contains(a[0], v);
        assert(a =~= seq![a[0]]);
    }
    if c.len() > 0 {
        single_contains(c[0], v);
        assert(c =~= seq![c[0]]);
    }
    if b.contains(v) {
        let i = choose|i: int| 0 <= i < list.len() && (#[trigger] f(list[i])).contains(v);
        assert(entry_findings(r.project@, list[i]).contains(v));
    }
    assert forall|i: int|
        0 <= i < list.len() && entry_findings(r.project@, #[trigger] list[i]).contains(
            v,
        ) implies b.contains(v) by {
        assert(f(list[i]).contains(v));
    }
}

/// A workweave found on disk is told to be unregistered exactly where the
/// registry of its project was readable and has no valid entry for its
/// directory, once for each directory.
pub proof fn unregistered_workweaves_are_told(
    rs: Seq<ProjectRegistry>,
    found: Seq<FoundWorkweave>,
    i: int,
)
    requires
        0 <= i < found.len(),
    ensures
        found_findings(rs, found, i).contains(
            CheckViolationView::WorkweaveTreeIntegrity {
                workweave_dir: found[i].dir@,
                sub_kind: WorkweaveTreeIntegrityKindView::UnregisteredWorkweave {
                    project: found[i].project@,
                    workweave_name: found[i].name@,
                },
            },
        ) <==> {
            &&& forall|k: int|
                0 <= k < rs.len() && (#[trigger] rs[k]).project@ == found[i].project@ ==> !(
                rs[k].index is Unreadable)
            &&& !validly_recorded(rs, found[i].project@, found[i].canonical@)
            &&& forall|j: int|
                0 <= j < i && (#[trigger] found[j]).canonical@ == found[i].canonical@
                    ==> !unrecorded(rs, found[j])
        },
        found_findings(rs, found, i).len() <= 1,
{
    if found_findings(rs, found, i).len() > 0 {
        assert(found_findings(rs, found, i).contains(found_findings(rs, found, i)[0]));
    }
    assert forall|k: int|
        0 <= k < rs.len() && (#[trigger] rs[k]).project@ == found[i].project@ && rs[k].index
            is Unreadable implies registry_unreadable(rs, found[i].project@) by {}
    assert forall|j: int|
        0 <= j < i && (#[trigger] found[j]).canonical@ == found[i].canonical@ && unrecorded(
            rs,
            found[j],
        ) implies already_reported(rs, found, i, found[i].canonical@) by {}
}

/// Registries and disk are compared in full: every registry is looked at, and
/// every workweave found.
pub proof fn registries_and_disk_are_compared(
    rs: Seq<ProjectRegistry>,
    found: Seq<FoundWorkweave>,
    v: CheckViolationView,
)
    ensures
        reconciliation_findings(rs, found).contains(v) <==> {
            ||| exists|i: int| 0 <= i < rs.len() && registry_findings(#[trigger] rs[i]).contains(v)
            ||| exists|i: int|
                #![trigger found[i]]
                0 <= i < found.len() && found_findings(rs, found, i).contains(v)
        },
{
    let f = |r: ProjectRegistry| registry_findings(r);
    let g = |i: int| found_findings(rs, found, i);
    let all = indices(found.len());
    let a = rs.flat_map(f);
    let b = all.flat_map(g);
    joined_lists_contain(a, b, v);
    flat_map_contains(rs, f, v);
    flat_map_contains(all, g, v);
    if a.contains(v) {
        let i = choose|i: int| 0 <= i < rs.len() && (#[trigger] f(rs[i])).contains(v);
        assert(registry_findings(rs[i]).contains(v));
    }
    if b.contains(v) {
        let i = choose|i: int| 0 <= i < all.len() && (#[trigger] g(all[i])).contains(v);
        assert(found_findings(rs, found, i).contains(v));
        assert(found[i] == found[i]);
    }
    assert forall|i: int|
        0 <= i < rs.len() && registry_findings(#[trigger] rs[i]).contains(v) implies a.contains(
        v,
    ) by {
        assert(f(rs[i]).contains(v));
    }
    assert forall|i: int|
        #![trigger found[i]]
        0 <= i < found.len() && found_findings(rs, found, i).contains(v) implies b.contains(v) by {
        assert(all[i] == i);
        assert(g(all[i]).contains(v));
    }
}

/// The containers that are scanned are the default one and those the registries
/// record, each once.
pub proof fn recorded_containers_are_scanned(
    default_container: Seq<char>,
    rs: Seq<ProjectRegistry>,
    path: Seq<char>,
)
    ensures
        scanned_containers(default_container, rs).contains(path) <==> path == default_container
            || exists|i: int|
            0 <= i < rs.len() && (#[trigger] rs[i].index matches IndexReading::Read {
                container,
                ..
            } && container@ == path),
        scanned_containers(default_container, rs).no_duplicates(),
{
    let f = |r: ProjectRegistry| recorded_container(r);
    let b = rs.flat_map(f);
    crate::order::distinct_keeps_each_once(seq![default_container] + b);
    joined_lists_contain(seq![default_container], b, path);
    single_contains(default_container, path);
    flat_map_contains(rs, f, path);
    if b.contains(path) {
        let i = choose|i: int| 0 <= i < rs.len() && (#[trigger] f(rs[i])).contains(path);
        assert(rs[i].index matches IndexReading::Read { container, .. } && container@ == path);
    }
    assert forall|i: int|
        0 <= i < rs.len() && (#[trigger] rs[i].index matches IndexReading::Read { container, .. }
            && container@ == path) implies b.contains(path) by {
        assert(f(rs[i])[0] == path);
        assert(f(rs[i]).contains(path));
    }
}

/// A ledger is told exactly where it does not parse, with why.
pub proof fn unreadable_ledgers_are_told(l: LedgerReading, v: CheckViolationView)
    ensures
        ledger_findings(l).contains(v) <==> (l.error matches Some(error) && v == (
        CheckViolationView::UnreadableOwnedState {
            project: l.project@,
            state_path: l.state_path@,
            error: error@,
        })),
{
    if ledger_findings(l).len() > 0 {
        single_contains(ledger_findings(l)[0], v);
        assert(ledger_findings(l) =~= seq![ledger_findings(l)[0]]);
    }
}

/// Each defect of an entry goes by its own reason.
pub proof fn reasons_tell_the_defect(project: Seq<char>, detail: String)
    ensures
        tells(
            stale_reason(project, RegistryEntryValidation::MissingDirectory)->0,
            seq!["recorded directory does not exist"@],
        ),
        tells(
            stale_reason(project, RegistryEntryValidation::MissingMarker)->0,
            seq!["recorded directory has no `.rwv-workweave` marker"@],
        ),
        tells(
            stale_reason(project, RegistryEntryValidation::ForeignPrimary)->0,
            seq!["marker `primary` does not match this workspace"@],
        ),
        tells(
            stale_reason(project, RegistryEntryValidation::MarkerUnreadable { detail })->0,
            seq!["marker is unreadable ("@].push(detail@),
        ),
{
    broadcast use telling;
}

} // verus!
