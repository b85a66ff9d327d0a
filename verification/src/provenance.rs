//! Clones that are not what the manifest and the lock say they are, and crates
//! the members disagree about.

use vstd::prelude::*;
use crate::lists::{flat_map_contains, joined_lists_contain, single_contains};
use crate::model::Role;
use crate::violation::{
    CargoSkewOccurrence, CheckViolation, PathText, ProjectName, ProvenanceKind, RepoPath,
    RevisionId, WorkweaveName,
};
use crate::violation_view::{CheckViolationView, ProvenanceKindView};

verus! {

/// The remote a clone records.
#[derive(Debug)]
pub enum RemoteReading {
    Unset,
    Unreadable,
    /// A URL, and whether it names the same repo as the manifest's.
    Recorded { url: String, equivalent: bool },
}

/// A manifest entry and what its clone was found to be.
#[derive(Debug)]
pub struct OriginProbe {
    pub repo: RepoPath,
    pub manifest_url: String,
    pub role: Role,
    pub present: bool,
    pub remote: RemoteReading,
}

/// A lock entry and what its clone knows of the pinned revision.
#[derive(Debug)]
pub struct PinProbe {
    pub repo: RepoPath,
    /// The pin as the lock spells it.
    pub version: String,
    pub present: bool,
    /// The revision the pin resolves to.
    pub resolved: Option<RevisionId>,
    /// Whether the clone holds the revision [`revision_to_test`] gives; `None`
    /// where that cannot be told.
    pub held: Option<bool>,
}

/// What was probed of one project's clones.
#[derive(Debug)]
pub struct ProvenanceReading {
    pub project: ProjectName,
    pub origins: Vec<OriginProbe>,
    /// Empty where the project has no lock.
    pub pins: Vec<PinProbe>,
}

/// The revision a pin stands for: what it resolves to, or else its spelling.
pub open spec fn tested_revision(version: Seq<char>, resolved: Option<RevisionId>) -> Seq<char> {
    match resolved {
        Some(r) => r@,
        None => version,
    }
}

/// The revision a pin stands for.
pub fn revision_to_test(version: &String, resolved: &Option<RevisionId>) -> (revision: RevisionId)
    ensures
        revision@ == tested_revision(version@, *resolved),
{
    match resolved {
        Some(r) => r.clone(),
        None => version.clone(),
    }
}

/// What a manifest entry raises.
pub open spec fn origin_findings(project: Seq<char>) -> spec_fn(OriginProbe) -> Seq<
    CheckViolationView,
> {
    |o: OriginProbe|
        match o.remote {
            RemoteReading::Recorded { url, equivalent } => if o.present && !equivalent {
                seq![
                    CheckViolationView::Provenance {
                        project,
                        repo: o.repo@,
                        sub_kind: ProvenanceKindView::OriginUrlMismatch {
                            manifest_url: o.manifest_url@,
                            actual_url: url@,
                            is_reference_role: o.role is Reference,
                        },
                    },
                ]
            } else {
                Seq::empty()
            },
            _ => Seq::empty(),
        }
}

/// What a lock entry raises.
pub open spec fn pin_findings(project: Seq<char>) -> spec_fn(PinProbe) -> Seq<CheckViolationView> {
    |p: PinProbe|
        if p.present && p.held == Some(false) {
            seq![
                CheckViolationView::Provenance {
                    project,
                    repo: p.repo@,
                    sub_kind: ProvenanceKindView::LockShaUnreachable {
                        sha: tested_revision(p.version@, p.resolved),
                    },
                },
            ]
        } else {
            Seq::empty()
        }
}

/// What one project's clones raise.
pub open spec fn provenance_findings(r: ProvenanceReading) -> Seq<CheckViolationView> {
    r.origins@.flat_map(origin_findings(r.project@)) + r.pins@.flat_map(pin_findings(r.project@))
}

/// Adds what one project's clones raise.
fn push_provenance(violations: &mut Vec<CheckViolation>, r: &ProvenanceReading)
    ensures
        final(violations).deep_view() == old(violations).deep_view() + provenance_findings(*r),
{
    let ghost start = violations.deep_view();
    let ghost f = origin_findings(r.project@);
    let ghost g = pin_findings(r.project@);
    let mut i: usize = 0;
    assert(start =~= start + r.origins@.take(0).flat_map(f));
    while i < r.origins.len()
        invariant
            0 <= i <= r.origins.len(),
            f == origin_findings(r.project@),
            violations.deep_view() == start + r.origins@.take(i as int).flat_map(f),
        decreases r.origins.len() - i,
    {
        let ghost prior = violations.deep_view();
        let o: &OriginProbe = &r.origins[i];
        if o.present {
            if let RemoteReading::Recorded { url, equivalent } = &o.remote {
                if !*equivalent {
                    violations.push(
                        CheckViolation::Provenance {
                            project: r.project.clone(),
                            repo: o.repo.clone(),
                            sub_kind: ProvenanceKind::OriginUrlMismatch {
                                manifest_url: o.manifest_url.clone(),
                                actual_url: url.clone(),
                                is_reference_role: o.role == Role::Reference,
                            },
                        },
                    );
                }
            }
        }
        proof {
            r.origins@.lemma_flat_map_take_append(f, i as int);
            assert(violations.deep_view() =~= prior + f(r.origins@[i as int]));
            assert(violations.deep_view() =~= start + r.origins@.take(i as int + 1).flat_map(f));
        }
        i = i + 1;
    }
    assert(r.origins@.take(i as int) =~= r.origins@);
    let ghost middle = violations.deep_view();
    let mut k: usize = 0;
    assert(middle =~= middle + r.pins@.take(0).flat_map(g));
    while k < r.pins.len()
        invariant
            0 <= k <= r.pins.len(),
            g == pin_findings(r.project@),
            violations.deep_view() == middle + r.pins@.take(k as int).flat_map(g),
        decreases r.pins.len() - k,
    {
        let ghost prior = violations.deep_view();
        let p: &PinProbe = &r.pins[k];
        let gone: bool = match p.held {
            Some(held) => !held,
            None => false,
        };
        if p.present && gone {
            violations.push(
                CheckViolation::Provenance {
                    project: r.project.clone(),
                    repo: p.repo.clone(),
                    sub_kind: ProvenanceKind::LockShaUnreachable {
                        sha: revision_to_test(&p.version, &p.resolved),
                    },
                },
            );
        }
        proof {
            r.pins@.lemma_flat_map_take_append(g, k as int);
            assert(violations.deep_view() =~= prior + g(r.pins@[k as int]));
            assert(violations.deep_view() =~= middle + r.pins@.take(k as int + 1).flat_map(g));
        }
        k = k + 1;
    }
    assert(r.pins@.take(k as int) =~= r.pins@);
    assert(violations.deep_view() =~= start + provenance_findings(*r));
}

/// Reports the clones whose remote is not the manifest's, and the pins whose
/// revision the clone does not hold. A clone that is not there, or that cannot
/// be asked, raises nothing here.
pub fn scan_provenance(projects: &Vec<ProvenanceReading>) -> (violations: Vec<CheckViolation>)
    ensures
        violations.deep_view() == projects@.flat_map(
            |r: ProvenanceReading| provenance_findings(r),
        ),
{
    let ghost f = |r: ProvenanceReading| provenance_findings(r);
    let mut violations: Vec<CheckViolation> = Vec::new();
    let mut i: usize = 0;
    assert(violations.deep_view() =~= projects@.take(0).flat_map(f));
    while i < projects.len()
        invariant
            0 <= i <= projects.len(),
            f == (|r: ProvenanceReading| provenance_findings(r)),
            violations.deep_view() == projects@.take(i as int).flat_map(f),
        decreases projects.len() - i,
    {
        push_provenance(&mut violations, &projects[i]);
        proof {
            projects@.lemma_flat_map_take_append(f, i as int);
        }
        i = i + 1;
    }
    assert(projects@.take(i as int) =~= projects@);
    violations
}

/// A crate the members require at differing versions.
#[derive(Debug)]
pub struct SkewRecord {
    pub crate_name: String,
    pub occurrences: Vec<CargoSkewOccurrence>,
}

/// A member's configuration that defeats a weave-level patch.
#[derive(Debug)]
pub struct ShadowRecord {
    pub weave_config: PathText,
    pub member_config: PathText,
    pub registry: String,
    pub crate_name: String,
}

/// What was read of a project's cargo members.
#[derive(Debug)]
pub enum CargoReading {
    /// The integration is switched off.
    Disabled,
    /// Its settings, or the members, could not be read.
    Unreadable { error: String },
    Members { count: usize, skews: Vec<SkewRecord>, shadows: Vec<ShadowRecord> },
}

/// The finding of a skewed crate.
pub open spec fn skew_finding(s: SkewRecord) -> CheckViolationView {
    CheckViolationView::CargoVersionSkew {
        crate_name: s.crate_name@,
        occurrences: s.occurrences.deep_view(),
    }
}

/// The finding of a defeated patch.
pub open spec fn shadow_finding(s: ShadowRecord) -> CheckViolationView {
    CheckViolationView::CargoPatchShadowing {
        weave_config: s.weave_config@,
        member_config: s.member_config@,
        registry: s.registry@,
        crate_name: s.crate_name@,
    }
}

/// What a project's cargo members raise.
pub open spec fn cargo_findings(count: nat, skews: Seq<SkewRecord>, shadows: Seq<ShadowRecord>) -> Seq<
    CheckViolationView,
> {
    if count == 0 {
        Seq::empty()
    } else {
        skews.map_values(|s: SkewRecord| skew_finding(s)) + shadows.map_values(
            |s: ShadowRecord| shadow_finding(s),
        )
    }
}

/// Reports what the cargo members of a project disagree about, or why they
/// could not be read.
pub fn scan_cargo_ecosystem(reading: CargoReading) -> (result: Result<Vec<CheckViolation>, String>)
    ensures
        match reading {
            CargoReading::Disabled => result is Ok && result->Ok_0@.len() == 0,
            CargoReading::Unreadable { error } => result is Err && result->Err_0 == error,
            CargoReading::Members { count, skews, shadows } => result is Ok
                && result->Ok_0.deep_view() == cargo_findings(count as nat, skews@, shadows@),
        },
{
    match reading {
        CargoReading::Disabled => Ok(Vec::new()),
        CargoReading::Unreadable { error } => Err(error),
        CargoReading::Members { count, skews, shadows } => {
            let mut violations: Vec<CheckViolation> = Vec::new();
            if count == 0 {
                assert(violations.deep_view() =~= Seq::empty());
                return Ok(violations);
            }
            for s in it: skews
                invariant
                    it.seq() == skews@,
                    violations@.len() == it.index(),
                    forall|k: int|
                        0 <= k < violations@.len() ==> (#[trigger] violations@[k]).deep_view()
                            == skew_finding(skews@[k]),
            {
                violations.push(
                    CheckViolation::CargoVersionSkew {
                        crate_name: s.crate_name,
                        occurrences: s.occurrences,
                    },
                );
            }
            let ghost first = violations@;
            for s in it: shadows
                invariant
                    it.seq() == shadows@,
                    first.len() == skews@.len(),
                    violations@.len() == first.len() + it.index(),
                    forall|k: int|
                        0 <= k < first.len() ==> (#[trigger] violations@[k]).deep_view()
                            == skew_finding(skews@[k]),
                    forall|k: int|
                        first.len() <= k < violations@.len() ==> (#[trigger] violations@[k]).deep_view()
                            == shadow_finding(shadows@[k - first.len()]),
            {
                violations.push(
                    CheckViolation::CargoPatchShadowing {
                        weave_config: s.weave_config,
                        member_config: s.member_config,
                        registry: s.registry,
                        crate_name: s.crate_name,
                    },
                );
            }
            assert(violations.deep_view() =~= cargo_findings(count as nat, skews@, shadows@));
            Ok(violations)
        },
    }
}

/// A repo's checkout in a workweave and the submodules missing in it.
#[derive(Debug)]
pub struct SubmoduleReading {
    pub workweave: WorkweaveName,
    pub repo: RepoPath,
    /// Whether the checkout is an alias of a reference clone.
    pub is_alias: bool,
    pub is_dir: bool,
    /// The submodule paths that are empty on disk.
    pub empty_paths: Vec<String>,
}

/// What a checkout's missing submodules raise.
pub open spec fn submodule_findings(r: SubmoduleReading) -> Seq<CheckViolationView> {
    if !r.is_alias && r.is_dir && r.empty_paths@.len() > 0 {
        seq![
            CheckViolationView::UninitializedSubmodule {
                workweave: r.workweave@,
                repo: r.repo@,
                empty_paths: r.empty_paths.deep_view(),
            },
        ]
    } else {
        Seq::empty()
    }
}

/// Reports the checkouts of workweaves whose submodules were never filled.
pub fn scan_uninitialized_submodules_in_workweaves(readings: Vec<SubmoduleReading>) -> (violations:
    Vec<CheckViolation>)
    ensures
        violations.deep_view() == readings@.flat_map(|r: SubmoduleReading| submodule_findings(r)),
{
    let ghost f = |r: SubmoduleReading| submodule_findings(r);
    let mut violations: Vec<CheckViolation> = Vec::new();
    assert(violations.deep_view() =~= readings@.take(0).flat_map(f));
    for r in it: readings
        invariant
            it.seq() == readings@,
            f == (|r: SubmoduleReading| submodule_findings(r)),
            violations.deep_view() == readings@.take(it.index()).flat_map(f),
    {
        let ghost prior = violations.deep_view();
        let ghost at = it.index();
        if !r.is_alias && r.is_dir && r.empty_paths.len() > 0 {
            violations.push(
                CheckViolation::UninitializedSubmodule {
                    workweave: r.workweave,
                    repo: r.repo,
                    empty_paths: r.empty_paths,
                },
            );
        }
        proof {
            readings@.lemma_flat_map_take_append(f, at);
            assert(violations.deep_view() =~= prior + f(readings@[at]));
        }
    }
    assert(readings@.take(readings@.len() as int) =~= readings@);
    violations
}

/// A clone's origin is reported exactly where the clone is there and records a
/// URL that is not the manifest's, and its pin exactly where the clone is there
/// and does not hold the pinned revision.
pub proof fn provenance_is_told(r: ProvenanceReading, v: CheckViolationView)
    ensures
        provenance_findings(r).contains(v) <==> {
            ||| exists|i: int|
                #![trigger r.origins@[i]]
                0 <= i < r.origins@.len() && r.origins@[i].present && (
                r.origins@[i].remote matches RemoteReading::Recorded { url, equivalent }
                    && !equivalent && v == (CheckViolationView::Provenance {
                    project: r.project@,
                    repo: r.origins@[i].repo@,
                    sub_kind: ProvenanceKindView::OriginUrlMismatch {
                        manifest_url: r.origins@[i].manifest_url@,
                        actual_url: url@,
                        is_reference_role: r.origins@[i].role == Role::Reference,
                    },
                }))
            ||| exists|i: int|
                #![trigger r.pins@[i]]
                0 <= i < r.pins@.len() && r.pins@[i].present && r.pins@[i].held == Some(false) && v
                    == (CheckViolationView::Provenance {
                    project: r.project@,
                    repo: r.pins@[i].repo@,
                    sub_kind: ProvenanceKindView::LockShaUnreachable {
                        sha: match r.pins@[i].resolved {
                            Some(revision) => revision@,
                            None => r.pins@[i].version@,
                        },
                    },
                })
        },
{
    let f = origin_findings(r.project@);
    let g = pin_findings(r.project@);
    joined_lists_contain(r.origins@.flat_map(f), r.pins@.flat_map(g), v);
    flat_map_contains(r.origins@, f, v);
    flat_map_contains(r.pins@, g, v);
    assert forall|i: int| 0 <= i < r.origins@.len() implies (#[trigger] f(r.origins@[i])).contains(
        v,
    ) == (f(r.origins@[i]).len() == 1 && f(r.origins@[i])[0] == v) by {
        if f(r.origins@[i]).len() == 1 {
            single_contains(f(r.origins@[i])[0], v);
            assert(f(r.origins@[i]) =~= seq![f(r.origins@[i])[0]]);
        }
    }
    assert forall|i: int| 0 <= i < r.pins@.len() implies (#[trigger] g(r.pins@[i])).contains(v) == (
    g(r.pins@[i]).len() == 1 && g(r.pins@[i])[0] == v) by {
        if g(r.pins@[i]).len() == 1 {
            single_contains(g(r.pins@[i])[0], v);
            assert(g(r.pins@[i]) =~= seq![g(r.pins@[i])[0]]);
        }
    }
    assert forall|i: int| 0 <= i < r.origins@.len() implies #[trigger] r.origins@[i] == r.origins@[i]
        && f(r.origins@[i]).len() <= 1 by {}
    assert forall|i: int| 0 <= i < r.pins@.len() implies #[trigger] r.pins@[i] == r.pins@[i] && g(
        r.pins@[i],
    ).len() <= 1 by {}
}

/// A weave without cargo members raises nothing of cargo; any other raises its
/// skews and its shadows, each once and field by field.
pub proof fn cargo_records_are_told(
    count: nat,
    skews: Seq<SkewRecord>,
    shadows: Seq<ShadowRecord>,
    i: int,
)
    ensures
        cargo_findings(count, skews, shadows).len() == (if count == 0 {
            0
        } else {
            skews.len() + shadows.len()
        }),
        count > 0 && 0 <= i < skews.len() ==> cargo_findings(count, skews, shadows).contains(
            CheckViolationView::CargoVersionSkew {
                crate_name: skews[i].crate_name@,
                occurrences: skews[i].occurrences.deep_view(),
            },
        ),
        count > 0 && 0 <= i < shadows.len() ==> cargo_findings(count, skews, shadows).contains(
            CheckViolationView::CargoPatchShadowing {
                weave_config: shadows[i].weave_config@,
                member_config: shadows[i].member_config@,
                registry: shadows[i].registry@,
                crate_name: shadows[i].crate_name@,
            },
        ),
{
    let all = cargo_findings(count, skews, shadows);
    if count > 0 && 0 <= i < skews.len() {
        assert(all[i] == skew_finding(skews[i]));
    }
    if count > 0 && 0 <= i < shadows.len() {
        assert(all[skews.len() + i] == shadow_finding(shadows[i]));
    }
}

/// A checkout of a workweave is reported for its submodules exactly where it is
/// a directory of its own and one of them is empty.
pub proof fn empty_submodules_are_told(r: SubmoduleReading)
    ensures
        submodule_findings(r).contains(
            CheckViolationView::UninitializedSubmodule {
                workweave: r.workweave@,
                repo: r.repo@,
                empty_paths: r.empty_paths.deep_view(),
            },
        ) <==> !r.is_alias && r.is_dir && r.empty_paths@.len() != 0,
        submodule_findings(r).len() <= 1,
{
    if submodule_findings(r).len() > 0 {
        assert(submodule_findings(r).contains(submodule_findings(r)[0]));
    }
}

} // verus!
