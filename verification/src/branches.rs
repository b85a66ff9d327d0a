//! Branch discipline: which branch each checkout stands on, and which branches
//! were left behind in the stores.

use vstd::prelude::*;
use crate::lists::{
    filtered_contains, flat_map_contains, flat_map_holds, flat_map_member, joined_lists_contain,
    single_contains,
};
use crate::model::{lookup, value_of, Project, RepoEntry};
use crate::order::note;
use crate::receipts::{
    claim, claimed_under, live_branches, live_minted_ref_names, mint, minted,
    minted_branch_is_not_nested, models, pre_flat,
    receipt_names_a_pre_flat_ref, store_refs, ProjectIndexReading, RecordedRef, RecordedRefView,
    RecordedRefs, TipReading, TipView, WorkweaveDirReading,
};
use crate::text::{chars_of, holds, join_path, joined};
use crate::violation::{
    BranchDisciplineKind, CheckViolation, LegacyRefAtTip, PathText, ProjectName, RepoPath,
    RevisionId, WorkweaveName,
};
use crate::violation_view::{
    BranchDisciplineKindView, CheckViolationView, LegacyRefAtTipView,
};

verus! {

/// What a checkout's HEAD is attached to.
#[derive(Debug)]
pub enum HeadReading {
    Attached { branch: String },
    Detached { at: RevisionId },
    /// A branch without commits.
    Unborn { branch: String },
    Unreadable,
}

/// A directory that may be a checkout of a workweave.
#[derive(Debug)]
pub struct CheckoutCandidate {
    pub path: PathText,
    pub is_dir: bool,
    /// Whether it is an alias of a reference clone.
    pub is_alias: bool,
}

/// A checkout of a workweave.
#[derive(Debug)]
pub struct CheckoutReading {
    pub path: PathText,
    /// The store its receipts are kept under.
    pub store: PathText,
    /// The branches of the store whose names start with the workweave's
    /// branch; `None` where they cannot be listed.
    pub namespace: Option<Vec<String>>,
    pub head: HeadReading,
    /// Where the first branch of the retired shape in the namespace points.
    pub legacy_tip: TipReading,
    /// Whether HEAD carries that tip, where it can be told.
    pub legacy_carried: Option<bool>,
}

/// A workweave on disk: its name, the project its marker names where that can
/// be read, whether both are usable names, and its checkouts.
#[derive(Debug)]
pub struct WorkweaveReading {
    pub name: WorkweaveName,
    pub project: Option<ProjectName>,
    pub usable: bool,
    pub checkouts: Vec<CheckoutReading>,
}

/// Whether a directory is a checkout of its own.
pub open spec fn is_checkout(c: CheckoutCandidate) -> bool {
    c.is_dir && !c.is_alias
}

/// The checkouts among the candidates: the repos found in the workweave, then
/// its project's own repo.
pub fn workweave_checkouts(
    repos: Vec<CheckoutCandidate>,
    project_dir: CheckoutCandidate,
) -> (paths: Vec<PathText>)
    ensures
        paths.deep_view() == repos@.push(project_dir).filter(
            |c: CheckoutCandidate| is_checkout(c),
        ).map_values(|c: CheckoutCandidate| c.path@),
{
    let ghost all = repos@.push(project_dir);
    let ghost keep = |c: CheckoutCandidate| is_checkout(c);
    let ghost text = |c: CheckoutCandidate| c.path@;
    let mut candidates: Vec<CheckoutCandidate> = repos;
    candidates.push(project_dir);
    let mut paths: Vec<PathText> = Vec::new();
    let mut i: usize = 0;
    assert(paths.deep_view() =~= all.take(0).filter(keep).map_values(text)) by {
        reveal(Seq::filter);
    }
    while i < candidates.len()
        invariant
            0 <= i <= candidates.len(),
            all == candidates@,
            keep == (|c: CheckoutCandidate| is_checkout(c)),
            text == (|c: CheckoutCandidate| c.path@),
            paths.deep_view() == all.take(i as int).filter(keep).map_values(text),
        decreases candidates.len() - i,
    {
        let ghost prior = paths.deep_view();
        proof {
            assert(all.take(i as int + 1) =~= all.take(i as int).push(all[i as int]));
            all.take(i as int).lemma_filter_push(all[i as int], keep);
        }
        if candidates[i].is_dir && !candidates[i].is_alias {
            paths.push(candidates[i].path.clone());
            proof {
                let kept = all.take(i as int).filter(keep);
                assert(kept.push(all[i as int]).map_values(text) =~= kept.map_values(text).push(
                    all[i as int].path@,
                ));
                assert(paths.deep_view() =~= prior.push(all[i as int].path@));
            }
        }
        i = i + 1;
    }
    assert(all.take(i as int) =~= all);
    paths
}

/// Whether a branch lies below the workweave's own.
pub open spec fn in_the_way(flat: Seq<char>) -> spec_fn(Seq<char>) -> bool {
    |n: Seq<char>| n != flat && claimed_under(flat, n)
}

/// The branches of the retired shape in a workweave's namespace.
pub open spec fn legacy_refs(flat: Seq<char>, observed: Option<Vec<String>>) -> Seq<Seq<char>> {
    match observed {
        Some(names) => names.deep_view().filter(in_the_way(flat)),
        None => Seq::empty(),
    }
}

/// Whether the workweave's own branch is there.
pub open spec fn flat_present(flat: Seq<char>, observed: Option<Vec<String>>) -> bool {
    observed matches Some(names) && names.deep_view().contains(flat)
}

/// Whether the workweave's own branch is there, and which branches of the
/// retired shape are in its namespace.
pub fn refs_in_workweave_namespace(flat: &String, observed: &Option<Vec<String>>) -> (refs: (
    bool,
    Vec<String>,
))
    ensures
        refs.0 == flat_present(flat@, *observed),
        refs.1.deep_view() == legacy_refs(flat@, *observed),
{
    let mut legacy: Vec<String> = Vec::new();
    let mut present: bool = false;
    if let Some(names) = observed {
        let ghost all = names.deep_view();
        let ghost keep = in_the_way(flat@);
        let mut i: usize = 0;
        assert(legacy.deep_view() =~= all.take(0).filter(keep)) by {
            reveal(Seq::filter);
        }
        while i < names.len()
            invariant
                0 <= i <= names.len(),
                all == names.deep_view(),
                keep == in_the_way(flat@),
                legacy.deep_view() == all.take(i as int).filter(keep),
                present == exists|k: int| 0 <= k < i && #[trigger] all[k] == flat@,
            decreases names.len() - i,
        {
            let ghost prior = legacy.deep_view();
            proof {
                assert(all[i as int] == names@[i as int]@);
                assert(all.take(i as int + 1) =~= all.take(i as int).push(all[i as int]));
                all.take(i as int).lemma_filter_push(all[i as int], keep);
            }
            if names[i] == *flat {
                present = true;
                assert(all[i as int] == flat@);
            } else if claim(flat, &names[i]) {
                legacy.push(names[i].clone());
                assert(legacy.deep_view() =~= prior.push(all[i as int]));
            }
            i = i + 1;
        }
        assert(all.take(i as int) =~= all);
    } else {
        assert(legacy.deep_view() =~= Seq::empty());
    }
    (present, legacy)
}

/// The first receipt for the branch `name`.
pub open spec fn first_named(refs: Seq<RecordedRefView>, name: Seq<char>) -> Option<RecordedRefView>
    decreases refs.len(),
{
    if refs.len() == 0 {
        None
    } else {
        match first_named(refs.drop_last(), name) {
            Some(r) => Some(r),
            None => if refs.last().name == name {
                Some(refs.last())
            } else {
                None
            },
        }
    }
}

proof fn named_stays(refs: Seq<RecordedRefView>, n: int, name: Seq<char>)
    requires
        0 <= n <= refs.len(),
        first_named(refs.take(n), name) is Some,
    ensures
        first_named(refs, name) == first_named(refs.take(n), name),
    decreases refs.len(),
{
    if n == refs.len() {
        assert(refs.take(n) =~= refs);
    } else {
        assert(refs.drop_last().take(n) =~= refs.take(n));
        named_stays(refs.drop_last(), n, name);
    }
}

/// A receipt is found for a name exactly where one is held, and it is one of
/// those held.
pub proof fn named_receipt_is_held(refs: Seq<RecordedRefView>, name: Seq<char>)
    ensures
        first_named(refs, name) is Some <==> exists|i: int|
            0 <= i < refs.len() && (#[trigger] refs[i]).name == name,
        first_named(refs, name) matches Some(r) ==> refs.contains(r) && r.name == name,
    decreases refs.len(),
{
    if refs.len() > 0 {
        let init = refs.drop_last();
        named_receipt_is_held(init, name);
        if first_named(init, name) is Some {
            let i = choose|i: int| 0 <= i < init.len() && init[i] == first_named(init, name)->0;
            assert(refs[i] == init[i]);
            assert(refs[i].name == name);
        } else if refs.last().name == name {
            assert(refs[refs.len() - 1].name == name);
        } else {
            assert forall|i: int| 0 <= i < refs.len() implies (#[trigger] refs[i]).name != name by {
                if i < init.len() {
                    assert(init[i] == refs[i]);
                }
            }
        }
    }
}

/// The place of the first receipt for the branch `name`.
fn find_named<'a>(refs: &Vec<RecordedRef<'a>>, name: &String) -> (found: Option<usize>)
    ensures
        match found {
            Some(i) => i < refs@.len() && first_named(models(refs@), name@) == Some(
                refs@[i as int].model(),
            ),
            None => first_named(models(refs@), name@) is None,
        },
{
    let ghost all = models(refs@);
    let mut i: usize = 0;
    while i < refs.len()
        invariant
            0 <= i <= refs.len(),
            all == models(refs@),
            first_named(all.take(i as int), name@) is None,
        decreases refs.len() - i,
    {
        proof {
            assert(all.take(i as int + 1).drop_last() =~= all.take(i as int));
            assert(all.take(i as int + 1).last() == refs@[i as int].model());
        }
        if refs[i].receipt.name == *name {
            proof {
                named_stays(all, i as int + 1, name@);
            }
            return Some(i);
        }
        i = i + 1;
    }
    assert(all.take(i as int) =~= all);
    None
}

/// A branch-discipline finding.
pub open spec fn branch_finding(path: Seq<char>, sub_kind: BranchDisciplineKindView) -> CheckViolationView {
    CheckViolationView::BranchDiscipline { repo_path: path, sub_kind }
}

/// The workweave's own branch, where a receipt is held for it.
pub open spec fn recorded_branch(refs: Seq<RecordedRefView>, flat: Seq<char>) -> Option<Seq<char>> {
    match first_named(refs, flat) {
        Some(r) => Some(r.name),
        None => None,
    }
}

/// The retired-shape branch beside a detached checkout. A branch that is gone
/// strands nothing; one that cannot be read, or whose history cannot be read,
/// counts as stranding its commits.
pub open spec fn legacy_at_tip(
    name: Seq<char>,
    tip: TipView,
    carried: Option<bool>,
) -> LegacyRefAtTipView {
    LegacyRefAtTipView {
        branch: name,
        tip_sha: match tip {
            TipView::At { revision } => revision,
            TipView::Unreadable | TipView::Absent => Seq::empty(),
        },
        strands_commits: match tip {
            TipView::At { .. } => carried != Some(true),
            TipView::Unreadable => true,
            TipView::Absent => false,
        },
    }
}

/// What the branch a checkout stands on raises.
pub open spec fn head_kind(
    refs: Seq<RecordedRefView>,
    flat: Seq<char>,
    c: CheckoutReading,
) -> Option<BranchDisciplineKindView> {
    let legacy = legacy_refs(flat, c.namespace);
    match c.head {
        HeadReading::Attached { branch } => if branch@ == flat {
            None
        } else if claimed_under(flat, branch@) {
            if legacy.len() > 1 {
                Some(
                    BranchDisciplineKindView::BlockedEphemeralNamespace {
                        expected_ref: flat,
                        blocking_refs: legacy,
                    },
                )
            } else {
                Some(
                    BranchDisciplineKindView::UnmigratedEphemeralBranch {
                        actual_branch: branch@,
                        expected_ref: flat,
                    },
                )
            }
        } else if first_named(refs, branch@) is Some {
            Some(
                BranchDisciplineKindView::ForeignEphemeral {
                    actual_branch: branch@,
                    expected_ref: flat,
                    recorded_ref: recorded_branch(refs, flat),
                },
            )
        } else {
            Some(
                BranchDisciplineKindView::SharedBranch {
                    actual_branch: branch@,
                    expected_ref: flat,
                    recorded_ref: recorded_branch(refs, flat),
                },
            )
        },
        HeadReading::Detached { at } => if legacy.len() > 1 {
            Some(
                BranchDisciplineKindView::BlockedDetachedNamespace {
                    expected_ref: flat,
                    at_sha: at@,
                    blocking_refs: legacy,
                },
            )
        } else {
            Some(
                BranchDisciplineKindView::Detached {
                    expected_ref: flat,
                    recorded_ref: recorded_branch(refs, flat),
                    at_sha: at@,
                    legacy_branch: if legacy.len() == 1 {
                        Some(legacy_at_tip(legacy[0], c.legacy_tip.deep_view(), c.legacy_carried))
                    } else {
                        None
                    },
                },
            )
        },
        HeadReading::Unborn { branch } => Some(
            BranchDisciplineKindView::UnbornCheckout { branch: branch@ },
        ),
        HeadReading::Unreadable => None,
    }
}

/// What a checkout raises: its branch without a receipt, and the branch it
/// stands on.
pub open spec fn checkout_branch_findings(
    refs: Seq<RecordedRefView>,
    flat: Seq<char>,
    c: CheckoutReading,
) -> Seq<CheckViolationView> {
    (if flat_present(flat, c.namespace) && first_named(refs, flat) is None {
        seq![
            branch_finding(
                c.path@,
                BranchDisciplineKindView::UnrecordedEphemeralBranch { branch: flat },
            ),
        ]
    } else {
        Seq::empty()
    }) + (match head_kind(refs, flat, c) {
        Some(kind) => seq![branch_finding(c.path@, kind)],
        None => Seq::empty(),
    })
}

/// What each checkout of a workweave raises.
pub open spec fn checkout_branch_rule(recorded: RecordedRefs, flat: Seq<char>) -> spec_fn(
    CheckoutReading,
) -> Seq<CheckViolationView> {
    |c: CheckoutReading| checkout_branch_findings(store_refs(recorded, c.store@), flat, c)
}

/// What a workweave raises.
pub open spec fn workweave_branch_findings(recorded: RecordedRefs, w: WorkweaveReading) -> Seq<
    CheckViolationView,
> {
    match w.project {
        Some(project) => if w.usable {
            w.checkouts@.flat_map(checkout_branch_rule(recorded, minted(project@, w.name@)))
        } else {
            Seq::empty()
        },
        None => Seq::empty(),
    }
}

/// What each workweave raises.
pub open spec fn workweave_branch_rule(recorded: RecordedRefs) -> spec_fn(WorkweaveReading) -> Seq<
    CheckViolationView,
> {
    |w: WorkweaveReading| workweave_branch_findings(recorded, w)
}

/// A checkout that stands on its workweave's branch, with a receipt for it,
/// raises nothing.
pub proof fn healthy_checkout_raises_nothing(
    refs: Seq<RecordedRefView>,
    flat: Seq<char>,
    c: CheckoutReading,
)
    requires
        c.head matches HeadReading::Attached { branch } && branch@ == flat,
        first_named(refs, flat) is Some,
    ensures
        checkout_branch_findings(refs, flat, c).len() == 0,
{
}

/// Where several branches crowd a workweave's namespace, no finding promises
/// the rename or the adoption that git would refuse.
pub proof fn crowded_namespace_promises_nothing(
    refs: Seq<RecordedRefView>,
    flat: Seq<char>,
    c: CheckoutReading,
)
    requires
        legacy_refs(flat, c.namespace).len() > 1,
    ensures
        head_kind(refs, flat, c) matches Some(kind) ==> !(kind is UnmigratedEphemeralBranch)
            && !(kind is Detached),
{
}

/// The retired-shape branch beside a detached checkout.
pub fn legacy_ref_at_tip(
    name: &String,
    tip: &TipReading,
    carried: Option<bool>,
) -> (legacy: LegacyRefAtTip)
    ensures
        legacy.deep_view() == legacy_at_tip(name@, tip.deep_view(), carried),
{
    let known: bool = match carried {
        Some(c) => c,
        None => false,
    };
    match tip {
        TipReading::At { revision } => LegacyRefAtTip {
            branch: name.clone(),
            tip_sha: revision.clone(),
            strands_commits: !known,
        },
        TipReading::Unreadable => LegacyRefAtTip {
            branch: name.clone(),
            tip_sha: String::new(),
            strands_commits: true,
        },
        TipReading::Absent => LegacyRefAtTip {
            branch: name.clone(),
            tip_sha: String::new(),
            strands_commits: false,
        },
    }
}

/// What the branch a checkout stands on raises.
fn classify_head(
    refs: &Vec<RecordedRef<'_>>,
    flat: &String,
    legacy: Vec<String>,
    c: &CheckoutReading,
) -> (kind: Option<BranchDisciplineKind>)
    requires
        legacy.deep_view() == legacy_refs(flat@, c.namespace),
    ensures
        kind.deep_view() == head_kind(models(refs@), flat@, *c),
{
    let recorded_ref: Option<String> = match find_named(refs, flat) {
        Some(i) => {
            proof {
                named_receipt_is_held(models(refs@), flat@);
            }
            Some(flat.clone())
        },
        None => None,
    };
    match &c.head {
        HeadReading::Attached { branch } => {
            if *branch == *flat {
                None
            } else if claim(flat, branch) {
                if legacy.len() > 1 {
                    Some(
                        BranchDisciplineKind::BlockedEphemeralNamespace {
                            expected_ref: flat.clone(),
                            blocking_refs: legacy,
                        },
                    )
                } else {
                    Some(
                        BranchDisciplineKind::UnmigratedEphemeralBranch {
                            actual_branch: branch.clone(),
                            expected_ref: flat.clone(),
                        },
                    )
                }
            } else if find_named(refs, branch).is_some() {
                Some(
                    BranchDisciplineKind::ForeignEphemeral {
                        actual_branch: branch.clone(),
                        expected_ref: flat.clone(),
                        recorded_ref,
                    },
                )
            } else {
                Some(
                    BranchDisciplineKind::SharedBranch {
                        actual_branch: branch.clone(),
                        expected_ref: flat.clone(),
                        recorded_ref,
                    },
                )
            }
        },
        HeadReading::Detached { at } => {
            if legacy.len() > 1 {
                Some(
                    BranchDisciplineKind::BlockedDetachedNamespace {
                        expected_ref: flat.clone(),
                        at_sha: at.clone(),
                        blocking_refs: legacy,
                    },
                )
            } else {
                let legacy_branch: Option<LegacyRefAtTip> = if legacy.len() == 1 {
                    assert(legacy.deep_view()[0] == legacy@[0]@);
                    Some(legacy_ref_at_tip(&legacy[0], &c.legacy_tip, c.legacy_carried))
                } else {
                    None
                };
                Some(
                    BranchDisciplineKind::Detached {
                        expected_ref: flat.clone(),
                        recorded_ref,
                        at_sha: at.clone(),
                        legacy_branch,
                    },
                )
            }
        },
        HeadReading::Unborn { branch } => Some(
            BranchDisciplineKind::UnbornCheckout { branch: branch.clone() },
        ),
        HeadReading::Unreadable => None,
    }
}

/// Adds a branch-discipline finding.
fn push_branch(violations: &mut Vec<CheckViolation>, path: &PathText, kind: BranchDisciplineKind)
    ensures
        final(violations).deep_view() == old(violations).deep_view().push(
            branch_finding(path@, kind.deep_view()),
        ),
{
    let ghost before = violations.deep_view();
    violations.push(CheckViolation::BranchDiscipline { repo_path: path.clone(), sub_kind: kind });
    assert(violations.deep_view() =~= before.push(branch_finding(path@, kind.deep_view())));
}

/// Adds what a workweave's checkouts raise.
pub fn scan_workweave_repo_branches(
    recorded: &RecordedRefs,
    w: &WorkweaveReading,
    violations: &mut Vec<CheckViolation>,
)
    ensures
        final(violations).deep_view() == old(violations).deep_view() + workweave_branch_findings(
            *recorded,
            *w,
        ),
{
    let ghost start = violations.deep_view();
    if !w.usable || w.project.is_none() {
        assert(violations.deep_view() =~= start + workweave_branch_findings(*recorded, *w));
        return;
    }
    if let Some(project) = &w.project {
        let flat: String = mint(project, &w.name);
        let ghost f = checkout_branch_rule(*recorded, flat@);
        let mut i: usize = 0;
        assert(violations.deep_view() =~= start + w.checkouts@.take(0).flat_map(f));
        while i < w.checkouts.len()
            invariant
                0 <= i <= w.checkouts.len(),
                f == checkout_branch_rule(*recorded, flat@),
                violations.deep_view() == start + w.checkouts@.take(i as int).flat_map(f),
            decreases w.checkouts.len() - i,
        {
            let ghost prior = violations.deep_view();
            let c: &CheckoutReading = &w.checkouts[i];
            let refs: Vec<RecordedRef<'_>> = recorded.for_store(&c.store);
            let ghost rv = store_refs(*recorded, c.store@);
            let (present, legacy): (bool, Vec<String>) = refs_in_workweave_namespace(
                &flat,
                &c.namespace,
            );
            if present && find_named(&refs, &flat).is_none() {
                push_branch(
                    violations,
                    &c.path,
                    BranchDisciplineKind::UnrecordedEphemeralBranch { branch: flat.clone() },
                );
            }
            if let Some(kind) = classify_head(&refs, &flat, legacy, c) {
                push_branch(violations, &c.path, kind);
            }
            proof {
                assert(violations.deep_view() =~= prior + checkout_branch_findings(rv, flat@, *c));
                w.checkouts@.lemma_flat_map_take_append(f, i as int);
                assert(violations.deep_view() =~= start + w.checkouts@.take(i as int + 1).flat_map(
                    f,
                ));
            }
            i = i + 1;
        }
        assert(w.checkouts@.take(i as int) =~= w.checkouts@);
    }
}

/// Where a store's tracking branch comes from.
#[derive(Debug)]
pub enum TrackingSource {
    /// The manifest declares it.
    Declared { local: String },
    /// The remote's default branch.
    RemoteDefault,
    Unresolvable,
}

/// A store the checkouts share.
#[derive(Debug)]
pub struct CanonicalStore {
    pub path: PathText,
    pub tracking: TrackingSource,
}

/// The local branch a store is expected on.
pub open spec fn counterpart(tracking: TrackingSource, remote_default: Option<String>) -> Option<
    Seq<char>,
> {
    match tracking {
        TrackingSource::Declared { local } => Some(local@),
        TrackingSource::RemoteDefault => match remote_default {
            Some(name) => Some(name@),
            None => None,
        },
        TrackingSource::Unresolvable => None,
    }
}

impl CanonicalStore {
    /// The local branch the store is expected on. `remote_default` is the
    /// local counterpart of the remote's default branch, where it is known.
    pub fn local_counterpart(&self, remote_default: &Option<String>) -> (name: Option<String>)
        ensures
            name.deep_view() == counterpart(self.tracking, *remote_default),
    {
        match &self.tracking {
            TrackingSource::Declared { local } => Some(local.clone()),
            TrackingSource::RemoteDefault => match remote_default {
                Some(name) => Some(name.clone()),
                None => None,
            },
            TrackingSource::Unresolvable => None,
        }
    }
}

/// A manifest entry's version, where the entry is for the repo.
pub open spec fn version_for(repo: Seq<char>) -> spec_fn((RepoPath, RepoEntry)) -> Seq<Seq<char>> {
    |e: (RepoPath, RepoEntry)| if e.0@ == repo { seq![e.1.version@] } else { Seq::empty() }
}

/// The versions a project declares for a repo.
pub open spec fn project_versions(repo: Seq<char>) -> spec_fn(Project) -> Seq<Seq<char>> {
    |p: Project| p.manifest.repositories@.flat_map(version_for(repo))
}

/// The different versions the projects declare for a repo.
pub open spec fn declared_versions(projects: Seq<Project>, repo: Seq<char>) -> Seq<Seq<char>> {
    crate::order::distinct(projects.flat_map(project_versions(repo)))
}

/// The tracking branch a repo's store has: the one declared version, where all
/// projects agree on it and it names a branch.
pub open spec fn tracking_of(
    projects: Seq<Project>,
    locals: Seq<(String, String)>,
    repo: Seq<char>,
) -> Option<Seq<char>> {
    let versions = declared_versions(projects, repo);
    if versions.len() == 1 {
        match value_of(locals, versions[0]) {
            Some(local) => Some(local@),
            None => None,
        }
    } else {
        None
    }
}

/// The different versions the projects declare for a repo.
fn versions_declared(projects: &Vec<Project>, repo: &RepoPath) -> (versions: Vec<String>)
    ensures
        versions.deep_view() == declared_versions(projects@, repo@),
{
    let ghost f = project_versions(repo@);
    let ghost g = version_for(repo@);
    let mut versions: Vec<String> = Vec::new();
    let mut i: usize = 0;
    assert(projects@.take(0).flat_map(f) =~= Seq::empty());
    assert(versions.deep_view() =~= crate::order::distinct(projects@.take(0).flat_map(f)));
    while i < projects.len()
        invariant
            0 <= i <= projects.len(),
            f == project_versions(repo@),
            g == version_for(repo@),
            versions.deep_view() == crate::order::distinct(projects@.take(i as int).flat_map(f)),
        decreases projects.len() - i,
    {
        let ghost before = projects@.take(i as int).flat_map(f);
        let list: &Vec<(RepoPath, RepoEntry)> = &projects[i].manifest.repositories;
        let mut k: usize = 0;
        assert(before + list@.take(0).flat_map(g) =~= before);
        while k < list.len()
            invariant
                0 <= k <= list.len(),
                g == version_for(repo@),
                versions.deep_view() == crate::order::distinct(
                    before + list@.take(k as int).flat_map(g),
                ),
            decreases list.len() - k,
        {
            let ghost told = before + list@.take(k as int).flat_map(g);
            proof {
                list@.lemma_flat_map_take_append(g, k as int);
            }
            if list[k].0 == *repo {
                let _new: bool = note(&mut versions, &list[k].1.version);
                proof {
                    let now = before + list@.take(k as int + 1).flat_map(g);
                    assert(now =~= told.push(list@[k as int].1.version@));
                    assert(now.drop_last() =~= told);
                }
            } else {
                assert(before + list@.take(k as int + 1).flat_map(g) =~= told);
            }
            k = k + 1;
        }
        proof {
            assert(list@.take(k as int) =~= list@);
            projects@.lemma_flat_map_take_append(f, i as int);
        }
        i = i + 1;
    }
    assert(projects@.take(i as int) =~= projects@);
    versions
}

/// A project's own directory, and whether it is a repo.
#[derive(Debug)]
pub struct ProjectRepoReading {
    pub path: PathText,
    pub is_repo: bool,
}

/// Whether a store is what is made of a repo on disk.
pub open spec fn store_of_repo(
    store: CanonicalStore,
    root: Seq<char>,
    projects: Seq<Project>,
    locals: Seq<(String, String)>,
    repo: Seq<char>,
) -> bool {
    &&& store.path@ == joined(root, repo)
    &&& match tracking_of(projects, locals, repo) {
        Some(local) => store.tracking matches TrackingSource::Declared { local: l } && l@ == local,
        None => store.tracking is Unresolvable,
    }
}

/// The stores the checkouts share: one for each repo on disk, then one for
/// each project that is a repo itself. `locals` gives, for each version that
/// names a branch, its local counterpart.
pub fn canonical_stores(
    root: &PathText,
    projects: &Vec<Project>,
    repos_on_disk: &Vec<RepoPath>,
    locals: &Vec<(String, String)>,
    project_dirs: &Vec<ProjectRepoReading>,
) -> (stores: Vec<CanonicalStore>)
    ensures
        ({
            let own = project_dirs@.filter(|d: ProjectRepoReading| d.is_repo);
            &&& stores@.len() == repos_on_disk@.len() + own.len()
            &&& forall|i: int|
                0 <= i < repos_on_disk@.len() ==> store_of_repo(
                    #[trigger] stores@[i],
                    root@,
                    projects@,
                    locals@,
                    repos_on_disk@[i]@,
                )
            &&& forall|i: int|
                repos_on_disk@.len() <= i < stores@.len() ==> (#[trigger] stores@[i]).tracking
                    is RemoteDefault && stores@[i].path@ == own[i - repos_on_disk@.len()].path@
        }),
{
    let mut stores: Vec<CanonicalStore> = Vec::new();
    let mut i: usize = 0;
    while i < repos_on_disk.len()
        invariant
            0 <= i <= repos_on_disk.len(),
            stores@.len() == i,
            forall|k: int|
                0 <= k < i ==> store_of_repo(
                    #[trigger] stores@[k],
                    root@,
                    projects@,
                    locals@,
                    repos_on_disk@[k]@,
                ),
        decreases repos_on_disk.len() - i,
    {
        let repo: &RepoPath = &repos_on_disk[i];
        let versions: Vec<String> = versions_declared(projects, repo);
        let tracking: TrackingSource = if versions.len() == 1 {
            assert(versions.deep_view()[0] == versions@[0]@);
            match lookup(locals, &versions[0]) {
                Some(local) => TrackingSource::Declared { local: local.clone() },
                None => TrackingSource::Unresolvable,
            }
        } else {
            TrackingSource::Unresolvable
        };
        stores.push(CanonicalStore { path: join_path(root, repo), tracking });
        i = i + 1;
    }
    let ghost keep = |d: ProjectRepoReading| d.is_repo;
    let ghost n = repos_on_disk@.len();
    let mut j: usize = 0;
    assert(project_dirs@.take(0).filter(keep).len() == 0) by {
        reveal(Seq::filter);
    }
    while j < project_dirs.len()
        invariant
            0 <= j <= project_dirs.len(),
            n == repos_on_disk@.len(),
            keep == (|d: ProjectRepoReading| d.is_repo),
            stores@.len() == n + project_dirs@.take(j as int).filter(keep).len(),
            forall|k: int|
                0 <= k < n ==> store_of_repo(
                    #[trigger] stores@[k],
                    root@,
                    projects@,
                    locals@,
                    repos_on_disk@[k]@,
                ),
            forall|k: int|
                n <= k < stores@.len() ==> (#[trigger] stores@[k]).tracking is RemoteDefault
                    && stores@[k].path@ == project_dirs@.take(j as int).filter(keep)[k - n].path@,
        decreases project_dirs.len() - j,
    {
        proof {
            assert(project_dirs@.take(j as int + 1) =~= project_dirs@.take(j as int).push(
                project_dirs@[j as int],
            ));
            project_dirs@.take(j as int).lemma_filter_push(project_dirs@[j as int], keep);
        }
        if project_dirs[j].is_repo {
            stores.push(
                CanonicalStore {
                    path: project_dirs[j].path.clone(),
                    tracking: TrackingSource::RemoteDefault,
                },
            );
        }
        j = j + 1;
    }
    assert(project_dirs@.take(j as int) =~= project_dirs@);
    stores
}

/// What was found of a store.
#[derive(Debug)]
pub struct StoreReading {
    pub store: CanonicalStore,
    /// The local counterpart of the remote's default branch.
    pub remote_default: Option<String>,
    pub head: HeadReading,
    /// Where the branch the store is expected on points.
    pub counterpart_tip: TipReading,
    /// The branches its live worktrees stand on; `None` where they cannot be
    /// listed.
    pub held: Option<Vec<String>>,
    /// Its local branches; `None` where they cannot be listed.
    pub branches: Option<Vec<String>>,
}

/// Whether a detached store can go back to its branch without moving: the
/// branch is there and points where HEAD is.
pub open spec fn reattaches(s: StoreReading, at: Seq<char>) -> bool {
    counterpart(s.store.tracking, s.remote_default) is Some && s.counterpart_tip.deep_view()
        == (TipView::At { revision: at })
}

/// What a store's HEAD raises.
pub open spec fn store_head_kind(refs: Seq<RecordedRefView>, s: StoreReading) -> Option<
    BranchDisciplineKindView,
> {
    match s.head {
        HeadReading::Attached { branch } => match first_named(refs, branch@) {
            Some(r) => match r.live {
                Some(workweave) => Some(
                    BranchDisciplineKindView::CanonicalHoldsLiveWorkweaveRef {
                        actual_branch: r.name,
                        workweave_name: workweave,
                    },
                ),
                None => Some(
                    BranchDisciplineKindView::CanonicalHoldsLeakedRef {
                        actual_branch: r.name,
                        project: r.project,
                    },
                ),
            },
            None => None,
        },
        HeadReading::Detached { at } => Some(
            BranchDisciplineKindView::CanonicalDetached {
                at_sha: at@,
                counterpart: counterpart(s.store.tracking, s.remote_default),
                reattachable: reattaches(s, at@),
            },
        ),
        HeadReading::Unborn { .. } => None,
        HeadReading::Unreadable => None,
    }
}

/// Whether a receipt's branch was left behind: no workweave on disk stands on
/// it, no worktree holds it, it is there, and it is not of the retired shape.
pub open spec fn left_behind(held: Seq<Seq<char>>, r: RecordedRefView) -> bool {
    r.live is None && !held.contains(r.name) && r.tip is At && !pre_flat(r.name)
}

/// What a receipt's branch raises where it was left behind.
pub open spec fn leak_rule(path: Seq<char>, held: Seq<Seq<char>>) -> spec_fn(RecordedRefView) -> Seq<
    CheckViolationView,
> {
    |r: RecordedRefView|
        if left_behind(held, r) {
            seq![
                branch_finding(
                    path,
                    if r.merged {
                        BranchDisciplineKindView::StaleEphemeralBranchSafe {
                            branch: r.name,
                            project: r.project,
                        }
                    } else {
                        BranchDisciplineKindView::StaleEphemeralBranchLive {
                            branch: r.name,
                            project: r.project,
                            tip_sha: r.tip->revision,
                        }
                    },
                ),
            ]
        } else {
            Seq::empty()
        }
}

/// Where the first `--` of a text is; -1 where there is none.
pub open spec fn separator_at(s: Seq<char>) -> int
    decreases s.len(),
{
    if s.len() < 2 {
        -1
    } else if s[0] == '-' && s[1] == '-' {
        0
    } else {
        let rest = separator_at(s.drop_first());
        if rest < 0 {
            -1
        } else {
            rest + 1
        }
    }
}

/// Where the first `/` of a text is; -1 where there is none.
pub open spec fn slash_at(s: Seq<char>) -> int
    decreases s.len(),
{
    if s.len() == 0 {
        -1
    } else if s[0] == '/' {
        0
    } else {
        let rest = slash_at(s.drop_first());
        if rest < 0 {
            -1
        } else {
            rest + 1
        }
    }
}

/// Whether a branch name is worth showing as a possible leftover of the
/// retired shape `<project>--<workweave>/<segment>`, none of the three empty.
pub open spec fn looks_pre_flat(name: Seq<char>) -> bool {
    let slash = slash_at(name);
    let lhs = name.take(slash);
    let sep = separator_at(lhs);
    slash >= 0 && slash + 1 < name.len() && sep > 0 && sep + 2 < lhs.len()
}

/// What a branch without a receipt raises where its name is of the retired
/// shape and no workweave on disk claims it.
pub open spec fn unowned_rule(
    path: Seq<char>,
    refs: Seq<RecordedRefView>,
    held: Seq<Seq<char>>,
    live: Seq<Seq<char>>,
) -> spec_fn(Seq<char>) -> Seq<CheckViolationView> {
    |name: Seq<char>|
        if looks_pre_flat(name) && first_named(refs, name) is None && !held.contains(name) && !(
        exists|i: int| 0 <= i < live.len() && claimed_under(#[trigger] live[i], name)) {
            seq![
                branch_finding(
                    path,
                    BranchDisciplineKindView::StaleEphemeralBranchUnowned { branch: name },
                ),
            ]
        } else {
            Seq::empty()
        }
}

/// What the branches of a store raise, once its worktrees are known.
pub open spec fn store_leak_findings(
    refs: Seq<RecordedRefView>,
    live: Seq<Seq<char>>,
    s: StoreReading,
) -> Seq<CheckViolationView> {
    match s.held {
        None => Seq::empty(),
        Some(held) => refs.flat_map(leak_rule(s.store.path@, held.deep_view())) + match s.branches {
            None => Seq::empty(),
            Some(names) => names.deep_view().flat_map(
                unowned_rule(s.store.path@, refs, held.deep_view(), live),
            ),
        },
    }
}

/// What a store raises. One whose HEAD cannot be read raises nothing.
pub open spec fn store_findings(
    refs: Seq<RecordedRefView>,
    live: Seq<Seq<char>>,
    s: StoreReading,
) -> Seq<CheckViolationView> {
    if s.head is Unreadable {
        Seq::empty()
    } else {
        (match store_head_kind(refs, s) {
            Some(kind) => seq![branch_finding(s.store.path@, kind)],
            None => Seq::empty(),
        }) + store_leak_findings(refs, live, s)
    }
}

/// What each store raises.
pub open spec fn store_rule(recorded: RecordedRefs, live: Seq<Seq<char>>) -> spec_fn(
    StoreReading,
) -> Seq<CheckViolationView> {
    |s: StoreReading| store_findings(store_refs(recorded, s.store.path@), live, s)
}

/// Whether a branch name looks like a leftover of the retired shape.
pub fn looks_like_a_pre_flat_ref(name: &str) -> (looks: bool)
    ensures
        looks == looks_pre_flat(name@),
{
    let chars: Vec<char> = chars_of(name);
    let slash: Option<usize> = find_slash(&chars);
    match slash {
        None => false,
        Some(at) => {
            let lhs: Vec<char> = crate::scan_text::slice_of(&chars, 0, at);
            assert(lhs@ =~= name@.take(at as int));
            match find_separator(&lhs) {
                None => false,
                Some(sep) => at < chars.len() - 1 && sep > 0 && sep < lhs.len() - 2,
            }
        },
    }
}

/// A slash is the first where none stands before it.
pub proof fn slash_is_first(s: Seq<char>, k: int)
    requires
        0 <= k <= s.len(),
        forall|i: int| 0 <= i < k ==> s[i] != '/',
    ensures
        k < s.len() && s[k] == '/' ==> slash_at(s) == k,
        k == s.len() ==> slash_at(s) == -1,
    decreases s.len(),
{
    if s.len() > 0 && k > 0 {
        let rest = s.drop_first();
        assert forall|i: int| 0 <= i < k - 1 implies rest[i] != '/' by {
            assert(rest[i] == s[i + 1]);
        }
        slash_is_first(rest, k - 1);
        if k < s.len() {
            assert(rest[k - 1] == s[k]);
        }
    }
}

fn find_slash(s: &Vec<char>) -> (found: Option<usize>)
    ensures
        match found {
            Some(k) => k < s@.len() && slash_at(s@) == k,
            None => slash_at(s@) < 0,
        },
{
    let mut k: usize = 0;
    while k < s.len()
        invariant
            0 <= k <= s.len(),
            forall|i: int| 0 <= i < k ==> s@[i] != '/',
        decreases s.len() - k,
    {
        if s[k] == '/' {
            proof {
                slash_is_first(s@, k as int);
            }
            return Some(k);
        }
        k = k + 1;
    }
    proof {
        slash_is_first(s@, k as int);
    }
    None
}

proof fn separator_is_first(s: Seq<char>, k: int)
    requires
        0 <= k,
        forall|i: int| 0 <= i < k && i + 1 < s.len() ==> !(#[trigger] s[i] == '-' && s[i + 1] == '-'),
    ensures
        k + 1 < s.len() && s[k] == '-' && s[k + 1] == '-' ==> separator_at(s) == k,
        k + 1 >= s.len() ==> separator_at(s) == -1,
    decreases s.len(),
{
    if s.len() >= 2 && k > 0 {
        let rest = s.drop_first();
        assert(!(s[0] == '-' && s[1] == '-'));
        assert forall|i: int| 0 <= i < k - 1 && i + 1 < rest.len() implies !(#[trigger] rest[i]
            == '-' && rest[i + 1] == '-') by {
            assert(rest[i] == s[i + 1]);
            assert(rest[i + 1] == s[i + 2]);
        }
        separator_is_first(rest, k - 1);
        if k + 1 < s.len() {
            assert(rest[k - 1] == s[k]);
            assert(rest[k] == s[k + 1]);
        }
    }
}

fn find_separator(s: &Vec<char>) -> (found: Option<usize>)
    ensures
        match found {
            Some(k) => k + 1 < s@.len() && separator_at(s@) == k,
            None => separator_at(s@) < 0,
        },
{
    let mut k: usize = 0;
    while k < s.len() && k + 1 < s.len()
        invariant
            0 <= k <= s.len(),
            forall|i: int|
                0 <= i < k && i + 1 < s@.len() ==> !(#[trigger] s@[i] == '-' && s@[i + 1] == '-'),
        decreases s.len() - k,
    {
        if s[k] == '-' && s[k + 1] == '-' {
            proof {
                separator_is_first(s@, k as int);
            }
            return Some(k);
        }
        k = k + 1;
    }
    proof {
        separator_is_first(s@, k as int);
    }
    None
}

/// What a store's HEAD raises.
fn classify_store_head(refs: &Vec<RecordedRef<'_>>, s: &StoreReading) -> (kind: Option<
    BranchDisciplineKind,
>)
    ensures
        kind.deep_view() == store_head_kind(models(refs@), *s),
{
    match &s.head {
        HeadReading::Attached { branch } => match find_named(refs, branch) {
            Some(i) => {
                let r: &RecordedRef<'_> = &refs[i];
                match r.live_workweave {
                    Some(workweave) => Some(
                        BranchDisciplineKind::CanonicalHoldsLiveWorkweaveRef {
                            actual_branch: r.receipt.name.clone(),
                            workweave_name: workweave.clone(),
                        },
                    ),
                    None => Some(
                        BranchDisciplineKind::CanonicalHoldsLeakedRef {
                            actual_branch: r.receipt.name.clone(),
                            project: r.project.clone(),
                        },
                    ),
                }
            },
            None => None,
        },
        HeadReading::Detached { at } => {
            let counterpart: Option<String> = s.store.local_counterpart(&s.remote_default);
            let same: bool = match &s.counterpart_tip {
                TipReading::At { revision } => *revision == *at,
                _ => false,
            };
            let reattachable: bool = counterpart.is_some() && same;
            Some(
                BranchDisciplineKind::CanonicalDetached {
                    at_sha: at.clone(),
                    counterpart,
                    reattachable,
                },
            )
        },
        HeadReading::Unborn { .. } => None,
        HeadReading::Unreadable => None,
    }
}

/// Adds what the receipts of a store raise.
fn push_leaks(
    violations: &mut Vec<CheckViolation>,
    refs: &Vec<RecordedRef<'_>>,
    path: &PathText,
    held: &Vec<String>,
)
    ensures
        final(violations).deep_view() == old(violations).deep_view() + models(refs@).flat_map(
            leak_rule(path@, held.deep_view()),
        ),
{
    let ghost start = violations.deep_view();
    let ghost rv = models(refs@);
    let ghost f = leak_rule(path@, held.deep_view());
    let mut i: usize = 0;
    assert(violations.deep_view() =~= start + rv.take(0).flat_map(f));
    while i < refs.len()
        invariant
            0 <= i <= refs.len(),
            rv == models(refs@),
            f == leak_rule(path@, held.deep_view()),
            violations.deep_view() == start + rv.take(i as int).flat_map(f),
        decreases refs.len() - i,
    {
        let ghost prior = violations.deep_view();
        let r: &RecordedRef<'_> = &refs[i];
        assert(rv[i as int] == r.model());
        if r.live_workweave.is_none() && !holds(held, &r.receipt.name)
            && !receipt_names_a_pre_flat_ref(&r.receipt.name) {
            if let TipReading::At { revision } = &r.receipt.tip {
                let kind: BranchDisciplineKind = if r.receipt.merged {
                    BranchDisciplineKind::StaleEphemeralBranchSafe {
                        branch: r.receipt.name.clone(),
                        project: r.project.clone(),
                    }
                } else {
                    BranchDisciplineKind::StaleEphemeralBranchLive {
                        branch: r.receipt.name.clone(),
                        project: r.project.clone(),
                        tip_sha: revision.clone(),
                    }
                };
                push_branch(violations, path, kind);
            }
        }
        proof {
            rv.lemma_flat_map_take_append(f, i as int);
            assert(violations.deep_view() =~= prior + f(rv[i as int]));
            assert(violations.deep_view() =~= start + rv.take(i as int + 1).flat_map(f));
        }
        i = i + 1;
    }
    assert(rv.take(i as int) =~= rv);
}

/// Whether a workweave on disk claims the branch `name`.
fn claimed_by_live(live: &Vec<String>, name: &String) -> (claimed: bool)
    ensures
        claimed == exists|i: int|
            0 <= i < live.deep_view().len() && claimed_under(
                #[trigger] live.deep_view()[i],
                name@,
            ),
{
    let mut i: usize = 0;
    while i < live.len()
        invariant
            0 <= i <= live.len(),
            forall|k: int| 0 <= k < i ==> !claimed_under(#[trigger] live.deep_view()[k], name@),
        decreases live.len() - i,
    {
        assert(live.deep_view()[i as int] == live@[i as int]@);
        if claim(&live[i], name) {
            return true;
        }
        i = i + 1;
    }
    false
}

/// Adds what the unrecorded branches of a store raise.
fn push_unowned(
    violations: &mut Vec<CheckViolation>,
    refs: &Vec<RecordedRef<'_>>,
    path: &PathText,
    held: &Vec<String>,
    live: &Vec<String>,
    names: &Vec<String>,
)
    ensures
        final(violations).deep_view() == old(violations).deep_view() + names.deep_view().flat_map(
            unowned_rule(path@, models(refs@), held.deep_view(), live.deep_view()),
        ),
{
    let ghost start = violations.deep_view();
    let ghost nv = names.deep_view();
    let ghost f = unowned_rule(path@, models(refs@), held.deep_view(), live.deep_view());
    let mut i: usize = 0;
    assert(violations.deep_view() =~= start + nv.take(0).flat_map(f));
    while i < names.len()
        invariant
            0 <= i <= names.len(),
            nv == names.deep_view(),
            f == unowned_rule(path@, models(refs@), held.deep_view(), live.deep_view()),
            violations.deep_view() == start + nv.take(i as int).flat_map(f),
        decreases names.len() - i,
    {
        let ghost prior = violations.deep_view();
        let name: &String = &names[i];
        assert(nv[i as int] == name@);
        if looks_like_a_pre_flat_ref(name) && find_named(refs, name).is_none() && !claimed_by_live(
            live,
            name,
        ) && !holds(held, name) {
            push_branch(
                violations,
                path,
                BranchDisciplineKind::StaleEphemeralBranchUnowned { branch: name.clone() },
            );
        }
        proof {
            nv.lemma_flat_map_take_append(f, i as int);
            assert(violations.deep_view() =~= prior + f(nv[i as int]));
            assert(violations.deep_view() =~= start + nv.take(i as int + 1).flat_map(f));
        }
        i = i + 1;
    }
    assert(nv.take(i as int) =~= nv);
}

/// Adds what the stores raise.
pub fn scan_canonical_stores(
    recorded: &RecordedRefs,
    live: &Vec<String>,
    stores: &Vec<StoreReading>,
    violations: &mut Vec<CheckViolation>,
)
    ensures
        final(violations).deep_view() == old(violations).deep_view() + stores@.flat_map(
            store_rule(*recorded, live.deep_view()),
        ),
{
    let ghost start = violations.deep_view();
    let ghost f = store_rule(*recorded, live.deep_view());
    let mut i: usize = 0;
    assert(violations.deep_view() =~= start + stores@.take(0).flat_map(f));
    while i < stores.len()
        invariant
            0 <= i <= stores.len(),
            f == store_rule(*recorded, live.deep_view()),
            violations.deep_view() == start + stores@.take(i as int).flat_map(f),
        decreases stores.len() - i,
    {
        let ghost prior = violations.deep_view();
        let s: &StoreReading = &stores[i];
        let unreadable: bool = match &s.head {
            HeadReading::Unreadable => true,
            _ => false,
        };
        if !unreadable {
            let refs: Vec<RecordedRef<'_>> = recorded.for_store(&s.store.path);
            let ghost rv = models(refs@);
            if let Some(kind) = classify_store_head(&refs, s) {
                push_branch(violations, &s.store.path, kind);
            }
            let ghost middle = violations.deep_view();
            if let Some(held) = &s.held {
                push_leaks(violations, &refs, &s.store.path, held);
                if let Some(names) = &s.branches {
                    push_unowned(violations, &refs, &s.store.path, held, live, names);
                }
            }
            proof {
                assert(violations.deep_view() =~= middle + store_leak_findings(
                    rv,
                    live.deep_view(),
                    *s,
                ));
                assert(violations.deep_view() =~= prior + store_findings(
                    rv,
                    live.deep_view(),
                    *s,
                ));
            }
        }
        proof {
            stores@.lemma_flat_map_take_append(f, i as int);
            assert(violations.deep_view() =~= prior + f(stores@[i as int]));
            assert(violations.deep_view() =~= start + stores@.take(i as int + 1).flat_map(f));
        }
        i = i + 1;
    }
    assert(stores@.take(i as int) =~= stores@);
}

/// Everything the branch-discipline scan reads.
pub struct BranchObservation {
    pub recorded: RecordedRefs,
    pub workweaves: Vec<WorkweaveReading>,
    pub workweave_dirs: Vec<WorkweaveDirReading>,
    pub indexes: Vec<ProjectIndexReading>,
    pub stores: Vec<StoreReading>,
}

/// What the branch-discipline scan raises: first the workweaves, then the
/// stores.
pub open spec fn discipline_findings(o: BranchObservation) -> Seq<CheckViolationView> {
    o.workweaves@.flat_map(workweave_branch_rule(o.recorded)) + o.stores@.flat_map(
        store_rule(o.recorded, live_branches(o.workweave_dirs@, o.indexes@)),
    )
}

/// Reports checkouts off their branch and branches left behind.
pub fn scan_branch_discipline(o: &BranchObservation) -> (violations: Vec<CheckViolation>)
    ensures
        violations.deep_view() == discipline_findings(*o),
{
    let ghost f = workweave_branch_rule(o.recorded);
    let mut violations: Vec<CheckViolation> = Vec::new();
    let mut i: usize = 0;
    assert(violations.deep_view() =~= o.workweaves@.take(0).flat_map(f));
    while i < o.workweaves.len()
        invariant
            0 <= i <= o.workweaves.len(),
            f == workweave_branch_rule(o.recorded),
            violations.deep_view() == o.workweaves@.take(i as int).flat_map(f),
        decreases o.workweaves.len() - i,
    {
        scan_workweave_repo_branches(&o.recorded, &o.workweaves[i], &mut violations);
        proof {
            o.workweaves@.lemma_flat_map_take_append(f, i as int);
        }
        i = i + 1;
    }
    assert(o.workweaves@.take(i as int) =~= o.workweaves@);
    let live: Vec<String> = live_minted_ref_names(&o.workweave_dirs, &o.indexes);
    scan_canonical_stores(&o.recorded, &live, &o.stores, &mut violations);
    violations
}

/// Whether a branch of a store was left behind and is carried by the store's
/// tip: a receipt of `project` is held for it there, no workweave on disk
/// stands on it, and no worktree of the store holds it.
pub open spec fn deletable(
    o: BranchObservation,
    store: Seq<char>,
    branch: Seq<char>,
    project: Seq<char>,
) -> bool {
    exists|i: int, k: int|
        0 <= i < o.stores@.len() && 0 <= k < store_refs(o.recorded, store).len() && deletable_at(
            #[trigger] o.stores@[i],
            #[trigger] store_refs(o.recorded, store)[k],
            store,
            branch,
            project,
        )
}

/// Whether a store and a receipt show a branch to be deletable.
pub open spec fn deletable_at(
    s: StoreReading,
    r: RecordedRefView,
    store: Seq<char>,
    branch: Seq<char>,
    project: Seq<char>,
) -> bool {
    &&& s.store.path@ == store
    &&& !(s.head is Unreadable)
    &&& s.held matches Some(held) && left_behind(held.deep_view(), r)
    &&& r.name == branch
    &&& r.project == project
    &&& r.merged
}

/// No workweave's checkout raises a branch that is safe to delete.
proof fn checkouts_offer_no_deletion(
    recorded: RecordedRefs,
    w: WorkweaveReading,
    v: CheckViolationView,
)
    requires
        workweave_branch_findings(recorded, w).contains(v),
    ensures
        v matches CheckViolationView::BranchDiscipline { sub_kind, .. } && !(sub_kind
            is StaleEphemeralBranchSafe),
{
    let f = checkout_branch_rule(recorded, minted(w.project->0@, w.name@));
    let all = w.checkouts@.flat_map(f);
    let k = choose|k: int| 0 <= k < all.len() && all[k] == v;
    let i = flat_map_member(w.checkouts@, f, k);
    assert(f(w.checkouts@[i]).contains(v));
}

/// A branch is offered for deletion exactly where it was left behind and the
/// store's tip carries it.
pub proof fn safe_findings_are_the_deletable_branches(
    o: BranchObservation,
    store: Seq<char>,
    branch: Seq<char>,
    project: Seq<char>,
)
    ensures
        discipline_findings(o).contains(
            branch_finding(
                store,
                BranchDisciplineKindView::StaleEphemeralBranchSafe { branch, project },
            ),
        ) <==> deletable(o, store, branch, project),
{
    let safe = branch_finding(
        store,
        BranchDisciplineKindView::StaleEphemeralBranchSafe { branch, project },
    );
    let wf = workweave_branch_rule(o.recorded);
    let live = live_branches(o.workweave_dirs@, o.indexes@);
    let sf = store_rule(o.recorded, live);
    let first = o.workweaves@.flat_map(wf);
    let second = o.stores@.flat_map(sf);
    let refs = store_refs(o.recorded, store);
    assert(discipline_findings(o) == first + second);
    if discipline_findings(o).contains(safe) {
        let k = choose|k: int|
            0 <= k < discipline_findings(o).len() && discipline_findings(o)[k] == safe;
        if k < first.len() {
            assert(first[k] == safe);
            let i = flat_map_member(o.workweaves@, wf, k);
            checkouts_offer_no_deletion(o.recorded, o.workweaves@[i], safe);
        } else {
            assert(second[k - first.len()] == safe);
            let i = flat_map_member(o.stores@, sf, k - first.len());
            let s = o.stores@[i];
            assert(store_findings(store_refs(o.recorded, s.store.path@), live, s).contains(safe));
            let n = safe_finding_has_a_receipt(
                store_refs(o.recorded, s.store.path@),
                live,
                s,
                store,
                branch,
                project,
            );
            assert(deletable_at(o.stores@[i], refs[n], store, branch, project));
        }
    }
    if deletable(o, store, branch, project) {
        let (i, k) = choose|i: int, k: int|
            0 <= i < o.stores@.len() && 0 <= k < store_refs(o.recorded, store).len()
                && deletable_at(
                #[trigger] o.stores@[i],
                #[trigger] store_refs(o.recorded, store)[k],
                store,
                branch,
                project,
            );
        let s = o.stores@[i];
        let held = s.held->0.deep_view();
        let lf = leak_rule(s.store.path@, held);
        assert(lf(refs[k])[0] == safe);
        assert(lf(refs[k]).contains(safe));
        flat_map_holds(refs, lf, k, safe);
        let leaks = refs.flat_map(lf);
        let n = choose|n: int| 0 <= n < leaks.len() && leaks[n] == safe;
        let head = match store_head_kind(refs, s) {
            Some(kind) => seq![branch_finding(s.store.path@, kind)],
            None => Seq::empty(),
        };
        let all = store_findings(refs, live, s);
        assert(store_leak_findings(refs, live, s)[n] == safe);
        assert(all == head + store_leak_findings(refs, live, s));
        assert(all[head.len() + n] == safe);
        assert(sf(o.stores@[i]).contains(safe));
        flat_map_holds(o.stores@, sf, i, safe);
        let m = choose|m: int| 0 <= m < second.len() && second[m] == safe;
        assert(discipline_findings(o)[first.len() + m] == safe);
    }
}

/// The receipt behind a branch that a store offers for deletion.
proof fn safe_finding_has_a_receipt(
    refs: Seq<RecordedRefView>,
    live: Seq<Seq<char>>,
    s: StoreReading,
    store: Seq<char>,
    branch: Seq<char>,
    project: Seq<char>,
) -> (n: int)
    requires
        store_findings(refs, live, s).contains(
            branch_finding(
                store,
                BranchDisciplineKindView::StaleEphemeralBranchSafe { branch, project },
            ),
        ),
    ensures
        0 <= n < refs.len(),
        deletable_at(s, refs[n], store, branch, project),
{
    let safe = branch_finding(
        store,
        BranchDisciplineKindView::StaleEphemeralBranchSafe { branch, project },
    );
    let all = store_findings(refs, live, s);
    let k = choose|k: int| 0 <= k < all.len() && all[k] == safe;
    let head = match store_head_kind(refs, s) {
        Some(kind) => seq![branch_finding(s.store.path@, kind)],
        None => Seq::empty(),
    };
    let leaks = store_leak_findings(refs, live, s);
    assert(all == head + leaks);
    assert(leaks[k - head.len()] == safe);
    let held = s.held->0;
    let f = leak_rule(s.store.path@, held.deep_view());
    let first = refs.flat_map(f);
    if k - head.len() < first.len() {
        assert(first[k - head.len()] == safe);
        let i = flat_map_member(refs, f, k - head.len());
        assert(f(refs[i]).contains(safe));
        i
    } else {
        let names = s.branches->0;
        let g = unowned_rule(s.store.path@, refs, held.deep_view(), live);
        let second = names.deep_view().flat_map(g);
        assert(leaks == first + second);
        assert(second[k - head.len() - first.len()] == safe);
        let i = flat_map_member(names.deep_view(), g, k - head.len() - first.len());
        assert(g(names.deep_view()[i]).contains(safe));
        0
    }
}

/// A branch is offered for deletion only against a receipt: some project holds
/// one for it in that very store, no workweave on disk and no worktree stands
/// on it, and its commits are all carried by the store's tip.
pub proof fn only_receipted_merged_branches_are_safe(
    refs: Seq<RecordedRefView>,
    live: Seq<Seq<char>>,
    s: StoreReading,
    branch: Seq<char>,
    project: Seq<char>,
)
    requires
        store_findings(refs, live, s).contains(
            branch_finding(
                s.store.path@,
                BranchDisciplineKindView::StaleEphemeralBranchSafe { branch, project },
            ),
        ),
    ensures
        exists|i: int|
            0 <= i < refs.len() && (#[trigger] refs[i]).name == branch && refs[i].project == project
                && refs[i].merged && refs[i].live is None && refs[i].tip is At,
{
    let n = safe_finding_has_a_receipt(refs, live, s, s.store.path@, branch, project);
    assert(refs[n].name == branch);
}

/// The branches that stand in the way of a workweave's own are those below its
/// name, and its own is there where it was listed.
pub proof fn namespaces_are_read(flat: Seq<char>, observed: Option<Vec<String>>, name: Seq<char>)
    ensures
        legacy_refs(flat, observed).contains(name) <==> claimed_under(flat, name) && (
        observed matches Some(names) && exists|i: int|
            0 <= i < names@.len() && (#[trigger] names@[i])@ == name),
        flat_present(flat, observed) <==> (observed matches Some(names) && exists|i: int|
            0 <= i < names@.len() && (#[trigger] names@[i])@ == flat),
{
    if let Some(names) = observed {
        let listed = names.deep_view();
        filtered_contains(listed, in_the_way(flat), name);
        minted_branch_is_not_nested(flat);
        assert forall|i: int| 0 <= i < listed.len() implies #[trigger] listed[i] == names@[i]@ by {}
        if listed.contains(name) {
            let i = choose|i: int| 0 <= i < listed.len() && listed[i] == name;
            assert(names@[i]@ == name);
        }
        if listed.contains(flat) {
            let i = choose|i: int| 0 <= i < listed.len() && listed[i] == flat;
            assert(names@[i]@ == flat);
        }
        assert forall|i: int| 0 <= i < names@.len() implies listed.contains(
            (#[trigger] names@[i])@,
        ) by {
            assert(listed[i] == names@[i]@);
        }
    }
}

/// What a checkout's HEAD raises follows from where it stands: nothing on the
/// workweave's own branch; a branch below that name is one to migrate, or
/// blocked where there are several; a receipted branch is a foreign workweave's,
/// and any other is shared. Each finding says what was found and what belongs
/// there.
pub proof fn attached_checkouts_are_told(
    refs: Seq<RecordedRefView>,
    flat: Seq<char>,
    c: CheckoutReading,
    on: Seq<char>,
)
    requires
        c.head matches HeadReading::Attached { branch } && branch@ == on,
    ensures
        head_kind(refs, flat, c) is None <==> on == flat,
        head_kind(refs, flat, c) matches Some(kind) ==> {
            &&& kind is UnmigratedEphemeralBranch <==> claimed_under(flat, on) && legacy_refs(
                flat,
                c.namespace,
            ).len() <= 1
            &&& kind is BlockedEphemeralNamespace <==> claimed_under(flat, on) && legacy_refs(
                flat,
                c.namespace,
            ).len() > 1
            &&& kind is ForeignEphemeral <==> !claimed_under(flat, on) && exists|i: int|
                0 <= i < refs.len() && (#[trigger] refs[i]).name == on
            &&& kind is SharedBranch <==> !claimed_under(flat, on) && forall|i: int|
                0 <= i < refs.len() ==> (#[trigger] refs[i]).name != on
            &&& kind matches BranchDisciplineKindView::UnmigratedEphemeralBranch {
                actual_branch,
                expected_ref,
            } ==> actual_branch == on && expected_ref == flat
            &&& kind matches BranchDisciplineKindView::BlockedEphemeralNamespace {
                expected_ref,
                blocking_refs,
            } ==> expected_ref == flat && blocking_refs == legacy_refs(flat, c.namespace)
            &&& kind matches BranchDisciplineKindView::ForeignEphemeral {
                actual_branch,
                expected_ref,
                recorded_ref,
            } ==> actual_branch == on && expected_ref == flat && recorded_ref == (if exists|
                i: int,
            |
                0 <= i < refs.len() && (#[trigger] refs[i]).name == flat {
                Some(flat)
            } else {
                None
            })
            &&& kind matches BranchDisciplineKindView::SharedBranch {
                actual_branch,
                expected_ref,
                recorded_ref,
            } ==> actual_branch == on && expected_ref == flat && recorded_ref == (if exists|
                i: int,
            |
                0 <= i < refs.len() && (#[trigger] refs[i]).name == flat {
                Some(flat)
            } else {
                None
            })
        },
{
    named_receipt_is_held(refs, on);
    named_receipt_is_held(refs, flat);
    reveal_strlit("/");
}

/// A detached checkout is told with the revision it is at and the branch that
/// belongs there; several branches in the way block it, and a single one is
/// told with its tip and whether detaching from it strands commits.
pub proof fn detached_checkouts_are_told(
    refs: Seq<RecordedRefView>,
    flat: Seq<char>,
    c: CheckoutReading,
    at: RevisionId,
)
    requires
        c.head == (HeadReading::Detached { at }),
    ensures
        head_kind(refs, flat, c) matches Some(kind) && {
            &&& kind is BlockedDetachedNamespace <==> legacy_refs(flat, c.namespace).len() > 1
            &&& kind is Detached <==> legacy_refs(flat, c.namespace).len() <= 1
            &&& kind matches BranchDisciplineKindView::BlockedDetachedNamespace {
                expected_ref,
                at_sha,
                blocking_refs,
            } ==> expected_ref == flat && at_sha == at@ && blocking_refs == legacy_refs(
                flat,
                c.namespace,
            )
            &&& kind matches BranchDisciplineKindView::Detached {
                expected_ref,
                recorded_ref,
                at_sha,
                legacy_branch,
            } ==> {
                &&& expected_ref == flat
                &&& at_sha == at@
                &&& recorded_ref is Some <==> exists|i: int|
                    0 <= i < refs.len() && (#[trigger] refs[i]).name == flat
                &&& recorded_ref is Some ==> recorded_ref == Some(flat)
                &&& legacy_branch is Some <==> legacy_refs(flat, c.namespace).len() == 1
                &&& legacy_branch matches Some(l) ==> {
                    &&& l.branch == legacy_refs(flat, c.namespace)[0]
                    &&& c.legacy_tip.deep_view() matches TipView::At { revision } ==> l.tip_sha
                        == revision
                    &&& !l.strands_commits <==> c.legacy_tip.deep_view() is Absent || (
                    c.legacy_tip.deep_view() is At && c.legacy_carried == Some(true))
                }
            }
        },
{
    named_receipt_is_held(refs, flat);
}

/// A branch without commits is told by name, and a HEAD that cannot be read is
/// told by another scan.
pub proof fn unborn_checkouts_are_told(
    refs: Seq<RecordedRefView>,
    flat: Seq<char>,
    c: CheckoutReading,
)
    ensures
        c.head is Unreadable ==> head_kind(refs, flat, c) is None,
        c.head matches HeadReading::Unborn { branch } ==> head_kind(refs, flat, c) == Some(
            BranchDisciplineKindView::UnbornCheckout { branch: branch@ },
        ),
{
}

/// A workweave's branch without a receipt is told where it is there, and what
/// HEAD raises stands beside it; both name the checkout.
pub proof fn checkouts_are_told_in_place(
    refs: Seq<RecordedRefView>,
    flat: Seq<char>,
    c: CheckoutReading,
    v: CheckViolationView,
)
    ensures
        checkout_branch_findings(refs, flat, c).contains(v) <==> {
            ||| flat_present(flat, c.namespace) && (forall|i: int|
                0 <= i < refs.len() ==> (#[trigger] refs[i]).name != flat) && v == (
            CheckViolationView::BranchDiscipline {
                repo_path: c.path@,
                sub_kind: BranchDisciplineKindView::UnrecordedEphemeralBranch { branch: flat },
            })
            ||| head_kind(refs, flat, c) matches Some(sub_kind) && v == (
            CheckViolationView::BranchDiscipline { repo_path: c.path@, sub_kind })
        },
{
    named_receipt_is_held(refs, flat);
    let a = if flat_present(flat, c.namespace) && first_named(refs, flat) is None {
        seq![
            branch_finding(
                c.path@,
                BranchDisciplineKindView::UnrecordedEphemeralBranch { branch: flat },
            ),
        ]
    } else {
        Seq::empty()
    };
    let b = match head_kind(refs, flat, c) {
        Some(kind) => seq![branch_finding(c.path@, kind)],
        None => Seq::empty(),
    };
    joined_lists_contain(a, b, v);
    if a.len() > 0 {
        single_contains(a[0], v);
        assert(a =~= seq![a[0]]);
    }
    if b.len() > 0 {
        single_contains(b[0], v);
        assert(b =~= seq![b[0]]);
    }
}

/// A workweave is held to the branch minted for its project and its name, with
/// the receipts of each checkout's store; one that cannot carry a branch, or
/// has no project, is not looked at.
pub proof fn workweaves_are_held_to_their_branch(
    recorded: RecordedRefs,
    w: WorkweaveReading,
    v: CheckViolationView,
)
    ensures
        workweave_branch_findings(recorded, w).contains(v) <==> w.usable && (
        w.project matches Some(project) && exists|i: int|
            #![trigger w.checkouts@[i]]
            0 <= i < w.checkouts@.len() && checkout_branch_findings(
                store_refs(recorded, w.checkouts@[i].store@),
                minted(project@, w.name@),
                w.checkouts@[i],
            ).contains(v)),
{
    if let Some(project) = w.project {
        let f = checkout_branch_rule(recorded, minted(project@, w.name@));
        flat_map_contains(w.checkouts@, f, v);
        if w.checkouts@.flat_map(f).contains(v) {
            let i = choose|i: int|
                0 <= i < w.checkouts@.len() && (#[trigger] f(w.checkouts@[i])).contains(v);
            assert(w.checkouts@[i] == w.checkouts@[i]);
        }
        assert forall|i: int|
            #![trigger w.checkouts@[i]]
            0 <= i < w.checkouts@.len() && checkout_branch_findings(
                store_refs(recorded, w.checkouts@[i].store@),
                minted(project@, w.name@),
                w.checkouts@[i],
            ).contains(v) implies w.checkouts@.flat_map(f).contains(v) by {
            assert(f(w.checkouts@[i]).contains(v));
        }
    }
}

/// A store's own HEAD is told where it stands on a workweave's branch, whose
/// workweave is named while it lives and whose project is when it is gone, and
/// where it is detached.
pub proof fn canonical_heads_are_told(refs: Seq<RecordedRefView>, s: StoreReading)
    ensures
        s.head is Unborn || s.head is Unreadable ==> store_head_kind(refs, s) is None,
        s.head matches HeadReading::Attached { branch } ==> {
            &&& store_head_kind(refs, s) is None <==> forall|i: int|
                0 <= i < refs.len() ==> (#[trigger] refs[i]).name != branch@
            &&& store_head_kind(refs, s) matches Some(kind) ==> {
                ||| kind matches BranchDisciplineKindView::CanonicalHoldsLiveWorkweaveRef {
                    actual_branch,
                    workweave_name,
                } && actual_branch == branch@ && exists|i: int|
                    0 <= i < refs.len() && (#[trigger] refs[i]).name == branch@ && refs[i].live
                        == Some(workweave_name)
                ||| kind matches BranchDisciplineKindView::CanonicalHoldsLeakedRef {
                    actual_branch,
                    project,
                } && actual_branch == branch@ && exists|i: int|
                    0 <= i < refs.len() && (#[trigger] refs[i]).name == branch@ && refs[i].live
                        is None && refs[i].project == project
            }
        },
        s.head matches HeadReading::Detached { at } ==> (store_head_kind(refs, s) matches Some(kind)
            && (kind matches BranchDisciplineKindView::CanonicalDetached {
            at_sha,
            counterpart: expected,
            reattachable,
        } && at_sha == at@ && expected == counterpart(s.store.tracking, s.remote_default) && (
        reattachable <==> expected is Some && s.counterpart_tip.deep_view() == (TipView::At {
            revision: at@,
        })))),
{
    if let HeadReading::Attached { branch } = s.head {
        named_receipt_is_held(refs, branch@);
        if let Some(r) = first_named(refs, branch@) {
            let i = choose|i: int| 0 <= i < refs.len() && refs[i] == r;
            assert(refs[i].name == branch@);
        }
    }
}

/// The branch a store is expected on is the declared one, or else the remote's
/// default; where neither can be told there is none.
pub proof fn counterparts_follow_the_declaration(
    tracking: TrackingSource,
    remote_default: Option<String>,
)
    ensures
        tracking matches TrackingSource::Declared { local } ==> counterpart(
            tracking,
            remote_default,
        ) == Some(local@),
        tracking is RemoteDefault ==> counterpart(tracking, remote_default)
            == remote_default.deep_view(),
        tracking is Unresolvable ==> counterpart(tracking, remote_default) is None,
{
}

/// A receipted branch is left behind where its workweave is gone, no live
/// worktree stands on it, and it is there under the flat form of its name. It
/// is safe to delete exactly where its store carries it.
pub proof fn branches_left_behind_are_told(
    path: Seq<char>,
    held: Seq<Seq<char>>,
    r: RecordedRefView,
    v: CheckViolationView,
)
    ensures
        leak_rule(path, held)(r).contains(v) <==> r.live is None && !held.contains(r.name) && (
        r.tip matches TipView::At { revision } && !r.name.contains('/') && v == (
        CheckViolationView::BranchDiscipline {
            repo_path: path,
            sub_kind: if r.merged {
                BranchDisciplineKindView::StaleEphemeralBranchSafe {
                    branch: r.name,
                    project: r.project,
                }
            } else {
                BranchDisciplineKindView::StaleEphemeralBranchLive {
                    branch: r.name,
                    project: r.project,
                    tip_sha: revision,
                }
            },
        })),
{
    let all = leak_rule(path, held)(r);
    if all.len() > 0 {
        single_contains(all[0], v);
        assert(all =~= seq![all[0]]);
    }
}

/// A branch that looks like a workweave's and has no receipt is told where no
/// live worktree stands on it and no live workweave's name covers it.
pub proof fn unowned_branches_are_told(
    path: Seq<char>,
    refs: Seq<RecordedRefView>,
    held: Seq<Seq<char>>,
    live: Seq<Seq<char>>,
    name: Seq<char>,
    v: CheckViolationView,
)
    ensures
        unowned_rule(path, refs, held, live)(name).contains(v) <==> looks_pre_flat(name) && (forall|
            i: int,
        |
            0 <= i < refs.len() ==> (#[trigger] refs[i]).name != name) && !held.contains(name) && (
        forall|i: int| 0 <= i < live.len() ==> !claimed_under(#[trigger] live[i], name)) && v == (
        CheckViolationView::BranchDiscipline {
            repo_path: path,
            sub_kind: BranchDisciplineKindView::StaleEphemeralBranchUnowned { branch: name },
        }),
{
    named_receipt_is_held(refs, name);
    let all = unowned_rule(path, refs, held, live)(name);
    if all.len() > 0 {
        single_contains(all[0], v);
        assert(all =~= seq![all[0]]);
    }
}

/// A store is looked at for its HEAD and for what was left behind in it, unless
/// its HEAD cannot be read; branches are listed only where its worktrees are.
pub proof fn stores_are_told(
    refs: Seq<RecordedRefView>,
    live: Seq<Seq<char>>,
    s: StoreReading,
    v: CheckViolationView,
)
    ensures
        store_findings(refs, live, s).contains(v) <==> !(s.head is Unreadable) && {
            ||| store_head_kind(refs, s) matches Some(sub_kind) && v == (
            CheckViolationView::BranchDiscipline { repo_path: s.store.path@, sub_kind })
            ||| s.held matches Some(held) && exists|i: int|
                0 <= i < refs.len() && leak_rule(s.store.path@, held.deep_view())(
                    #[trigger] refs[i],
                ).contains(v)
            ||| s.held matches Some(held) && (s.branches matches Some(names) && exists|i: int|
                0 <= i < names@.len() && unowned_rule(
                    s.store.path@,
                    refs,
                    held.deep_view(),
                    live,
                )((#[trigger] names@[i])@).contains(v))
        },
{
    let a = match store_head_kind(refs, s) {
        Some(kind) => seq![branch_finding(s.store.path@, kind)],
        None => Seq::empty(),
    };
    let b = store_leak_findings(refs, live, s);
    joined_lists_contain(a, b, v);
    if a.len() > 0 {
        single_contains(a[0], v);
        assert(a =~= seq![a[0]]);
    }
    if let Some(held) = s.held {
        let f = leak_rule(s.store.path@, held.deep_view());
        let c = refs.flat_map(f);
        flat_map_contains(refs, f, v);
        if c.contains(v) {
            let i = choose|i: int| 0 <= i < refs.len() && (#[trigger] f(refs[i])).contains(v);
            assert(f(refs[i]).contains(v));
        }
        assert forall|i: int|
            0 <= i < refs.len() && f(#[trigger] refs[i]).contains(v) implies c.contains(v) by {
            assert(f(refs[i]).contains(v));
        }
        match s.branches {
            Some(names) => {
                let listed = names.deep_view();
                let g = unowned_rule(s.store.path@, refs, held.deep_view(), live);
                let d = listed.flat_map(g);
                joined_lists_contain(c, d, v);
                flat_map_contains(listed, g, v);
                assert forall|i: int| 0 <= i < listed.len() implies #[trigger] listed[i]
                    == names@[i]@ by {}
                if d.contains(v) {
                    let i = choose|i: int|
                        0 <= i < listed.len() && (#[trigger] g(listed[i])).contains(v);
                    assert(g(names@[i]@).contains(v));
                }
                assert forall|i: int|
                    0 <= i < names@.len() && g((#[trigger] names@[i])@).contains(
                        v,
                    ) implies d.contains(v) by {
                    assert(g(listed[i]).contains(v));
                }
            },
            None => {
                assert(b =~= c);
            },
        }
    }
}

proof fn separator_is_within(s: Seq<char>, k: int)
    requires
        0 <= k,
        k + 1 < s.len(),
        s[k] == '-',
        s[k + 1] == '-',
    ensures
        0 <= separator_at(s) <= k,
        s[0] != '-' ==> separator_at(s) > 0,
    decreases s.len(),
{
    if !(s[0] == '-' && s[1] == '-') {
        let rest = s.drop_first();
        assert(rest[k - 1] == '-' && rest[k] == '-');
        separator_is_within(rest, k - 1);
    }
}

/// A name has the retired nested form where a project and a workweave, with the
/// double dash between them, are followed by a slash and something more.
pub proof fn nested_names_look_retired(project: Seq<char>, workweave: Seq<char>, rest: Seq<char>)
    requires
        project.len() > 0,
        project[0] != '-',
        workweave.len() > 0,
        !project.contains('/'),
        !workweave.contains('/'),
    ensures
        looks_pre_flat(minted(project, workweave) + "/"@ + rest) <==> rest.len() > 0,
        !looks_pre_flat(minted(project, workweave)),
{
    reveal_strlit("--");
    reveal_strlit("/");
    let lhs = minted(project, workweave);
    let name = lhs + "/"@ + rest;
    let k = lhs.len() as int;
    assert forall|i: int| 0 <= i < k implies lhs[i] != '/' && name[i] != '/' by {
        if i < project.len() {
            assert(lhs[i] == project[i]);
        } else if i >= project.len() + 2 {
            assert(lhs[i] == workweave[i - project.len() - 2]);
        }
        assert(name[i] == lhs[i]);
    }
    assert(name[k] == '/');
    slash_is_first(name, k);
    slash_is_first(lhs, k);
    assert(name.take(k) =~= lhs);
    assert(lhs[project.len() as int] == '-' && lhs[project.len() as int + 1] == '-');
    assert(lhs[0] == project[0]);
    separator_is_within(lhs, project.len() as int);
}

/// The version of a repo is followed where every project that lists it declares
/// the same; where two differ, or none lists it, none is.
pub proof fn agreed_versions_are_followed(
    projects: Seq<Project>,
    locals: Seq<(String, String)>,
    repo: Seq<char>,
    version: Seq<char>,
)
    ensures
        declared_versions(projects, repo).contains(version) <==> exists|i: int, k: int|
            #![trigger projects[i].manifest.repositories@[k]]
            0 <= i < projects.len() && 0 <= k < projects[i].manifest.repositories@.len()
                && projects[i].manifest.repositories@[k].0@ == repo
                && projects[i].manifest.repositories@[k].1.version@ == version,
        declared_versions(projects, repo) == seq![version] ==> tracking_of(projects, locals, repo)
            == value_of(locals, version).deep_view(),
        tracking_of(projects, locals, repo) is Some ==> declared_versions(projects, repo).len()
            == 1,
{
    let f = project_versions(repo);
    let all = projects.flat_map(f);
    crate::order::distinct_keeps_each_once(all);
    flat_map_contains(projects, f, version);
    if all.contains(version) {
        let i = choose|i: int|
            0 <= i < projects.len() && (#[trigger] f(projects[i])).contains(version);
        let g = version_for(repo);
        let list = projects[i].manifest.repositories@;
        flat_map_contains(list, g, version);
        let k = choose|k: int| 0 <= k < list.len() && (#[trigger] g(list[k])).contains(version);
        assert(projects[i].manifest.repositories@[k].0@ == repo);
    }
    assert forall|i: int, k: int|
        #![trigger projects[i].manifest.repositories@[k]]
        0 <= i < projects.len() && 0 <= k < projects[i].manifest.repositories@.len()
            && projects[i].manifest.repositories@[k].0@ == repo
            && projects[i].manifest.repositories@[k].1.version@ == version implies all.contains(
        version,
    ) by {
        let g = version_for(repo);
        let list = projects[i].manifest.repositories@;
        assert(g(list[k])[0] == version);
        flat_map_holds(list, g, k, version);
        flat_map_holds(projects, f, i, version);
    }
}

/// The scan covers every workweave and every store.
pub proof fn branch_scan_covers_everything(o: BranchObservation, v: CheckViolationView)
    ensures
        discipline_findings(o).contains(v) <==> {
            ||| exists|i: int|
                0 <= i < o.workweaves@.len() && workweave_branch_findings(
                    o.recorded,
                    #[trigger] o.workweaves@[i],
                ).contains(v)
            ||| exists|i: int|
                #![trigger o.stores@[i]]
                0 <= i < o.stores@.len() && store_findings(
                    store_refs(o.recorded, o.stores@[i].store.path@),
                    live_branches(o.workweave_dirs@, o.indexes@),
                    o.stores@[i],
                ).contains(v)
        },
{
    let f = workweave_branch_rule(o.recorded);
    let g = store_rule(o.recorded, live_branches(o.workweave_dirs@, o.indexes@));
    let a = o.workweaves@.flat_map(f);
    let b = o.stores@.flat_map(g);
    joined_lists_contain(a, b, v);
    flat_map_contains(o.workweaves@, f, v);
    flat_map_contains(o.stores@, g, v);
    if a.contains(v) {
        let i = choose|i: int|
            0 <= i < o.workweaves@.len() && (#[trigger] f(o.workweaves@[i])).contains(v);
        assert(workweave_branch_findings(o.recorded, o.workweaves@[i]).contains(v));
    }
    if b.contains(v) {
        let i = choose|i: int| 0 <= i < o.stores@.len() && (#[trigger] g(o.stores@[i])).contains(v);
        assert(o.stores@[i] == o.stores@[i]);
    }
    assert forall|i: int|
        0 <= i < o.workweaves@.len() && workweave_branch_findings(
            o.recorded,
            #[trigger] o.workweaves@[i],
        ).contains(v) implies a.contains(v) by {
        assert(f(o.workweaves@[i]).contains(v));
    }
    assert forall|i: int|
        #![trigger o.stores@[i]]
        0 <= i < o.stores@.len() && store_findings(
            store_refs(o.recorded, o.stores@[i].store.path@),
            live_branches(o.workweave_dirs@, o.indexes@),
            o.stores@[i],
        ).contains(v) implies b.contains(v) by {
        assert(g(o.stores@[i]).contains(v));
    }
}

/// The checkouts of a workweave are the directories of its own among the
/// candidates; an alias of a reference clone is not one.
pub proof fn own_directories_are_checkouts(c: CheckoutCandidate)
    ensures
        is_checkout(c) ==> c.is_dir,
        c.is_alias ==> !is_checkout(c),
        c.is_dir && !c.is_alias ==> is_checkout(c),
{
}

/// A clone on disk is kept in the workspace under its repo's path, and followed
/// where the projects that list it agree.
pub proof fn clones_are_stored_by_path(
    store: CanonicalStore,
    root: Seq<char>,
    projects: Seq<Project>,
    locals: Seq<(String, String)>,
    repo: Seq<char>,
)
    requires
        store_of_repo(store, root, projects, locals, repo),
    ensures
        store.path@ == joined(root, repo),
        counterpart(store.tracking, None) == tracking_of(projects, locals, repo),
        !(store.tracking is RemoteDefault),
{
}

} // verus!
