//! The text report: which findings are listed one by one, which are counted,
//! and the issue each becomes.

use vstd::prelude::*;
use crate::kinds::repaired_unasked;
use crate::lists::flat_map_holds;
use crate::issue::{core_issue, Issue, IssueView, Severity};
use crate::text::{decimal, decimal_text, tells, telling};
use crate::violation::{
    BranchDisciplineKind, CheckViolation, OrphanedSavepointKind, ProvenanceKind,
    WorkweaveTreeIntegrityKind,
};
use crate::violation_view::{
    BranchDisciplineKindView, CheckViolationView, ProvenanceKindView,
    WorkweaveTreeIntegrityKindView,
};
use crate::wording::{finding_message, finding_text};

verus! {

/// A class of findings the text report shows as one count line.
///
/// These are the classes that reclaim dead state, and the backlogs nothing
/// adds to any more. Every other finding is a fact of its own and is listed.
#[derive(Debug, Clone, Copy, PartialEq, Eq, Structural)]
pub enum CollapsedClass {
    StaleRegistryEntry,
    StaleWorktreeRegistration,
    StaleEphemeralBranchSafe,
    StaleEphemeralBranchLive,
    StaleEphemeralBranchUnowned,
    DeadOpLease,
    DanglingRefReceipt,
    RedundantSavepoint,
    LiveSavepoint,
    SharedBranch,
}

/// The class a finding is counted under, or `None` for one that is listed.
pub open spec fn class_of(v: CheckViolationView) -> Option<CollapsedClass> {
    match v {
        CheckViolationView::WorkweaveTreeIntegrity {
            sub_kind: WorkweaveTreeIntegrityKindView::StaleRegistryEntry { .. },
            ..
        } => Some(CollapsedClass::StaleRegistryEntry),
        CheckViolationView::StaleWorktreeRegistration { .. } => {
            Some(CollapsedClass::StaleWorktreeRegistration)
        },
        CheckViolationView::BranchDiscipline { sub_kind, .. } => match sub_kind {
            BranchDisciplineKindView::StaleEphemeralBranchSafe { .. } => {
                Some(CollapsedClass::StaleEphemeralBranchSafe)
            },
            BranchDisciplineKindView::StaleEphemeralBranchLive { .. } => {
                Some(CollapsedClass::StaleEphemeralBranchLive)
            },
            BranchDisciplineKindView::StaleEphemeralBranchUnowned { .. } => {
                Some(CollapsedClass::StaleEphemeralBranchUnowned)
            },
            BranchDisciplineKindView::SharedBranch { .. } => Some(CollapsedClass::SharedBranch),
            _ => None,
        },
        CheckViolationView::DeadOpLease { .. } => Some(CollapsedClass::DeadOpLease),
        CheckViolationView::DanglingRefReceipt { .. } => Some(CollapsedClass::DanglingRefReceipt),
        CheckViolationView::OrphanedSavepoint { sub_kind, .. } => match sub_kind {
            OrphanedSavepointKind::Redundant => Some(CollapsedClass::RedundantSavepoint),
            OrphanedSavepointKind::Live => Some(CollapsedClass::LiveSavepoint),
        },
        _ => None,
    }
}

/// Whether `--fix` repairs every member of a class.
pub open spec fn class_auto_fixed(class: CollapsedClass) -> bool {
    class is StaleRegistryEntry || class is StaleWorktreeRegistration
        || class is StaleEphemeralBranchSafe || class is DeadOpLease || class is DanglingRefReceipt
        || class is RedundantSavepoint
}

/// The classes in the order the report counts them.
pub open spec fn class_order() -> Seq<CollapsedClass> {
    seq![
        CollapsedClass::StaleRegistryEntry,
        CollapsedClass::StaleWorktreeRegistration,
        CollapsedClass::StaleEphemeralBranchSafe,
        CollapsedClass::StaleEphemeralBranchLive,
        CollapsedClass::StaleEphemeralBranchUnowned,
        CollapsedClass::DeadOpLease,
        CollapsedClass::DanglingRefReceipt,
        CollapsedClass::RedundantSavepoint,
        CollapsedClass::LiveSavepoint,
        CollapsedClass::SharedBranch,
    ]
}

/// `suffix` behind a noun that is counted `n` times.
pub open spec fn plural(n: nat, suffix: Seq<char>) -> Seq<char> {
    if n == 1 {
        ""@
    } else {
        suffix
    }
}

/// The ending of a verb whose subject is counted `n` times.
pub open spec fn third_person(n: nat) -> Seq<char> {
    if n == 1 {
        "s"@
    } else {
        ""@
    }
}

/// What a class of `n` findings says: the count, the class and the remedy.
pub open spec fn class_body(class: CollapsedClass, n: nat) -> Seq<char> {
    match class {
        CollapsedClass::StaleRegistryEntry => {
            decimal_text(n)
            + " stale-registry-entry finding"@
            + plural(n, "s"@)
            + " — registered workweave path"@
            + plural(n, "s"@)
            + " that no longer round-trip"@
            + third_person(n)
            + "; `rwv doctor --fix` prunes them"@
        },
        CollapsedClass::StaleWorktreeRegistration => {
            decimal_text(n)
            + " stale-worktree-registration finding"@
            + plural(n, "s"@)
            + " — worktree registration"@
            + plural(n, "s"@)
            + " pointing at missing directories; `rwv doctor --fix` prunes them"@
        },
        CollapsedClass::StaleEphemeralBranchSafe => {
            decimal_text(n)
            + " stale-ephemeral-branch-safe finding"@
            + plural(n, "s"@)
            + " — receipted branch"@
            + plural(n, "es"@)
            + " of deleted workweaves carrying no unique commits; `rwv doctor --fix` deletes \
               them under warrant"@
        },
        CollapsedClass::StaleEphemeralBranchLive => {
            decimal_text(n)
            + " stale-ephemeral-branch-live finding"@
            + plural(n, "s"@)
            + " — receipted branch"@
            + plural(n, "es"@)
            + " of deleted workweaves carrying unique commits; never auto-deleted, review \
               and reclaim by hand"@
        },
        CollapsedClass::StaleEphemeralBranchUnowned => {
            decimal_text(n)
            + " stale-ephemeral-branch-unowned finding"@
            + plural(n, "s"@)
            + " — branch"@
            + plural(n, "es"@)
            + " with no ownership receipt; not rwv's to delete"@
        },
        CollapsedClass::DeadOpLease => {
            decimal_text(n)
            + " dead-op-lease finding"@
            + plural(n, "s"@)
            + " — lease file"@
            + plural(n, "s"@)
            + " whose recorded owner holds no matching op; `rwv doctor --fix` clears them"@
        },
        CollapsedClass::DanglingRefReceipt => {
            decimal_text(n)
            + " dangling-ref-receipt finding"@
            + plural(n, "s"@)
            + " — receipt"@
            + plural(n, "s"@)
            + " naming refs that are not there (benign crash residue); `rwv doctor --fix` \
               retracts them"@
        },
        CollapsedClass::RedundantSavepoint => {
            decimal_text(n)
            + " redundant orphaned-savepoint finding"@
            + plural(n, "s"@)
            + " — savepoint tip"@
            + plural(n, "s"@)
            + " already anchored by a live branch; `rwv doctor --fix` drops them"@
        },
        CollapsedClass::LiveSavepoint => {
            decimal_text(n)
            + " live orphaned-savepoint finding"@
            + plural(n, "s"@)
            + " — savepoint"@
            + plural(n, "s"@)
            + " holding commits no live ref anchors; report-only, reclaimed by the reviewed \
               operator sweep (report-before-drop)"@
        },
        CollapsedClass::SharedBranch => {
            decimal_text(n)
            + " shared-branch finding"@
            + plural(n, "s"@)
            + " — checkout"@
            + plural(n, "s"@)
            + " standing on a shared (non-ephemeral) branch; the switch target for each is \
               in its record"@
        },
    }
}

/// The count line of a class of `n` findings.
pub open spec fn class_issue(class: CollapsedClass, n: nat) -> IssueView {
    core_issue(
        Severity::Warning,
        class_body(class, n) + "; per-item detail: `rwv doctor --json`"@,
        class_auto_fixed(class),
    )
}

impl CollapsedClass {
    /// The class `v` is counted under, or `None` where it is listed.
    pub fn of(v: &CheckViolation) -> (class: Option<CollapsedClass>)
        ensures
            class == class_of(v.deep_view()),
    {
        match v {
            CheckViolation::WorkweaveTreeIntegrity {
                sub_kind: WorkweaveTreeIntegrityKind::StaleRegistryEntry { .. },
                ..
            } => Some(CollapsedClass::StaleRegistryEntry),
            CheckViolation::StaleWorktreeRegistration { .. } => {
                Some(CollapsedClass::StaleWorktreeRegistration)
            },
            CheckViolation::BranchDiscipline { sub_kind, .. } => match sub_kind {
                BranchDisciplineKind::StaleEphemeralBranchSafe { .. } => {
                    Some(CollapsedClass::StaleEphemeralBranchSafe)
                },
                BranchDisciplineKind::StaleEphemeralBranchLive { .. } => {
                    Some(CollapsedClass::StaleEphemeralBranchLive)
                },
                BranchDisciplineKind::StaleEphemeralBranchUnowned { .. } => {
                    Some(CollapsedClass::StaleEphemeralBranchUnowned)
                },
                BranchDisciplineKind::SharedBranch { .. } => Some(CollapsedClass::SharedBranch),
                _ => None,
            },
            CheckViolation::DeadOpLease { .. } => Some(CollapsedClass::DeadOpLease),
            CheckViolation::DanglingRefReceipt { .. } => Some(CollapsedClass::DanglingRefReceipt),
            CheckViolation::OrphanedSavepoint { sub_kind, .. } => match sub_kind {
                OrphanedSavepointKind::Redundant => Some(CollapsedClass::RedundantSavepoint),
                OrphanedSavepointKind::Live => Some(CollapsedClass::LiveSavepoint),
            },
            _ => None,
        }
    }

    /// Whether `--fix` repairs every member of the class.
    pub fn auto_fixed(self) -> (auto: bool)
        ensures
            auto == class_auto_fixed(self),
    {
        match self {
            CollapsedClass::StaleRegistryEntry
            | CollapsedClass::StaleWorktreeRegistration
            | CollapsedClass::StaleEphemeralBranchSafe
            | CollapsedClass::DeadOpLease
            | CollapsedClass::DanglingRefReceipt
            | CollapsedClass::RedundantSavepoint => true,
            CollapsedClass::StaleEphemeralBranchLive
            | CollapsedClass::StaleEphemeralBranchUnowned
            | CollapsedClass::LiveSavepoint
            | CollapsedClass::SharedBranch => false,
        }
    }

    /// The one line the report shows for `n` findings of the class.
    pub fn issue(self, n: usize) -> (issue: Issue)
        ensures
            issue.deep_view() == class_issue(self, n as nat),
    {
        let message: String = class_words(self, n).concat("; per-item detail: `rwv doctor --json`");
        Issue::from_core(Severity::Warning, message, self.auto_fixed())
    }
}

/// Words what a class of `n` findings says.
fn class_words(class: CollapsedClass, n: usize) -> (text: String)
    ensures
        text@ == class_body(class, n as nat),
{
    let count: String = decimal(n);
    let s: String = if n == 1 { "".to_owned() } else { "s".to_owned() };
    let es: String = if n == 1 { "".to_owned() } else { "es".to_owned() };
    let verb: String = if n == 1 { "s".to_owned() } else { "".to_owned() };
    match class {
        CollapsedClass::StaleRegistryEntry => {
            count.clone()
                .concat(" stale-registry-entry finding")
                .concat(&s)
                .concat(" — registered workweave path")
                .concat(&s)
                .concat(" that no longer round-trip")
                .concat(&verb)
                .concat("; `rwv doctor --fix` prunes them")
        },
        CollapsedClass::StaleWorktreeRegistration => {
            count.clone()
                .concat(" stale-worktree-registration finding")
                .concat(&s)
                .concat(" — worktree registration")
                .concat(&s)
                .concat(" pointing at missing directories; `rwv doctor --fix` prunes them")
        },
        CollapsedClass::StaleEphemeralBranchSafe => {
            count.clone()
                .concat(" stale-ephemeral-branch-safe finding")
                .concat(&s)
                .concat(" — receipted branch")
                .concat(&es)
                .concat(
                    " of deleted workweaves carrying no unique commits; `rwv doctor --fix` \
                     deletes them under warrant",
                )
        },
        CollapsedClass::StaleEphemeralBranchLive => {
            count.clone()
                .concat(" stale-ephemeral-branch-live finding")
                .concat(&s)
                .concat(" — receipted branch")
                .concat(&es)
                .concat(
                    " of deleted workweaves carrying unique commits; never auto-deleted, \
                     review and reclaim by hand",
                )
        },
        CollapsedClass::StaleEphemeralBranchUnowned => {
            count.clone()
                .concat(" stale-ephemeral-branch-unowned finding")
                .concat(&s)
                .concat(" — branch")
                .concat(&es)
                .concat(" with no ownership receipt; not rwv's to delete")
        },
        CollapsedClass::DeadOpLease => {
            count.clone()
                .concat(" dead-op-lease finding")
                .concat(&s)
                .concat(" — lease file")
                .concat(&s)
                .concat(" whose recorded owner holds no matching op; `rwv doctor --fix` clears them")
        },
        CollapsedClass::DanglingRefReceipt => {
            count.clone()
                .concat(" dangling-ref-receipt finding")
                .concat(&s)
                .concat(" — receipt")
                .concat(&s)
                .concat(
                    " naming refs that are not there (benign crash residue); `rwv doctor \
                     --fix` retracts them",
                )
        },
        CollapsedClass::RedundantSavepoint => {
            count.clone()
                .concat(" redundant orphaned-savepoint finding")
                .concat(&s)
                .concat(" — savepoint tip")
                .concat(&s)
                .concat(" already anchored by a live branch; `rwv doctor --fix` drops them")
        },
        CollapsedClass::LiveSavepoint => {
            count.clone()
                .concat(" live orphaned-savepoint finding")
                .concat(&s)
                .concat(" — savepoint")
                .concat(&s)
                .concat(
                    " holding commits no live ref anchors; report-only, reclaimed by the \
                     reviewed operator sweep (report-before-drop)",
                )
        },
        CollapsedClass::SharedBranch => {
            count.clone()
                .concat(" shared-branch finding")
                .concat(&s)
                .concat(" — checkout")
                .concat(&s)
                .concat(
                    " standing on a shared (non-ephemeral) branch; the switch target for \
                     each is in its record",
                )
        },
    }
}

/// How serious a finding is.
pub open spec fn finding_severity(v: CheckViolationView) -> Severity {
    match v {
        CheckViolationView::OrphanedClone { .. }
        | CheckViolationView::DanglingReference { .. }
        | CheckViolationView::StaleLock { .. }
        | CheckViolationView::IncompleteLock { .. }
        | CheckViolationView::HeadUnreadable { .. }
        | CheckViolationView::ProjectsDirUnreadable { .. }
        | CheckViolationView::UnresolvableLockEntry { .. }
        | CheckViolationView::LegacyManifestFormat { .. }
        | CheckViolationView::UnreadableWorkweaveIndex { .. }
        | CheckViolationView::UnparseableProject { .. }
        | CheckViolationView::DanglingActiveProject { .. }
        | CheckViolationView::WeaveRootIdentityConflict { .. }
        | CheckViolationView::CloneTopology { .. } => Severity::Error,
        CheckViolationView::Provenance {
            sub_kind: ProvenanceKindView::LockShaUnreachable { .. },
            ..
        } => Severity::Error,
        _ => Severity::Warning,
    }
}

/// Whether a finding is held back from every automatic repair: there is work
/// in it that a repair could lose, or no repair is known.
pub open spec fn finding_held(v: CheckViolationView) -> bool {
    match v {
        CheckViolationView::BranchDiscipline { sub_kind, .. } => match sub_kind {
            BranchDisciplineKindView::Detached { legacy_branch, .. } => legacy_branch is Some,
            BranchDisciplineKindView::BlockedEphemeralNamespace { .. }
            | BranchDisciplineKindView::BlockedDetachedNamespace { .. }
            | BranchDisciplineKindView::UnbornCheckout { .. }
            | BranchDisciplineKindView::CanonicalHoldsLiveWorkweaveRef { .. }
            | BranchDisciplineKindView::CanonicalHoldsLeakedRef { .. }
            | BranchDisciplineKindView::StaleEphemeralBranchUnowned { .. }
            | BranchDisciplineKindView::StaleEphemeralBranchLive { .. } => true,
            _ => false,
        },
        CheckViolationView::MissingCanonicalClone { .. } => true,
        CheckViolationView::PhantomMergeDriver { .. } => true,
        _ => false,
    }
}

/// Whether the text report passes a finding over: a workweave of another
/// workspace in a shared container is not this workspace's to report.
pub open spec fn finding_unlisted(v: CheckViolationView) -> bool {
    v matches CheckViolationView::WorkweaveTreeIntegrity { sub_kind, .. }
        && sub_kind is ForeignPrimaryOtherWorkspace
}

/// The issue a listed finding becomes, or none.
pub open spec fn itemized(v: CheckViolationView) -> Seq<IssueView> {
    if finding_unlisted(v) {
        Seq::empty()
    } else {
        seq![core_issue(finding_severity(v), finding_text(v), !finding_held(v))]
    }
}

/// The issues of findings listed one by one.
pub open spec fn itemized_all(vs: Seq<CheckViolationView>) -> Seq<IssueView> {
    vs.flat_map(|v: CheckViolationView| itemized(v))
}

/// The issues of those findings that no class counts.
pub open spec fn itemized_rest(vs: Seq<CheckViolationView>) -> Seq<IssueView> {
    vs.flat_map(
        |v: CheckViolationView| if class_of(v) is None { itemized(v) } else { Seq::empty() },
    )
}

/// How many findings a class counts.
pub open spec fn class_count(vs: Seq<CheckViolationView>, class: CollapsedClass) -> nat {
    vs.filter(|v: CheckViolationView| class_of(v) == Some(class)).len()
}

/// The count lines of the classes that have members.
pub open spec fn class_lines(vs: Seq<CheckViolationView>) -> Seq<IssueView> {
    class_order().flat_map(
        |c: CollapsedClass|
            if class_count(vs, c) > 0 { seq![class_issue(c, class_count(vs, c))] } else {
                Seq::empty()
            },
    )
}

/// How serious `v` is.
fn severity_of(v: &CheckViolation) -> (severity: Severity)
    ensures
        severity == finding_severity(v.deep_view()),
{
    match v {
        CheckViolation::OrphanedClone { .. }
        | CheckViolation::DanglingReference { .. }
        | CheckViolation::StaleLock { .. }
        | CheckViolation::IncompleteLock { .. }
        | CheckViolation::HeadUnreadable { .. }
        | CheckViolation::ProjectsDirUnreadable { .. }
        | CheckViolation::UnresolvableLockEntry { .. }
        | CheckViolation::LegacyManifestFormat { .. }
        | CheckViolation::UnreadableWorkweaveIndex { .. }
        | CheckViolation::UnparseableProject { .. }
        | CheckViolation::DanglingActiveProject { .. }
        | CheckViolation::WeaveRootIdentityConflict { .. }
        | CheckViolation::CloneTopology { .. } => Severity::Error,
        CheckViolation::Provenance { sub_kind: ProvenanceKind::LockShaUnreachable { .. }, .. } => {
            Severity::Error
        },
        _ => Severity::Warning,
    }
}

/// Whether `v` is held back from every automatic repair.
fn held_back(v: &CheckViolation) -> (held: bool)
    ensures
        held == finding_held(v.deep_view()),
{
    match v {
        CheckViolation::BranchDiscipline { sub_kind, .. } => match sub_kind {
            BranchDisciplineKind::Detached { legacy_branch, .. } => legacy_branch.is_some(),
            BranchDisciplineKind::BlockedEphemeralNamespace { .. }
            | BranchDisciplineKind::BlockedDetachedNamespace { .. }
            | BranchDisciplineKind::UnbornCheckout { .. }
            | BranchDisciplineKind::CanonicalHoldsLiveWorkweaveRef { .. }
            | BranchDisciplineKind::CanonicalHoldsLeakedRef { .. }
            | BranchDisciplineKind::StaleEphemeralBranchUnowned { .. }
            | BranchDisciplineKind::StaleEphemeralBranchLive { .. } => true,
            _ => false,
        },
        CheckViolation::MissingCanonicalClone { .. } => true,
        CheckViolation::PhantomMergeDriver { .. } => true,
        _ => false,
    }
}

/// Adds the issue `v` becomes to `issues`, where it becomes one.
fn push_itemized(issues: &mut Vec<Issue>, v: &CheckViolation)
    ensures
        final(issues).deep_view() == old(issues).deep_view() + itemized(v.deep_view()),
{
    if let CheckViolation::WorkweaveTreeIntegrity {
        sub_kind: WorkweaveTreeIntegrityKind::ForeignPrimaryOtherWorkspace { .. },
        ..
    } = v {
        assert(issues.deep_view() =~= old(issues).deep_view() + itemized(v.deep_view()));
        return;
    }
    let held: bool = held_back(v);
    issues.push(Issue::from_core(severity_of(v), finding_message(v), !held));
    assert(issues.deep_view() =~= old(issues).deep_view() + itemized(v.deep_view()));
}

/// Lists every finding on its own, as a report narrowed to named kinds does.
pub fn itemized_violations_to_issues(violations: Vec<CheckViolation>) -> (issues: Vec<Issue>)
    ensures
        issues.deep_view() == itemized_all(violations.deep_view()),
{
    let mut issues: Vec<Issue> = Vec::new();
    let ghost seen = violations.deep_view();
    let mut i: usize = 0;
    while i < violations.len()
        invariant
            0 <= i <= violations.len(),
            seen == violations.deep_view(),
            issues.deep_view() == itemized_all(seen.take(i as int)),
        decreases violations.len() - i,
    {
        push_itemized(&mut issues, &violations[i]);
        proof {
            seen.lemma_flat_map_take_append(|v: CheckViolationView| itemized(v), i as int);
        }
        i = i + 1;
    }
    assert(seen.take(i as int) =~= seen);
    issues
}

/// Counts the findings of one class.
fn count_class(violations: &Vec<CheckViolation>, class: CollapsedClass) -> (n: usize)
    ensures
        n == class_count(violations.deep_view(), class),
{
    let ghost seen = violations.deep_view();
    let ghost member = |v: CheckViolationView| class_of(v) == Some(class);
    let mut n: usize = 0;
    let mut i: usize = 0;
    while i < violations.len()
        invariant
            0 <= i <= violations.len(),
            seen == violations.deep_view(),
            member == (|v: CheckViolationView| class_of(v) == Some(class)),
            n <= i,
            n == seen.take(i as int).filter(member).len(),
        decreases violations.len() - i,
    {
        let found: Option<CollapsedClass> = CollapsedClass::of(&violations[i]);
        let counts: bool = match found {
            Some(c) => c == class,
            None => false,
        };
        proof {
            assert(seen.take(i as int + 1) =~= seen.take(i as int).push(seen[i as int]));
            seen.take(i as int).lemma_filter_len_push(member, seen[i as int]);
        }
        if counts {
            n = n + 1;
        }
        i = i + 1;
    }
    assert(seen.take(i as int) =~= seen);
    n
}

/// The classes in the order the report counts them.
fn classes_in_order() -> (classes: Vec<CollapsedClass>)
    ensures
        classes@ == class_order(),
{
    let classes: Vec<CollapsedClass> = vec![
        CollapsedClass::StaleRegistryEntry,
        CollapsedClass::StaleWorktreeRegistration,
        CollapsedClass::StaleEphemeralBranchSafe,
        CollapsedClass::StaleEphemeralBranchLive,
        CollapsedClass::StaleEphemeralBranchUnowned,
        CollapsedClass::DeadOpLease,
        CollapsedClass::DanglingRefReceipt,
        CollapsedClass::RedundantSavepoint,
        CollapsedClass::LiveSavepoint,
        CollapsedClass::SharedBranch,
    ];
    assert(classes@ =~= class_order());
    classes
}

/// Turns findings into the issues of the text report.
///
/// Findings of a counted class become one line for the class, behind all the
/// others, which are listed in the order they came in.
pub fn violations_to_issues(violations: Vec<CheckViolation>) -> (issues: Vec<Issue>)
    ensures
        issues.deep_view() == itemized_rest(violations.deep_view()) + class_lines(
            violations.deep_view(),
        ),
{
    let mut issues: Vec<Issue> = Vec::new();
    let ghost seen = violations.deep_view();
    let ghost rest = |v: CheckViolationView|
        if class_of(v) is None { itemized(v) } else { Seq::empty() };
    let mut i: usize = 0;
    while i < violations.len()
        invariant
            0 <= i <= violations.len(),
            seen == violations.deep_view(),
            rest == (|v: CheckViolationView|
                if class_of(v) is None { itemized(v) } else { Seq::empty() }),
            issues.deep_view() == seen.take(i as int).flat_map(rest),
        decreases violations.len() - i,
    {
        let ghost before = issues.deep_view();
        let class: Option<CollapsedClass> = CollapsedClass::of(&violations[i]);
        if class.is_none() {
            push_itemized(&mut issues, &violations[i]);
        }
        proof {
            seen.lemma_flat_map_take_append(rest, i as int);
            assert(issues.deep_view() =~= before + rest(seen[i as int]));
        }
        i = i + 1;
    }
    assert(seen.take(i as int) =~= seen);
    let classes: Vec<CollapsedClass> = classes_in_order();
    let ghost line = |c: CollapsedClass|
        if class_count(seen, c) > 0 { seq![class_issue(c, class_count(seen, c))] } else {
            Seq::empty()
        };
    let mut j: usize = 0;
    while j < classes.len()
        invariant
            0 <= j <= classes.len(),
            classes@ == class_order(),
            seen == violations.deep_view(),
            line == (|c: CollapsedClass|
                if class_count(seen, c) > 0 { seq![class_issue(c, class_count(seen, c))] } else {
                    Seq::empty()
                }),
            issues.deep_view() == itemized_rest(seen) + class_order().take(j as int).flat_map(line),
        decreases classes.len() - j,
    {
        let ghost before = issues.deep_view();
        let n: usize = count_class(&violations, classes[j]);
        if n > 0 {
            issues.push(classes[j].issue(n));
        }
        proof {
            class_order().lemma_flat_map_take_append(line, j as int);
            assert(issues.deep_view() =~= before + line(class_order()[j as int]));
            assert(issues.deep_view() =~= itemized_rest(seen) + class_order().take(
                j as int + 1,
            ).flat_map(line));
        }
        j = j + 1;
    }
    assert(class_order().take(j as int) =~= class_order());
    issues
}

/// The line of a class says of its findings what `--fix` does with them.
pub proof fn class_lines_say_what_is_repaired(v: CheckViolationView)
    ensures
        class_of(v) matches Some(class) ==> class_auto_fixed(class) == repaired_unasked(v),
{
}

/// The text report loses no finding: each is listed, or counted in the line of
/// its class. The one exception is a workweave of another workspace, which is
/// not this workspace's to report.
pub proof fn every_finding_is_reported(vs: Seq<CheckViolationView>, i: int)
    requires
        0 <= i < vs.len(),
        !finding_unlisted(vs[i]),
    ensures
        match class_of(vs[i]) {
            None => itemized_rest(vs).contains(
                core_issue(finding_severity(vs[i]), finding_text(vs[i]), !finding_held(vs[i])),
            ),
            Some(class) => class_lines(vs).contains(class_issue(class, class_count(vs, class))),
        },
{
    match class_of(vs[i]) {
        None => {
            let f = |v: CheckViolationView|
                if class_of(v) is None { itemized(v) } else { Seq::empty() };
            let issue = core_issue(
                finding_severity(vs[i]),
                finding_text(vs[i]),
                !finding_held(vs[i]),
            );
            assert(f(vs[i])[0] == issue);
            flat_map_holds(vs, f, i, issue);
        },
        Some(class) => {
            let keep = |v: CheckViolationView| class_of(v) == Some(class);
            vs.filter_lemma(keep);
            assert(vs.filter(keep).contains(vs[i]));
            let f = |c: CollapsedClass|
                if class_count(vs, c) > 0 { seq![class_issue(c, class_count(vs, c))] } else {
                    Seq::empty()
                };
            let n = match class {
                CollapsedClass::StaleRegistryEntry => 0int,
                CollapsedClass::StaleWorktreeRegistration => 1int,
                CollapsedClass::StaleEphemeralBranchSafe => 2int,
                CollapsedClass::StaleEphemeralBranchLive => 3int,
                CollapsedClass::StaleEphemeralBranchUnowned => 4int,
                CollapsedClass::DeadOpLease => 5int,
                CollapsedClass::DanglingRefReceipt => 6int,
                CollapsedClass::RedundantSavepoint => 7int,
                CollapsedClass::LiveSavepoint => 8int,
                CollapsedClass::SharedBranch => 9int,
            };
            assert(class_order()[n] == class);
            assert(f(class)[0] == class_issue(class, class_count(vs, class)));
            flat_map_holds(class_order(), f, n, class_issue(class, class_count(vs, class)));
        },
    }
}

/// Findings of one class share a line, and only what comes in numbers has one:
/// registrations, ephemeral branches, leases, receipts and savepoints that are
/// left behind, and checkouts on a shared branch. Nothing is counted in the
/// line of another class.
pub proof fn classes_collect_their_own(v: CheckViolationView)
    ensures
        class_of(v) == Some(CollapsedClass::StaleRegistryEntry) <==> (
        v matches CheckViolationView::WorkweaveTreeIntegrity { sub_kind, .. } && sub_kind
            is StaleRegistryEntry),
        class_of(v) == Some(CollapsedClass::StaleWorktreeRegistration) <==> v
            is StaleWorktreeRegistration,
        class_of(v) == Some(CollapsedClass::DeadOpLease) <==> v is DeadOpLease,
        class_of(v) == Some(CollapsedClass::DanglingRefReceipt) <==> v is DanglingRefReceipt,
        class_of(v) == Some(CollapsedClass::StaleEphemeralBranchSafe) <==> (
        v matches CheckViolationView::BranchDiscipline { sub_kind, .. } && sub_kind
            is StaleEphemeralBranchSafe),
        class_of(v) == Some(CollapsedClass::StaleEphemeralBranchLive) <==> (
        v matches CheckViolationView::BranchDiscipline { sub_kind, .. } && sub_kind
            is StaleEphemeralBranchLive),
        class_of(v) == Some(CollapsedClass::StaleEphemeralBranchUnowned) <==> (
        v matches CheckViolationView::BranchDiscipline { sub_kind, .. } && sub_kind
            is StaleEphemeralBranchUnowned),
        class_of(v) == Some(CollapsedClass::SharedBranch) <==> (
        v matches CheckViolationView::BranchDiscipline { sub_kind, .. } && sub_kind
            is SharedBranch),
        class_of(v) == Some(CollapsedClass::RedundantSavepoint) <==> (
        v matches CheckViolationView::OrphanedSavepoint { sub_kind, .. } && sub_kind
            != OrphanedSavepointKind::Live),
        class_of(v) == Some(CollapsedClass::LiveSavepoint) <==> (
        v matches CheckViolationView::OrphanedSavepoint { sub_kind, .. } && sub_kind
            != OrphanedSavepointKind::Redundant),
{
}

/// A class has one line, which counts its findings, and none where it has no
/// findings.
pub proof fn classes_have_one_line(vs: Seq<CheckViolationView>, class: CollapsedClass)
    ensures
        class_count(vs, class) > 0 <==> exists|i: int|
            0 <= i < vs.len() && class_of(#[trigger] vs[i]) == Some(class),
        class_count(vs, class) <= vs.len(),
        class_order().contains(class),
        class_order().no_duplicates(),
{
    let p = |v: CheckViolationView| class_of(v) == Some(class);
    let kept = vs.filter(p);
    vs.lemma_filter_len(p);
    if kept.len() > 0 {
        vs.lemma_filter_contains_rev(p, kept[0]);
        let i = choose|i: int| 0 <= i < vs.len() && vs[i] == kept[0];
        assert(p(vs[i]));
    }
    assert forall|i: int| 0 <= i < vs.len() && class_of(#[trigger] vs[i]) == Some(class) implies
        kept.len() > 0 by {
        assert(p(vs[i]));
        vs.lemma_filter_contains(p, i);
    }
    let k = match class {
        CollapsedClass::StaleRegistryEntry => 0,
        CollapsedClass::StaleWorktreeRegistration => 1,
        CollapsedClass::StaleEphemeralBranchSafe => 2,
        CollapsedClass::StaleEphemeralBranchLive => 3,
        CollapsedClass::StaleEphemeralBranchUnowned => 4,
        CollapsedClass::DeadOpLease => 5,
        CollapsedClass::DanglingRefReceipt => 6,
        CollapsedClass::RedundantSavepoint => 7,
        CollapsedClass::LiveSavepoint => 8,
        CollapsedClass::SharedBranch => 9int,
    };
    assert(class_order()[k] == class);
}

/// A finding is an error where the clones, the lock, the manifest or the
/// weave's identity cannot be relied on, and a warning otherwise. What drifted
/// or was left behind never fails a run.
pub proof fn leftovers_are_warnings(v: CheckViolationView)
    ensures
        finding_severity(v) == Severity::Warning <==> {
            ||| v is MissingRole || v is WorkweaveDrift || v is IndexDrift || v is WorkingTreeDrift
            ||| v is MissingReplayExclusion || v is ReplayExclusionUnreadable
            ||| v is MissingMergeDriverConfig || v is MergeDriverConfigUnreadable
            ||| v is ProjectlessDir || v is UnnameableProject || v is LegacyWorkweaveMarker
            ||| v is LegacyWorkweaveIndex || v is UnreadableOwnedState || v
                is WorkweaveTreeIntegrity
            ||| v is BranchDiscipline || v is StaleWorktreeRegistration || v is StaleOpState
            ||| v is DeadOpLease || v is DanglingRefReceipt || v is PreFlatRefReceipt
            ||| v is OrphanedSavepoint || v is ConfusableSiblings || v is CargoVersionSkew
            ||| v is CargoPatchShadowing || v is MissingCanonicalClone || v
                is UninitializedSubmodule || v is PhantomMergeDriver
            ||| v matches CheckViolationView::Provenance { sub_kind, .. } && sub_kind
                is OriginUrlMismatch
        },
        repaired_unasked(v) && finding_severity(v) == Severity::Error ==> v
            is DanglingActiveProject || v is WeaveRootIdentityConflict,
{
}

/// An item is held for its owner where work could be lost or a name is taken;
/// nothing that is repaired unasked is.
pub proof fn repaired_findings_are_not_held(v: CheckViolationView)
    ensures
        repaired_unasked(v) ==> !finding_held(v) && !finding_unlisted(v),
        v matches CheckViolationView::BranchDiscipline { sub_kind, .. } ==> (!finding_held(v)
            <==> sub_kind is SharedBranch || sub_kind is ForeignEphemeral || sub_kind
            is UnmigratedEphemeralBranch || sub_kind is UnrecordedEphemeralBranch || sub_kind
            is CanonicalDetached || sub_kind is StaleEphemeralBranchSafe || (
        sub_kind matches BranchDisciplineKindView::Detached { legacy_branch, .. } && legacy_branch
            is None)),
        finding_held(v) && !(v is BranchDiscipline) <==> v is MissingCanonicalClone || v
            is PhantomMergeDriver,
        finding_unlisted(v) ==> (v matches CheckViolationView::WorkweaveTreeIntegrity {
            sub_kind,
            ..
        } && !(sub_kind is ForeignPrimary) && sub_kind is ForeignPrimaryOtherWorkspace),
        v matches CheckViolationView::WorkweaveTreeIntegrity {
            sub_kind: WorkweaveTreeIntegrityKindView::ForeignPrimaryOtherWorkspace { .. },
            ..
        } ==> itemized(v).len() == 0,
        !finding_unlisted(v) ==> itemized(v).len() == 1 && itemized(v)[0].severity
            == finding_severity(v) && itemized(v)[0].message == finding_text(v)
            && itemized(v)[0].safe_to_fix != finding_held(v),
{
}

/// Counts agree with their nouns: one finding is told of in the singular, and
/// any other number in the plural.
pub proof fn counts_agree_with_their_nouns(n: nat, suffix: Seq<char>)
    ensures
        plural(1, suffix).len() == 0,
        n != 1 ==> plural(n, suffix) == suffix,
        third_person(n).len() > 0 <==> n == 1,
{
    reveal_strlit("");
    reveal_strlit("s");
}

/// A class's line starts with how many findings it stands for.
pub proof fn class_lines_start_with_their_count(class: CollapsedClass, n: nat)
    ensures
        decimal_text(n).is_prefix_of(class_issue(class, n).message),
        class_issue(class, n).severity == Severity::Warning,
        class_issue(class, n).safe_to_fix <==> !(class is StaleEphemeralBranchLive || class
            is StaleEphemeralBranchUnowned || class is LiveSavepoint || class is SharedBranch),
{
}

/// A class's line names the class behind the count.
pub proof fn class_lines_name_their_class(n: nat)
    ensures
        tells(
            class_body(CollapsedClass::StaleRegistryEntry, n),
            seq![decimal_text(n)].push(" stale-registry-entry finding"@),
        ),
        tells(
            class_body(CollapsedClass::StaleWorktreeRegistration, n),
            seq![decimal_text(n)].push(" stale-worktree-registration finding"@),
        ),
        tells(
            class_body(CollapsedClass::StaleEphemeralBranchSafe, n),
            seq![decimal_text(n)].push(" stale-ephemeral-branch-safe finding"@),
        ),
        tells(
            class_body(CollapsedClass::StaleEphemeralBranchLive, n),
            seq![decimal_text(n)].push(" stale-ephemeral-branch-live finding"@),
        ),
        tells(
            class_body(CollapsedClass::StaleEphemeralBranchUnowned, n),
            seq![decimal_text(n)].push(" stale-ephemeral-branch-unowned finding"@),
        ),
        tells(
            class_body(CollapsedClass::DeadOpLease, n),
            seq![decimal_text(n)].push(" dead-op-lease finding"@),
        ),
        tells(
            class_body(CollapsedClass::DanglingRefReceipt, n),
            seq![decimal_text(n)].push(" dangling-ref-receipt finding"@),
        ),
        tells(
            class_body(CollapsedClass::RedundantSavepoint, n),
            seq![decimal_text(n)].push(" redundant orphaned-savepoint finding"@),
        ),
        tells(
            class_body(CollapsedClass::LiveSavepoint, n),
            seq![decimal_text(n)].push(" live orphaned-savepoint finding"@),
        ),
        tells(
            class_body(CollapsedClass::SharedBranch, n),
            seq![decimal_text(n)].push(" shared-branch finding"@),
        ),
{
    broadcast use telling;
}

} // verus!
