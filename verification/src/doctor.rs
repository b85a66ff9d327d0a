//! The doctor's own issues, its report and its exit status.

use vstd::prelude::*;
use crate::issue::{core_issue, Issue, IssueKind, IssueKindView, IssueView, Severity};
use crate::kinds::{consent_flag, kind_of, repaired_unasked, KindFilter};
use crate::lists::{flat_map_holds, flat_map_member, joined_lists_contain};
use crate::report::{
    class_count, class_issue, class_lines, class_of, class_order, finding_severity, itemized,
    itemized_all, itemized_rest, itemized_violations_to_issues, violations_to_issues,
    CollapsedClass,
};
use crate::text::{join, join_path, join_text, joined, telling, tells};
use crate::violation::{CheckViolation, FixDisposition, PathText, ProjectName, WorkweaveName};
use crate::violation_view::CheckViolationView;
use crate::wire::{
    build_doctor_json, issue_output, output_of, AdvisoryKindOutput, AdvisoryOutput,
    AdvisoryOutputView, DoctorJsonOutput, PluginRecord, Resolution,
};

verus! {

/// Why a file of unknown origin may be stale.
pub open spec fn unknown_provenance_text() -> Seq<char> {
    "it was accepted without a record of what produced it, so nothing here can say it still \
         follows from the current inputs"@
}

/// Words it: why a file of unknown origin may be stale.
fn unknown_provenance() -> (text: String)
    ensures
        text@ == unknown_provenance_text(),
{
    "it was accepted without a record of what produced it, so nothing here can say \
             it still follows from the current inputs".to_owned()
}

/// Why a file whose inputs moved may be stale.
pub open spec fn moved_inputs_text(inputs: Seq<char>) -> Seq<char> {
    "the inputs it was generated from have moved since: "@ + inputs
}

/// Words it: why a file whose inputs moved may be stale.
fn moved_inputs(inputs: &String) -> (text: String)
    ensures
        text@ == moved_inputs_text(inputs@),
{
    "the inputs it was generated from have moved since: ".to_owned().concat(inputs)
}

/// A generated file that may be stale.
pub open spec fn stale_generation_text(generated: Seq<char>, cause: Seq<char>) -> Seq<char> {
    generated
        + " may no longer match this checkout — "@
        + cause
        + ". Run `rwv materialize` to re-derive it"@
}

/// Words it: a generated file that may be stale.
fn stale_generation(generated: &String, cause: &String) -> (text: String)
    ensures
        text@ == stale_generation_text(generated@, cause@),
{
    generated.clone()
        .concat(" may no longer match this checkout — ")
        .concat(cause)
        .concat(". Run `rwv materialize` to re-derive it")
}

/// A file an integration generated.
pub open spec fn generated_file_text(path: Seq<char>) -> Seq<char> {
    path + " (generated file)"@
}

/// Words it: a file an integration generated.
fn generated_file(path: &String) -> (text: String)
    ensures
        text@ == generated_file_text(path@),
{
    path.clone().concat(" (generated file)")
}

/// A file an integration keeps a part of.
pub open spec fn managed_region_text(path: Seq<char>) -> Seq<char> {
    path + " (managed region)"@
}

/// Words it: a file an integration keeps a part of.
fn managed_region(path: &String) -> (text: String)
    ensures
        text@ == managed_region_text(path@),
{
    path.clone().concat(" (managed region)")
}

/// Where artifacts are surfaced.
pub open spec fn surfaced_as_text(names: Seq<char>) -> Seq<char> {
    ", surfaced at the weave root as "@ + names
}

/// Words it: where artifacts are surfaced.
fn surfaced_as(names: &String) -> (text: String)
    ensures
        text@ == surfaced_as_text(names@),
{
    ", surfaced at the weave root as ".to_owned().concat(names)
}

/// What a disabled integration left on disk.
pub open spec fn disabled_artifacts_text(integration: Seq<char>, project: Seq<char>, described: Seq<char>, also: Seq<char>) -> Seq<char> {
    integration
        + " is disabled for project `"@
        + project
        + "`, so nothing here is its to keep, but content it authored is still on disk: "@
        + described
        + also
        + ". Run `rwv materialize` to remove it. `rwv doctor --fix` will not — removal is not a \
           repair, and disabling an integration is one character in rwv.toml"@
}

/// Words it: what a disabled integration left on disk.
fn disabled_artifacts(integration: &String, project: &String, described: &String, also: &String) -> (text: String)
    ensures
        text@ == disabled_artifacts_text(integration@, project@, described@, also@),
{
    integration.clone()
        .concat(" is disabled for project `")
        .concat(project)
        .concat("`, so nothing here is its to keep, but content it authored is still on disk: ")
        .concat(described)
        .concat(also)
        .concat(
            ". Run `rwv materialize` to remove it. `rwv doctor --fix` will not — removal is \
             not a repair, and disabling an integration is one character in rwv.toml",
        )
}

/// Managed content that was regenerated.
pub open spec fn regenerated_text(project: Seq<char>) -> Seq<char> {
    "[fixed] core: regenerated integration content for project `"@
        + project
        + "` (drift detected)"@
}

/// Words it: managed content that was regenerated.
fn regenerated_line(project: &String) -> (text: String)
    ensures
        text@ == regenerated_text(project@),
{
    "[fixed] core: regenerated integration content for project `".to_owned()
        .concat(project)
        .concat("` (drift detected)")
}

/// Managed content that could not be regenerated.
pub open spec fn unregenerated_text(project: Seq<char>, error: Seq<char>) -> Seq<char> {
    "doctor --fix: failed to regenerate integration content for `"@
        + project
        + "`: "@
        + error
}

/// Words it: managed content that could not be regenerated.
fn unregenerated(project: &String, error: &String) -> (text: String)
    ensures
        text@ == unregenerated_text(project@, error@),
{
    "doctor --fix: failed to regenerate integration content for `".to_owned()
        .concat(project)
        .concat("`: ")
        .concat(error)
}

/// A regeneration that was withheld.
pub open spec fn withheld_text(project: Seq<char>) -> Seq<char> {
    "doctor --fix: withheld the regeneration of `"@
        + project
        + "`'s integration content. Regenerating re-runs the hooks for every managed file the \
           project has, and they re-attest what they produce — which settles the drift reported \
           above without the consent that says which way. Choose it: `rwv materialize \
           --adopt-drifted` records the current content as accepted, `rwv materialize \
           --regenerate-drifted` discards it and regenerates from the current inputs. Then \
           re-run `rwv doctor --fix`"@
}

/// Words it: a regeneration that was withheld.
fn withheld(project: &String) -> (text: String)
    ensures
        text@ == withheld_text(project@),
{
    "doctor --fix: withheld the regeneration of `".to_owned()
        .concat(project)
        .concat(
            "`'s integration content. Regenerating re-runs the hooks for every managed file \
             the project has, and they re-attest what they produce — which settles the drift \
             reported above without the consent that says which way. Choose it: `rwv \
             materialize --adopt-drifted` records the current content as accepted, `rwv \
             materialize --regenerate-drifted` discards it and regenerates from the current \
             inputs. Then re-run `rwv doctor --fix`",
        )
}

/// Surfacing that was repaired.
pub open spec fn resurfaced_text(project: Seq<char>) -> Seq<char> {
    "[fixed] core: re-surfaced symlinks for project `"@
        + project
        + "` (missing/mis-resolved surfacing)"@
}

/// Words it: surfacing that was repaired.
fn resurfaced_line(project: &String) -> (text: String)
    ensures
        text@ == resurfaced_text(project@),
{
    "[fixed] core: re-surfaced symlinks for project `".to_owned()
        .concat(project)
        .concat("` (missing/mis-resolved surfacing)")
}

/// Surfacing that could not be repaired.
pub open spec fn unsurfaced_text(project: Seq<char>, error: Seq<char>) -> Seq<char> {
    "doctor --fix: failed to re-surface symlinks for `"@ + project + "`: "@ + error
}

/// Words it: surfacing that could not be repaired.
fn unsurfaced(project: &String, error: &String) -> (text: String)
    ensures
        text@ == unsurfaced_text(project@, error@),
{
    "doctor --fix: failed to re-surface symlinks for `".to_owned()
        .concat(project)
        .concat("`: ")
        .concat(error)
}

/// A warning of the report.
pub open spec fn warning_line_text(integration: Seq<char>, message: Seq<char>) -> Seq<char> {
    "[warning] "@ + integration + ": "@ + message
}

/// Words it: a warning of the report.
fn warning_line(integration: &String, message: &String) -> (text: String)
    ensures
        text@ == warning_line_text(integration@, message@),
{
    "[warning] ".to_owned().concat(integration).concat(": ").concat(message)
}

/// An error of the report.
pub open spec fn error_line_text(integration: Seq<char>, message: Seq<char>) -> Seq<char> {
    "[error] "@ + integration + ": "@ + message
}

/// Words it: an error of the report.
fn error_line(integration: &String, message: &String) -> (text: String)
    ensures
        text@ == error_line_text(integration@, message@),
{
    "[error] ".to_owned().concat(integration).concat(": ").concat(message)
}

/// Whether a run repairs what the integrations report, or only reports it.
#[derive(Debug, Clone, Copy, PartialEq, Eq, Structural)]
pub enum Repair {
    Report,
    Apply,
}

/// A generated file whose inputs no longer describe the checkout.
#[derive(Debug)]
pub struct StaleGeneration {
    pub generated: String,
    pub moved_inputs: Vec<String>,
    /// Whether nothing is recorded of what it was generated from.
    pub provenance_unknown: bool,
}

/// Why a generated file may be stale.
pub open spec fn stale_cause(s: StaleGeneration) -> Seq<char> {
    if s.provenance_unknown {
        unknown_provenance_text()
    } else {
        moved_inputs_text(join_text(s.moved_inputs.deep_view(), ", "@))
    }
}

/// The issue a stale generated file is reported as.
pub open spec fn stale_issue(s: StaleGeneration) -> IssueView {
    IssueView {
        integration: "core"@,
        severity: Severity::Warning,
        message: stale_generation_text(s.generated@, stale_cause(s)),
        kind: IssueKindView::DerivedStateStale,
        safe_to_fix: false,
    }
}

/// Reports a stale generated file.
pub fn stale_generation_issue(finding: &StaleGeneration) -> (issue: Issue)
    ensures
        issue.deep_view() == stale_issue(*finding),
{
    let cause: String = if finding.provenance_unknown {
        unknown_provenance()
    } else {
        moved_inputs(&join(&finding.moved_inputs, ", "))
    };
    Issue {
        integration: "core".to_owned(),
        severity: Severity::Warning,
        message: stale_generation(&finding.generated, &cause),
        kind: IssueKind::DerivedStateStale,
        safe_to_fix: false,
    }
}

/// The advisory a stale generated file is put on the wire as.
pub open spec fn stale_advisory(s: StaleGeneration) -> AdvisoryOutputView {
    AdvisoryOutputView {
        kind: AdvisoryKindOutput::DerivedStateStale,
        remedy: "rwv materialize"@,
        inputs: s.moved_inputs.deep_view(),
    }
}

fn copy_texts(texts: &Vec<String>) -> (copy: Vec<String>)
    ensures
        copy.deep_view() == texts.deep_view(),
{
    let mut copy: Vec<String> = Vec::new();
    let mut i: usize = 0;
    while i < texts.len()
        invariant
            0 <= i <= texts.len(),
            copy.deep_view() == texts.deep_view().take(i as int),
        decreases texts.len() - i,
    {
        let ghost prior = copy.deep_view();
        copy.push(texts[i].clone());
        assert(copy.deep_view() =~= prior.push(texts@[i as int]@));
        assert(texts.deep_view().take(i as int + 1) =~= texts.deep_view().take(i as int).push(
            texts@[i as int]@,
        ));
        i = i + 1;
    }
    assert(texts.deep_view().take(i as int) =~= texts.deep_view());
    copy
}

/// Puts a stale generated file on the wire.
pub fn stale_generation_advisory(finding: &StaleGeneration) -> (advisory: AdvisoryOutput)
    ensures
        advisory.deep_view() == stale_advisory(*finding),
{
    AdvisoryOutput {
        kind: AdvisoryKindOutput::DerivedStateStale,
        remedy: "rwv materialize".to_owned(),
        inputs: copy_texts(&finding.moved_inputs),
    }
}

/// What an integration keeps in a project: a whole file, or a marked part of
/// one.
#[derive(Debug)]
pub enum OwnedPath {
    WholeFile { name: String },
    MarkedRegion { name: String },
}

/// A disabled integration, what of it is still on disk, and which of that is
/// surfaced at the weave root.
#[derive(Debug)]
pub struct DisabledArtifacts {
    pub integration: String,
    pub paths: Vec<OwnedPath>,
    pub surfaced: Vec<String>,
}

/// A path an integration keeps, and what it keeps of it.
pub open spec fn owned_path_text(output_dir: Seq<char>) -> spec_fn(OwnedPath) -> Seq<char> {
    |p: OwnedPath|
        match p {
            OwnedPath::WholeFile { name } => generated_file_text(joined(output_dir, name@)),
            OwnedPath::MarkedRegion { name } => managed_region_text(joined(output_dir, name@)),
        }
}

/// Where the artifacts are surfaced, if anywhere.
pub open spec fn surfaced_text(surfaced: Seq<Seq<char>>) -> Seq<char> {
    if surfaced.len() == 0 {
        Seq::empty()
    } else {
        surfaced_as_text(join_text(surfaced, ", "@))
    }
}

/// The issue a disabled integration's artifacts are reported as.
pub open spec fn disabled_issue(project: Seq<char>, output_dir: Seq<char>) -> spec_fn(
    DisabledArtifacts,
) -> IssueView {
    |d: DisabledArtifacts|
        IssueView {
            integration: d.integration@,
            severity: Severity::Warning,
            message: disabled_artifacts_text(
                d.integration@,
                project,
                join_text(d.paths@.map_values(owned_path_text(output_dir)), ", "@),
                surfaced_text(d.surfaced.deep_view()),
            ),
            kind: IssueKindView::DisabledIntegrationArtifact,
            safe_to_fix: false,
        }
}

fn describe_paths(paths: &Vec<OwnedPath>, output_dir: &PathText) -> (text: String)
    ensures
        text@ == join_text(paths@.map_values(owned_path_text(output_dir@)), ", "@),
{
    let ghost f = owned_path_text(output_dir@);
    let mut parts: Vec<String> = Vec::new();
    let mut i: usize = 0;
    while i < paths.len()
        invariant
            0 <= i <= paths.len(),
            f == owned_path_text(output_dir@),
            parts@.len() == i,
            forall|k: int| 0 <= k < i ==> (#[trigger] parts@[k])@ == f(paths@[k]),
        decreases paths.len() - i,
    {
        let part: String = match &paths[i] {
            OwnedPath::WholeFile { name } => generated_file(&join_path(output_dir, name)),
            OwnedPath::MarkedRegion { name } => managed_region(&join_path(output_dir, name)),
        };
        parts.push(part);
        i = i + 1;
    }
    assert(parts.deep_view() =~= paths@.map_values(f));
    join(&parts, ", ")
}

/// Reports the artifacts of disabled integrations. There is no repair: to
/// remove what an integration made is for the operator to ask.
pub fn disabled_integration_issues(
    project: &ProjectName,
    output_dir: &PathText,
    found: &Vec<DisabledArtifacts>,
) -> (issues: Vec<Issue>)
    ensures
        issues.deep_view() == found@.map_values(disabled_issue(project@, output_dir@)),
{
    let ghost f = disabled_issue(project@, output_dir@);
    let mut issues: Vec<Issue> = Vec::new();
    let mut i: usize = 0;
    while i < found.len()
        invariant
            0 <= i <= found.len(),
            f == disabled_issue(project@, output_dir@),
            issues@.len() == i,
            forall|k: int| 0 <= k < i ==> (#[trigger] issues@[k]).deep_view() == f(found@[k]),
        decreases found.len() - i,
    {
        let d: &DisabledArtifacts = &found[i];
        let also: String = if d.surfaced.len() == 0 {
            String::new()
        } else {
            surfaced_as(&join(&d.surfaced, ", "))
        };
        let described: String = describe_paths(&d.paths, output_dir);
        proof {
            if d.surfaced@.len() == 0 {
                assert(also@ =~= Seq::<char>::empty());
            }
        }
        issues.push(
            Issue {
                integration: d.integration.clone(),
                severity: Severity::Warning,
                message: disabled_artifacts(&d.integration, project, &described, &also),
                kind: IssueKind::DisabledIntegrationArtifact,
                safe_to_fix: false,
            },
        );
        i = i + 1;
    }
    assert(issues.deep_view() =~= found@.map_values(f));
    issues
}

/// The issues a repair may settle.
pub open spec fn fixable(issues: Seq<IssueView>) -> Seq<IssueView> {
    issues.filter(|i: IssueView| i.safe_to_fix)
}

/// The issues over content the operator holds, which no repair settles.
pub open spec fn user_held(issues: Seq<IssueView>) -> Seq<IssueView> {
    issues.filter(|i: IssueView| !i.safe_to_fix)
}

/// Parts issues into those a repair may settle and the rest, each in order.
pub fn part_issues(issues: Vec<Issue>) -> (parts: (Vec<Issue>, Vec<Issue>))
    ensures
        parts.0.deep_view() == fixable(issues.deep_view()),
        parts.1.deep_view() == user_held(issues.deep_view()),
{
    let ghost all = issues.deep_view();
    let ghost f = |i: IssueView| i.safe_to_fix;
    let ghost g = |i: IssueView| !i.safe_to_fix;
    let mut can: Vec<Issue> = Vec::new();
    let mut held: Vec<Issue> = Vec::new();
    proof {
        reveal(Seq::filter);
    }
    assert(can.deep_view() =~= all.take(0).filter(f));
    assert(held.deep_view() =~= all.take(0).filter(g));
    for issue in it: issues
        invariant
            it.seq() == issues@,
            all == issues.deep_view(),
            f == (|i: IssueView| i.safe_to_fix),
            g == (|i: IssueView| !i.safe_to_fix),
            can.deep_view() == all.take(it.index() as int).filter(f),
            held.deep_view() == all.take(it.index() as int).filter(g),
    {
        let ghost i = it.index() as int;
        let ghost cv = can.deep_view();
        let ghost hv = held.deep_view();
        proof {
            assert(all[i] == issue.deep_view());
            assert(all.take(i + 1) =~= all.take(i).push(all[i]));
            all.take(i).lemma_filter_push(all[i], f);
            all.take(i).lemma_filter_push(all[i], g);
        }
        if issue.safe_to_fix {
            can.push(issue);
            assert(can.deep_view() =~= cv.push(all[i]));
        } else {
            held.push(issue);
            assert(held.deep_view() =~= hv.push(all[i]));
        }
    }
    assert(all.take(all.len() as int) =~= all);
    (can, held)
}

/// What is done about the drift of a project's managed content.
#[derive(Debug, Clone, Copy, PartialEq, Eq, Structural)]
pub enum Regeneration {
    /// Everything is reported.
    Report,
    /// The operator holds content that a regeneration would settle unasked:
    /// nothing is regenerated, and why is told.
    Withhold,
    Regenerate,
}

/// What is done about the drift of a project's managed content.
pub open spec fn regeneration(repair: Repair, verify: Seq<IssueView>) -> Regeneration {
    if repair is Report || fixable(verify).len() == 0 {
        Regeneration::Report
    } else if user_held(verify).len() > 0 {
        Regeneration::Withhold
    } else {
        Regeneration::Regenerate
    }
}

/// Whether a project's surfacing is repaired.
pub open spec fn resurfaces(repair: Repair, surfacing: Seq<IssueView>) -> bool {
    repair is Apply && fixable(surfacing).len() > 0
}

/// Decides what is done about the drift of a project's managed content.
pub fn plan_regeneration(repair: Repair, verify: &Vec<Issue>) -> (plan: Regeneration)
    ensures
        plan == regeneration(repair, verify.deep_view()),
{
    let (can, held): (bool, bool) = kinds_present(verify);
    match repair {
        Repair::Report => Regeneration::Report,
        Repair::Apply => {
            if !can {
                Regeneration::Report
            } else if held {
                Regeneration::Withhold
            } else {
                Regeneration::Regenerate
            }
        },
    }
}

/// Decides whether a project's surfacing is repaired.
pub fn plan_resurfacing(repair: Repair, surfacing: &Vec<Issue>) -> (plan: bool)
    ensures
        plan == resurfaces(repair, surfacing.deep_view()),
{
    let (can, _held): (bool, bool) = kinds_present(surfacing);
    match repair {
        Repair::Report => false,
        Repair::Apply => can,
    }
}

/// Whether any issue can be settled by a repair, and whether any cannot.
fn kinds_present(issues: &Vec<Issue>) -> (present: (bool, bool))
    ensures
        present.0 == (fixable(issues.deep_view()).len() > 0),
        present.1 == (user_held(issues.deep_view()).len() > 0),
{
    let ghost all = issues.deep_view();
    let ghost f = |i: IssueView| i.safe_to_fix;
    let ghost g = |i: IssueView| !i.safe_to_fix;
    let mut can: bool = false;
    let mut held: bool = false;
    let mut i: usize = 0;
    proof {
        reveal(Seq::filter);
    }
    assert(all.take(0).filter(f).len() == 0);
    assert(all.take(0).filter(g).len() == 0);
    while i < issues.len()
        invariant
            0 <= i <= issues.len(),
            all == issues.deep_view(),
            f == (|i: IssueView| i.safe_to_fix),
            g == (|i: IssueView| !i.safe_to_fix),
            can == (all.take(i as int).filter(f).len() > 0),
            held == (all.take(i as int).filter(g).len() > 0),
        decreases issues.len() - i,
    {
        proof {
            assert(all[i as int] == issues@[i as int].deep_view());
            assert(all.take(i as int + 1) =~= all.take(i as int).push(all[i as int]));
            all.take(i as int).lemma_filter_push(all[i as int], f);
            all.take(i as int).lemma_filter_push(all[i as int], g);
        }
        if issues[i].safe_to_fix {
            can = true;
        } else {
            held = true;
        }
        i = i + 1;
    }
    assert(all.take(i as int) =~= all);
    (can, held)
}

/// What the integrations say of a project, and what came of the repairs that
/// were called for.
#[derive(Debug)]
pub struct ProjectIssues {
    pub project: ProjectName,
    pub repair: Repair,
    pub output_dir: PathText,
    pub checks: Vec<Issue>,
    pub disabled: Vec<DisabledArtifacts>,
    pub verify: Vec<Issue>,
    /// What came of the regeneration, where there was one.
    pub regenerated: Option<Result<(), String>>,
    pub incompatibilities: Vec<Issue>,
    pub surfacing: Vec<Issue>,
    /// What came of the re-surfacing, where there was one.
    pub resurfaced: Option<Result<(), String>>,
}

/// Whether the repairs that were carried out are those that were called for.
pub open spec fn repairs_match(p: ProjectIssues) -> bool {
    &&& p.regenerated is Some <==> regeneration(p.repair, p.verify.deep_view()) is Regenerate
    &&& p.resurfaced is Some <==> resurfaces(p.repair, p.surfacing.deep_view())
}

/// What the drift of a project's managed content leaves to report.
pub open spec fn drift_issues(p: ProjectIssues) -> Seq<IssueView> {
    match regeneration(p.repair, p.verify.deep_view()) {
        Regeneration::Report => fixable(p.verify.deep_view()),
        Regeneration::Withhold => seq![
            core_issue(Severity::Warning, withheld_text(p.project@), false),
        ] + fixable(p.verify.deep_view()),
        Regeneration::Regenerate => match p.regenerated {
            Some(Err(e)) => seq![
                core_issue(Severity::Error, unregenerated_text(p.project@, e@), true),
            ],
            _ => Seq::empty(),
        },
    }
}

/// What a project's surfacing leaves to report.
pub open spec fn surfacing_issues(p: ProjectIssues) -> Seq<IssueView> {
    if resurfaces(p.repair, p.surfacing.deep_view()) {
        match p.resurfaced {
            Some(Err(e)) => seq![
                core_issue(Severity::Error, unsurfaced_text(p.project@, e@), true),
            ],
            _ => Seq::empty(),
        }
    } else {
        fixable(p.surfacing.deep_view())
    }
}

/// What a project leaves to report, in order.
pub open spec fn project_issues(p: ProjectIssues) -> Seq<IssueView> {
    p.checks.deep_view() + p.disabled@.map_values(disabled_issue(p.project@, p.output_dir@))
        + user_held(p.verify.deep_view()) + drift_issues(p) + p.incompatibilities.deep_view()
        + user_held(p.surfacing.deep_view()) + surfacing_issues(p)
}

/// Whether a repair was carried out and did not fail.
pub open spec fn succeeded(reply: Option<Result<(), String>>) -> bool {
    match reply {
        Some(Ok(_)) => true,
        _ => false,
    }
}

/// What is announced of a project's repairs.
pub open spec fn project_announcements(p: ProjectIssues) -> Seq<Seq<char>> {
    (if regeneration(p.repair, p.verify.deep_view()) is Regenerate && succeeded(p.regenerated) {
        seq![regenerated_text(p.project@)]
    } else {
        Seq::empty()
    }) + (if resurfaces(p.repair, p.surfacing.deep_view()) && succeeded(p.resurfaced) {
        seq![resurfaced_text(p.project@)]
    } else {
        Seq::empty()
    })
}

fn extend_issues(issues: &mut Vec<Issue>, more: Vec<Issue>)
    ensures
        final(issues).deep_view() == old(issues).deep_view() + more.deep_view(),
{
    let ghost mv = more.deep_view();
    let mut rest: Vec<Issue> = more;
    issues.append(&mut rest);
    assert(issues.deep_view() =~= old(issues).deep_view() + mv);
}

fn push_issue(issues: &mut Vec<Issue>, issue: Issue)
    ensures
        final(issues).deep_view() == old(issues).deep_view() + seq![issue.deep_view()],
{
    issues.push(issue);
    assert(issues.deep_view() =~= old(issues).deep_view() + seq![issue.deep_view()]);
}

/// Adds what a project leaves to report, and says what is announced of its
/// repairs. What the operator holds is reported in any case; what a repair
/// settled is not.
pub fn collect_doctor_issues(issues: &mut Vec<Issue>, p: ProjectIssues) -> (told: Vec<String>)
    requires
        repairs_match(p),
    ensures
        final(issues).deep_view() == old(issues).deep_view() + project_issues(p),
        told.deep_view() == project_announcements(p),
{
    let ghost given = p;
    let ghost start = issues.deep_view();
    let plan: Regeneration = plan_regeneration(p.repair, &p.verify);
    let resurface: bool = plan_resurfacing(p.repair, &p.surfacing);
    let mut told: Vec<String> = Vec::new();
    let ProjectIssues {
        project,
        repair: _,
        output_dir,
        checks,
        disabled,
        verify,
        regenerated,
        incompatibilities,
        surfacing,
        resurfaced,
    } = p;
    extend_issues(issues, checks);
    extend_issues(issues, disabled_integration_issues(&project, &output_dir, &disabled));
    let (can, held): (Vec<Issue>, Vec<Issue>) = part_issues(verify);
    extend_issues(issues, held);
    let ghost before = issues.deep_view();
    match plan {
        Regeneration::Report => extend_issues(issues, can),
        Regeneration::Withhold => {
            push_issue(issues, Issue::from_core(Severity::Warning, withheld(&project), false));
            extend_issues(issues, can);
        },
        Regeneration::Regenerate => match &regenerated {
            Some(Err(e)) => push_issue(
                issues,
                Issue::from_core(Severity::Error, unregenerated(&project, e), true),
            ),
            _ => {
                let line: String = regenerated_line(&project);
                told.push(line);
            },
        },
    }
    assert(issues.deep_view() =~= before + drift_issues(given));
    extend_issues(issues, incompatibilities);
    let (surf_can, surf_held): (Vec<Issue>, Vec<Issue>) = part_issues(surfacing);
    extend_issues(issues, surf_held);
    let ghost last = issues.deep_view();
    if resurface {
        match &resurfaced {
            Some(Err(e)) => push_issue(
                issues,
                Issue::from_core(Severity::Error, unsurfaced(&project, e), true),
            ),
            _ => {
                let line: String = resurfaced_line(&project);
                told.push(line);
            },
        }
    } else {
        extend_issues(issues, surf_can);
    }
    assert(issues.deep_view() =~= last + surfacing_issues(given));
    assert(issues.deep_view() =~= start + project_issues(given));
    assert(told.deep_view() =~= project_announcements(given));
    told
}

/// A regeneration never settles content the operator holds: where any of a
/// project's managed content is held, nothing of the project is regenerated.
pub proof fn held_content_withholds_regeneration(p: ProjectIssues)
    requires
        repairs_match(p),
        user_held(p.verify.deep_view()).len() > 0,
    ensures
        p.regenerated is None,
{
}

proof fn filtered_are_members(s: Seq<IssueView>, keep: spec_fn(IssueView) -> bool, i: int)
    requires
        0 <= i < s.filter(keep).len(),
    ensures
        s.contains(s.filter(keep)[i]),
        keep(s.filter(keep)[i]),
    decreases s.len(),
{
    reveal(Seq::filter);
    let init = s.drop_last();
    if i < init.filter(keep).len() {
        filtered_are_members(init, keep, i);
        let k = choose|k: int| 0 <= k < init.len() && init[k] == init.filter(keep)[i];
        assert(s[k] == init[k]);
    } else {
        assert(s[s.len() - 1] == s.filter(keep)[i]);
    }
}

/// Whether no issue is a finding of the core checks.
pub open spec fn no_core(issues: Seq<IssueView>) -> bool {
    forall|i: int| 0 <= i < issues.len() ==> !((#[trigger] issues[i]).kind is CoreFinding)
}

/// A run that only reports raises no issue of the core checks on this channel,
/// so that issues and findings can be told apart on the wire.
pub proof fn reporting_raises_no_core_issues(p: ProjectIssues)
    requires
        p.repair is Report,
        no_core(p.checks.deep_view()),
        no_core(p.verify.deep_view()),
        no_core(p.incompatibilities.deep_view()),
        no_core(p.surfacing.deep_view()),
    ensures
        no_core(project_issues(p)),
{
    let f = |i: IssueView| i.safe_to_fix;
    let g = |i: IssueView| !i.safe_to_fix;
    let verify = p.verify.deep_view();
    let surfacing = p.surfacing.deep_view();
    assert forall|i: int| 0 <= i < verify.filter(f).len() implies !((#[trigger] verify.filter(
        f,
    )[i]).kind is CoreFinding) by {
        filtered_are_members(verify, f, i);
    }
    assert forall|i: int| 0 <= i < verify.filter(g).len() implies !((#[trigger] verify.filter(
        g,
    )[i]).kind is CoreFinding) by {
        filtered_are_members(verify, g, i);
    }
    assert forall|i: int| 0 <= i < surfacing.filter(f).len() implies !((#[trigger] surfacing.filter(
        f,
    )[i]).kind is CoreFinding) by {
        filtered_are_members(surfacing, f, i);
    }
    assert forall|i: int| 0 <= i < surfacing.filter(g).len() implies !((#[trigger] surfacing.filter(
        g,
    )[i]).kind is CoreFinding) by {
        filtered_are_members(surfacing, g, i);
    }
}

/// Reports the stale generated files, behind everything else.
pub fn push_stale_generations(issues: &mut Vec<Issue>, findings: &Vec<StaleGeneration>)
    ensures
        final(issues).deep_view() == old(issues).deep_view() + findings@.map_values(
            |s: StaleGeneration| stale_issue(s),
        ),
{
    let ghost f = |s: StaleGeneration| stale_issue(s);
    let ghost start = issues.deep_view();
    let mut i: usize = 0;
    assert(start + findings@.take(0).map_values(f) =~= start);
    while i < findings.len()
        invariant
            0 <= i <= findings.len(),
            f == (|s: StaleGeneration| stale_issue(s)),
            issues.deep_view() == start + findings@.take(i as int).map_values(f),
        decreases findings.len() - i,
    {
        let ghost prior = issues.deep_view();
        proof {
            assert(findings@.take(i as int + 1).map_values(f) =~= findings@.take(
                i as int,
            ).map_values(f).push(f(findings@[i as int])));
        }
        issues.push(stale_generation_issue(&findings[i]));
        assert(issues.deep_view() =~= prior.push(f(findings@[i as int])));
        i = i + 1;
    }
    assert(findings@.take(i as int) =~= findings@);
}

/// The findings of the kinds a filter names; all of them without a filter.
pub open spec fn admitted(vs: Seq<CheckViolationView>, filter: Option<Set<Seq<char>>>) -> Seq<
    CheckViolationView,
> {
    match filter {
        Some(names) => vs.filter(|v: CheckViolationView| names.contains(kind_of(v))),
        None => vs,
    }
}

/// The kinds a filter names.
pub open spec fn filter_names(filter: Option<&KindFilter>) -> Option<Set<Seq<char>>> {
    match filter {
        Some(f) => Some(f.names()),
        None => None,
    }
}

/// Keeps the findings of the kinds a filter names.
fn narrow(violations: Vec<CheckViolation>, filter: &KindFilter) -> (kept: Vec<CheckViolation>)
    ensures
        kept.deep_view() == admitted(violations.deep_view(), Some(filter.names())),
{
    let ghost all = violations.deep_view();
    let ghost names = filter.names();
    let ghost keep = |v: CheckViolationView| names.contains(kind_of(v));
    let mut kept: Vec<CheckViolation> = Vec::new();
    assert(kept.deep_view() =~= all.take(0).filter(keep)) by {
        reveal(Seq::filter);
    }
    for v in it: violations
        invariant
            it.seq() == violations@,
            all == violations.deep_view(),
            names == filter.names(),
            keep == (|v: CheckViolationView| names.contains(kind_of(v))),
            kept.deep_view() == all.take(it.index() as int).filter(keep),
    {
        let ghost i = it.index() as int;
        let ghost prior = kept.deep_view();
        proof {
            assert(all[i] == v.deep_view());
            assert(all.take(i + 1) =~= all.take(i).push(all[i]));
            all.take(i).lemma_filter_push(all[i], keep);
        }
        if filter.admits(&v) {
            kept.push(v);
            assert(kept.deep_view() =~= prior.push(all[i]));
        }
    }
    assert(all.take(all.len() as int) =~= all);
    kept
}

/// The issues the findings become. A filter shows each finding on its own;
/// without one the counted classes are one line each.
pub open spec fn finding_issues(vs: Seq<CheckViolationView>, filter: Option<Set<Seq<char>>>) -> Seq<
    IssueView,
> {
    if filter is Some {
        itemized_all(admitted(vs, filter))
    } else {
        itemized_rest(vs) + class_lines(vs)
    }
}

/// The issues the errors of the repairs become.
pub open spec fn error_issues(errors: Seq<Seq<char>>) -> Seq<IssueView> {
    errors.map_values(|e: Seq<char>| core_issue(Severity::Error, e, true))
}

/// Everything a run reports, in order. The integrations' issues are of no
/// kind, so a filter leaves them out.
pub open spec fn report_issues(
    vs: Seq<CheckViolationView>,
    errors: Seq<Seq<char>>,
    issues: Seq<IssueView>,
    filter: Option<Set<Seq<char>>>,
) -> Seq<IssueView> {
    finding_issues(vs, filter) + error_issues(errors) + (if filter is None {
        issues
    } else {
        Seq::empty()
    })
}

/// The line an issue is printed as.
pub open spec fn issue_line() -> spec_fn(IssueView) -> Seq<char> {
    |i: IssueView|
        match i.severity {
            Severity::Warning => warning_line_text(i.integration, i.message),
            Severity::Error => error_line_text(i.integration, i.message),
        }
}

/// Whether any issue is an error.
pub open spec fn any_error(issues: Seq<IssueView>) -> bool {
    exists|i: int| 0 <= i < issues.len() && (#[trigger] issues[i]).severity is Error
}

/// Whether none of the findings is one rwv could repair.
pub open spec fn all_report_only(vs: Seq<CheckViolationView>) -> bool {
    forall|i: int|
        0 <= i < vs.len() ==> !repaired_unasked(#[trigger] vs[i]) && consent_flag(vs[i]) is None
}

/// What a run prints, whether it failed, and whether it proved the weave clean.
#[derive(Debug)]
pub struct RunReport {
    pub lines: Vec<String>,
    pub has_errors: bool,
    /// Whether the run is recorded as a clean one.
    pub records_floor: bool,
}

fn only_reported(violations: &Vec<CheckViolation>) -> (only: bool)
    ensures
        only == all_report_only(violations.deep_view()),
{
    let mut i: usize = 0;
    while i < violations.len()
        invariant
            0 <= i <= violations.len(),
            forall|k: int|
                0 <= k < i ==> !repaired_unasked(#[trigger] violations.deep_view()[k])
                    && consent_flag(violations.deep_view()[k]) is None,
        decreases violations.len() - i,
    {
        assert(violations.deep_view()[i as int] == violations@[i as int].deep_view());
        match violations[i].fix_disposition() {
            FixDisposition::ReportOnly => {},
            _ => {
                return false;
            },
        }
        i = i + 1;
    }
    true
}

fn push_errors(issues: &mut Vec<Issue>, errors: Vec<String>)
    ensures
        final(issues).deep_view() == old(issues).deep_view() + error_issues(errors.deep_view()),
{
    let ghost all = errors.deep_view();
    let ghost f = |e: Seq<char>| core_issue(Severity::Error, e, true);
    let ghost start = issues.deep_view();
    assert(start + all.take(0).map_values(f) =~= start);
    for e in it: errors
        invariant
            it.seq() == errors@,
            all == errors.deep_view(),
            f == (|e: Seq<char>| core_issue(Severity::Error, e, true)),
            issues.deep_view() == start + all.take(it.index() as int).map_values(f),
    {
        let ghost i = it.index() as int;
        let ghost prior = issues.deep_view();
        proof {
            assert(all[i] == e@);
            assert(all.take(i + 1).map_values(f) =~= all.take(i).map_values(f).push(f(all[i])));
        }
        issues.push(Issue::from_core(Severity::Error, e, true));
        assert(issues.deep_view() =~= prior.push(f(all[i])));
    }
    assert(all.take(all.len() as int) =~= all);
}

/// Words the lines of a report, and says whether any is an error.
fn print_lines(issues: &Vec<Issue>) -> (printed: (Vec<String>, bool))
    ensures
        printed.0.deep_view() == issues.deep_view().map_values(issue_line()),
        printed.1 == any_error(issues.deep_view()),
{
    let ghost f = issue_line();
    let mut lines: Vec<String> = Vec::new();
    let mut failed: bool = false;
    let mut i: usize = 0;
    while i < issues.len()
        invariant
            0 <= i <= issues.len(),
            f == issue_line(),
            lines@.len() == i,
            forall|k: int| 0 <= k < i ==> (#[trigger] lines@[k])@ == f(issues.deep_view()[k]),
            failed == exists|k: int|
                0 <= k < i && (#[trigger] issues.deep_view()[k]).severity is Error,
        decreases issues.len() - i,
    {
        let issue: &Issue = &issues[i];
        assert(issues.deep_view()[i as int] == issue.deep_view());
        let line: String = match issue.severity {
            Severity::Warning => warning_line(&issue.integration, &issue.message),
            Severity::Error => {
                failed = true;
                error_line(&issue.integration, &issue.message)
            },
        };
        lines.push(line);
        i = i + 1;
    }
    assert(lines.deep_view() =~= issues.deep_view().map_values(f));
    (lines, failed)
}

/// What a run is made of.
#[derive(Debug, Clone, Copy, PartialEq, Eq, Structural)]
pub enum RunStage {
    /// Refuse a weave that this version can no longer bring up to date.
    EnforceFloor,
    /// Repair what keeps the workspace from being read.
    PreludeRepairs,
    LoadWorld,
    WorkspaceRepairs,
    Collect,
    FindingRepairs,
    Report,
}

/// The stages of a run, in order.
pub open spec fn run_stages(fix: bool) -> Seq<RunStage> {
    if fix {
        seq![
            RunStage::EnforceFloor,
            RunStage::PreludeRepairs,
            RunStage::LoadWorld,
            RunStage::WorkspaceRepairs,
            RunStage::Collect,
            RunStage::FindingRepairs,
            RunStage::Report,
        ]
    } else {
        seq![RunStage::EnforceFloor, RunStage::LoadWorld, RunStage::Collect, RunStage::Report]
    }
}

/// Lists the stages of a run.
pub fn plan_run(fix: bool) -> (stages: Vec<RunStage>)
    ensures
        stages@ == run_stages(fix),
{
    let mut stages: Vec<RunStage> = Vec::new();
    stages.push(RunStage::EnforceFloor);
    if fix {
        stages.push(RunStage::PreludeRepairs);
    }
    stages.push(RunStage::LoadWorld);
    if fix {
        stages.push(RunStage::WorkspaceRepairs);
    }
    stages.push(RunStage::Collect);
    if fix {
        stages.push(RunStage::FindingRepairs);
    }
    stages.push(RunStage::Report);
    assert(stages@ =~= run_stages(fix));
    stages
}

/// The workspace is repaired before findings are collected, and the findings
/// before they are reported: what a run repaired, it does not report.
pub proof fn repairs_come_before_the_report(i: int, j: int)
    requires
        0 <= i < run_stages(true).len(),
        0 <= j < run_stages(true).len(),
    ensures
        run_stages(true)[i] is PreludeRepairs && run_stages(true)[j] is LoadWorld ==> i < j,
        run_stages(true)[i] is WorkspaceRepairs && run_stages(true)[j] is Collect ==> i < j,
        run_stages(true)[i] is FindingRepairs && run_stages(true)[j] is Report ==> i < j,
{
}

/// A run without `--fix` repairs nothing.
pub proof fn nothing_is_repaired_unasked(i: int)
    requires
        0 <= i < run_stages(false).len(),
    ensures
        !(run_stages(false)[i] is PreludeRepairs),
        !(run_stages(false)[i] is WorkspaceRepairs),
        !(run_stages(false)[i] is FindingRepairs),
{
}

/// Reports a run. It fails where anything reported is an error. It is recorded
/// as clean only where it looked at everything, nothing is left that rwv could
/// repair, and nothing is an error.
pub fn run_check(
    violations: Vec<CheckViolation>,
    fix_errors: Vec<String>,
    issues: Vec<Issue>,
    kind_filter: Option<&KindFilter>,
    scope_all: bool,
) -> (report: RunReport)
    ensures
        report.lines.deep_view() == report_issues(
            violations.deep_view(),
            fix_errors.deep_view(),
            issues.deep_view(),
            filter_names(kind_filter),
        ).map_values(issue_line()),
        report.has_errors == any_error(
            report_issues(
                violations.deep_view(),
                fix_errors.deep_view(),
                issues.deep_view(),
                filter_names(kind_filter),
            ),
        ),
        report.records_floor == (scope_all && kind_filter is None && all_report_only(
            violations.deep_view(),
        ) && !report.has_errors),
{
    let ghost vs = violations.deep_view();
    let reported_only: bool = only_reported(&violations);
    let mut all: Vec<Issue> = match kind_filter {
        Some(filter) => itemized_violations_to_issues(narrow(violations, filter)),
        None => violations_to_issues(violations),
    };
    push_errors(&mut all, fix_errors);
    let unfiltered: bool = kind_filter.is_none();
    let ghost before = all.deep_view();
    if unfiltered {
        extend_issues(&mut all, issues);
    } else {
        assert(before + Seq::<IssueView>::empty() =~= before);
    }
    let (lines, has_errors): (Vec<String>, bool) = print_lines(&all);
    RunReport {
        lines,
        has_errors,
        records_floor: scope_all && unfiltered && reported_only && !has_errors,
    }
}

/// Where something the weave could still repair is left, a run is not recorded
/// as a clean one, and neither is one that looked at a part only.
pub proof fn floor_needs_a_clean_full_run(
    vs: Seq<CheckViolationView>,
    i: int,
    scope_all: bool,
    unfiltered: bool,
    has_errors: bool,
)
    requires
        0 <= i < vs.len(),
        repaired_unasked(vs[i]) || consent_flag(vs[i]) is Some,
    ensures
        !(scope_all && unfiltered && all_report_only(vs) && !has_errors),
{
}

fn make_advisories(findings: &Vec<StaleGeneration>) -> (advisories: Vec<AdvisoryOutput>)
    ensures
        advisories.deep_view() == findings@.map_values(|s: StaleGeneration| stale_advisory(s)),
{
    let ghost f = |s: StaleGeneration| stale_advisory(s);
    let mut advisories: Vec<AdvisoryOutput> = Vec::new();
    let mut i: usize = 0;
    while i < findings.len()
        invariant
            0 <= i <= findings.len(),
            f == (|s: StaleGeneration| stale_advisory(s)),
            advisories@.len() == i,
            forall|k: int| 0 <= k < i ==> (#[trigger] advisories@[k]).deep_view() == f(findings@[k]),
        decreases findings.len() - i,
    {
        advisories.push(stale_generation_advisory(&findings[i]));
        i = i + 1;
    }
    assert(advisories.deep_view() =~= findings@.map_values(f));
    advisories
}

/// What surrounds the findings on the wire.
#[derive(Debug)]
pub struct JsonFrame {
    pub schema_url: String,
    pub workspace_dir: PathText,
    pub workweave_dirs: Vec<(WorkweaveName, PathText)>,
    pub resolution: Option<Resolution>,
    pub plugins: Vec<PluginRecord>,
    pub stale: Vec<StaleGeneration>,
}

/// Builds the document of a run and says whether it failed: where it holds any
/// finding, or any issue that is an error. A filter keeps some of the findings
/// as they are and leaves the issues out.
pub fn run_check_json(
    violations: Vec<CheckViolation>,
    issues: Vec<Issue>,
    kind_filter: Option<&KindFilter>,
    frame: JsonFrame,
) -> (result: (DoctorJsonOutput, bool))
    ensures
        result.0.schema_url@ == frame.schema_url@,
        result.0.violations.deep_view() == admitted(
            violations.deep_view(),
            filter_names(kind_filter),
        ).map_values(
            |v: CheckViolationView|
                output_of(v, frame.workspace_dir@, frame.workweave_dirs.deep_view()),
        ),
        result.0.issues.deep_view() == (if kind_filter is None {
            issues.deep_view()
        } else {
            Seq::empty()
        }).map_values(|i: IssueView| issue_output(i)),
        result.0.advisories.deep_view() == frame.stale@.map_values(
            |s: StaleGeneration| stale_advisory(s),
        ),
        result.0.plugins == frame.plugins,
        result.0.resolution == frame.resolution,
        result.1 == (admitted(violations.deep_view(), filter_names(kind_filter)).len() > 0 || (
        kind_filter is None && any_error(issues.deep_view()))),
{
    let kept: Vec<CheckViolation> = match kind_filter {
        Some(filter) => narrow(violations, filter),
        None => violations,
    };
    let shown: Vec<Issue> = if kind_filter.is_none() {
        issues
    } else {
        Vec::new()
    };
    proof {
        if kind_filter is Some {
            assert(shown.deep_view() =~= Seq::<IssueView>::empty());
        }
    }
    let (_lines, error): (Vec<String>, bool) = print_lines(&shown);
    let failed: bool = kept.len() > 0 || error;
    let advisories: Vec<AdvisoryOutput> = make_advisories(&frame.stale);
    let document: DoctorJsonOutput = build_doctor_json(
        &frame.schema_url,
        kept,
        shown,
        &frame.workspace_dir,
        &frame.workweave_dirs,
        frame.resolution,
        frame.plugins,
        advisories,
    );
    (document, failed)
}

/// Every issue of a list is fixable or held, never both.
pub proof fn issues_are_parted(issues: Seq<IssueView>, x: IssueView)
    ensures
        fixable(issues).contains(x) <==> issues.contains(x) && x.safe_to_fix,
        user_held(issues).contains(x) <==> issues.contains(x) && !x.safe_to_fix,
{
    let safe = |i: IssueView| i.safe_to_fix;
    let held = |i: IssueView| !i.safe_to_fix;
    if issues.contains(x) {
        let i = choose|i: int| 0 <= i < issues.len() && issues[i] == x;
        if x.safe_to_fix {
            issues.lemma_filter_contains(safe, i);
        } else {
            issues.lemma_filter_contains(held, i);
        }
    }
    if fixable(issues).contains(x) {
        let i = choose|i: int| 0 <= i < fixable(issues).len() && fixable(issues)[i] == x;
        filtered_are_members(issues, safe, i);
    }
    if user_held(issues).contains(x) {
        let i = choose|i: int| 0 <= i < user_held(issues).len() && user_held(issues)[i] == x;
        filtered_are_members(issues, held, i);
    }
}

/// Content is regenerated only on request, where something drifted and nothing
/// that drifted is held for its owner; what is held withholds the rest.
pub proof fn regeneration_is_safe(repair: Repair, verify: Seq<IssueView>)
    ensures
        regeneration(repair, verify) == Regeneration::Regenerate <==> repair is Apply
            && verify.len() > 0 && forall|i: int|
            0 <= i < verify.len() ==> (#[trigger] verify[i]).safe_to_fix,
        regeneration(repair, verify) == Regeneration::Withhold <==> repair is Apply && (exists|
            i: int,
        |
            0 <= i < verify.len() && (#[trigger] verify[i]).safe_to_fix) && exists|i: int|
            0 <= i < verify.len() && !(#[trigger] verify[i]).safe_to_fix,
        resurfaces(repair, verify) <==> repair is Apply && exists|i: int|
            0 <= i < verify.len() && (#[trigger] verify[i]).safe_to_fix,
{
    assert forall|i: int| 0 <= i < verify.len() implies ((#[trigger] verify[i]).safe_to_fix
        ==> fixable(verify).len() > 0) && (!verify[i].safe_to_fix ==> user_held(verify).len()
        > 0) by {
        assert(verify.contains(verify[i]));
        issues_are_parted(verify, verify[i]);
    }
    if fixable(verify).len() > 0 {
        let x = fixable(verify)[0];
        assert(fixable(verify).contains(x));
        issues_are_parted(verify, x);
        let i = choose|i: int| 0 <= i < verify.len() && verify[i] == x;
        assert(verify[i].safe_to_fix);
    }
    if user_held(verify).len() > 0 {
        let x = user_held(verify)[0];
        assert(user_held(verify).contains(x));
        issues_are_parted(verify, x);
        let i = choose|i: int| 0 <= i < verify.len() && verify[i] == x;
        assert(!verify[i].safe_to_fix);
    }
    if verify.len() > 0 {
        assert(verify[0].safe_to_fix ==> fixable(verify).len() > 0);
    }
}

/// No issue of a project is lost: what the checks found is reported, and so is
/// everything that was not repaired.
pub proof fn project_issues_are_reported(p: ProjectIssues, x: IssueView)
    requires
        repairs_match(p),
    ensures
        p.checks.deep_view().contains(x) || p.incompatibilities.deep_view().contains(x)
            ==> project_issues(p).contains(x),
        p.verify.deep_view().contains(x) && p.regenerated is None ==> project_issues(p).contains(x),
        p.surfacing.deep_view().contains(x) && p.resurfaced is None ==> project_issues(
            p,
        ).contains(x),
        !x.safe_to_fix && (p.verify.deep_view().contains(x) || p.surfacing.deep_view().contains(x))
            ==> project_issues(p).contains(x),
        forall|i: int|
            0 <= i < p.disabled@.len() ==> project_issues(p).contains(
                disabled_issue(p.project@, p.output_dir@)(#[trigger] p.disabled@[i]),
            ),
{
    let disabled = p.disabled@.map_values(disabled_issue(p.project@, p.output_dir@));
    assert forall|y: IssueView|
        #[trigger] project_issues(p).contains(y) <==> p.checks.deep_view().contains(y)
            || disabled.contains(y) || user_held(p.verify.deep_view()).contains(y) || drift_issues(
            p,
        ).contains(y) || p.incompatibilities.deep_view().contains(y) || user_held(
            p.surfacing.deep_view(),
        ).contains(y) || surfacing_issues(p).contains(y) by {
        project_parts(p, y);
    }
    issues_are_parted(p.verify.deep_view(), x);
    issues_are_parted(p.surfacing.deep_view(), x);
    joined_lists_contain(
        seq![core_issue(Severity::Warning, withheld_text(p.project@), false)],
        fixable(p.verify.deep_view()),
        x,
    );
    assert forall|i: int| 0 <= i < p.disabled@.len() implies project_issues(p).contains(
        disabled_issue(p.project@, p.output_dir@)(#[trigger] p.disabled@[i]),
    ) by {
        assert(disabled[i] == disabled_issue(p.project@, p.output_dir@)(p.disabled@[i]));
        assert(disabled.contains(disabled[i]));
    }
}

proof fn project_parts(p: ProjectIssues, y: IssueView)
    ensures
        project_issues(p).contains(y) <==> p.checks.deep_view().contains(y)
            || p.disabled@.map_values(disabled_issue(p.project@, p.output_dir@)).contains(y)
            || user_held(p.verify.deep_view()).contains(y) || drift_issues(p).contains(y)
            || p.incompatibilities.deep_view().contains(y) || user_held(
            p.surfacing.deep_view(),
        ).contains(y) || surfacing_issues(p).contains(y),
{
    let a = p.checks.deep_view();
    let b = p.disabled@.map_values(disabled_issue(p.project@, p.output_dir@));
    let c = user_held(p.verify.deep_view());
    let d = drift_issues(p);
    let e = p.incompatibilities.deep_view();
    let f = user_held(p.surfacing.deep_view());
    let g = surfacing_issues(p);
    joined_lists_contain(a, b, y);
    joined_lists_contain(a + b, c, y);
    joined_lists_contain(a + b + c, d, y);
    joined_lists_contain(a + b + c + d, e, y);
    joined_lists_contain(a + b + c + d + e, f, y);
    joined_lists_contain(a + b + c + d + e + f, g, y);
}

/// A repair that failed is an error, and one that was done is announced and
/// leaves no issue behind.
pub proof fn failed_repairs_are_errors(p: ProjectIssues)
    requires
        repairs_match(p),
    ensures
        p.regenerated matches Some(Err(_)) ==> any_error(drift_issues(p)),
        p.regenerated matches Some(Ok(_)) ==> drift_issues(p).len() == 0
            && project_announcements(p).contains(regenerated_text(p.project@)),
        p.resurfaced matches Some(Err(_)) ==> any_error(surfacing_issues(p)),
        p.resurfaced matches Some(Ok(_)) ==> surfacing_issues(p).len() == 0
            && project_announcements(p).contains(resurfaced_text(p.project@)),
        !succeeded(p.regenerated) && !succeeded(p.resurfaced) ==> project_announcements(p).len()
            == 0,
{
    if p.regenerated matches Some(Err(_)) {
        assert(drift_issues(p)[0].severity is Error);
    }
    if p.resurfaced matches Some(Err(_)) {
        assert(surfacing_issues(p)[0].severity is Error);
    }
    if p.regenerated matches Some(Ok(_)) {
        assert(project_announcements(p)[0] == regenerated_text(p.project@));
    }
    if p.resurfaced matches Some(Ok(_)) {
        assert(project_announcements(p).last() == resurfaced_text(p.project@));
    }
}

/// A filter keeps the findings of the kinds it names, and no others; without
/// one every finding is kept.
pub proof fn filters_keep_their_kinds(
    vs: Seq<CheckViolationView>,
    filter: Option<Set<Seq<char>>>,
    v: CheckViolationView,
)
    ensures
        admitted(vs, filter).contains(v) <==> vs.contains(v) && (filter matches Some(names)
            ==> names.contains(kind_of(v))),
{
    if let Some(names) = filter {
        let keep = |v: CheckViolationView| names.contains(kind_of(v));
        if vs.contains(v) && names.contains(kind_of(v)) {
            let i = choose|i: int| 0 <= i < vs.len() && vs[i] == v;
            vs.lemma_filter_contains(keep, i);
        }
        if admitted(vs, filter).contains(v) {
            vs.lemma_filter_contains_rev(keep, v);
            let k = choose|k: int| 0 <= k < vs.filter(keep).len() && vs.filter(keep)[k] == v;
            vs.lemma_filter_pred(keep, k);
        }
    }
}

/// A run fails exactly where one of its findings is an error, a repair failed,
/// or, without a filter, an integration raised an error.
pub proof fn runs_fail_on_errors(
    vs: Seq<CheckViolationView>,
    errors: Seq<Seq<char>>,
    issues: Seq<IssueView>,
    filter: Option<Set<Seq<char>>>,
)
    ensures
        any_error(report_issues(vs, errors, issues, filter)) <==> {
            ||| errors.len() > 0
            ||| filter is None && any_error(issues)
            ||| exists|v: CheckViolationView|
                #[trigger] vs.contains(v) && finding_severity(v) == Severity::Error && (
                filter matches Some(names) ==> names.contains(kind_of(v)))
        },
{
    let found = finding_issues(vs, filter);
    let told = error_issues(errors);
    let rest = if filter is None {
        issues
    } else {
        Seq::empty()
    };
    errors_of_parts(found, told);
    errors_of_parts(found + told, rest);
    if errors.len() > 0 {
        assert(told[0].severity is Error);
    }
    if filter is None {
        rest_errors(vs);
        class_lines_are_warnings(vs);
        errors_of_parts(itemized_rest(vs), class_lines(vs));
    } else {
        let kept = admitted(vs, filter);
        all_errors(kept);
        assert forall|v: CheckViolationView| #[trigger] kept.contains(v) <==> vs.contains(v) && (
        filter matches Some(names) ==> names.contains(kind_of(v))) by {
            filters_keep_their_kinds(vs, filter, v);
        }
        assert forall|v: CheckViolationView|
            #[trigger] vs.contains(v) && finding_severity(v) == Severity::Error && (
            filter matches Some(names) ==> names.contains(kind_of(v))) implies any_error(found) by {
            assert(kept.contains(v));
        }
    }
}

proof fn errors_of_parts(a: Seq<IssueView>, b: Seq<IssueView>)
    ensures
        any_error(a + b) <==> any_error(a) || any_error(b),
{
    if any_error(a) {
        let i = choose|i: int| 0 <= i < a.len() && (#[trigger] a[i]).severity is Error;
        assert((a + b)[i].severity is Error);
    }
    if any_error(b) {
        let i = choose|i: int| 0 <= i < b.len() && (#[trigger] b[i]).severity is Error;
        assert((a + b)[a.len() + i].severity is Error);
    }
    if any_error(a + b) {
        let i = choose|i: int| 0 <= i < (a + b).len() && (#[trigger] (a + b)[i]).severity is Error;
        if i < a.len() {
            assert(a[i].severity is Error);
        } else {
            assert(b[i - a.len()].severity is Error);
        }
    }
}

proof fn all_errors(vs: Seq<CheckViolationView>)
    ensures
        any_error(itemized_all(vs)) <==> exists|v: CheckViolationView|
            #[trigger] vs.contains(v) && finding_severity(v) == Severity::Error,
{
    let f = |v: CheckViolationView| itemized(v);
    let all = itemized_all(vs);
    if any_error(all) {
        let k = choose|k: int| 0 <= k < all.len() && (#[trigger] all[k]).severity is Error;
        let i = flat_map_member(vs, f, k);
        assert(vs.contains(vs[i]));
    }
    if exists|v: CheckViolationView|
        #[trigger] vs.contains(v) && finding_severity(v) == Severity::Error {
        let v = choose|v: CheckViolationView|
            #[trigger] vs.contains(v) && finding_severity(v) == Severity::Error;
        let i = choose|i: int| 0 <= i < vs.len() && vs[i] == v;
        let x = itemized(v)[0];
        assert(f(vs[i]).contains(x));
        flat_map_holds(vs, f, i, x);
        let k = choose|k: int| 0 <= k < all.len() && all[k] == x;
        assert(all[k].severity is Error);
    }
}

proof fn rest_errors(vs: Seq<CheckViolationView>)
    ensures
        any_error(itemized_rest(vs)) <==> exists|v: CheckViolationView|
            #[trigger] vs.contains(v) && finding_severity(v) == Severity::Error,
{
    let f = |v: CheckViolationView| if class_of(v) is None { itemized(v) } else { Seq::empty() };
    let all = itemized_rest(vs);
    if any_error(all) {
        let k = choose|k: int| 0 <= k < all.len() && (#[trigger] all[k]).severity is Error;
        let i = flat_map_member(vs, f, k);
        assert(vs.contains(vs[i]));
    }
    if exists|v: CheckViolationView|
        #[trigger] vs.contains(v) && finding_severity(v) == Severity::Error {
        let v = choose|v: CheckViolationView|
            #[trigger] vs.contains(v) && finding_severity(v) == Severity::Error;
        let i = choose|i: int| 0 <= i < vs.len() && vs[i] == v;
        let x = itemized(v)[0];
        assert(f(vs[i]).contains(x));
        flat_map_holds(vs, f, i, x);
        let k = choose|k: int| 0 <= k < all.len() && all[k] == x;
        assert(all[k].severity is Error);
    }
}

proof fn class_lines_are_warnings(vs: Seq<CheckViolationView>)
    ensures
        !any_error(class_lines(vs)),
{
    let f = |c: CollapsedClass|
        if class_count(vs, c) > 0 { seq![class_issue(c, class_count(vs, c))] } else { Seq::empty() };
    let all = class_lines(vs);
    assert forall|k: int| 0 <= k < all.len() implies !((#[trigger] all[k]).severity is Error) by {
        let i = flat_map_member(class_order(), f, k);
        assert(f(class_order()[i]).contains(all[k]));
    }
}

/// A printed line says how bad the issue is, and names its integration.
pub proof fn lines_tell_severity(i: IssueView)
    ensures
        i.severity == Severity::Error <==> "[error] "@.is_prefix_of(issue_line()(i)),
        i.severity == Severity::Warning <==> "[warning] "@.is_prefix_of(issue_line()(i)),
        i.message.is_suffix_of(issue_line()(i)),
        issue_line()(i).len() == i.integration.len() + i.message.len() + (if i.severity
            == Severity::Error {
            10int
        } else {
            12
        }),
{
    reveal_strlit("[error] ");
    reveal_strlit("[warning] ");
    reveal_strlit(": ");
    assert("[error] "@[1] != "[warning] "@[1]);
    assert(issue_line()(i)[1] == (if i.severity == Severity::Error {
        'e'
    } else {
        'w'
    }));
}

/// What a stale generation's issue and advisory say of it: the inputs that
/// moved, and that nothing is repaired unasked.
pub proof fn stale_generations_are_told(s: StaleGeneration)
    ensures
        s.generated@.is_prefix_of(stale_issue(s).message),
        stale_issue(s).severity == Severity::Warning,
        !stale_issue(s).safe_to_fix,
        stale_advisory(s).inputs == s.moved_inputs.deep_view(),
{
}

/// An issue names its integration or project, and then what is wrong.
pub proof fn messages_name_their_subjects(
    inputs: Seq<char>,
    generated: Seq<char>,
    cause: Seq<char>,
    path: Seq<char>,
    names: Seq<char>,
    integration: Seq<char>,
    project: Seq<char>,
    described: Seq<char>,
    also: Seq<char>,
    error: Seq<char>,
    message: Seq<char>,
)
    ensures
        tells(moved_inputs_text(inputs), seq![inputs]),
        tells(stale_generation_text(generated, cause), seq![generated].push(cause)),
        tells(generated_file_text(path), seq![path]),
        tells(managed_region_text(path), seq![path]),
        tells(surfaced_as_text(names), seq![names]),
        tells(
            disabled_artifacts_text(integration, project, described, also),
            seq![integration].push(project).push(described).push(also),
        ),
        tells(regenerated_text(project), seq![project]),
        tells(unregenerated_text(project, error), seq![project].push(error)),
        tells(withheld_text(project), seq![project]),
        tells(resurfaced_text(project), seq![project]),
        tells(unsurfaced_text(project, error), seq![project].push(error)),
        tells(warning_line_text(integration, message), seq![integration].push(message)),
        tells(error_line_text(integration, message), seq![integration].push(message)),
{
    broadcast use telling;
}

/// A disabled integration's leftovers are told under its own name, with the
/// project, and each path with whether all of it is generated.
pub proof fn leftovers_are_told_by_integration(
    project: Seq<char>,
    output_dir: Seq<char>,
    d: DisabledArtifacts,
    name: String,
)
    ensures
        disabled_issue(project, output_dir)(d).integration == d.integration@,
        tells(
            disabled_issue(project, output_dir)(d).message,
            seq![d.integration@].push(project).push(
                join_text(d.paths@.map_values(owned_path_text(output_dir)), ", "@),
            ),
        ),
        !disabled_issue(project, output_dir)(d).safe_to_fix,
        disabled_issue(project, output_dir)(d).kind is DisabledIntegrationArtifact,
        tells(
            owned_path_text(output_dir)(OwnedPath::WholeFile { name }),
            seq![joined(output_dir, name@)].push(" (generated file)"@),
        ),
        tells(
            owned_path_text(output_dir)(OwnedPath::MarkedRegion { name }),
            seq![joined(output_dir, name@)].push(" (managed region)"@),
        ),
        d.surfaced@.len() == 0 <==> surfaced_text(d.surfaced.deep_view()).len() == 0,
{
    broadcast use telling;
    reveal_strlit(", surfaced at the weave root as ");
}

/// A stale generation is told with the inputs that moved, unless nothing is
/// recorded of them.
pub proof fn moved_inputs_are_told(s: StaleGeneration)
    ensures
        !s.provenance_unknown ==> tells(
            stale_issue(s).message,
            seq![s.generated@].push(stale_cause(s)),
        ) && tells(stale_cause(s), seq![join_text(s.moved_inputs.deep_view(), ", "@)]),
        s.provenance_unknown ==> stale_cause(s) == unknown_provenance_text(),
        stale_issue(s).kind is DerivedStateStale,
        stale_issue(s).integration == "core"@,
{
    broadcast use telling;
}

} // verus!
