//! The issues a report is made of.

use vstd::prelude::*;
use crate::violation::PathText;

verus! {

/// How serious an issue is. Only an error fails a run.
#[derive(Debug, Clone, Copy, PartialEq, Eq, Structural)]
pub enum Severity {
    Warning,
    Error,
}

/// A managed value the operator holds that some member cannot work with.
#[derive(Debug, Clone)]
pub struct MemberIncompatibility {
    pub path: PathText,
    pub key: String,
    pub on_disk: String,
    pub required: String,
    pub required_by: String,
}

/// Which check an issue came from.
#[derive(Debug, Clone)]
pub enum IssueKind {
    ToolMissing,
    ManagedFileMissing,
    ManagedFileDrift,
    ManagedFileUserHeld,
    Surfacing,
    ConfigRejected,
    MemberIncompatibility(MemberIncompatibility),
    DerivedStateStale,
    DisabledIntegrationArtifact,
    IntegrationFailed,
    CoreFinding,
}

/// One line of the report.
#[derive(Debug, Clone)]
pub struct Issue {
    pub integration: String,
    pub severity: Severity,
    pub message: String,
    pub kind: IssueKind,
    pub safe_to_fix: bool,
}

impl DeepView for Severity {
    type V = Severity;

    open spec fn deep_view(&self) -> Severity {
        *self
    }
}

/// What a [`MemberIncompatibility`] says.
pub struct MemberIncompatibilityView {
    pub path: Seq<char>,
    pub key: Seq<char>,
    pub on_disk: Seq<char>,
    pub required: Seq<char>,
    pub required_by: Seq<char>,
}

impl DeepView for MemberIncompatibility {
    type V = MemberIncompatibilityView;

    open spec fn deep_view(&self) -> MemberIncompatibilityView {
        MemberIncompatibilityView {
            path: self.path@,
            key: self.key@,
            on_disk: self.on_disk@,
            required: self.required@,
            required_by: self.required_by@,
        }
    }
}

/// What a [`IssueKind`] says.
pub enum IssueKindView {
    ToolMissing,
    ManagedFileMissing,
    ManagedFileDrift,
    ManagedFileUserHeld,
    Surfacing,
    ConfigRejected,
    MemberIncompatibility(MemberIncompatibilityView),
    DerivedStateStale,
    DisabledIntegrationArtifact,
    IntegrationFailed,
    CoreFinding,
}

impl DeepView for IssueKind {
    type V = IssueKindView;

    open spec fn deep_view(&self) -> IssueKindView {
        match *self {
            IssueKind::ToolMissing => IssueKindView::ToolMissing,
            IssueKind::ManagedFileMissing => IssueKindView::ManagedFileMissing,
            IssueKind::ManagedFileDrift => IssueKindView::ManagedFileDrift,
            IssueKind::ManagedFileUserHeld => IssueKindView::ManagedFileUserHeld,
            IssueKind::Surfacing => IssueKindView::Surfacing,
            IssueKind::ConfigRejected => IssueKindView::ConfigRejected,
            IssueKind::MemberIncompatibility(x0) => IssueKindView::MemberIncompatibility(x0.deep_view()),
            IssueKind::DerivedStateStale => IssueKindView::DerivedStateStale,
            IssueKind::DisabledIntegrationArtifact => IssueKindView::DisabledIntegrationArtifact,
            IssueKind::IntegrationFailed => IssueKindView::IntegrationFailed,
            IssueKind::CoreFinding => IssueKindView::CoreFinding,
        }
    }
}

/// What a [`Issue`] says.
pub struct IssueView {
    pub integration: Seq<char>,
    pub severity: Severity,
    pub message: Seq<char>,
    pub kind: IssueKindView,
    pub safe_to_fix: bool,
}

impl DeepView for Issue {
    type V = IssueView;

    open spec fn deep_view(&self) -> IssueView {
        IssueView {
            integration: self.integration@,
            severity: self.severity,
            message: self.message@,
            kind: self.kind.deep_view(),
            safe_to_fix: self.safe_to_fix,
        }
    }
}

/// An issue raised by the core checks, as opposed to by an integration.
pub open spec fn core_issue(severity: Severity, message: Seq<char>, safe_to_fix: bool) -> IssueView {
    IssueView {
        integration: "core"@,
        severity,
        message,
        kind: IssueKindView::CoreFinding,
        safe_to_fix,
    }
}

impl Issue {
    /// Makes an issue of the core checks.
    pub fn from_core(severity: Severity, message: String, safe_to_fix: bool) -> (issue: Issue)
        ensures
            issue.deep_view() == core_issue(severity, message@, safe_to_fix),
    {
        Issue {
            integration: "core".to_owned(),
            severity,
            message,
            kind: IssueKind::CoreFinding,
            safe_to_fix,
        }
    }
}

} // verus!
