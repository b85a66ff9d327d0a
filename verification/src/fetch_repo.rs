//! Fetching one repo: cloning it where it is missing, and bringing the clone
//! to the pinned revision where it is there.
//!
//! A fetch is a protocol: a step names the work to be done next, and
//! [`fetch_one`] says which step follows the reply.

use vstd::prelude::*;
use crate::branches::HeadReading;
use crate::model::{first_entries_are_found, lookup, value_of, LockFile, RepoEntry, Role};
use crate::paths::{dir_above, parent_dir};
use crate::text::{join_path, joined, telling, tells};
use crate::violation::{PathText, RepoPath, RevisionId};

verus! {

/// A reference repo that is left out.
pub open spec fn skipping_text(repo: Seq<char>) -> Seq<char> {
    "rwv fetch: skipping "@ + repo + " (role: reference)"@
}

/// Words it: a reference repo that is left out.
fn skipping(repo: &String) -> (text: String)
    ensures
        text@ == skipping_text(repo@),
{
    "rwv fetch: skipping ".to_owned().concat(repo).concat(" (role: reference)")
}

/// A clone that is brought to its pin.
pub open spec fn aligning_text(repo: Seq<char>, version: Seq<char>) -> Seq<char> {
    "rwv fetch: aligning "@ + repo + " to "@ + version
}

/// Words it: a clone that is brought to its pin.
fn aligning(repo: &String, version: &String) -> (text: String)
    ensures
        text@ == aligning_text(repo@, version@),
{
    "rwv fetch: aligning ".to_owned().concat(repo).concat(" to ").concat(version)
}

/// A clone that gets a pin.
pub open spec fn adding_text(repo: Seq<char>) -> Seq<char> {
    "rwv fetch: adding "@ + repo + " to lock at branch HEAD (additive)"@
}

/// Words it: a clone that gets a pin.
fn adding(repo: &String) -> (text: String)
    ensures
        text@ == adding_text(repo@),
{
    "rwv fetch: adding ".to_owned()
        .concat(repo)
        .concat(" to lock at branch HEAD (additive)")
}

/// A clone that is there already.
pub open spec fn present_text(repo: Seq<char>) -> Seq<char> {
    "rwv fetch: skip "@ + repo + " (already exists)"@
}

/// Words it: a clone that is there already.
fn present(repo: &String) -> (text: String)
    ensures
        text@ == present_text(repo@),
{
    "rwv fetch: skip ".to_owned().concat(repo).concat(" (already exists)")
}

/// A repo that is cloned.
pub open spec fn cloning_text(repo: Seq<char>, url: Seq<char>, role: Seq<char>) -> Seq<char> {
    "rwv fetch: cloning "@ + repo + " from "@ + url + " (role: "@ + role + ")"@
}

/// Words it: a repo that is cloned.
fn cloning(repo: &String, url: &String, role: &String) -> (text: String)
    ensures
        text@ == cloning_text(repo@, url@, role@),
{
    "rwv fetch: cloning ".to_owned()
        .concat(repo)
        .concat(" from ")
        .concat(url)
        .concat(" (role: ")
        .concat(role)
        .concat(")")
}

/// A repo that is cloned at its pin.
pub open spec fn cloning_onto_text(repo: Seq<char>, branch: Seq<char>, version: Seq<char>) -> Seq<char> {
    "rwv fetch: cloning "@ + repo + " onto "@ + branch + " at "@ + version
}

/// Words it: a repo that is cloned at its pin.
fn cloning_onto(repo: &String, branch: &String, version: &String) -> (text: String)
    ensures
        text@ == cloning_onto_text(repo@, branch@, version@),
{
    "rwv fetch: cloning ".to_owned()
        .concat(repo)
        .concat(" onto ")
        .concat(branch)
        .concat(" at ")
        .concat(version)
}

/// A repo that was cloned and gets a pin.
pub open spec fn cloned_text(repo: Seq<char>) -> Seq<char> {
    "rwv fetch: cloned "@ + repo + " at branch HEAD (additive — no lock entry)"@
}

/// Words it: a repo that was cloned and gets a pin.
fn cloned(repo: &String) -> (text: String)
    ensures
        text@ == cloned_text(repo@),
{
    "rwv fetch: cloned ".to_owned()
        .concat(repo)
        .concat(" at branch HEAD (additive — no lock entry)")
}

/// A pin that the clone does not know.
pub open spec fn unresolved_text(repo: Seq<char>, version: Seq<char>, error: Seq<char>) -> Seq<char> {
    repo + ": failed to resolve "@ + version + ": "@ + error
}

/// Words it: a pin that the clone does not know.
fn unresolved(repo: &String, version: &String, error: &String) -> (text: String)
    ensures
        text@ == unresolved_text(repo@, version@, error@),
{
    repo.clone().concat(": failed to resolve ").concat(version).concat(": ").concat(error)
}

/// A failure at a repo.
pub open spec fn at_repo_text(repo: Seq<char>, error: Seq<char>) -> Seq<char> {
    repo + ": "@ + error
}

/// Words it: a failure at a repo.
fn at_repo(repo: &String, error: &String) -> (text: String)
    ensures
        text@ == at_repo_text(repo@, error@),
{
    repo.clone().concat(": ").concat(error)
}

/// A declaration that is no branch.
pub open spec fn invalid_branch_text(repo: Seq<char>, version: Seq<char>, error: Seq<char>) -> Seq<char> {
    repo + ": manifest declares an invalid tracking branch '"@ + version + "': "@ + error
}

/// Words it: a declaration that is no branch.
fn invalid_branch(repo: &String, version: &String, error: &String) -> (text: String)
    ensures
        text@ == invalid_branch_text(repo@, version@, error@),
{
    repo.clone()
        .concat(": manifest declares an invalid tracking branch '")
        .concat(version)
        .concat("': ")
        .concat(error)
}

/// A branch without commits.
pub open spec fn unborn_text(repo: Seq<char>, branch: Seq<char>, target: Seq<char>) -> Seq<char> {
    repo
        + ": branch '"@
        + branch
        + "' has no commits yet — rwv fetch has no way to place "@
        + target
        + " on an unborn branch. Make an initial commit, or check out a branch that has one, \
           then re-run."@
}

/// Words it: a branch without commits.
fn unborn(repo: &String, branch: &String, target: &String) -> (text: String)
    ensures
        text@ == unborn_text(repo@, branch@, target@),
{
    repo.clone()
        .concat(": branch '")
        .concat(branch)
        .concat("' has no commits yet — rwv fetch has no way to place ")
        .concat(target)
        .concat(
            " on an unborn branch. Make an initial commit, or check out a branch that has \
             one, then re-run.",
        )
}

/// A checkout on another branch than the declared one.
pub open spec fn other_branch_text(repo: Seq<char>, branch: Seq<char>, local: Seq<char>, target: Seq<char>) -> Seq<char> {
    repo
        + ": is on branch '"@
        + branch
        + "', not the local counterpart ('"@
        + local
        + "') of the branch the manifest declares — rwv fetch moves only that branch, so it will \
           not relocate one it cannot relate to the lock.\n  Switch to '"@
        + local
        + "' and re-run, or re-run with --detach-checkouts to materialize "@
        + target
        + " on a detached HEAD (your branch is not moved)."@
}

/// Words it: a checkout on another branch than the declared one.
fn other_branch(repo: &String, branch: &String, local: &String, target: &String) -> (text: String)
    ensures
        text@ == other_branch_text(repo@, branch@, local@, target@),
{
    repo.clone()
        .concat(": is on branch '")
        .concat(branch)
        .concat("', not the local counterpart ('")
        .concat(local)
        .concat(
            "') of the branch the manifest declares — rwv fetch moves only that branch, so \
             it will not relocate one it cannot relate to the lock.\n  Switch to '",
        )
        .concat(local)
        .concat("' and re-run, or re-run with --detach-checkouts to materialize ")
        .concat(target)
        .concat(" on a detached HEAD (your branch is not moved).")
}

/// A pin the branch cannot be fast-forwarded to.
pub open spec fn not_forward_text(repo: Seq<char>, branch: Seq<char>, target: Seq<char>) -> Seq<char> {
    repo
        + ": aligning '"@
        + branch
        + "' to "@
        + target
        + " is not a fast-forward — the pin is not a descendant of the branch tip, which is what \
           materializing an older lock, or a branch carrying commits origin has not seen, looks \
           like.\n  Reconcile '"@
        + branch
        + "' with the pin yourself (ordinary `git rebase` / `git merge`) and re-run, or re-run \
           with --detach-checkouts to materialize "@
        + target
        + " on a detached HEAD (the branch ref is not moved)."@
}

/// Words it: a pin the branch cannot be fast-forwarded to.
fn not_forward(repo: &String, branch: &String, target: &String) -> (text: String)
    ensures
        text@ == not_forward_text(repo@, branch@, target@),
{
    repo.clone()
        .concat(": aligning '")
        .concat(branch)
        .concat("' to ")
        .concat(target)
        .concat(
            " is not a fast-forward — the pin is not a descendant of the branch tip, which \
             is what materializing an older lock, or a branch carrying commits origin has \
             not seen, looks like.\n  Reconcile '",
        )
        .concat(branch)
        .concat(
            "' with the pin yourself (ordinary `git rebase` / `git merge`) and re-run, or \
             re-run with --detach-checkouts to materialize ",
        )
        .concat(target)
        .concat(" on a detached HEAD (the branch ref is not moved).")
}

/// A directory that could not be made.
pub open spec fn parent_failed_text(repo: Seq<char>, parent: Seq<char>, error: Seq<char>) -> Seq<char> {
    repo + ": failed to create directory "@ + parent + ": "@ + error
}

/// Words it: a directory that could not be made.
fn parent_failed(repo: &String, parent: &String, error: &String) -> (text: String)
    ensures
        text@ == parent_failed_text(repo@, parent@, error@),
{
    repo.clone()
        .concat(": failed to create directory ")
        .concat(parent)
        .concat(": ")
        .concat(error)
}

/// A repo that could not be cloned at its pin.
pub open spec fn materialize_failed_text(repo: Seq<char>, url: Seq<char>, version: Seq<char>, error: Seq<char>) -> Seq<char> {
    repo + ": failed to materialize "@ + url + " at "@ + version + ": "@ + error
}

/// Words it: a repo that could not be cloned at its pin.
fn materialize_failed(repo: &String, url: &String, version: &String, error: &String) -> (text: String)
    ensures
        text@ == materialize_failed_text(repo@, url@, version@, error@),
{
    repo.clone()
        .concat(": failed to materialize ")
        .concat(url)
        .concat(" at ")
        .concat(version)
        .concat(": ")
        .concat(error)
}

/// A repo that could not be cloned.
pub open spec fn clone_failed_text(repo: Seq<char>, url: Seq<char>, dest: Seq<char>, error: Seq<char>) -> Seq<char> {
    repo + ": failed to clone "@ + url + " into "@ + dest + ": "@ + error
}

/// Words it: a repo that could not be cloned.
fn clone_failed(repo: &String, url: &String, dest: &String, error: &String) -> (text: String)
    ensures
        text@ == clone_failed_text(repo@, url@, dest@, error@),
{
    repo.clone()
        .concat(": failed to clone ")
        .concat(url)
        .concat(" into ")
        .concat(dest)
        .concat(": ")
        .concat(error)
}

/// What a fetch makes of a repo.
#[derive(Debug)]
pub enum FetchOutcome {
    /// The repo is in place; `add_to_lock` names it where an existing lock
    /// gets a pin for it.
    Ready { add_to_lock: Option<RepoPath> },
    Skipped,
    Failed { msg: String },
}

/// What the lock says of a repo.
#[derive(Debug)]
pub enum PinState {
    /// There is no lock yet.
    NoLock,
    /// The lock does not cover the repo.
    Uncovered,
    Pinned { version: String },
}

/// A repo to be fetched.
#[derive(Debug)]
pub struct FetchJob {
    pub repo_path: RepoPath,
    pub entry: RepoEntry,
    /// Where its clone is or will be.
    pub dest: PathText,
    pub pin: PinState,
    pub no_reference: bool,
    /// Whether the operator consented to detached checkouts.
    pub may_detach: bool,
    /// The local counterpart of the branch the manifest declares, or why the
    /// declaration is no branch.
    pub counterpart: Result<String, String>,
}

/// What a lock says of a repo.
pub open spec fn pin_in(lock: Option<LockFile>, repo: Seq<char>, pin: PinState) -> bool {
    match lock {
        None => pin is NoLock,
        Some(l) => match value_of(l.repositories@, repo) {
            None => pin is Uncovered,
            Some(entry) => pin matches PinState::Pinned { version } && version@ == entry.version@,
        },
    }
}

/// The job of fetching a repo of the workspace at `root`: into its place
/// there, and to the pin that the lock gives it.
pub fn fetch_job(
    root: &PathText,
    repo_path: RepoPath,
    entry: RepoEntry,
    lock: &Option<LockFile>,
    no_reference: bool,
    may_detach: bool,
    counterpart: Result<String, String>,
) -> (job: FetchJob)
    ensures
        job.repo_path == repo_path,
        job.entry == entry,
        job.dest@ == joined(root@, repo_path@),
        pin_in(*lock, repo_path@, job.pin),
        job.no_reference == no_reference,
        job.may_detach == may_detach,
        job.counterpart == counterpart,
{
    let pin: PinState = match lock {
        None => PinState::NoLock,
        Some(l) => match lookup(&l.repositories, &repo_path) {
            None => PinState::Uncovered,
            Some(e) => PinState::Pinned { version: e.version.clone() },
        },
    };
    let dest: PathText = join_path(root, &repo_path);
    FetchJob { repo_path, entry, dest, pin, no_reference, may_detach, counterpart }
}

/// The next step of a fetch.
#[derive(Debug)]
pub enum FetchStep {
    /// Resolve the pin in the clone.
    ResolvePin { version: String },
    /// See what HEAD is attached to.
    ReadHead { target: RevisionId },
    /// Move the detached HEAD.
    AdvanceDetached { target: RevisionId },
    /// See where the branch is.
    ReadRevision { branch: String, target: RevisionId },
    /// Ask whether the target carries the branch.
    CheckAncestor { branch: String, head: RevisionId, target: RevisionId },
    /// Fast-forward the branch.
    AdvanceBranch { branch: String, target: RevisionId },
    /// Put the target on a detached HEAD; no branch is moved.
    Detach { target: RevisionId },
    /// Make the directory the clone goes into.
    CreateParent { parent: PathText },
    /// Clone onto a branch at the pin, in one operation.
    CloneAt { branch: String, version: String },
    /// Clone at the branch's tip.
    Clone,
    Finished { outcome: FetchOutcome },
}

/// What the outside answered to a step.
#[derive(Debug)]
pub enum FetchReply {
    Done,
    Failed { error: String },
    Revision { at: RevisionId },
    Head { head: HeadReading },
    Answer { yes: bool },
}

/// Whether a reply answers a step.
pub open spec fn answers_fetch(step: FetchStep, reply: FetchReply) -> bool {
    match step {
        FetchStep::ResolvePin { .. } | FetchStep::ReadRevision { .. } => {
            reply is Revision || reply is Failed
        },
        FetchStep::ReadHead { .. } => {
            reply is Failed || (reply matches FetchReply::Head { head } && !(head is Unreadable))
        },
        FetchStep::CheckAncestor { .. } => reply is Answer || reply is Failed,
        FetchStep::AdvanceDetached { .. }
        | FetchStep::AdvanceBranch { .. }
        | FetchStep::Detach { .. }
        | FetchStep::CreateParent { .. }
        | FetchStep::CloneAt { .. }
        | FetchStep::Clone => reply is Done || reply is Failed,
        FetchStep::Finished { .. } => false,
    }
}

/// Whether a step ends the fetch in a failure with this message.
pub open spec fn failed_with(step: FetchStep, msg: Seq<char>) -> bool {
    step matches FetchStep::Finished { outcome: FetchOutcome::Failed { msg: m } } && m@ == msg
}

/// Whether a step ends the fetch well, with this addition to the lock.
pub open spec fn finished_with(step: FetchStep, add: Option<Seq<char>>) -> bool {
    step matches FetchStep::Finished { outcome: FetchOutcome::Ready { add_to_lock } }
        && add_to_lock.deep_view() == add
}

/// What a role is called.
pub open spec fn role_text(role: Role) -> Seq<char> {
    match role {
        Role::Owned => "owned"@,
        Role::Dependency => "dependency"@,
        Role::Reference => "reference"@,
    }
}

/// What a role is called.
pub fn role_name(role: Role) -> (name: String)
    ensures
        name@ == role_text(role),
{
    match role {
        Role::Owned => "owned".to_owned(),
        Role::Dependency => "dependency".to_owned(),
        Role::Reference => "reference".to_owned(),
    }
}

/// Whether the repo is left out.
pub open spec fn left_out(job: FetchJob) -> bool {
    job.no_reference && job.entry.role is Reference
}

/// Whether `step` is where a fetch starts.
pub open spec fn starts_fetch(job: FetchJob, dest_is_there: bool, step: FetchStep) -> bool {
    if left_out(job) {
        step == (FetchStep::Finished { outcome: FetchOutcome::Skipped })
    } else if dest_is_there {
        match job.pin {
            PinState::Pinned { version } => step == (FetchStep::ResolvePin { version }),
            PinState::Uncovered => finished_with(step, Some(job.repo_path@)),
            PinState::NoLock => finished_with(step, None),
        }
    } else {
        match parent_dir(job.dest@) {
            Some(dir) => step matches FetchStep::CreateParent { parent } && parent@ == dir,
            None => begins_clone(job, step),
        }
    }
}

/// Whether `step` is the one that clones the repo. A pinned repo is cloned
/// onto its branch at the pin: it is never left detached.
pub open spec fn begins_clone(job: FetchJob, step: FetchStep) -> bool {
    match job.pin {
        PinState::Pinned { version } => match job.counterpart {
            Ok(branch) => step == (FetchStep::CloneAt { branch, version }),
            Err(e) => failed_with(
                step,
                invalid_branch_text(job.repo_path@, job.entry.version@, e@),
            ),
        },
        _ => step is Clone,
    }
}

/// What is told when the repo is cloned.
pub open spec fn clone_told(job: FetchJob) -> Seq<Seq<char>> {
    let first = cloning_text(job.repo_path@, job.entry.url@, role_text(job.entry.role));
    match (job.pin, job.counterpart) {
        (PinState::Pinned { version }, Ok(branch)) => seq![
            first,
            cloning_onto_text(job.repo_path@, branch@, version@),
        ],
        _ => seq![first],
    }
}

/// What is told when a fetch starts.
pub open spec fn start_told(job: FetchJob, dest_is_there: bool) -> Seq<Seq<char>> {
    if left_out(job) {
        seq![skipping_text(job.repo_path@)]
    } else if dest_is_there {
        match job.pin {
            PinState::Pinned { version } => seq![aligning_text(job.repo_path@, version@)],
            PinState::Uncovered => seq![adding_text(job.repo_path@)],
            PinState::NoLock => seq![present_text(job.repo_path@)],
        }
    } else {
        match parent_dir(job.dest@) {
            Some(_) => Seq::empty(),
            None => clone_told(job),
        }
    }
}

fn begin_clone(job: &FetchJob, told: &mut Vec<String>) -> (step: FetchStep)
    requires
        old(told)@.len() == 0,
    ensures
        begins_clone(*job, step),
        final(told).deep_view() == clone_told(*job),
{
    told.push(cloning(&job.repo_path, &job.entry.url, &role_name(job.entry.role)));
    let step: FetchStep = match &job.pin {
        PinState::Pinned { version } => match &job.counterpart {
            Ok(branch) => {
                told.push(cloning_onto(&job.repo_path, branch, version));
                FetchStep::CloneAt { branch: branch.clone(), version: version.clone() }
            },
            Err(e) => FetchStep::Finished {
                outcome: FetchOutcome::Failed {
                    msg: invalid_branch(&job.repo_path, &job.entry.version, e),
                },
            },
        },
        _ => FetchStep::Clone,
    };
    assert(told.deep_view() =~= clone_told(*job));
    step
}

/// Starts a fetch: says what is to be done first, and what is told.
pub fn start_fetch(job: &FetchJob, dest_is_there: bool) -> (start: (FetchStep, Vec<String>))
    ensures
        starts_fetch(*job, dest_is_there, start.0),
        start.1.deep_view() == start_told(*job, dest_is_there),
{
    let mut told: Vec<String> = Vec::new();
    let reference: bool = match job.entry.role {
        Role::Reference => true,
        _ => false,
    };
    if job.no_reference && reference {
        told.push(skipping(&job.repo_path));
        assert(told.deep_view() =~= start_told(*job, dest_is_there));
        return (FetchStep::Finished { outcome: FetchOutcome::Skipped }, told);
    }
    if dest_is_there {
        let step: FetchStep = match &job.pin {
            PinState::Pinned { version } => {
                told.push(aligning(&job.repo_path, version));
                FetchStep::ResolvePin { version: version.clone() }
            },
            PinState::Uncovered => {
                told.push(adding(&job.repo_path));
                FetchStep::Finished {
                    outcome: FetchOutcome::Ready { add_to_lock: Some(job.repo_path.clone()) },
                }
            },
            PinState::NoLock => {
                told.push(present(&job.repo_path));
                FetchStep::Finished { outcome: FetchOutcome::Ready { add_to_lock: None } }
            },
        };
        assert(told.deep_view() =~= start_told(*job, dest_is_there));
        return (step, told);
    }
    match dir_above(&job.dest) {
        Some(parent) => {
            assert(told.deep_view() =~= start_told(*job, dest_is_there));
            (FetchStep::CreateParent { parent }, told)
        },
        None => {
            let step: FetchStep = begin_clone(job, &mut told);
            (step, told)
        },
    }
}

/// Whether a step belongs to bringing a clone to its pin.
pub open spec fn realigns(step: FetchStep) -> bool {
    step is ReadHead || step is AdvanceDetached || step is ReadRevision || step is CheckAncestor
        || step is AdvanceBranch || step is Detach
}

/// What happens where the branch may not be moved: the target is put on a
/// detached HEAD with consent, and refused without.
pub open spec fn detaches_or_refuses(
    job: FetchJob,
    target: RevisionId,
    refusal: Seq<char>,
    next: FetchStep,
) -> bool {
    if job.may_detach {
        next == (FetchStep::Detach { target })
    } else {
        failed_with(next, refusal)
    }
}

/// Whether `next` follows a reply while a clone is brought to its pin.
pub open spec fn realign_follows(
    job: FetchJob,
    step: FetchStep,
    reply: FetchReply,
    next: FetchStep,
) -> bool {
    match (step, reply) {
        (_, FetchReply::Failed { error }) => failed_with(
            next,
            at_repo_text(job.repo_path@, error@),
        ),
        (FetchStep::ReadHead { target }, FetchReply::Head { head }) => match head {
            HeadReading::Detached { at } => if at@ == target@ {
                finished_with(next, None)
            } else {
                next == (FetchStep::AdvanceDetached { target })
            },
            HeadReading::Unborn { branch } => failed_with(
                next,
                unborn_text(job.repo_path@, branch@, target@),
            ),
            HeadReading::Attached { branch } => match job.counterpart {
                Err(e) => failed_with(
                    next,
                    invalid_branch_text(job.repo_path@, job.entry.version@, e@),
                ),
                Ok(local) => if branch@ == local@ {
                    next == (FetchStep::ReadRevision { branch, target })
                } else {
                    detaches_or_refuses(
                        job,
                        target,
                        other_branch_text(job.repo_path@, branch@, local@, target@),
                        next,
                    )
                },
            },
            HeadReading::Unreadable => false,
        },
        (FetchStep::ReadRevision { branch, target }, FetchReply::Revision { at }) => {
            if at@ == target@ {
                finished_with(next, None)
            } else {
                next == (FetchStep::CheckAncestor { branch, head: at, target })
            }
        },
        (FetchStep::CheckAncestor { branch, target, .. }, FetchReply::Answer { yes }) => {
            if yes {
                next == (FetchStep::AdvanceBranch { branch, target })
            } else {
                detaches_or_refuses(
                    job,
                    target,
                    not_forward_text(job.repo_path@, branch@, target@),
                    next,
                )
            }
        },
        (FetchStep::AdvanceDetached { .. }, FetchReply::Done) => finished_with(next, None),
        (FetchStep::AdvanceBranch { .. }, FetchReply::Done) => finished_with(next, None),
        (FetchStep::Detach { .. }, FetchReply::Done) => finished_with(next, None),
        _ => false,
    }
}

fn fail(msg: String) -> (step: FetchStep)
    ensures
        failed_with(step, msg@),
{
    FetchStep::Finished { outcome: FetchOutcome::Failed { msg } }
}

fn succeed() -> (step: FetchStep)
    ensures
        finished_with(step, None),
{
    FetchStep::Finished { outcome: FetchOutcome::Ready { add_to_lock: None } }
}

/// Brings a clone to its pin: says which step follows a reply. What HEAD is
/// decides what may be moved. The counterpart of the declared branch may be
/// fast-forwarded and a detached HEAD moved; no other branch is ever moved.
pub fn realign_present_clone(job: &FetchJob, step: FetchStep, reply: FetchReply) -> (next: FetchStep)
    requires
        realigns(step),
        answers_fetch(step, reply),
    ensures
        realign_follows(*job, step, reply, next),
{
    match (step, reply) {
        (_, FetchReply::Failed { error }) => fail(at_repo(&job.repo_path, &error)),
        (FetchStep::ReadHead { target }, FetchReply::Head { head }) => match head {
            HeadReading::Detached { at } => {
                if at == target {
                    succeed()
                } else {
                    FetchStep::AdvanceDetached { target }
                }
            },
            HeadReading::Unborn { branch } => fail(unborn(&job.repo_path, &branch, &target)),
            HeadReading::Attached { branch } => match &job.counterpart {
                Err(e) => fail(invalid_branch(&job.repo_path, &job.entry.version, e)),
                Ok(local) => {
                    if branch == *local {
                        FetchStep::ReadRevision { branch, target }
                    } else if job.may_detach {
                        FetchStep::Detach { target }
                    } else {
                        fail(other_branch(&job.repo_path, &branch, local, &target))
                    }
                },
            },
            HeadReading::Unreadable => succeed(),
        },
        (FetchStep::ReadRevision { branch, target }, FetchReply::Revision { at }) => {
            if at == target {
                succeed()
            } else {
                FetchStep::CheckAncestor { branch, head: at, target }
            }
        },
        (FetchStep::CheckAncestor { branch, target, .. }, FetchReply::Answer { yes }) => {
            if yes {
                FetchStep::AdvanceBranch { branch, target }
            } else if job.may_detach {
                FetchStep::Detach { target }
            } else {
                fail(not_forward(&job.repo_path, &branch, &target))
            }
        },
        _ => succeed(),
    }
}

/// Whether `next` follows a reply.
pub open spec fn fetch_follows(
    job: FetchJob,
    step: FetchStep,
    reply: FetchReply,
    next: FetchStep,
) -> bool {
    if realigns(step) {
        realign_follows(job, step, reply, next)
    } else {
        match (step, reply) {
            (FetchStep::ResolvePin { version }, FetchReply::Failed { error }) => failed_with(
                next,
                unresolved_text(job.repo_path@, version@, error@),
            ),
            (FetchStep::ResolvePin { .. }, FetchReply::Revision { at }) => {
                next == (FetchStep::ReadHead { target: at })
            },
            (FetchStep::CreateParent { parent }, FetchReply::Failed { error }) => failed_with(
                next,
                parent_failed_text(job.repo_path@, parent@, error@),
            ),
            (FetchStep::CreateParent { .. }, FetchReply::Done) => begins_clone(job, next),
            (FetchStep::CloneAt { version, .. }, FetchReply::Failed { error }) => failed_with(
                next,
                materialize_failed_text(job.repo_path@, job.entry.url@, version@, error@),
            ),
            (FetchStep::CloneAt { .. }, FetchReply::Done) => finished_with(next, None),
            (FetchStep::Clone, FetchReply::Failed { error }) => failed_with(
                next,
                clone_failed_text(job.repo_path@, job.entry.url@, job.dest@, error@),
            ),
            (FetchStep::Clone, FetchReply::Done) => finished_with(
                next,
                if job.pin is NoLock {
                    None
                } else {
                    Some(job.repo_path@)
                },
            ),
            _ => false,
        }
    }
}

/// What is told when a reply came.
pub open spec fn step_told(job: FetchJob, step: FetchStep, reply: FetchReply) -> Seq<Seq<char>> {
    match (step, reply) {
        (FetchStep::CreateParent { .. }, FetchReply::Done) => clone_told(job),
        (FetchStep::Clone, FetchReply::Done) => if job.pin is NoLock {
            Seq::empty()
        } else {
            seq![cloned_text(job.repo_path@)]
        },
        _ => Seq::empty(),
    }
}

/// Fetches a repo: says which step follows a reply, and what is told.
pub fn fetch_one(job: &FetchJob, step: FetchStep, reply: FetchReply) -> (result: (
    FetchStep,
    Vec<String>,
))
    requires
        answers_fetch(step, reply),
    ensures
        fetch_follows(*job, step, reply, result.0),
        result.1.deep_view() == step_told(*job, step, reply),
{
    let mut told: Vec<String> = Vec::new();
    assert(told.deep_view() =~= Seq::<Seq<char>>::empty());
    match (step, reply) {
        (FetchStep::ResolvePin { version }, FetchReply::Failed { error }) => (
            fail(unresolved(&job.repo_path, &version, &error)),
            told,
        ),
        (FetchStep::ResolvePin { .. }, FetchReply::Revision { at }) => (
            FetchStep::ReadHead { target: at },
            told,
        ),
        (FetchStep::CreateParent { parent }, FetchReply::Failed { error }) => (
            fail(parent_failed(&job.repo_path, &parent, &error)),
            told,
        ),
        (FetchStep::CreateParent { .. }, FetchReply::Done) => {
            let next: FetchStep = begin_clone(job, &mut told);
            (next, told)
        },
        (FetchStep::CloneAt { version, .. }, FetchReply::Failed { error }) => (
            fail(materialize_failed(&job.repo_path, &job.entry.url, &version, &error)),
            told,
        ),
        (FetchStep::CloneAt { .. }, FetchReply::Done) => (succeed(), told),
        (FetchStep::Clone, FetchReply::Failed { error }) => (
            fail(clone_failed(&job.repo_path, &job.entry.url, &job.dest, &error)),
            told,
        ),
        (FetchStep::Clone, FetchReply::Done) => {
            let covered: bool = match &job.pin {
                PinState::NoLock => false,
                _ => true,
            };
            if covered {
                told.push(cloned(&job.repo_path));
                assert(told.deep_view() =~= seq![cloned_text(job.repo_path@)]);
                (
                    FetchStep::Finished {
                        outcome: FetchOutcome::Ready { add_to_lock: Some(job.repo_path.clone()) },
                    },
                    told,
                )
            } else {
                (succeed(), told)
            }
        },
        (step, reply) => (realign_present_clone(job, step, reply), told),
    }
}

/// A branch is moved only where it is the counterpart of the branch the
/// manifest declares, and only forward: the target was found to carry it.
/// Consent does not change that.
pub proof fn branches_only_move_forward(
    job: FetchJob,
    step: FetchStep,
    reply: FetchReply,
    next: FetchStep,
)
    requires
        answers_fetch(step, reply),
        fetch_follows(job, step, reply, next),
    ensures
        next is AdvanceBranch ==> step is CheckAncestor && reply == (FetchReply::Answer {
            yes: true,
        }),
        next matches FetchStep::CheckAncestor { branch: b, head, target: t } ==> (
        step matches FetchStep::ReadRevision { branch, target } && branch == b && target == t
            && head@ != t@),
        next matches FetchStep::ReadRevision { branch, .. } ==> job.counterpart is Ok && branch@
            == job.counterpart->Ok_0@,
{
}

/// No checkout is detached without consent.
pub proof fn detaching_needs_consent(
    job: FetchJob,
    step: FetchStep,
    reply: FetchReply,
    next: FetchStep,
)
    requires
        answers_fetch(step, reply),
        fetch_follows(job, step, reply, next),
        next is Detach,
    ensures
        job.may_detach,
{
}

/// A clone that is at the pin already is left alone: nothing is moved, and
/// nothing is asked of the operator.
pub proof fn aligned_clones_are_left_alone(
    job: FetchJob,
    target: RevisionId,
    branch: String,
    next: FetchStep,
)
    ensures
        realign_follows(
            job,
            FetchStep::ReadHead { target },
            FetchReply::Head { head: HeadReading::Detached { at: target } },
            next,
        ) ==> finished_with(next, None),
        realign_follows(
            job,
            FetchStep::ReadRevision { branch, target },
            FetchReply::Revision { at: target },
            next,
        ) ==> finished_with(next, None),
{
}

/// Whether a step is one a fetch of the repo can come to: a pinned repo is
/// cloned at its pin, never at the branch's tip.
pub open spec fn in_order(job: FetchJob, step: FetchStep) -> bool {
    step is Clone ==> !(job.pin is Pinned)
}

/// A fetch comes to no other steps.
pub proof fn fetches_stay_in_order(
    job: FetchJob,
    dest_is_there: bool,
    start: FetchStep,
    step: FetchStep,
    reply: FetchReply,
    next: FetchStep,
)
    requires
        starts_fetch(job, dest_is_there, start),
        answers_fetch(step, reply),
        fetch_follows(job, step, reply, next),
    ensures
        in_order(job, start),
        in_order(job, next),
{
}

/// Whether a step adds a repo to the lock.
pub open spec fn adds(step: FetchStep) -> bool {
    step matches FetchStep::Finished { outcome: FetchOutcome::Ready { add_to_lock } }
        && add_to_lock is Some
}

/// A repo is added to the lock only where there is a lock that does not cover
/// it: a fetch never moves a pin.
pub proof fn only_uncovered_repos_are_added(
    job: FetchJob,
    dest_is_there: bool,
    start: FetchStep,
    step: FetchStep,
    reply: FetchReply,
    next: FetchStep,
)
    requires
        starts_fetch(job, dest_is_there, start),
        in_order(job, step),
        answers_fetch(step, reply),
        fetch_follows(job, step, reply, next),
    ensures
        adds(start) || adds(next) ==> job.pin is Uncovered,
{
}

/// How many steps a fetch can still take.
pub open spec fn fetch_rank(step: FetchStep) -> nat {
    match step {
        FetchStep::ResolvePin { .. } => 5,
        FetchStep::ReadHead { .. } => 4,
        FetchStep::ReadRevision { .. } => 3,
        FetchStep::CheckAncestor { .. } => 2,
        FetchStep::CreateParent { .. } => 2,
        FetchStep::AdvanceDetached { .. } => 1,
        FetchStep::AdvanceBranch { .. } => 1,
        FetchStep::Detach { .. } => 1,
        FetchStep::CloneAt { .. } => 1,
        FetchStep::Clone => 1,
        FetchStep::Finished { .. } => 0,
    }
}

/// Every reply brings a fetch closer to its end.
pub proof fn fetch_ends(job: FetchJob, step: FetchStep, reply: FetchReply, next: FetchStep)
    requires
        answers_fetch(step, reply),
        fetch_follows(job, step, reply, next),
    ensures
        fetch_rank(next) < fetch_rank(step),
{
}

/// A repo is skipped where references are to be left out and its role is
/// reference, and nowhere else: an owned repo and a dependency are fetched
/// whatever was asked for, and no reply turns a fetch into a skip.
pub proof fn only_references_are_skipped(
    job: FetchJob,
    dest_is_there: bool,
    start: FetchStep,
    step: FetchStep,
    reply: FetchReply,
    next: FetchStep,
)
    requires
        starts_fetch(job, dest_is_there, start),
        answers_fetch(step, reply),
        fetch_follows(job, step, reply, next),
    ensures
        start == (FetchStep::Finished { outcome: FetchOutcome::Skipped }) <==> job.no_reference
            && job.entry.role == Role::Reference,
        next != (FetchStep::Finished { outcome: FetchOutcome::Skipped }),
{
}

/// A clone that is there is brought to the version its lock pins, and left
/// alone where nothing pins it; one that the lock does not cover is added to
/// the lock, under its own path.
pub proof fn present_clones_are_brought_to_their_pin(job: FetchJob, start: FetchStep)
    requires
        starts_fetch(job, true, start),
        job.entry.role != Role::Reference || !job.no_reference,
    ensures
        job.pin is Pinned ==> (start matches FetchStep::ResolvePin { version } && job.pin == (
        PinState::Pinned { version })),
        job.pin == PinState::Uncovered ==> (start matches FetchStep::Finished {
            outcome: FetchOutcome::Ready { add_to_lock: Some(added) },
        } && added@ == job.repo_path@),
        job.pin == PinState::NoLock ==> start == (FetchStep::Finished {
            outcome: FetchOutcome::Ready { add_to_lock: None },
        }),
{
}

/// A clone that is missing is made: first the directory it goes into, which is
/// its destination up to the last name, then the clone; a fetch of it never
/// ends well before.
pub proof fn missing_clones_are_made(job: FetchJob, start: FetchStep, next: FetchStep)
    requires
        starts_fetch(job, false, start),
        job.entry.role != Role::Reference || !job.no_reference,
        start is CreateParent ==> fetch_follows(job, start, FetchReply::Done, next),
        !(start is CreateParent) ==> next == start,
    ensures
        next is Clone <==> !(job.pin is Pinned),
        next matches FetchStep::CloneAt { branch, version } ==> job.pin == (PinState::Pinned {
            version,
        }) && job.counterpart == Ok::<String, String>(branch),
        job.pin is Pinned ==> (next is CloneAt <==> job.counterpart is Ok),
        next matches FetchStep::Finished { outcome } ==> outcome is Failed,
{
}

/// The revision a step is to bring the clone to.
pub open spec fn goal(step: FetchStep) -> Option<RevisionId> {
    match step {
        FetchStep::ReadHead { target }
        | FetchStep::AdvanceDetached { target }
        | FetchStep::ReadRevision { target, .. }
        | FetchStep::CheckAncestor { target, .. }
        | FetchStep::AdvanceBranch { target, .. }
        | FetchStep::Detach { target } => Some(target),
        _ => None,
    }
}

/// A clone is brought to the revision its pin resolved to: no step on the way
/// changes the goal, or the branch that is moved.
pub proof fn fetches_keep_their_goal(
    job: FetchJob,
    step: FetchStep,
    reply: FetchReply,
    next: FetchStep,
)
    requires
        answers_fetch(step, reply),
        fetch_follows(job, step, reply, next),
    ensures
        goal(next) is Some ==> goal(next) == (match reply {
            FetchReply::Revision { at } if step is ResolvePin => Some(at),
            _ => goal(step),
        }),
        next matches FetchStep::AdvanceBranch { branch: b, .. } ==> (
        step matches FetchStep::CheckAncestor { branch, .. } && branch == b),
        next matches FetchStep::ReadRevision { branch: b, .. } ==> reply == (FetchReply::Head {
            head: HeadReading::Attached { branch: b },
        }),
        next matches FetchStep::CheckAncestor { head, .. } ==> reply == (FetchReply::Revision {
            at: head,
        }),
{
}

/// What failed outside fails the fetch.
pub proof fn failures_end_a_fetch(
    job: FetchJob,
    step: FetchStep,
    reply: FetchReply,
    next: FetchStep,
)
    requires
        answers_fetch(step, reply),
        fetch_follows(job, step, reply, next),
        reply is Failed,
    ensures
        next matches FetchStep::Finished { outcome } && outcome is Failed,
{
}

/// Where nothing failed outside, a fetch is refused for four reasons only: the
/// branch has no commits, the declaration is no branch, and, without consent to
/// detach, HEAD is on another branch or the branch does not lead to the pin.
pub proof fn refusals_have_reasons(
    job: FetchJob,
    step: FetchStep,
    reply: FetchReply,
    next: FetchStep,
)
    requires
        answers_fetch(step, reply),
        fetch_follows(job, step, reply, next),
        !(reply is Failed),
    ensures
        (next matches FetchStep::Finished { outcome } && outcome is Failed) <==> {
            ||| reply matches FetchReply::Head { head } && head is Unborn
            ||| reply matches FetchReply::Head { head } && head is Attached && job.counterpart
                is Err
            ||| step is CreateParent && job.pin is Pinned && job.counterpart is Err
            ||| !job.may_detach && (reply matches FetchReply::Head {
                head: HeadReading::Attached { branch },
            } && (job.counterpart matches Ok(local) && local@ != branch@))
            ||| !job.may_detach && step is CheckAncestor && reply == (FetchReply::Answer {
                yes: false,
            })
        },
        next is Detach <==> job.may_detach && {
            ||| step is CheckAncestor && reply == (FetchReply::Answer { yes: false })
            ||| reply matches FetchReply::Head { head: HeadReading::Attached { branch } } && (
            job.counterpart matches Ok(local) && local@ != branch@)
        },
{
}

/// A fetch ends well only when the clone is where it belongs: HEAD was found
/// there, or what puts it there was done.
pub proof fn successes_are_earned(
    job: FetchJob,
    step: FetchStep,
    reply: FetchReply,
    next: FetchStep,
)
    requires
        answers_fetch(step, reply),
        fetch_follows(job, step, reply, next),
        next matches FetchStep::Finished { outcome } && outcome is Ready,
    ensures
        ({
            ||| reply == FetchReply::Done && !(step is CreateParent)
            ||| (step matches FetchStep::ReadRevision { target, .. } && (
            reply matches FetchReply::Revision { at } && at@ == target@))
            ||| (step matches FetchStep::ReadHead { target } && (reply matches FetchReply::Head {
                head: HeadReading::Detached { at },
            } && at@ == target@))
        }),
        next matches FetchStep::Finished {
            outcome: FetchOutcome::Ready { add_to_lock: Some(added) },
        } ==> added@ == job.repo_path@ && step is Clone,
        step is Clone && job.pin is Uncovered ==> adds(next),
{
}

/// What a fetch of a repo tells starts with the repo, and names what else it is
/// about in the order it is read.
pub proof fn messages_name_their_subjects(
    repo: Seq<char>,
    version: Seq<char>,
    url: Seq<char>,
    role: Seq<char>,
    branch: Seq<char>,
    error: Seq<char>,
    target: Seq<char>,
    local: Seq<char>,
    parent: Seq<char>,
    dest: Seq<char>,
)
    ensures
        tells(skipping_text(repo), seq![repo]),
        tells(aligning_text(repo, version), seq![repo].push(version)),
        tells(adding_text(repo), seq![repo]),
        tells(present_text(repo), seq![repo]),
        tells(cloning_text(repo, url, role), seq![repo].push(url).push(role)),
        tells(cloning_onto_text(repo, branch, version), seq![repo].push(branch).push(version)),
        tells(cloned_text(repo), seq![repo]),
        tells(unresolved_text(repo, version, error), seq![repo].push(version).push(error)),
        tells(at_repo_text(repo, error), seq![repo].push(error)),
        tells(invalid_branch_text(repo, version, error), seq![repo].push(version).push(error)),
        tells(unborn_text(repo, branch, target), seq![repo].push(branch).push(target)),
        tells(
            other_branch_text(repo, branch, local, target),
            seq![repo].push(branch).push(local).push(local).push(target),
        ),
        tells(
            not_forward_text(repo, branch, target),
            seq![repo].push(branch).push(target).push(branch).push(target),
        ),
        tells(parent_failed_text(repo, parent, error), seq![repo].push(parent).push(error)),
        tells(
            materialize_failed_text(repo, url, version, error),
            seq![repo].push(url).push(version).push(error),
        ),
        tells(
            clone_failed_text(repo, url, dest, error),
            seq![repo].push(url).push(dest).push(error),
        ),
{
    broadcast use telling;
}

/// A lock's pin is taken for the repo as it stands there, and no other.
pub proof fn pins_come_from_the_lock(lock: LockFile, repo: Seq<char>, pin: PinState)
    requires
        pin_in(Some(lock), repo, pin),
    ensures
        !(pin is NoLock),
        pin is Uncovered <==> forall|i: int|
            0 <= i < lock.repositories@.len() ==> (#[trigger] lock.repositories@[i]).0@ != repo,
        pin matches PinState::Pinned { version } ==> exists|i: int|
            0 <= i < lock.repositories@.len() && (#[trigger] lock.repositories@[i]).0@ == repo
                && lock.repositories@[i].1.version@ == version@,
{
    first_entries_are_found(lock.repositories@, repo);
}

/// Roles go by their own names.
pub proof fn roles_go_by_their_names(role: Role)
    ensures
        role == Role::Owned <==> role_text(role) == "owned"@,
        role == Role::Dependency <==> role_text(role) == "dependency"@,
        role == Role::Reference <==> role_text(role) == "reference"@,
{
    reveal_strlit("owned");
    reveal_strlit("dependency");
    reveal_strlit("reference");
    assert("owned"@.len() == 5 && "dependency"@.len() == 10 && "reference"@.len() == 9);
}

/// Every line that a fetch tells names its repo; the line of a clone names the
/// URL and the role too, and that of a pinned one the branch and the version.
pub proof fn told_lines_name_the_repo(job: FetchJob, there: bool, step: FetchStep, reply: FetchReply)
    ensures
        forall|i: int|
            0 <= i < start_told(job, there).len() ==> tells(
                #[trigger] start_told(job, there)[i],
                seq![job.repo_path@],
            ),
        forall|i: int|
            0 <= i < step_told(job, step, reply).len() ==> tells(
                #[trigger] step_told(job, step, reply)[i],
                seq![job.repo_path@],
            ),
        tells(
            clone_told(job)[0],
            seq![job.repo_path@].push(job.entry.url@).push(role_text(job.entry.role)),
        ),
        job.pin matches PinState::Pinned { version } ==> (job.counterpart matches Ok(branch)
            ==> clone_told(job).len() == 2 && tells(
            clone_told(job)[1],
            seq![job.repo_path@].push(branch@).push(version@),
        )),
        there && !left_out(job) ==> (job.pin matches PinState::Pinned { version } ==> tells(
            start_told(job, there)[0],
            seq![job.repo_path@].push(version@),
        )),
        there || left_out(job) ==> start_told(job, there).len() == 1,
{
    broadcast use telling;
}

/// A failed fetch says of which repo, and why.
pub proof fn failed_fetches_tell_why(
    job: FetchJob,
    step: FetchStep,
    error: String,
    next: FetchStep,
)
    requires
        answers_fetch(step, FetchReply::Failed { error }),
        fetch_follows(job, step, FetchReply::Failed { error }, next),
    ensures
        next matches FetchStep::Finished { outcome: FetchOutcome::Failed { msg } } && tells(
            msg@,
            seq![job.repo_path@].push(error@),
        ),
{
    broadcast use telling;
}

} // verus!
