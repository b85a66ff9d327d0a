//! Drift between HEAD, the index and the working tree, and between HEADs and
//! locks.

use vstd::prelude::*;
use crate::lists::{flat_map_holds, flat_map_member};
use crate::paths::{
    dir_above, entries_lie_in_their_directory, file_name, name_of, names_entry, parent_dir,
    trimmed_path,
};
use crate::text::{tells, telling};
use crate::violation::{
    IndexDriftKind, PathText, ProjectName, RepoPath, ReplayExclusionKind, RevisionId,
    WorkingTreeDriftKind,
};

verus! {

/// What an index holds against HEAD.
#[derive(Debug, Clone, Copy, PartialEq, Eq, Structural)]
pub enum IndexTreeState {
    MatchesHead,
    /// The tree of a recent ancestor of HEAD.
    RecentAncestorTree,
    Unrecognized,
}

/// What the tracked files hold against HEAD.
#[derive(Debug, Clone, Copy, PartialEq, Eq, Structural)]
pub enum WorkingTreeState {
    MatchesHead,
    /// Every file that differs holds content that is committed.
    RestorableFromHead,
    Unrecognized,
}

/// How an index drifts, if it does.
pub open spec fn index_drift(state: IndexTreeState) -> Option<IndexDriftKind> {
    match state {
        IndexTreeState::MatchesHead => None,
        IndexTreeState::RecentAncestorTree => Some(IndexDriftKind::SafeToFix),
        IndexTreeState::Unrecognized => Some(IndexDriftKind::LiveStaged),
    }
}

/// How a working tree drifts, if it does.
pub open spec fn tree_drift(state: WorkingTreeState) -> Option<WorkingTreeDriftKind> {
    match state {
        WorkingTreeState::MatchesHead => None,
        WorkingTreeState::RestorableFromHead => Some(WorkingTreeDriftKind::SafeToFix),
        WorkingTreeState::Unrecognized => Some(WorkingTreeDriftKind::LiveEdits),
    }
}

/// Says how an index drifts from HEAD. What is not known to be committed
/// counts as live staged work.
pub fn classify_index_drift(state: IndexTreeState) -> (kind: Option<IndexDriftKind>)
    ensures
        kind == index_drift(state),
{
    match state {
        IndexTreeState::MatchesHead => None,
        IndexTreeState::RecentAncestorTree => Some(IndexDriftKind::SafeToFix),
        IndexTreeState::Unrecognized => Some(IndexDriftKind::LiveStaged),
    }
}

/// Says how a working tree drifts from HEAD. What is not known to be committed
/// counts as live edits.
pub fn classify_working_tree_drift(state: WorkingTreeState) -> (kind: Option<WorkingTreeDriftKind>)
    ensures
        kind == tree_drift(state),
{
    match state {
        WorkingTreeState::MatchesHead => None,
        WorkingTreeState::RestorableFromHead => Some(WorkingTreeDriftKind::SafeToFix),
        WorkingTreeState::Unrecognized => Some(WorkingTreeDriftKind::LiveEdits),
    }
}

/// Says how a checkout drifts. `dirty` is one question about both the index
/// and the working tree: a clean answer settles both, while no answer is no
/// evidence of cleanliness.
pub fn classify_drift(
    dirty: Option<bool>,
    index: IndexTreeState,
    tree: WorkingTreeState,
) -> (kinds: (Option<IndexDriftKind>, Option<WorkingTreeDriftKind>))
    ensures
        dirty == Some(false) ==> kinds.0 is None && kinds.1 is None,
        dirty != Some(false) ==> kinds.0 == index_drift(index) && kinds.1 == tree_drift(tree),
{
    if let Some(d) = dirty {
        if !d {
            return (None, None);
        }
    }
    (classify_index_drift(index), classify_working_tree_drift(tree))
}

/// A drift that may hold uncommitted work is never one that `--fix` repairs.
pub proof fn unrecognized_drift_is_never_repaired(
    dirty: Option<bool>,
    workweave: Option<Seq<char>>,
    repo: Seq<char>,
)
    ensures
        index_drift(IndexTreeState::Unrecognized) matches Some(kind)
            && !crate::kinds::repaired_unasked(
            crate::violation_view::CheckViolationView::IndexDrift { workweave, repo, kind },
        ),
        tree_drift(WorkingTreeState::Unrecognized) matches Some(kind)
            && !crate::kinds::repaired_unasked(
            crate::violation_view::CheckViolationView::WorkingTreeDrift { workweave, repo, kind },
        ),
{
}

/// The failure of an index reset.
pub open spec fn reset_failure_text(repo: Seq<char>) -> Seq<char> {
    "failed to reset the index in "@ + repo
}

/// Settles an index reset: what the backend answered, with a failure named for
/// the checkout it happened in.
pub fn reset_index_to_head(repo: &PathText, reset: Result<(), String>) -> (result: Result<
    (),
    String,
>)
    ensures
        result is Ok <==> reset is Ok,
        result matches Err(e) ==> e@ == reset_failure_text(repo@),
{
    match reset {
        Ok(()) => Ok(()),
        Err(_) => Err("failed to reset the index in ".to_owned().concat(repo)),
    }
}

/// The failure of listing what differs from HEAD.
pub open spec fn listing_failure_text(repo: Seq<char>) -> Seq<char> {
    "failed to list drifted paths in "@ + repo
}

/// The failure of restoring what differs from HEAD.
pub open spec fn restoring_failure_text(repo: Seq<char>) -> Seq<char> {
    "failed to restore drifted paths in "@ + repo
}

/// Settles the restoration of a working tree: the paths that differed were
/// listed, and then restored. Nothing is restored where they could not be
/// listed.
pub fn restore_working_tree_to_head(
    repo: &PathText,
    listed: Result<Vec<String>, String>,
    restored: Result<(), String>,
) -> (result: Result<(), String>)
    ensures
        result is Ok <==> listed is Ok && restored is Ok,
        listed is Err ==> result is Err && result->Err_0@ == listing_failure_text(repo@),
        listed is Ok && restored is Err ==> result is Err && result->Err_0@
            == restoring_failure_text(repo@),
{
    match listed {
        Err(_) => Err("failed to list drifted paths in ".to_owned().concat(repo)),
        Ok(_) => match restored {
            Ok(()) => Ok(()),
            Err(_) => Err("failed to restore drifted paths in ".to_owned().concat(repo)),
        },
    }
}

/// How a checkout is tied to its object store.
#[derive(Debug)]
pub enum GitDirLink {
    /// There is no link, or it cannot be read.
    Unreadable,
    /// The checkout has a store of its own.
    Owned,
    /// The checkout is a linked worktree with its data in `git_dir`.
    Linked { git_dir: PathText },
}

/// The store a worktree's data directory is in, going by the layout
/// `<store>/worktrees/<name>`.
pub open spec fn store_by_layout(git_dir: Seq<char>) -> Option<Seq<char>> {
    match parent_dir(git_dir) {
        Some(above) => if file_name(above) == Some("worktrees"@) {
            parent_dir(above)
        } else {
            None
        },
        None => None,
    }
}

/// The store a worktree's data directory is in.
pub fn store_above_worktree_dir(git_dir: &PathText) -> (store: Option<PathText>)
    ensures
        store.deep_view() == store_by_layout(git_dir@),
{
    match dir_above(git_dir) {
        Some(above) => match name_of(&above) {
            Some(name) => {
                if name == "worktrees".to_owned() {
                    dir_above(&above)
                } else {
                    None
                }
            },
            None => None,
        },
        None => None,
    }
}

/// The clone a linked worktree belongs to. `common` is the store git records
/// for it; that record goes away with the clone, and the layout then answers.
pub open spec fn clone_of_worktree(link: GitDirLink, common: Option<PathText>) -> Option<Seq<char>> {
    match link {
        GitDirLink::Linked { git_dir } => {
            let store = match common {
                Some(c) => Some(c@),
                None => store_by_layout(git_dir@),
            };
            match store {
                Some(s) => parent_dir(s),
                None => None,
            }
        },
        _ => None,
    }
}

/// The clone a linked worktree belongs to.
pub fn canonical_clone_dir(link: &GitDirLink, common: &Option<PathText>) -> (dir: Option<PathText>)
    ensures
        dir.deep_view() == clone_of_worktree(*link, *common),
{
    match link {
        GitDirLink::Linked { git_dir } => {
            let store: Option<PathText> = match common {
                Some(c) => Some(c.clone()),
                None => store_above_worktree_dir(git_dir),
            };
            match store {
                Some(s) => dir_above(&s),
                None => None,
            }
        },
        _ => None,
    }
}

/// The clone a linked worktree belongs to, where that clone is gone. `is_there`
/// says whether the directory [`canonical_clone_dir`] gives is there.
pub fn worktree_canonical_clone_missing(
    link: &GitDirLink,
    common: &Option<PathText>,
    is_there: bool,
) -> (missing: Option<PathText>)
    ensures
        missing.deep_view() == if is_there {
            None
        } else {
            clone_of_worktree(*link, *common)
        },
{
    if is_there {
        None
    } else {
        canonical_clone_dir(link, common)
    }
}

/// What a project repo's attributes say about replaying its lock.
#[derive(Debug, Clone, Copy, PartialEq, Eq, Structural)]
pub enum ReplayExclusionState {
    Current,
    Absent,
    LegacyOnly,
    LegacyAlongsideCurrent,
}

/// How a replay exclusion falls short, if it does.
pub open spec fn exclusion_gap(state: ReplayExclusionState) -> Option<ReplayExclusionKind> {
    match state {
        ReplayExclusionState::Current => None,
        ReplayExclusionState::Absent => Some(ReplayExclusionKind::Absent),
        ReplayExclusionState::LegacyOnly => Some(ReplayExclusionKind::LegacySpelling),
        ReplayExclusionState::LegacyAlongsideCurrent => {
            Some(ReplayExclusionKind::LegacyAlongsideCurrent)
        },
    }
}

/// Says how a replay exclusion falls short.
pub fn replay_exclusion_finding(state: ReplayExclusionState) -> (kind: Option<ReplayExclusionKind>)
    ensures
        kind == exclusion_gap(state),
{
    match state {
        ReplayExclusionState::Current => None,
        ReplayExclusionState::Absent => Some(ReplayExclusionKind::Absent),
        ReplayExclusionState::LegacyOnly => Some(ReplayExclusionKind::LegacySpelling),
        ReplayExclusionState::LegacyAlongsideCurrent => {
            Some(ReplayExclusionKind::LegacyAlongsideCurrent)
        },
    }
}

/// Which weave an invocation stands in.
#[derive(Debug)]
pub enum Checkout {
    Primary { project: Option<ProjectName> },
    Workweave { project: ProjectName },
}

/// The project an invocation is about, where it is about one.
pub open spec fn checkout_project(c: Checkout) -> Option<Seq<char>> {
    match c {
        Checkout::Primary { project } => project.deep_view(),
        Checkout::Workweave { project } => Some(project@),
    }
}

/// The projects whose locks are compared: the one the invocation is about, or
/// all that were found.
pub fn locked_projects(checkout: &Checkout, discovered: Vec<ProjectName>) -> (names: Vec<
    ProjectName,
>)
    ensures
        names.deep_view() == match checkout_project(*checkout) {
            Some(p) => seq![p],
            None => discovered.deep_view(),
        },
{
    let mut names: Vec<ProjectName> = Vec::new();
    match checkout {
        Checkout::Primary { project: Some(p) } => {
            names.push(p.clone());
            assert(names.deep_view() =~= seq![p@]);
            names
        },
        Checkout::Workweave { project } => {
            names.push(project.clone());
            assert(names.deep_view() =~= seq![project@]);
            names
        },
        Checkout::Primary { project: None } => discovered,
    }
}

/// What a pin resolves to in its clone.
#[derive(Debug)]
pub enum PinResolution {
    /// The clone does not know the revision.
    Unknown { raw: String },
    Resolved { revision: RevisionId },
    /// The resolution has nothing to say.
    Dropped,
}

/// A pin and the HEAD of its clone; `None` where there is no HEAD to read.
#[derive(Debug)]
pub struct LockedEntry {
    pub repo: RepoPath,
    pub version: String,
    pub head: Option<RevisionId>,
    pub resolution: PinResolution,
}

/// What was read of a project's lock.
#[derive(Debug)]
pub enum LockedReading {
    /// The project does not load.
    Unloadable { error: String },
    NoLock,
    Entries { entries: Vec<LockedEntry> },
}

/// A project and what was read of its lock.
#[derive(Debug)]
pub struct LockedProject {
    pub name: ProjectName,
    pub reading: LockedReading,
}

/// The line a pin is reported with, and whether it shows drift; nothing where
/// the resolution has nothing to say.
pub open spec fn pin_line(e: LockedEntry) -> Option<(Seq<char>, bool)> {
    match e.head {
        None => Some(
            (
                e.repo@ + ": missing on disk (lock pins "@ + e.version@
                    + "); run `rwv sync` to materialize"@,
                true,
            ),
        ),
        Some(head) => match e.resolution {
            PinResolution::Unknown { raw } => Some(
                (e.repo@ + ": lock pins unknown revision "@ + raw@, true),
            ),
            PinResolution::Resolved { revision } => if head@ == revision@ {
                Some((e.repo@ + ": ok"@, false))
            } else {
                Some((e.repo@ + ": tip "@ + head@ + " ≠ lock "@ + revision@, true))
            },
            PinResolution::Dropped => None,
        },
    }
}

/// The lines of a list of pins.
pub open spec fn pin_lines(entries: Seq<LockedEntry>) -> Seq<(Seq<char>, bool)> {
    entries.flat_map(
        |e: LockedEntry|
            match pin_line(e) {
                Some(l) => seq![l],
                None => Seq::empty(),
            },
    )
}

/// The lines of a project.
pub open spec fn project_lines() -> spec_fn(LockedProject) -> Seq<(Seq<char>, bool)> {
    |p: LockedProject|
        match p.reading {
            LockedReading::Entries { entries } => pin_lines(entries@),
            _ => Seq::empty(),
        }
}

/// The warning for a project that does not load.
pub open spec fn project_warnings() -> spec_fn(LockedProject) -> Seq<Seq<char>> {
    |p: LockedProject|
        match p.reading {
            LockedReading::Unloadable { error } => seq![
                "warning: skipping project "@ + p.name@ + ": manifest unreadable ("@ + error@
                    + "); run `rwv doctor` for details"@,
            ],
            _ => Seq::empty(),
        }
}

/// What comparing locks with HEADs reports: the lines, the warnings, and
/// whether any clone is not where its lock pins it.
#[derive(Debug)]
pub struct LockedReport {
    pub lines: Vec<String>,
    pub warnings: Vec<String>,
    pub drift: bool,
}

/// Words the line of a pin.
fn pin_words(e: &LockedEntry) -> (line: Option<(String, bool)>)
    ensures
        line.deep_view() == pin_line(*e),
{
    match &e.head {
        None => Some(
            (
                e.repo.clone()
                    .concat(": missing on disk (lock pins ")
                    .concat(&e.version)
                    .concat("); run `rwv sync` to materialize"),
                true,
            ),
        ),
        Some(head) => match &e.resolution {
            PinResolution::Unknown { raw } => Some(
                (e.repo.clone().concat(": lock pins unknown revision ").concat(raw), true),
            ),
            PinResolution::Resolved { revision } => {
                if *head == *revision {
                    Some((e.repo.clone().concat(": ok"), false))
                } else {
                    Some(
                        (
                            e.repo.clone()
                                .concat(": tip ")
                                .concat(head)
                                .concat(" ≠ lock ")
                                .concat(revision),
                            true,
                        ),
                    )
                }
            },
            PinResolution::Dropped => None,
        },
    }
}

/// Whether some line shows drift.
pub open spec fn shows_drift(lines: Seq<(Seq<char>, bool)>) -> bool {
    exists|i: int| 0 <= i < lines.len() && (#[trigger] lines[i]).1
}

proof fn drift_of_push(lines: Seq<(Seq<char>, bool)>, l: (Seq<char>, bool))
    ensures
        shows_drift(lines.push(l)) == (shows_drift(lines) || l.1),
{
    let all = lines.push(l);
    if shows_drift(lines) {
        let i = choose|i: int| 0 <= i < lines.len() && (#[trigger] lines[i]).1;
        assert(all[i].1);
    }
    if l.1 {
        assert(all[lines.len() as int].1);
    }
    if shows_drift(all) {
        let i = choose|i: int| 0 <= i < all.len() && (#[trigger] all[i]).1;
        if i < lines.len() {
            assert(lines[i].1);
        }
    }
}

/// Compares each pin with the HEAD of its clone. Every pin of the lock is
/// judged, also one whose clone is not there.
pub fn run_check_locked(projects: &Vec<LockedProject>) -> (report: LockedReport)
    ensures
        report.lines.deep_view() == projects@.flat_map(project_lines()).map_values(
            |l: (Seq<char>, bool)| l.0,
        ),
        report.warnings.deep_view() == projects@.flat_map(project_warnings()),
        report.drift == shows_drift(projects@.flat_map(project_lines())),
{
    let ghost f = project_lines();
    let ghost g = project_warnings();
    let ghost text = |l: (Seq<char>, bool)| l.0;
    let mut lines: Vec<String> = Vec::new();
    let mut warnings: Vec<String> = Vec::new();
    let mut drift: bool = false;
    let mut i: usize = 0;
    assert(projects@.take(0).flat_map(f) =~= Seq::empty());
    assert(lines.deep_view() =~= projects@.take(0).flat_map(f).map_values(text));
    assert(warnings.deep_view() =~= projects@.take(0).flat_map(g));
    while i < projects.len()
        invariant
            0 <= i <= projects.len(),
            f == project_lines(),
            g == project_warnings(),
            text == (|l: (Seq<char>, bool)| l.0),
            lines.deep_view() == projects@.take(i as int).flat_map(f).map_values(text),
            warnings.deep_view() == projects@.take(i as int).flat_map(g),
            drift == shows_drift(projects@.take(i as int).flat_map(f)),
        decreases projects.len() - i,
    {
        let ghost told = projects@.take(i as int).flat_map(f);
        let ghost warned = warnings.deep_view();
        proof {
            projects@.lemma_flat_map_take_append(f, i as int);
            projects@.lemma_flat_map_take_append(g, i as int);
        }
        match &projects[i].reading {
            LockedReading::Unloadable { error } => {
                warnings.push(
                    "warning: skipping project ".to_owned()
                        .concat(&projects[i].name)
                        .concat(": manifest unreadable (")
                        .concat(error)
                        .concat("); run `rwv doctor` for details"),
                );
                assert(told + f(projects@[i as int]) =~= told);
            },
            LockedReading::NoLock => {
                assert(told + f(projects@[i as int]) =~= told);
            },
            LockedReading::Entries { entries } => {
                let ghost h = |e: LockedEntry|
                    match pin_line(e) {
                        Some(l) => seq![l],
                        None => Seq::empty(),
                    };
                let mut k: usize = 0;
                assert(told + entries@.take(0).flat_map(h) =~= told);
                while k < entries.len()
                    invariant
                        0 <= k <= entries.len(),
                        text == (|l: (Seq<char>, bool)| l.0),
                        h == (|e: LockedEntry|
                            match pin_line(e) {
                                Some(l) => seq![l],
                                None => Seq::empty(),
                            }),
                        lines.deep_view() == (told + entries@.take(k as int).flat_map(
                            h,
                        )).map_values(text),
                        drift == shows_drift(told + entries@.take(k as int).flat_map(h)),
                    decreases entries.len() - k,
                {
                    let ghost now = told + entries@.take(k as int).flat_map(h);
                    let ghost prior = lines.deep_view();
                    proof {
                        entries@.lemma_flat_map_take_append(h, k as int);
                    }
                    if let Some((line, shown)) = pin_words(&entries[k]) {
                        proof {
                            let next = told + entries@.take(k as int + 1).flat_map(h);
                            assert(next =~= now.push((line@, shown)));
                            drift_of_push(now, (line@, shown));
                            assert(next.map_values(text) =~= now.map_values(text).push(line@));
                        }
                        lines.push(line);
                        assert(lines.deep_view() =~= prior.push(line@));
                        if shown {
                            drift = true;
                        }
                    } else {
                        assert(told + entries@.take(k as int + 1).flat_map(h) =~= now);
                    }
                    k = k + 1;
                }
                assert(entries@.take(k as int) =~= entries@);
            },
        }
        assert(warnings.deep_view() =~= warned + g(projects@[i as int]));
        i = i + 1;
    }
    assert(projects@.take(i as int) =~= projects@);
    LockedReport { lines, warnings, drift }
}

/// The clone a worktree belongs to is the directory its store lies in, whether
/// the store was read or found by the layout of the worktree's own directory.
pub proof fn worktrees_lead_to_their_clone(clone: Seq<char>, store: Seq<char>, id: Seq<char>)
    requires
        clone.len() > 0,
        clone.last() != '/',
        trimmed_path(clone) == clone,
        names_entry(store),
        names_entry(id),
    ensures
        store_by_layout(clone + "/"@ + store + "/"@ + "worktrees"@ + "/"@ + id) == Some(
            clone + "/"@ + store,
        ),
        parent_dir(clone + "/"@ + store) == Some(clone),
{
    reveal_strlit("/");
    reveal_strlit(".");
    reveal_strlit("..");
    reveal_strlit("worktrees");
    let s = clone + "/"@ + store;
    let w = s + "/"@ + "worktrees"@;
    assert(names_entry("worktrees"@)) by {
        assert("worktrees"@.len() == 9);
    }
    assert(store[store.len() - 1] != '/');
    assert(s.last() == store.last());
    assert(w.last() == 's');
    entries_lie_in_their_directory(clone, store);
    entries_lie_in_their_directory(s, "worktrees"@);
    entries_lie_in_their_directory(w, id);
}

/// Only a linked worktree belongs to a clone elsewhere. Where its store was
/// read, that store decides.
pub proof fn linked_worktrees_have_a_clone(link: GitDirLink, common: Option<PathText>)
    ensures
        !(link is Linked) ==> clone_of_worktree(link, common) is None,
        link is Linked && common is Some ==> clone_of_worktree(link, common) == parent_dir(
            common->0@,
        ),
        link matches GitDirLink::Linked { git_dir } ==> common is None ==> (clone_of_worktree(
            link,
            common,
        ) is Some ==> file_name(parent_dir(git_dir@)->0) == Some("worktrees"@)),
{
}

/// A replay exclusion falls short unless it is current, and each shortfall is
/// told apart.
pub proof fn only_current_exclusions_pass(a: ReplayExclusionState, b: ReplayExclusionState)
    ensures
        exclusion_gap(a) is None <==> a is Current,
        exclusion_gap(a) == exclusion_gap(b) <==> a == b,
        exclusion_gap(a) == Some(ReplayExclusionKind::Absent) <==> a is Absent,
        exclusion_gap(a) == Some(ReplayExclusionKind::LegacySpelling) <==> a is LegacyOnly,
{
}

/// What HEAD holds is no drift, what can be put back is safe to fix, and
/// everything else is live.
pub proof fn drift_is_classified(index: IndexTreeState, tree: WorkingTreeState)
    ensures
        index_drift(index) is None <==> index is MatchesHead,
        tree_drift(tree) is None <==> tree is MatchesHead,
        index_drift(index) == Some(IndexDriftKind::SafeToFix) <==> index is RecentAncestorTree,
        tree_drift(tree) == Some(WorkingTreeDriftKind::SafeToFix) <==> tree is RestorableFromHead,
{
}

/// A locked repo is in order exactly where its clone is there and HEAD is the
/// revision the lock pins.
pub proof fn pins_are_met(e: LockedEntry)
    ensures
        pin_line(e) matches Some(l) ==> (!l.1 <==> (e.head matches Some(head) && (
        e.resolution matches PinResolution::Resolved { revision } && revision@ == head@))),
        pin_line(e) is None <==> e.head is Some && e.resolution is Dropped,
        pin_line(e) matches Some(l) ==> e.repo@.is_prefix_of(l.0),
{
}

/// A check of the lock shows drift exactly where one of the entries that could
/// be read is not met.
pub proof fn drift_shows_where_a_pin_is_not_met(projects: Seq<LockedProject>)
    ensures
        shows_drift(projects.flat_map(project_lines())) <==> exists|i: int, k: int|
            #![trigger unmet_entry(projects[i], k)]
            0 <= i < projects.len() && unmet_entry(projects[i], k),
{
    let f = project_lines();
    let all = projects.flat_map(f);
    if shows_drift(all) {
        let n = choose|n: int| 0 <= n < all.len() && (#[trigger] all[n]).1;
        let i = flat_map_member(projects, f, n);
        if let LockedReading::Entries { entries } = projects[i].reading {
            let g = entry_lines();
            let lines = pin_lines(entries@);
            let m = choose|m: int| 0 <= m < lines.len() && lines[m] == all[n];
            assert(lines == entries@.flat_map(g));
            let k = flat_map_member(entries@, g, m);
            assert(unmet_entry(projects[i], k));
        }
    }
    assert forall|i: int, k: int|
        #![trigger unmet_entry(projects[i], k)]
        0 <= i < projects.len() && unmet_entry(projects[i], k) implies shows_drift(all) by {
        if let LockedReading::Entries { entries } = projects[i].reading {
            let g = entry_lines();
            let l = pin_line(entries@[k])->0;
            assert(g(entries@[k])[0] == l);
            assert(pin_lines(entries@) == entries@.flat_map(g));
            flat_map_holds(entries@, g, k, l);
            flat_map_holds(projects, f, i, l);
            let n = choose|n: int| 0 <= n < all.len() && all[n] == l;
            assert(all[n].1);
        }
    }
}

spec fn entry_lines() -> spec_fn(LockedEntry) -> Seq<(Seq<char>, bool)> {
    |e: LockedEntry|
        match pin_line(e) {
            Some(l) => seq![l],
            None => Seq::empty(),
        }
}

/// Whether an entry of a project was read and is not met.
pub open spec fn unmet_entry(p: LockedProject, k: int) -> bool {
    p.reading matches LockedReading::Entries { entries } && 0 <= k < entries@.len() && match (
        entries@[k].head,
        entries@[k].resolution,
    ) {
        (None, _) => true,
        (Some(_), PinResolution::Unknown { .. }) => true,
        (Some(head), PinResolution::Resolved { revision }) => head@ != revision@,
        (Some(_), PinResolution::Dropped) => false,
    }
}

/// A project that could not be loaded is warned of by name, and no other is.
pub proof fn unloadable_projects_are_warned_of(p: LockedProject)
    ensures
        project_warnings()(p).len() == (if p.reading is Unloadable {
            1int
        } else {
            0
        }),
        !(p.reading is Entries) ==> project_lines()(p).len() == 0,
{
}

/// A check in a workweave is of its project alone, and so is one in a primary
/// with an active project.
pub proof fn checks_stay_with_their_project(project: ProjectName, active: Option<ProjectName>)
    ensures
        checkout_project(Checkout::Workweave { project }) == Some(project@),
        checkout_project(Checkout::Primary { project: active }) is Some <==> active is Some,
        active matches Some(a) ==> checkout_project(Checkout::Primary { project: active }) == Some(
            a@,
        ),
{
}

/// A failure to restore a checkout names it.
pub proof fn messages_name_their_subjects(repo: Seq<char>)
    ensures
        tells(reset_failure_text(repo), seq![repo]),
        tells(listing_failure_text(repo), seq![repo]),
        tells(restoring_failure_text(repo), seq![repo]),
{
    broadcast use telling;
}

} // verus!
