//! Fetching a project: where it is cloned from, what is fetched, what is
//! reported, and what becomes of its lock.

use vstd::prelude::*;
use crate::fetch_repo::FetchOutcome;
use crate::lists::{flat_map_contains, flat_map_holds, flat_map_member, single_contains};
use crate::model::{
    filtering_keeps_path_order, in_path_order, lock_pins, lookup, manifest_lists,
    value_is_listed, value_of, value_stays, LockEntry, LockFile, Manifest, RepoEntry, Role,
};
use crate::order::{
    comes_before, ordered_texts_are_distinct, strictly_ordered, text_before, text_order_is_total,
    text_order_is_transitive,
};
use crate::registry::indices;
use crate::scan_text::{
    cut, has_prefix, pieces, pieces_between_slashes, slice_of, starts_with, CharClass,
};
use crate::text::{
    chars_of, decimal, decimal_text, holds, join, join_path, join_text, joined, telling, tells,
    text_of,
};
use crate::violation::{PathText, ProjectName, RepoPath};
use crate::wire::{Resolution, ResolutionView};

verus! {

/// A source that stands for no repo.
pub open spec fn unknown_source_text(source: Seq<char>) -> Seq<char> {
    "'"@
        + source
        + "' is neither a URL nor an `owner/repo` or `registry/owner/repo` shorthand"@
}

/// Words it: a source that stands for no repo.
fn unknown_source(source: &String) -> (text: String)
    ensures
        text@ == unknown_source_text(source@),
{
    "'".to_owned()
        .concat(source)
        .concat("' is neither a URL nor an `owner/repo` or `registry/owner/repo` shorthand")
}

/// A frozen fetch without a lock.
pub open spec fn frozen_missing_text(path: Seq<char>) -> Seq<char> {
    "rwv fetch --frozen: lock file does not exist at "@ + path
}

/// Words it: a frozen fetch without a lock.
fn frozen_missing(path: &String) -> (text: String)
    ensures
        text@ == frozen_missing_text(path@),
{
    "rwv fetch --frozen: lock file does not exist at ".to_owned().concat(path)
}

/// A frozen fetch with an incomplete lock.
pub open spec fn frozen_incomplete_text(repos: Seq<char>) -> Seq<char> {
    "rwv fetch --frozen: lock file is incomplete; repos not covered by lock: "@ + repos
}

/// Words it: a frozen fetch with an incomplete lock.
fn frozen_incomplete(repos: &String) -> (text: String)
    ensures
        text@ == frozen_incomplete_text(repos@),
{
    "rwv fetch --frozen: lock file is incomplete; repos not covered by lock: ".to_owned()
        .concat(repos)
}

/// A pin without a manifest entry.
pub open spec fn orphan_pin_text(repo: Seq<char>) -> Seq<char> {
    "rwv fetch: warning: orphan in lock: "@ + repo + " (lock entry has no manifest entry)"@
}

/// Words it: a pin without a manifest entry.
fn orphan_pin(repo: &String) -> (text: String)
    ensures
        text@ == orphan_pin_text(repo@),
{
    "rwv fetch: warning: orphan in lock: ".to_owned()
        .concat(repo)
        .concat(" (lock entry has no manifest entry)")
}

/// A repo that was left out.
pub open spec fn skipped_text(repo: Seq<char>) -> Seq<char> {
    "skipped "@ + repo
}

/// Words it: a repo that was left out.
fn skipped(repo: &String) -> (text: String)
    ensures
        text@ == skipped_text(repo@),
{
    "skipped ".to_owned().concat(repo)
}

/// A failure as it is met.
pub open spec fn failure_line_text(message: Seq<char>) -> Seq<char> {
    "rwv fetch: error: "@ + message
}

/// Words it: a failure as it is met.
fn failure_line(message: &String) -> (text: String)
    ensures
        text@ == failure_line_text(message@),
{
    "rwv fetch: error: ".to_owned().concat(message)
}

/// A failure in the summary.
pub open spec fn failure_item_text(message: Seq<char>) -> Seq<char> {
    "  - "@ + message
}

/// Words it: a failure in the summary.
fn failure_item(message: &String) -> (text: String)
    ensures
        text@ == failure_item_text(message@),
{
    "  - ".to_owned().concat(message)
}

/// The summary of a fetch with failures.
pub open spec fn fetch_summary_text(succeeded: Seq<char>, total: Seq<char>, failed: Seq<char>) -> Seq<char> {
    "rwv fetch: "@
        + succeeded
        + "/"@
        + total
        + " repo(s) succeeded, "@
        + failed
        + " failed:"@
}

/// Words it: the summary of a fetch with failures.
fn fetch_summary(succeeded: &String, total: &String, failed: &String) -> (text: String)
    ensures
        text@ == fetch_summary_text(succeeded@, total@, failed@),
{
    "rwv fetch: ".to_owned()
        .concat(succeeded)
        .concat("/")
        .concat(total)
        .concat(" repo(s) succeeded, ")
        .concat(failed)
        .concat(" failed:")
}

/// A fetch that failed.
pub open spec fn fetch_failed_text(failed: Seq<char>, total: Seq<char>) -> Seq<char> {
    "fetch completed with "@ + failed + " clone failure(s) out of "@ + total + " repo(s)"@
}

/// Words it: a fetch that failed.
fn fetch_failed(failed: &String, total: &String) -> (text: String)
    ensures
        text@ == fetch_failed_text(failed@, total@),
{
    "fetch completed with ".to_owned()
        .concat(failed)
        .concat(" clone failure(s) out of ")
        .concat(total)
        .concat(" repo(s)")
}

/// A fetch that succeeded.
pub open spec fn fetch_done_text(succeeded: Seq<char>) -> Seq<char> {
    "rwv fetch: done ("@ + succeeded + " repo(s) ready)"@
}

/// Words it: a fetch that succeeded.
fn fetch_done(succeeded: &String) -> (text: String)
    ensures
        text@ == fetch_done_text(succeeded@),
{
    "rwv fetch: done (".to_owned().concat(succeeded).concat(" repo(s) ready)")
}

/// A project that is not activated.
pub open spec fn activation_kept_text(active: Seq<char>) -> Seq<char> {
    "rwv fetch: skipping auto-activate (project '"@ + active + "' already active)"@
}

/// Words it: a project that is not activated.
fn activation_kept(active: &String) -> (text: String)
    ensures
        text@ == activation_kept_text(active@),
{
    "rwv fetch: skipping auto-activate (project '".to_owned()
        .concat(active)
        .concat("' already active)")
}

/// A project whose name is taken.
pub open spec fn name_taken_text(name: Seq<char>) -> Seq<char> {
    "project '"@ + name + "' already exists at projects/"@ + name + "/"@
}

/// Words it: a project whose name is taken.
fn name_taken(name: &String) -> (text: String)
    ensures
        text@ == name_taken_text(name@),
{
    "project '".to_owned()
        .concat(name)
        .concat("' already exists at projects/")
        .concat(name)
        .concat("/")
}

/// A project whose name is taken, as it is told.
pub open spec fn name_taken_error_text(name: Seq<char>) -> Seq<char> {
    "Error: project '"@ + name + "' already exists at projects/"@ + name + "/"@
}

/// Words it: a project whose name is taken, as it is told.
fn name_taken_error(name: &String) -> (text: String)
    ensures
        text@ == name_taken_error_text(name@),
{
    "Error: project '".to_owned()
        .concat(name)
        .concat("' already exists at projects/")
        .concat(name)
        .concat("/")
}

/// A path below the owner.
pub open spec fn scoped_hint_text(owner: Seq<char>, name: Seq<char>) -> Seq<char> {
    "projects/"@ + owner + "/"@ + name + "/"@
}

/// Words it: a path below the owner.
fn scoped_hint(owner: &String, name: &String) -> (text: String)
    ensures
        text@ == scoped_hint_text(owner@, name@),
{
    "projects/".to_owned().concat(owner).concat("/").concat(name).concat("/")
}

/// A path below an owner that is not known.
pub open spec fn unscoped_hint_text(name: Seq<char>) -> Seq<char> {
    "projects/{owner}/"@ + name + "/"@
}

/// Words it: a path below an owner that is not known.
fn unscoped_hint(name: &String) -> (text: String)
    ensures
        text@ == unscoped_hint_text(name@),
{
    "projects/{owner}/".to_owned().concat(name).concat("/")
}

/// The hint of a path that is not taken.
pub open spec fn scoped_hint_line_text(path: Seq<char>) -> Seq<char> {
    "Hint: try a scoped path: "@ + path
}

/// Words it: the hint of a path that is not taken.
fn scoped_hint_line(path: &String) -> (text: String)
    ensures
        text@ == scoped_hint_line_text(path@),
{
    "Hint: try a scoped path: ".to_owned().concat(path)
}

/// A project that is cloned.
pub open spec fn cloning_project_text(name: Seq<char>) -> Seq<char> {
    "rwv fetch: cloning project '"@ + name + "'"@
}

/// Words it: a project that is cloned.
fn cloning_project(name: &String) -> (text: String)
    ensures
        text@ == cloning_project_text(name@),
{
    "rwv fetch: cloning project '".to_owned().concat(name).concat("'")
}

/// How a fetch treats the lock.
#[derive(Debug, Clone, Copy, PartialEq, Eq, Structural)]
pub enum FetchMode {
    /// Clones are brought to the lock; a missing lock is made and missing pins
    /// are added.
    Default,
    /// The lock must be there and complete, and is never written.
    Frozen,
}

/// How a repo fared.
#[derive(Debug, Clone, Copy, PartialEq, Eq, Structural)]
pub enum FetchOutcomeStatus {
    Succeeded,
    Skipped,
    Failed,
}

/// How a repo fared, with its place and, where there is more to say, why.
#[derive(Debug)]
pub struct FetchOutcomeOutput {
    pub path: String,
    pub absolute_path: String,
    pub status: FetchOutcomeStatus,
    pub message: Option<String>,
}

/// The document of a fetch.
#[derive(Debug)]
pub struct FetchJsonOutput {
    pub schema: String,
    pub outcomes: Vec<FetchOutcomeOutput>,
    pub resolution: Option<Resolution>,
}

/// What a [`FetchOutcomeOutput`] says.
pub struct FetchOutcomeOutputView {
    pub path: Seq<char>,
    pub absolute_path: Seq<char>,
    pub status: FetchOutcomeStatus,
    pub message: Option<Seq<char>>,
}

impl DeepView for FetchOutcomeOutput {
    type V = FetchOutcomeOutputView;

    open spec fn deep_view(&self) -> FetchOutcomeOutputView {
        FetchOutcomeOutputView {
            path: self.path@,
            absolute_path: self.absolute_path@,
            status: self.status,
            message: self.message.deep_view(),
        }
    }
}

/// What a [`FetchJsonOutput`] says.
pub struct FetchJsonOutputView {
    pub schema: Seq<char>,
    pub outcomes: Seq<FetchOutcomeOutputView>,
    pub resolution: Option<ResolutionView>,
}

impl DeepView for FetchJsonOutput {
    type V = FetchJsonOutputView;

    open spec fn deep_view(&self) -> FetchJsonOutputView {
        FetchJsonOutputView {
            schema: self.schema@,
            outcomes: self.outcomes.deep_view(),
            resolution: self.resolution.deep_view(),
        }
    }
}

/// One line of a fetch that streams its outcomes.
#[derive(Debug)]
pub struct FetchOutcomeNdjsonRecord<'a> {
    pub schema: &'a str,
    pub outcome: &'a FetchOutcomeOutput,
}

impl FetchOutcomeOutput {
    /// Whether the repo failed.
    pub fn is_failure(&self) -> (failed: bool)
        ensures
            failed == (self.status is Failed),
    {
        self.status == FetchOutcomeStatus::Failed
    }
}

/// The host of a registry.
pub open spec fn registry_host(name: Seq<char>) -> Option<Seq<char>> {
    if name == "github"@ {
        Some("github.com"@)
    } else if name == "gitlab"@ {
        Some("gitlab.com"@)
    } else {
        None
    }
}

/// Whether a host is a registry's.
pub open spec fn is_registry_host(host: Seq<char>) -> bool {
    host == "github.com"@ || host == "gitlab.com"@
}

/// Whether a source is a URL: a colon stands before its first slash, as in
/// `https://host/path` and in `user@host:path`.
pub open spec fn is_url(parts: Seq<Seq<char>>) -> bool {
    parts.len() > 0 && parts[0].contains(':')
}

/// The owner in `git@host:owner`, where the host is a registry's.
pub open spec fn scp_owner(first: Seq<char>) -> Seq<char> {
    if starts_with(first, "git@github.com:"@) {
        first.skip("git@github.com:"@.len() as int)
    } else if starts_with(first, "git@gitlab.com:"@) {
        first.skip("git@gitlab.com:"@.len() as int)
    } else {
        Seq::empty()
    }
}

/// The owner a URL names; empty where the URL is not one of a registry's repo.
pub open spec fn url_owner(parts: Seq<Seq<char>>) -> Seq<char> {
    if parts.len() == 5 && parts[1].len() == 0 && is_registry_host(parts[2]) {
        parts[3]
    } else if parts.len() == 2 {
        scp_owner(parts[0])
    } else {
        Seq::empty()
    }
}

/// Whether a part of a shorthand is a name, and no relative path.
pub open spec fn is_name(part: Seq<char>) -> bool {
    part.len() > 0 && part != "."@ && part != ".."@
}

/// The URL a repo of a registry is cloned from.
pub open spec fn registry_url(host: Seq<char>, owner: Seq<char>, repo: Seq<char>) -> Seq<char> {
    "https://"@ + host + "/"@ + owner + "/"@ + repo + ".git"@
}

/// What a source stands for: the URL it is cloned from, and its owner. A
/// shorthand without a registry is one of GitHub's.
pub open spec fn source_of(source: Seq<char>) -> Option<(Seq<char>, Seq<char>)> {
    let parts = pieces(source, CharClass::Slash);
    if is_url(parts) {
        Some((source, url_owner(parts)))
    } else if parts.len() == 2 && is_name(parts[0]) && is_name(parts[1]) {
        Some((registry_url("github.com"@, parts[0], parts[1]), parts[0]))
    } else if parts.len() == 3 && is_name(parts[1]) && is_name(parts[2]) {
        match registry_host(parts[0]) {
            Some(host) => Some((registry_url(host, parts[1], parts[2]), parts[1])),
            None => None,
        }
    } else {
        None
    }
}

fn has_colon(s: &Vec<char>) -> (has: bool)
    ensures
        has == s@.contains(':'),
{
    let mut i: usize = 0;
    while i < s.len()
        invariant
            0 <= i <= s.len(),
            forall|k: int| 0 <= k < i ==> s@[k] != ':',
        decreases s.len() - i,
    {
        if s[i] == ':' {
            return true;
        }
        i = i + 1;
    }
    false
}

fn read_scp_owner(first: &Vec<char>) -> (owner: String)
    ensures
        owner@ == scp_owner(first@),
{
    let github: Vec<char> = chars_of("git@github.com:");
    let gitlab: Vec<char> = chars_of("git@gitlab.com:");
    if has_prefix(first, &github) {
        let rest: Vec<char> = slice_of(first, github.len(), first.len());
        assert(rest@ =~= first@.skip(github@.len() as int));
        text_of(&rest)
    } else if has_prefix(first, &gitlab) {
        let rest: Vec<char> = slice_of(first, gitlab.len(), first.len());
        assert(rest@ =~= first@.skip(gitlab@.len() as int));
        text_of(&rest)
    } else {
        String::new()
    }
}

fn name_part(part: &String) -> (is: bool)
    ensures
        is == is_name(part@),
{
    let dot: String = ".".to_owned();
    let dots: String = "..".to_owned();
    !part.as_str().is_empty() && *part != dot && *part != dots
}

fn make_url(host: &str, owner: &String, repo: &String) -> (url: String)
    ensures
        url@ == registry_url(host@, owner@, repo@),
{
    "https://".to_owned().concat(host).concat("/").concat(owner).concat("/").concat(repo).concat(
        ".git",
    )
}

/// The URL a source is cloned from, and the owner it names. A URL stands for
/// itself; a shorthand, `owner/repo` or `registry/owner/repo`, stands for a
/// repo of a registry. Anything else is refused.
pub fn resolve_source(source: &str) -> (result: Result<(String, String), String>)
    ensures
        match source_of(source@) {
            Some((url, owner)) => result is Ok && result->Ok_0.0@ == url && result->Ok_0.1@ == owner,
            None => result is Err && result->Err_0@ == unknown_source_text(source@),
        },
{
    let chars: Vec<char> = chars_of(source);
    let parts: Vec<Vec<char>> = cut(&chars, CharClass::Slash);
    let ghost pv = parts.deep_view();
    proof {
        assert forall|i: int| 0 <= i < pv.len() implies #[trigger] pv[i] == parts@[i]@ by {
            assert(pv[i] =~= parts@[i]@);
        }
    }
    if parts.len() > 0 && has_colon(&parts[0]) {
        let mut owner: String = String::new();
        if parts.len() == 5 && parts[1].len() == 0 {
            let host: String = text_of(&parts[2]);
            if host == "github.com".to_owned() || host == "gitlab.com".to_owned() {
                owner = text_of(&parts[3]);
            }
        } else if parts.len() == 2 {
            owner = read_scp_owner(&parts[0]);
        }
        return Ok((source.to_owned(), owner));
    }
    if parts.len() == 2 {
        let owner: String = text_of(&parts[0]);
        let repo: String = text_of(&parts[1]);
        if name_part(&owner) && name_part(&repo) {
            return Ok((make_url("github.com", &owner, &repo), owner));
        }
    } else if parts.len() == 3 {
        let registry: String = text_of(&parts[0]);
        let owner: String = text_of(&parts[1]);
        let repo: String = text_of(&parts[2]);
        if name_part(&owner) && name_part(&repo) {
            if registry == "github".to_owned() {
                return Ok((make_url("github.com", &owner, &repo), owner));
            }
            if registry == "gitlab".to_owned() {
                return Ok((make_url("gitlab.com", &owner, &repo), owner));
            }
        }
    }
    Err(unknown_source(&source.to_owned()))
}

/// A URL stands for itself.
pub proof fn urls_are_kept(source: Seq<char>)
    requires
        is_url(pieces(source, CharClass::Slash)),
    ensures
        source_of(source) matches Some(s) && s.0 == source,
{
}

/// Whether an entry's pin is missing.
pub open spec fn incomplete(lock: LockFile, no_reference: bool) -> spec_fn(
    (RepoPath, RepoEntry),
) -> bool {
    |e: (RepoPath, RepoEntry)|
        !(no_reference && e.1.role is Reference) && !lock_pins(lock, e.0@)
}

/// The repos of the manifest that the lock does not cover, in order. Reference
/// repos do not count where they are left out.
pub fn find_incomplete_repos(manifest: &Manifest, lock: &LockFile, no_reference: bool) -> (repos: Vec<
    RepoPath,
>)
    ensures
        repos.deep_view() == manifest.repositories@.filter(
            incomplete(*lock, no_reference),
        ).map_values(|e: (RepoPath, RepoEntry)| e.0@),
        manifest.in_order() ==> strictly_ordered(repos.deep_view())
            && repos.deep_view().no_duplicates(),
{
    let list: &Vec<(RepoPath, RepoEntry)> = &manifest.repositories;
    let ghost keep = incomplete(*lock, no_reference);
    let ghost text = |e: (RepoPath, RepoEntry)| e.0@;
    let mut repos: Vec<RepoPath> = Vec::new();
    let mut i: usize = 0;
    assert(repos.deep_view() =~= list@.take(0).filter(keep).map_values(text)) by {
        reveal(Seq::filter);
    }
    while i < list.len()
        invariant
            0 <= i <= list.len(),
            list@ == manifest.repositories@,
            keep == incomplete(*lock, no_reference),
            text == (|e: (RepoPath, RepoEntry)| e.0@),
            repos.deep_view() == list@.take(i as int).filter(keep).map_values(text),
        decreases list.len() - i,
    {
        let ghost prior = repos.deep_view();
        proof {
            assert(list@.take(i as int + 1) =~= list@.take(i as int).push(list@[i as int]));
            list@.take(i as int).lemma_filter_push(list@[i as int], keep);
        }
        let reference: bool = match list[i].1.role {
            Role::Reference => true,
            _ => false,
        };
        if !(no_reference && reference) && !lock.pins(&list[i].0) {
            repos.push(list[i].0.clone());
            proof {
                let kept = list@.take(i as int).filter(keep);
                assert(kept.push(list@[i as int]).map_values(text) =~= kept.map_values(text).push(
                    list@[i as int].0@,
                ));
                assert(repos.deep_view() =~= prior.push(list@[i as int].0@));
            }
        }
        i = i + 1;
    }
    assert(list@.take(i as int) =~= list@);
    proof {
        if manifest.in_order() {
            filtering_keeps_path_order(list@, keep);
            assert(strictly_ordered(repos.deep_view()));
            ordered_texts_are_distinct(repos.deep_view());
        }
    }
    repos
}

/// Why a frozen fetch is refused, if it is: the lock is missing, or it does
/// not cover the manifest.
pub open spec fn frozen_refusal(
    manifest: Manifest,
    lock: Option<LockFile>,
    lock_path: Seq<char>,
    no_reference: bool,
) -> Option<Seq<char>> {
    match lock {
        None => Some(frozen_missing_text(lock_path)),
        Some(l) => {
            let missing = manifest.repositories@.filter(incomplete(l, no_reference)).map_values(
                |e: (RepoPath, RepoEntry)| e.0@,
            );
            if missing.len() > 0 {
                Some(frozen_incomplete_text(join_text(missing, ", "@)))
            } else {
                None
            }
        },
    }
}

/// Checks the lock before anything is fetched. Only a frozen fetch is refused.
pub fn check_lock(
    mode: FetchMode,
    manifest: &Manifest,
    lock: &Option<LockFile>,
    lock_path: &PathText,
    no_reference: bool,
) -> (result: Result<(), String>)
    ensures
        match mode {
            FetchMode::Default => result is Ok,
            FetchMode::Frozen => match frozen_refusal(
                *manifest,
                *lock,
                lock_path@,
                no_reference,
            ) {
                Some(text) => result is Err && result->Err_0@ == text,
                None => result is Ok,
            },
        },
{
    match mode {
        FetchMode::Default => Ok(()),
        FetchMode::Frozen => match lock {
            None => Err(frozen_missing(lock_path)),
            Some(l) => {
                let missing: Vec<RepoPath> = find_incomplete_repos(manifest, l, no_reference);
                if missing.len() > 0 {
                    assert(missing.deep_view().len() == missing@.len());
                    Err(frozen_incomplete(&join(&missing, ", ")))
                } else {
                    assert(missing.deep_view().len() == 0);
                    Ok(())
                }
            },
        },
    }
}

/// What a pin without a manifest entry is warned of with.
pub open spec fn orphan_pin_rule(manifest: Manifest) -> spec_fn((RepoPath, LockEntry)) -> Seq<
    Seq<char>,
> {
    |e: (RepoPath, LockEntry)|
        if manifest_lists(manifest, e.0@) {
            Seq::empty()
        } else {
            seq![orphan_pin_text(e.0@)]
        }
}

/// Warns of pins without a manifest entry. Their clones are not touched.
pub fn orphan_pins(manifest: &Manifest, lock: &LockFile) -> (warnings: Vec<String>)
    ensures
        warnings.deep_view() == lock.repositories@.flat_map(orphan_pin_rule(*manifest)),
{
    let list: &Vec<(RepoPath, LockEntry)> = &lock.repositories;
    let ghost f = orphan_pin_rule(*manifest);
    let mut warnings: Vec<String> = Vec::new();
    let mut i: usize = 0;
    assert(warnings.deep_view() =~= list@.take(0).flat_map(f));
    while i < list.len()
        invariant
            0 <= i <= list.len(),
            list@ == lock.repositories@,
            f == orphan_pin_rule(*manifest),
            warnings.deep_view() == list@.take(i as int).flat_map(f),
        decreases list.len() - i,
    {
        let ghost prior = warnings.deep_view();
        proof {
            list@.lemma_flat_map_take_append(f, i as int);
        }
        if !manifest.lists(&list[i].0) {
            warnings.push(orphan_pin(&list[i].0));
        }
        assert(warnings.deep_view() =~= prior + f(list@[i as int]));
        i = i + 1;
    }
    assert(list@.take(i as int) =~= list@);
    warnings
}

/// The repos `--role` and `--repo` select; everything where neither is passed.
#[derive(Debug)]
pub struct RepoSelection {
    pub everything: bool,
    pub repos: Vec<RepoPath>,
}

/// Whether a repo is selected.
pub open spec fn selects(s: RepoSelection, repo: Seq<char>) -> bool {
    s.everything || s.repos.deep_view().contains(repo)
}

/// The places of the manifest entries that are selected.
pub open spec fn selected_places(manifest: Manifest, s: RepoSelection) -> Seq<int> {
    indices(manifest.repositories@.len()).filter(
        |i: int| selects(s, manifest.repositories@[i].0@),
    )
}

/// Lists the manifest entries that are fetched, by their places and in order.
pub fn work_items(manifest: &Manifest, s: &RepoSelection) -> (places: Vec<usize>)
    ensures
        places@.map_values(|i: usize| i as int) == selected_places(*manifest, *s),
{
    let ghost all = indices(manifest.repositories@.len());
    let ghost keep = |i: int| selects(*s, manifest.repositories@[i].0@);
    let ghost num = |i: usize| i as int;
    let mut places: Vec<usize> = Vec::new();
    let mut i: usize = 0;
    assert(places@.map_values(num) =~= all.take(0).filter(keep)) by {
        reveal(Seq::filter);
    }
    while i < manifest.repositories.len()
        invariant
            0 <= i <= manifest.repositories.len(),
            all == indices(manifest.repositories@.len()),
            keep == (|i: int| selects(*s, manifest.repositories@[i].0@)),
            num == (|i: usize| i as int),
            places@.map_values(num) == all.take(i as int).filter(keep),
        decreases manifest.repositories.len() - i,
    {
        let ghost prior = places@.map_values(num);
        proof {
            assert(all.take(i as int + 1) =~= all.take(i as int).push(all[i as int]));
            all.take(i as int).lemma_filter_push(all[i as int], keep);
        }
        if s.everything || holds(&s.repos, &manifest.repositories[i].0) {
            places.push(i);
            assert(places@.map_values(num) =~= prior.push(i as int));
        }
        i = i + 1;
    }
    assert(all.take(i as int) =~= all);
    places
}

/// The record of an outcome.
pub open spec fn record_of(outcome: FetchOutcome, repo: Seq<char>, root: Seq<char>) -> FetchOutcomeOutputView {
    FetchOutcomeOutputView {
        path: repo,
        absolute_path: joined(root, repo),
        status: match outcome {
            FetchOutcome::Ready { .. } => FetchOutcomeStatus::Succeeded,
            FetchOutcome::Skipped => FetchOutcomeStatus::Skipped,
            FetchOutcome::Failed { .. } => FetchOutcomeStatus::Failed,
        },
        message: match outcome {
            FetchOutcome::Ready { .. } => None,
            FetchOutcome::Skipped => Some(skipped_text(repo)),
            FetchOutcome::Failed { msg } => Some(msg@),
        },
    }
}

/// Records an outcome.
pub fn outcome_record(outcome: &FetchOutcome, repo: &RepoPath, root: &PathText) -> (record:
    FetchOutcomeOutput)
    ensures
        record.deep_view() == record_of(*outcome, repo@, root@),
{
    let (status, message): (FetchOutcomeStatus, Option<String>) = match outcome {
        FetchOutcome::Ready { .. } => (FetchOutcomeStatus::Succeeded, None),
        FetchOutcome::Skipped => (FetchOutcomeStatus::Skipped, Some(skipped(repo))),
        FetchOutcome::Failed { msg } => (FetchOutcomeStatus::Failed, Some(msg.clone())),
    };
    FetchOutcomeOutput {
        path: repo.clone(),
        absolute_path: join_path(root, repo),
        status,
        message,
    }
}

/// The message of a failure, if it is one.
pub open spec fn failure_rule() -> spec_fn(FetchOutcome) -> Seq<Seq<char>> {
    |o: FetchOutcome|
        match o {
            FetchOutcome::Failed { msg } => seq![msg@],
            _ => Seq::empty(),
        }
}

/// The repo an outcome adds to the lock, if any.
pub open spec fn addition_rule() -> spec_fn(FetchOutcome) -> Seq<Seq<char>> {
    |o: FetchOutcome|
        match o {
            FetchOutcome::Ready { add_to_lock: Some(repo) } => seq![repo@],
            _ => Seq::empty(),
        }
}

/// Whether a repo is in place.
pub open spec fn is_ready() -> spec_fn(FetchOutcome) -> bool {
    |o: FetchOutcome| o is Ready
}

/// The records of all outcomes, in order.
pub open spec fn records_of(outcomes: Seq<FetchOutcome>, repos: Seq<Seq<char>>, root: Seq<char>) -> Seq<
    FetchOutcomeOutputView,
> {
    Seq::new(outcomes.len(), |i: int| record_of(outcomes[i], repos[i], root))
}

/// The outcomes of a fetch, put together in the order of the manifest.
#[derive(Debug)]
pub struct FetchTally {
    pub succeeded: usize,
    pub errors: Vec<String>,
    pub added_to_lock: Vec<RepoPath>,
    pub records: Vec<FetchOutcomeOutput>,
}

/// Puts the outcomes of a fetch together.
fn tally(repos: &Vec<RepoPath>, outcomes: &Vec<FetchOutcome>, root: &PathText) -> (t: FetchTally)
    requires
        repos@.len() == outcomes@.len(),
    ensures
        t.succeeded == outcomes@.filter(is_ready()).len(),
        t.errors.deep_view() == outcomes@.flat_map(failure_rule()),
        t.added_to_lock.deep_view() == outcomes@.flat_map(addition_rule()),
        t.records.deep_view() == records_of(outcomes@, repos.deep_view(), root@),
        t.succeeded + t.errors@.len() <= outcomes@.len(),
{
    let ghost f = failure_rule();
    let ghost g = addition_rule();
    let ghost keep = is_ready();
    let mut succeeded: usize = 0;
    let mut errors: Vec<String> = Vec::new();
    let mut added: Vec<RepoPath> = Vec::new();
    let mut records: Vec<FetchOutcomeOutput> = Vec::new();
    let mut i: usize = 0;
    proof {
        reveal(Seq::filter);
        assert(outcomes@.take(0).filter(keep).len() == 0);
        assert(errors.deep_view() =~= outcomes@.take(0).flat_map(f));
        assert(added.deep_view() =~= outcomes@.take(0).flat_map(g));
    }
    while i < outcomes.len()
        invariant
            0 <= i <= outcomes.len(),
            repos@.len() == outcomes@.len(),
            f == failure_rule(),
            g == addition_rule(),
            keep == is_ready(),
            succeeded == outcomes@.take(i as int).filter(keep).len(),
            errors.deep_view() == outcomes@.take(i as int).flat_map(f),
            added.deep_view() == outcomes@.take(i as int).flat_map(g),
            records@.len() == i,
            forall|k: int|
                0 <= k < i ==> (#[trigger] records@[k]).deep_view() == record_of(
                    outcomes@[k],
                    repos@[k]@,
                    root@,
                ),
            succeeded + errors@.len() <= i,
        decreases outcomes.len() - i,
    {
        let ghost had_errors = errors.deep_view();
        let ghost had_added = added.deep_view();
        proof {
            outcomes@.lemma_flat_map_take_append(f, i as int);
            outcomes@.lemma_flat_map_take_append(g, i as int);
            assert(outcomes@.take(i as int + 1) =~= outcomes@.take(i as int).push(
                outcomes@[i as int],
            ));
            outcomes@.take(i as int).lemma_filter_push(outcomes@[i as int], keep);
        }
        match &outcomes[i] {
            FetchOutcome::Ready { add_to_lock } => {
                succeeded = succeeded + 1;
                if let Some(repo) = add_to_lock {
                    added.push(repo.clone());
                }
            },
            FetchOutcome::Skipped => {},
            FetchOutcome::Failed { msg } => {
                errors.push(msg.clone());
            },
        }
        assert(errors.deep_view() =~= had_errors + f(outcomes@[i as int]));
        assert(added.deep_view() =~= had_added + g(outcomes@[i as int]));
        records.push(outcome_record(&outcomes[i], &repos[i], root));
        i = i + 1;
    }
    assert(outcomes@.take(i as int) =~= outcomes@);
    assert(records.deep_view() =~= records_of(outcomes@, repos.deep_view(), root@));
    FetchTally { succeeded, errors, added_to_lock: added, records }
}

/// Whether the outcomes are streamed, one line each, as they come.
pub open spec fn streams(json: bool, jobs: nat) -> bool {
    json && jobs > 1
}

/// Whether the outcomes are streamed.
pub fn streams_outcomes(json: bool, jobs: usize) -> (does: bool)
    ensures
        does == streams(json, jobs as nat),
{
    json && jobs > 1
}

/// What surrounds the outcomes of a fetch.
#[derive(Debug)]
pub struct FetchRun {
    pub root: PathText,
    pub json: bool,
    pub jobs: usize,
    pub schema_url: String,
    pub resolution: Option<Resolution>,
}

/// What a fetch prints when its repos are done, and how it ends.
#[derive(Debug)]
pub struct FetchFinish {
    pub stderr: Vec<String>,
    pub document: Option<FetchJsonOutput>,
    pub stdout: Vec<String>,
    pub error: Option<String>,
    pub added_to_lock: Vec<RepoPath>,
}

/// What a failure is told with as it is met, and in the summary.
pub open spec fn told_failures(errors: Seq<Seq<char>>) -> Seq<Seq<char>> {
    errors.map_values(|e: Seq<char>| failure_line_text(e))
}

/// The failures in the summary.
pub open spec fn listed_failures(errors: Seq<Seq<char>>) -> Seq<Seq<char>> {
    errors.map_values(|e: Seq<char>| failure_item_text(e))
}

/// What a fetch prints on stderr. With `--json` nothing: the document says it.
pub open spec fn fetch_stderr(json: bool, succeeded: nat, errors: Seq<Seq<char>>) -> Seq<Seq<char>> {
    if json || errors.len() == 0 {
        Seq::empty()
    } else {
        told_failures(errors) + seq![
            fetch_summary_text(
                decimal_text(succeeded),
                decimal_text(succeeded + errors.len()),
                decimal_text(errors.len()),
            ),
        ] + listed_failures(errors)
    }
}

/// Why a fetch fails, if it does.
pub open spec fn fetch_error(succeeded: nat, errors: Seq<Seq<char>>) -> Option<Seq<char>> {
    if errors.len() == 0 {
        None
    } else {
        Some(
            fetch_failed_text(
                decimal_text(errors.len()),
                decimal_text(succeeded + errors.len()),
            ),
        )
    }
}

fn push_lines(lines: &mut Vec<String>, errors: &Vec<String>, item: bool)
    ensures
        final(lines).deep_view() == old(lines).deep_view() + (if item {
            listed_failures(errors.deep_view())
        } else {
            told_failures(errors.deep_view())
        }),
{
    let ghost all = errors.deep_view();
    let ghost start = lines.deep_view();
    let ghost f = |e: Seq<char>|
        if item {
            failure_item_text(e)
        } else {
            failure_line_text(e)
        };
    let mut i: usize = 0;
    assert(start + all.take(0).map_values(f) =~= start);
    while i < errors.len()
        invariant
            0 <= i <= errors.len(),
            all == errors.deep_view(),
            f == (|e: Seq<char>|
                if item {
                    failure_item_text(e)
                } else {
                    failure_line_text(e)
                }),
            lines.deep_view() == start + all.take(i as int).map_values(f),
        decreases errors.len() - i,
    {
        let ghost prior = lines.deep_view();
        proof {
            assert(all[i as int] == errors@[i as int]@);
            assert(all.take(i as int + 1).map_values(f) =~= all.take(i as int).map_values(f).push(
                f(all[i as int]),
            ));
        }
        let line: String = if item {
            failure_item(&errors[i])
        } else {
            failure_line(&errors[i])
        };
        lines.push(line);
        assert(lines.deep_view() =~= prior.push(f(all[i as int])));
        i = i + 1;
    }
    proof {
        assert(all.take(i as int) =~= all);
        assert(all.map_values(f) =~= if item {
            listed_failures(all)
        } else {
            told_failures(all)
        });
    }
}

/// Ends the fetch of a project's repos: what is printed, and whether it fails.
/// The document carries every outcome, also where some repos failed; where the
/// outcomes were streamed there is none.
pub fn fetch_project_repos(run: FetchRun, repos: &Vec<RepoPath>, outcomes: &Vec<FetchOutcome>) -> (finish:
    FetchFinish)
    requires
        repos@.len() == outcomes@.len(),
    ensures
        finish.error.deep_view() == fetch_error(
            outcomes@.filter(is_ready()).len(),
            outcomes@.flat_map(failure_rule()),
        ),
        finish.stderr.deep_view() == fetch_stderr(
            run.json,
            outcomes@.filter(is_ready()).len(),
            outcomes@.flat_map(failure_rule()),
        ),
        finish.stdout.deep_view() == (if !run.json && finish.error is None {
            seq![fetch_done_text(decimal_text(outcomes@.filter(is_ready()).len()))]
        } else {
            Seq::empty()
        }),
        finish.document is Some <==> run.json && !streams(run.json, run.jobs as nat),
        finish.document matches Some(d) ==> d.schema@ == run.schema_url@ && d.outcomes.deep_view()
            == records_of(outcomes@, repos.deep_view(), run.root@) && d.resolution
            == run.resolution,
        finish.added_to_lock.deep_view() == outcomes@.flat_map(addition_rule()),
{
    let count: usize = outcomes.len();
    let t: FetchTally = tally(repos, outcomes, &run.root);
    assert(t.succeeded + t.errors@.len() <= count);
    let FetchTally { succeeded, errors, added_to_lock, records } = t;
    let ghost ev = errors.deep_view();
    let ghost n = outcomes@.filter(is_ready()).len();
    let mut stderr: Vec<String> = Vec::new();
    let mut stdout: Vec<String> = Vec::new();
    let total: usize = succeeded + errors.len();
    let failed: bool = errors.len() > 0;
    assert(ev.len() == errors@.len());
    if failed && !run.json {
        push_lines(&mut stderr, &errors, false);
        let ghost before = stderr.deep_view();
        stderr.push(
            fetch_summary(&decimal(succeeded), &decimal(total), &decimal(errors.len())),
        );
        assert(stderr.deep_view() =~= before.push(
            fetch_summary_text(
                decimal_text(n),
                decimal_text(n + ev.len()),
                decimal_text(ev.len()),
            ),
        ));
        push_lines(&mut stderr, &errors, true);
    }
    assert(stderr.deep_view() =~= fetch_stderr(run.json, n, ev));
    let error: Option<String> = if failed {
        Some(fetch_failed(&decimal(errors.len()), &decimal(total)))
    } else {
        None
    };
    if !failed && !run.json {
        stdout.push(fetch_done(&decimal(succeeded)));
        assert(stdout.deep_view() =~= seq![fetch_done_text(decimal_text(n))]);
    } else {
        assert(stdout.deep_view() =~= Seq::empty());
    }
    let document: Option<FetchJsonOutput> = if run.json && !streams_outcomes(run.json, run.jobs) {
        Some(
            FetchJsonOutput {
                schema: run.schema_url,
                outcomes: records,
                resolution: run.resolution,
            },
        )
    } else {
        None
    };
    FetchFinish { stderr, document, stdout, error, added_to_lock }
}

/// What becomes of the lock after a fetch.
#[derive(Debug, Clone, Copy, PartialEq, Eq, Structural)]
pub enum LockPlan {
    Leave,
    /// Write a lock of all clones.
    Bootstrap,
    /// Write the lock with the pins that are missing.
    Extend,
}

/// What becomes of the lock. A frozen fetch and one that selects some repos
/// leave it alone.
pub open spec fn lock_plan(mode: FetchMode, everything: bool, has_lock: bool, additions: nat) -> LockPlan {
    if mode is Frozen || !everything {
        LockPlan::Leave
    } else if !has_lock {
        LockPlan::Bootstrap
    } else if additions > 0 {
        LockPlan::Extend
    } else {
        LockPlan::Leave
    }
}

/// Decides what becomes of the lock.
pub fn plan_lock(mode: FetchMode, everything: bool, has_lock: bool, additions: usize) -> (plan: LockPlan)
    ensures
        plan == lock_plan(mode, everything, has_lock, additions as nat),
{
    match mode {
        FetchMode::Frozen => LockPlan::Leave,
        FetchMode::Default => {
            if !everything {
                LockPlan::Leave
            } else if !has_lock {
                LockPlan::Bootstrap
            } else if additions > 0 {
                LockPlan::Extend
            } else {
                LockPlan::Leave
            }
        },
    }
}

/// A frozen fetch never writes the lock.
pub proof fn frozen_fetch_leaves_the_lock(everything: bool, has_lock: bool, additions: nat)
    ensures
        lock_plan(FetchMode::Frozen, everything, has_lock, additions) is Leave,
{
}

/// The manifest entries a lock is made of: those whose clones are there.
pub fn lock_places(manifest: &Manifest, no_reference: bool) -> (places: Vec<usize>)
    ensures
        places@.map_values(|i: usize| i as int) == indices(manifest.repositories@.len()).filter(
            |i: int| !(no_reference && manifest.repositories@[i].1.role is Reference),
        ),
{
    let ghost all = indices(manifest.repositories@.len());
    let ghost keep = |i: int| !(no_reference && manifest.repositories@[i].1.role is Reference);
    let ghost num = |i: usize| i as int;
    let mut places: Vec<usize> = Vec::new();
    let mut i: usize = 0;
    assert(places@.map_values(num) =~= all.take(0).filter(keep)) by {
        reveal(Seq::filter);
    }
    while i < manifest.repositories.len()
        invariant
            0 <= i <= manifest.repositories.len(),
            all == indices(manifest.repositories@.len()),
            keep == (|i: int| !(no_reference && manifest.repositories@[i].1.role is Reference)),
            num == (|i: usize| i as int),
            places@.map_values(num) == all.take(i as int).filter(keep),
        decreases manifest.repositories.len() - i,
    {
        let ghost prior = places@.map_values(num);
        proof {
            assert(all.take(i as int + 1) =~= all.take(i as int).push(all[i as int]));
            all.take(i as int).lemma_filter_push(all[i as int], keep);
        }
        let reference: bool = match manifest.repositories[i].1.role {
            Role::Reference => true,
            _ => false,
        };
        if !(no_reference && reference) {
            places.push(i);
            assert(places@.map_values(num) =~= prior.push(i as int));
        }
        i = i + 1;
    }
    assert(all.take(i as int) =~= all);
    places
}

/// The pin of a repo once the lock is extended: a repo that is added gets its
/// fresh pin, where there is one, and every other pin stays.
pub open spec fn merged_pin(
    pins: Seq<(RepoPath, LockEntry)>,
    fresh: Seq<(RepoPath, LockEntry)>,
    added: Seq<Seq<char>>,
    repo: Seq<char>,
) -> Option<LockEntry> {
    if added.contains(repo) && value_of(fresh, repo) is Some {
        value_of(fresh, repo)
    } else {
        value_of(pins, repo)
    }
}

/// The first entry of a path gives its pin.
proof fn first_gives_pin(list: Seq<(RepoPath, LockEntry)>, i: int, repo: Seq<char>)
    requires
        0 <= i < list.len(),
        list[i].0@ == repo,
        forall|k: int| 0 <= k < i ==> (#[trigger] list[k]).0@ != repo,
    ensures
        value_of(list, repo) == Some(list[i].1),
{
    let before = list.take(i);
    value_is_listed(before, repo);
    assert forall|k: int| 0 <= k < before.len() implies (#[trigger] before[k]).0@ != repo by {
        assert(before[k] == list[k]);
    }
    assert(list.take(i + 1).drop_last() =~= before);
    assert(list.take(i + 1).last() == list[i]);
    value_stays(list, i + 1, repo);
}

/// The first of the entries of a path.
proof fn first_entry(list: Seq<(RepoPath, LockEntry)>, n: int, repo: Seq<char>) -> (first: int)
    requires
        0 <= n < list.len(),
        list[n].0@ == repo,
    ensures
        0 <= first <= n,
        list[first].0@ == repo,
        forall|k: int| 0 <= k < first ==> (#[trigger] list[k]).0@ != repo,
    decreases n,
{
    if exists|k: int| 0 <= k < n && (#[trigger] list[k]).0@ == repo {
        let k = choose|k: int| 0 <= k < n && (#[trigger] list[k]).0@ == repo;
        first_entry(list, k, repo)
    } else {
        n
    }
}

/// Where an entry is inserted for a path that has none, no other pin changes.
proof fn inserted_pin(
    list: Seq<(RepoPath, LockEntry)>,
    p: int,
    e: (RepoPath, LockEntry),
    repo: Seq<char>,
)
    requires
        0 <= p <= list.len(),
        forall|k: int| 0 <= k < list.len() ==> (#[trigger] list[k]).0@ != e.0@,
    ensures
        value_of(list.insert(p, e), repo) == if repo == e.0@ {
            Some(e.1)
        } else {
            value_of(list, repo)
        },
{
    let new = list.insert(p, e);
    assert(new[p] == e);
    if repo == e.0@ {
        assert forall|k: int| 0 <= k < p implies (#[trigger] new[k]).0@ != repo by {
            assert(new[k] == list[k]);
        }
        first_gives_pin(new, p, repo);
    } else {
        value_is_listed(list, repo);
        value_is_listed(new, repo);
        if value_of(list, repo) is Some {
            let n = choose|n: int| 0 <= n < list.len() && (#[trigger] list[n]).0@ == repo;
            let i = first_entry(list, n, repo);
            first_gives_pin(list, i, repo);
            let j = if i < p {
                i
            } else {
                i + 1
            };
            assert(new[j] == list[i]);
            assert forall|k: int| 0 <= k < j implies (#[trigger] new[k]).0@ != repo by {
                if k < p {
                    assert(new[k] == list[k]);
                } else if k > p {
                    assert(new[k] == list[k - 1]);
                }
            }
            first_gives_pin(new, j, repo);
        } else if value_of(new, repo) is Some {
            let j = choose|j: int| 0 <= j < new.len() && (#[trigger] new[j]).0@ == repo;
            if j < p {
                assert(list[j].0@ == repo);
            } else if j > p {
                assert(new[j] == list[j - 1]);
                assert(list[j - 1].0@ == repo);
            }
        }
    }
}

/// Where the first entry of a path is replaced, no other pin changes.
proof fn replaced_pin(
    list: Seq<(RepoPath, LockEntry)>,
    p: int,
    e: (RepoPath, LockEntry),
    repo: Seq<char>,
)
    requires
        0 <= p < list.len(),
        list[p].0@ == e.0@,
        forall|k: int| 0 <= k < p ==> (#[trigger] list[k]).0@ != e.0@,
    ensures
        value_of(list.update(p, e), repo) == if repo == e.0@ {
            Some(e.1)
        } else {
            value_of(list, repo)
        },
{
    let new = list.update(p, e);
    if repo == e.0@ {
        assert forall|k: int| 0 <= k < p implies (#[trigger] new[k]).0@ != repo by {
            assert(new[k] == list[k]);
        }
        first_gives_pin(new, p, repo);
    } else {
        value_is_listed(list, repo);
        value_is_listed(new, repo);
        if value_of(list, repo) is Some {
            let n = choose|n: int| 0 <= n < list.len() && (#[trigger] list[n]).0@ == repo;
            let i = first_entry(list, n, repo);
            first_gives_pin(list, i, repo);
            assert forall|k: int| 0 <= k < i implies (#[trigger] new[k]).0@ != repo by {
                if k != p {
                    assert(new[k] == list[k]);
                }
            }
            assert(new[i] == list[i]);
            first_gives_pin(new, i, repo);
        } else if value_of(new, repo) is Some {
            let j = choose|j: int| 0 <= j < new.len() && (#[trigger] new[j]).0@ == repo;
            if j != p {
                assert(list[j].0@ == repo);
            }
        }
    }
}

/// Gives a repo a pin: in place of the one it has, or in the place its path
/// has in the order.
fn insert_pin(list: &mut Vec<(RepoPath, LockEntry)>, repo: &RepoPath, entry: LockEntry)
    requires
        old(list)@.len() < usize::MAX,
    ensures
        forall|k: Seq<char>|
            #[trigger] value_of(final(list)@, k) == if k == repo@ {
                Some(entry)
            } else {
                value_of(old(list)@, k)
            },
        in_path_order(old(list)@) ==> in_path_order(final(list)@),
        final(list)@.len() <= old(list)@.len() + 1,
{
    let ghost before = list@;
    let mut i: usize = 0;
    while i < list.len()
        invariant
            0 <= i <= list.len(),
            list@ == before,
            before == old(list)@,
            forall|k: int| 0 <= k < i ==> (#[trigger] before[k]).0@ != repo@,
        decreases list.len() - i,
    {
        if list[i].0 == *repo {
            let e: (RepoPath, LockEntry) = (repo.clone(), entry);
            list.set(i, e);
            proof {
                assert(list@ =~= before.update(i as int, e));
                assert forall|k: Seq<char>|
                    #[trigger] value_of(list@, k) == if k == repo@ {
                        Some(entry)
                    } else {
                        value_of(before, k)
                    } by {
                    replaced_pin(before, i as int, e, k);
                }
                if in_path_order(before) {
                    assert forall|a: int, b: int| 0 <= a < b < list@.len() implies text_before(
                        (#[trigger] list@[a]).0@,
                        (#[trigger] list@[b]).0@,
                    ) by {
                        assert(list@[a].0@ == before[a].0@);
                        assert(list@[b].0@ == before[b].0@);
                    }
                }
            }
            return;
        }
        i = i + 1;
    }
    let key: Vec<char> = chars_of(repo);
    let mut p: usize = 0;
    while p < list.len() && !comes_before(&key, &chars_of(&list[p].0))
        invariant
            0 <= p <= list.len(),
            list@ == before,
            key@ == repo@,
            forall|k: int| 0 <= k < p ==> !text_before(repo@, (#[trigger] before[k]).0@),
        decreases list.len() - p,
    {
        p = p + 1;
    }
    let e: (RepoPath, LockEntry) = (repo.clone(), entry);
    list.insert(p, e);
    proof {
        assert(list@ =~= before.insert(p as int, e));
        assert forall|k: Seq<char>|
            #[trigger] value_of(list@, k) == if k == repo@ {
                Some(entry)
            } else {
                value_of(before, k)
            } by {
            inserted_pin(before, p as int, e, k);
        }
        if in_path_order(before) {
            assert forall|a: int, b: int| 0 <= a < b < list@.len() implies text_before(
                (#[trigger] list@[a]).0@,
                (#[trigger] list@[b]).0@,
            ) by {
                let before_a = if a < p {
                    a
                } else {
                    a - 1
                };
                let before_b = if b < p {
                    b
                } else {
                    b - 1
                };
                if a == p {
                    assert(list@[b] == before[before_b]);
                    if before_b > p {
                        assert(text_before(before[p as int].0@, before[before_b].0@));
                        text_order_is_transitive(repo@, before[p as int].0@, before[before_b].0@);
                    }
                } else if b == p {
                    assert(list@[a] == before[before_a]);
                    text_order_is_total(before[before_a].0@, repo@);
                } else {
                    assert(list@[a] == before[before_a]);
                    assert(list@[b] == before[before_b]);
                }
            }
        }
    }
}

fn copy_pin(e: &LockEntry) -> (copy: LockEntry)
    ensures
        copy == *e,
{
    LockEntry { vcs_type: e.vcs_type, url: e.url.clone(), version: e.version.clone() }
}

/// Extends a lock by the pins of the repos that were added. Every other pin is
/// kept as it is written, and the pins stay in the order of their paths.
pub fn merge_lock(lock: LockFile, fresh: &LockFile, added: &Vec<RepoPath>) -> (merged: LockFile)
    requires
        lock.repositories@.len() + added@.len() < usize::MAX,
    ensures
        forall|k: Seq<char>|
            #[trigger] value_of(merged.repositories@, k) == merged_pin(
                lock.repositories@,
                fresh.repositories@,
                added.deep_view(),
                k,
            ),
        lock.in_order() ==> merged.in_order(),
{
    let ghost pins = lock.repositories@;
    let ghost all = added.deep_view();
    let mut list: Vec<(RepoPath, LockEntry)> = lock.repositories;
    let mut i: usize = 0;
    while i < added.len()
        invariant
            0 <= i <= added.len(),
            all == added.deep_view(),
            pins.len() + added@.len() < usize::MAX,
            list@.len() <= pins.len() + i,
            forall|k: Seq<char>|
                #[trigger] value_of(list@, k) == merged_pin(
                    pins,
                    fresh.repositories@,
                    all.take(i as int),
                    k,
                ),
            in_path_order(pins) ==> in_path_order(list@),
        decreases added.len() - i,
    {
        let ghost had = list@;
        let ghost seen = all.take(i as int);
        let ghost next = all.take(i as int + 1);
        proof {
            assert(all[i as int] == added@[i as int]@);
            assert(next =~= seen.push(all[i as int]));
        }
        let found: Option<&LockEntry> = lookup(&fresh.repositories, &added[i]);
        if let Some(entry) = found {
            insert_pin(&mut list, &added[i], copy_pin(entry));
        }
        proof {
            assert forall|k: Seq<char>|
                #[trigger] value_of(list@, k) == merged_pin(pins, fresh.repositories@, next, k) by {
                assert(value_of(had, k) == merged_pin(pins, fresh.repositories@, seen, k));
                if seen.contains(k) {
                    let n = choose|n: int| 0 <= n < seen.len() && seen[n] == k;
                    assert(next[n] == k);
                    assert(next.contains(k));
                }
                if next.contains(k) && !seen.contains(k) {
                    let n = choose|n: int| 0 <= n < next.len() && next[n] == k;
                    if n < seen.len() {
                        assert(seen[n] == k);
                    }
                    assert(k == all[i as int]);
                }
                if k == all[i as int] {
                    assert(next[i as int] == k);
                    assert(next.contains(k));
                }
            }
        }
        i = i + 1;
    }
    assert(all.take(i as int) =~= all);
    LockFile { repositories: list }
}

/// Extending a lock moves no pin: where only repos that the lock does not
/// cover are added, every pin of the lock is in the extended one.
pub proof fn extending_moves_no_pin(
    lock: LockFile,
    fresh: LockFile,
    added: Seq<Seq<char>>,
    repo: Seq<char>,
)
    requires
        forall|i: int| 0 <= i < added.len() ==> !lock_pins(lock, #[trigger] added[i]),
        lock_pins(lock, repo),
    ensures
        merged_pin(lock.repositories@, fresh.repositories@, added, repo) == value_of(
            lock.repositories@,
            repo,
        ),
        value_of(lock.repositories@, repo) is Some,
{
    value_is_listed(lock.repositories@, repo);
    if added.contains(repo) {
        let i = choose|i: int| 0 <= i < added.len() && added[i] == repo;
        assert(!lock_pins(lock, added[i]));
    }
}

/// Whether a project is activated after it was fetched.
#[derive(Debug)]
pub enum Activation {
    No,
    /// Another project is active already.
    Kept { told: String },
    Activate,
}

/// Decides whether a project is activated: one that was just cloned is, by a
/// fetch of everything, where none is active yet.
pub fn plan_activation(
    mode: FetchMode,
    everything: bool,
    on_bootstrap: bool,
    active: &Option<ProjectName>,
) -> (activation: Activation)
    ensures
        if mode is Frozen || !everything || !on_bootstrap {
            activation is No
        } else {
            match *active {
                Some(name) => activation matches Activation::Kept { told } && told@
                    == activation_kept_text(name@),
                None => activation is Activate,
            }
        },
{
    let frozen: bool = match mode {
        FetchMode::Frozen => true,
        FetchMode::Default => false,
    };
    if frozen || !everything || !on_bootstrap {
        return Activation::No;
    }
    match active {
        Some(name) => Activation::Kept { told: activation_kept(name) },
        None => Activation::Activate,
    }
}

/// Where a fetch from a source starts.
#[derive(Debug)]
pub enum SourceStart {
    /// The name is taken: what is told, and the error.
    Taken { told: Vec<String>, error: String },
    /// The project is cloned into this directory.
    Clone { told: String, project_dir: PathText },
}

/// The path a project of the same name could be cloned to.
pub open spec fn scoped_path(owner: Seq<char>, name: Seq<char>) -> Seq<char> {
    if owner.len() == 0 {
        unscoped_hint_text(name)
    } else {
        scoped_hint_text(owner, name)
    }
}

/// The directory of a project in a weave.
pub open spec fn project_dir_of(root: Seq<char>, name: Seq<char>) -> Seq<char> {
    joined(joined(root, "projects"@), name)
}

/// The directory of a project in a weave.
pub fn project_dir_in(root: &PathText, name: &ProjectName) -> (dir: PathText)
    ensures
        dir@ == project_dir_of(root@, name@),
{
    join_path(&join_path(root, "projects"), name)
}

/// Starts a fetch from a source: refuses a name that is taken, with a hint of
/// a path that is not.
pub fn run_fetch(root: &PathText, name: &ProjectName, owner: &String, taken: bool) -> (start:
    SourceStart)
    ensures
        if taken {
            start matches SourceStart::Taken { told, error } && error@ == name_taken_text(name@)
                && told.deep_view() == seq![
                name_taken_error_text(name@),
                scoped_hint_line_text(scoped_path(owner@, name@)),
            ]
        } else {
            start matches SourceStart::Clone { told, project_dir } && told@
                == cloning_project_text(name@) && project_dir@ == project_dir_of(root@, name@)
        },
{
    if taken {
        let scoped: String = if owner.as_str().is_empty() {
            unscoped_hint(name)
        } else {
            scoped_hint(owner, name)
        };
        let mut told: Vec<String> = Vec::new();
        told.push(name_taken_error(name));
        told.push(scoped_hint_line(&scoped));
        assert(told.deep_view() =~= seq![
            name_taken_error_text(name@),
            scoped_hint_line_text(scoped_path(owner@, name@)),
        ]);
        SourceStart::Taken { told, error: name_taken(name) }
    } else {
        SourceStart::Clone {
            told: cloning_project(name),
            project_dir: project_dir_in(root, name),
        }
    }
}

/// Where a fetch in place works: the project of the weave the invocation
/// stands in, and the clones of the primary. Clones are kept in the primary
/// alone, so that is where a missing one goes, from a workweave too.
pub fn run_fetch_in_place(active_path: &PathText, primary_path: &PathText, name: &ProjectName) -> (places: (
    PathText,
    PathText,
))
    ensures
        places.0@ == project_dir_of(active_path@, name@),
        places.1@ == primary_path@,
{
    (project_dir_in(active_path, name), primary_path.clone())
}

/// Whether a text names an owner or a repo: it is no relative path and holds
/// no slash.
pub open spec fn names_one(part: Seq<char>) -> bool {
    part.len() > 0 && part != "."@ && part != ".."@ && !part.contains('/')
}

/// A repo of a registry is cloned from the registry's own host: the shorthand
/// `github/owner/repo` from github.com, as `owner/repo` is, and
/// `gitlab/owner/repo` from gitlab.com. Its owner is the one that is named.
pub proof fn shorthands_stand_for_their_registry(owner: Seq<char>, repo: Seq<char>)
    requires
        names_one(owner),
        names_one(repo),
    ensures
        source_of("github/"@ + owner + "/"@ + repo) == Some(
            ("https://github.com/"@ + owner + "/"@ + repo + ".git"@, owner),
        ),
        source_of("gitlab/"@ + owner + "/"@ + repo) == Some(
            ("https://gitlab.com/"@ + owner + "/"@ + repo + ".git"@, owner),
        ),
        !owner.contains(':') ==> source_of(owner + "/"@ + repo) == source_of(
            "github/"@ + owner + "/"@ + repo,
        ),
        source_of("github/"@ + owner + "/"@ + repo) != source_of(
            "gitlab/"@ + owner + "/"@ + repo,
        ),
{
    reveal_strlit("github");
    reveal_strlit("gitlab");
    reveal_strlit("github/");
    reveal_strlit("gitlab/");
    reveal_strlit("/");
    reveal_strlit("https://");
    reveal_strlit("github.com");
    reveal_strlit("gitlab.com");
    reveal_strlit("https://github.com/");
    reveal_strlit("https://gitlab.com/");
    let short = owner + "/"@ + repo;
    let hub = "github/"@ + owner + "/"@ + repo;
    let lab = "gitlab/"@ + owner + "/"@ + repo;
    pieces_between_slashes(repo, Seq::empty());
    pieces_between_slashes(owner, repo);
    pieces_between_slashes("github"@, short);
    pieces_between_slashes("gitlab"@, short);
    assert(hub =~= "github"@ + "/"@ + short);
    assert(lab =~= "gitlab"@ + "/"@ + short);
    assert(pieces(hub, CharClass::Slash) =~= seq!["github"@, owner, repo]);
    assert(pieces(lab, CharClass::Slash) =~= seq!["gitlab"@, owner, repo]);
    assert(pieces(short, CharClass::Slash) =~= seq![owner, repo]);
    assert("github"@[3] != "gitlab"@[3]);
    let hub_url = registry_url("github.com"@, owner, repo);
    let lab_url = registry_url("gitlab.com"@, owner, repo);
    assert(hub_url =~= "https://github.com/"@ + owner + "/"@ + repo + ".git"@);
    assert(lab_url =~= "https://gitlab.com/"@ + owner + "/"@ + repo + ".git"@);
    assert(hub_url[11] != lab_url[11]);
}

/// A URL of a registry's repo is kept as it is, and names its owner, whether it
/// is written with a scheme or as `git@host:owner/repo`.
pub proof fn registry_urls_name_their_owner(owner: Seq<char>, repo: Seq<char>)
    requires
        names_one(owner),
        names_one(repo),
    ensures
        source_of("https://github.com/"@ + owner + "/"@ + repo) == Some(
            ("https://github.com/"@ + owner + "/"@ + repo, owner),
        ),
        source_of("https://gitlab.com/"@ + owner + "/"@ + repo) == Some(
            ("https://gitlab.com/"@ + owner + "/"@ + repo, owner),
        ),
        source_of("git@github.com:"@ + owner + "/"@ + repo) == Some(
            ("git@github.com:"@ + owner + "/"@ + repo, owner),
        ),
        source_of("git@gitlab.com:"@ + owner + "/"@ + repo) == Some(
            ("git@gitlab.com:"@ + owner + "/"@ + repo, owner),
        ),
{
    reveal_strlit("/");
    reveal_strlit("https:");
    reveal_strlit("github.com");
    reveal_strlit("gitlab.com");
    reveal_strlit("https://github.com/");
    reveal_strlit("https://gitlab.com/");
    reveal_strlit("git@github.com:");
    reveal_strlit("git@gitlab.com:");
    let short = owner + "/"@ + repo;
    pieces_between_slashes(repo, Seq::empty());
    pieces_between_slashes(owner, repo);
    assert(pieces(short, CharClass::Slash) =~= seq![owner, repo]);
    let none = Seq::<char>::empty();
    assert("https:"@[5] == ':');
    assert("https:"@.contains(':'));
    pieces_between_slashes("github.com"@, short);
    pieces_between_slashes("gitlab.com"@, short);
    pieces_between_slashes(none, "github.com"@ + "/"@ + short);
    pieces_between_slashes(none, "gitlab.com"@ + "/"@ + short);
    pieces_between_slashes("https:"@, none + "/"@ + ("github.com"@ + "/"@ + short));
    pieces_between_slashes("https:"@, none + "/"@ + ("gitlab.com"@ + "/"@ + short));
    let hub = "https://github.com/"@ + owner + "/"@ + repo;
    let lab = "https://gitlab.com/"@ + owner + "/"@ + repo;
    assert(hub =~= "https:"@ + "/"@ + (none + "/"@ + ("github.com"@ + "/"@ + short)));
    assert(lab =~= "https:"@ + "/"@ + (none + "/"@ + ("gitlab.com"@ + "/"@ + short)));
    assert(pieces(hub, CharClass::Slash) =~= seq!["https:"@, none, "github.com"@, owner, repo]);
    assert(pieces(lab, CharClass::Slash) =~= seq!["https:"@, none, "gitlab.com"@, owner, repo]);
    let hub_first = "git@github.com:"@ + owner;
    let lab_first = "git@gitlab.com:"@ + owner;
    assert(hub_first[14] == ':' && lab_first[14] == ':');
    assert(hub_first[7] != "git@gitlab.com:"@[7]);
    assert(lab_first[7] != "git@github.com:"@[7]);
    assert forall|i: int| 0 <= i < hub_first.len() implies hub_first[i] != '/' && lab_first[i]
        != '/' by {
        if i >= 15 {
            assert(hub_first[i] == owner[i - 15] && lab_first[i] == owner[i - 15]);
        }
    }
    pieces_between_slashes(hub_first, repo);
    pieces_between_slashes(lab_first, repo);
    assert(hub_first.take(15) =~= "git@github.com:"@);
    assert(lab_first.take(15) =~= "git@gitlab.com:"@);
    assert(hub_first.skip(15) =~= owner);
    assert(lab_first.skip(15) =~= owner);
}

/// A source that is no URL and not two or three names is refused, and so is a
/// shorthand of an unknown registry.
pub proof fn other_sources_are_refused(a: Seq<char>, owner: Seq<char>, repo: Seq<char>)
    requires
        !a.contains('/'),
        !a.contains(':'),
        !owner.contains('/'),
        !repo.contains('/'),
    ensures
        source_of(a) is None,
        a != "github"@ && a != "gitlab"@ ==> source_of(a + "/"@ + owner + "/"@ + repo) is None,
        !names_one(owner) || !names_one(repo) ==> source_of(a + "/"@ + owner + "/"@ + repo) is None,
        !names_one(a) || !names_one(repo) ==> source_of(a + "/"@ + repo) is None,
{
    let short = owner + "/"@ + repo;
    pieces_between_slashes(repo, Seq::empty());
    pieces_between_slashes(owner, repo);
    pieces_between_slashes(a, short);
    pieces_between_slashes(a, repo);
    assert(a + "/"@ + owner + "/"@ + repo =~= a + "/"@ + short);
    assert(pieces(a + "/"@ + short, CharClass::Slash) =~= seq![a, owner, repo]);
    assert(pieces(a + "/"@ + repo, CharClass::Slash) =~= seq![a, repo]);
}

/// A repo counts as incomplete where the manifest lists it, the lock has no pin
/// for it, and it is not a reference that is to be left out.
pub proof fn unpinned_entries_are_incomplete(
    manifest: Manifest,
    lock: LockFile,
    no_reference: bool,
    repo: Seq<char>,
)
    ensures
        manifest.repositories@.filter(incomplete(lock, no_reference)).map_values(
            |e: (RepoPath, RepoEntry)| e.0@,
        ).contains(repo) <==> {
            &&& exists|i: int|
                0 <= i < manifest.repositories@.len() && (
                #[trigger] manifest.repositories@[i]).0@ == repo && (!no_reference
                    || manifest.repositories@[i].1.role != Role::Reference)
            &&& forall|k: int|
                0 <= k < lock.repositories@.len() ==> (#[trigger] lock.repositories@[k]).0@ != repo
        },
{
    let list = manifest.repositories@;
    let keep = incomplete(lock, no_reference);
    let kept = list.filter(keep);
    let texts = kept.map_values(|e: (RepoPath, RepoEntry)| e.0@);
    if texts.contains(repo) {
        let j = choose|j: int| 0 <= j < texts.len() && texts[j] == repo;
        list.lemma_filter_contains_rev(keep, kept[j]);
        assert(list.contains(kept[j]));
        let i = choose|i: int| 0 <= i < list.len() && list[i] == kept[j];
        assert(keep(list[i]));
    }
    if exists|i: int|
        0 <= i < list.len() && (#[trigger] list[i]).0@ == repo && (!no_reference || list[i].1.role
            != Role::Reference) {
        let i = choose|i: int|
            0 <= i < list.len() && (#[trigger] list[i]).0@ == repo && (!no_reference
                || list[i].1.role != Role::Reference);
        if !lock_pins(lock, repo) {
            assert(keep(list[i]));
            list.lemma_filter_contains(keep, i);
            let j = choose|j: int| 0 <= j < kept.len() && kept[j] == list[i];
            assert(texts[j] == repo);
        }
    }
}

/// A frozen fetch goes on exactly where there is a lock that pins every entry
/// of the manifest; references need no pin where they are left out.
pub proof fn frozen_fetches_need_a_full_lock(
    manifest: Manifest,
    lock: Option<LockFile>,
    lock_path: Seq<char>,
    no_reference: bool,
)
    ensures
        frozen_refusal(manifest, lock, lock_path, no_reference) is None <==> (lock matches Some(l)
            && forall|i: int|
            0 <= i < manifest.repositories@.len() ==> lock_pins(
                l,
                (#[trigger] manifest.repositories@[i]).0@,
            ) || no_reference && manifest.repositories@[i].1.role == Role::Reference),
{
    if let Some(l) = lock {
        let list = manifest.repositories@;
        let missing = list.filter(incomplete(l, no_reference)).map_values(
            |e: (RepoPath, RepoEntry)| e.0@,
        );
        if missing.len() > 0 {
            unpinned_entries_are_incomplete(manifest, l, no_reference, missing[0]);
            assert(missing.contains(missing[0]));
        } else {
            assert forall|i: int| 0 <= i < list.len() implies lock_pins(l, (#[trigger] list[i]).0@)
                || no_reference && list[i].1.role == Role::Reference by {
                unpinned_entries_are_incomplete(manifest, l, no_reference, list[i].0@);
            }
        }
    }
}

/// The lock's pins that are warned of are those the manifest has no entry for.
pub proof fn pins_without_entries_are_warned_of(manifest: Manifest, lock: LockFile, text: Seq<char>)
    ensures
        lock.repositories@.flat_map(orphan_pin_rule(manifest)).contains(text) <==> exists|i: int|
            0 <= i < lock.repositories@.len() && !manifest_lists(
                manifest,
                (#[trigger] lock.repositories@[i]).0@,
            ) && text == orphan_pin_text(lock.repositories@[i].0@),
{
    let list = lock.repositories@;
    let f = orphan_pin_rule(manifest);
    flat_map_contains(list, f, text);
    assert forall|i: int| 0 <= i < list.len() implies (#[trigger] f(list[i])).contains(text) == (
    !manifest_lists(manifest, list[i].0@) && text == orphan_pin_text(list[i].0@)) by {
        single_contains(orphan_pin_text(list[i].0@), text);
    }
    if exists|i: int|
        0 <= i < list.len() && !manifest_lists(manifest, (#[trigger] list[i]).0@) && text
            == orphan_pin_text(list[i].0@) {
        let i = choose|i: int|
            0 <= i < list.len() && !manifest_lists(manifest, (#[trigger] list[i]).0@) && text
                == orphan_pin_text(list[i].0@);
        assert(f(list[i]).contains(text));
    }
}

/// The entries that are fetched are those whose repos were asked for, and all
/// of them where nothing was.
pub proof fn selected_entries_are_fetched(manifest: Manifest, s: RepoSelection, i: int)
    ensures
        selected_places(manifest, s).contains(i) <==> 0 <= i < manifest.repositories@.len() && (
        s.everything || exists|k: int|
            0 <= k < s.repos@.len() && (#[trigger] s.repos@[k])@ == manifest.repositories@[i].0@),
{
    let all = indices(manifest.repositories@.len());
    let keep = |i: int| selects(s, manifest.repositories@[i].0@);
    let named = s.repos.deep_view();
    assert(selected_places(manifest, s) == all.filter(keep));
    assert forall|k: int| 0 <= k < named.len() implies #[trigger] named[k] == s.repos@[k]@ by {}
    if 0 <= i < all.len() {
        if named.contains(manifest.repositories@[i].0@) {
            let k = choose|k: int| 0 <= k < named.len() && named[k] == manifest.repositories@[i].0@;
            assert(s.repos@[k]@ == manifest.repositories@[i].0@);
        }
        if exists|k: int|
            0 <= k < s.repos@.len() && (#[trigger] s.repos@[k])@ == manifest.repositories@[i].0@ {
            let k = choose|k: int|
                0 <= k < s.repos@.len() && (#[trigger] s.repos@[k])@
                    == manifest.repositories@[i].0@;
            assert(named[k] == manifest.repositories@[i].0@);
        }
        if keep(i) {
            all.lemma_filter_contains(keep, i);
        }
    }
    if all.filter(keep).contains(i) {
        all.lemma_filter_contains_rev(keep, i);
        let j = choose|j: int| 0 <= j < all.len() && all[j] == i;
        assert(all[j] == j);
    }
}

/// A fetch fails exactly where one of its repos failed, and every failure is
/// among those told.
pub proof fn failed_repos_fail_the_fetch(outcomes: Seq<FetchOutcome>, i: int, json: bool)
    requires
        0 <= i < outcomes.len(),
    ensures
        ({
            let errors = outcomes.flat_map(failure_rule());
            let ready = outcomes.filter(is_ready()).len();
            &&& fetch_error(ready, errors) is Some <==> exists|k: int|
                0 <= k < outcomes.len() && #[trigger] outcomes[k] is Failed
            &&& outcomes[i] matches FetchOutcome::Failed { msg } ==> errors.contains(msg@) && (
            !json ==> fetch_stderr(json, ready, errors).contains(failure_line_text(msg@)))
            &&& json || fetch_error(ready, errors) is None ==> fetch_stderr(
                json,
                ready,
                errors,
            ).len() == 0
        }),
{
    let f = failure_rule();
    let errors = outcomes.flat_map(f);
    let ready = outcomes.filter(is_ready()).len();
    if errors.len() > 0 {
        let k = flat_map_member(outcomes, f, 0);
        assert(outcomes[k] is Failed);
    }
    assert forall|k: int| 0 <= k < outcomes.len() && #[trigger] outcomes[k] is Failed implies
        errors.len() > 0 by {
        let msg = outcomes[k]->msg;
        assert(f(outcomes[k])[0] == msg@);
        flat_map_holds(outcomes, f, k, msg@);
    }
    if let FetchOutcome::Failed { msg } = outcomes[i] {
        assert(f(outcomes[i])[0] == msg@);
        flat_map_holds(outcomes, f, i, msg@);
        let k = choose|k: int| 0 <= k < errors.len() && errors[k] == msg@;
        if !json {
            assert(fetch_stderr(json, ready, errors)[k] == failure_line_text(msg@));
        }
    }
}

/// The repos added to the lock are those whose outcomes say so.
pub proof fn additions_come_from_outcomes(outcomes: Seq<FetchOutcome>, repo: Seq<char>)
    ensures
        outcomes.flat_map(addition_rule()).contains(repo) <==> exists|i: int|
            0 <= i < outcomes.len() && (#[trigger] outcomes[i] matches FetchOutcome::Ready {
                add_to_lock: Some(added),
            } && added@ == repo),
{
    let f = addition_rule();
    flat_map_contains(outcomes, f, repo);
    if outcomes.flat_map(f).contains(repo) {
        let i = choose|i: int| 0 <= i < outcomes.len() && (#[trigger] f(outcomes[i])).contains(repo);
        assert(outcomes[i] matches FetchOutcome::Ready { add_to_lock: Some(added) } && added@
            == repo);
    }
    if exists|i: int|
        0 <= i < outcomes.len() && (#[trigger] outcomes[i] matches FetchOutcome::Ready {
            add_to_lock: Some(added),
        } && added@ == repo) {
        let i = choose|i: int|
            0 <= i < outcomes.len() && (#[trigger] outcomes[i] matches FetchOutcome::Ready {
                add_to_lock: Some(added),
            } && added@ == repo);
        assert(f(outcomes[i])[0] == repo);
        assert(f(outcomes[i]).contains(repo));
    }
}

/// A record tells its own repo's outcome: where the clone is, how the fetch
/// ended, and, of a failure, why.
pub proof fn records_tell_outcomes(
    outcomes: Seq<FetchOutcome>,
    repos: Seq<Seq<char>>,
    root: Seq<char>,
    i: int,
)
    requires
        0 <= i < outcomes.len(),
        repos.len() == outcomes.len(),
    ensures
        ({
            let record = records_of(outcomes, repos, root)[i];
            &&& record.path == repos[i]
            &&& record.absolute_path == joined(root, repos[i])
            &&& outcomes[i] is Ready <==> record.status == FetchOutcomeStatus::Succeeded
            &&& outcomes[i] is Skipped <==> record.status == FetchOutcomeStatus::Skipped
            &&& outcomes[i] is Failed <==> record.status == FetchOutcomeStatus::Failed
            &&& outcomes[i] matches FetchOutcome::Failed { msg } ==> record.message == Some(msg@)
            &&& record.message is None <==> outcomes[i] is Ready
        }),
        records_of(outcomes, repos, root).len() == repos.len(),
{
}

/// A lock is written only by a fetch of everything that is not frozen: a new
/// one where there is none, and an extended one where repos are added.
pub proof fn locks_are_written_sparingly(
    mode: FetchMode,
    everything: bool,
    has_lock: bool,
    additions: nat,
)
    ensures
        lock_plan(mode, everything, has_lock, additions) == LockPlan::Bootstrap <==> mode
            is Default && everything && !has_lock,
        lock_plan(mode, everything, has_lock, additions) == LockPlan::Extend <==> mode is Default
            && everything && has_lock && additions != 0,
{
}

/// Extending a lock takes the fresh pin of a repo that is added, and changes
/// nothing of a repo that is not.
pub proof fn added_repos_get_fresh_pins(
    pins: Seq<(RepoPath, LockEntry)>,
    fresh: Seq<(RepoPath, LockEntry)>,
    added: Seq<Seq<char>>,
    repo: Seq<char>,
)
    ensures
        !added.contains(repo) ==> merged_pin(pins, fresh, added, repo) == value_of(pins, repo),
        added.contains(repo) && value_of(fresh, repo) is Some ==> merged_pin(
            pins,
            fresh,
            added,
            repo,
        ) == value_of(fresh, repo),
        value_of(pins, repo) is Some ==> merged_pin(pins, fresh, added, repo) is Some,
{
}

/// A project is kept below the weave's `projects` directory, under its name.
pub proof fn projects_are_kept_below_their_weave(root: Seq<char>, name: Seq<char>)
    requires
        root.len() > 0,
        root.last() != '/',
        name.len() > 0,
        name[0] != '/',
    ensures
        project_dir_of(root, name) == root + "/projects/"@ + name,
{
    reveal_strlit("projects");
    reveal_strlit("/projects/");
    reveal_strlit("/");
    let above = joined(root, "projects"@);
    assert(above.last() == 's');
    assert(project_dir_of(root, name) =~= root + "/projects/"@ + name);
}

/// What a fetch of a project tells names what it is about, in the order it is
/// read.
pub proof fn messages_name_their_subjects(
    source: Seq<char>,
    path: Seq<char>,
    repos: Seq<char>,
    repo: Seq<char>,
    message: Seq<char>,
    succeeded: Seq<char>,
    total: Seq<char>,
    failed: Seq<char>,
    active: Seq<char>,
    name: Seq<char>,
    owner: Seq<char>,
)
    ensures
        tells(unknown_source_text(source), seq![source]),
        tells(frozen_missing_text(path), seq![path]),
        tells(frozen_incomplete_text(repos), seq![repos]),
        tells(orphan_pin_text(repo), seq![repo]),
        tells(skipped_text(repo), seq![repo]),
        tells(failure_line_text(message), seq![message]),
        tells(failure_item_text(message), seq![message]),
        tells(
            fetch_summary_text(succeeded, total, failed),
            seq![succeeded].push(total).push(failed),
        ),
        tells(fetch_failed_text(failed, total), seq![failed].push(total)),
        tells(fetch_done_text(succeeded), seq![succeeded]),
        tells(activation_kept_text(active), seq![active]),
        tells(name_taken_text(name), seq![name].push(name)),
        tells(name_taken_error_text(name), seq![name].push(name)),
        tells(scoped_hint_text(owner, name), seq![owner].push(name)),
        tells(unscoped_hint_text(name), seq![name]),
        tells(scoped_hint_line_text(path), seq![path]),
        tells(cloning_project_text(name), seq![name]),
{
    broadcast use telling;
}

/// The hint for a name that is taken is a path below the owner, where there is
/// one.
pub proof fn hints_name_the_owner(owner: Seq<char>, name: Seq<char>)
    ensures
        owner.len() > 0 ==> tells(scoped_path(owner, name), seq![owner].push(name)),
        owner.len() == 0 ==> scoped_path(owner, name) == unscoped_hint_text(name),
{
    broadcast use telling;
}

/// Outcomes are streamed where they are wanted as records and several are
/// fetched at a time.
pub proof fn parallel_records_are_streamed(json: bool, jobs: nat)
    ensures
        streams(json, jobs) <==> json && jobs != 0 && jobs != 1,
{
}

/// A fetch that failed sums up: every failure as it was met, then how many of
/// how many failed, then every failure once more.
pub proof fn failures_are_summed_up(succeeded: nat, errors: Seq<Seq<char>>, i: int)
    requires
        errors.len() > 0,
        0 <= i < errors.len(),
    ensures
        ({
            let lines = fetch_stderr(false, succeeded, errors);
            let n = errors.len() as int;
            &&& lines.len() == 2 * n + 1
            &&& tells(lines[i], seq![errors[i]])
            &&& tells(
                lines[n],
                seq![decimal_text(succeeded)].push(decimal_text(succeeded + errors.len())).push(
                    decimal_text(errors.len()),
                ),
            )
            &&& tells(lines[n + 1 + i], seq![errors[i]])
            &&& tells(
                fetch_error(succeeded, errors)->0,
                seq![decimal_text(errors.len())].push(decimal_text(succeeded + errors.len())),
            )
        }),
{
    broadcast use telling;
    let lines = fetch_stderr(false, succeeded, errors);
    let n = errors.len() as int;
    assert(lines[i] == failure_line_text(errors[i]));
    assert(lines[n + 1 + i] == failure_item_text(errors[i]));
}

} // verus!
