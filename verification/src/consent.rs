//! What the operator consented to.
//!
//! A consent is a value that only a flag the operator passed can make, so that
//! what needs it cannot be done without it.

use vstd::prelude::*;
use crate::scan_text::{slice_of, starts_with, trim, trimmed, white};
use crate::text::{chars_of, holds, text_of};

verus! {

/// The operator accepts that a checkout is left on no branch
/// (`--detach-checkouts`).
#[derive(Debug, Clone, Copy)]
pub struct DetachConsent(());

impl DetachConsent {
    /// The consent, where the operator passed the flag.
    pub fn from_flag(detach_checkouts: bool) -> (consent: Option<Self>)
        ensures
            consent is Some <==> detach_checkouts,
    {
        if detach_checkouts {
            Some(DetachConsent(()))
        } else {
            None
        }
    }
}

/// The operator accepts that a checkout is moved from one branch to another
/// (`--reattach-checkouts`).
#[derive(Debug, Clone, Copy)]
pub struct ReattachConsent(());

impl ReattachConsent {
    /// The consent, where the operator passed the flag.
    pub fn from_flag(reattach_checkouts: bool) -> (consent: Option<Self>)
        ensures
            consent is Some <==> reattach_checkouts,
    {
        if reattach_checkouts {
            Some(ReattachConsent(()))
        } else {
            None
        }
    }
}

/// The operator accepts that commits not merged into the baseline are
/// discarded (`--discard-unmerged-commits`).
#[derive(Debug, Clone, Copy)]
pub struct DiscardUnmergedConsent(());

impl DiscardUnmergedConsent {
    /// The consent, where the operator passed the flag.
    pub fn from_flag(discard_unmerged_commits: bool) -> (consent: Option<Self>)
        ensures
            consent is Some <==> discard_unmerged_commits,
    {
        if discard_unmerged_commits {
            Some(DiscardUnmergedConsent(()))
        } else {
            None
        }
    }
}

/// The operator accepts that a workweave's branch is created at a detached
/// HEAD, and that a branch of the retired shape gives up its name for it
/// (`--adopt-detached-checkouts`).
#[derive(Debug, Clone, Copy)]
pub struct AdoptDetachedConsent(());

impl AdoptDetachedConsent {
    /// The consent, where the operator passed the flag.
    pub fn from_flag(adopt_detached_checkouts: bool) -> (consent: Option<Self>)
        ensures
            consent is Some <==> adopt_detached_checkouts,
    {
        if adopt_detached_checkouts {
            Some(AdoptDetachedConsent(()))
        } else {
            None
        }
    }
}

/// The operator accepts that the content of a generated file is discarded and
/// generated anew (`--regenerate-drifted`).
#[derive(Debug, Clone, Copy)]
pub struct RegenerateDriftedConsent(());

impl RegenerateDriftedConsent {
    /// The consent, where the operator passed the flag.
    pub fn from_flag(regenerate_drifted: bool) -> (consent: Option<Self>)
        ensures
            consent is Some <==> regenerate_drifted,
    {
        if regenerate_drifted {
            Some(RegenerateDriftedConsent(()))
        } else {
            None
        }
    }
}

/// The operator accepts the content of a generated file as it is
/// (`--adopt-drifted`).
#[derive(Debug, Clone, Copy)]
pub struct AdoptDriftedConsent(());

impl AdoptDriftedConsent {
    /// The consent, where the operator passed the flag.
    pub fn from_flag(adopt_drifted: bool) -> (consent: Option<Self>)
        ensures
            consent is Some <==> adopt_drifted,
    {
        if adopt_drifted {
            Some(AdoptDriftedConsent(()))
        } else {
            None
        }
    }
}

/// The exit the operator chose out of a generated file that drifted. The two
/// contradict each other, so there is no way to hold both.
#[derive(Debug, Clone, Copy)]
pub enum DriftConsent {
    Regenerate(RegenerateDriftedConsent),
    Adopt(AdoptDriftedConsent),
}

/// A text without any `./` it starts with.
pub open spec fn without_dot_slash(s: Seq<char>) -> Seq<char>
    decreases s.len(),
{
    if starts_with(s, seq!['.', '/']) {
        without_dot_slash(s.skip(2))
    } else {
        s
    }
}

/// A text without any `/` it ends with.
pub open spec fn without_end_slash(s: Seq<char>) -> Seq<char>
    decreases s.len(),
{
    if s.len() > 0 && s.last() == '/' {
        without_end_slash(s.drop_last())
    } else {
        s
    }
}

/// The repo a flag's value names: white space around it, `./` before it and
/// `/` after it are not part of the name.
pub open spec fn named_repo(raw: Seq<char>) -> Seq<char> {
    without_end_slash(without_dot_slash(trimmed(raw)))
}

/// Reads the repo a flag's value names.
fn read_repo(raw: &String) -> (name: String)
    ensures
        name@ == named_repo(raw@),
{
    let given: Vec<char> = chars_of(raw);
    let bare: Vec<char> = trim(&given);
    let mut start: usize = 0;
    assert(bare@.skip(0) =~= bare@);
    while bare.len() - start >= 2 && bare[start] == '.' && bare[start + 1] == '/'
        invariant
            0 <= start <= bare.len(),
            without_dot_slash(bare@) == without_dot_slash(bare@.skip(start as int)),
        decreases bare.len() - start,
    {
        proof {
            let rest = bare@.skip(start as int);
            assert(rest.take(2) =~= seq!['.', '/']);
            assert(rest.skip(2) =~= bare@.skip(start as int + 2));
        }
        start = start + 2;
    }
    let ghost rest = bare@.skip(start as int);
    proof {
        if starts_with(rest, seq!['.', '/']) {
            assert(rest.take(2)[0] == '.');
            assert(rest.take(2)[1] == '/');
            assert(rest[0] == bare@[start as int]);
            assert(rest[1] == bare@[start as int + 1]);
        }
    }
    let mut end: usize = bare.len();
    assert(bare@.subrange(start as int, end as int) =~= rest);
    while end > start && bare[end - 1] == '/'
        invariant
            0 <= start <= end <= bare.len(),
            without_end_slash(rest) == without_end_slash(
                bare@.subrange(start as int, end as int),
            ),
        decreases end - start,
    {
        proof {
            let part = bare@.subrange(start as int, end as int);
            assert(part.last() == bare@[end - 1]);
            assert(part.drop_last() =~= bare@.subrange(start as int, end - 1));
        }
        end = end - 1;
    }
    proof {
        let part = bare@.subrange(start as int, end as int);
        if part.len() > 0 {
            assert(part.last() == bare@[end - 1]);
        }
    }
    text_of(&slice_of(&bare, start, end))
}

/// The operator accepts that an abort moves a branch off commits its operation
/// did not make, in the repos named here and no others
/// (`--abandon-foreign-tip`).
#[derive(Debug)]
pub struct AbandonForeignTipConsent {
    repos: Vec<String>,
}

impl AbandonForeignTipConsent {
    /// The repos consented to.
    pub closed spec fn repos(&self) -> Seq<Seq<char>> {
        self.repos.deep_view()
    }

    /// The consent for the repos the flag's values name.
    pub fn from_flag(abandon_foreign_tip: &Vec<String>) -> (consent: Self)
        ensures
            forall|repo: Seq<char>|
                #[trigger] consent.repos().contains(repo) <==> exists|i: int|
                    0 <= i < abandon_foreign_tip@.len() && named_repo(
                        (#[trigger] abandon_foreign_tip@[i])@,
                    ) == repo,
    {
        let mut repos: Vec<String> = Vec::new();
        let mut i: usize = 0;
        while i < abandon_foreign_tip.len()
            invariant
                0 <= i <= abandon_foreign_tip.len(),
                forall|repo: Seq<char>|
                    #[trigger] repos.deep_view().contains(repo) <==> exists|k: int|
                        0 <= k < i && named_repo((#[trigger] abandon_foreign_tip@[k])@) == repo,
            decreases abandon_foreign_tip.len() - i,
        {
            let name: String = read_repo(&abandon_foreign_tip[i]);
            let ghost before = repos.deep_view();
            repos.push(name);
            proof {
                assert(repos.deep_view() =~= before.push(name@));
                assert forall|repo: Seq<char>|
                    #[trigger] repos.deep_view().contains(repo) <==> exists|k: int|
                        0 <= k < i + 1 && named_repo((#[trigger] abandon_foreign_tip@[k])@)
                            == repo by {
                    if repos.deep_view().contains(repo) {
                        if repo == name@ {
                            assert(named_repo(abandon_foreign_tip@[i as int]@) == repo);
                        } else {
                            let j = repos.deep_view().index_of(repo);
                            assert(before[j] == repo);
                            assert(before.contains(repo));
                        }
                    }
                    if exists|k: int|
                        0 <= k < i + 1 && named_repo((#[trigger] abandon_foreign_tip@[k])@)
                            == repo {
                        let k = choose|k: int|
                            0 <= k < i + 1 && named_repo((#[trigger] abandon_foreign_tip@[k])@)
                                == repo;
                        if k < i {
                            assert(before.contains(repo));
                            let j = before.index_of(repo);
                            assert(repos.deep_view()[j] == repo);
                        } else {
                            assert(repos.deep_view()[before.len() as int] == repo);
                        }
                    }
                }
            }
            i = i + 1;
        }
        AbandonForeignTipConsent { repos }
    }

    /// Whether the operator named this repo.
    pub fn covers(&self, repo_key: &String) -> (covered: bool)
        ensures
            covered == self.repos().contains(repo_key@),
    {
        holds(&self.repos, repo_key)
    }
}

/// A consent that names no repo covers none.
pub proof fn empty_consent_covers_nothing(values: Seq<String>, repos: Seq<Seq<char>>, repo: Seq<char>)
    requires
        values.len() == 0,
        forall|r: Seq<char>|
            #[trigger] repos.contains(r) <==> exists|i: int|
                0 <= i < values.len() && named_repo((#[trigger] values[i])@) == r,
    ensures
        !repos.contains(repo),
{
}

proof fn trimmed_keeps(s: Seq<char>)
    requires
        s.len() > 0,
        !white(s[0]),
        !white(s.last()),
    ensures
        trimmed(s) == s,
{
    assert(s.skip(0) =~= s);
}

proof fn slash_stays_behind(name: Seq<char>)
    requires
        without_dot_slash(name) != seq!['.'],
    ensures
        without_dot_slash(name.push('/')) == without_dot_slash(name).push('/'),
    decreases name.len(),
{
    let suffixed = name.push('/');
    if starts_with(name, seq!['.', '/']) {
        assert(suffixed.take(2) =~= name.take(2));
        assert(suffixed.skip(2) =~= name.skip(2).push('/'));
        slash_stays_behind(name.skip(2));
    } else if starts_with(suffixed, seq!['.', '/']) {
        assert(suffixed.take(2)[0] == '.');
        assert(suffixed.take(2)[1] == '/');
        if name.len() >= 2 {
            assert(name.take(2) =~= seq!['.', '/']);
        } else {
            assert(name =~= seq!['.']);
        }
    }
}

/// How the shell completes a path does not change the repo that is named: not
/// by a `./` before it, and not by a `/` after it. The one value that a `/`
/// changes is `.`, however many `./` stand before it: with the `/` it names
/// nothing.
pub proof fn completion_names_the_same_repo(name: Seq<char>)
    requires
        name.len() > 0,
        !white(name[0]),
        !white(name.last()),
    ensures
        named_repo(seq!['.', '/'] + name) == named_repo(name),
        without_dot_slash(name) != seq!['.'] ==> named_repo(name.push('/')) == named_repo(name),
{
    let prefixed = seq!['.', '/'] + name;
    let suffixed = name.push('/');
    trimmed_keeps(name);
    trimmed_keeps(prefixed);
    trimmed_keeps(suffixed);
    assert(prefixed.take(2) =~= seq!['.', '/']);
    assert(prefixed.skip(2) =~= name);
    if without_dot_slash(name) != seq!['.'] {
        slash_stays_behind(name);
        let bare = without_dot_slash(name);
        assert(bare.push('/').drop_last() =~= bare);
    }
}

/// A repo is named without the `./` it starts with and without the slashes it
/// ends with, and a plain name is kept.
pub proof fn named_repos_are_plain(raw: Seq<char>)
    ensures
        named_repo(raw).len() > 0 ==> named_repo(raw).last() != '/',
        named_repo(raw).len() > 1 ==> !(named_repo(raw)[0] == '.' && named_repo(raw)[1] == '/'),
        raw.len() > 0 && !white(raw[0]) && !white(raw.last()) && raw.last() != '/' && !(raw.len()
            > 1 && raw[0] == '.' && raw[1] == '/') ==> named_repo(raw) == raw,
{
    let a = trimmed(raw);
    let b = without_dot_slash(a);
    dot_slash_goes(a);
    end_slash_goes(b);
    if raw.len() > 0 && !white(raw[0]) && !white(raw.last()) {
        trimmed_keeps(raw);
        if starts_with(raw, seq!['.', '/']) {
            assert(raw.take(2)[0] == '.' && raw.take(2)[1] == '/');
        }
    }
}

proof fn dot_slash_goes(s: Seq<char>)
    ensures
        without_dot_slash(s).len() > 1 ==> !(without_dot_slash(s)[0] == '.' && without_dot_slash(
            s,
        )[1] == '/'),
    decreases s.len(),
{
    if starts_with(s, seq!['.', '/']) {
        dot_slash_goes(s.skip(2));
    } else if s.len() > 1 && s[0] == '.' && s[1] == '/' {
        assert(s.take(2) =~= seq!['.', '/']);
    }
}

proof fn end_slash_goes(s: Seq<char>)
    ensures
        without_end_slash(s).len() > 0 ==> without_end_slash(s).last() != '/',
        without_end_slash(s).is_prefix_of(s),
    decreases s.len(),
{
    if s.len() > 0 && s.last() == '/' {
        end_slash_goes(s.drop_last());
    }
}

} // verus!
