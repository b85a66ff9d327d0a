//! Checkouts attached to the wrong object store.

use vstd::prelude::*;
use crate::lists::{flat_map_contains, joined_lists_contain, single_contains};
use crate::violation::{CheckViolation, CloneTopologyKind, PathText, RepoPath};
use crate::violation_view::{CheckViolationView, CloneTopologyKindView};

verus! {

/// An object store: its path as it was found, and that path resolved.
#[derive(Debug)]
pub struct StorePath {
    pub raw: PathText,
    pub canonical: PathText,
}

/// A repo's checkout in a workweave.
#[derive(Debug)]
pub struct CheckoutStores {
    pub path: PathText,
    /// Whether it is an alias of a reference clone.
    pub is_alias: bool,
    /// The store it is attached to; `None` where there is no checkout.
    pub store: Option<StorePath>,
    /// Where a store of its own would be, resolved.
    pub own_store: PathText,
}

/// A repo's slot in the weave, and its checkouts in the workweaves.
#[derive(Debug)]
pub struct RepoStores {
    pub repo: RepoPath,
    pub slot: PathText,
    /// The store the slot is attached to; `None` where nothing is there.
    pub store: Option<StorePath>,
    /// Where the slot's own store is expected.
    pub expected: StorePath,
    pub checkouts: Vec<CheckoutStores>,
}

/// A clone-topology finding.
pub open spec fn topology_finding(
    path: Seq<char>,
    repo: Seq<char>,
    sub_kind: CloneTopologyKindView,
) -> CheckViolationView {
    CheckViolationView::CloneTopology { workspace_path: path, repo, sub_kind }
}

/// What the slot itself raises: its store is not its own.
pub open spec fn slot_findings(r: RepoStores) -> Seq<CheckViolationView> {
    match r.store {
        Some(store) => if store.canonical@ != r.expected.canonical@ {
            seq![
                topology_finding(
                    r.slot@,
                    r.repo@,
                    CloneTopologyKindView::WeaveCloneIsWorktree { actual_store_path: store.raw@ },
                ),
            ]
        } else {
            Seq::empty()
        },
        None => Seq::empty(),
    }
}

/// What one checkout raises: it has a store of its own, or one that is not the
/// slot's.
pub open spec fn checkout_findings(r: RepoStores, c: CheckoutStores) -> Seq<CheckViolationView> {
    match c.store {
        Some(store) => if c.is_alias {
            Seq::empty()
        } else if store.canonical@ == c.own_store@ {
            seq![
                topology_finding(
                    c.path@,
                    r.repo@,
                    CloneTopologyKindView::StandaloneInWorkweave { store_path: store.raw@ },
                ),
            ]
        } else if store.canonical@ != r.expected.canonical@ {
            seq![
                topology_finding(
                    c.path@,
                    r.repo@,
                    CloneTopologyKindView::WrongParentWorktree {
                        expected_store_path: r.expected.raw@,
                        actual_store_path: store.raw@,
                    },
                ),
            ]
        } else {
            Seq::empty()
        },
        None => Seq::empty(),
    }
}

/// What each checkout raises.
pub open spec fn checkout_rule(r: RepoStores) -> spec_fn(CheckoutStores) -> Seq<CheckViolationView> {
    |c: CheckoutStores| checkout_findings(r, c)
}

/// Whether a checkout's store is the one the slot is attached to.
pub open spec fn agrees(r: RepoStores, store: StorePath) -> bool {
    r.store matches Some(s) && s.canonical@ == store.canonical@
}

/// The store that stands for what the checkouts use: the last that is not the
/// slot's, or else the first.
pub open spec fn representative(r: RepoStores, checkouts: Seq<CheckoutStores>) -> Option<StorePath>
    decreases checkouts.len(),
{
    if checkouts.len() == 0 {
        None
    } else {
        let before = representative(r, checkouts.drop_last());
        let c = checkouts.last();
        match c.store {
            Some(store) => if !c.is_alias && (before is None || !agrees(r, store)) {
                Some(store)
            } else {
                before
            },
            None => before,
        }
    }
}

/// What is raised where the slot has its own store and the checkouts use
/// another.
pub open spec fn disconnection_findings(r: RepoStores) -> Seq<CheckViolationView> {
    match (r.store, representative(r, r.checkouts@)) {
        (Some(store), Some(other)) => if store.canonical@ == r.expected.canonical@
            && other.canonical@ != r.expected.canonical@ {
            seq![
                topology_finding(
                    r.slot@,
                    r.repo@,
                    CloneTopologyKindView::DisconnectedWeaveClone {
                        weave_store_path: store.raw@,
                        other_store_path: other.raw@,
                    },
                ),
            ]
        } else {
            Seq::empty()
        },
        _ => Seq::empty(),
    }
}

/// What one repo's stores raise.
pub open spec fn repo_topology_findings(r: RepoStores) -> Seq<CheckViolationView> {
    slot_findings(r) + r.checkouts@.flat_map(checkout_rule(r)) + disconnection_findings(r)
}

/// Adds a clone-topology finding.
fn push_topology(
    violations: &mut Vec<CheckViolation>,
    path: &PathText,
    repo: &RepoPath,
    kind: CloneTopologyKind,
)
    ensures
        final(violations).deep_view() == old(violations).deep_view().push(
            topology_finding(path@, repo@, kind.deep_view()),
        ),
{
    let ghost before = violations.deep_view();
    violations.push(
        CheckViolation::CloneTopology {
            workspace_path: path.clone(),
            repo: repo.clone(),
            sub_kind: kind,
        },
    );
    assert(violations.deep_view() =~= before.push(
        topology_finding(path@, repo@, kind.deep_view()),
    ));
}

/// Adds what one checkout raises.
fn push_checkout(violations: &mut Vec<CheckViolation>, r: &RepoStores, c: &CheckoutStores)
    ensures
        final(violations).deep_view() == old(violations).deep_view() + checkout_findings(*r, *c),
{
    let ghost before = violations.deep_view();
    if !c.is_alias {
        if let Some(store) = &c.store {
            if store.canonical == c.own_store {
                push_topology(
                    violations,
                    &c.path,
                    &r.repo,
                    CloneTopologyKind::StandaloneInWorkweave { store_path: store.raw.clone() },
                );
            } else if store.canonical != r.expected.canonical {
                push_topology(
                    violations,
                    &c.path,
                    &r.repo,
                    CloneTopologyKind::WrongParentWorktree {
                        expected_store_path: r.expected.raw.clone(),
                        actual_store_path: store.raw.clone(),
                    },
                );
            }
        }
    }
    assert(violations.deep_view() =~= before + checkout_findings(*r, *c));
}

/// The store that stands for what the checkouts use.
fn find_representative<'a>(r: &'a RepoStores) -> (found: Option<&'a StorePath>)
    ensures
        match found {
            Some(s) => representative(*r, r.checkouts@) == Some(*s),
            None => representative(*r, r.checkouts@) is None,
        },
{
    let mut found: Option<&'a StorePath> = None;
    let mut i: usize = 0;
    while i < r.checkouts.len()
        invariant
            0 <= i <= r.checkouts.len(),
            match found {
                Some(s) => representative(*r, r.checkouts@.take(i as int)) == Some(*s),
                None => representative(*r, r.checkouts@.take(i as int)) is None,
            },
        decreases r.checkouts.len() - i,
    {
        proof {
            assert(r.checkouts@.take(i as int + 1).drop_last() =~= r.checkouts@.take(i as int));
        }
        let c: &'a CheckoutStores = &r.checkouts[i];
        if !c.is_alias {
            if let Some(store) = &c.store {
                let same: bool = match &r.store {
                    Some(s) => s.canonical == store.canonical,
                    None => false,
                };
                if found.is_none() || !same {
                    found = Some(store);
                }
            }
        }
        i = i + 1;
    }
    assert(r.checkouts@.take(i as int) =~= r.checkouts@);
    found
}

/// Adds what one repo's stores raise.
fn push_repo(violations: &mut Vec<CheckViolation>, r: &RepoStores)
    ensures
        final(violations).deep_view() == old(violations).deep_view() + repo_topology_findings(*r),
{
    let ghost start = violations.deep_view();
    if let Some(store) = &r.store {
        if store.canonical != r.expected.canonical {
            push_topology(
                violations,
                &r.slot,
                &r.repo,
                CloneTopologyKind::WeaveCloneIsWorktree { actual_store_path: store.raw.clone() },
            );
        }
    }
    let ghost f = checkout_rule(*r);
    let mut i: usize = 0;
    assert(violations.deep_view() =~= start + slot_findings(*r) + r.checkouts@.take(0).flat_map(f));
    while i < r.checkouts.len()
        invariant
            0 <= i <= r.checkouts.len(),
            f == checkout_rule(*r),
            violations.deep_view() == start + slot_findings(*r) + r.checkouts@.take(
                i as int,
            ).flat_map(f),
        decreases r.checkouts.len() - i,
    {
        push_checkout(violations, r, &r.checkouts[i]);
        proof {
            r.checkouts@.lemma_flat_map_take_append(f, i as int);
            assert(violations.deep_view() =~= start + slot_findings(*r) + r.checkouts@.take(
                i as int + 1,
            ).flat_map(f));
        }
        i = i + 1;
    }
    assert(r.checkouts@.take(i as int) =~= r.checkouts@);
    let ghost middle = violations.deep_view();
    if let Some(store) = &r.store {
        if store.canonical == r.expected.canonical {
            if let Some(other) = find_representative(r) {
                if other.canonical != r.expected.canonical {
                    push_topology(
                        violations,
                        &r.slot,
                        &r.repo,
                        CloneTopologyKind::DisconnectedWeaveClone {
                            weave_store_path: store.raw.clone(),
                            other_store_path: other.raw.clone(),
                        },
                    );
                }
            }
        }
    }
    assert(violations.deep_view() =~= middle + disconnection_findings(*r));
    assert(violations.deep_view() =~= start + repo_topology_findings(*r));
}

/// Reports, for each repo in the order given, a slot whose store is not its
/// own, checkouts attached elsewhere, and a slot that no checkout uses.
pub fn scan_clone_topology(repos: &Vec<RepoStores>) -> (violations: Vec<CheckViolation>)
    ensures
        violations.deep_view() == repos@.flat_map(|r: RepoStores| repo_topology_findings(r)),
{
    let ghost f = |r: RepoStores| repo_topology_findings(r);
    let mut violations: Vec<CheckViolation> = Vec::new();
    let mut i: usize = 0;
    assert(violations.deep_view() =~= repos@.take(0).flat_map(f));
    while i < repos.len()
        invariant
            0 <= i <= repos.len(),
            f == (|r: RepoStores| repo_topology_findings(r)),
            violations.deep_view() == repos@.take(i as int).flat_map(f),
        decreases repos.len() - i,
    {
        push_repo(&mut violations, &repos[i]);
        proof {
            repos@.lemma_flat_map_take_append(f, i as int);
        }
        i = i + 1;
    }
    assert(repos@.take(i as int) =~= repos@);
    violations
}

/// A repo whose slot has its own store, and whose checkouts are all attached
/// to that store, raises nothing.
pub proof fn sound_topology_raises_nothing(r: RepoStores)
    requires
        r.store matches Some(s) && s.canonical@ == r.expected.canonical@,
        forall|i: int|
            0 <= i < r.checkouts@.len() ==> attached_soundly(r, #[trigger] r.checkouts@[i]),
    ensures
        repo_topology_findings(r).len() == 0,
{
    representative_is_sound(r, r.checkouts@.len() as int);
    no_checkout_raises(r, r.checkouts@.len() as int);
    assert(r.checkouts@.take(r.checkouts@.len() as int) =~= r.checkouts@);
}

/// Whether a checkout is an alias, absent, or attached to the slot's store
/// and not to one of its own.
pub open spec fn attached_soundly(r: RepoStores, c: CheckoutStores) -> bool {
    c.is_alias || match c.store {
        None => true,
        Some(s) => s.canonical@ == r.expected.canonical@ && s.canonical@ != c.own_store@,
    }
}

proof fn representative_is_sound(r: RepoStores, n: int)
    requires
        0 <= n <= r.checkouts@.len(),
        forall|i: int|
            0 <= i < r.checkouts@.len() ==> attached_soundly(r, #[trigger] r.checkouts@[i]),
    ensures
        representative(r, r.checkouts@.take(n)) matches Some(s) ==> s.canonical@
            == r.expected.canonical@,
    decreases n,
{
    if n > 0 {
        representative_is_sound(r, n - 1);
        assert(r.checkouts@.take(n).drop_last() =~= r.checkouts@.take(n - 1));
        assert(r.checkouts@.take(n).last() == r.checkouts@[n - 1]);
        assert(attached_soundly(r, r.checkouts@[n - 1]));
    }
}

proof fn no_checkout_raises(r: RepoStores, n: int)
    requires
        0 <= n <= r.checkouts@.len(),
        forall|i: int|
            0 <= i < r.checkouts@.len() ==> attached_soundly(r, #[trigger] r.checkouts@[i]),
    ensures
        r.checkouts@.take(n).flat_map(checkout_rule(r)).len() == 0,
    decreases n,
{
    if n > 0 {
        no_checkout_raises(r, n - 1);
        r.checkouts@.lemma_flat_map_take_append(checkout_rule(r), n - 1);
        assert(attached_soundly(r, r.checkouts@[n - 1]));
    } else {
        assert(r.checkouts@.take(0) =~= Seq::empty());
    }
}

/// The clone of a weave is reported exactly where its store is not the one
/// expected there.
pub proof fn linked_weave_clones_are_told(r: RepoStores, v: CheckViolationView)
    ensures
        slot_findings(r).contains(v) <==> (r.store matches Some(store) && store.canonical@
            != r.expected.canonical@ && v == (CheckViolationView::CloneTopology {
            workspace_path: r.slot@,
            repo: r.repo@,
            sub_kind: CloneTopologyKindView::WeaveCloneIsWorktree { actual_store_path: store.raw@ },
        })),
{
    if slot_findings(r).len() > 0 {
        single_contains(slot_findings(r)[0], v);
        assert(slot_findings(r) =~= seq![slot_findings(r)[0]]);
    }
}

/// A checkout of a workweave is sound exactly where it shares the store of the
/// weave's clone and has none of its own. One with its own store is told as
/// standalone, and any other as a worktree of the wrong clone, with the store
/// that is expected and the one that was found.
pub proof fn unsound_checkouts_are_told(r: RepoStores, c: CheckoutStores, v: CheckViolationView)
    ensures
        checkout_findings(r, c).contains(v) <==> !c.is_alias && (c.store matches Some(store) && {
            ||| store.canonical@ == c.own_store@ && v == (CheckViolationView::CloneTopology {
                workspace_path: c.path@,
                repo: r.repo@,
                sub_kind: CloneTopologyKindView::StandaloneInWorkweave { store_path: store.raw@ },
            })
            ||| store.canonical@ != c.own_store@ && store.canonical@ != r.expected.canonical@ && v
                == (CheckViolationView::CloneTopology {
                workspace_path: c.path@,
                repo: r.repo@,
                sub_kind: CloneTopologyKindView::WrongParentWorktree {
                    expected_store_path: r.expected.raw@,
                    actual_store_path: store.raw@,
                },
            })
        }),
        checkout_findings(r, c).len() == 0 <==> attached_soundly(r, c),
{
    if checkout_findings(r, c).len() > 0 {
        single_contains(checkout_findings(r, c)[0], v);
        assert(checkout_findings(r, c) =~= seq![checkout_findings(r, c)[0]]);
    }
}

/// A repo's findings are those of its slot, of its checkouts, and of the
/// connection between them.
pub proof fn every_checkout_is_looked_at(r: RepoStores, v: CheckViolationView)
    ensures
        repo_topology_findings(r).contains(v) <==> {
            ||| slot_findings(r).contains(v)
            ||| exists|i: int|
                0 <= i < r.checkouts@.len() && checkout_findings(
                    r,
                    #[trigger] r.checkouts@[i],
                ).contains(v)
            ||| disconnection_findings(r).contains(v)
        },
{
    let f = checkout_rule(r);
    let a = slot_findings(r);
    let b = r.checkouts@.flat_map(f);
    joined_lists_contain(a, b, v);
    joined_lists_contain(a + b, disconnection_findings(r), v);
    flat_map_contains(r.checkouts@, f, v);
    if b.contains(v) {
        let i = choose|i: int|
            0 <= i < r.checkouts@.len() && (#[trigger] f(r.checkouts@[i])).contains(v);
        assert(checkout_findings(r, r.checkouts@[i]).contains(v));
    }
    assert forall|i: int|
        0 <= i < r.checkouts@.len() && checkout_findings(r, #[trigger] r.checkouts@[i]).contains(
            v,
        ) implies b.contains(v) by {
        assert(f(r.checkouts@[i]).contains(v));
    }
}

/// A sound clone is told to be disconnected exactly where the checkout that
/// speaks for the others is of another store, and both stores are named.
pub proof fn disconnected_clones_are_told(r: RepoStores, v: CheckViolationView)
    ensures
        disconnection_findings(r).contains(v) <==> (r.store matches Some(store) && (representative(
            r,
            r.checkouts@,
        ) matches Some(other) && store.canonical@ == r.expected.canonical@ && other.canonical@
            != store.canonical@ && v == (CheckViolationView::CloneTopology {
            workspace_path: r.slot@,
            repo: r.repo@,
            sub_kind: CloneTopologyKindView::DisconnectedWeaveClone {
                weave_store_path: store.raw@,
                other_store_path: other.raw@,
            },
        }))),
{
    if disconnection_findings(r).len() > 0 {
        single_contains(disconnection_findings(r)[0], v);
        assert(disconnection_findings(r) =~= seq![disconnection_findings(r)[0]]);
    }
}

/// The store that speaks for a repo's checkouts is one of theirs. One that does
/// not agree with the weave's clone is preferred, and where any disagrees, it
/// is such a one.
pub proof fn disagreeing_checkouts_speak(r: RepoStores, checkouts: Seq<CheckoutStores>)
    ensures
        representative(r, checkouts) matches Some(s) ==> exists|i: int|
            #![trigger checkouts[i]]
            0 <= i < checkouts.len() && !checkouts[i].is_alias && checkouts[i].store == Some(s),
        representative(r, checkouts) is None <==> forall|i: int|
            0 <= i < checkouts.len() ==> (#[trigger] checkouts[i]).is_alias || checkouts[i].store
                is None,
        (exists|i: int|
            #![trigger checkouts[i]]
            0 <= i < checkouts.len() && !checkouts[i].is_alias && (checkouts[i].store
                matches Some(s) && !agrees(r, s))) ==> !agrees(r, representative(r, checkouts)->0),
    decreases checkouts.len(),
{
    if checkouts.len() > 0 {
        let init = checkouts.drop_last();
        let n = checkouts.len() - 1;
        disagreeing_checkouts_speak(r, init);
        assert(checkouts[n] == checkouts.last());
        assert forall|i: int| 0 <= i < n implies #[trigger] checkouts[i] == init[i] by {}
        if let Some(s) = representative(r, init) {
            let i = choose|i: int|
                #![trigger init[i]]
                0 <= i < init.len() && !init[i].is_alias && init[i].store == Some(s);
            assert(checkouts[i] == init[i]);
        }
    }
}

} // verus!
