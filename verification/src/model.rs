//! Projects, their manifests and their locks.

use vstd::prelude::*;
use crate::order::{text_before, text_order_is_irreflexive};
use crate::violation::{ProjectName, RepoPath, RevisionId};

verus! {

/// What a project uses a repo for. A reference repo need not be cloned.
#[derive(Debug, Clone, Copy, PartialEq, Eq, Structural)]
pub enum Role {
    Owned,
    Dependency,
    Reference,
}

/// The version-control backend a repo is kept with.
#[derive(Debug, Clone, Copy, PartialEq, Eq, Structural)]
pub enum VcsType {
    Git,
}

/// One repo of a manifest.
#[derive(Debug, Clone)]
pub struct RepoEntry {
    pub vcs_type: VcsType,
    pub url: String,
    pub version: String,
    pub role: Role,
}

/// The repos a project is made of, in the order of their paths.
#[derive(Debug, Clone)]
pub struct Manifest {
    pub repositories: Vec<(RepoPath, RepoEntry)>,
}

/// One pin of a lock.
#[derive(Debug, Clone)]
pub struct LockEntry {
    pub vcs_type: VcsType,
    pub url: String,
    pub version: String,
}

/// The pins of a project, in the order of their paths.
#[derive(Debug, Clone)]
pub struct LockFile {
    pub repositories: Vec<(RepoPath, LockEntry)>,
}

/// A lock whose pins were resolved against the clones on disk.
#[derive(Debug, Clone)]
pub struct ResolvedLockFile {
    pub repositories: Vec<(RepoPath, RevisionId)>,
}

/// A loaded project.
#[derive(Debug, Clone)]
pub struct Project {
    pub name: ProjectName,
    pub manifest: Manifest,
    pub lock: Option<LockFile>,
}

/// Whether entries are in the order of their paths, each path once.
pub open spec fn in_path_order<V>(list: Seq<(RepoPath, V)>) -> bool {
    forall|i: int, j: int|
        0 <= i < j < list.len() ==> text_before((#[trigger] list[i]).0@, (#[trigger] list[j]).0@)
}

impl Manifest {
    /// Whether the repos are in the order of their paths, each once.
    pub open spec fn in_order(self) -> bool {
        in_path_order(self.repositories@)
    }
}

impl LockFile {
    /// Whether the pins are in the order of their paths, each once.
    pub open spec fn in_order(self) -> bool {
        in_path_order(self.repositories@)
    }
}

impl ResolvedLockFile {
    /// Whether the pins are in the order of their paths, each once.
    pub open spec fn in_order(self) -> bool {
        in_path_order(self.repositories@)
    }
}

/// Leaving entries out keeps the others in order.
pub proof fn filtering_keeps_path_order<V>(
    list: Seq<(RepoPath, V)>,
    keep: spec_fn((RepoPath, V)) -> bool,
)
    requires
        in_path_order(list),
    ensures
        in_path_order(list.filter(keep)),
    decreases list.len(),
{
    reveal(Seq::filter);
    if list.len() > 0 {
        let init = list.drop_last();
        let kept = init.filter(keep);
        filtering_keeps_path_order(init, keep);
        assert forall|i: int| 0 <= i < kept.len() implies text_before(
            (#[trigger] kept[i]).0@,
            list.last().0@,
        ) by {
            init.lemma_filter_contains_rev(keep, kept[i]);
            let n = choose|n: int| 0 <= n < init.len() && init[n] == kept[i];
            assert(list[n] == init[n]);
        }
    }
}

/// In a list in order, every entry is the one its path gives.
pub proof fn ordered_entries_are_found<V>(list: Seq<(RepoPath, V)>, i: int)
    requires
        in_path_order(list),
        0 <= i < list.len(),
    ensures
        value_of(list, list[i].0@) == Some(list[i].1),
    decreases list.len(),
{
    let init = list.drop_last();
    if i < init.len() {
        assert(init[i] == list[i]);
        ordered_entries_are_found(init, i);
    } else if value_of(init, list[i].0@) is Some {
        value_is_listed(init, list[i].0@);
        let n = choose|n: int| 0 <= n < init.len() && (#[trigger] init[n]).0@ == list[i].0@;
        assert(list[n] == init[n]);
        text_order_is_irreflexive(list[i].0@);
    }
}

/// Whether the manifest lists `repo`.
pub open spec fn manifest_lists(m: Manifest, repo: Seq<char>) -> bool {
    exists|i: int| 0 <= i < m.repositories@.len() && (#[trigger] m.repositories@[i]).0@ == repo
}

/// Whether the lock pins `repo`.
pub open spec fn lock_pins(l: LockFile, repo: Seq<char>) -> bool {
    exists|i: int| 0 <= i < l.repositories@.len() && (#[trigger] l.repositories@[i]).0@ == repo
}

impl Manifest {
    /// Whether the manifest lists `repo`.
    pub fn lists(&self, repo: &RepoPath) -> (listed: bool)
        ensures
            listed == manifest_lists(*self, repo@),
    {
        let mut i: usize = 0;
        while i < self.repositories.len()
            invariant
                0 <= i <= self.repositories.len(),
                forall|k: int| 0 <= k < i ==> (#[trigger] self.repositories@[k]).0@ != repo@,
            decreases self.repositories.len() - i,
        {
            if self.repositories[i].0 == *repo {
                return true;
            }
            i = i + 1;
        }
        false
    }
}

impl LockFile {
    /// Whether the lock pins `repo`.
    pub fn pins(&self, repo: &RepoPath) -> (pinned: bool)
        ensures
            pinned == lock_pins(*self, repo@),
    {
        let mut i: usize = 0;
        while i < self.repositories.len()
            invariant
                0 <= i <= self.repositories.len(),
                forall|k: int| 0 <= k < i ==> (#[trigger] self.repositories@[k]).0@ != repo@,
            decreases self.repositories.len() - i,
        {
            if self.repositories[i].0 == *repo {
                return true;
            }
            i = i + 1;
        }
        false
    }
}

/// The value the list gives for `key`: that of its first entry for it.
pub open spec fn value_of<V>(list: Seq<(String, V)>, key: Seq<char>) -> Option<V>
    decreases list.len(),
{
    if list.len() == 0 {
        None
    } else {
        match value_of(list.drop_last(), key) {
            Some(v) => Some(v),
            None => if list.last().0@ == key {
                Some(list.last().1)
            } else {
                None
            },
        }
    }
}

/// A value found for a key stays the one given however many entries follow.
pub proof fn value_stays<V>(list: Seq<(String, V)>, n: int, key: Seq<char>)
    requires
        0 <= n <= list.len(),
        value_of(list.take(n), key) is Some,
    ensures
        value_of(list, key) == value_of(list.take(n), key),
    decreases list.len(),
{
    if n == list.len() {
        assert(list.take(n) =~= list);
    } else {
        assert(list.drop_last().take(n) =~= list.take(n));
        value_stays(list.drop_last(), n, key);
    }
}

/// A key has a value exactly where some entry carries it.
pub proof fn value_is_listed<V>(list: Seq<(String, V)>, key: Seq<char>)
    ensures
        value_of(list, key) is Some <==> exists|i: int|
            0 <= i < list.len() && (#[trigger] list[i]).0@ == key,
    decreases list.len(),
{
    if list.len() > 0 {
        let init = list.drop_last();
        value_is_listed(init, key);
        if value_of(list, key) is Some {
            if value_of(init, key) is Some {
                let i = choose|i: int| 0 <= i < init.len() && (#[trigger] init[i]).0@ == key;
                assert(list[i].0@ == key);
            } else {
                assert(list[list.len() - 1].0@ == key);
            }
        }
        if exists|i: int| 0 <= i < list.len() && (#[trigger] list[i]).0@ == key {
            let i = choose|i: int| 0 <= i < list.len() && (#[trigger] list[i]).0@ == key;
            if i < init.len() {
                assert(init[i].0@ == key);
            }
        }
    }
}

/// The value the list gives for `key`.
pub fn lookup<'a, V>(list: &'a Vec<(String, V)>, key: &String) -> (value: Option<&'a V>)
    ensures
        match value {
            Some(v) => value_of(list@, key@) == Some(*v),
            None => value_of(list@, key@) is None,
        },
{
    let mut i: usize = 0;
    while i < list.len()
        invariant
            0 <= i <= list.len(),
            value_of(list@.take(i as int), key@) is None,
        decreases list.len() - i,
    {
        proof {
            assert(list@.take(i as int + 1).drop_last() =~= list@.take(i as int));
            assert(list@.take(i as int + 1).last() == list@[i as int]);
        }
        if list[i].0 == *key {
            proof {
                value_stays(list@, i as int + 1, key@);
            }
            return Some(&list[i].1);
        }
        i = i + 1;
    }
    assert(list@.take(i as int) =~= list@);
    None
}

/// A key's value is that of the first entry that has it.
pub proof fn first_entries_are_found<V>(list: Seq<(String, V)>, key: Seq<char>)
    ensures
        match value_of(list, key) {
            None => forall|i: int| 0 <= i < list.len() ==> (#[trigger] list[i]).0@ != key,
            Some(v) => exists|i: int|
                #![trigger list[i]]
                0 <= i < list.len() && list[i].0@ == key && list[i].1 == v && forall|j: int|
                    0 <= j < i ==> (#[trigger] list[j]).0@ != key,
        },
    decreases list.len(),
{
    if list.len() > 0 {
        let init = list.drop_last();
        let n = list.len() - 1;
        first_entries_are_found(init, key);
        assert forall|j: int| 0 <= j < n implies #[trigger] list[j] == init[j] by {}
        match value_of(init, key) {
            Some(v) => {
                let i = choose|i: int|
                    #![trigger init[i]]
                    0 <= i < init.len() && init[i].0@ == key && init[i].1 == v && forall|j: int|
                        0 <= j < i ==> (#[trigger] init[j]).0@ != key;
                assert(list[i] == init[i]);
                assert forall|j: int| 0 <= j < i implies (#[trigger] list[j]).0@ != key by {
                    assert(init[j].0@ != key);
                }
            },
            None => {
                assert forall|j: int| 0 <= j < n implies (#[trigger] list[j]).0@ != key by {
                    assert(init[j].0@ != key);
                }
                assert(list[n] == list.last());
            },
        }
    }
}

} // verus!
