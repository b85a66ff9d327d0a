//! Names of one directory that a case-folding filesystem cannot tell apart.

use vstd::prelude::*;
use crate::lists::{flat_map_contains, flat_map_holds};
use crate::model::{Manifest, Project, RepoEntry};
use crate::order::{
    arranged, arranging_keeps_everything, distinct, distinct_keeps_each_once,
    every_place_is_ordered, note, order_is_sorted, order_of, sort_order,
};
use crate::text::chars_of;
use crate::violation::CheckViolation;
use crate::violation_view::CheckViolationView;

verus! {

/// The names recorded under one parent, and how the report calls that parent.
#[derive(Debug)]
pub struct SiblingGroup {
    pub label: String,
    pub names: Vec<String>,
}

/// What a [`SiblingGroup`] says.
pub struct SiblingGroupView {
    pub label: Seq<char>,
    pub names: Seq<Seq<char>>,
}

impl DeepView for SiblingGroup {
    type V = SiblingGroupView;

    open spec fn deep_view(&self) -> SiblingGroupView {
        SiblingGroupView { label: self.label@, names: self.names.deep_view() }
    }
}

/// Where the last separator of a path is, or -1.
pub open spec fn last_slash(path: Seq<char>) -> int
    decreases path.len(),
{
    if path.len() == 0 {
        -1
    } else if path.last() == '/' {
        path.len() - 1
    } else {
        last_slash(path.drop_last())
    }
}

/// What stands before the last separator of a path.
pub open spec fn parent_part(path: Seq<char>) -> Seq<char> {
    if last_slash(path) < 0 {
        Seq::empty()
    } else {
        path.subrange(0, last_slash(path))
    }
}

/// What stands behind the last separator of a path.
pub open spec fn leaf_part(path: Seq<char>) -> Seq<char> {
    path.subrange(last_slash(path) + 1, path.len() as int)
}

/// The last separator stands within its path.
pub proof fn last_slash_is_within(path: Seq<char>)
    ensures
        -1 <= last_slash(path) < path.len(),
    decreases path.len(),
{
    if path.len() > 0 && path.last() != '/' {
        last_slash_is_within(path.drop_last());
    }
}

/// Splits a path at its last separator.
pub fn split_path(path: &str) -> (parts: (String, String))
    ensures
        parts.0@ == parent_part(path@),
        parts.1@ == leaf_part(path@),
{
    let chars: Vec<char> = chars_of(path);
    let mut end: usize = chars.len();
    proof {
        last_slash_is_within(path@);
        assert(path@.take(end as int) =~= path@);
    }
    while end > 0 && chars[end - 1] != '/'
        invariant
            chars@ == path@,
            0 <= end <= chars.len(),
            last_slash(path@) == last_slash(path@.take(end as int)),
        decreases end,
    {
        proof {
            assert(path@.take(end as int).last() == chars@[end - 1]);
            assert(path@.take(end as int).drop_last() =~= path@.take(end - 1));
        }
        end = end - 1;
    }
    let all: usize = path.unicode_len();
    if end == 0 {
        (String::new(), path.substring_char(0, all).to_owned())
    } else {
        assert(path@.take(end as int).last() == '/');
        (path.substring_char(0, end - 1).to_owned(), path.substring_char(end, all).to_owned())
    }
}

/// How the report calls a parent of recorded repo paths.
pub open spec fn group_label(project: Seq<char>, parent: Seq<char>) -> Seq<char> {
    if parent.len() == 0 {
        "project `"@ + project + "`"@
    } else {
        "project `"@ + project + "` at "@ + parent
    }
}

/// The paths a manifest records.
pub open spec fn recorded_paths(m: Manifest) -> Seq<Seq<char>> {
    m.repositories@.map_values(|r: (String, RepoEntry)| r.0@)
}

/// The parents of recorded paths, in order, none of them twice.
pub open spec fn ordered_parents(paths: Seq<Seq<char>>) -> Seq<Seq<char>> {
    let parents = distinct(paths.map_values(|p: Seq<char>| parent_part(p)));
    arranged(parents, parents)
}

/// The leaf a path has under a parent, if it is there.
pub open spec fn leaf_under(parent: Seq<char>) -> spec_fn(Seq<char>) -> Seq<Seq<char>> {
    |p: Seq<char>| if parent_part(p) == parent { seq![leaf_part(p)] } else { Seq::empty() }
}

/// The names recorded under one parent.
pub open spec fn group_of(
    project: Seq<char>,
    paths: Seq<Seq<char>>,
) -> spec_fn(Seq<char>) -> SiblingGroupView {
    |parent: Seq<char>|
        SiblingGroupView {
            label: group_label(project, parent),
            names: paths.flat_map(leaf_under(parent)),
        }
}

/// The names a project records, grouped by parent.
pub open spec fn project_groups(p: Project) -> Seq<SiblingGroupView> {
    let paths = recorded_paths(p.manifest);
    ordered_parents(paths).map_values(group_of(p.name@, paths))
}

/// The names under `parent`.
fn leaves_under(manifest: &Manifest, parent: &String) -> (names: Vec<String>)
    ensures
        names.deep_view() == recorded_paths(*manifest).flat_map(leaf_under(parent@)),
{
    let ghost paths = recorded_paths(*manifest);
    let ghost f = leaf_under(parent@);
    let mut names: Vec<String> = Vec::new();
    let mut i: usize = 0;
    assert(names.deep_view() =~= paths.take(0).flat_map(f));
    while i < manifest.repositories.len()
        invariant
            0 <= i <= manifest.repositories.len(),
            paths == recorded_paths(*manifest),
            f == leaf_under(parent@),
            names.deep_view() == paths.take(i as int).flat_map(f),
        decreases manifest.repositories.len() - i,
    {
        let ghost prior = names.deep_view();
        let (above, leaf): (String, String) = split_path(&manifest.repositories[i].0);
        if above == *parent {
            names.push(leaf);
        }
        proof {
            paths.lemma_flat_map_take_append(f, i as int);
            assert(names.deep_view() =~= prior + f(paths[i as int]));
        }
        i = i + 1;
    }
    assert(paths.take(i as int) =~= paths);
    names
}

/// Groups the repo paths a project records by their parents.
pub fn sibling_groups(project: &Project) -> (groups: Vec<SiblingGroup>)
    ensures
        groups.deep_view() == project_groups(*project),
{
    let ghost paths = recorded_paths(project.manifest);
    let ghost all = paths.map_values(|p: Seq<char>| parent_part(p));
    let mut parents: Vec<String> = Vec::new();
    let mut i: usize = 0;
    assert(parents.deep_view() =~= distinct(all.take(0)));
    while i < project.manifest.repositories.len()
        invariant
            0 <= i <= project.manifest.repositories.len(),
            paths == recorded_paths(project.manifest),
            all == paths.map_values(|p: Seq<char>| parent_part(p)),
            parents.deep_view() == distinct(all.take(i as int)),
        decreases project.manifest.repositories.len() - i,
    {
        let (parent, _leaf): (String, String) = split_path(&project.manifest.repositories[i].0);
        proof {
            assert(all.take(i as int + 1).drop_last() =~= all.take(i as int));
            assert(all.take(i as int + 1).last() == parent@);
        }
        let _new: bool = note(&mut parents, &parent);
        i = i + 1;
    }
    assert(all.take(i as int) =~= all);
    let ghost ps = distinct(all);
    let mut keys: Vec<Vec<char>> = Vec::new();
    let mut n: usize = 0;
    while n < parents.len()
        invariant
            0 <= n <= parents.len(),
            parents.deep_view() == ps,
            keys@.len() == n,
            forall|k: int| 0 <= k < n ==> (#[trigger] keys@[k])@ == ps[k],
        decreases parents.len() - n,
    {
        assert(ps[n as int] == parents@[n as int]@);
        keys.push(chars_of(&parents[n]));
        n = n + 1;
    }
    proof {
        assert forall|k: int| 0 <= k < keys@.len() implies keys.deep_view()[k] == ps[k] by {
            assert(keys.deep_view()[k] =~= keys@[k]@);
        }
        assert(keys.deep_view() =~= ps);
    }
    let order: Vec<usize> = sort_order(&keys);
    let mut groups: Vec<SiblingGroup> = Vec::new();
    let mut k: usize = 0;
    while k < order.len()
        invariant
            0 <= k <= order.len(),
            groups@.len() == k,
            parents.deep_view() == ps,
            paths == recorded_paths(project.manifest),
            order@.map_values(|i: usize| i as int) == order_of(ps),
            forall|m: int| 0 <= m < order@.len() ==> (#[trigger] order@[m]) < parents@.len(),
            forall|m: int|
                0 <= m < k ==> (#[trigger] groups@[m]).deep_view() == group_of(
                    project.name@,
                    paths,
                )(ps[order_of(ps)[m]]),
        decreases order.len() - k,
    {
        let parent: &String = &parents[order[k]];
        proof {
            assert(order_of(ps)[k as int] == order@[k as int] as int);
            assert(ps[order@[k as int] as int] == parent@);
        }
        let label: String = if parent.as_str().is_empty() {
            "project `".to_owned().concat(&project.name).concat("`")
        } else {
            "project `".to_owned().concat(&project.name).concat("` at ").concat(parent)
        };
        groups.push(SiblingGroup { label, names: leaves_under(&project.manifest, parent) });
        k = k + 1;
    }
    proof {
        assert forall|m: int| 0 <= m < groups@.len() implies groups.deep_view()[m]
            == project_groups(*project)[m] by {
            assert(arranged(ps, ps)[m] == ps[order_of(ps)[m]]);
            assert(groups.deep_view()[m] == groups@[m].deep_view());
        }
        assert(groups.deep_view() =~= project_groups(*project));
    }
    groups
}

/// Two names of one parent that differ in letter case alone, and the sentence
/// the workspace layer warns of them with.
#[derive(Debug)]
pub struct ConfusablePair {
    pub parent: String,
    pub first: String,
    pub second: String,
    pub warning: String,
}

/// The finding a pair raises.
pub open spec fn pair_finding(p: ConfusablePair) -> CheckViolationView {
    CheckViolationView::ConfusableSiblings {
        parent: p.parent@,
        first: p.first@,
        second: p.second@,
        warning: p.warning@,
    }
}

/// What `Debug` prints for a text: the text between quotes, with special
/// characters escaped.
pub uninterp spec fn debug_text(s: Seq<char>) -> Seq<char>;

/// Calls the `Debug` formatting of `str`, and says that what it prints is a
/// function of the text.
#[verifier::external_body]
fn debug_spelling(s: &str) -> (text: String)
    ensures
        text@ == debug_text(s@),
{
    format!("{s:?}")
}

/// What a pair is ordered and told apart by.
pub open spec fn pair_key(p: ConfusablePair) -> Seq<char> {
    "ConfusableSiblings { parent: "@ + debug_text(p.parent@) + ", first: "@ + debug_text(p.first@)
        + ", second: "@ + debug_text(p.second@) + " }"@
}

/// Spells what a pair is ordered by.
fn key_of_pair(p: &ConfusablePair) -> (key: String)
    ensures
        key@ == pair_key(*p),
{
    "ConfusableSiblings { parent: ".to_owned()
        .concat(&debug_spelling(&p.parent))
        .concat(", first: ")
        .concat(&debug_spelling(&p.first))
        .concat(", second: ")
        .concat(&debug_spelling(&p.second))
        .concat(" }")
}

/// The places that are kept of an ordered list: those whose key is not that
/// of the last one kept.
pub open spec fn kept_places(keys: Seq<Seq<char>>, order: Seq<int>) -> Seq<int>
    decreases order.len(),
{
    if order.len() == 0 {
        Seq::empty()
    } else {
        let init = kept_places(keys, order.drop_last());
        if init.len() > 0 && keys[init.last()] == keys[order.last()] {
            init
        } else {
            init.push(order.last())
        }
    }
}

/// The keys of pairs.
pub open spec fn pair_keys(pairs: Seq<ConfusablePair>) -> Seq<Seq<char>> {
    pairs.map_values(|p: ConfusablePair| pair_key(p))
}

/// What pairs with these keys raise: one finding for each key, in the order of
/// the keys.
pub open spec fn keyed_findings(pairs: Seq<ConfusablePair>, keys: Seq<Seq<char>>) -> Seq<
    CheckViolationView,
> {
    kept_places(keys, order_of(keys)).map_values(|i: int| pair_finding(pairs[i]))
}

/// What pairs raise.
pub open spec fn sibling_findings(pairs: Seq<ConfusablePair>) -> Seq<CheckViolationView> {
    keyed_findings(pairs, pair_keys(pairs))
}

/// Reports pairs of names that a case-folding filesystem cannot tell apart,
/// each pair once.
pub fn scan_confusable_siblings(pairs: &Vec<ConfusablePair>) -> (violations: Vec<CheckViolation>)
    ensures
        violations.deep_view() == sibling_findings(pairs@),
{
    let ghost ks = pair_keys(pairs@);
    let mut names: Vec<String> = Vec::new();
    let mut i: usize = 0;
    while i < pairs.len()
        invariant
            0 <= i <= pairs.len(),
            ks == pair_keys(pairs@),
            names@.len() == i,
            forall|k: int| 0 <= k < i ==> (#[trigger] names@[k])@ == ks[k],
        decreases pairs.len() - i,
    {
        names.push(key_of_pair(&pairs[i]));
        i = i + 1;
    }
    assert(names.deep_view() =~= ks);
    report_by_key(pairs, &names)
}

/// Reports pairs in the order of their keys, and one alone of those that share
/// a key.
pub fn report_by_key(pairs: &Vec<ConfusablePair>, names: &Vec<String>) -> (violations: Vec<
    CheckViolation,
>)
    requires
        names@.len() == pairs@.len(),
    ensures
        violations.deep_view() == keyed_findings(pairs@, names.deep_view()),
{
    let ghost ks = names.deep_view();
    let mut keys: Vec<Vec<char>> = Vec::new();
    let mut i: usize = 0;
    while i < names.len()
        invariant
            0 <= i <= names.len(),
            ks == names.deep_view(),
            keys@.len() == i,
            forall|k: int| 0 <= k < i ==> (#[trigger] keys@[k])@ == ks[k],
        decreases names.len() - i,
    {
        assert(ks[i as int] == names@[i as int]@);
        keys.push(chars_of(&names[i]));
        i = i + 1;
    }
    proof {
        assert forall|k: int| 0 <= k < keys@.len() implies keys.deep_view()[k] == ks[k] by {
            assert(keys.deep_view()[k] =~= keys@[k]@);
        }
        assert(keys.deep_view() =~= ks);
    }
    let order: Vec<usize> = sort_order(&keys);
    let ghost o = order_of(ks);
    let mut kept: Vec<usize> = Vec::new();
    let mut violations: Vec<CheckViolation> = Vec::new();
    let mut k: usize = 0;
    assert(kept@.map_values(|i: usize| i as int) =~= kept_places(ks, o.take(0)));
    while k < order.len()
        invariant
            0 <= k <= order.len(),
            ks == names.deep_view(),
            names@.len() == pairs@.len(),
            order@.map_values(|i: usize| i as int) == o,
            forall|m: int| 0 <= m < order@.len() ==> (#[trigger] order@[m]) < pairs@.len(),
            kept@.map_values(|i: usize| i as int) == kept_places(ks, o.take(k as int)),
            forall|m: int| 0 <= m < kept@.len() ==> (#[trigger] kept@[m]) < pairs@.len(),
            violations@.len() == kept@.len(),
            forall|m: int|
                0 <= m < violations@.len() ==> (#[trigger] violations@[m]).deep_view()
                    == pair_finding(pairs@[kept@[m] as int]),
        decreases order.len() - k,
    {
        let at: usize = order[k];
        let ghost before = kept@;
        proof {
            assert(o[k as int] == at as int);
            assert(o.take(k as int + 1).drop_last() =~= o.take(k as int));
            assert(o.take(k as int + 1).last() == at as int);
            assert(ks[at as int] == names@[at as int]@);
            if before.len() > 0 {
                assert(ks[before.last() as int] == names@[before.last() as int]@);
                assert(before.map_values(|i: usize| i as int).last() == before.last() as int);
            }
        }
        let repeat: bool = kept.len() > 0 && names[kept[kept.len() - 1]] == names[at];
        if !repeat {
            kept.push(at);
            let p: &ConfusablePair = &pairs[at];
            violations.push(
                CheckViolation::ConfusableSiblings {
                    parent: p.parent.clone(),
                    first: p.first.clone(),
                    second: p.second.clone(),
                    warning: p.warning.clone(),
                },
            );
            assert(kept@.map_values(|i: usize| i as int) =~= before.map_values(
                |i: usize| i as int,
            ).push(at as int));
        }
        k = k + 1;
    }
    proof {
        assert(o.take(k as int) =~= o);
        let places = kept_places(ks, o);
        assert forall|m: int| 0 <= m < violations@.len() implies violations.deep_view()[m]
            == keyed_findings(pairs@, ks)[m] by {
            assert(places[m] == kept@[m] as int);
        }
        assert(violations.deep_view() =~= keyed_findings(pairs@, ks));
    }
    violations
}

/// A path is its parent and its leaf with a slash between them, and the leaf
/// holds none; a path without a slash is its own leaf.
pub proof fn paths_split_at_their_last_slash(path: Seq<char>)
    ensures
        !leaf_part(path).contains('/'),
        path.contains('/') ==> path == parent_part(path) + seq!['/'] + leaf_part(path),
        !path.contains('/') ==> parent_part(path).len() == 0 && leaf_part(path) == path,
{
    last_slash_is_within(path);
    slash_is_the_last(path);
    let k = last_slash(path);
    let leaf = leaf_part(path);
    assert forall|i: int| 0 <= i < leaf.len() implies leaf[i] != '/' by {
        assert(leaf[i] == path[k + 1 + i]);
    }
    if path.contains('/') {
        let i = choose|i: int| 0 <= i < path.len() && path[i] == '/';
        assert(k >= 0);
        assert(path =~= parent_part(path) + seq!['/'] + leaf);
    } else {
        if k >= 0 {
            assert(path[k] == '/');
        }
        assert(leaf =~= path);
    }
}

proof fn slash_is_the_last(path: Seq<char>)
    ensures
        last_slash(path) >= 0 ==> path[last_slash(path)] == '/',
        forall|i: int| last_slash(path) < i < path.len() ==> path[i] != '/',
    decreases path.len(),
{
    if path.len() > 0 && path.last() != '/' {
        let init = path.drop_last();
        slash_is_the_last(init);
        last_slash_is_within(init);
        assert forall|i: int| last_slash(path) < i < path.len() implies path[i] != '/' by {
            if i < init.len() {
                assert(init[i] == path[i]);
            }
        }
    }
}

/// Names are compared with their siblings: the group of a parent holds the
/// leaves of the paths below it, and no others, and every path is in the group
/// of its parent.
pub proof fn groups_hold_siblings(p: Project, i: int)
    requires
        0 <= i < p.manifest.repositories@.len(),
    ensures
        ({
            let path = p.manifest.repositories@[i].0@;
            let groups = project_groups(p);
            exists|g: int|
                0 <= g < groups.len() && (#[trigger] groups[g]).label == group_label(
                    p.name@,
                    parent_part(path),
                ) && groups[g].names.contains(leaf_part(path))
        }),
{
    let paths = recorded_paths(p.manifest);
    let path = p.manifest.repositories@[i].0@;
    assert(paths[i] == path);
    let all = paths.map_values(|p: Seq<char>| parent_part(p));
    let parents = distinct(all);
    distinct_keeps_each_once(all);
    assert(all[i] == parent_part(path));
    assert(all.contains(parent_part(path)));
    arranging_keeps_everything(parents, parents, parent_part(path));
    let order = ordered_parents(paths);
    let g = choose|g: int| 0 <= g < order.len() && order[g] == parent_part(path);
    let f = leaf_under(parent_part(path));
    assert(f(paths[i])[0] == leaf_part(path));
    flat_map_holds(paths, f, i, leaf_part(path));
    let groups = project_groups(p);
    assert(groups[g] == group_of(p.name@, paths)(order[g]));
}

/// What a group holds are leaves of paths below its parent.
pub proof fn groups_hold_nothing_else(paths: Seq<Seq<char>>, parent: Seq<char>, name: Seq<char>)
    ensures
        paths.flat_map(leaf_under(parent)).contains(name) <==> exists|i: int|
            0 <= i < paths.len() && parent_part(#[trigger] paths[i]) == parent && leaf_part(
                paths[i],
            ) == name,
{
    let f = leaf_under(parent);
    flat_map_contains(paths, f, name);
    if paths.flat_map(f).contains(name) {
        let i = choose|i: int| 0 <= i < paths.len() && (#[trigger] f(paths[i])).contains(name);
        assert(parent_part(paths[i]) == parent);
    }
    assert forall|i: int|
        0 <= i < paths.len() && parent_part(#[trigger] paths[i]) == parent && leaf_part(paths[i])
            == name implies paths.flat_map(f).contains(name) by {
        assert(f(paths[i])[0] == name);
        assert(f(paths[i]).contains(name));
    }
}

/// Confusable pairs are told as they were found, each with its parent, its two
/// names in their order and its warning; a pair is left out only where one with
/// the same key is told.
pub proof fn confusable_pairs_are_told(pairs: Seq<ConfusablePair>, keys: Seq<Seq<char>>)
    requires
        keys.len() == pairs.len(),
    ensures
        forall|k: int|
            0 <= k < keyed_findings(pairs, keys).len() ==> exists|i: int|
                0 <= i < pairs.len() && #[trigger] keyed_findings(pairs, keys)[k] == (
                CheckViolationView::ConfusableSiblings {
                    parent: (#[trigger] pairs[i]).parent@,
                    first: pairs[i].first@,
                    second: pairs[i].second@,
                    warning: pairs[i].warning@,
                }),
        forall|i: int|
            0 <= i < pairs.len() ==> exists|j: int|
                #![trigger pairs[j]]
                0 <= j < pairs.len() && keys[j] == #[trigger] keys[i] && keyed_findings(
                    pairs,
                    keys,
                ).contains(pair_finding(pairs[j])),
{
    let order = order_of(keys);
    order_is_sorted(keys);
    let kept = kept_places(keys, order);
    let found = keyed_findings(pairs, keys);
    assert forall|k: int| 0 <= k < found.len() implies exists|i: int|
        0 <= i < pairs.len() && #[trigger] found[k] == (CheckViolationView::ConfusableSiblings {
            parent: (#[trigger] pairs[i]).parent@,
            first: pairs[i].first@,
            second: pairs[i].second@,
            warning: pairs[i].warning@,
        }) by {
        kept_places_are_places(keys, order, k);
        let n = choose|n: int| 0 <= n < order.len() && order[n] == kept[k];
        assert(found[k] == pair_finding(pairs[kept[k]]));
    }
    assert forall|i: int| 0 <= i < pairs.len() implies exists|j: int|
        #![trigger pairs[j]]
        0 <= j < pairs.len() && keys[j] == #[trigger] keys[i] && found.contains(
            pair_finding(pairs[j]),
        ) by {
        every_place_is_ordered(keys, i);
        let n = choose|n: int| 0 <= n < order.len() && order[n] == i;
        kept_places_cover(keys, order, n);
        let k = choose|k: int| 0 <= k < kept.len() && keys[#[trigger] kept[k]] == keys[order[n]];
        kept_places_are_places(keys, order, k);
        let m = choose|m: int| 0 <= m < order.len() && order[m] == kept[k];
        let j = kept[k];
        assert(found[k] == pair_finding(pairs[j]));
        assert(found.contains(pair_finding(pairs[j])));
        assert(keys[j] == keys[i]);
    }
}

proof fn kept_places_are_places(keys: Seq<Seq<char>>, order: Seq<int>, k: int)
    requires
        0 <= k < kept_places(keys, order).len(),
    ensures
        order.contains(kept_places(keys, order)[k]),
    decreases order.len(),
{
    let init = order.drop_last();
    let kept = kept_places(keys, init);
    if k < kept.len() {
        kept_places_are_places(keys, init, k);
        let n = choose|n: int| 0 <= n < init.len() && init[n] == kept[k];
        assert(order[n] == kept[k]);
    } else {
        assert(order[order.len() - 1] == order.last());
    }
}

proof fn kept_places_cover(keys: Seq<Seq<char>>, order: Seq<int>, n: int)
    requires
        0 <= n < order.len(),
    ensures
        exists|k: int|
            0 <= k < kept_places(keys, order).len() && keys[#[trigger] kept_places(keys, order)[k]]
                == keys[order[n]],
    decreases order.len(),
{
    let init = order.drop_last();
    let kept = kept_places(keys, init);
    let all = kept_places(keys, order);
    if n < init.len() {
        kept_places_cover(keys, init, n);
        let k = choose|k: int| 0 <= k < kept.len() && keys[#[trigger] kept[k]] == keys[init[n]];
        assert(all[k] == kept[k]);
    } else {
        assert(keys[all[all.len() - 1]] == keys[order[n]]);
    }
}

/// A group is called by its project, and by its parent where it has one.
pub proof fn groups_are_called_by_their_place(project: Seq<char>, parent: Seq<char>)
    ensures
        parent.is_suffix_of(group_label(project, parent)) || parent.len() == 0,
        group_label(project, parent) == "project `"@ + project + "`"@ <==> parent.len() == 0,
{
    reveal_strlit("`");
    reveal_strlit("` at ");
    if parent.len() > 0 {
        assert(group_label(project, parent).len() > ("project `"@ + project + "`"@).len());
    }
}

} // verus!
