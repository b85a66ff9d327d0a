//! Files in retired formats: manifests and workweave markers.

use vstd::prelude::*;
use crate::lists::{filtered_contains, flat_map_contains, flat_map_holds};
use crate::order::{
    arranged, arranging_keeps_everything, key_of_path, order_is_sorted, order_of, path_key, path_key_is_injective, sort_order,
    text_before, text_order_is_total,
};
use crate::text::chars_of;
use crate::violation::{PathText, ProjectName};

verus! {

/// A project whose only manifest is in the retired format.
#[derive(Debug, Clone)]
pub struct LegacyManifestFile {
    pub project: ProjectName,
    pub legacy_path: PathText,
    /// The sentence the manifest loader refuses the file with.
    pub refusal: String,
}

/// A directory at or below `projects/`.
#[derive(Debug)]
pub struct ProjectDirReading {
    /// Its path below `projects/`; empty for `projects/` itself.
    pub relative: String,
    /// Where a manifest in the retired format would be.
    pub legacy_path: PathText,
    pub has_legacy: bool,
    pub has_current: bool,
    /// Whether the relative path is a usable project name.
    pub nameable: bool,
    pub refusal: String,
}

/// Whether some component of a path starts with a dot.
pub open spec fn hidden(path: Seq<char>) -> bool {
    exists|i: int|
        0 <= i < path.len() && #[trigger] path[i] == '.' && (i == 0 || path[i - 1] == '/')
}

/// Whether a directory holds a manifest in the retired format and no other.
pub open spec fn legacy_only(d: ProjectDirReading) -> bool {
    !hidden(d.relative@) && d.has_legacy && !d.has_current && d.nameable
}

/// What a listing of directories is found to hold.
pub open spec fn legacy_manifests(dirs: Seq<ProjectDirReading>) -> Seq<ProjectDirReading> {
    dirs.filter(|d: ProjectDirReading| legacy_only(d))
}

/// Whether some component of a path starts with a dot.
fn is_hidden(path: &str) -> (is: bool)
    ensures
        is == hidden(path@),
{
    let chars: Vec<char> = chars_of(path);
    let mut i: usize = 0;
    while i < chars.len()
        invariant
            0 <= i <= chars.len(),
            chars@ == path@,
            forall|k: int|
                0 <= k < i ==> !(#[trigger] path@[k] == '.' && (k == 0 || path@[k - 1] == '/')),
        decreases chars.len() - i,
    {
        if chars[i] == '.' && (i == 0 || chars[i - 1] == '/') {
            assert(path@[i as int] == '.');
            return true;
        }
        i = i + 1;
    }
    false
}

/// Finds the projects whose only manifest is in the retired format, among the
/// directories at and below `projects/`. A directory below one whose name
/// starts with a dot is passed over.
pub fn scan_workspace_for_legacy_manifests(dirs: &Vec<ProjectDirReading>) -> (found: Vec<
    LegacyManifestFile,
>)
    ensures
        found@.len() == legacy_manifests(dirs@).len(),
        forall|k: int|
            0 <= k < found@.len() ==> {
                &&& (#[trigger] found@[k]).project@ == legacy_manifests(dirs@)[k].relative@
                &&& found@[k].legacy_path@ == legacy_manifests(dirs@)[k].legacy_path@
                &&& found@[k].refusal@ == legacy_manifests(dirs@)[k].refusal@
            },
{
    let ghost keep = |d: ProjectDirReading| legacy_only(d);
    let mut found: Vec<LegacyManifestFile> = Vec::new();
    let mut i: usize = 0;
    assert(dirs@.take(0).filter(keep).len() == 0) by {
        reveal(Seq::filter);
    }
    while i < dirs.len()
        invariant
            0 <= i <= dirs.len(),
            keep == (|d: ProjectDirReading| legacy_only(d)),
            found@.len() == dirs@.take(i as int).filter(keep).len(),
            forall|k: int|
                0 <= k < found@.len() ==> {
                    &&& (#[trigger] found@[k]).project@ == dirs@.take(i as int).filter(
                        keep,
                    )[k].relative@
                    &&& found@[k].legacy_path@ == dirs@.take(i as int).filter(keep)[k].legacy_path@
                    &&& found@[k].refusal@ == dirs@.take(i as int).filter(keep)[k].refusal@
                },
        decreases dirs.len() - i,
    {
        let d: &ProjectDirReading = &dirs[i];
        proof {
            assert(dirs@.take(i as int + 1) =~= dirs@.take(i as int).push(dirs@[i as int]));
            dirs@.take(i as int).lemma_filter_push(dirs@[i as int], keep);
        }
        if !is_hidden(&d.relative) && d.has_legacy && !d.has_current && d.nameable {
            found.push(
                LegacyManifestFile {
                    project: d.relative.clone(),
                    legacy_path: d.legacy_path.clone(),
                    refusal: d.refusal.clone(),
                },
            );
        }
        i = i + 1;
    }
    assert(dirs@.take(i as int) =~= dirs@);
    found
}

/// A workweave marker in the retired format, and the primary it names.
#[derive(Debug, Clone)]
pub struct LegacyWorkweaveMarkerFile {
    pub marker_path: PathText,
    pub primary: PathText,
}

/// What a [`LegacyWorkweaveMarkerFile`] says.
pub struct LegacyWorkweaveMarkerFileView {
    pub marker_path: Seq<char>,
    pub primary: Seq<char>,
}

impl DeepView for LegacyWorkweaveMarkerFile {
    type V = LegacyWorkweaveMarkerFileView;

    open spec fn deep_view(&self) -> LegacyWorkweaveMarkerFileView {
        LegacyWorkweaveMarkerFileView { marker_path: self.marker_path@, primary: self.primary@ }
    }
}

/// A directory of a container: where its marker is, and the primary that
/// marker names where it is in the retired format.
#[derive(Debug)]
pub struct MarkerDirReading {
    pub marker_path: PathText,
    pub legacy_primary: Option<PathText>,
}

/// The marker in the retired format a directory carries, if any.
pub open spec fn legacy_marker(d: MarkerDirReading) -> Seq<LegacyWorkweaveMarkerFileView> {
    match d.legacy_primary {
        Some(primary) => seq![
            LegacyWorkweaveMarkerFileView { marker_path: d.marker_path@, primary: primary@ },
        ],
        None => Seq::empty(),
    }
}

/// Drops each marker that repeats the path of the one before it.
pub open spec fn without_repeats(s: Seq<LegacyWorkweaveMarkerFileView>) -> Seq<
    LegacyWorkweaveMarkerFileView,
>
    decreases s.len(),
{
    if s.len() == 0 {
        Seq::empty()
    } else {
        let init = without_repeats(s.drop_last());
        if init.len() > 0 && init.last().marker_path == s.last().marker_path {
            init
        } else {
            init.push(s.last())
        }
    }
}

/// The markers in the retired format that the directories carry.
pub open spec fn collected_markers(dirs: Seq<MarkerDirReading>) -> Seq<
    LegacyWorkweaveMarkerFileView,
> {
    dirs.flat_map(|d: MarkerDirReading| legacy_marker(d))
}

/// The markers in the order of their paths, none of them twice.
pub open spec fn legacy_markers(dirs: Seq<MarkerDirReading>) -> Seq<LegacyWorkweaveMarkerFileView> {
    let all = collected_markers(dirs);
    without_repeats(
        arranged(all, all.map_values(|m: LegacyWorkweaveMarkerFileView| path_key(m.marker_path))),
    )
}

/// Finds the workweave markers in the retired format. A directory reached
/// through two containers is reported once.
pub fn scan_for_legacy_workweave_markers(dirs: &Vec<MarkerDirReading>) -> (found: Vec<
    LegacyWorkweaveMarkerFile,
>)
    ensures
        found.deep_view() == legacy_markers(dirs@),
{
    let ghost f = |d: MarkerDirReading| legacy_marker(d);
    let mut all: Vec<LegacyWorkweaveMarkerFile> = Vec::new();
    let mut keys: Vec<Vec<char>> = Vec::new();
    let mut i: usize = 0;
    assert(all.deep_view() =~= dirs@.take(0).flat_map(f));
    while i < dirs.len()
        invariant
            0 <= i <= dirs.len(),
            f == (|d: MarkerDirReading| legacy_marker(d)),
            all.deep_view() == dirs@.take(i as int).flat_map(f),
            keys@.len() == all@.len(),
            forall|k: int|
                0 <= k < keys@.len() ==> (#[trigger] keys@[k])@ == path_key(all@[k].marker_path@),
        decreases dirs.len() - i,
    {
        let ghost prior = all.deep_view();
        if let Some(primary) = &dirs[i].legacy_primary {
            keys.push(key_of_path(&dirs[i].marker_path));
            all.push(
                LegacyWorkweaveMarkerFile {
                    marker_path: dirs[i].marker_path.clone(),
                    primary: primary.clone(),
                },
            );
        }
        proof {
            dirs@.lemma_flat_map_take_append(f, i as int);
            assert(all.deep_view() =~= prior + legacy_marker(dirs@[i as int]));
        }
        i = i + 1;
    }
    let ghost cm = collected_markers(dirs@);
    let ghost ks = cm.map_values(|m: LegacyWorkweaveMarkerFileView| path_key(m.marker_path));
    proof {
        assert(dirs@.take(i as int) =~= dirs@);
        assert forall|k: int| 0 <= k < keys@.len() implies keys.deep_view()[k] == ks[k] by {
            assert(cm[k] == all@[k].deep_view());
            assert(keys.deep_view()[k] =~= keys@[k]@);
        }
        assert(keys.deep_view() =~= ks);
    }
    let order: Vec<usize> = sort_order(&keys);
    let ghost sorted = arranged(cm, ks);
    let mut found: Vec<LegacyWorkweaveMarkerFile> = Vec::new();
    let mut k: usize = 0;
    assert(found.deep_view() =~= without_repeats(sorted.take(0)));
    while k < order.len()
        invariant
            0 <= k <= order.len(),
            order@.len() == all@.len(),
            order@.map_values(|i: usize| i as int) == order_of(ks),
            forall|m: int| 0 <= m < order@.len() ==> (#[trigger] order@[m]) < all@.len(),
            all.deep_view() == cm,
            sorted == arranged(cm, ks),
            found.deep_view() == without_repeats(sorted.take(k as int)),
        decreases order.len() - k,
    {
        let ghost before = found.deep_view();
        let m: &LegacyWorkweaveMarkerFile = &all[order[k]];
        proof {
            assert(order_of(ks)[k as int] == order@[k as int] as int);
            assert(sorted[k as int] == cm[order@[k as int] as int]);
            assert(cm[order@[k as int] as int] == m.deep_view());
            assert(sorted.take(k as int + 1).drop_last() =~= sorted.take(k as int));
            assert(sorted.take(k as int + 1).last() == m.deep_view());
        }
        let repeat: bool = found.len() > 0 && found[found.len() - 1].marker_path == m.marker_path;
        if !repeat {
            found.push(
                LegacyWorkweaveMarkerFile {
                    marker_path: m.marker_path.clone(),
                    primary: m.primary.clone(),
                },
            );
            assert(found.deep_view() =~= before.push(m.deep_view()));
        }
        k = k + 1;
    }
    assert(sorted.take(k as int) =~= sorted);
    found
}

/// No marker path is reported twice.
pub proof fn legacy_marker_paths_are_distinct(dirs: Seq<MarkerDirReading>, i: int, j: int)
    requires
        0 <= i < j < legacy_markers(dirs).len(),
    ensures
        legacy_markers(dirs)[i].marker_path != legacy_markers(dirs)[j].marker_path,
{
    let all = collected_markers(dirs);
    let ks = all.map_values(|m: LegacyWorkweaveMarkerFileView| path_key(m.marker_path));
    let sorted = arranged(all, ks);
    order_is_sorted(ks);
    assert(path_sorted(sorted)) by {
        assert forall|a: int, b: int| 0 <= a < b < sorted.len() implies !text_before(
            path_key(#[trigger] sorted[b].marker_path),
            path_key(#[trigger] sorted[a].marker_path),
        ) by {
            let o = order_of(ks);
            assert(sorted[a] == all[o[a]]);
            assert(sorted[b] == all[o[b]]);
            assert(ks[o[a]] == path_key(all[o[a]].marker_path));
            assert(ks[o[b]] == path_key(all[o[b]].marker_path));
        }
    }
    sorted_repeats_are_adjacent(sorted);
}

spec fn path_sorted(s: Seq<LegacyWorkweaveMarkerFileView>) -> bool {
    forall|a: int, b: int|
        0 <= a < b < s.len() ==> !text_before(
            path_key(#[trigger] s[b].marker_path),
            path_key(#[trigger] s[a].marker_path),
        )
}

proof fn sorted_repeats_are_adjacent(s: Seq<LegacyWorkweaveMarkerFileView>)
    requires
        path_sorted(s),
    ensures
        s.len() > 0 ==> without_repeats(s).len() > 0 && without_repeats(s).last().marker_path
            == s.last().marker_path,
        forall|a: int|
            0 <= a < without_repeats(s).len() ==> s.contains(#[trigger] without_repeats(s)[a]),
        forall|a: int, b: int|
            0 <= a < b < without_repeats(s).len() ==> (#[trigger] without_repeats(s)[a]).marker_path
                != (#[trigger] without_repeats(s)[b]).marker_path,
    decreases s.len(),
{
    if s.len() > 0 {
        let init = s.drop_last();
        assert(path_sorted(init)) by {
            assert forall|a: int, b: int| 0 <= a < b < init.len() implies !text_before(
                path_key(#[trigger] init[b].marker_path),
                path_key(#[trigger] init[a].marker_path),
            ) by {
                assert(s[a] == init[a] && s[b] == init[b]);
            }
        }
        sorted_repeats_are_adjacent(init);
        let w = without_repeats(init);
        let out = without_repeats(s);
        assert forall|a: int| 0 <= a < out.len() implies s.contains(#[trigger] out[a]) by {
            if a < w.len() {
                let k = choose|k: int| 0 <= k < init.len() && init[k] == w[a];
                assert(s[k] == out[a]);
            } else {
                assert(s[s.len() - 1] == out[a]);
            }
        }
        if out.len() > w.len() {
            assert forall|a: int| 0 <= a < w.len() implies (#[trigger] w[a]).marker_path
                != s.last().marker_path by {
                if w[a].marker_path == s.last().marker_path {
                    let k = choose|k: int| 0 <= k < init.len() && init[k] == w[a];
                    let last = init.last().marker_path;
                    assert(s[init.len() - 1].marker_path == last);
                    assert(s[s.len() - 1].marker_path == s.last().marker_path);
                    assert(s[k].marker_path == w[a].marker_path);
                    text_order_is_total(path_key(last), path_key(w[a].marker_path));
                    assert(!text_before(path_key(s.last().marker_path), path_key(last)));
                    if k < init.len() - 1 {
                        assert(!text_before(path_key(last), path_key(s[k].marker_path)));
                    }
                    path_key_is_injective(last, w[a].marker_path);
                }
            }
        }
    }
}

/// A project is listed as retired exactly where it has the old manifest and no
/// new one, its path has no hidden part, and it can be named.
pub proof fn retired_manifests_are_found(dirs: Seq<ProjectDirReading>, i: int)
    requires
        0 <= i < dirs.len(),
    ensures
        legacy_manifests(dirs).contains(dirs[i]) <==> dirs[i].has_legacy && !dirs[i].has_current
            && dirs[i].nameable && forall|k: int|
            0 <= k < dirs[i].relative@.len() && #[trigger] dirs[i].relative@[k] == '.' ==> k > 0
                && dirs[i].relative@[k - 1] != '/',
{
    filtered_contains(dirs, |d: ProjectDirReading| legacy_only(d), dirs[i]);
    assert(dirs.contains(dirs[i]));
    assert forall|k: int|
        0 <= k < dirs[i].relative@.len() && #[trigger] dirs[i].relative@[k] == '.' && !hidden(
            dirs[i].relative@,
        ) implies k > 0 && dirs[i].relative@[k - 1] != '/' by {}
}

/// A marker of the retired form is listed, and only such: each that is listed
/// was read, with the primary it names, and none is left out.
pub proof fn retired_markers_are_found(dirs: Seq<MarkerDirReading>, path: Seq<char>)
    ensures
        (exists|k: int|
            0 <= k < legacy_markers(dirs).len() && (#[trigger] legacy_markers(dirs)[k]).marker_path
                == path) <==> exists|i: int|
            0 <= i < dirs.len() && (#[trigger] dirs[i]).marker_path@ == path
                && dirs[i].legacy_primary is Some,
        forall|k: int|
            0 <= k < legacy_markers(dirs).len() ==> marker_was_read(
                dirs,
                #[trigger] legacy_markers(dirs)[k],
            ),
{
    let f = |d: MarkerDirReading| legacy_marker(d);
    let all = collected_markers(dirs);
    let keys = all.map_values(|m: LegacyWorkweaveMarkerFileView| path_key(m.marker_path));
    let sorted = arranged(all, keys);
    let kept = legacy_markers(dirs);
    assert forall|k: int| 0 <= k < kept.len() implies marker_was_read(dirs, #[trigger] kept[k]) by {
        kept_are_members(sorted, k);
        arranging_keeps_everything(all, keys, kept[k]);
        flat_map_contains(dirs, f, kept[k]);
        let i = choose|i: int| 0 <= i < dirs.len() && (#[trigger] f(dirs[i])).contains(kept[k]);
        assert(dirs[i].marker_path@ == kept[k].marker_path);
    }
    if exists|i: int|
        0 <= i < dirs.len() && (#[trigger] dirs[i]).marker_path@ == path && dirs[i].legacy_primary
            is Some {
        let i = choose|i: int|
            0 <= i < dirs.len() && (#[trigger] dirs[i]).marker_path@ == path
                && dirs[i].legacy_primary is Some;
        let m = legacy_marker(dirs[i])[0];
        assert(f(dirs[i]).contains(m));
        flat_map_holds(dirs, f, i, m);
        arranging_keeps_everything(all, keys, m);
        let n = choose|n: int| 0 <= n < sorted.len() && sorted[n] == m;
        repeats_keep_a_path(sorted, n);
    }
}

/// Whether a listed marker was read in one of the directories.
pub open spec fn marker_was_read(
    dirs: Seq<MarkerDirReading>,
    m: LegacyWorkweaveMarkerFileView,
) -> bool {
    exists|i: int|
        0 <= i < dirs.len() && (#[trigger] dirs[i]).marker_path@ == m.marker_path
            && dirs[i].legacy_primary.deep_view() == Some(m.primary)
}

proof fn kept_are_members(s: Seq<LegacyWorkweaveMarkerFileView>, k: int)
    requires
        0 <= k < without_repeats(s).len(),
    ensures
        s.contains(without_repeats(s)[k]),
    decreases s.len(),
{
    let init = s.drop_last();
    let kept = without_repeats(init);
    if k < kept.len() {
        kept_are_members(init, k);
        let n = choose|n: int| 0 <= n < init.len() && init[n] == kept[k];
        assert(s[n] == kept[k]);
    } else {
        assert(s[s.len() - 1] == s.last());
    }
}

proof fn repeats_keep_a_path(s: Seq<LegacyWorkweaveMarkerFileView>, n: int)
    requires
        0 <= n < s.len(),
    ensures
        exists|k: int|
            0 <= k < without_repeats(s).len() && (#[trigger] without_repeats(s)[k]).marker_path
                == s[n].marker_path,
    decreases s.len(),
{
    let init = s.drop_last();
    let kept = without_repeats(init);
    if n < init.len() {
        repeats_keep_a_path(init, n);
        let k = choose|k: int|
            0 <= k < kept.len() && (#[trigger] kept[k]).marker_path == init[n].marker_path;
        assert(without_repeats(s)[k] == kept[k]);
    } else {
        let all = without_repeats(s);
        assert(all[all.len() - 1].marker_path == s.last().marker_path);
    }
}

} // verus!
