//! Merge drivers that `.gitattributes` assigns and nothing defines.

use vstd::prelude::*;
use crate::lists::{flat_map_contains, mapped_contains};
use crate::order::note;
use crate::registry::indices;
use crate::scan_text::{
    cut, find_first, first_of, first_of_is_unique, has_prefix, one_word, pieces, slice_of,
    split_words, starts_with, trim, trim_front, trim_start, trimmed, trimming_keeps, white, words,
    CharClass,
};
use crate::text::{chars_of, text_of};
use crate::violation::{CheckViolation, RepoPath};
use crate::violation_view::CheckViolationView;

verus! {

/// Whether rwv defines a merge driver of this name.
pub open spec fn driver_defined(name: Seq<char>) -> bool {
    name == "rwv-ours"@
}

/// Whether a name is in the namespace that belongs to rwv.
pub open spec fn driver_reserved(name: Seq<char>) -> bool {
    starts_with(name, "rwv-"@)
}

/// A trimmed line taken apart into its pattern and its attributes. A pattern
/// between quotes ends at the closing quote; a line without one is no
/// attribute line.
pub open spec fn attribute_parts(line: Seq<char>) -> Option<(Seq<char>, Seq<char>)> {
    if line.len() > 0 && line[0] == '"' {
        let rest = line.skip(1);
        let end = first_of(rest, CharClass::Quote);
        if end < rest.len() {
            Some((rest.take(end), trim_front(rest.skip(end + 1))))
        } else {
            None
        }
    } else {
        let end = first_of(line, CharClass::White);
        if end < line.len() {
            Some((line.take(end), trim_front(line.skip(end + 1))))
        } else {
            Some((line, Seq::empty()))
        }
    }
}

/// The merge driver the last of some attributes assigns, if any does.
pub open spec fn last_driver(attributes: Seq<Seq<char>>) -> Option<Seq<char>>
    decreases attributes.len(),
{
    if attributes.len() == 0 {
        None
    } else if starts_with(attributes.last(), "merge="@) {
        Some(attributes.last().skip(6))
    } else {
        last_driver(attributes.drop_last())
    }
}

/// Whether a trimmed line assigns nothing: it is empty, a comment or a macro.
pub open spec fn unassigning(line: Seq<char>) -> bool {
    line.len() == 0 || line[0] == '#' || line[0] == '['
}

/// The pattern and driver of a line that assigns a driver nothing defines.
pub open spec fn phantom_in_line(line: Seq<char>) -> Seq<(Seq<char>, Seq<char>)> {
    let t = trimmed(line);
    if unassigning(t) {
        Seq::empty()
    } else {
        match attribute_parts(t) {
            None => Seq::empty(),
            Some(parts) => match last_driver(words(parts.1)) {
                None => Seq::empty(),
                Some(driver) => if driver_reserved(driver) && !driver_defined(driver) {
                    seq![(parts.0, driver)]
                } else {
                    Seq::empty()
                },
            },
        }
    }
}

/// The pattern and driver of each line that assigns a driver nothing defines.
pub open spec fn phantoms_in(contents: Seq<char>) -> Seq<(Seq<char>, Seq<char>)> {
    pieces(contents, CharClass::Newline).flat_map(|l: Seq<char>| phantom_in_line(l))
}

/// Whether rwv defines a merge driver of this name.
pub fn rwv_defines_merge_driver(name: &String) -> (defined: bool)
    ensures
        defined == driver_defined(name@),
{
    *name == "rwv-ours".to_owned()
}

/// Takes a trimmed line apart into its pattern and its attributes.
pub fn split_attribute_line(line: &Vec<char>) -> (parts: Option<(Vec<char>, Vec<char>)>)
    ensures
        match parts {
            Some(p) => attribute_parts(line@) == Some((p.0@, p.1@)),
            None => attribute_parts(line@) is None,
        },
{
    if line.len() > 0 && line[0] == '"' {
        let rest: Vec<char> = slice_of(line, 1, line.len());
        assert(rest@ =~= line@.skip(1));
        let end: usize = find_first(&rest, CharClass::Quote);
        if end < rest.len() {
            let pattern: Vec<char> = slice_of(&rest, 0, end);
            let tail: Vec<char> = slice_of(&rest, end + 1, rest.len());
            assert(pattern@ =~= rest@.take(end as int));
            assert(tail@ =~= rest@.skip(end as int + 1));
            Some((pattern, trim_start(&tail)))
        } else {
            None
        }
    } else {
        let end: usize = find_first(line, CharClass::White);
        if end < line.len() {
            let pattern: Vec<char> = slice_of(line, 0, end);
            let tail: Vec<char> = slice_of(line, end + 1, line.len());
            assert(pattern@ =~= line@.take(end as int));
            assert(tail@ =~= line@.skip(end as int + 1));
            Some((pattern, trim_start(&tail)))
        } else {
            let pattern: Vec<char> = slice_of(line, 0, line.len());
            assert(pattern@ =~= line@);
            let none: Vec<char> = Vec::new();
            assert(none@ =~= Seq::<char>::empty());
            Some((pattern, none))
        }
    }
}

/// The merge driver the last of some attributes assigns.
fn effective_driver(attributes: &Vec<Vec<char>>) -> (driver: Option<Vec<char>>)
    ensures
        match driver {
            Some(d) => last_driver(attributes.deep_view()) == Some(d@),
            None => last_driver(attributes.deep_view()) is None,
        },
{
    let ghost all = attributes.deep_view();
    let prefix: Vec<char> = chars_of("merge=");
    proof {
        reveal_strlit("merge=");
    }
    let mut n: usize = attributes.len();
    assert(all.take(n as int) =~= all);
    while n > 0
        invariant
            0 <= n <= attributes.len(),
            all == attributes.deep_view(),
            prefix@ == "merge="@,
            prefix@.len() == 6,
            last_driver(all) == last_driver(all.take(n as int)),
        decreases n,
    {
        let word: &Vec<char> = &attributes[n - 1];
        proof {
            assert(all.take(n as int).last() =~= word@);
            assert(all.take(n as int).drop_last() =~= all.take(n - 1));
        }
        if has_prefix(word, &prefix) {
            let driver: Vec<char> = slice_of(word, 6, word.len());
            assert(driver@ =~= word@.skip(6));
            return Some(driver);
        }
        n = n - 1;
    }
    None
}

/// The pattern and driver of each line that assigns a driver nothing defines.
pub fn phantom_merge_drivers_in(contents: &str) -> (found: Vec<(String, String)>)
    ensures
        found.deep_view() == phantoms_in(contents@),
{
    let chars: Vec<char> = chars_of(contents);
    let lines: Vec<Vec<char>> = cut(&chars, CharClass::Newline);
    let ghost lv = lines.deep_view();
    let ghost f = |l: Seq<char>| phantom_in_line(l);
    let reserved: Vec<char> = chars_of("rwv-");
    let mut found: Vec<(String, String)> = Vec::new();
    let mut i: usize = 0;
    assert(found.deep_view() =~= lv.take(0).flat_map(f));
    while i < lines.len()
        invariant
            0 <= i <= lines.len(),
            lv == lines.deep_view(),
            f == (|l: Seq<char>| phantom_in_line(l)),
            reserved@ == "rwv-"@,
            found.deep_view() == lv.take(i as int).flat_map(f),
        decreases lines.len() - i,
    {
        let ghost prior = found.deep_view();
        let line: Vec<char> = trim(&lines[i]);
        proof {
            assert(lv[i as int] =~= lines@[i as int]@);
            lv.lemma_flat_map_take_append(f, i as int);
        }
        if line.len() > 0 && line[0] != '#' && line[0] != '[' {
            if let Some((pattern, attributes)) = split_attribute_line(&line) {
                let assigned: Vec<Vec<char>> = split_words(&attributes);
                if let Some(driver) = effective_driver(&assigned) {
                    let name: String = text_of(&driver);
                    if has_prefix(&driver, &reserved) && !rwv_defines_merge_driver(&name) {
                        found.push((text_of(&pattern), name));
                    }
                }
            }
        }
        assert(found.deep_view() =~= prior + phantom_in_line(lv[i as int]));
        i = i + 1;
    }
    assert(lv.take(i as int) =~= lv);
    found
}

/// A repo and its `.gitattributes`, where that can be read.
#[derive(Debug)]
pub struct AttributesReading {
    pub repo: RepoPath,
    pub contents: Option<String>,
}

/// Whether the repo at place `i` is met there for the first time.
pub open spec fn first_met(readings: Seq<AttributesReading>, i: int) -> bool {
    forall|j: int| 0 <= j < i ==> (#[trigger] readings[j]).repo@ != readings[i].repo@
}

/// The finding of one assignment.
pub open spec fn phantom_finding(repo: Seq<char>) -> spec_fn(
    (Seq<char>, Seq<char>),
) -> CheckViolationView {
    |p: (Seq<char>, Seq<char>)|
        CheckViolationView::PhantomMergeDriver { repo, pattern: p.0, driver: p.1 }
}

/// What the repo at place `i` raises: nothing where it was met before.
pub open spec fn phantom_findings(readings: Seq<AttributesReading>) -> spec_fn(int) -> Seq<
    CheckViolationView,
> {
    |i: int|
        match readings[i].contents {
            Some(contents) => if first_met(readings, i) {
                phantoms_in(contents@).map_values(phantom_finding(readings[i].repo@))
            } else {
                Seq::empty()
            },
            None => Seq::empty(),
        }
}

/// Reports, once for each repo, the merge drivers in rwv's namespace that
/// `.gitattributes` assigns and rwv does not define.
pub fn scan_phantom_merge_drivers(readings: &Vec<AttributesReading>) -> (violations: Vec<
    CheckViolation,
>)
    ensures
        violations.deep_view() == indices(readings@.len()).flat_map(phantom_findings(readings@)),
{
    let ghost all = indices(readings@.len());
    let ghost f = phantom_findings(readings@);
    let mut violations: Vec<CheckViolation> = Vec::new();
    let mut seen: Vec<String> = Vec::new();
    let mut i: usize = 0;
    assert(violations.deep_view() =~= all.take(0).flat_map(f));
    while i < readings.len()
        invariant
            0 <= i <= readings.len(),
            all == indices(readings@.len()),
            f == phantom_findings(readings@),
            violations.deep_view() == all.take(i as int).flat_map(f),
            forall|c: Seq<char>|
                #[trigger] seen.deep_view().contains(c) <==> exists|j: int|
                    0 <= j < i && (#[trigger] readings@[j]).repo@ == c,
        decreases readings.len() - i,
    {
        let ghost before = seen.deep_view();
        let ghost prior = violations.deep_view();
        let repo: &RepoPath = &readings[i].repo;
        let new: bool = note(&mut seen, repo);
        assert(new == first_met(readings@, i as int));
        if new {
            if let Some(contents) = &readings[i].contents {
                let found: Vec<(String, String)> = phantom_merge_drivers_in(contents);
                let ghost fv = found.deep_view();
                let ghost g = phantom_finding(repo@);
                let mut k: usize = 0;
                assert(violations.deep_view() =~= prior + fv.take(0).map_values(g));
                while k < found.len()
                    invariant
                        0 <= k <= found.len(),
                        fv == found.deep_view(),
                        g == phantom_finding(repo@),
                        violations.deep_view() == prior + fv.take(k as int).map_values(g),
                    decreases found.len() - k,
                {
                    let ghost held = violations.deep_view();
                    violations.push(
                        CheckViolation::PhantomMergeDriver {
                            repo: repo.clone(),
                            pattern: found[k].0.clone(),
                            driver: found[k].1.clone(),
                        },
                    );
                    proof {
                        assert(fv[k as int] == (found@[k as int].0@, found@[k as int].1@));
                        assert(violations.deep_view() =~= held.push(g(fv[k as int])));
                        assert(fv.take(k as int + 1) =~= fv.take(k as int).push(fv[k as int]));
                        assert(fv.take(k as int + 1).map_values(g) =~= fv.take(k as int).map_values(
                            g,
                        ).push(g(fv[k as int])));
                        assert(violations.deep_view() =~= prior + fv.take(k as int + 1).map_values(
                            g,
                        ));
                    }
                    k = k + 1;
                }
                assert(fv.take(k as int) =~= fv);
            }
        }
        proof {
            all.lemma_flat_map_take_append(f, i as int);
            assert(all[i as int] == i as int);
            assert(violations.deep_view() =~= prior + f(i as int));
            assert forall|c: Seq<char>|
                #[trigger] seen.deep_view().contains(c) <==> exists|j: int|
                    0 <= j < i + 1 && (#[trigger] readings@[j]).repo@ == c by {
                if seen.deep_view().contains(c) && !before.contains(c) {
                    assert(readings@[i as int].repo@ == c);
                }
                if exists|j: int| 0 <= j < i + 1 && (#[trigger] readings@[j]).repo@ == c {
                    let j = choose|j: int| 0 <= j < i + 1 && (#[trigger] readings@[j]).repo@ == c;
                    if j < i {
                        assert(before.contains(c));
                    }
                    if before.contains(c) {
                        let x = choose|x: int| 0 <= x < before.len() && before[x] == c;
                        assert(seen.deep_view()[x] == c);
                    } else {
                        assert(seen.deep_view()[before.len() as int] == c);
                    }
                }
            }
        }
        i = i + 1;
    }
    assert(all.take(i as int) =~= all);
    violations
}

/// The driver rwv defines is never reported, and neither is one outside its
/// namespace.
pub proof fn only_undefined_reserved_drivers_are_reported(line: Seq<char>)
    ensures
        forall|k: int|
            0 <= k < phantom_in_line(line).len() ==> driver_reserved(
                (#[trigger] phantom_in_line(line)[k]).1,
            ) && !driver_defined(phantom_in_line(line)[k].1),
{
}

/// Of the drivers that a line assigns, the last counts.
pub proof fn last_assignment_counts(attributes: Seq<Seq<char>>, driver: Seq<char>)
    ensures
        last_driver(attributes.push("merge="@ + driver)) == Some(driver),
        forall|other: Seq<char>|
            !starts_with(other, "merge="@) ==> #[trigger] last_driver(attributes.push(other))
                == last_driver(attributes),
        last_driver(Seq::empty()) is None,
{
    reveal_strlit("merge=");
    let word = "merge="@ + driver;
    assert(word.take(6) =~= "merge="@);
    assert(word.skip(6) =~= driver);
    assert(attributes.push(word).last() == word);
    assert forall|other: Seq<char>| !starts_with(other, "merge="@) implies #[trigger] last_driver(
        attributes.push(other),
    ) == last_driver(attributes) by {
        assert(attributes.push(other).drop_last() =~= attributes);
    }
}

/// A driver is a phantom where its name is reserved and it is not the one that
/// is defined: a line that assigns such a driver to a pattern is told, with
/// both, and one that assigns any other is not.
pub proof fn phantom_assignments_are_told(pattern: Seq<char>, driver: Seq<char>)
    requires
        pattern.len() > 0,
        pattern[0] != '#',
        pattern[0] != '[',
        pattern[0] != '"',
        forall|i: int| 0 <= i < pattern.len() ==> !white(#[trigger] pattern[i]),
        forall|i: int| 0 <= i < driver.len() ==> !white(#[trigger] driver[i]),
    ensures
        phantom_in_line(pattern + " merge="@ + driver) == (if "rwv-"@.is_prefix_of(driver) && driver
            != "rwv-ours"@ {
            seq![(pattern, driver)]
        } else {
            Seq::empty()
        }),
{
    reveal_strlit(" merge=");
    reveal_strlit("merge=");
    reveal_strlit("rwv-");
    let word = "merge="@ + driver;
    let line = pattern + " merge="@ + driver;
    let k = pattern.len() as int;
    assert forall|i: int| 0 <= i < word.len() implies !white(#[trigger] word[i]) by {
        if i >= 6 {
            assert(word[i] == driver[i - 6]);
        }
    }
    assert(line[0] == pattern[0]);
    assert(line.last() == word[word.len() - 1]);
    trimming_keeps(Seq::empty(), line, Seq::empty());
    assert(Seq::<char>::empty() + line + Seq::<char>::empty() =~= line);
    assert forall|i: int| 0 <= i < k implies !white(#[trigger] line[i]) by {
        assert(line[i] == pattern[i]);
    }
    assert(line[k] == ' ');
    first_of_is_unique(line, CharClass::White, k);
    assert(line.take(k) =~= pattern);
    assert(line.skip(k + 1) =~= word);
    trimming_keeps(Seq::empty(), word, Seq::empty());
    assert(Seq::<char>::empty() + word =~= word);
    one_word(word);
    last_assignment_counts(Seq::empty(), driver);
    assert(words(word) =~= Seq::empty().push(word));
    assert(driver_reserved(driver) <==> "rwv-"@.is_prefix_of(driver)) by {
        if "rwv-"@.is_prefix_of(driver) {
            assert(driver.take(4) =~= "rwv-"@);
        }
        if driver_reserved(driver) {
            assert forall|i: int| 0 <= i < 4 implies "rwv-"@[i] == driver[i] by {
                assert(driver.take(4)[i] == driver[i]);
            }
        }
    }
}

/// Comments, sections and blank lines assign nothing.
pub proof fn other_lines_assign_nothing(line: Seq<char>)
    requires
        trimmed(line).len() == 0 || trimmed(line)[0] == '#' || trimmed(line)[0] == '[',
    ensures
        phantom_in_line(line).len() == 0,
{
}

/// The phantoms of a repo are those of the attributes read for it first, each
/// under its own repo.
pub proof fn phantoms_are_told_by_repo(readings: Seq<AttributesReading>, v: CheckViolationView)
    ensures
        indices(readings.len()).flat_map(phantom_findings(readings)).contains(v) <==> exists|i: int|
            #![trigger readings[i]]
            0 <= i < readings.len() && (forall|j: int|
                0 <= j < i ==> (#[trigger] readings[j]).repo@ != readings[i].repo@) && (
            readings[i].contents matches Some(contents) && (v
                matches CheckViolationView::PhantomMergeDriver { repo, pattern, driver } && repo
                == readings[i].repo@ && phantoms_in(contents@).contains((pattern, driver)))),
{
    let all = indices(readings.len());
    let f = phantom_findings(readings);
    flat_map_contains(all, f, v);
    if all.flat_map(f).contains(v) {
        let i = choose|i: int| 0 <= i < all.len() && (#[trigger] f(all[i])).contains(v);
        assert(all[i] == i);
        let contents = readings[i].contents->0;
        let g = phantom_finding(readings[i].repo@);
        let pairs = phantoms_in(contents@);
        mapped_contains(pairs, g, v);
        let k = choose|k: int| 0 <= k < pairs.len() && #[trigger] g(pairs[k]) == v;
        assert(pairs[k] == (v->pattern, v->driver));
        assert(pairs.contains(pairs[k]));
        assert(readings[i] == readings[i]);
    }
    assert forall|i: int|
        #![trigger readings[i]]
        0 <= i < readings.len() && (forall|j: int|
            0 <= j < i ==> (#[trigger] readings[j]).repo@ != readings[i].repo@) && (
        readings[i].contents matches Some(contents) && (v
            matches CheckViolationView::PhantomMergeDriver { repo, pattern, driver } && repo
            == readings[i].repo@ && phantoms_in(contents@).contains((pattern, driver)))) implies
        all.flat_map(f).contains(v) by {
        let contents = readings[i].contents->0;
        let g = phantom_finding(readings[i].repo@);
        let pairs = phantoms_in(contents@);
        let k = choose|k: int| 0 <= k < pairs.len() && pairs[k] == (v->pattern, v->driver);
        assert(g(pairs[k]) == v);
        mapped_contains(pairs, g, v);
        assert(all[i] == i);
        assert(f(all[i]).contains(v));
    }
}

/// A pattern in quotes may hold blanks: it ends at the closing quote, and a
/// quote that is not closed makes no line.
pub proof fn quoted_patterns_end_at_their_quote(pattern: Seq<char>, rest: Seq<char>)
    requires
        !pattern.contains('"'),
    ensures
        attribute_parts(seq!['"'] + pattern + seq!['"'] + rest) == Some((pattern, trim_front(rest))),
        attribute_parts(seq!['"'] + pattern) is None,
{
    let line = seq!['"'] + pattern + seq!['"'] + rest;
    let tail = pattern + seq!['"'] + rest;
    let k = pattern.len() as int;
    assert(line[0] == '"');
    assert(line.skip(1) =~= tail);
    assert forall|i: int| 0 <= i < k implies tail[i] != '"' by {
        assert(tail[i] == pattern[i]);
    }
    assert(tail[k] == '"');
    first_of_is_unique(tail, CharClass::Quote, k);
    assert(tail.take(k) =~= pattern);
    assert(tail.skip(k + 1) =~= rest);
    let open = seq!['"'] + pattern;
    assert(open[0] == '"');
    assert(open.skip(1) =~= pattern);
    assert forall|i: int| 0 <= i < k implies pattern[i] != '"' by {}
    first_of_is_unique(pattern, CharClass::Quote, k);
}

} // verus!
