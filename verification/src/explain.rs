//! `rwv explain`: the published help on a verb or on a token.

use vstd::prelude::*;
use crate::lists::{flat_map_holds, flat_map_member};
use crate::order::{
    comes_before, strictly_ordered, text_before, text_order_is_total, text_order_is_transitive,
};
use crate::scan_text::{slice_of, trim, trimmed, trimming_keeps};
use crate::text::{chars_of, telling, tells, text_of};

verus! {

/// A name without an entry that is close to one with.
pub open spec fn no_entry_text(name: Seq<char>, candidate: Seq<char>) -> Seq<char> {
    "no explain entry for '"@
        + name
        + "'; did you mean: "@
        + candidate
        + "? Try `rwv explain` for the full index."@
}

/// Words it: a name without an entry that is close to one with.
fn no_entry(name: &String, candidate: &String) -> (text: String)
    ensures
        text@ == no_entry_text(name@, candidate@),
{
    "no explain entry for '".to_owned()
        .concat(name)
        .concat("'; did you mean: ")
        .concat(candidate)
        .concat("? Try `rwv explain` for the full index.")
}

/// A name without an entry.
pub open spec fn external_command_text(name: Seq<char>) -> Seq<char> {
    "external command; try `rwv "@ + name + " --help`"@
}

/// Words it: a name without an entry.
fn external_command(name: &String) -> (text: String)
    ensures
        text@ == external_command_text(name@),
{
    "external command; try `rwv ".to_owned().concat(name).concat(" --help`")
}

/// The published texts: the index, one bundle for each verb in the order of
/// [`known_verbs`], and the pages that hold the entries of tokens, in the order
/// they are looked through.
#[derive(Debug)]
pub struct ExplainBook {
    pub index: String,
    pub bundles: Vec<String>,
    pub pages: Vec<String>,
}

/// The verbs that have a bundle, in index order.
pub open spec fn verbs() -> Seq<Seq<char>> {
    seq![
        "status"@,
        "doctor"@,
        "sync"@,
        "sync-to"@,
        "fetch"@,
        "update"@,
        "push"@,
        "prime"@,
        "explain"@,
        "workweave"@,
        "abort"@,
        "add"@,
        "remove"@,
        "lock"@,
        "activate"@,
        "materialize"@,
        "init"@,
    ]
}

/// The verbs that have a bundle, in index order.
pub fn known_verbs() -> (names: Vec<String>)
    ensures
        names.deep_view() == verbs(),
{
    let mut names: Vec<String> = Vec::new();
    names.push("status".to_owned());
    names.push("doctor".to_owned());
    names.push("sync".to_owned());
    names.push("sync-to".to_owned());
    names.push("fetch".to_owned());
    names.push("update".to_owned());
    names.push("push".to_owned());
    names.push("prime".to_owned());
    names.push("explain".to_owned());
    names.push("workweave".to_owned());
    names.push("abort".to_owned());
    names.push("add".to_owned());
    names.push("remove".to_owned());
    names.push("lock".to_owned());
    names.push("activate".to_owned());
    names.push("materialize".to_owned());
    names.push("init".to_owned());
    assert(names.deep_view() =~= verbs());
    names
}

/// How many times `#` stands at the start of a line.
pub open spec fn hashes(line: Seq<char>) -> nat
    decreases line.len(),
{
    if line.len() > 0 && line[0] == '#' {
        1 + hashes(line.drop_first())
    } else {
        0
    }
}

proof fn hashes_are_within(line: Seq<char>)
    ensures
        hashes(line) <= line.len(),
    decreases line.len(),
{
    if line.len() > 0 && line[0] == '#' {
        hashes_are_within(line.drop_first());
    }
}

/// What follows the hashes of a line.
pub open spec fn after_hashes(line: Seq<char>) -> Seq<char> {
    line.skip(hashes(line) as int)
}

/// Whether a line is the heading of a token's entry.
pub open spec fn is_entry_heading(line: Seq<char>, token: Seq<char>) -> bool {
    hashes(line) >= 2 && trimmed(after_hashes(line)) == seq!['`'] + token + seq!['`']
}

/// Whether a line ends an entry of a level: a heading of that level or above.
pub open spec fn closes(line: Seq<char>, level: nat) -> bool {
    0 < hashes(line) <= level && after_hashes(line).len() > 0 && after_hashes(line)[0] == ' '
}

/// Where the line that starts at `at` ends.
pub open spec fn line_end(page: Seq<char>, at: int) -> int
    decreases page.len() - at,
{
    if at < 0 || at >= page.len() || page[at] == '\n' {
        at
    } else {
        line_end(page, at + 1)
    }
}

/// The line ends at or behind its start, and within the page.
pub proof fn line_end_is_within(page: Seq<char>, at: int)
    requires
        0 <= at <= page.len(),
    ensures
        at <= line_end(page, at) <= page.len(),
        line_end(page, at) < page.len() ==> page[line_end(page, at)] == '\n',
    decreases page.len() - at,
{
    if at < page.len() && page[at] != '\n' {
        line_end_is_within(page, at + 1);
    }
}

/// The line that starts at `at`.
pub open spec fn line_at(page: Seq<char>, at: int) -> Seq<char> {
    page.subrange(at, line_end(page, at))
}

/// Where the next line starts.
pub open spec fn next_line(page: Seq<char>, at: int) -> int {
    if line_end(page, at) < page.len() {
        line_end(page, at) + 1
    } else {
        page.len() as int
    }
}

/// Where the entry of a token starts, and its level, looking from `at` on.
pub open spec fn entry_start(page: Seq<char>, at: int, token: Seq<char>) -> Option<(int, nat)>
    decreases page.len() - at,
{
    if at < 0 || at >= page.len() {
        None
    } else if is_entry_heading(line_at(page, at), token) {
        Some((at, hashes(line_at(page, at))))
    } else if next_line(page, at) <= at {
        None
    } else {
        entry_start(page, next_line(page, at), token)
    }
}

/// Where an entry of a level ends, looking from `at` on.
pub open spec fn entry_end(page: Seq<char>, at: int, level: nat) -> int
    decreases page.len() - at,
{
    if at < 0 || at >= page.len() {
        page.len() as int
    } else if closes(line_at(page, at), level) {
        at
    } else if next_line(page, at) <= at {
        page.len() as int
    } else {
        entry_end(page, next_line(page, at), level)
    }
}

/// A text without the line breaks it ends with.
pub open spec fn without_end_breaks(s: Seq<char>) -> Seq<char>
    decreases s.len(),
{
    if s.len() > 0 && s.last() == '\n' {
        without_end_breaks(s.drop_last())
    } else {
        s
    }
}

/// The entry of a token on a page: its heading, and everything below it up to
/// the next heading of its level or above.
pub open spec fn page_entry(page: Seq<char>, token: Seq<char>) -> Option<Seq<char>> {
    match entry_start(page, 0, token) {
        Some((from, level)) => Some(
            without_end_breaks(
                page.subrange(from, entry_end(page, next_line(page, from), level)),
            ),
        ),
        None => None,
    }
}

/// The entry of a token, on the first page that has one.
pub open spec fn book_entry(pages: Seq<Seq<char>>, token: Seq<char>) -> Option<Seq<char>>
    decreases pages.len(),
{
    if pages.len() == 0 {
        None
    } else {
        match page_entry(pages[0], token) {
            Some(entry) => Some(entry),
            None => book_entry(pages.drop_first(), token),
        }
    }
}

fn count_hashes(line: &Vec<char>) -> (n: usize)
    ensures
        n == hashes(line@),
        n <= line@.len(),
{
    let mut n: usize = 0;
    assert(line@.skip(0) =~= line@);
    while n < line.len() && line[n] == '#'
        invariant
            0 <= n <= line.len(),
            hashes(line@) == n + hashes(line@.skip(n as int)),
        decreases line.len() - n,
    {
        proof {
            assert(line@.skip(n as int)[0] == '#');
            assert(line@.skip(n as int).drop_first() =~= line@.skip(n as int + 1));
        }
        n = n + 1;
    }
    proof {
        if n < line@.len() {
            assert(line@.skip(n as int)[0] == line@[n as int]);
        }
    }
    n
}

fn find_line_end(page: &Vec<char>, at: usize) -> (end: usize)
    requires
        at <= page@.len(),
    ensures
        end == line_end(page@, at as int),
        at <= end <= page@.len(),
{
    let mut end: usize = at;
    while end < page.len() && page[end] != '\n'
        invariant
            at <= end <= page@.len(),
            line_end(page@, at as int) == line_end(page@, end as int),
        decreases page.len() - end,
    {
        end = end + 1;
    }
    end
}

/// Whether a text is a token between backquotes.
fn is_quoted_token(text: &Vec<char>, token: &Vec<char>) -> (is: bool)
    ensures
        is == (text@ == seq!['`'] + token@ + seq!['`']),
{
    let ghost want = seq!['`'] + token@ + seq!['`'];
    if text.len() < 2 || text.len() - 2 != token.len() {
        return false;
    }
    if text[0] != '`' || text[text.len() - 1] != '`' {
        proof {
            assert(want[0] == '`');
            assert(want[want.len() - 1] == '`');
        }
        return false;
    }
    let mut i: usize = 0;
    while i < token.len()
        invariant
            0 <= i <= token.len(),
            text@.len() == token@.len() + 2,
            want == seq!['`'] + token@ + seq!['`'],
            forall|k: int| 0 <= k < i ==> text@[k + 1] == token@[k],
        decreases token.len() - i,
    {
        if text[i + 1] != token[i] {
            assert(want[i as int + 1] == token@[i as int]);
            return false;
        }
        i = i + 1;
    }
    assert(text@ =~= want) by {
        assert forall|k: int| 0 <= k < text@.len() implies text@[k] == want[k] by {
            if 0 < k < text@.len() - 1 {
                assert(text@[(k - 1) + 1] == token@[k - 1]);
            }
        }
    }
    true
}

fn heading_of(line: &Vec<char>, token: &Vec<char>) -> (level: Option<usize>)
    ensures
        match level {
            Some(n) => is_entry_heading(line@, token@) && n == hashes(line@),
            None => !is_entry_heading(line@, token@),
        },
{
    let n: usize = count_hashes(line);
    if n < 2 {
        return None;
    }
    let rest: Vec<char> = slice_of(line, n, line.len());
    assert(rest@ =~= after_hashes(line@));
    let title: Vec<char> = trim(&rest);
    if is_quoted_token(&title, token) {
        Some(n)
    } else {
        None
    }
}

fn closing(line: &Vec<char>, level: usize) -> (is: bool)
    ensures
        is == closes(line@, level as nat),
{
    let n: usize = count_hashes(line);
    if n == 0 || n > level || n >= line.len() {
        return false;
    }
    assert(after_hashes(line@)[0] == line@[n as int]);
    line[n] == ' '
}

/// The entry of a token on a page. It is cut out of the page, not copied from
/// elsewhere, so what is printed is what is published.
pub fn entry_on_page(page: &Vec<char>, token: &Vec<char>) -> (entry: Option<Vec<char>>)
    ensures
        entry.deep_view() == page_entry(page@, token@),
{
    let mut at: usize = 0;
    while at < page.len()
        invariant
            0 <= at <= page@.len(),
            entry_start(page@, 0, token@) == entry_start(page@, at as int, token@),
        decreases page.len() - at,
    {
        let end: usize = find_line_end(page, at);
        let line: Vec<char> = slice_of(page, at, end);
        assert(line@ =~= line_at(page@, at as int));
        let next: usize = if end < page.len() {
            end + 1
        } else {
            page.len()
        };
        if let Some(level) = heading_of(&line, token) {
            let stop: usize = find_entry_end(page, next, level);
            let cut: Vec<char> = cut_entry(page, at, stop);
            return Some(cut);
        }
        at = next;
    }
    None
}

fn find_entry_end(page: &Vec<char>, from: usize, level: usize) -> (stop: usize)
    requires
        from <= page@.len(),
    ensures
        stop == entry_end(page@, from as int, level as nat),
        from <= stop <= page@.len(),
{
    let mut at: usize = from;
    while at < page.len()
        invariant
            from <= at <= page@.len(),
            entry_end(page@, from as int, level as nat) == entry_end(
                page@,
                at as int,
                level as nat,
            ),
        decreases page.len() - at,
    {
        let end: usize = find_line_end(page, at);
        let line: Vec<char> = slice_of(page, at, end);
        assert(line@ =~= line_at(page@, at as int));
        if closing(&line, level) {
            return at;
        }
        at = if end < page.len() {
            end + 1
        } else {
            page.len()
        };
    }
    page.len()
}

fn cut_entry(page: &Vec<char>, from: usize, to: usize) -> (entry: Vec<char>)
    requires
        from <= to <= page@.len(),
    ensures
        entry@ == without_end_breaks(page@.subrange(from as int, to as int)),
{
    let mut end: usize = to;
    while end > from && page[end - 1] == '\n'
        invariant
            from <= end <= to <= page@.len(),
            without_end_breaks(page@.subrange(from as int, to as int)) == without_end_breaks(
                page@.subrange(from as int, end as int),
            ),
        decreases end,
    {
        proof {
            let part = page@.subrange(from as int, end as int);
            assert(part.last() == page@[end - 1]);
            assert(part.drop_last() =~= page@.subrange(from as int, end - 1));
        }
        end = end - 1;
    }
    proof {
        let part = page@.subrange(from as int, end as int);
        if part.len() > 0 {
            assert(part.last() == page@[end - 1]);
        }
    }
    slice_of(page, from, end)
}

/// The entry of a token, from whichever page documents it first.
pub fn entry_for_token(pages: &Vec<String>, token: &str) -> (entry: Option<String>)
    ensures
        entry.deep_view() == book_entry(pages.deep_view(), token@),
{
    let ghost all = pages.deep_view();
    let wanted: Vec<char> = chars_of(token);
    let mut i: usize = 0;
    assert(all.skip(0) =~= all);
    while i < pages.len()
        invariant
            0 <= i <= pages.len(),
            all == pages.deep_view(),
            wanted@ == token@,
            book_entry(all, token@) == book_entry(all.skip(i as int), token@),
        decreases pages.len() - i,
    {
        let page: Vec<char> = chars_of(&pages[i]);
        proof {
            assert(all.skip(i as int)[0] == page@);
            assert(all.skip(i as int).drop_first() =~= all.skip(i as int + 1));
        }
        if let Some(entry) = entry_on_page(&page, &wanted) {
            return Some(text_of(&entry));
        }
        i = i + 1;
    }
    assert(all.skip(i as int) =~= Seq::empty());
    None
}

proof fn entry_bounds(page: Seq<char>, at: int, token: Seq<char>)
    requires
        0 <= at,
        entry_start(page, at, token) is Some,
    ensures
        entry_start(page, at, token) matches Some((from, _)) && at <= from < page.len()
            && is_entry_heading(line_at(page, from), token),
    decreases page.len() - at,
{
    if !is_entry_heading(line_at(page, at), token) {
        line_end_is_within(page, at);
        entry_bounds(page, next_line(page, at), token);
    }
}

proof fn end_bounds(page: Seq<char>, at: int, level: nat)
    requires
        0 <= at <= page.len(),
    ensures
        at <= entry_end(page, at, level) <= page.len(),
    decreases page.len() - at,
{
    if at < page.len() && !closes(line_at(page, at), level) {
        line_end_is_within(page, at);
        end_bounds(page, next_line(page, at), level);
    }
}

proof fn breaks_are_a_tail(s: Seq<char>) -> (n: int)
    ensures
        0 <= n <= s.len(),
        without_end_breaks(s) == s.take(n),
    decreases s.len(),
{
    if s.len() > 0 && s.last() == '\n' {
        let n = breaks_are_a_tail(s.drop_last());
        assert(s.drop_last().take(n) =~= s.take(n));
        n
    } else {
        assert(s.take(s.len() as int) =~= s);
        s.len() as int
    }
}

/// What is served of a page is a piece of it, letter for letter.
pub proof fn entries_are_pieces_of_the_page(page: Seq<char>, token: Seq<char>)
    requires
        page_entry(page, token) is Some,
    ensures
        exists|from: int, to: int|
            0 <= from <= to <= page.len() && page_entry(page, token) == Some(
                #[trigger] page.subrange(from, to),
            ),
{
    entry_bounds(page, 0, token);
    let (from, level) = entry_start(page, 0, token)->0;
    line_end_is_within(page, from);
    let next = next_line(page, from);
    end_bounds(page, next, level);
    let to = entry_end(page, next, level);
    let n = breaks_are_a_tail(page.subrange(from, to));
    assert(page.subrange(from, to).take(n) =~= page.subrange(from, from + n));
}

/// A text without the backquotes around it.
pub open spec fn without_quotes(s: Seq<char>) -> Seq<char>
    decreases s.len(),
{
    if s.len() > 0 && s[0] == '`' {
        without_quotes(s.drop_first())
    } else if s.len() > 0 && s.last() == '`' {
        without_quotes(s.drop_last())
    } else {
        s
    }
}

/// The token a line is the heading of, if it is one: one word.
pub open spec fn heading_token(line: Seq<char>) -> Seq<Seq<char>> {
    let title = trimmed(after_hashes(line));
    if hashes(line) >= 2 && title.len() > 2 && title[0] == '`' && title.last() == '`'
        && !without_quotes(title).contains(' ') {
        seq![without_quotes(title)]
    } else {
        Seq::empty()
    }
}

/// The tokens a page documents, looking from `at` on.
pub open spec fn page_tokens(page: Seq<char>, at: int) -> Seq<Seq<char>>
    decreases page.len() - at,
{
    if at < 0 || at >= page.len() {
        Seq::empty()
    } else if next_line(page, at) <= at {
        heading_token(line_at(page, at))
    } else {
        heading_token(line_at(page, at)) + page_tokens(page, next_line(page, at))
    }
}

/// The tokens the pages document, as they come.
pub open spec fn all_tokens(pages: Seq<Seq<char>>) -> Seq<Seq<char>> {
    pages.flat_map(|p: Seq<char>| page_tokens(p, 0))
}

/// Whether two lists hold the same texts.
pub open spec fn same_texts(a: Seq<Seq<char>>, b: Seq<Seq<char>>) -> bool {
    forall|t: Seq<char>| #[trigger] a.contains(t) <==> b.contains(t)
}

/// Adds a text to an ordered list, unless it is there.
fn insert_ordered(list: &mut Vec<String>, t: String, seen: Ghost<Seq<Seq<char>>>)
    requires
        strictly_ordered(old(list).deep_view()),
        same_texts(old(list).deep_view(), seen@),
    ensures
        strictly_ordered(final(list).deep_view()),
        same_texts(final(list).deep_view(), seen@.push(t@)),
{
    let ghost before = list.deep_view();
    let ghost after = seen@.push(t@);
    let key: Vec<char> = chars_of(&t);
    proof {
        assert forall|x: Seq<char>| after.contains(x) <==> seen@.contains(x) || x == t@ by {
            if after.contains(x) {
                let k = choose|k: int| 0 <= k < after.len() && after[k] == x;
                if k < seen@.len() {
                    assert(seen@[k] == x);
                }
            }
            if seen@.contains(x) {
                let k = choose|k: int| 0 <= k < seen@.len() && seen@[k] == x;
                assert(after[k] == x);
            }
            if x == t@ {
                assert(after[seen@.len() as int] == x);
            }
        }
    }
    let mut p: usize = 0;
    while p < list.len() && comes_before(&chars_of(&list[p]), &key)
        invariant
            0 <= p <= list.len(),
            list.deep_view() == before,
            key@ == t@,
            forall|k: int| 0 <= k < p ==> text_before(#[trigger] before[k], t@),
        decreases list.len() - p,
    {
        assert(before[p as int] == list@[p as int]@);
        p = p + 1;
    }
    if p < list.len() && list[p] == t {
        proof {
            assert(before[p as int] == t@);
            assert(before.contains(t@));
            assert forall|x: Seq<char>| #[trigger] before.contains(x) <==> after.contains(x) by {}
        }
        return;
    }
    let ghost tv = t@;
    list.insert(p, t);
    proof {
        let now = list.deep_view();
        assert(now =~= before.insert(p as int, tv));
        assert forall|x: Seq<char>| #[trigger] now.contains(x) <==> after.contains(x) by {
            if now.contains(x) {
                let k = choose|k: int| 0 <= k < now.len() && now[k] == x;
                if k < p {
                    assert(before[k] == x);
                    assert(before.contains(x));
                } else if k > p {
                    assert(before[k - 1] == x);
                    assert(before.contains(x));
                }
            }
            if before.contains(x) {
                let k = choose|k: int| 0 <= k < before.len() && before[k] == x;
                if k < p {
                    assert(now[k] == x);
                } else {
                    assert(now[k + 1] == x);
                }
            }
            if x == tv {
                assert(now[p as int] == x);
            }
            assert(before.contains(x) <==> seen@.contains(x));
        }
        assert forall|i: int, j: int| 0 <= i < j < now.len() implies text_before(
            #[trigger] now[i],
            #[trigger] now[j],
        ) by {
            let bi = if i < p {
                i
            } else {
                i - 1
            };
            let bj = if j < p {
                j
            } else {
                j - 1
            };
            if i == p {
                assert(now[j] == before[bj]);
                text_order_is_total(tv, before[p as int]);
                if bj > p {
                    text_order_is_transitive(tv, before[p as int], before[bj]);
                }
            } else if j == p {
                assert(now[i] == before[bi]);
            } else {
                assert(now[i] == before[bi]);
                assert(now[j] == before[bj]);
            }
        }
    }
}

fn token_of_line(line: &Vec<char>) -> (token: Option<String>)
    ensures
        match token {
            Some(t) => heading_token(line@) == seq![t@],
            None => heading_token(line@) == Seq::<Seq<char>>::empty(),
        },
{
    let n: usize = count_hashes(line);
    let rest: Vec<char> = slice_of(line, n, line.len());
    assert(rest@ =~= after_hashes(line@));
    let title: Vec<char> = trim(&rest);
    if n < 2 || title.len() <= 2 || title[0] != '`' || title[title.len() - 1] != '`' {
        return None;
    }
    let mut from: usize = 0;
    let mut to: usize = title.len();
    assert(title@.subrange(0, to as int) =~= title@);
    while from < to && (title[from] == '`' || title[to - 1] == '`')
        invariant
            0 <= from <= to <= title@.len(),
            without_quotes(title@) == without_quotes(title@.subrange(from as int, to as int)),
        decreases to - from,
    {
        let ghost part = title@.subrange(from as int, to as int);
        assert(part[0] == title@[from as int]);
        assert(part.last() == title@[to - 1]);
        if title[from] == '`' {
            assert(part.drop_first() =~= title@.subrange(from as int + 1, to as int));
            from = from + 1;
        } else {
            assert(part.drop_last() =~= title@.subrange(from as int, to - 1));
            to = to - 1;
        }
    }
    proof {
        let part = title@.subrange(from as int, to as int);
        if part.len() > 0 {
            assert(part[0] == title@[from as int]);
            assert(part.last() == title@[to - 1]);
        }
    }
    let bare: Vec<char> = slice_of(&title, from, to);
    let mut i: usize = 0;
    while i < bare.len()
        invariant
            0 <= i <= bare@.len(),
            bare@ == without_quotes(title@),
            title@ == trimmed(after_hashes(line@)),
            forall|k: int| 0 <= k < i ==> bare@[k] != ' ',
        decreases bare.len() - i,
    {
        if bare[i] == ' ' {
            assert(without_quotes(title@).contains(' '));
            return None;
        }
        i = i + 1;
    }
    Some(text_of(&bare))
}

/// The heading of an entry names its token: a word without backquotes at its
/// ends.
proof fn heading_names_its_token(line: Seq<char>, token: Seq<char>)
    requires
        token.len() > 0,
        !token.contains(' '),
        token[0] != '`',
        token.last() != '`',
        is_entry_heading(line, token),
    ensures
        heading_token(line) == seq![token],
{
    let title = trimmed(after_hashes(line));
    assert(title.drop_first() =~= token + seq!['`']);
    assert((token + seq!['`']).drop_last() =~= token);
    reveal_with_fuel(without_quotes, 4);
    assert(without_quotes(title) == token);
}

/// A page with an entry for a token documents that token.
proof fn page_documents_its_entries(page: Seq<char>, at: int, token: Seq<char>)
    requires
        0 <= at,
        token.len() > 0,
        !token.contains(' '),
        token[0] != '`',
        token.last() != '`',
        entry_start(page, at, token) is Some,
    ensures
        page_tokens(page, at).contains(token),
    decreases page.len() - at,
{
    let here = heading_token(line_at(page, at));
    if is_entry_heading(line_at(page, at), token) {
        heading_names_its_token(line_at(page, at), token);
        assert(page_tokens(page, at)[0] == token);
    } else {
        let rest = page_tokens(page, next_line(page, at));
        page_documents_its_entries(page, next_line(page, at), token);
        let k = choose|k: int| 0 <= k < rest.len() && rest[k] == token;
        assert(page_tokens(page, at)[here.len() + k] == token);
    }
}

/// The page an entry is on.
proof fn entry_is_on_a_page(pages: Seq<Seq<char>>, token: Seq<char>) -> (i: int)
    requires
        book_entry(pages, token) is Some,
    ensures
        0 <= i < pages.len(),
        page_entry(pages[i], token) is Some,
    decreases pages.len(),
{
    if page_entry(pages[0], token) is Some {
        0
    } else {
        let i = entry_is_on_a_page(pages.drop_first(), token);
        assert(pages.drop_first()[i] == pages[i + 1]);
        i + 1
    }
}

/// Every token with an entry is documented: a word without a space and without
/// backquotes at its ends that has an entry is among the tokens of the pages.
pub proof fn tokens_with_an_entry_are_documented(pages: Seq<Seq<char>>, token: Seq<char>)
    requires
        token.len() > 0,
        !token.contains(' '),
        token[0] != '`',
        token.last() != '`',
        book_entry(pages, token) is Some,
    ensures
        all_tokens(pages).contains(token),
{
    let f = |p: Seq<char>| page_tokens(p, 0);
    let i = entry_is_on_a_page(pages, token);
    page_documents_its_entries(pages[i], 0, token);
    assert(f(pages[i]).contains(token));
    flat_map_holds(pages, f, i, token);
}

/// The tokens of a page hold no space.
proof fn page_tokens_are_words(page: Seq<char>, at: int, token: Seq<char>)
    requires
        page_tokens(page, at).contains(token),
    ensures
        !token.contains(' '),
    decreases page.len() - at,
{
    let here = heading_token(line_at(page, at));
    let all = page_tokens(page, at);
    let k = choose|k: int| 0 <= k < all.len() && all[k] == token;
    if k >= here.len() {
        let rest = page_tokens(page, next_line(page, at));
        assert(rest[k - here.len()] == token);
        page_tokens_are_words(page, next_line(page, at), token);
    }
}

/// No documented token holds a space.
pub proof fn documented_tokens_are_words(pages: Seq<Seq<char>>, token: Seq<char>)
    requires
        all_tokens(pages).contains(token),
    ensures
        !token.contains(' '),
{
    let f = |p: Seq<char>| page_tokens(p, 0);
    let all = all_tokens(pages);
    let k = choose|k: int| 0 <= k < all.len() && all[k] == token;
    let i = flat_map_member(pages, f, k);
    page_tokens_are_words(pages[i], 0, token);
}

/// Every token the pages document, in order and each once. The pages are the
/// register: nothing else lists the tokens.
pub fn documented_tokens(pages: &Vec<String>) -> (tokens: Vec<String>)
    ensures
        strictly_ordered(tokens.deep_view()),
        same_texts(tokens.deep_view(), all_tokens(pages.deep_view())),
        forall|t: Seq<char>| #[trigger] tokens.deep_view().contains(t) ==> !t.contains(' '),
        forall|t: Seq<char>|
            t.len() > 0 && !t.contains(' ') && t[0] != '`' && t.last() != '`'
                && #[trigger] book_entry(pages.deep_view(), t) is Some
                ==> tokens.deep_view().contains(t),
{
    let ghost all = pages.deep_view();
    let ghost f = |p: Seq<char>| page_tokens(p, 0);
    let mut tokens: Vec<String> = Vec::new();
    let mut i: usize = 0;
    assert(tokens.deep_view() =~= Seq::<Seq<char>>::empty());
    assert(all.take(0).flat_map(f) =~= Seq::<Seq<char>>::empty());
    while i < pages.len()
        invariant
            0 <= i <= pages.len(),
            all == pages.deep_view(),
            f == (|p: Seq<char>| page_tokens(p, 0)),
            strictly_ordered(tokens.deep_view()),
            same_texts(tokens.deep_view(), all.take(i as int).flat_map(f)),
        decreases pages.len() - i,
    {
        let page: Vec<char> = chars_of(&pages[i]);
        let ghost base = all.take(i as int).flat_map(f);
        let ghost mut done: Seq<Seq<char>> = Seq::empty();
        let mut at: usize = 0;
        proof {
            assert(all[i as int] == page@);
            assert(base + done =~= base);
            assert(done + page_tokens(page@, 0) =~= page_tokens(page@, 0));
        }
        while at < page.len()
            invariant
                0 <= at <= page@.len(),
                strictly_ordered(tokens.deep_view()),
                same_texts(tokens.deep_view(), base + done),
                done + page_tokens(page@, at as int) == page_tokens(page@, 0),
            decreases page.len() - at,
        {
            let end: usize = find_line_end(&page, at);
            let line: Vec<char> = slice_of(&page, at, end);
            let next: usize = if end < page.len() {
                end + 1
            } else {
                page.len()
            };
            let ghost here = heading_token(line@);
            proof {
                assert(line@ =~= line_at(page@, at as int));
                assert((done + here) + page_tokens(page@, next as int) =~= done + page_tokens(
                    page@,
                    at as int,
                ));
            }
            match token_of_line(&line) {
                Some(t) => {
                    let ghost tv = t@;
                    insert_ordered(&mut tokens, t, Ghost(base + done));
                    assert((base + done).push(tv) =~= base + (done + here));
                },
                None => {
                    assert(done + here =~= done);
                },
            }
            proof {
                done = done + here;
            }
            at = next;
        }
        proof {
            assert(page_tokens(page@, at as int) =~= Seq::<Seq<char>>::empty());
            assert(done =~= page_tokens(page@, 0));
            all.lemma_flat_map_take_append(f, i as int);
            assert(base + done =~= all.take(i as int + 1).flat_map(f));
        }
        i = i + 1;
    }
    assert(all.take(i as int) =~= all);
    proof {
        assert forall|t: Seq<char>| #[trigger] tokens.deep_view().contains(t) implies !t.contains(
            ' ',
        ) by {
            documented_tokens_are_words(all, t);
        }
        assert forall|t: Seq<char>|
            t.len() > 0 && !t.contains(' ') && t[0] != '`' && t.last() != '`'
                && #[trigger] book_entry(all, t) is Some implies tokens.deep_view().contains(t) by {
            tokens_with_an_entry_are_documented(all, t);
        }
    }
    tokens
}

/// The least of three numbers.
pub open spec fn least(a: nat, b: nat, c: nat) -> nat {
    if a <= b && a <= c {
        a
    } else if b <= c {
        b
    } else {
        c
    }
}

/// How many characters have to be put in, taken out or replaced to get from
/// one text to the other.
pub open spec fn distance(a: Seq<char>, b: Seq<char>) -> nat
    decreases a.len() + b.len(),
{
    if a.len() == 0 {
        b.len()
    } else if b.len() == 0 {
        a.len()
    } else {
        least(
            distance(a.drop_last(), b) + 1,
            distance(a, b.drop_last()) + 1,
            distance(a.drop_last(), b.drop_last()) + if a.last() == b.last() {
                0nat
            } else {
                1nat
            },
        )
    }
}

/// The distance is at least the difference of the lengths, and at most the
/// longer of them.
pub proof fn distance_is_bounded(a: Seq<char>, b: Seq<char>)
    ensures
        distance(a, b) >= a.len() - b.len(),
        distance(a, b) >= b.len() - a.len(),
        distance(a, b) <= a.len() || distance(a, b) <= b.len(),
    decreases a.len() + b.len(),
{
    if a.len() > 0 && b.len() > 0 {
        distance_is_bounded(a.drop_last(), b);
        distance_is_bounded(a, b.drop_last());
        distance_is_bounded(a.drop_last(), b.drop_last());
    }
}

/// The distance is the same in both directions.
pub proof fn distance_is_symmetric(a: Seq<char>, b: Seq<char>)
    ensures
        distance(a, b) == distance(b, a),
    decreases a.len() + b.len(),
{
    if a.len() > 0 && b.len() > 0 {
        distance_is_symmetric(a.drop_last(), b);
        distance_is_symmetric(a, b.drop_last());
        distance_is_symmetric(a.drop_last(), b.drop_last());
    }
}

/// The distance is zero between equal texts and only there.
pub proof fn distance_tells_texts_apart(a: Seq<char>, b: Seq<char>)
    ensures
        distance(a, b) == 0 <==> a == b,
    decreases a.len() + b.len(),
{
    if a.len() == 0 || b.len() == 0 {
        if a.len() == 0 && b.len() == 0 {
            assert(a =~= b);
        }
    } else {
        distance_tells_texts_apart(a.drop_last(), b.drop_last());
        if a == b {
            assert(a.drop_last() == b.drop_last());
        }
        if distance(a, b) == 0 {
            assert(a.drop_last() == b.drop_last());
            assert(a =~= a.drop_last().push(a.last()));
            assert(b =~= b.drop_last().push(b.last()));
        }
    }
}

/// A detour through a third text is no shorter.
pub proof fn distance_obeys_the_triangle_inequality(a: Seq<char>, b: Seq<char>, c: Seq<char>)
    ensures
        distance(a, c) <= distance(a, b) + distance(b, c),
    decreases a.len() + b.len() + c.len(),
{
    if a.len() == 0 || b.len() == 0 || c.len() == 0 {
        distance_is_bounded(a, b);
        distance_is_bounded(b, c);
        distance_is_bounded(a, c);
    } else {
        distance_obeys_the_triangle_inequality(a.drop_last(), b, c);
        distance_obeys_the_triangle_inequality(a, b, c.drop_last());
        distance_obeys_the_triangle_inequality(a, b.drop_last(), c);
        distance_obeys_the_triangle_inequality(a, b.drop_last(), c.drop_last());
        distance_obeys_the_triangle_inequality(a.drop_last(), b.drop_last(), c);
        distance_obeys_the_triangle_inequality(a.drop_last(), b.drop_last(), c.drop_last());
    }
}

/// Whether `b` is `a` with one character put in, taken out or replaced.
pub open spec fn one_edit(a: Seq<char>, b: Seq<char>) -> bool {
    ||| exists|i: int, c: char| 0 <= i <= a.len() && b == #[trigger] a.insert(i, c)
    ||| exists|i: int| 0 <= i < a.len() && b == #[trigger] a.remove(i)
    ||| exists|i: int, c: char| 0 <= i < a.len() && b == #[trigger] a.update(i, c)
}

/// Whether `steps` leads from `a` to `b` with one edit at a time.
pub open spec fn edits_to(steps: Seq<Seq<char>>, a: Seq<char>, b: Seq<char>) -> bool {
    &&& steps.len() > 0
    &&& steps[0] == a
    &&& steps.last() == b
    &&& forall|i: int| 0 < i < steps.len() ==> one_edit(steps[i - 1], #[trigger] steps[i])
}

/// What both texts end in adds nothing to their distance.
proof fn common_end_adds_nothing(a: Seq<char>, b: Seq<char>, end: Seq<char>)
    ensures
        distance(a + end, b + end) <= distance(a, b),
    decreases end.len(),
{
    if end.len() == 0 {
        assert(a + end =~= a);
        assert(b + end =~= b);
    } else {
        common_end_adds_nothing(a, b, end.drop_last());
        assert((a + end).drop_last() =~= a + end.drop_last());
        assert((b + end).drop_last() =~= b + end.drop_last());
    }
}

/// One edit makes a distance of one at most.
proof fn edited_texts_are_close(a: Seq<char>, b: Seq<char>)
    requires
        one_edit(a, b),
    ensures
        distance(a, b) <= 1,
{
    if exists|i: int, c: char| 0 <= i <= a.len() && b == #[trigger] a.insert(i, c) {
        let (i, c) = choose|i: int, c: char| 0 <= i <= a.len() && b == #[trigger] a.insert(i, c);
        let p = a.take(i);
        distance_tells_texts_apart(p, p);
        assert(p.push(c).drop_last() =~= p);
        assert(distance(p, p.push(c)) <= 1);
        common_end_adds_nothing(p, p.push(c), a.skip(i));
        assert(p + a.skip(i) =~= a);
        assert(p.push(c) + a.skip(i) =~= b);
    } else if exists|i: int| 0 <= i < a.len() && b == #[trigger] a.remove(i) {
        let i = choose|i: int| 0 <= i < a.len() && b == #[trigger] a.remove(i);
        let p = a.take(i);
        distance_tells_texts_apart(p, p);
        assert(p.push(a[i]).drop_last() =~= p);
        assert(distance(p.push(a[i]), p) <= 1);
        common_end_adds_nothing(p.push(a[i]), p, a.skip(i + 1));
        assert(p.push(a[i]) + a.skip(i + 1) =~= a);
        assert(p + a.skip(i + 1) =~= b);
    } else {
        let (i, c) = choose|i: int, c: char| 0 <= i < a.len() && b == #[trigger] a.update(i, c);
        let p = a.take(i);
        distance_tells_texts_apart(p, p);
        assert(p.push(a[i]).drop_last() =~= p);
        assert(p.push(c).drop_last() =~= p);
        assert(distance(p.push(a[i]), p.push(c)) <= 1);
        common_end_adds_nothing(p.push(a[i]), p.push(c), a.skip(i + 1));
        assert(p.push(a[i]) + a.skip(i + 1) =~= a);
        assert(p.push(c) + a.skip(i + 1) =~= b);
    }
}

/// No chain of edits is shorter than the distance.
proof fn edits_cover_the_distance(steps: Seq<Seq<char>>, a: Seq<char>, b: Seq<char>)
    requires
        edits_to(steps, a, b),
    ensures
        steps.len() >= distance(a, b) + 1,
    decreases steps.len(),
{
    if steps.len() == 1 {
        distance_tells_texts_apart(a, b);
    } else {
        let prior = steps.drop_last();
        assert forall|i: int| 0 < i < prior.len() implies one_edit(
            prior[i - 1],
            #[trigger] prior[i],
        ) by {
            assert(one_edit(steps[i - 1], steps[i]));
        }
        edits_cover_the_distance(prior, a, prior.last());
        assert(one_edit(steps[steps.len() - 2], steps[steps.len() - 1]));
        edited_texts_are_close(prior.last(), b);
        distance_obeys_the_triangle_inequality(a, prior.last(), b);
    }
}

/// An edit of two texts is one of the same texts with a character behind them.
proof fn edits_carry_an_end(a: Seq<char>, b: Seq<char>, end: char)
    requires
        one_edit(a, b),
    ensures
        one_edit(a.push(end), b.push(end)),
{
    if exists|i: int, c: char| 0 <= i <= a.len() && b == #[trigger] a.insert(i, c) {
        let (i, c) = choose|i: int, c: char| 0 <= i <= a.len() && b == #[trigger] a.insert(i, c);
        assert(b.push(end) =~= a.push(end).insert(i, c));
    } else if exists|i: int| 0 <= i < a.len() && b == #[trigger] a.remove(i) {
        let i = choose|i: int| 0 <= i < a.len() && b == #[trigger] a.remove(i);
        assert(b.push(end) =~= a.push(end).remove(i));
    } else {
        let (i, c) = choose|i: int, c: char| 0 <= i < a.len() && b == #[trigger] a.update(i, c);
        assert(b.push(end) =~= a.push(end).update(i, c));
    }
}

/// A chain of edits goes on with one more.
proof fn edits_go_on(steps: Seq<Seq<char>>, a: Seq<char>, b: Seq<char>, c: Seq<char>)
    requires
        edits_to(steps, a, b),
        one_edit(b, c),
    ensures
        edits_to(steps.push(c), a, c),
{
    let more = steps.push(c);
    assert forall|i: int| 0 < i < more.len() implies one_edit(more[i - 1], #[trigger] more[i]) by {
        if i < steps.len() {
            assert(one_edit(steps[i - 1], steps[i]));
        }
    }
}

/// Some chain of edits is as short as the distance.
#[verifier::spinoff_prover]
#[verifier::rlimit(50)]
proof fn edits_as_short_as_the_distance(a: Seq<char>, b: Seq<char>) -> (steps: Seq<Seq<char>>)
    ensures
        edits_to(steps, a, b),
        steps.len() == distance(a, b) + 1,
    decreases a.len() + b.len(),
{
    if a.len() == 0 && b.len() == 0 {
        assert(a =~= b);
        seq![a]
    } else if b.len() > 0 && distance(a, b) == distance(a, b.drop_last()) + 1 {
        let init = b.drop_last();
        let steps = edits_as_short_as_the_distance(a, init);
        assert(b =~= init.insert(init.len() as int, b.last()));
        assert(one_edit(init, b));
        edits_go_on(steps, a, init, b);
        steps.push(b)
    } else if a.len() > 0 && distance(a, b) == distance(a.drop_last(), b) + 1 {
        let init = a.drop_last();
        let steps = edits_as_short_as_the_distance(init, b);
        assert(init =~= a.remove(a.len() - 1));
        assert(one_edit(a, init));
        let more = seq![a] + steps;
        assert forall|i: int| 0 < i < more.len() implies one_edit(
            more[i - 1],
            #[trigger] more[i],
        ) by {
            if i > 1 {
                assert(more[i] == steps[i - 1]);
                assert(one_edit(steps[i - 2], steps[i - 1]));
            } else {
                assert(more[i] == steps[0]);
            }
        }
        assert(more.last() == steps.last());
        more
    } else {
        let x = a.drop_last();
        let y = b.drop_last();
        let inner = edits_as_short_as_the_distance(x, y);
        let steps = inner.map_values(|s: Seq<char>| s.push(a.last()));
        assert forall|i: int| 0 < i < steps.len() implies one_edit(
            steps[i - 1],
            #[trigger] steps[i],
        ) by {
            assert(one_edit(inner[i - 1], inner[i]));
            edits_carry_an_end(inner[i - 1], inner[i], a.last());
        }
        let end = y.push(a.last());
        assert(steps[0] =~= a);
        assert(steps.last() == end);
        if a.last() == b.last() {
            assert(end =~= b);
            steps
        } else {
            assert(b =~= end.update(end.len() - 1, b.last()));
            assert(one_edit(end, b));
            edits_go_on(steps, a, end, b);
            steps.push(b)
        }
    }
}

/// The distance is the least number of single characters put in, taken out or
/// replaced that leads from one text to the other.
pub proof fn distance_is_the_least_number_of_edits(a: Seq<char>, b: Seq<char>)
    ensures
        exists|steps: Seq<Seq<char>>| #[trigger] edits_to(steps, a, b) && steps.len() == distance(a, b)
            + 1,
        forall|steps: Seq<Seq<char>>| #[trigger] edits_to(steps, a, b) ==> steps.len() >= distance(
            a,
            b,
        ) + 1,
{
    let steps = edits_as_short_as_the_distance(a, b);
    assert(edits_to(steps, a, b));
    assert forall|steps: Seq<Seq<char>>| #[trigger] edits_to(steps, a, b) implies steps.len()
        >= distance(a, b) + 1 by {
        edits_cover_the_distance(steps, a, b);
    }
}

/// The distance that three neighbouring ones lead to: `up` and `left` with a
/// character taken out or put in, `diagonal` with one replaced where the two
/// are not the same.
fn next_distance(up: usize, left: usize, diagonal: usize, same: bool) -> (d: usize)
    requires
        least(
            up as nat + 1,
            left as nat + 1,
            diagonal as nat + if same {
                0nat
            } else {
                1nat
            },
        ) <= usize::MAX,
    ensures
        d == least(
            up as nat + 1,
            left as nat + 1,
            diagonal as nat + if same {
                0nat
            } else {
                1nat
            },
        ),
{
    let side: usize = if up <= left {
        up
    } else {
        left
    };
    if side < diagonal {
        side + 1
    } else if same {
        diagonal
    } else {
        diagonal + 1
    }
}

/// The distance between two texts, by rows: each row holds the distances of a
/// beginning of `a` to all beginnings of `b` that are not empty.
pub fn levenshtein(a: &str, b: &str) -> (d: usize)
    ensures
        d == distance(a@, b@),
        exists|steps: Seq<Seq<char>>| #[trigger] edits_to(steps, a@, b@) && steps.len() == d + 1,
        forall|steps: Seq<Seq<char>>| #[trigger] edits_to(steps, a@, b@) ==> steps.len() >= d + 1,
{
    proof {
        distance_is_the_least_number_of_edits(a@, b@);
    }
    let a: Vec<char> = chars_of(a);
    let b: Vec<char> = chars_of(b);
    let m: usize = a.len();
    let n: usize = b.len();
    if m == 0 {
        return n;
    }
    if n == 0 {
        return m;
    }
    let mut prev: Vec<usize> = Vec::new();
    let mut k: usize = 0;
    while k < n
        invariant
            0 <= k <= n,
            n == b@.len(),
            prev@.len() == k,
            forall|j: int|
                0 <= j < k ==> #[trigger] prev@[j] == distance(a@.take(0), b@.take(j + 1)),
        decreases n - k,
    {
        assert(a@.take(0).len() == 0);
        assert(b@.take(k as int + 1).len() == k + 1);
        k = k + 1;
        prev.push(k);
    }
    let mut i: usize = 0;
    while i < m
        invariant
            0 <= i <= m,
            m == a@.len(),
            n == b@.len(),
            0 < n,
            prev@.len() == n,
            forall|j: int|
                0 <= j < n ==> #[trigger] prev@[j] == distance(a@.take(i as int), b@.take(j + 1)),
        decreases m - i,
    {
        let mut curr: Vec<usize> = Vec::new();
        let mut j: usize = 0;
        while j < n
            invariant
                0 <= j <= n,
                0 <= i < m,
                m == a@.len(),
                n == b@.len(),
                prev@.len() == n,
                forall|k: int|
                    0 <= k < n ==> #[trigger] prev@[k] == distance(
                        a@.take(i as int),
                        b@.take(k + 1),
                    ),
                curr@.len() == j,
                forall|k: int|
                    0 <= k < j ==> #[trigger] curr@[k] == distance(
                        a@.take(i as int + 1),
                        b@.take(k + 1),
                    ),
            decreases n - j,
        {
            let up: usize = prev[j];
            let left: usize = if j == 0 {
                i + 1
            } else {
                curr[j - 1]
            };
            let diagonal: usize = if j == 0 {
                i
            } else {
                prev[j - 1]
            };
            proof {
                let x = a@.take(i as int + 1);
                let y = b@.take(j as int + 1);
                assert(x.drop_last() =~= a@.take(i as int));
                assert(y.drop_last() =~= b@.take(j as int));
                assert(x.last() == a@[i as int]);
                assert(y.last() == b@[j as int]);
                assert(b@.take(0).len() == 0);
                assert(up == distance(x.drop_last(), y));
                assert(left == distance(x, y.drop_last()));
                assert(diagonal == distance(x.drop_last(), y.drop_last()));
                distance_is_bounded(x, y);
            }
            let d: usize = next_distance(up, left, diagonal, a[i] == b[j]);
            curr.push(d);
            j = j + 1;
        }
        prev = curr;
        i = i + 1;
    }
    assert(a@.take(m as int) =~= a@);
    assert(b@.take(n as int) =~= b@);
    prev[n - 1]
}

/// Whether a candidate is near enough to be meant: at most two edits away, and
/// nearer than by rewriting it whole.
pub open spec fn near(input: Seq<char>, candidate: Seq<char>) -> bool {
    distance(input, candidate) <= 2 && distance(input, candidate) < candidate.len()
}

/// Whether a candidate is near, no other is nearer, and none before it is as
/// near.
pub open spec fn is_best(candidates: Seq<Seq<char>>, input: Seq<char>, i: int) -> bool {
    &&& 0 <= i < candidates.len()
    &&& near(input, candidates[i])
    &&& forall|k: int|
        0 <= k < i && near(input, #[trigger] candidates[k]) ==> distance(input, candidates[k])
            > distance(input, candidates[i])
    &&& forall|k: int|
        i < k < candidates.len() && near(input, #[trigger] candidates[k]) ==> distance(
            input,
            candidates[k],
        ) >= distance(input, candidates[i])
}

/// Whether a suggestion is the right one: the first of the nearest candidates,
/// or none where none is near.
pub open spec fn suggests(candidates: Seq<Seq<char>>, input: Seq<char>, s: Option<Seq<char>>) -> bool {
    match s {
        Some(v) => exists|i: int| is_best(candidates, input, i) && #[trigger] candidates[i] == v,
        None => forall|i: int|
            0 <= i < candidates.len() ==> !near(input, #[trigger] candidates[i]),
    }
}

/// The candidate the input is nearest to, where one is near.
pub fn suggest(candidates: &Vec<String>, input: &str) -> (s: Option<String>)
    ensures
        suggests(candidates.deep_view(), input@, s.deep_view()),
{
    let ghost all = candidates.deep_view();
    let mut best: Option<(usize, usize)> = None;
    let mut i: usize = 0;
    while i < candidates.len()
        invariant
            0 <= i <= candidates.len(),
            all == candidates.deep_view(),
            match best {
                Some((p, d)) => p < i && d == distance(input@, all[p as int]) && is_best(
                    all.take(i as int),
                    input@,
                    p as int,
                ),
                None => forall|k: int| 0 <= k < i ==> !near(input@, #[trigger] all[k]),
            },
        decreases candidates.len() - i,
    {
        let word: &String = &candidates[i];
        let ghost so_far = all.take(i as int);
        let ghost next = all.take(i as int + 1);
        proof {
            assert(all[i as int] == word@);
            assert forall|k: int| 0 <= k < i implies next[k] == so_far[k] by {}
            assert(next[i as int] == word@);
        }
        let d: usize = levenshtein(input, word);
        if d <= 2 && d < word.as_str().unicode_len() {
            match best {
                Some((p, e)) => {
                    if d < e {
                        best = Some((i, d));
                        proof {
                            assert forall|k: int|
                                0 <= k < i && near(input@, #[trigger] next[k]) implies distance(
                                input@,
                                next[k],
                            ) > distance(input@, next[i as int]) by {
                                assert(next[k] == so_far[k]);
                                assert(so_far[p as int] == all[p as int]);
                            }
                            assert(is_best(next, input@, i as int));
                        }
                    } else {
                        proof {
                            assert(so_far[p as int] == all[p as int]);
                            assert(next[p as int] == so_far[p as int]);
                            assert forall|k: int|
                                0 <= k < p && near(input@, #[trigger] next[k]) implies distance(
                                input@,
                                next[k],
                            ) > distance(input@, next[p as int]) by {
                                assert(next[k] == so_far[k]);
                            }
                            assert forall|k: int|
                                p < k < next.len() && near(
                                    input@,
                                    #[trigger] next[k],
                                ) implies distance(input@, next[k]) >= distance(
                                input@,
                                next[p as int],
                            ) by {
                                if k < i {
                                    assert(next[k] == so_far[k]);
                                }
                            }
                            assert(is_best(next, input@, p as int));
                        }
                    }
                },
                None => {
                    best = Some((i, d));
                    proof {
                        assert forall|k: int| 0 <= k < i implies !near(
                            input@,
                            #[trigger] next[k],
                        ) by {
                            assert(next[k] == all[k]);
                        }
                        assert(is_best(next, input@, i as int));
                    }
                },
            }
        } else {
            proof {
                assert(!near(input@, word@));
                keeps_best(so_far, next, input@, best);
            }
        }
        i = i + 1;
    }
    assert(all.take(i as int) =~= all);
    match best {
        Some((p, _d)) => {
            assert(is_best(all, input@, p as int));
            assert(all[p as int] == candidates@[p as int]@);
            Some(candidates[p].clone())
        },
        None => None,
    }
}

/// A candidate that is not near changes nothing.
proof fn keeps_best(
    so_far: Seq<Seq<char>>,
    next: Seq<Seq<char>>,
    input: Seq<char>,
    best: Option<(usize, usize)>,
)
    requires
        next.len() == so_far.len() + 1,
        forall|k: int| 0 <= k < so_far.len() ==> next[k] == so_far[k],
        !near(input, next[so_far.len() as int]),
        best matches Some((p, d)) ==> is_best(so_far, input, p as int),
    ensures
        best matches Some((p, d)) ==> is_best(next, input, p as int),
{
    if let Some((p, _d)) = best {
        assert(next[p as int] == so_far[p as int]);
        assert forall|k: int| 0 <= k < p && near(input, #[trigger] next[k]) implies distance(
            input,
            next[k],
        ) > distance(input, next[p as int]) by {
            assert(next[k] == so_far[k]);
        }
        assert forall|k: int|
            p < k < next.len() && near(input, #[trigger] next[k]) implies distance(input, next[k])
            >= distance(input, next[p as int]) by {
            if k < so_far.len() {
                assert(next[k] == so_far[k]);
            }
        }
    }
}

/// What is suggested is at most two edits away, and is one of the candidates.
pub proof fn suggestions_are_near(
    candidates: Seq<Seq<char>>,
    input: Seq<char>,
    s: Seq<char>,
)
    requires
        suggests(candidates, input, Some(s)),
    ensures
        candidates.contains(s),
        distance(input, s) <= 2,
        distance(input, s) < s.len(),
{
}

/// Where a verb is in the index.
fn verb_place(name: &str) -> (place: Option<usize>)
    ensures
        match place {
            Some(i) => i < verbs().len() && verbs()[i as int] == name@,
            None => !verbs().contains(name@),
        },
{
    let names: Vec<String> = known_verbs();
    let wanted: String = name.to_owned();
    let mut i: usize = 0;
    while i < names.len()
        invariant
            0 <= i <= names.len(),
            names.deep_view() == verbs(),
            wanted@ == name@,
            forall|k: int| 0 <= k < i ==> #[trigger] verbs()[k] != name@,
        decreases names.len() - i,
    {
        assert(names.deep_view()[i as int] == names@[i as int]@);
        if names[i] == wanted {
            return Some(i);
        }
        i = i + 1;
    }
    assert(names@.len() == verbs().len());
    None
}

/// Whether a name is a verb.
pub fn is_known_verb(name: &str) -> (is: bool)
    ensures
        is == verbs().contains(name@),
{
    match verb_place(name) {
        Some(i) => {
            assert(verbs()[i as int] == name@);
            true
        },
        None => false,
    }
}

/// Whether a text is what a verb's bundle says.
pub open spec fn is_bundle(book: ExplainBook, verb: Seq<char>, text: Seq<char>) -> bool {
    exists|i: int|
        0 <= i < verbs().len() && #[trigger] verbs()[i] == verb && book.bundles@[i]@ == text
}

/// Whether a refusal is the right one for a name that has no entry.
pub open spec fn is_refusal(book: ExplainBook, name: Seq<char>, refusal: Seq<char>) -> bool {
    exists|tokens: Seq<Seq<char>>, s: Option<Seq<char>>|
        #![trigger suggests(verbs() + tokens, name, s)]
        {
            &&& strictly_ordered(tokens)
            &&& same_texts(tokens, all_tokens(book.pages.deep_view()))
            &&& suggests(verbs() + tokens, name, s)
            &&& refusal == match s {
                Some(candidate) => no_entry_text(name, candidate),
                None => external_command_text(name),
            }
        }
}

/// What `rwv explain` prints, or why it refuses: the index without a name, a
/// verb's bundle, a token's entry. A verb wins over a token of its name.
pub fn explain(book: &ExplainBook, cmd: Option<&str>) -> (result: Result<String, String>)
    requires
        book.bundles@.len() == verbs().len(),
    ensures
        match cmd {
            None => result is Ok && result->Ok_0@ == book.index@,
            Some(name) => if verbs().contains(name@) {
                result is Ok && is_bundle(*book, name@, result->Ok_0@)
            } else {
                match book_entry(book.pages.deep_view(), name@) {
                    Some(entry) => result is Ok && result->Ok_0@ == entry + "\n"@,
                    None => result is Err && is_refusal(*book, name@, result->Err_0@),
                }
            },
        },
{
    match cmd {
        None => Ok(book.index.clone()),
        Some(name) => {
            if let Some(i) = verb_place(name) {
                proof {
                    assert(verbs()[i as int] == name@);
                }
                return Ok(book.bundles[i].clone());
            }
            if let Some(entry) = entry_for_token(&book.pages, name) {
                return Ok(entry.concat("\n"));
            }
            let mut candidates: Vec<String> = known_verbs();
            let mut tokens: Vec<String> = documented_tokens(&book.pages);
            let ghost tv = tokens.deep_view();
            candidates.append(&mut tokens);
            assert(candidates.deep_view() =~= verbs() + tv);
            let s: Option<String> = suggest(&candidates, name);
            let given: String = name.to_owned();
            let refusal: String = match &s {
                Some(candidate) => no_entry(&given, candidate),
                None => external_command(&given),
            };
            assert(suggests(verbs() + tv, name@, s.deep_view()));
            assert(is_refusal(*book, name@, refusal@));
            Err(refusal)
        },
    }
}

/// A line ends at its first line break.
pub proof fn lines_end_at_the_first_break(page: Seq<char>, at: int)
    requires
        0 <= at <= page.len(),
    ensures
        forall|i: int| at <= i < line_end(page, at) ==> page[i] != '\n',
        !line_at(page, at).contains('\n'),
    decreases page.len() - at,
{
    line_end_is_within(page, at);
    if at < page.len() && page[at] != '\n' {
        lines_end_at_the_first_break(page, at + 1);
    }
    let line = line_at(page, at);
    assert forall|i: int| 0 <= i < line.len() implies line[i] != '\n' by {
        assert(line[i] == page[at + i]);
    }
}

/// An entry begins with its heading, ends before the next heading that is not
/// below it or with the page, and has no line break at its end.
pub proof fn entries_run_to_the_next_heading(page: Seq<char>, token: Seq<char>)
    ensures
        page_entry(page, token) is Some <==> entry_start(page, 0, token) is Some,
        page_entry(page, token) matches Some(entry) ==> {
            let (from, level) = entry_start(page, 0, token)->0;
            let to = entry_end(page, next_line(page, from), level);
            &&& is_entry_heading(line_at(page, from), token)
            &&& level == hashes(line_at(page, from))
            &&& to < page.len() ==> closes(line_at(page, to), level)
            &&& entry.is_prefix_of(page.subrange(from, to))
            &&& entry.len() > 0 ==> entry.last() != '\n'
            &&& forall|i: int| from + entry.len() <= i < to ==> page[i] == '\n'
        },
{
    if let Some((from, level)) = entry_start(page, 0, token) {
        entry_bounds(page, 0, token);
        entry_level(page, 0, token);
        line_end_is_within(page, from);
        let start = next_line(page, from);
        let to = entry_end(page, start, level);
        end_bounds(page, start, level);
        entry_end_closes(page, start, level);
        let whole = page.subrange(from, to);
        breaks_go(whole);
        let entry = without_end_breaks(whole);
        assert forall|i: int| from + entry.len() <= i < to implies page[i] == '\n' by {
            assert(whole[i - from] == page[i]);
        }
    }
}

proof fn entry_level(page: Seq<char>, at: int, token: Seq<char>)
    requires
        0 <= at,
        entry_start(page, at, token) is Some,
    ensures
        entry_start(page, at, token) matches Some((from, level)) && level == hashes(
            line_at(page, from),
        ),
    decreases page.len() - at,
{
    if at < page.len() && !is_entry_heading(line_at(page, at), token) {
        line_end_is_within(page, at);
        entry_level(page, next_line(page, at), token);
    }
}

proof fn entry_end_closes(page: Seq<char>, at: int, level: nat)
    requires
        0 <= at <= page.len(),
    ensures
        entry_end(page, at, level) < page.len() ==> closes(
            line_at(page, entry_end(page, at, level)),
            level,
        ),
    decreases page.len() - at,
{
    if at < page.len() && !closes(line_at(page, at), level) {
        line_end_is_within(page, at);
        entry_end_closes(page, next_line(page, at), level);
    }
}

proof fn breaks_go(s: Seq<char>)
    ensures
        without_end_breaks(s).is_prefix_of(s),
        without_end_breaks(s).len() > 0 ==> without_end_breaks(s).last() != '\n',
        forall|i: int| without_end_breaks(s).len() <= i < s.len() ==> s[i] == '\n',
    decreases s.len(),
{
    if s.len() > 0 && s.last() == '\n' {
        let init = s.drop_last();
        breaks_go(init);
        assert forall|i: int| without_end_breaks(s).len() <= i < s.len() implies s[i] == '\n' by {
            if i < init.len() {
                assert(init[i] == s[i]);
            }
        }
    }
}

/// A heading for a token is made of at least two hashes, a blank and the token
/// in backticks: such a line is its heading, and names it.
pub proof fn headings_name_their_token(level: nat, token: Seq<char>, line: Seq<char>)
    requires
        level >= 2,
        token.len() > 0,
        !token.contains(' '),
        token[0] != '`',
        token.last() != '`',
        line == Seq::new(level, |i: int| '#') + seq![' ', '`'] + token + seq!['`'],
    ensures
        is_entry_heading(line, token),
        heading_token(line) == seq![token],
        hashes(line) == level,
        forall|n: nat| closes(line, n) <==> n >= level,
{
    let marks = Seq::new(level, |i: int| '#');
    let title = seq!['`'] + token + seq!['`'];
    let rest = seq![' '] + title;
    assert(line =~= marks + rest);
    hashes_are_counted(level, rest);
    assert(line.skip(level as int) =~= rest);
    trimming_keeps(seq![' '], title, Seq::empty());
    assert(seq![' '] + title + Seq::<char>::empty() =~= rest);
    heading_names_its_token(line, token);
}

proof fn hashes_are_counted(level: nat, rest: Seq<char>)
    requires
        rest.len() > 0,
        rest[0] != '#',
    ensures
        hashes(Seq::new(level, |i: int| '#') + rest) == level,
    decreases level,
{
    let line = Seq::new(level, |i: int| '#') + rest;
    if level > 0 {
        let fewer = (level - 1) as nat;
        hashes_are_counted(fewer, rest);
        assert(line.drop_first() =~= Seq::new(fewer, |i: int| '#') + rest);
    } else {
        assert(line =~= rest);
    }
}

/// A token is explained from the first page that has an entry for it.
pub proof fn first_page_explains(pages: Seq<Seq<char>>, token: Seq<char>)
    ensures
        match book_entry(pages, token) {
            None => forall|i: int|
                0 <= i < pages.len() ==> page_entry(#[trigger] pages[i], token) is None,
            Some(entry) => exists|i: int|
                #![trigger pages[i]]
                0 <= i < pages.len() && page_entry(pages[i], token) == Some(entry) && forall|j: int|
                    0 <= j < i ==> page_entry(#[trigger] pages[j], token) is None,
        },
    decreases pages.len(),
{
    if pages.len() > 0 && page_entry(pages[0], token) is None {
        let rest = pages.drop_first();
        first_page_explains(rest, token);
        assert forall|j: int| 0 < j < pages.len() implies #[trigger] pages[j] == rest[j - 1] by {}
        match book_entry(rest, token) {
            None => {
                assert forall|i: int| 0 <= i < pages.len() implies page_entry(
                    #[trigger] pages[i],
                    token,
                ) is None by {
                    if i > 0 {
                        assert(page_entry(rest[i - 1], token) is None);
                    }
                }
            },
            Some(entry) => {
                let i = choose|i: int|
                    #![trigger rest[i]]
                    0 <= i < rest.len() && page_entry(rest[i], token) == Some(entry) && forall|
                        j: int,
                    |
                        0 <= j < i ==> page_entry(#[trigger] rest[j], token) is None;
                assert(pages[i + 1] == rest[i]);
                assert forall|j: int| 0 <= j < i + 1 implies page_entry(
                    #[trigger] pages[j],
                    token,
                ) is None by {
                    if j > 0 {
                        assert(page_entry(rest[j - 1], token) is None);
                    }
                }
            },
        }
    }
}

/// A refusal repeats the name that was asked for, and a suggestion follows it.
pub proof fn messages_name_their_subjects(name: Seq<char>, candidate: Seq<char>)
    ensures
        tells(no_entry_text(name, candidate), seq![name].push(candidate)),
        tells(external_command_text(name), seq![name]),
{
    broadcast use telling;
}

/// A suggestion is as near as any candidate, and the first of those as near;
/// none is made only where every candidate is more than two edits away, or as
/// many as it has characters.
pub proof fn suggestions_are_the_nearest(
    candidates: Seq<Seq<char>>,
    input: Seq<char>,
    s: Option<Seq<char>>,
    k: int,
)
    requires
        suggests(candidates, input, s),
        0 <= k < candidates.len(),
        distance(input, candidates[k]) <= 2,
        distance(input, candidates[k]) < candidates[k].len(),
    ensures
        s matches Some(v) && distance(input, v) <= distance(input, candidates[k]) && exists|i: int|
            0 <= i < candidates.len() && #[trigger] candidates[i] == v && (distance(input, v)
                == distance(input, candidates[k]) ==> i <= k),
{
    assert(near(input, candidates[k]));
    if let Some(v) = s {
        let i = choose|i: int| is_best(candidates, input, i) && #[trigger] candidates[i] == v;
        assert(candidates[i] == v);
    }
}

/// No two verbs have the same name, so each has one bundle: its own.
pub proof fn verbs_have_their_own_bundle(book: ExplainBook, i: int, text: Seq<char>)
    requires
        0 <= i < verbs().len(),
        book.bundles@.len() == verbs().len(),
    ensures
        is_bundle(book, verbs()[i], text) <==> text == book.bundles@[i]@,
{
    reveal_strlit("status");
    reveal_strlit("doctor");
    reveal_strlit("sync");
    reveal_strlit("sync-to");
    reveal_strlit("fetch");
    reveal_strlit("update");
    reveal_strlit("push");
    reveal_strlit("prime");
    reveal_strlit("explain");
    reveal_strlit("workweave");
    reveal_strlit("abort");
    reveal_strlit("add");
    reveal_strlit("remove");
    reveal_strlit("lock");
    reveal_strlit("activate");
    reveal_strlit("materialize");
    reveal_strlit("init");
    assert forall|a: int, b: int| 0 <= a < b < verbs().len() implies #[trigger] verbs()[a].len()
        != #[trigger] verbs()[b].len() || verbs()[a][0] != verbs()[b][0] by {}
    if is_bundle(book, verbs()[i], text) {
        let k = choose|k: int|
            0 <= k < verbs().len() && #[trigger] verbs()[k] == verbs()[i] && book.bundles@[k]@
                == text;
        assert(verbs()[k].len() == verbs()[i].len());
    }
}

} // verus!
