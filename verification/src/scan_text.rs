//! Cutting text into lines, words and trimmed pieces.

use vstd::prelude::*;

verus! {

/// The kinds of character a cut is made at.
#[derive(Debug, Clone, Copy, PartialEq, Eq, Structural)]
pub enum CharClass {
    Newline,
    White,
    Visible,
    Quote,
    Slash,
}

/// Whether a character is white space, as Unicode defines it.
pub open spec fn white(c: char) -> bool {
    let n = c as int;
    ||| 0x9 <= n <= 0xd
    ||| n == 0x20
    ||| n == 0x85
    ||| n == 0xa0
    ||| n == 0x1680
    ||| 0x2000 <= n <= 0x200a
    ||| n == 0x2028
    ||| n == 0x2029
    ||| n == 0x202f
    ||| n == 0x205f
    ||| n == 0x3000
}

/// Whether a character is of a class.
pub open spec fn in_class(class: CharClass, c: char) -> bool {
    match class {
        CharClass::Newline => c == '\n',
        CharClass::White => white(c),
        CharClass::Visible => !white(c),
        CharClass::Quote => c == '"',
        CharClass::Slash => c == '/',
    }
}

/// Where the first character of a class is; the length where there is none.
pub open spec fn first_of(s: Seq<char>, class: CharClass) -> int
    decreases s.len(),
{
    if s.len() == 0 {
        0
    } else if in_class(class, s[0]) {
        0
    } else {
        1 + first_of(s.drop_first(), class)
    }
}

/// The first character of a class is the first: none before it is of it.
pub proof fn first_of_is_first(s: Seq<char>, class: CharClass)
    ensures
        0 <= first_of(s, class) <= s.len(),
        forall|i: int| 0 <= i < first_of(s, class) ==> !in_class(class, #[trigger] s[i]),
        first_of(s, class) < s.len() ==> in_class(class, s[first_of(s, class)]),
    decreases s.len(),
{
    if s.len() > 0 && !in_class(class, s[0]) {
        let rest = s.drop_first();
        first_of_is_first(rest, class);
        assert forall|i: int| 0 <= i < first_of(s, class) implies !in_class(
            class,
            #[trigger] s[i],
        ) by {
            if i > 0 {
                assert(rest[i - 1] == s[i]);
            }
        }
        if first_of(s, class) < s.len() {
            assert(rest[first_of(rest, class)] == s[first_of(s, class)]);
        }
    }
}

/// A place is the first of a class where none before it is of the class.
pub proof fn first_of_is_unique(s: Seq<char>, class: CharClass, k: int)
    requires
        0 <= k <= s.len(),
        forall|i: int| 0 <= i < k ==> !in_class(class, #[trigger] s[i]),
        k < s.len() ==> in_class(class, s[k]),
    ensures
        first_of(s, class) == k,
{
    first_of_is_first(s, class);
}

/// The pieces of a text between characters of a class.
pub open spec fn pieces(s: Seq<char>, class: CharClass) -> Seq<Seq<char>>
    decreases s.len(),
{
    let k = first_of(s, class);
    if 0 <= k < s.len() {
        seq![s.take(k)] + pieces(s.skip(k + 1), class)
    } else {
        seq![s]
    }
}

/// A text without the white space it starts with.
pub open spec fn trim_front(s: Seq<char>) -> Seq<char> {
    s.skip(first_of(s, CharClass::Visible))
}

/// A text without the white space it ends with.
pub open spec fn trim_back(s: Seq<char>) -> Seq<char>
    decreases s.len(),
{
    if s.len() > 0 && white(s.last()) {
        trim_back(s.drop_last())
    } else {
        s
    }
}

/// A text without the white space around it.
pub open spec fn trimmed(s: Seq<char>) -> Seq<char> {
    trim_back(trim_front(s))
}

/// The words of a text: the pieces between white space that are not empty.
pub open spec fn words(s: Seq<char>) -> Seq<Seq<char>> {
    pieces(s, CharClass::White).filter(|w: Seq<char>| w.len() > 0)
}

/// Whether `s` starts with `prefix`.
pub open spec fn starts_with(s: Seq<char>, prefix: Seq<char>) -> bool {
    s.len() >= prefix.len() && s.take(prefix.len() as int) == prefix
}

fn is_white(c: char) -> (is: bool)
    ensures
        is == white(c),
{
    let n: u32 = c as u32;
    (0x9 <= n && n <= 0xd) || n == 0x20 || n == 0x85 || n == 0xa0 || n == 0x1680 || (0x2000 <= n
        && n <= 0x200a) || n == 0x2028 || n == 0x2029 || n == 0x202f || n == 0x205f || n == 0x3000
}

fn belongs(class: CharClass, c: char) -> (does: bool)
    ensures
        does == in_class(class, c),
{
    match class {
        CharClass::Newline => c == '\n',
        CharClass::White => is_white(c),
        CharClass::Visible => !is_white(c),
        CharClass::Quote => c == '"',
        CharClass::Slash => c == '/',
    }
}

/// Where the first character of a class is.
pub fn find_first(s: &Vec<char>, class: CharClass) -> (k: usize)
    ensures
        k == first_of(s@, class),
        k <= s@.len(),
{
    let mut k: usize = 0;
    while k < s.len()
        invariant
            0 <= k <= s.len(),
            forall|i: int| 0 <= i < k ==> !in_class(class, #[trigger] s@[i]),
        decreases s.len() - k,
    {
        if belongs(class, s[k]) {
            proof {
                first_of_is_unique(s@, class, k as int);
            }
            return k;
        }
        k = k + 1;
    }
    proof {
        first_of_is_unique(s@, class, k as int);
    }
    k
}

/// The characters from `from` up to `to`.
pub fn slice_of(s: &Vec<char>, from: usize, to: usize) -> (part: Vec<char>)
    requires
        from <= to <= s@.len(),
    ensures
        part@ == s@.subrange(from as int, to as int),
{
    let mut part: Vec<char> = Vec::new();
    let mut i: usize = from;
    while i < to
        invariant
            from <= i <= to <= s@.len(),
            part@ == s@.subrange(from as int, i as int),
        decreases to - i,
    {
        part.push(s[i]);
        assert(s@.subrange(from as int, i as int + 1) =~= s@.subrange(from as int, i as int).push(
            s@[i as int],
        ));
        i = i + 1;
    }
    part
}

/// Cuts a text into the pieces between characters of a class.
pub fn cut(s: &Vec<char>, class: CharClass) -> (parts: Vec<Vec<char>>)
    ensures
        parts.deep_view() == pieces(s@, class),
    decreases s@.len(),
{
    let k: usize = find_first(s, class);
    let mut parts: Vec<Vec<char>> = Vec::new();
    if k < s.len() {
        let head: Vec<char> = slice_of(s, 0, k);
        let rest: Vec<char> = slice_of(s, k + 1, s.len());
        let ghost head_view = head@;
        proof {
            assert(head@ =~= s@.take(k as int));
            assert(rest@ =~= s@.skip(k as int + 1));
        }
        let mut tail: Vec<Vec<char>> = cut(&rest, class);
        let ghost tail_view = tail.deep_view();
        parts.push(head);
        parts.append(&mut tail);
        proof {
            assert(parts.deep_view()[0] =~= head_view);
            assert(parts.deep_view() =~= seq![head_view] + tail_view);
        }
    } else {
        let whole: Vec<char> = slice_of(s, 0, s.len());
        proof {
            assert(whole@ =~= s@);
        }
        parts.push(whole);
        assert(parts.deep_view()[0] =~= s@);
        assert(parts.deep_view() =~= seq![s@]);
    }
    parts
}

/// Drops the white space a text starts with.
pub fn trim_start(s: &Vec<char>) -> (part: Vec<char>)
    ensures
        part@ == trim_front(s@),
{
    let k: usize = find_first(s, CharClass::Visible);
    let part: Vec<char> = slice_of(s, k, s.len());
    assert(part@ =~= trim_front(s@));
    part
}

/// Drops the white space around a text.
pub fn trim(s: &Vec<char>) -> (part: Vec<char>)
    ensures
        part@ == trimmed(s@),
{
    let front: Vec<char> = trim_start(s);
    let mut end: usize = front.len();
    assert(front@.take(end as int) =~= front@);
    while end > 0 && is_white(front[end - 1])
        invariant
            0 <= end <= front.len(),
            trim_back(front@) == trim_back(front@.take(end as int)),
        decreases end,
    {
        proof {
            assert(front@.take(end as int).last() == front@[end - 1]);
            assert(front@.take(end as int).drop_last() =~= front@.take(end - 1));
        }
        end = end - 1;
    }
    proof {
        if end > 0 {
            assert(front@.take(end as int).last() == front@[end - 1]);
        }
    }
    let part: Vec<char> = slice_of(&front, 0, end);
    assert(part@ =~= front@.take(end as int));
    part
}

/// The words of a text.
pub fn split_words(s: &Vec<char>) -> (parts: Vec<Vec<char>>)
    ensures
        parts.deep_view() == words(s@),
{
    let all: Vec<Vec<char>> = cut(s, CharClass::White);
    let ghost av = all.deep_view();
    let ghost keep = |w: Seq<char>| w.len() > 0;
    let mut parts: Vec<Vec<char>> = Vec::new();
    let mut i: usize = 0;
    assert(parts.deep_view() =~= av.take(0).filter(keep)) by {
        reveal(Seq::filter);
    }
    while i < all.len()
        invariant
            0 <= i <= all.len(),
            av == all.deep_view(),
            keep == (|w: Seq<char>| w.len() > 0),
            parts.deep_view() == av.take(i as int).filter(keep),
        decreases all.len() - i,
    {
        let ghost prior = parts.deep_view();
        proof {
            assert(av.take(i as int + 1) =~= av.take(i as int).push(av[i as int]));
            av.take(i as int).lemma_filter_push(av[i as int], keep);
            assert(av[i as int] =~= all@[i as int]@);
        }
        if all[i].len() > 0 {
            let word: Vec<char> = slice_of(&all[i], 0, all[i].len());
            proof {
                assert(word@ =~= all@[i as int]@);
            }
            parts.push(word);
            assert(parts.deep_view() =~= prior.push(av[i as int])) by {
                assert(parts.deep_view()[prior.len() as int] =~= av[i as int]);
            }
        }
        i = i + 1;
    }
    assert(av.take(i as int) =~= av);
    parts
}

/// Whether `s` starts with `prefix`.
pub fn has_prefix(s: &Vec<char>, prefix: &Vec<char>) -> (has: bool)
    ensures
        has == starts_with(s@, prefix@),
{
    if s.len() < prefix.len() {
        return false;
    }
    let mut i: usize = 0;
    while i < prefix.len()
        invariant
            0 <= i <= prefix.len() <= s.len(),
            forall|k: int| 0 <= k < i ==> s@[k] == prefix@[k],
        decreases prefix.len() - i,
    {
        if s[i] != prefix[i] {
            assert(s@.take(prefix@.len() as int)[i as int] != prefix@[i as int]);
            return false;
        }
        i = i + 1;
    }
    assert(s@.take(prefix@.len() as int) =~= prefix@);
    true
}

/// A text without a slash is its only piece, and one in front of a slash is
/// the first of the whole.
pub proof fn pieces_between_slashes(a: Seq<char>, rest: Seq<char>)
    requires
        !a.contains('/'),
    ensures
        pieces(a, CharClass::Slash) == seq![a],
        pieces(a + "/"@ + rest, CharClass::Slash) == seq![a] + pieces(rest, CharClass::Slash),
{
    reveal_strlit("/");
    let whole = a + "/"@ + rest;
    let k = a.len() as int;
    assert forall|i: int| 0 <= i < k implies !in_class(CharClass::Slash, #[trigger] a[i]) by {}
    first_of_is_unique(a, CharClass::Slash, k);
    assert forall|i: int| 0 <= i < k implies !in_class(CharClass::Slash, #[trigger] whole[i]) by {
        assert(whole[i] == a[i]);
    }
    assert(whole[k] == '/');
    first_of_is_unique(whole, CharClass::Slash, k);
    assert(whole.take(k) =~= a);
    assert(whole.skip(k + 1) =~= rest);
}

/// The pieces of a text can be read off it: what comes before the first
/// character of the class is the first, and the pieces of what follows are the
/// rest.
pub proof fn pieces_follow_each_other(a: Seq<char>, c: char, rest: Seq<char>, class: CharClass)
    requires
        forall|i: int| 0 <= i < a.len() ==> !in_class(class, #[trigger] a[i]),
        in_class(class, c),
    ensures
        pieces(a, class) == seq![a],
        pieces(a + seq![c] + rest, class) == seq![a] + pieces(rest, class),
{
    let whole = a + seq![c] + rest;
    let k = a.len() as int;
    first_of_is_unique(a, class, k);
    assert forall|i: int| 0 <= i < k implies !in_class(class, #[trigger] whole[i]) by {
        assert(whole[i] == a[i]);
    }
    assert(whole[k] == c);
    first_of_is_unique(whole, class, k);
    assert(whole.take(k) =~= a);
    assert(whole.skip(k + 1) =~= rest);
}

/// A text that neither starts nor ends with white space is kept by trimming,
/// whatever white space is put around it.
pub proof fn trimming_keeps(before: Seq<char>, s: Seq<char>, after: Seq<char>)
    requires
        s.len() > 0,
        !white(s[0]),
        !white(s.last()),
        forall|i: int| 0 <= i < before.len() ==> white(#[trigger] before[i]),
        forall|i: int| 0 <= i < after.len() ==> white(#[trigger] after[i]),
    ensures
        trimmed(before + s + after) == s,
        trim_front(before + s) == s,
{
    let whole = before + s + after;
    let k = before.len() as int;
    assert forall|i: int| 0 <= i < k implies !in_class(CharClass::Visible, #[trigger] whole[i]) by {
        assert(whole[i] == before[i]);
    }
    assert(whole[k] == s[0]);
    first_of_is_unique(whole, CharClass::Visible, k);
    assert(whole.skip(k) =~= s + after);
    trailing_white_goes(s, after);
    let front = before + s;
    assert forall|i: int| 0 <= i < k implies !in_class(CharClass::Visible, #[trigger] front[i]) by {
        assert(front[i] == before[i]);
    }
    assert(front[k] == s[0]);
    first_of_is_unique(front, CharClass::Visible, k);
    assert(front.skip(k) =~= s);
}

proof fn trailing_white_goes(s: Seq<char>, after: Seq<char>)
    requires
        s.len() > 0,
        !white(s.last()),
        forall|i: int| 0 <= i < after.len() ==> white(#[trigger] after[i]),
    ensures
        trim_back(s + after) == s,
    decreases after.len(),
{
    if after.len() == 0 {
        assert(s + after =~= s);
    } else {
        let rest = after.drop_last();
        assert((s + after).last() == after[after.len() - 1]);
        assert((s + after).drop_last() =~= s + rest);
        assert forall|i: int| 0 <= i < rest.len() implies white(#[trigger] rest[i]) by {
            assert(rest[i] == after[i]);
        }
        trailing_white_goes(s, rest);
    }
}

/// A text without white space is its only word.
pub proof fn one_word(w: Seq<char>)
    requires
        w.len() > 0,
        forall|i: int| 0 <= i < w.len() ==> !white(#[trigger] w[i]),
    ensures
        words(w) == seq![w],
{
    first_of_is_unique(w, CharClass::White, w.len() as int);
    assert(pieces(w, CharClass::White) =~= seq![w]);
    reveal(Seq::filter);
    reveal_with_fuel(Seq::filter, 3);
    assert(words(w) =~= seq![w]);
}

/// Words are told apart by white space, however much of it there is.
pub proof fn words_follow_each_other(w: Seq<char>, c: char, rest: Seq<char>)
    requires
        forall|i: int| 0 <= i < w.len() ==> !white(#[trigger] w[i]),
        white(c),
    ensures
        words(w + seq![c] + rest) == (if w.len() > 0 {
            seq![w]
        } else {
            Seq::empty()
        }) + words(rest),
{
    let keep = |w: Seq<char>| w.len() > 0;
    pieces_follow_each_other(w, c, rest, CharClass::White);
    let tail = pieces(rest, CharClass::White);
    Seq::filter_distributes_over_add(seq![w], tail, keep);
    reveal(Seq::filter);
    reveal_with_fuel(Seq::filter, 3);
    assert(seq![w].filter(keep) =~= (if w.len() > 0 {
        seq![w]
    } else {
        Seq::empty()
    }));
}

/// A prefix is what a text starts with.
pub proof fn prefixes_start_texts(prefix: Seq<char>, rest: Seq<char>, s: Seq<char>)
    ensures
        starts_with(prefix + rest, prefix),
        starts_with(s, prefix) <==> prefix.is_prefix_of(s),
{
    assert((prefix + rest).take(prefix.len() as int) =~= prefix);
    if starts_with(s, prefix) {
        assert forall|i: int| 0 <= i < prefix.len() implies prefix[i] == s[i] by {
            assert(s.take(prefix.len() as int)[i] == s[i]);
        }
    }
    if prefix.is_prefix_of(s) {
        assert(s.take(prefix.len() as int) =~= prefix);
    }
}

/// The classes of characters: a line break, a quote and a slash are each one
/// character, and every character is either white or visible.
pub proof fn classes_of_characters(c: char)
    ensures
        in_class(CharClass::Newline, c) <==> c == '\n',
        in_class(CharClass::Quote, c) <==> c == '"',
        in_class(CharClass::Slash, c) <==> c == '/',
        in_class(CharClass::White, c) <==> !in_class(CharClass::Visible, c),
        in_class(CharClass::White, ' '),
        in_class(CharClass::White, '\t'),
        in_class(CharClass::White, '\n'),
        0x21 <= c as int <= 0x7e ==> in_class(CharClass::Visible, c),
{
}

} // verus!
