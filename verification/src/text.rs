//! Building and taking apart text.

use vstd::prelude::*;

verus! {

/// The path `rel` names when it is resolved against `root`.
pub open spec fn joined(root: Seq<char>, rel: Seq<char>) -> Seq<char> {
    if rel.len() > 0 && rel[0] == '/' {
        rel
    } else if root.len() == 0 || root.last() == '/' {
        root + rel
    } else {
        root + "/"@ + rel
    }
}

/// Resolves `rel` against `root`: an absolute `rel` stands for itself, any
/// other is placed below `root` with one separator between them.
pub fn join_path(root: &str, rel: &str) -> (path: String)
    ensures
        path@ == joined(root@, rel@),
{
    if !rel.is_empty() && rel.get_char(0) == '/' {
        return rel.to_owned();
    }
    if root.is_empty() {
        return root.to_owned().concat(rel);
    }
    let last: usize = root.unicode_len() - 1;
    if root.get_char(last) == '/' {
        root.to_owned().concat(rel)
    } else {
        root.to_owned().concat("/").concat(rel)
    }
}

/// The character that stands for the digit `d`.
pub open spec fn digit_text(d: nat) -> Seq<char> {
    if d == 0 {
        "0"@
    } else if d == 1 {
        "1"@
    } else if d == 2 {
        "2"@
    } else if d == 3 {
        "3"@
    } else if d == 4 {
        "4"@
    } else if d == 5 {
        "5"@
    } else if d == 6 {
        "6"@
    } else if d == 7 {
        "7"@
    } else if d == 8 {
        "8"@
    } else {
        "9"@
    }
}

/// `n` in decimal, without leading zeros.
pub open spec fn decimal_text(n: nat) -> Seq<char>
    decreases n,
{
    if n < 10 {
        digit_text(n)
    } else {
        decimal_text(n / 10) + digit_text(n % 10)
    }
}

fn digit(d: usize) -> (text: String)
    requires
        d < 10,
    ensures
        text@ == digit_text(d as nat),
{
    if d == 0 {
        "0".to_owned()
    } else if d == 1 {
        "1".to_owned()
    } else if d == 2 {
        "2".to_owned()
    } else if d == 3 {
        "3".to_owned()
    } else if d == 4 {
        "4".to_owned()
    } else if d == 5 {
        "5".to_owned()
    } else if d == 6 {
        "6".to_owned()
    } else if d == 7 {
        "7".to_owned()
    } else if d == 8 {
        "8".to_owned()
    } else {
        "9".to_owned()
    }
}

/// Spells `n` in decimal.
pub fn decimal(n: usize) -> (text: String)
    ensures
        text@ == decimal_text(n as nat),
    decreases n,
{
    if n < 10 {
        digit(n)
    } else {
        decimal(n / 10).concat(&digit(n % 10))
    }
}

/// The parts in order, with `sep` between each two of them.
pub open spec fn join_text(parts: Seq<Seq<char>>, sep: Seq<char>) -> Seq<char>
    decreases parts.len(),
{
    if parts.len() == 0 {
        Seq::empty()
    } else if parts.len() == 1 {
        parts[0]
    } else {
        join_text(parts.drop_last(), sep) + sep + parts.last()
    }
}

/// Joins `parts` with `sep` between them.
pub fn join(parts: &Vec<String>, sep: &str) -> (text: String)
    ensures
        text@ == join_text(parts.deep_view(), sep@),
{
    let mut text: String = String::new();
    let mut i: usize = 0;
    while i < parts.len()
        invariant
            0 <= i <= parts.len(),
            text@ == join_text(parts.deep_view().take(i as int), sep@),
        decreases parts.len() - i,
    {
        proof {
            let done = parts.deep_view().take(i as int + 1);
            assert(done.drop_last() =~= parts.deep_view().take(i as int));
            assert(done.last() == parts@[i as int]@);
        }
        if i == 0 {
            text = parts[i].clone();
        } else {
            text = text.concat(sep).concat(&parts[i]);
        }
        i = i + 1;
    }
    proof {
        assert(parts.deep_view().take(i as int) =~= parts.deep_view());
    }
    text
}

/// `name` between backquotes.
pub open spec fn quoted(name: Seq<char>) -> Seq<char> {
    "`"@ + name + "`"@
}

/// Every name between backquotes, separated by commas.
pub open spec fn quoted_list(names: Seq<Seq<char>>) -> Seq<char> {
    join_text(names.map_values(|n: Seq<char>| quoted(n)), ", "@)
}

/// Lists `names` between backquotes.
pub fn quote_all(names: &Vec<String>) -> (text: String)
    ensures
        text@ == quoted_list(names.deep_view()),
{
    let mut parts: Vec<String> = Vec::new();
    let mut i: usize = 0;
    while i < names.len()
        invariant
            0 <= i <= names.len(),
            parts@.len() == i,
            forall|k: int| 0 <= k < i ==> (#[trigger] parts@[k])@ == quoted(names@[k]@),
        decreases names.len() - i,
    {
        parts.push("`".to_owned().concat(&names[i]).concat("`"));
        i = i + 1;
    }
    proof {
        assert(parts.deep_view() =~= names.deep_view().map_values(|n: Seq<char>| quoted(n)));
    }
    join(&parts, ", ")
}

/// The characters of `s`.
pub fn chars_of(s: &str) -> (chars: Vec<char>)
    ensures
        chars@ == s@,
{
    let mut chars: Vec<char> = Vec::new();
    for c in it: s.chars()
        invariant
            it.seq() == s@,
            chars@ == s@.take(it.index()),
    {
        chars.push(c);
    }
    chars
}

/// `String::push` appends one character and leaves the rest as it was.
pub assume_specification[ String::push ](s: &mut String, c: char)
    ensures
        final(s)@ == old(s)@.push(c),
;

/// The text made of `chars`.
pub fn text_of(chars: &Vec<char>) -> (text: String)
    ensures
        text@ == chars@,
{
    let mut text: String = String::new();
    let mut i: usize = 0;
    while i < chars.len()
        invariant
            0 <= i <= chars.len(),
            text@ == chars@.take(i as int),
        decreases chars.len() - i,
    {
        text.push(chars[i]);
        assert(chars@.take(i as int + 1) =~= chars@.take(i as int).push(chars@[i as int]));
        i = i + 1;
    }
    assert(chars@.take(i as int) =~= chars@);
    text
}

/// Whether `names` holds the text of `name`.
pub fn holds(names: &Vec<String>, name: &String) -> (found: bool)
    ensures
        found == names.deep_view().contains(name@),
{
    let mut i: usize = 0;
    while i < names.len()
        invariant
            0 <= i <= names.len(),
            forall|k: int| 0 <= k < i ==> (#[trigger] names@[k])@ != name@,
        decreases names.len() - i,
    {
        if names[i] == *name {
            assert(names.deep_view()[i as int] == name@);
            return true;
        }
        i = i + 1;
    }
    assert forall|k: int| 0 <= k < names.deep_view().len() implies names.deep_view()[k] != name@ by {
        assert(names.deep_view()[k] == names@[k]@);
    }
    false
}

/// A checkout as the report names it: by its repo alone in the weave itself,
/// and behind its workweave's name in a workweave.
pub open spec fn location_text(workweave: Option<Seq<char>>, repo: Seq<char>) -> Seq<char> {
    match workweave {
        Some(name) => name + "/"@ + repo,
        None => repo,
    }
}

/// Names a checkout for the report.
pub fn location(workweave: &Option<String>, repo: &String) -> (text: String)
    ensures
        text@ == location_text(workweave.deep_view(), repo@),
{
    match workweave {
        Some(name) => name.clone().concat("/").concat(repo),
        None => repo.clone(),
    }
}

/// The number that digits stand for.
pub open spec fn number_of(digits: Seq<char>) -> int
    decreases digits.len(),
{
    if digits.len() == 0 {
        0
    } else {
        10 * number_of(digits.drop_last()) + (digits.last() as int - '0' as int)
    }
}

/// A number can be read back from its text, which is in decimal digits and does
/// not start with a needless zero.
pub proof fn numbers_can_be_read_back(n: nat)
    ensures
        number_of(decimal_text(n)) == n,
        decimal_text(n).len() > 0,
        forall|i: int|
            0 <= i < decimal_text(n).len() ==> '0' <= #[trigger] decimal_text(n)[i] <= '9',
        decimal_text(n)[0] == '0' ==> n == 0,
    decreases n,
{
    reveal_strlit("0");
    reveal_strlit("1");
    reveal_strlit("2");
    reveal_strlit("3");
    reveal_strlit("4");
    reveal_strlit("5");
    reveal_strlit("6");
    reveal_strlit("7");
    reveal_strlit("8");
    reveal_strlit("9");
    reveal_with_fuel(number_of, 2);
    if n < 10 {
        assert(decimal_text(n).len() == 1);
        assert(decimal_text(n).drop_last() =~= Seq::empty());
    } else {
        numbers_can_be_read_back(n / 10);
        let front = decimal_text(n / 10);
        let digit = digit_text(n % 10);
        assert(digit.len() == 1);
        assert((front + digit).drop_last() =~= front);
        assert((front + digit).last() == digit[0]);
        assert((front + digit)[0] == front[0]);
    }
}

/// A relative path is found below what it is joined to, after one separator;
/// an absolute one stays.
pub proof fn joined_paths_lead_below(root: Seq<char>, rel: Seq<char>)
    requires
        rel.len() > 0,
    ensures
        rel[0] == '/' ==> joined(root, rel) == rel,
        rel[0] != '/' ==> root.is_prefix_of(joined(root, rel)) && rel.is_suffix_of(
            joined(root, rel),
        ),
        rel[0] != '/' && root.len() > 0 ==> joined(root, rel)[joined(root, rel).len() - rel.len()
            - 1] == '/' && joined(root, rel).len() <= root.len() + rel.len() + 1,
        rel[0] != '/' && root.len() > 0 && root.last() == '/' ==> joined(root, rel).len()
            == root.len() + rel.len(),
{
    reveal_strlit("/");
    assert(rel.is_suffix_of(joined(root, rel)));
}

/// Joining two lists of parts joins what each is joined to, with the separator
/// between.
pub proof fn joined_parts_join(a: Seq<Seq<char>>, b: Seq<Seq<char>>, sep: Seq<char>)
    requires
        a.len() > 0,
        b.len() > 0,
    ensures
        join_text(a + b, sep) == join_text(a, sep) + sep + join_text(b, sep),
        join_text(seq![a[0]], sep) == a[0],
    decreases b.len(),
{
    let whole = a + b;
    assert(whole.last() == b.last());
    if b.len() == 1 {
        assert(whole.drop_last() =~= a);
    } else {
        joined_parts_join(a, b.drop_last(), sep);
        assert(whole.drop_last() =~= a + b.drop_last());
        assert(join_text(whole, sep) =~= join_text(a, sep) + sep + join_text(b, sep));
    }
}

/// Two checkouts go by the same name only where they are the same, as long as
/// no workweave's name holds a slash.
pub proof fn locations_tell_workweaves_apart(a: Seq<char>, b: Seq<char>, r: Seq<char>, s: Seq<char>)
    requires
        !a.contains('/'),
        !b.contains('/'),
        location_text(Some(a), r) == location_text(Some(b), s),
    ensures
        a == b,
        r == s,
{
    reveal_strlit("/");
    let whole = location_text(Some(a), r);
    assert(whole[a.len() as int] == '/');
    assert(whole[b.len() as int] == '/');
    if a.len() < b.len() {
        assert(b[a.len() as int] == whole[a.len() as int]);
    }
    if b.len() < a.len() {
        assert(a[b.len() as int] == whole[b.len() as int]);
    }
    assert(whole.take(a.len() as int) =~= a);
    assert(whole.take(b.len() as int) =~= b);
    assert(whole.skip(a.len() as int + 1) =~= r);
    assert(whole.skip(b.len() as int + 1) =~= s);
}

/// A checkout of the primary goes by its repo, and one of a workweave by both.
pub proof fn locations_name_their_checkout(name: Seq<char>, repo: Seq<char>)
    ensures
        location_text(None, repo) == repo,
        name.is_prefix_of(location_text(Some(name), repo)),
        repo.is_suffix_of(location_text(Some(name), repo)),
        location_text(Some(name), repo).len() == name.len() + 1 + repo.len(),
{
    reveal_strlit("/");
}

/// Whether a text names the parts, one behind the other.
#[verifier::opaque]
pub open spec fn tells(text: Seq<char>, parts: Seq<Seq<char>>) -> bool
    decreases parts.len(),
{
    parts.len() > 0 ==> exists|i: int|
        0 <= i && i + parts.last().len() <= text.len() && #[trigger] text.subrange(
            i,
            i + parts.last().len(),
        ) == parts.last() && tells(text.take(i), parts.drop_last())
}

/// Every text names no part at all.
pub broadcast proof fn texts_tell_nothing(text: Seq<char>)
    ensures
        #[trigger] tells(text, Seq::empty()),
{
    reveal_with_fuel(tells, 1);
}

/// A text names itself.
pub broadcast proof fn texts_tell_themselves(text: Seq<char>)
    ensures
        #[trigger] tells(text, Seq::empty().push(text)),
{
    reveal_with_fuel(tells, 1);
    let parts = Seq::empty().push(text);
    assert(text.subrange(0, 0int + parts.last().len()) =~= text);
    assert(parts.drop_last() =~= Seq::<Seq<char>>::empty());
    texts_tell_nothing(text.take(0));
}

/// A text goes on naming what it named when more is put behind it.
pub broadcast proof fn longer_texts_tell_as_much(
    text: Seq<char>,
    more: Seq<char>,
    parts: Seq<Seq<char>>,
)
    requires
        tells(text, parts),
    ensures
        #[trigger] tells(text + more, parts),
{
    reveal_with_fuel(tells, 1);
    if parts.len() > 0 {
        let last = parts.last();
        let i = choose|i: int|
            0 <= i && i + last.len() <= text.len() && #[trigger] text.subrange(i, i + last.len())
                == last && tells(text.take(i), parts.drop_last());
        assert((text + more).subrange(i, i + last.len()) =~= last);
        assert((text + more).take(i) =~= text.take(i));
    }
}

/// A text names what is put behind it, after all that it named.
pub broadcast proof fn longer_texts_tell_more(
    text: Seq<char>,
    part: Seq<char>,
    parts: Seq<Seq<char>>,
)
    requires
        tells(text, parts),
    ensures
        #[trigger] tells(text + part, parts.push(part)),
{
    reveal_with_fuel(tells, 1);
    let all = parts.push(part);
    let i = text.len() as int;
    assert((text + part).subrange(i, i + all.last().len()) =~= part);
    assert((text + part).take(i) =~= text);
    assert(all.drop_last() =~= parts);
}

/// What a text put together from parts names.
pub broadcast group telling {
    texts_tell_nothing,
    texts_tell_themselves,
    longer_texts_tell_as_much,
    longer_texts_tell_more,
}

/// A quoted name is the name between two backticks.
pub proof fn quoted_names_stand_in_backticks(name: Seq<char>)
    ensures
        quoted(name).len() == name.len() + 2,
        quoted(name)[0] == '`',
        quoted(name).last() == '`',
        quoted(name).subrange(1, name.len() as int + 1) == name,
{
    reveal_strlit("`");
    assert(quoted(name).subrange(1, name.len() as int + 1) =~= name);
}

} // verus!
