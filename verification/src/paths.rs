//! Paths by their components.

use vstd::prelude::*;
use crate::siblings::{last_slash, last_slash_is_within};
use crate::text::chars_of;
use crate::violation::PathText;

verus! {

/// How much of a path comes before its named components: the root of an
/// absolute path, or a leading `.`.
pub open spec fn head_len(path: Seq<char>) -> int {
    if path.len() > 0 && path[0] == '/' {
        1
    } else if path.len() > 0 && path[0] == '.' && (path.len() == 1 || path[1] == '/') {
        1
    } else {
        0
    }
}

/// Where the last component of a path starts.
pub open spec fn last_start(path: Seq<char>) -> int {
    if last_slash(path) + 1 > head_len(path) {
        last_slash(path) + 1
    } else {
        head_len(path)
    }
}

/// The path in front of its last component and the separator before that.
pub open spec fn front(path: Seq<char>) -> Seq<char> {
    path.take(
        if last_slash(path) > head_len(path) {
            last_slash(path)
        } else {
            head_len(path)
        },
    )
}

/// A path without what stands at its end and names nothing: separators, and
/// components that are `.`.
pub open spec fn trimmed_path(path: Seq<char>) -> Seq<char>
    decreases path.len(),
{
    if path.len() <= head_len(path) {
        path
    } else if path.skip(last_start(path)).len() == 0 || path.skip(last_start(path)) == "."@ {
        proof {
            last_slash_is_within(path);
        }
        trimmed_path(front(path))
    } else {
        path
    }
}

/// The directory above a path, where there is one.
pub open spec fn parent_dir(path: Seq<char>) -> Option<Seq<char>> {
    let p = trimmed_path(path);
    if p.len() > head_len(p) {
        Some(trimmed_path(front(p)))
    } else if p == "."@ {
        Some(Seq::empty())
    } else {
        None
    }
}

/// The name a path ends in, where it ends in one: `..` is none.
pub open spec fn file_name(path: Seq<char>) -> Option<Seq<char>> {
    let p = trimmed_path(path);
    if p.len() <= head_len(p) || p.skip(last_start(p)) == ".."@ {
        None
    } else {
        Some(p.skip(last_start(p)))
    }
}

/// What trimming and cutting a path leave of it.
pub proof fn shorter_paths(path: Seq<char>)
    ensures
        trimmed_path(path).len() <= path.len(),
        path.len() > head_len(path) ==> front(path).len() < path.len(),
    decreases path.len(),
{
    last_slash_is_within(path);
    if path.len() > head_len(path) && (path.skip(last_start(path)).len() == 0 || path.skip(
        last_start(path),
    ) == "."@) {
        shorter_paths(front(path));
    }
}

/// The components of a path: its root or a leading `.`, where it has one, and
/// then its names. Repeated separators, a separator at the end and a `.`
/// further on count for nothing.
pub open spec fn components(path: Seq<char>) -> Seq<Seq<char>>
    decreases path.len(),
{
    let p = trimmed_path(path);
    if p.len() > head_len(p) {
        proof {
            shorter_paths(path);
            shorter_paths(p);
        }
        components(front(p)).push(p.skip(last_start(p)))
    } else if p.len() > 0 {
        seq![p]
    } else {
        Seq::empty()
    }
}

/// The components of `path` below `dir`, where it is at or below it.
pub open spec fn below(dir: Seq<char>, path: Seq<char>) -> Option<Seq<Seq<char>>> {
    let above = components(dir);
    let all = components(path);
    if above.len() <= all.len() && all.take(above.len() as int) == above {
        Some(all.skip(above.len() as int))
    } else {
        None
    }
}

/// Components put together again, with a separator between them.
pub open spec fn slashed(parts: Seq<Seq<char>>) -> Seq<char>
    decreases parts.len(),
{
    if parts.len() == 0 {
        Seq::empty()
    } else if parts.len() == 1 {
        parts[0]
    } else {
        slashed(parts.drop_last()) + "/"@ + parts.last()
    }
}

/// What the first `end` characters of a path have in front of the named
/// components.
fn head_of(chars: &Vec<char>, end: usize) -> (len: usize)
    requires
        end <= chars@.len(),
    ensures
        len == head_len(chars@.take(end as int)),
        len <= end,
{
    if end > 0 && chars[0] == '/' {
        1
    } else if end > 0 && chars[0] == '.' && (end == 1 || chars[1] == '/') {
        1
    } else {
        0
    }
}

/// Where the text behind the last separator of the first `end` characters
/// starts.
fn after_slash(chars: &Vec<char>, end: usize) -> (start: usize)
    requires
        end <= chars@.len(),
    ensures
        start == last_slash(chars@.take(end as int)) + 1,
        start <= end,
{
    let mut start: usize = end;
    while start > 0 && chars[start - 1] != '/'
        invariant
            start <= end <= chars@.len(),
            last_slash(chars@.take(end as int)) == last_slash(chars@.take(start as int)),
        decreases start,
    {
        proof {
            assert(chars@.take(start as int).last() == chars@[start - 1]);
            assert(chars@.take(start as int).drop_last() =~= chars@.take(start - 1));
        }
        start = start - 1;
    }
    if start > 0 {
        assert(chars@.take(start as int).last() == '/');
    }
    start
}

/// Where the last component of the first `end` characters starts, and where
/// the path in front of it ends.
fn last_piece(chars: &Vec<char>, end: usize) -> (piece: (usize, usize))
    requires
        end <= chars@.len(),
        end > head_len(chars@.take(end as int)),
    ensures
        piece.0 == last_start(chars@.take(end as int)),
        piece.0 <= end,
        piece.1 < end,
        chars@.take(piece.1 as int) == front(chars@.take(end as int)),
{
    let head: usize = head_of(chars, end);
    let start: usize = after_slash(chars, end);
    let ghost whole = chars@.take(end as int);
    if start > head {
        let front_end: usize = if start - 1 > head {
            start - 1
        } else {
            head
        };
        assert(front(whole) =~= chars@.take(front_end as int));
        (start, front_end)
    } else {
        assert(front(whole) =~= chars@.take(head as int));
        (head, head)
    }
}

/// Where a path ends once what names nothing is left off.
fn trimmed_end(chars: &Vec<char>, from: usize) -> (end: usize)
    requires
        from <= chars@.len(),
    ensures
        end <= from,
        chars@.take(end as int) == trimmed_path(chars@.take(from as int)),
    decreases from,
{
    proof {
        reveal_strlit(".");
    }
    if from <= head_of(chars, from) {
        return from;
    }
    let (start, before): (usize, usize) = last_piece(chars, from);
    let ghost whole = chars@.take(from as int);
    let ghost piece = whole.skip(last_start(whole));
    assert(piece.len() == from - start);
    if start == from {
        return trimmed_end(chars, before);
    }
    assert(piece[0] == chars@[start as int]);
    if start + 1 == from && chars[start] == '.' {
        assert(piece =~= "."@);
        return trimmed_end(chars, before);
    }
    assert(piece != "."@) by {
        assert("."@.len() == 1 && "."@[0] == '.');
    }
    from
}

/// The directory above a path.
pub fn dir_above(path: &PathText) -> (dir: Option<PathText>)
    ensures
        dir.deep_view() == parent_dir(path@),
{
    let chars: Vec<char> = chars_of(path);
    assert(chars@.take(chars@.len() as int) =~= path@);
    let end: usize = trimmed_end(&chars, chars.len());
    let head: usize = head_of(&chars, end);
    proof {
        reveal_strlit(".");
    }
    if end > head {
        let (_start, before): (usize, usize) = last_piece(&chars, end);
        let cut: usize = trimmed_end(&chars, before);
        let dir: String = path.as_str().substring_char(0, cut).to_owned();
        assert(dir@ =~= chars@.take(cut as int));
        return Some(dir);
    }
    let ghost p = chars@.take(end as int);
    if end > 0 && chars[0] == '.' {
        assert(p =~= "."@);
        Some(String::new())
    } else {
        assert(p != "."@) by {
            assert("."@.len() == 1 && "."@[0] == '.');
        }
        None
    }
}

/// The name a path ends in.
pub fn name_of(path: &PathText) -> (name: Option<String>)
    ensures
        name.deep_view() == file_name(path@),
{
    let chars: Vec<char> = chars_of(path);
    assert(chars@.take(chars@.len() as int) =~= path@);
    let end: usize = trimmed_end(&chars, chars.len());
    if end <= head_of(&chars, end) {
        return None;
    }
    let (start, _before): (usize, usize) = last_piece(&chars, end);
    let name: String = path.as_str().substring_char(start, end).to_owned();
    proof {
        let p = chars@.take(end as int);
        assert(name@ =~= p.skip(last_start(p)));
    }
    if name == "..".to_owned() {
        None
    } else {
        Some(name)
    }
}

/// The components of the first `end` characters of a path.
fn components_to(path: &String, chars: &Vec<char>, end: usize) -> (parts: Vec<String>)
    requires
        chars@ == path@,
        end <= chars@.len(),
    ensures
        parts.deep_view() == components(chars@.take(end as int)),
    decreases end,
{
    let cut: usize = trimmed_end(chars, end);
    let ghost p = chars@.take(cut as int);
    let head: usize = head_of(chars, cut);
    if cut > head {
        let (start, before): (usize, usize) = last_piece(chars, cut);
        let mut parts: Vec<String> = components_to(path, chars, before);
        let ghost first = parts.deep_view();
        let name: String = path.as_str().substring_char(start, cut).to_owned();
        assert(name@ =~= p.skip(last_start(p)));
        parts.push(name);
        assert(parts.deep_view() =~= first.push(p.skip(last_start(p))));
        parts
    } else if cut > 0 {
        let name: String = path.as_str().substring_char(0, cut).to_owned();
        assert(name@ =~= p);
        let parts: Vec<String> = vec![name];
        assert(parts.deep_view() =~= seq![p]);
        parts
    } else {
        let parts: Vec<String> = Vec::new();
        assert(parts.deep_view() =~= Seq::empty());
        parts
    }
}

/// The components of a path.
pub fn components_of(path: &PathText) -> (parts: Vec<String>)
    ensures
        parts.deep_view() == components(path@),
{
    let chars: Vec<char> = chars_of(path);
    assert(chars@.take(chars@.len() as int) =~= path@);
    components_to(path, &chars, chars.len())
}

/// The components of `path` below `dir`, where it is at or below it.
pub fn strip_dir(dir: &PathText, path: &PathText) -> (rest: Option<Vec<String>>)
    ensures
        rest.deep_view() == below(dir@, path@),
{
    let above: Vec<String> = components_of(dir);
    let all: Vec<String> = components_of(path);
    let ghost av = above.deep_view();
    let ghost pv = all.deep_view();
    if above.len() > all.len() {
        return None;
    }
    let mut i: usize = 0;
    while i < above.len()
        invariant
            0 <= i <= above.len() <= all.len(),
            av == above.deep_view(),
            pv == all.deep_view(),
            av == components(dir@),
            pv == components(path@),
            forall|k: int| 0 <= k < i ==> #[trigger] av[k] == pv[k],
        decreases above.len() - i,
    {
        assert(av[i as int] == above@[i as int]@);
        assert(pv[i as int] == all@[i as int]@);
        if !(above[i] == all[i]) {
            assert(pv.take(av.len() as int)[i as int] != av[i as int]);
            return None;
        }
        i = i + 1;
    }
    assert(pv.take(av.len() as int) =~= av);
    let mut rest: Vec<String> = Vec::new();
    while i < all.len()
        invariant
            above.len() <= i <= all.len(),
            av == above.deep_view(),
            pv == all.deep_view(),
            av.len() == above.len(),
            rest@.len() == i - above.len(),
            forall|k: int| 0 <= k < rest@.len() ==> (#[trigger] rest@[k])@ == pv[k + above.len()],
        decreases all.len() - i,
    {
        assert(pv[i as int] == all@[i as int]@);
        rest.push(all[i].clone());
        i = i + 1;
    }
    assert(rest.deep_view() =~= pv.skip(av.len() as int));
    Some(rest)
}

/// Puts components together again, from place `from` on.
pub fn with_slashes(parts: &Vec<String>, from: usize) -> (path: String)
    requires
        from <= parts@.len(),
    ensures
        path@ == slashed(parts.deep_view().skip(from as int)),
{
    let ghost all = parts.deep_view().skip(from as int);
    let mut path: String = String::new();
    let mut i: usize = from;
    assert(path@ =~= slashed(all.take(0)));
    while i < parts.len()
        invariant
            from <= i <= parts.len(),
            all == parts.deep_view().skip(from as int),
            path@ == slashed(all.take(i - from)),
        decreases parts.len() - i,
    {
        let ghost now = all.take(i - from + 1);
        proof {
            assert(now.drop_last() =~= all.take(i - from));
            assert(now.last() == parts@[i as int]@);
        }
        if i == from {
            path = parts[i].clone();
        } else {
            path = path.concat("/").concat(&parts[i]);
        }
        assert(path@ =~= slashed(now));
        i = i + 1;
    }
    assert(all.take(i - from) =~= all);
    path
}

proof fn last_slash_is_last(path: Seq<char>, k: int)
    requires
        0 <= k < path.len(),
        path[k] == '/',
        forall|i: int| k < i < path.len() ==> path[i] != '/',
    ensures
        last_slash(path) == k,
    decreases path.len(),
{
    if path.last() != '/' {
        let init = path.drop_last();
        assert(init[k] == '/');
        assert forall|i: int| k < i < init.len() implies init[i] != '/' by {
            assert(path[i] != '/');
        }
        last_slash_is_last(init, k);
    }
}

/// Whether a text is the name of a file or a directory.
pub open spec fn names_entry(name: Seq<char>) -> bool {
    name.len() > 0 && name != "."@ && name != ".."@ && !name.contains('/')
}

/// An entry of a directory goes by its name, and its directory is the one above
/// it: the path of an entry takes the directory and its name apart again.
pub proof fn entries_lie_in_their_directory(dir: Seq<char>, name: Seq<char>)
    requires
        dir.len() > 0,
        dir.last() != '/',
        names_entry(name),
    ensures
        file_name(dir + "/"@ + name) == Some(name),
        parent_dir(dir + "/"@ + name) == Some(trimmed_path(dir)),
        trimmed_path(dir + "/"@ + name) == dir + "/"@ + name,
        components(dir + "/"@ + name) == components(dir).push(name),
{
    reveal_strlit("/");
    let p = dir + "/"@ + name;
    let k = dir.len() as int;
    assert(p[k] == '/');
    assert forall|i: int| k < i < p.len() implies p[i] != '/' by {
        assert(p[i] == name[i - k - 1]);
    }
    last_slash_is_last(p, k);
    assert(p[0] == dir[0]);
    assert(p.skip(last_start(p)) =~= name);
    assert(trimmed_path(p) == p);
    assert(front(p) =~= dir);
}

/// The directory above an entry of a directory's directory is that one.
pub proof fn directories_nest(dir: Seq<char>, mid: Seq<char>, name: Seq<char>)
    requires
        dir.len() > 0,
        dir.last() != '/',
        names_entry(mid),
        names_entry(name),
    ensures
        parent_dir(dir + "/"@ + mid + "/"@ + name) == Some(dir + "/"@ + mid),
        below(dir, dir + "/"@ + mid + "/"@ + name) == Some(seq![mid, name]),
        below(dir, dir + "/"@ + mid) == Some(seq![mid]),
        below(dir, dir) == Some(Seq::<Seq<char>>::empty()),
{
    reveal_strlit("/");
    let above = dir + "/"@ + mid;
    let path = above + "/"@ + name;
    assert(above.last() == mid.last());
    assert(!(mid.last() == '/')) by {
        assert(mid[mid.len() - 1] != '/');
    }
    entries_lie_in_their_directory(dir, mid);
    entries_lie_in_their_directory(above, name);
    let c = components(dir);
    assert(components(above).take(c.len() as int) =~= c);
    assert(components(path).take(c.len() as int) =~= c);
    assert(components(above).skip(c.len() as int) =~= seq![mid]);
    assert(components(path).skip(c.len() as int) =~= seq![mid, name]);
    assert(c.take(c.len() as int) =~= c);
    assert(c.skip(c.len() as int) =~= Seq::<Seq<char>>::empty());
}

/// A separator at its end, and a `.`, add nothing to a path.
pub proof fn trailing_separators_add_nothing(dir: Seq<char>, name: Seq<char>)
    requires
        dir.len() > 0,
        dir.last() != '/',
        names_entry(name),
    ensures
        trimmed_path(dir + "/"@ + name + "/"@) == dir + "/"@ + name,
        trimmed_path(dir + "/"@ + name + "/."@) == dir + "/"@ + name,
        file_name(dir + "/"@ + name + "/"@) == Some(name),
        file_name(dir + "/"@ + name + "/."@) == Some(name),
{
    reveal_strlit("/");
    reveal_strlit(".");
    reveal_strlit("/.");
    let p = dir + "/"@ + name;
    entries_lie_in_their_directory(dir, name);
    let slashed = p + "/"@;
    let dotted = p + "/."@;
    let k = p.len() as int;
    assert(slashed[k] == '/');
    assert(dotted[k] == '/' && dotted[k + 1] == '.');
    last_slash_is_last(slashed, k);
    last_slash_is_last(dotted, k);
    assert(slashed[0] == dir[0] && dotted[0] == dir[0]);
    assert(slashed[1] == p[1] && dotted[1] == p[1]);
    assert(slashed.skip(last_start(slashed)) =~= Seq::<char>::empty());
    assert(dotted.skip(last_start(dotted)) =~= "."@);
    assert(front(slashed) =~= p);
    assert(front(dotted) =~= p);
}

/// A name on its own lies in no directory but the one it is read from, one
/// behind the root in the root, and neither the root nor an empty path is in
/// any.
pub proof fn shortest_paths(name: Seq<char>)
    requires
        names_entry(name),
    ensures
        file_name(name) == Some(name),
        parent_dir(name) == Some(Seq::<char>::empty()),
        components(name) == seq![name],
        file_name("/"@ + name) == Some(name),
        parent_dir("/"@ + name) == Some("/"@),
        components("/"@ + name) == seq!["/"@, name],
        parent_dir("/"@) is None,
        file_name("/"@) is None,
        parent_dir(Seq::empty()) is None,
        file_name(Seq::empty()) is None,
{
    reveal_strlit("/");
    reveal_strlit(".");
    assert forall|i: int| 0 <= i < name.len() implies name[i] != '/' by {}
    no_slash(name);
    assert(name.len() == 1 && name[0] == '.' ==> name =~= "."@);
    assert(name.skip(last_start(name)) =~= name);
    assert(front(name) =~= Seq::<char>::empty());
    let rooted = "/"@ + name;
    assert(rooted[0] == '/');
    assert forall|i: int| 0 < i < rooted.len() implies rooted[i] != '/' by {
        assert(rooted[i] == name[i - 1]);
    }
    last_slash_is_last(rooted, 0);
    assert(rooted.skip(last_start(rooted)) =~= name);
    assert(front(rooted) =~= "/"@);
    reveal_with_fuel(trimmed_path, 2);
    reveal_with_fuel(components, 2);
    assert(components(name) =~= seq![name]);
    assert(components(rooted) =~= seq!["/"@, name]);
}

proof fn no_slash(path: Seq<char>)
    requires
        forall|i: int| 0 <= i < path.len() ==> path[i] != '/',
    ensures
        last_slash(path) == -1,
    decreases path.len(),
{
    if path.len() > 0 {
        let init = path.drop_last();
        assert forall|i: int| 0 <= i < init.len() implies init[i] != '/' by {
            assert(path[i] != '/');
        }
        no_slash(init);
    }
}

} // verus!
