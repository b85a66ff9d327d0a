//! The order of texts and paths, sorting by it, and dropping repetitions.

use vstd::prelude::*;

verus! {

/// Whether `a` comes before `b` because they first differ at `n`.
pub open spec fn text_splits_at(a: Seq<char>, b: Seq<char>, n: int) -> bool {
    &&& 0 <= n <= a.len()
    &&& n < b.len()
    &&& forall|i: int| 0 <= i < n ==> a[i] == b[i]
    &&& n < a.len() ==> a[n] < b[n]
}

/// Whether `a` comes before `b` in the order of their characters.
pub open spec fn text_before(a: Seq<char>, b: Seq<char>) -> bool {
    exists|n: int| text_splits_at(a, b, n)
}

/// Texts are ordered transitively.
pub proof fn text_order_is_transitive(a: Seq<char>, b: Seq<char>, c: Seq<char>)
    requires
        text_before(a, b),
        text_before(b, c),
    ensures
        text_before(a, c),
{
    let n = choose|n: int| text_splits_at(a, b, n);
    let m = choose|m: int| text_splits_at(b, c, m);
    if n < m {
        assert(text_splits_at(a, c, n));
    } else {
        assert(text_splits_at(a, c, m));
    }
}

/// No text comes before itself.
pub proof fn text_order_is_irreflexive(a: Seq<char>)
    ensures
        !text_before(a, a),
{
}

/// Of two different texts one comes before the other.
pub proof fn text_order_is_total(a: Seq<char>, b: Seq<char>)
    ensures
        a == b || text_before(a, b) || text_before(b, a),
    decreases a.len(),
{
    if a.len() == 0 {
        if b.len() > 0 {
            assert(text_splits_at(a, b, 0));
        } else {
            assert(a =~= b);
        }
    } else if b.len() == 0 {
        assert(text_splits_at(b, a, 0));
    } else if a[0] < b[0] {
        assert(text_splits_at(a, b, 0));
    } else if b[0] < a[0] {
        assert(text_splits_at(b, a, 0));
    } else {
        let x = a.drop_first();
        let y = b.drop_first();
        text_order_is_total(x, y);
        if x == y {
            assert(a =~= seq![a[0]] + x);
            assert(b =~= seq![b[0]] + y);
        } else if text_before(x, y) {
            let n = choose|n: int| text_splits_at(x, y, n);
            assert forall|i: int| 0 <= i < n + 1 implies a[i] == b[i] by {
                if i > 0 {
                    assert(x[i - 1] == y[i - 1]);
                }
            }
            assert(n < x.len() ==> x[n] == a[n + 1]);
            assert(y[n] == b[n + 1]);
            assert(text_splits_at(a, b, n + 1));
        } else {
            let n = choose|n: int| text_splits_at(y, x, n);
            assert forall|i: int| 0 <= i < n + 1 implies a[i] == b[i] by {
                if i > 0 {
                    assert(x[i - 1] == y[i - 1]);
                }
            }
            assert(n < y.len() ==> y[n] == b[n + 1]);
            assert(x[n] == a[n + 1]);
            assert(text_splits_at(b, a, n + 1));
        }
    }
}

/// Whether `a` comes before `b` in the order of their characters.
pub fn comes_before(a: &Vec<char>, b: &Vec<char>) -> (before: bool)
    ensures
        before == text_before(a@, b@),
{
    let mut i: usize = 0;
    while i < a.len() && i < b.len()
        invariant
            0 <= i <= a.len(),
            i <= b.len(),
            forall|k: int| 0 <= k < i ==> a@[k] == b@[k],
        decreases a.len() - i,
    {
        if a[i] < b[i] {
            assert(text_splits_at(a@, b@, i as int));
            return true;
        }
        if b[i] < a[i] {
            return false;
        }
        i = i + 1;
    }
    if i < b.len() {
        assert(text_splits_at(a@, b@, i as int));
        return true;
    }
    false
}

/// Puts `x` into `order` behind every index whose key does not come after its
/// own.
pub open spec fn placed(keys: Seq<Seq<char>>, order: Seq<int>, x: int) -> Seq<int>
    decreases order.len(),
{
    if order.len() == 0 {
        seq![x]
    } else if text_before(keys[x], keys[order.last()]) {
        placed(keys, order.drop_last(), x).push(order.last())
    } else {
        order.push(x)
    }
}

/// The indices of `keys` in the order of the keys; of equal keys the earlier
/// comes first.
pub open spec fn order_of(keys: Seq<Seq<char>>) -> Seq<int>
    decreases keys.len(),
{
    if keys.len() == 0 {
        Seq::empty()
    } else {
        placed(keys, order_of(keys.drop_last()), keys.len() - 1)
    }
}

/// `s` rearranged into the order of `keys`.
pub open spec fn arranged<A>(s: Seq<A>, keys: Seq<Seq<char>>) -> Seq<A> {
    order_of(keys).map_values(|i: int| s[i])
}

/// Whether no key comes before one that stands ahead of it.
pub open spec fn in_order(keys: Seq<Seq<char>>, order: Seq<int>) -> bool {
    forall|i: int, j: int|
        0 <= i < j < order.len() ==> !text_before(#[trigger] keys[order[j]], #[trigger] keys[order[i]])
}

/// Whether `order` holds each index below `n` exactly once.
pub open spec fn each_once(order: Seq<int>, n: int) -> bool {
    &&& order.len() == n
    &&& order.no_duplicates()
    &&& forall|i: int| 0 <= i < order.len() ==> 0 <= #[trigger] order[i] < n
}

proof fn placed_keeps_order(keys: Seq<Seq<char>>, order: Seq<int>, x: int)
    requires
        in_order(keys, order),
        order.no_duplicates(),
        !order.contains(x),
    ensures
        in_order(keys, placed(keys, order, x)),
        placed(keys, order, x).no_duplicates(),
        placed(keys, order, x).len() == order.len() + 1,
        forall|y: int| #[trigger] placed(keys, order, x).contains(y) <==> y == x || order.contains(y),
    decreases order.len(),
{
    let p = placed(keys, order, x);
    if order.len() == 0 {
        assert(p =~= seq![x]);
        assert(p[0] == x);
    } else if text_before(keys[x], keys[order.last()]) {
        let init = order.drop_last();
        assert(forall|y: int| init.contains(y) ==> order.contains(y));
        placed_keeps_order(keys, init, x);
        let q = placed(keys, init, x);
        assert(p == q.push(order.last()));
        assert forall|y: int| #[trigger] p.contains(y) <==> y == x || order.contains(y) by {
            if p.contains(y) {
                let k = choose|k: int| 0 <= k < p.len() && p[k] == y;
                if k < q.len() {
                    assert(q.contains(y));
                }
            }
            if y == x || order.contains(y) {
                if y == order.last() {
                    assert(p[q.len() as int] == y);
                } else {
                    if order.contains(y) {
                        let k = choose|k: int| 0 <= k < order.len() && order[k] == y;
                        assert(init[k] == y);
                    }
                    assert(q.contains(y));
                    let k = choose|k: int| 0 <= k < q.len() && q[k] == y;
                    assert(p[k] == y);
                }
            }
        }
        assert(!init.contains(order.last()));
        assert(!q.contains(order.last()));
        assert forall|i: int, j: int| 0 <= i < j < p.len() implies !text_before(
            #[trigger] keys[p[j]],
            #[trigger] keys[p[i]],
        ) by {
            if j == q.len() {
                assert(q.contains(p[i]));
                if p[i] == x {
                    if text_before(keys[order.last()], keys[x]) {
                        text_order_is_transitive(keys[x], keys[order.last()], keys[x]);
                        text_order_is_irreflexive(keys[x]);
                    }
                } else {
                    assert(init.contains(p[i]));
                    let k = choose|k: int| 0 <= k < init.len() && init[k] == p[i];
                    assert(order[k] == p[i]);
                }
            }
        }
    } else {
        assert(p == order.push(x));
        assert forall|y: int| #[trigger] p.contains(y) <==> y == x || order.contains(y) by {
            if order.contains(y) {
                let k = choose|k: int| 0 <= k < order.len() && order[k] == y;
                assert(p[k] == y);
            }
            assert(p[order.len() as int] == x);
        }
        assert forall|i: int, j: int| 0 <= i < j < p.len() implies !text_before(
            #[trigger] keys[p[j]],
            #[trigger] keys[p[i]],
        ) by {
            if j == order.len() && i + 1 < order.len() {
                let last = order.last();
                assert(!text_before(keys[order[order.len() - 1]], keys[order[i]]));
                if text_before(keys[x], keys[p[i]]) {
                    text_order_is_total(keys[p[i]], keys[last]);
                    if text_before(keys[p[i]], keys[last]) {
                        text_order_is_transitive(keys[x], keys[p[i]], keys[last]);
                    }
                }
            }
        }
    }
}

/// The order holds each index once, and no key stands behind a later one.
pub proof fn order_is_sorted(keys: Seq<Seq<char>>)
    ensures
        each_once(order_of(keys), keys.len() as int),
        in_order(keys, order_of(keys)),
    decreases keys.len(),
{
    if keys.len() > 0 {
        let init = keys.drop_last();
        let x = keys.len() - 1;
        order_is_sorted(init);
        let o = order_of(init);
        assert forall|i: int, j: int| 0 <= i < j < o.len() implies !text_before(
            #[trigger] keys[o[j]],
            #[trigger] keys[o[i]],
        ) by {
            assert(init[o[j]] == keys[o[j]]);
            assert(init[o[i]] == keys[o[i]]);
        }
        assert(!o.contains(x));
        placed_keeps_order(keys, o, x);
        let p = placed(keys, o, x);
        assert forall|i: int| 0 <= i < p.len() implies 0 <= #[trigger] p[i] < keys.len() by {
            assert(p.contains(p[i]));
            if p[i] != x {
                let k = choose|k: int| 0 <= k < o.len() && o[k] == p[i];
                assert(0 <= o[k] < init.len());
            }
        }
    }
}

proof fn placed_reads_named_keys(a: Seq<Seq<char>>, b: Seq<Seq<char>>, order: Seq<int>, x: int)
    requires
        a[x] == b[x],
        forall|i: int| 0 <= i < order.len() ==> a[#[trigger] order[i]] == b[order[i]],
    ensures
        placed(a, order, x) == placed(b, order, x),
    decreases order.len(),
{
    if order.len() > 0 {
        let init = order.drop_last();
        assert(forall|i: int| 0 <= i < init.len() ==> init[i] == order[i]);
        assert(a[order[order.len() - 1]] == b[order[order.len() - 1]]);
        placed_reads_named_keys(a, b, init, x);
    }
}

spec fn as_ints(order: Seq<usize>) -> Seq<int> {
    order.map_values(|i: usize| i as int)
}

/// The indices of `keys` in the order of the keys.
pub fn sort_order(keys: &Vec<Vec<char>>) -> (order: Vec<usize>)
    ensures
        order@.map_values(|i: usize| i as int) == order_of(keys.deep_view()),
        forall|i: int| 0 <= i < order@.len() ==> (#[trigger] order@[i]) < keys@.len(),
        order@.len() == keys@.len(),
{
    let ghost all = keys.deep_view();
    let mut order: Vec<usize> = Vec::new();
    let mut n: usize = 0;
    assert(as_ints(order@) =~= order_of(all.take(0)));
    while n < keys.len()
        invariant
            0 <= n <= keys.len(),
            all == keys.deep_view(),
            as_ints(order@) == order_of(all.take(n as int)),
            order@.len() == n,
            forall|i: int| 0 <= i < order@.len() ==> (#[trigger] order@[i]) < n,
        decreases keys.len() - n,
    {
        let ghost before = as_ints(order@);
        let mut at: usize = order.len();
        assert(before.take(at as int) =~= before);
        assert(before.skip(at as int) =~= Seq::<int>::empty());
        assert(placed(all, before, n as int) =~= placed(all, before.take(at as int), n as int)
            + before.skip(at as int));
        while at > 0 && comes_before(&keys[n], &keys[order[at - 1]])
            invariant
                0 <= n < keys.len(),
                all == keys.deep_view(),
                0 <= at <= order@.len(),
                before == as_ints(order@),
                order@.len() == n,
                forall|i: int| 0 <= i < order@.len() ==> (#[trigger] order@[i]) < n,
                placed(all, before, n as int) == placed(all, before.take(at as int), n as int)
                    + before.skip(at as int),
            decreases at,
        {
            proof {
                let head = before.take(at as int);
                assert(head.last() == order@[at - 1] as int);
                assert(all[order@[at - 1] as int] == keys@[order@[at - 1] as int]@);
                assert(all[n as int] == keys@[n as int]@);
                assert(head.drop_last() =~= before.take(at - 1));
                assert(placed(all, head, n as int) == placed(all, before.take(at - 1), n as int).push(
                    head.last(),
                ));
                assert(before.skip(at - 1) =~= seq![head.last()] + before.skip(at as int));
                assert(placed(all, before.take(at - 1), n as int).push(head.last()) + before.skip(
                    at as int,
                ) =~= placed(all, before.take(at - 1), n as int) + before.skip(at - 1));
            }
            at = at - 1;
        }
        proof {
            let head = before.take(at as int);
            if at > 0 {
                assert(head.last() == order@[at - 1] as int);
                assert(all[order@[at - 1] as int] == keys@[order@[at - 1] as int]@);
                assert(all[n as int] == keys@[n as int]@);
            }
            assert(placed(all, head, n as int) =~= head.push(n as int));
        }
        order.insert(at, n);
        proof {
            assert(as_ints(order@) =~= before.take(at as int).push(n as int) + before.skip(
                at as int,
            ));
            let now = all.take(n as int + 1);
            assert(now.drop_last() =~= all.take(n as int));
            placed_reads_named_keys(all, now, before, n as int);
            assert(order_of(now) == placed(now, order_of(all.take(n as int)), n as int));
        }
        n = n + 1;
    }
    assert(all.take(n as int) =~= all);
    assert(order@.map_values(|i: usize| i as int) =~= as_ints(order@));
    order
}

/// The rank of a character in a path: the separator comes before all others,
/// which keep their order.
pub open spec fn path_rank(c: char) -> char {
    if c == '/' {
        '\0'
    } else if '/' > c {
        (c as int + 1) as char
    } else {
        c
    }
}

/// A path with each character replaced by its rank, so that the order of texts
/// compares it component by component.
pub open spec fn path_key(path: Seq<char>) -> Seq<char> {
    path.map_values(|c: char| path_rank(c))
}

/// Different characters have different ranks.
proof fn path_rank_is_injective(a: char, b: char)
    requires
        path_rank(a) == path_rank(b),
    ensures
        a == b,
{
    if '/' > a {
        assert((a as int + 1) as char as int == a as int + 1);
    }
    if '/' > b {
        assert((b as int + 1) as char as int == b as int + 1);
    }
}

/// Different paths have different keys.
pub proof fn path_key_is_injective(a: Seq<char>, b: Seq<char>)
    requires
        path_key(a) == path_key(b),
    ensures
        a == b,
{
    assert(a.len() == path_key(a).len());
    assert(b.len() == path_key(b).len());
    assert forall|i: int| 0 <= i < a.len() implies a[i] == b[i] by {
        assert(path_key(a)[i] == path_rank(a[i]));
        assert(path_key(b)[i] == path_rank(b[i]));
        path_rank_is_injective(a[i], b[i]);
    }
    assert(a =~= b);
}

/// The rank of a character in a path.
fn rank_of(c: char) -> (rank: char)
    ensures
        rank == path_rank(c),
{
    if c == '/' {
        '\0'
    } else if '/' > c {
        let code: u8 = c as u8;
        (code + 1) as char
    } else {
        c
    }
}

/// The key a path is ordered by.
pub fn key_of_path(path: &str) -> (key: Vec<char>)
    ensures
        key@ == path_key(path@),
{
    let mut key: Vec<char> = Vec::new();
    for c in it: path.chars()
        invariant
            it.seq() == path@,
            key@.len() == it.index(),
            forall|k: int| 0 <= k < key@.len() ==> key@[k] == path_key(path@)[k],
    {
        key.push(rank_of(c));
    }
    assert(key@ =~= path_key(path@));
    key
}

/// Each text at the first place where it occurs.
pub open spec fn distinct(s: Seq<Seq<char>>) -> Seq<Seq<char>>
    decreases s.len(),
{
    if s.len() == 0 {
        Seq::empty()
    } else {
        let init = distinct(s.drop_last());
        if init.contains(s.last()) {
            init
        } else {
            init.push(s.last())
        }
    }
}

/// Dropping repetitions keeps every text, and keeps it once.
pub proof fn distinct_keeps_each_once(s: Seq<Seq<char>>)
    ensures
        distinct(s).no_duplicates(),
        forall|t: Seq<char>| #[trigger] distinct(s).contains(t) <==> s.contains(t),
    decreases s.len(),
{
    if s.len() > 0 {
        let init = s.drop_last();
        distinct_keeps_each_once(init);
        let d = distinct(init);
        assert forall|t: Seq<char>| #[trigger] distinct(s).contains(t) <==> s.contains(t) by {
            if s.contains(t) {
                let k = choose|k: int| 0 <= k < s.len() && s[k] == t;
                if k < init.len() {
                    assert(init[k] == t);
                    assert(d.contains(t));
                    let m = choose|m: int| 0 <= m < d.len() && d[m] == t;
                    assert(distinct(s)[m] == t);
                } else if !d.contains(t) {
                    assert(distinct(s)[d.len() as int] == t);
                }
            }
            if distinct(s).contains(t) {
                let m = choose|m: int| 0 <= m < distinct(s).len() && distinct(s)[m] == t;
                if m < d.len() {
                    assert(d.contains(t));
                    let k = choose|k: int| 0 <= k < init.len() && init[k] == t;
                    assert(s[k] == t);
                } else {
                    assert(s[s.len() - 1] == t);
                }
            }
        }
    }
}

/// Adds `t` to `seen` unless it is there, and says whether it was new.
pub fn note(seen: &mut Vec<String>, t: &String) -> (new: bool)
    ensures
        new == !old(seen).deep_view().contains(t@),
        final(seen).deep_view() == if new {
            old(seen).deep_view().push(t@)
        } else {
            old(seen).deep_view()
        },
{
    if crate::text::holds(seen, t) {
        false
    } else {
        let ghost before = seen.deep_view();
        seen.push(t.clone());
        assert(seen.deep_view() =~= before.push(t@));
        true
    }
}

/// Whether texts are in order, each once.
pub open spec fn strictly_ordered(s: Seq<Seq<char>>) -> bool {
    forall|i: int, j: int| 0 <= i < j < s.len() ==> text_before(#[trigger] s[i], #[trigger] s[j])
}

/// Texts in strict order are all different.
pub proof fn ordered_texts_are_distinct(s: Seq<Seq<char>>)
    requires
        strictly_ordered(s),
    ensures
        s.no_duplicates(),
{
    assert forall|i: int, j: int| 0 <= i < s.len() && 0 <= j < s.len() && i != j implies s[i]
        != s[j] by {
        text_order_is_irreflexive(s[i]);
        if i < j {
            assert(text_before(s[i], s[j]));
        } else {
            assert(text_before(s[j], s[i]));
        }
    }
}

/// Every place is in the order once it is made.
pub proof fn every_place_is_ordered(keys: Seq<Seq<char>>, i: int)
    ensures
        order_of(keys).contains(i) <==> 0 <= i < keys.len(),
    decreases keys.len(),
{
    if keys.len() > 0 {
        let init = keys.drop_last();
        let n = keys.len() - 1;
        let order = order_of(init);
        every_place_is_ordered(init, i);
        every_place_is_ordered(init, n);
        order_is_sorted(init);
        assert forall|a: int, b: int| 0 <= a < b < order.len() implies !text_before(
            #[trigger] keys[order[b]],
            #[trigger] keys[order[a]],
        ) by {
            assert(keys[order[b]] == init[order[b]]);
            assert(keys[order[a]] == init[order[a]]);
        }
        placed_keeps_order(keys, order, n);
        assert forall|k: int| 0 <= k < order.len() implies keys[#[trigger] order[k]]
            == init[order[k]] by {}
        assert(placed(keys, order, n).contains(i) <==> i == n || order.contains(i));
    }
}

/// Arranging a list keeps what it holds, and how much of it.
pub proof fn arranging_keeps_everything<A>(s: Seq<A>, keys: Seq<Seq<char>>, x: A)
    requires
        keys.len() == s.len(),
    ensures
        arranged(s, keys).contains(x) <==> s.contains(x),
        arranged(s, keys).len() == s.len(),
{
    order_is_sorted(keys);
    let order = order_of(keys);
    let all = arranged(s, keys);
    if s.contains(x) {
        let i = choose|i: int| 0 <= i < s.len() && s[i] == x;
        every_place_is_ordered(keys, i);
        let k = choose|k: int| 0 <= k < order.len() && order[k] == i;
        assert(all[k] == x);
    }
    if all.contains(x) {
        let k = choose|k: int| 0 <= k < all.len() && all[k] == x;
        assert(s[order[k]] == x);
    }
}

/// Arranged keys are sorted.
pub proof fn arranging_sorts(keys: Seq<Seq<char>>, i: int, j: int)
    requires
        0 <= i < j < keys.len(),
    ensures
        !text_before(arranged(keys, keys)[j], arranged(keys, keys)[i]),
{
    order_is_sorted(keys);
}

/// Entries with the same key stay in the order they came in.
pub proof fn arranging_is_stable(keys: Seq<Seq<char>>, i: int, j: int)
    requires
        0 <= i < j < order_of(keys).len(),
        keys[order_of(keys)[i]] == keys[order_of(keys)[j]],
    ensures
        order_of(keys)[i] < order_of(keys)[j],
    decreases keys.len(),
{
    order_is_sorted(keys);
    let init = keys.drop_last();
    let n = keys.len() - 1;
    let order = order_of(init);
    order_is_sorted(init);
    assert forall|a: int, b: int|
        0 <= a < b < order.len() && keys[#[trigger] order[a]] == keys[#[trigger] order[b]] implies
        order[a] < order[b] by {
        assert(init[order[a]] == keys[order[a]]);
        assert(init[order[b]] == keys[order[b]]);
        arranging_is_stable(init, a, b);
    }
    placing_is_stable(keys, order, n, i, j);
}

proof fn placing_is_stable(keys: Seq<Seq<char>>, order: Seq<int>, x: int, i: int, j: int)
    requires
        forall|a: int| 0 <= a < order.len() ==> #[trigger] order[a] < x,
        forall|a: int, b: int|
            0 <= a < b < order.len() && keys[#[trigger] order[a]] == keys[#[trigger] order[b]]
                ==> order[a] < order[b],
        0 <= i < j < placed(keys, order, x).len(),
        keys[placed(keys, order, x)[i]] == keys[placed(keys, order, x)[j]],
    ensures
        placed(keys, order, x)[i] < placed(keys, order, x)[j],
    decreases order.len(),
{
    if order.len() > 0 && text_before(keys[x], keys[order.last()]) {
        let init = order.drop_last();
        let part = placed(keys, init, x);
        if j < part.len() {
            placing_is_stable(keys, init, x, i, j);
        } else {
            text_order_is_irreflexive(keys[x]);
            placed_holds(keys, init, x, i);
            if part[i] != x {
                let a = choose|a: int| 0 <= a < init.len() && init[a] == part[i];
                assert(order[a] == part[i]);
                assert(order[order.len() - 1] == order.last());
            }
        }
    }
}

proof fn placed_holds(keys: Seq<Seq<char>>, order: Seq<int>, x: int, i: int)
    requires
        0 <= i < placed(keys, order, x).len(),
    ensures
        placed(keys, order, x)[i] == x || order.contains(placed(keys, order, x)[i]),
    decreases order.len(),
{
    if order.len() > 0 && text_before(keys[x], keys[order.last()]) {
        let init = order.drop_last();
        let part = placed(keys, init, x);
        if i < part.len() {
            placed_holds(keys, init, x, i);
            if part[i] != x {
                let a = choose|a: int| 0 <= a < init.len() && init[a] == part[i];
                assert(order[a] == part[i]);
            }
        } else {
            assert(order[order.len() - 1] == order.last());
        }
    } else if i < order.len() {
        assert(order[i] == placed(keys, order, x)[i]);
    }
}

/// Whatever is below a directory is sorted before its siblings: the separator
/// comes before every other character.
pub proof fn paths_sort_below_their_directory(
    dir: Seq<char>,
    rest: Seq<char>,
    c: char,
    other: Seq<char>,
)
    requires
        c != '/',
    ensures
        text_before(path_key(dir + seq!['/'] + rest), path_key(dir + seq![c] + other)),
        text_before(path_key(dir), path_key(dir + seq![c] + other)),
{
    let a = path_key(dir + seq!['/'] + rest);
    let b = path_key(dir + seq![c] + other);
    let n = dir.len() as int;
    assert forall|i: int| 0 <= i < n implies a[i] == b[i] by {
        assert((dir + seq!['/'] + rest)[i] == dir[i]);
        assert((dir + seq![c] + other)[i] == dir[i]);
    }
    assert((dir + seq!['/'] + rest)[n] == '/');
    assert((dir + seq![c] + other)[n] == c);
    assert(a[n] == path_rank('/'));
    assert(b[n] == path_rank(c));
    assert(path_rank(c) > path_rank('/'));
    assert(text_splits_at(a, b, n));
    let d = path_key(dir);
    assert forall|i: int| 0 <= i < n implies d[i] == b[i] by {
        assert((dir + seq![c] + other)[i] == dir[i]);
    }
    assert(text_splits_at(d, b, n));
}

/// Apart from the separator, paths are sorted as their characters are.
pub proof fn other_characters_keep_their_order(a: char, b: char)
    requires
        a != '/',
        b != '/',
    ensures
        a < b <==> path_rank(a) < path_rank(b),
{
}

} // verus!
