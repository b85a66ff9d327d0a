//! What a list made of parts holds.

use vstd::prelude::*;

verus! {

/// Whatever a flat map holds, one of its parts holds.
pub proof fn flat_map_member<A, B>(s: Seq<A>, f: spec_fn(A) -> Seq<B>, k: int) -> (i: int)
    requires
        0 <= k < s.flat_map(f).len(),
    ensures
        0 <= i < s.len(),
        f(s[i]).contains(s.flat_map(f)[k]),
    decreases s.len(),
{
    if s.len() == 0 {
        assert(s.flat_map(f) =~= Seq::empty());
        0
    } else {
        let n = s.len() - 1;
        s.lemma_flat_map_take_append(f, n);
        assert(s.take(n + 1) =~= s);
        let init = s.take(n);
        if k < init.flat_map(f).len() {
            let i = flat_map_member(init, f, k);
            assert(init[i] == s[i]);
            assert(init.flat_map(f)[k] == s.flat_map(f)[k]);
            i
        } else {
            let j = k - init.flat_map(f).len();
            assert(f(s[n])[j] == s.flat_map(f)[k]);
            n
        }
    }
}

/// Whatever one of its parts holds, a flat map holds.
pub proof fn flat_map_holds<A, B>(s: Seq<A>, f: spec_fn(A) -> Seq<B>, i: int, x: B)
    requires
        0 <= i < s.len(),
        f(s[i]).contains(x),
    ensures
        s.flat_map(f).contains(x),
    decreases s.len(),
{
    let n = s.len() - 1;
    let init = s.take(n);
    s.lemma_flat_map_take_append(f, n);
    assert(s.take(n + 1) =~= s);
    if i < n {
        assert(init[i] == s[i]);
        flat_map_holds(init, f, i, x);
        let k = choose|k: int| 0 <= k < init.flat_map(f).len() && init.flat_map(f)[k] == x;
        assert(s.flat_map(f)[k] == x);
    } else {
        let part = f(s[n]);
        let k = choose|k: int| 0 <= k < part.len() && part[k] == x;
        assert(s.flat_map(f)[init.flat_map(f).len() + k] == x);
    }
}

/// A flat map holds exactly what its parts hold.
pub proof fn flat_map_contains<A, B>(s: Seq<A>, f: spec_fn(A) -> Seq<B>, x: B)
    ensures
        s.flat_map(f).contains(x) <==> exists|i: int|
            0 <= i < s.len() && (#[trigger] f(s[i])).contains(x),
{
    if s.flat_map(f).contains(x) {
        let k = choose|k: int| 0 <= k < s.flat_map(f).len() && s.flat_map(f)[k] == x;
        let i = flat_map_member(s, f, k);
        assert(f(s[i]).contains(x));
    }
    if exists|i: int| 0 <= i < s.len() && (#[trigger] f(s[i])).contains(x) {
        let i = choose|i: int| 0 <= i < s.len() && (#[trigger] f(s[i])).contains(x);
        flat_map_holds(s, f, i, x);
    }
}

/// Two lists put together hold exactly what either holds.
pub proof fn joined_lists_contain<A>(a: Seq<A>, b: Seq<A>, x: A)
    ensures
        (a + b).contains(x) <==> a.contains(x) || b.contains(x),
{
    if a.contains(x) {
        let k = choose|k: int| 0 <= k < a.len() && a[k] == x;
        assert((a + b)[k] == x);
    }
    if b.contains(x) {
        let k = choose|k: int| 0 <= k < b.len() && b[k] == x;
        assert((a + b)[a.len() + k] == x);
    }
    if (a + b).contains(x) {
        let k = choose|k: int| 0 <= k < (a + b).len() && (a + b)[k] == x;
        if k < a.len() {
            assert(a[k] == x);
        } else {
            assert(b[k - a.len()] == x);
        }
    }
}

/// A list of one holds that one.
pub proof fn single_contains<A>(a: A, x: A)
    ensures
        seq![a].contains(x) <==> a == x,
{
    if a == x {
        assert(seq![a][0] == x);
    }
}

/// A filtered list holds what the list holds and the filter keeps.
pub proof fn filtered_contains<A>(s: Seq<A>, keep: spec_fn(A) -> bool, x: A)
    ensures
        s.filter(keep).contains(x) <==> s.contains(x) && keep(x),
{
    if s.contains(x) && keep(x) {
        let i = choose|i: int| 0 <= i < s.len() && s[i] == x;
        s.lemma_filter_contains(keep, i);
    }
    if s.filter(keep).contains(x) {
        s.lemma_filter_contains_rev(keep, x);
        let k = choose|k: int| 0 <= k < s.filter(keep).len() && s.filter(keep)[k] == x;
        s.lemma_filter_pred(keep, k);
    }
}

/// A mapped list holds exactly the images of what the list holds.
pub proof fn mapped_contains<A, B>(s: Seq<A>, f: spec_fn(A) -> B, y: B)
    ensures
        s.map_values(f).contains(y) <==> exists|i: int|
            0 <= i < s.len() && #[trigger] f(s[i]) == y,
{
    let m = s.map_values(f);
    if m.contains(y) {
        let i = choose|i: int| 0 <= i < m.len() && m[i] == y;
        assert(f(s[i]) == y);
    }
    if exists|i: int| 0 <= i < s.len() && #[trigger] f(s[i]) == y {
        let i = choose|i: int| 0 <= i < s.len() && #[trigger] f(s[i]) == y;
        assert(m[i] == y);
    }
}

} // verus!
