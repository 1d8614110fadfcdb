use vstd::prelude::*;

verus! {

/// No element of `s` is strictly before an earlier one.
pub open spec fn sorted_by<T>(s: Seq<T>, before: spec_fn(T, T) -> bool) -> bool {
    forall|a: int, b: int| 0 <= a < b < s.len() ==> !before(s[b], s[a])
}

/// `before` is a strict order: transitive and asymmetric.
pub open spec fn strict_order<T>(before: spec_fn(T, T) -> bool) -> bool {
    &&& forall|x: T, y: T, z: T| #[trigger] before(x, y) && #[trigger] before(y, z) ==> before(x, z)
    &&& forall|x: T, y: T| #[trigger] before(x, y) ==> !before(y, x)
}

/// Inserts `x` after every element that it is not strictly before, keeping `v` sorted.
pub(crate) fn insert_sorted<T, F: Fn(&T, &T) -> bool>(
    v: &mut Vec<T>,
    x: T,
    before: F,
    Ghost(b): Ghost<spec_fn(T, T) -> bool>,
)
    requires
        forall|p: &T, q: &T| #[trigger] before.requires((p, q)),
        forall|p: &T, q: &T, r: bool| before.ensures((p, q), r) ==> r == b(*p, *q),
        strict_order(b),
        sorted_by(old(v)@, b),
    ensures
        final(v)@.to_multiset() == old(v)@.to_multiset().insert(x),
        final(v)@.len() == old(v)@.len() + 1,
        sorted_by(final(v)@, b),
        (forall|p: T, q: T| !#[trigger] b(p, q)) ==> final(v)@ == old(v)@.push(x),
{
    let ghost s = v@;
    let mut p: usize = 0;
    while p < v.len() && !before(&x, &v[p])
        invariant
            v@ == s,
            p <= v@.len(),
            forall|a: int| 0 <= a < p ==> !b(x, #[trigger] s[a]),
            forall|p: &T, q: &T| #[trigger] before.requires((p, q)),
            forall|p: &T, q: &T, r: bool| before.ensures((p, q), r) ==> r == b(*p, *q),
        decreases v@.len() - p,
    {
        p = p + 1;
    }
    let ghost xx = x;
    v.insert(p, x);
    proof {
        broadcast use vstd::seq_lib::to_multiset_insert;
        let n = v@;
        assert(n == s.insert(p as int, xx));
        assert forall|a: int, c: int| 0 <= a < c < n.len() implies !b(n[c], n[a]) by {
            if c < p {
                assert(n[a] == s[a] && n[c] == s[c]);
            } else if c == p {
                assert(n[a] == s[a]);
            } else if a > p {
                assert(n[a] == s[a - 1] && n[c] == s[c - 1]);
            } else if a == p {
                assert(n[c] == s[c - 1]);
                assert(b(xx, s[p as int]));
                if c - 1 > p {
                    assert(!b(s[c - 1], s[p as int]));
                }
            } else {
                assert(n[a] == s[a] && n[c] == s[c - 1]);
            }
        }
        if forall|p: T, q: T| !#[trigger] b(p, q) {
            assert(p == s.len());
            assert(n =~= s.push(xx));
        }
    }
}

} // verus!
