//! A finite map with integer keys, read as the sequence of its entries by
//! ascending key.
use vstd::prelude::*;

verus! {

/// Whether `s` lists `m` in full, by ascending key.
pub open spec fn is_listing<A>(s: Seq<(u64, A)>, m: Map<u64, A>) -> bool {
    &&& forall|i: int, j: int| 0 <= i < j < s.len() ==> s[i].0 < s[j].0
    &&& forall|i: int|
        0 <= i < s.len() ==> m.dom().contains(#[trigger] s[i].0) && m[s[i].0] == s[i].1
    &&& forall|k: u64| #[trigger]
        m.dom().contains(k) ==> exists|i: int| 0 <= i < s.len() && s[i].0 == k
}

/// The entries of `m` by ascending key.
pub open spec fn ascending<A>(m: Map<u64, A>) -> Seq<(u64, A)> {
    choose|s: Seq<(u64, A)>| is_listing(s, m)
}

/// Without its last entry, a listing lists the map without that entry's key.
proof fn lemma_listing_drop_last<A>(s: Seq<(u64, A)>, m: Map<u64, A>)
    requires
        is_listing(s, m),
        s.len() > 0,
    ensures
        is_listing(s.drop_last(), m.remove(s.last().0)),
{
    let t = s.drop_last();
    let top = s.last().0;
    let rest = m.remove(top);
    assert forall|i: int| 0 <= i < t.len() implies rest.dom().contains(#[trigger] t[i].0)
        && rest[t[i].0] == t[i].1 by {
        assert(t[i] == s[i]);
        assert(s[i].0 < s[s.len() - 1].0);
    }
    assert forall|k: u64| #[trigger] rest.dom().contains(k) implies exists|i: int|
        0 <= i < t.len() && t[i].0 == k by {
        assert(m.dom().contains(k));
        let i = choose|i: int| 0 <= i < s.len() && s[i].0 == k;
        assert(i < s.len() - 1);
        assert(t[i] == s[i]);
    }
}

/// A map has one listing at most.
pub proof fn lemma_listing_unique<A>(a: Seq<(u64, A)>, b: Seq<(u64, A)>, m: Map<u64, A>)
    requires
        is_listing(a, m),
        is_listing(b, m),
    ensures
        a == b,
    decreases a.len(),
{
    if a.len() == 0 {
        if b.len() > 0 {
            assert(m.dom().contains(b[0].0));
        }
        assert(a =~= b);
    } else {
        let top = a.last().0;
        assert(m.dom().contains(a[a.len() - 1].0));
        let j = choose|j: int| 0 <= j < b.len() && b[j].0 == top;
        if j < b.len() - 1 {
            let above = b[b.len() - 1].0;
            assert(m.dom().contains(above));
            let i = choose|i: int| 0 <= i < a.len() && a[i].0 == above;
            assert(a[i].0 <= a[a.len() - 1].0);
        }
        assert(b.last() == a.last());
        lemma_listing_drop_last(a, m);
        lemma_listing_drop_last(b, m);
        lemma_listing_unique(a.drop_last(), b.drop_last(), m.remove(top));
        assert(a =~= a.drop_last().push(a.last()));
        assert(b =~= b.drop_last().push(b.last()));
    }
}

/// A finite, non-empty set of keys has a largest key.
proof fn lemma_largest(keys: Set<u64>) -> (top: u64)
    requires
        keys.finite(),
        keys.len() > 0,
    ensures
        keys.contains(top),
        forall|k: u64| keys.contains(k) ==> k <= top,
    decreases keys.len(),
{
    let x = keys.choose();
    let rest = keys.remove(x);
    if rest.len() == 0 {
        assert forall|k: u64| keys.contains(k) implies k <= x by {
            if k != x {
                assert(rest.contains(k));
            }
        }
        x
    } else {
        let y = lemma_largest(rest);
        let top = if x >= y { x } else { y };
        assert forall|k: u64| keys.contains(k) implies k <= top by {
            if k != x {
                assert(rest.contains(k));
            }
        }
        top
    }
}

/// Every finite map has a listing.
pub proof fn lemma_listing_exists<A>(m: Map<u64, A>)
    requires
        m.dom().finite(),
    ensures
        is_listing(ascending(m), m),
    decreases m.dom().len(),
{
    if m.dom().len() == 0 {
        let s = Seq::<(u64, A)>::empty();
        assert forall|k: u64| #[trigger] m.dom().contains(k) implies exists|i: int|
            0 <= i < s.len() && s[i].0 == k by {
            assert(m.dom() =~= Set::empty());
        }
        assert(is_listing(s, m));
    } else {
        let top = lemma_largest(m.dom());
        let rest = m.remove(top);
        lemma_listing_exists(rest);
        let front = ascending(rest);
        let s = front.push((top, m[top]));
        assert forall|i: int, j: int| 0 <= i < j < s.len() implies s[i].0 < s[j].0 by {
            if j == s.len() - 1 {
                assert(rest.dom().contains(front[i].0));
            }
        }
        assert forall|i: int| 0 <= i < s.len() implies m.dom().contains(#[trigger] s[i].0)
            && m[s[i].0] == s[i].1 by {
            if i < s.len() - 1 {
                assert(rest.dom().contains(front[i].0));
            }
        }
        assert forall|k: u64| #[trigger] m.dom().contains(k) implies exists|i: int|
            0 <= i < s.len() && s[i].0 == k by {
            if k == top {
                assert(s[s.len() - 1].0 == k);
            } else {
                assert(rest.dom().contains(k));
                let i = choose|i: int| 0 <= i < front.len() && front[i].0 == k;
                assert(s[i].0 == k);
            }
        }
        assert(is_listing(s, m));
    }
}

/// A listing of a map is the map's listing.
pub proof fn lemma_listing_is_ascending<A>(s: Seq<(u64, A)>, m: Map<u64, A>)
    requires
        is_listing(s, m),
    ensures
        s == ascending(m),
{
    lemma_listing_unique(s, ascending(m), m);
}

/// A listing has as many entries as the map has keys.
pub proof fn lemma_listing_len<A>(s: Seq<(u64, A)>, m: Map<u64, A>)
    requires
        is_listing(s, m),
    ensures
        m.dom().finite(),
        s.len() == m.dom().len(),
    decreases s.len(),
{
    if s.len() == 0 {
        assert(m.dom() =~= Set::empty()) by {
            assert forall|k: u64| !m.dom().contains(k) by {
                if m.dom().contains(k) {
                    let i = choose|i: int| 0 <= i < s.len() && s[i].0 == k;
                }
            }
        }
    } else {
        let top = s.last().0;
        assert(m.dom().contains(s[s.len() - 1].0));
        lemma_listing_drop_last(s, m);
        lemma_listing_len(s.drop_last(), m.remove(top));
        assert(m.dom() =~= m.remove(top).dom().insert(top));
    }
}

/// Putting an entry under a key above all others adds it at the end of the
/// listing.
pub proof fn lemma_listing_push<A>(s: Seq<(u64, A)>, m: Map<u64, A>, key: u64, value: A)
    requires
        is_listing(s, m),
        forall|k: u64| m.dom().contains(k) ==> k < key,
    ensures
        is_listing(s.push((key, value)), m.insert(key, value)),
{
    let t = s.push((key, value));
    let n = m.insert(key, value);
    assert forall|i: int, j: int| 0 <= i < j < t.len() implies t[i].0 < t[j].0 by {
        assert(m.dom().contains(s[i].0));
    }
    assert forall|i: int| 0 <= i < t.len() implies n.dom().contains(#[trigger] t[i].0) && n[t[i].0]
        == t[i].1 by {
        if i < s.len() {
            assert(m.dom().contains(s[i].0));
        }
    }
    assert forall|k: u64| #[trigger] n.dom().contains(k) implies exists|i: int|
        0 <= i < t.len() && t[i].0 == k by {
        if k == key {
            assert(t[t.len() - 1].0 == k);
        } else {
            assert(m.dom().contains(k));
            let i = choose|i: int| 0 <= i < s.len() && s[i].0 == k;
            assert(t[i].0 == k);
        }
    }
}

} // verus!
