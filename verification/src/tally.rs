//! Sums, selections and rounded ratios over sequences: the vocabulary in
//! which the derived figures are stated.
use vstd::prelude::*;
use crate::record::Record;

verus! {

/// The views of a sequence of values.
pub open spec fn views<T: View>(items: Seq<T>) -> Seq<T::V> {
    Seq::new(items.len(), |i: int| items[i]@)
}

/// The sum of `f` over the items of `s`.
pub open spec fn sum_of<A>(s: Seq<A>, f: spec_fn(A) -> int) -> int
    decreases s.len(),
{
    if s.len() == 0 {
        0
    } else {
        sum_of(s.drop_last(), f) + f(s.last())
    }
}

/// The quotient `n / d` rounded to the nearest integer, a tie away from
/// zero.
pub open spec fn round_div(n: int, d: int) -> int
    recommends
        d > 0,
{
    if n >= 0 {
        (2 * n + d) / (2 * d)
    } else {
        -((2 * (-n) + d) / (2 * d))
    }
}

pub proof fn lemma_sum_push<A>(s: Seq<A>, x: A, f: spec_fn(A) -> int)
    ensures
        sum_of(s.push(x), f) == sum_of(s, f) + f(x),
{
    assert(s.push(x).drop_last() =~= s);
}

/// One more item of `s` is taken into account.
pub proof fn lemma_sum_step<A>(s: Seq<A>, i: int, f: spec_fn(A) -> int)
    requires
        0 <= i < s.len(),
    ensures
        sum_of(s.take(i + 1), f) == sum_of(s.take(i), f) + f(s[i]),
{
    assert(s.take(i + 1).drop_last() =~= s.take(i));
}

pub proof fn lemma_filter_push<A>(s: Seq<A>, x: A, p: spec_fn(A) -> bool)
    ensures
        s.push(x).filter(p) == if p(x) {
            s.filter(p).push(x)
        } else {
            s.filter(p)
        },
{
    reveal(Seq::filter);
    assert(s.push(x).drop_last() =~= s);
}

/// One more item of `s` is taken into account.
pub proof fn lemma_filter_step<A>(s: Seq<A>, i: int, p: spec_fn(A) -> bool)
    requires
        0 <= i < s.len(),
    ensures
        s.take(i + 1).filter(p) == if p(s[i]) {
            s.take(i).filter(p).push(s[i])
        } else {
            s.take(i).filter(p)
        },
{
    assert(s.take(i + 1) =~= s.take(i).push(s[i]));
    lemma_filter_push(s.take(i), s[i], p);
}

/// Every item of a selection meets the condition and comes from the
/// sequence.
pub proof fn lemma_filter_members<A>(s: Seq<A>, p: spec_fn(A) -> bool)
    ensures
        forall|j: int|
            0 <= j < s.filter(p).len() ==> p(#[trigger] s.filter(p)[j]) && s.contains(
                s.filter(p)[j],
            ),
        forall|i: int| 0 <= i < s.len() && p(s[i]) ==> s.filter(p).contains(#[trigger] s[i]),
        s.filter(p).len() <= s.len(),
    decreases s.len(),
{
    reveal(Seq::filter);
    if s.len() > 0 {
        let front = s.drop_last();
        let x = s.last();
        lemma_filter_members(front, p);
        assert(s =~= front.push(x));
        lemma_filter_push(front, x, p);
        let out = s.filter(p);
        assert forall|j: int| 0 <= j < out.len() implies p(#[trigger] out[j]) && s.contains(
            out[j],
        ) by {
            if j < front.filter(p).len() {
                let y = front.filter(p)[j];
                assert(front.contains(y));
                let k = choose|k: int| 0 <= k < front.len() && front[k] == y;
                assert(s[k] == y);
            } else {
                assert(s[s.len() - 1] == x);
            }
        }
        assert forall|i: int| 0 <= i < s.len() && p(s[i]) implies out.contains(
            #[trigger] s[i],
        ) by {
            if i < front.len() {
                assert(front.filter(p).contains(front[i]));
                let k = choose|k: int|
                    0 <= k < front.filter(p).len() && front.filter(p)[k] == front[i];
                assert(out[k] == s[i]);
            } else {
                assert(out[out.len() - 1] == s[i]);
            }
        }
    }
}

/// A sum of amounts that are not negative is not negative, and no part of
/// it is more than the whole.
pub proof fn lemma_sum_of_part<A>(s: Seq<A>, p: spec_fn(A) -> bool, f: spec_fn(A) -> int)
    requires
        forall|x: A| #[trigger] f(x) >= 0,
    ensures
        0 <= sum_of(s.filter(p), f) <= sum_of(s, f),
    decreases s.len(),
{
    reveal(Seq::filter);
    if s.len() > 0 {
        let front = s.drop_last();
        let x = s.last();
        lemma_sum_of_part(front, p, f);
        assert(s =~= front.push(x));
        lemma_filter_push(front, x, p);
        if p(x) {
            lemma_sum_push(front.filter(p), x, f);
        }
    }
}

/// Two measures that agree on every item of `s` have the same sum over it.
pub proof fn lemma_sum_agree<A>(s: Seq<A>, f: spec_fn(A) -> int, g: spec_fn(A) -> int)
    requires
        forall|i: int| 0 <= i < s.len() ==> f(#[trigger] s[i]) == g(s[i]),
    ensures
        sum_of(s, f) == sum_of(s, g),
    decreases s.len(),
{
    if s.len() > 0 {
        let front = s.drop_last();
        assert forall|i: int| 0 <= i < front.len() implies f(#[trigger] front[i]) == g(
            front[i],
        ) by {
            assert(front[i] == s[i]);
        }
        lemma_sum_agree(front, f, g);
        assert(f(s[s.len() - 1]) == g(s[s.len() - 1]));
    }
}

/// A rounded quotient is no further from zero than the bound on the exact
/// one.
pub proof fn lemma_round_div_bound(n: int, d: int, k: int)
    requires
        d > 0,
        k >= 0,
        -k * d <= n <= k * d,
    ensures
        -k <= round_div(n, d) <= k,
{
    let m = if n >= 0 { n } else { -n };
    assert((-k) * d == -(k * d)) by (nonlinear_arith);
    assert(0 <= (2 * m + d) / (2 * d) <= k) by (nonlinear_arith)
        requires
            d > 0,
            k >= 0,
            0 <= m <= k * d,
    ;
}

/// The rounded quotient of amounts that are not negative.
pub fn rounded_ratio(n: u128, d: u128) -> (q: u128)
    requires
        d > 0,
        2 * d <= u128::MAX,
        2 * n + d <= u128::MAX,
    ensures
        q == round_div(n as int, d as int),
{
    (2 * n + d) / (2 * d)
}

/// The rounded quotient of a signed amount by a positive one.
pub fn rounded_signed_ratio(n: i128, d: i128) -> (q: i128)
    requires
        d > 0,
        2 * d <= i128::MAX,
        2 * n + d <= i128::MAX,
        2 * (-n) + d <= i128::MAX,
    ensures
        q == round_div(n as int, d as int),
{
    if n >= 0 {
        (2 * n + d) / (2 * d)
    } else {
        let m: i128 = -n;
        let q: i128 = (2 * m + d) / (2 * d);
        -q
    }
}

/// The records for which `keep` holds, in the order of `rows`.
pub(crate) fn select<T: Record, F: Fn(&T) -> bool>(
    rows: &Vec<T>,
    keep: F,
    Ghost(p): Ghost<spec_fn(T::V) -> bool>,
) -> (out: Vec<T>)
    requires
        forall|x: &T| #[trigger] keep.requires((x,)),
        forall|x: &T, b: bool| #[trigger] keep.ensures((x,), b) ==> b == p(x@),
    ensures
        views(out@) == views(rows@).filter(p),
{
    let n = rows.len();
    let mut out: Vec<T> = Vec::new();
    let mut i: usize = 0;
    proof {
        reveal(Seq::filter);
        assert(views(rows@).take(0).filter(p) =~= views(out@));
    }
    while i < n
        invariant
            n == rows.len(),
            i <= n,
            forall|x: &T| #[trigger] keep.requires((x,)),
            forall|x: &T, b: bool| #[trigger] keep.ensures((x,), b) ==> b == p(x@),
            views(out@) == views(rows@).take(i as int).filter(p),
        decreases n - i,
    {
        proof {
            lemma_filter_step(views(rows@), i as int, p);
        }
        if keep(&rows[i]) {
            let ghost before = views(out@);
            out.push(rows[i].duplicate());
            assert(views(out@) =~= before.push(rows[i as int]@));
        }
        i += 1;
    }
    assert(views(rows@).take(n as int) =~= views(rows@));
    out
}

} // verus!
