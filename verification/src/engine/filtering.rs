//! Facts about filtered sequences: where the items that pass a test stood.

use vstd::prelude::*;

verus! {

/// The positions in `s` of the items that pass `p`, in ascending order.
pub open spec fn positions<A>(s: Seq<A>, p: spec_fn(A) -> bool) -> Seq<int>
    decreases s.len(),
{
    if s.len() == 0 {
        Seq::empty()
    } else if p(s.last()) {
        positions(s.drop_last(), p).push(s.len() - 1)
    } else {
        positions(s.drop_last(), p)
    }
}

/// `positions` lists, in ascending order and without gaps, the places of the
/// items of `s.filter(p)`.
pub proof fn lemma_positions<A>(s: Seq<A>, p: spec_fn(A) -> bool)
    ensures
        positions(s, p).len() == s.filter(p).len(),
        forall|m: int|
            0 <= m < positions(s, p).len() ==> 0 <= (#[trigger] positions(s, p)[m]) < s.len()
                && s[positions(s, p)[m]] == s.filter(p)[m] && p(s[positions(s, p)[m]]),
        forall|m: int, n: int|
            0 <= m < n < positions(s, p).len() ==> (#[trigger] positions(s, p)[m]) < (
            #[trigger] positions(s, p)[n]),
        forall|i: int|
            0 <= i < s.len() && p(#[trigger] s[i]) ==> exists|m: int|
                0 <= m < positions(s, p).len() && #[trigger] positions(s, p)[m] == i,
    decreases s.len(),
{
    reveal(Seq::filter);
    if s.len() > 0 {
        let rest = s.drop_last();
        lemma_positions(rest, p);
        let at = positions(s, p);
        let before = positions(rest, p);
        assert forall|i: int| 0 <= i < s.len() && p(#[trigger] s[i]) implies exists|m: int|
            0 <= m < at.len() && #[trigger] at[m] == i by {
            if i < rest.len() {
                assert(p(rest[i]));
                let m = choose|m: int| 0 <= m < before.len() && #[trigger] before[m] == i;
                assert(at[m] == i);
            } else {
                assert(at[at.len() - 1] == i);
            }
        }
    }
}

/// When every item passes the test, filtering changes nothing.
pub proof fn lemma_filter_all<A>(s: Seq<A>, p: spec_fn(A) -> bool)
    requires
        forall|i: int| 0 <= i < s.len() ==> p(#[trigger] s[i]),
    ensures
        s.filter(p) == s,
    decreases s.len(),
{
    reveal(Seq::filter);
    if s.len() > 0 {
        let rest = s.drop_last();
        assert forall|i: int| 0 <= i < rest.len() implies p(#[trigger] rest[i]) by {
            assert(rest[i] == s[i]);
        }
        lemma_filter_all(rest, p);
        assert(rest.push(s.last()) =~= s);
    }
}

/// Filtering keeps the length only when every item passes the test.
pub proof fn lemma_filter_full_length<A>(s: Seq<A>, p: spec_fn(A) -> bool)
    requires
        s.filter(p).len() == s.len(),
    ensures
        s.filter(p) == s,
        forall|i: int| 0 <= i < s.len() ==> p(#[trigger] s[i]),
    decreases s.len(),
{
    reveal(Seq::filter);
    if s.len() > 0 {
        let rest = s.drop_last();
        rest.lemma_filter_len(p);
        lemma_filter_full_length(rest, p);
        assert forall|i: int| 0 <= i < s.len() implies p(#[trigger] s[i]) by {
            if i < rest.len() {
                assert(rest[i] == s[i]);
            }
        }
        lemma_filter_all(s, p);
    }
}

/// Two tests that agree on the items of a sequence filter it alike.
pub proof fn lemma_filter_agree<A>(s: Seq<A>, p: spec_fn(A) -> bool, q: spec_fn(A) -> bool)
    requires
        forall|i: int| 0 <= i < s.len() ==> p(#[trigger] s[i]) == q(s[i]),
    ensures
        s.filter(p) == s.filter(q),
    decreases s.len(),
{
    reveal(Seq::filter);
    if s.len() > 0 {
        let rest = s.drop_last();
        assert forall|i: int| 0 <= i < rest.len() implies p(#[trigger] rest[i]) == q(rest[i]) by {
            assert(rest[i] == s[i]);
        }
        lemma_filter_agree(rest, p, q);
        assert(p(s[s.len() - 1]) == q(s[s.len() - 1]));
    }
}

/// Two sequences of one length whose items pass their tests at the same
/// places have the same positions.
pub proof fn lemma_positions_agree<A, B>(
    s: Seq<A>,
    p: spec_fn(A) -> bool,
    t: Seq<B>,
    q: spec_fn(B) -> bool,
)
    requires
        s.len() == t.len(),
        forall|i: int| 0 <= i < s.len() ==> p(#[trigger] s[i]) == q(t[i]),
    ensures
        positions(s, p) == positions(t, q),
    decreases s.len(),
{
    if s.len() > 0 {
        let s_rest = s.drop_last();
        let t_rest = t.drop_last();
        assert forall|i: int| 0 <= i < s_rest.len() implies p(#[trigger] s_rest[i]) == q(
            t_rest[i],
        ) by {
            assert(s_rest[i] == s[i]);
            assert(t_rest[i] == t[i]);
        }
        lemma_positions_agree(s_rest, p, t_rest, q);
        assert(p(s[s.len() - 1]) == q(t[t.len() - 1]));
    }
}

/// Filtering by a narrower test can be done in two steps: the positions in
/// `s` of the items that pass `q` are the positions in `s` of those items of
/// `s.filter(p)` that pass `q`.
pub proof fn lemma_positions_compose<A>(s: Seq<A>, p: spec_fn(A) -> bool, q: spec_fn(A) -> bool)
    requires
        forall|i: int| 0 <= i < s.len() && q(#[trigger] s[i]) ==> p(s[i]),
    ensures
        s.filter(q) == s.filter(p).filter(q),
        positions(s, q).len() == positions(s.filter(p), q).len(),
        forall|m: int|
            0 <= m < positions(s, q).len() ==> 0 <= positions(s.filter(p), q)[m] < positions(
                s,
                p,
            ).len() && (#[trigger] positions(s, q)[m]) == positions(s, p)[positions(
                s.filter(p),
                q,
            )[m]],
    decreases s.len(),
{
    reveal(Seq::filter);
    if s.len() > 0 {
        let rest = s.drop_last();
        let x = s.last();
        assert forall|i: int| 0 <= i < rest.len() && q(#[trigger] rest[i]) implies p(rest[i]) by {
            assert(rest[i] == s[i]);
        }
        lemma_positions_compose(rest, p, q);
        lemma_positions(rest, p);
        lemma_positions(s, p);
        lemma_positions(rest.filter(p), q);
        lemma_positions(s.filter(p), q);
        let inner = rest.filter(p);
        if p(x) {
            assert(s.filter(p) == inner.push(x));
            assert(inner.push(x).drop_last() =~= inner);
            assert(positions(s, p) == positions(rest, p).push(s.len() - 1));
            if q(x) {
                assert(positions(inner.push(x), q) == positions(inner, q).push(inner.len() as int));
            } else {
                assert(positions(inner.push(x), q) == positions(inner, q));
            }
        } else {
            assert(q(s[s.len() - 1]) ==> p(s[s.len() - 1]));
        }
    } else {
        assert(s.filter(p) =~= s);
    }
}

} // verus!
