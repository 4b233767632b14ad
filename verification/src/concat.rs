//! Sequences built by concatenating one piece per element of another.

use vstd::prelude::*;

verus! {

/// `f(0, s[0]) + f(1, s[1]) + ...`, one piece per element of `s`, in order.
pub open spec fn concat_indexed<A, B>(s: Seq<A>, f: spec_fn(int, A) -> Seq<B>) -> Seq<B>
    decreases s.len(),
{
    if s.len() == 0 {
        Seq::empty()
    } else {
        concat_indexed(s.drop_last(), f) + f(s.len() - 1, s.last())
    }
}

/// Taking one more element adds that element's piece at the end.
pub proof fn lemma_concat_indexed_step<A, B>(s: Seq<A>, f: spec_fn(int, A) -> Seq<B>, i: int)
    requires
        0 <= i < s.len(),
    ensures
        concat_indexed(s.take(i + 1), f) == concat_indexed(s.take(i), f) + f(i, s[i]),
{
    assert(s.take(i + 1).drop_last() =~= s.take(i));
}

/// The pieces of a prefix are never longer than the pieces of the whole.
pub proof fn lemma_concat_indexed_prefix_len<A, B>(s: Seq<A>, f: spec_fn(int, A) -> Seq<B>, i: int)
    requires
        0 <= i <= s.len(),
    ensures
        concat_indexed(s.take(i), f).len() <= concat_indexed(s, f).len(),
    decreases s.len() - i,
{
    if i < s.len() {
        lemma_concat_indexed_step(s, f, i);
        lemma_concat_indexed_prefix_len(s, f, i + 1);
    } else {
        assert(s.take(i) =~= s);
    }
}

/// Adding an element at the end adds its piece, at its place, at the end.
pub proof fn lemma_concat_indexed_push<A, B>(s: Seq<A>, x: A, f: spec_fn(int, A) -> Seq<B>)
    ensures
        concat_indexed(s.push(x), f) == concat_indexed(s, f) + f(s.len() as int, x),
{
    assert(s.push(x).drop_last() =~= s);
}

/// When no piece depends on its place, the pieces of two sequences one
/// after the other are the pieces of each, one after the other.
pub proof fn lemma_concat_indexed_append<A, B>(a: Seq<A>, b: Seq<A>, f: spec_fn(int, A) -> Seq<B>)
    requires
        forall|i: int, x: A| #[trigger] f(i, x) == f(0, x),
    ensures
        concat_indexed(a + b, f) == concat_indexed(a, f) + concat_indexed(b, f),
    decreases b.len(),
{
    if b.len() == 0 {
        assert(a + b =~= a);
        assert(concat_indexed(b, f) =~= Seq::<B>::empty());
        assert(concat_indexed(a, f) + concat_indexed(b, f) =~= concat_indexed(a, f));
    } else {
        let b0 = b.drop_last();
        lemma_concat_indexed_append(a, b0, f);
        assert((a + b).drop_last() =~= a + b0);
        assert((a + b).last() == b.last());
        assert(f((a + b).len() - 1, b.last()) == f(0, b.last()));
        assert(f(b.len() - 1, b.last()) == f(0, b.last()));
        assert(concat_indexed(a + b, f) =~= concat_indexed(a, f) + concat_indexed(b, f));
    }
}

/// The pieces of a one-element sequence are that element's piece at place 0.
pub proof fn lemma_concat_indexed_single<A, B>(x: A, f: spec_fn(int, A) -> Seq<B>)
    ensures
        concat_indexed(seq![x], f) == f(0, x),
{
    assert(seq![x].drop_last() =~= Seq::<A>::empty());
    assert(concat_indexed(Seq::<A>::empty(), f) =~= Seq::<B>::empty());
    assert(concat_indexed(seq![x], f) =~= f(0, x));
}

} // verus!
