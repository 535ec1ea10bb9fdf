//! The laws of the library, stated over the views and spec functions that
//! the operations' contracts use, and proved once and for all.

use crate::list::clone_is_exact;
use crate::list::List;
use crate::order::seq_elems_eq;
use vstd::prelude::*;
use vstd::std_specs::cmp::PartialEqSpec;

verus! {

/// A list whose view is the empty sequence holds no elements, so
/// `is_empty` reports it empty and `len` counts zero.
pub proof fn lemma_nil_is_empty<A>(n: List<A>)
    requires
        n@ == Seq::<A>::empty(),
    ensures
        n@.len() == 0,
{
}

/// What `cons` builds: `cons(x, l)` is non-empty and one element longer
/// than `l`, its first element is `x`, and the rest of its elements are
/// exactly `l`'s — so `head` on it returns `x` and `tail` on it returns a
/// list with `l`'s contents.
pub proof fn lemma_cons_shape<A>(x: A, l: List<A>, c: List<A>)
    requires
        c@ == seq![x] + l@,
    ensures
        c@.len() == 1 + l@.len(),
        c@[0] == x,
        c@.drop_first() == l@,
{
    assert(c@.drop_first() =~= l@);
}

/// The optional accessors agree with the strict ones: on the empty list
/// `head_opt` and `tail_opt` both yield `None`; on a non-empty list they
/// yield `Some` of exactly the element that `head` returns and a list
/// with exactly the contents of the one `tail` returns.
pub proof fn lemma_opt_accessors_agree<A>(
    l: List<A>,
    ho: Option<&A>,
    to: Option<List<A>>,
    h: &A,
    t: List<A>,
)
    requires
        call_ensures(List::<A>::head_opt, (&l,), ho),
        call_ensures(List::<A>::tail_opt, (&l,), to),
        l@.len() > 0 ==> call_ensures(List::<A>::head, (&l,), h),
        l@.len() > 0 ==> call_ensures(List::<A>::tail, (&l,), t),
    ensures
        l@.len() == 0 ==> ho is None && to is None,
        l@.len() > 0 ==> ho == Some(h),
        l@.len() > 0 ==> (to matches Some(tl) && tl@ == t@),
{
}

/// Round trip: a list built from a vector holds exactly the vector's
/// elements, in the vector's order. A traversal of that list therefore
/// yields the vector's elements in order: its view starts as the list's
/// element sequence, and by `Iter::next`'s contract each step yields the
/// first remaining element.
pub proof fn lemma_from_vec_round_trip<A>(v: Vec<A>, l: List<A>)
    requires
        call_ensures(List::<A>::from_vec, (v,), l),
    ensures
        l@.len() == v@.len(),
        forall|i: int| 0 <= i < v@.len() ==> l@[i] == v@[i],
{
}

/// Reversing the empty list yields the empty list, whatever the element
/// type's `Clone` does.
pub proof fn lemma_rev_nil<A: Clone>(n: List<A>, r: List<A>)
    requires
        n@.len() == 0,
        call_ensures(List::<A>::rev, (&n,), r),
    ensures
        r@.len() == 0,
{
}

/// Reversal is an involution: for an element type whose `Clone` returns
/// its argument, reversing a list twice gives back a list with exactly
/// the original contents.
pub proof fn lemma_rev_involution<A: Clone>(l: List<A>, r: List<A>, rr: List<A>)
    requires
        clone_is_exact::<A>(),
        call_ensures(List::<A>::rev, (&l,), r),
        call_ensures(List::<A>::rev, (&r,), rr),
    ensures
        rr@ == l@,
{
    assert(rr@ =~= l@);
}

/// List equality is reflexive, for element types whose equality is plain
/// value equality.
pub proof fn lemma_eq_reflexive<A: PartialEq>(a: List<A>)
    requires
        vstd::laws_eq::obeys_concrete_eq::<A>(),
    ensures
        a.eq_spec(&a),
{
    reveal(vstd::laws_eq::obeys_concrete_eq);
    assert forall|i: int| 0 <= i < a@.len() implies #[trigger] a@[i].eq_spec(&a@[i]) by {}
    assert(seq_elems_eq(a@, a@));
}

/// List equality is symmetric whenever the element type's equality is.
pub proof fn lemma_eq_symmetric<A: PartialEq>(a: List<A>, b: List<A>)
    requires
        vstd::laws_eq::obeys_eq::<A>(),
    ensures
        a.eq_spec(&b) == b.eq_spec(&a),
{
    reveal(vstd::laws_eq::obeys_eq_spec_properties);
    if seq_elems_eq(a@, b@) {
        assert forall|i: int| 0 <= i < b@.len() implies #[trigger] b@[i].eq_spec(&a@[i]) by {
            assert(a@[i].eq_spec(&b@[i]));
        }
        assert(seq_elems_eq(b@, a@));
    }
    if seq_elems_eq(b@, a@) {
        assert forall|i: int| 0 <= i < a@.len() implies #[trigger] a@[i].eq_spec(&b@[i]) by {
            assert(b@[i].eq_spec(&a@[i]));
        }
        assert(seq_elems_eq(a@, b@));
    }
}

/// List equality is transitive whenever the element type's equality is.
pub proof fn lemma_eq_transitive<A: PartialEq>(a: List<A>, b: List<A>, c: List<A>)
    requires
        vstd::laws_eq::obeys_eq::<A>(),
        a.eq_spec(&b),
        b.eq_spec(&c),
    ensures
        a.eq_spec(&c),
{
    reveal(vstd::laws_eq::obeys_eq_spec_properties);
    assert forall|i: int| 0 <= i < a@.len() implies #[trigger] a@[i].eq_spec(&c@[i]) by {
        assert(a@[i].eq_spec(&b@[i]));
        assert(b@[i].eq_spec(&c@[i]));
    }
    assert(seq_elems_eq(a@, c@));
}

} // verus!
