//! Equality and ordering of lists, elementwise over the node chain.
//!
//! Two lists are equal when they have the same length and equal elements
//! at every position; lists are ordered lexicographically by their
//! head-to-tail element sequence, a strict prefix ranking first.

use crate::list::List;
use core::cmp::Ordering;
use vstd::prelude::*;
use vstd::std_specs::cmp::OrdSpec;
use vstd::std_specs::cmp::PartialEqSpec;
use vstd::std_specs::cmp::PartialOrdSpec;

verus! {

/// Elementwise equality of two sequences under the element type's own
/// equality: same length, and equal elements at every position.
pub open spec fn seq_elems_eq<A: PartialEq>(s: Seq<A>, t: Seq<A>) -> bool {
    &&& s.len() == t.len()
    &&& forall|i: int| 0 <= i < s.len() ==> #[trigger] s[i].eq_spec(&t[i])
}

/// Elementwise equality holds of two non-empty sequences with equal first
/// elements exactly when it holds of their remainders.
proof fn lemma_seq_elems_eq_step<A: PartialEq>(s: Seq<A>, t: Seq<A>)
    requires
        s.len() > 0,
        t.len() > 0,
        s[0].eq_spec(&t[0]),
    ensures
        seq_elems_eq(s, t) == seq_elems_eq(s.drop_first(), t.drop_first()),
{
    let sd = s.drop_first();
    let td = t.drop_first();
    if seq_elems_eq(s, t) {
        assert forall|i: int| 0 <= i < sd.len() implies #[trigger] sd[i].eq_spec(&td[i]) by {
            assert(s[i + 1].eq_spec(&t[i + 1]));
        }
        assert(seq_elems_eq(sd, td));
    }
    if seq_elems_eq(sd, td) {
        assert forall|i: int| 0 <= i < s.len() implies #[trigger] s[i].eq_spec(&t[i]) by {
            if i > 0 {
                assert(sd[i - 1].eq_spec(&td[i - 1]));
            }
        }
        assert(seq_elems_eq(s, t));
    }
}

impl<A: PartialEq> vstd::std_specs::cmp::PartialEqSpecImpl for List<A> {
    open spec fn obeys_eq_spec() -> bool {
        A::obeys_eq_spec()
    }

    open spec fn eq_spec(&self, other: &List<A>) -> bool {
        seq_elems_eq(self@, other@)
    }
}

impl<A: PartialEq> PartialEq for List<A> {
    /// Whether both lists hold equal elements in the same order, compared
    /// pairwise from the heads.
    fn eq(&self, other: &List<A>) -> (r: bool) {
        let mut x = self.clone();
        let mut y = other.clone();
        loop
            invariant
                A::obeys_eq_spec() ==> (seq_elems_eq(self@, other@) <==> seq_elems_eq(
                    x@,
                    y@,
                )),
            decreases x@.len(),
        {
            let xe = x.is_empty();
            let ye = y.is_empty();
            if xe || ye {
                return xe && ye;
            }
            if x.head() == y.head() {
                let xt = x.tail();
                let yt = y.tail();
                proof {
                    if A::obeys_eq_spec() {
                        lemma_seq_elems_eq_step(x@, y@);
                    }
                }
                x = xt;
                y = yt;
            } else {
                proof {
                    if A::obeys_eq_spec() {
                        assert(!x@[0].eq_spec(&y@[0]));
                        assert(!seq_elems_eq(x@, y@));
                    }
                }
                return false;
            }
        }
    }
}

impl<A: Eq> Eq for List<A> {

}

/// Lexicographic comparison of two sequences under the element type's own
/// partial order: the first non-equal pair decides; a strict prefix is
/// less than the longer sequence; `None` as soon as a pair is unordered.
pub open spec fn lex_cmp<A: PartialOrd>(s: Seq<A>, t: Seq<A>) -> Option<Ordering>
    decreases s.len(),
{
    if s.len() == 0 && t.len() == 0 {
        Some(Ordering::Equal)
    } else if s.len() == 0 {
        Some(Ordering::Less)
    } else if t.len() == 0 {
        Some(Ordering::Greater)
    } else {
        match s[0].partial_cmp_spec(&t[0]) {
            Some(Ordering::Equal) => lex_cmp(s.drop_first(), t.drop_first()),
            c => c,
        }
    }
}

impl<A: PartialOrd> vstd::std_specs::cmp::PartialOrdSpecImpl for List<A> {
    open spec fn obeys_partial_cmp_spec() -> bool {
        A::obeys_partial_cmp_spec()
    }

    open spec fn partial_cmp_spec(&self, other: &List<A>) -> Option<Ordering> {
        lex_cmp(self@, other@)
    }
}

impl<A: PartialOrd> PartialOrd for List<A> {
    /// Lexicographic comparison by a pairwise walk from the heads.
    fn partial_cmp(&self, other: &List<A>) -> (r: Option<Ordering>) {
        let mut x = self.clone();
        let mut y = other.clone();
        loop
            invariant
                A::obeys_partial_cmp_spec() ==> lex_cmp(self@, other@) == lex_cmp(x@, y@),
            decreases x@.len(),
        {
            let xe = x.is_empty();
            let ye = y.is_empty();
            if xe && ye {
                return Some(Ordering::Equal);
            }
            if xe {
                return Some(Ordering::Less);
            }
            if ye {
                return Some(Ordering::Greater);
            }
            let c = x.head().partial_cmp(y.head());
            match c {
                Some(Ordering::Equal) => {
                    let xt = x.tail();
                    let yt = y.tail();
                    x = xt;
                    y = yt;
                },
                _ => {
                    return c;
                },
            }
        }
    }
}

/// Total lexicographic comparison of two sequences under the element
/// type's own total order.
pub open spec fn lex_cmp_total<A: Ord>(s: Seq<A>, t: Seq<A>) -> Ordering
    decreases s.len(),
{
    if s.len() == 0 && t.len() == 0 {
        Ordering::Equal
    } else if s.len() == 0 {
        Ordering::Less
    } else if t.len() == 0 {
        Ordering::Greater
    } else {
        match s[0].cmp_spec(&t[0]) {
            Ordering::Equal => lex_cmp_total(s.drop_first(), t.drop_first()),
            c => c,
        }
    }
}

impl<A: Ord> List<A> {
    /// Total lexicographic comparison, for element types with a total
    /// order. Equal-length elementwise-equal lists compare `Equal`; a
    /// strict prefix is `Less`; otherwise the first differing pair of
    /// elements decides.
    pub fn cmp_with(&self, other: &List<A>) -> (r: Ordering)
        ensures
            A::obeys_cmp_spec() ==> r == lex_cmp_total(self@, other@),
    {
        let mut x = self.clone();
        let mut y = other.clone();
        loop
            invariant
                A::obeys_cmp_spec() ==> lex_cmp_total(self@, other@) == lex_cmp_total(x@, y@),
            decreases x@.len(),
        {
            let xe = x.is_empty();
            let ye = y.is_empty();
            if xe && ye {
                return Ordering::Equal;
            }
            if xe {
                return Ordering::Less;
            }
            if ye {
                return Ordering::Greater;
            }
            let c = x.head().cmp(y.head());
            match c {
                Ordering::Equal => {
                    let xt = x.tail();
                    let yt = y.tail();
                    x = xt;
                    y = yt;
                },
                _ => {
                    return c;
                },
            }
        }
    }
}

} // verus!
