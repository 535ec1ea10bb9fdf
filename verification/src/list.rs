//! The list type itself: construction, access, traversal.

use std::rc::Rc;
use vstd::pervasive::cloned;
use vstd::pervasive::unreached;
use vstd::prelude::*;

verus! {

/// A handle onto an immutable, reference-counted list node. Duplicating the
/// handle (via `Clone`) shares the node; it never copies the elements.
///
/// The view of a list is the sequence of its elements from head to tail.
/// Hashing a list hashes the elements in that order, so lists with equal
/// contents hash alike.
#[derive(Debug, Hash)]
pub struct List<A> {
    rc: Rc<Node<A>>,
}

/// The storage unit behind a handle: an element plus the rest of the list,
/// or the empty terminator.
#[derive(Debug, Hash)]
enum Node<A> {
    Cons(A, List<A>),
    Nil,
}

impl<A> View for List<A> {
    type V = Seq<A>;

    closed spec fn view(&self) -> Seq<A>
        decreases self,
    {
        match *self.rc {
            Node::Cons(h, t) => seq![h] + t.view(),
            Node::Nil => Seq::empty(),
        }
    }
}

/// How a list's view relates to the node behind its handle: one step of
/// the view's recursion, for use at a match on that node.
proof fn lemma_view_unfold<A>(l: &List<A>)
    ensures
        *l.rc is Cons ==> l@ == seq![l.rc->Cons_0] + l.rc->Cons_1@,
        *l.rc is Nil ==> l@ == Seq::<A>::empty(),
{
}

impl<A> List<A> {
    /// The empty list.
    pub fn nil() -> (l: List<A>)
        ensures
            l@ == Seq::<A>::empty(),
    {
        List { rc: Rc::new(Node::Nil) }
    }

    /// A list whose first element is `head` and whose remainder is `tail`.
    /// The new list shares `tail`'s nodes; nothing is copied.
    pub fn cons(head: A, tail: List<A>) -> (l: List<A>)
        ensures
            l@ == seq![head] + tail@,
    {
        List { rc: Rc::new(Node::Cons(head, tail)) }
    }

    /// The first element. Must not be called on the empty list.
    pub fn head(&self) -> (h: &A)
        requires
            self@.len() > 0,
        ensures
            *h == self@[0],
    {
        proof {
            lemma_view_unfold(self);
        }
        match &*self.rc {
            Node::Cons(h, _) => h,
            Node::Nil => unreached(),
        }
    }

    /// The list after the first element, sharing its nodes with this one.
    /// Must not be called on the empty list.
    pub fn tail(&self) -> (t: List<A>)
        requires
            self@.len() > 0,
        ensures
            t@ == self@.drop_first(),
    {
        match &*self.rc {
            Node::Cons(_, t) => {
                proof {
                    assert(t@ =~= self@.drop_first());
                }
                t.clone()
            },
            Node::Nil => unreached(),
        }
    }

    /// The first element, or `None` on the empty list.
    pub fn head_opt(&self) -> (r: Option<&A>)
        ensures
            self@.len() == 0 ==> r is None,
            self@.len() > 0 ==> (r matches Some(h) && *h == self@[0]),
    {
        proof {
            lemma_view_unfold(self);
        }
        match &*self.rc {
            Node::Cons(h, _) => Some(h),
            Node::Nil => None,
        }
    }

    /// The list after the first element, or `None` on the empty list.
    pub fn tail_opt(&self) -> (r: Option<List<A>>)
        ensures
            self@.len() == 0 ==> r is None,
            self@.len() > 0 ==> (r matches Some(t) && t@ == self@.drop_first()),
    {
        match &*self.rc {
            Node::Cons(_, t) => {
                proof {
                    assert(t@ =~= self@.drop_first());
                }
                Some(t.clone())
            },
            Node::Nil => None,
        }
    }

    /// Whether the list is empty.
    pub fn is_empty(&self) -> (r: bool)
        ensures
            r == (self@.len() == 0),
    {
        proof {
            lemma_view_unfold(self);
        }
        match &*self.rc {
            Node::Cons(_, _) => false,
            Node::Nil => true,
        }
    }

    /// The number of elements, counted by a full traversal.
    pub fn len(&self) -> (n: usize)
        requires
            self@.len() <= usize::MAX,
        ensures
            n == self@.len(),
    {
        let mut cur: &List<A> = self;
        let mut n: usize = 0;
        loop
            invariant
                n + cur@.len() == self@.len(),
                self@.len() <= usize::MAX,
            decreases cur@.len(),
        {
            match &*cur.rc {
                Node::Cons(_, t) => {
                    proof {
                        assert(cur@ == seq![cur@[0]] + t@);
                    }
                    cur = t;
                    n = n + 1;
                },
                Node::Nil => {
                    return n;
                },
            }
        }
    }

    /// A fresh traversal of the list from head to tail. The handle itself
    /// is untouched; calling `iter` again restarts from the head.
    pub fn iter(&self) -> (it: Iter<'_, A>)
        ensures
            it@ == self@,
    {
        Iter { list: self }
    }

    /// A list holding exactly the elements of `v`, in the same order.
    /// The elements are prepended back to front, so the last element of
    /// `v` sits in the innermost node.
    pub fn from_vec(v: Vec<A>) -> (l: List<A>)
        ensures
            l@ == v@,
    {
        let mut rest = v;
        let mut l = List::nil();
        proof {
            assert(rest@ + l@ =~= v@);
        }
        loop
            invariant
                rest@ + l@ == v@,
            decreases rest@.len(),
        {
            match rest.pop() {
                Some(x) => {
                    l = List::cons(x, l);
                    proof {
                        assert(rest@ + l@ =~= v@);
                    }
                },
                None => {
                    proof {
                        assert(l@ =~= v@);
                    }
                    return l;
                },
            }
        }
    }
}

impl<A: Clone> List<A> {
    /// A new list holding this list's elements in reverse order. Each
    /// element is duplicated with `Clone` into a fresh node; the original
    /// list is untouched and shares nothing with the result.
    pub fn rev(&self) -> (r: List<A>)
        ensures
            r@.len() == self@.len(),
            forall|i: int|
                0 <= i < self@.len() ==> cloned::<A>(self@[self@.len() - 1 - i], r@[i]),
            clone_is_exact::<A>() ==> r@ == self@.reverse(),
    {
        let mut cur: &List<A> = self;
        let mut r = List::nil();
        proof {
            assert(cur@ =~= self@.subrange(r@.len() as int, self@.len() as int));
        }
        loop
            invariant
                r@.len() <= self@.len(),
                cur@ == self@.subrange(r@.len() as int, self@.len() as int),
                forall|i: int|
                    0 <= i < r@.len() ==> cloned::<A>(self@[r@.len() - 1 - i], r@[i]),
            decreases cur@.len(),
        {
            proof {
                lemma_view_unfold(cur);
            }
            match &*cur.rc {
                Node::Cons(h, t) => {
                    let ghost k = r@.len() as int;
                    let c = h.clone();
                    proof {
                        assert(cur@[0] == self@[k]);
                        assert(forall|i: int| 0 <= i < t@.len() ==> t@[i] == cur@[i + 1]);
                        assert(t@ =~= self@.subrange(k + 1, self@.len() as int));
                    }
                    r = List::cons(c, r);
                    cur = t;
                    proof {
                        assert(forall|i: int|
                            0 <= i < r@.len() ==> cloned::<A>(
                                self@[r@.len() - 1 - i],
                                #[trigger] r@[i],
                            ));
                    }
                },
                Node::Nil => {
                    proof {
                        assert(r@.len() == self@.len());
                        if clone_is_exact::<A>() {
                            assert(r@ =~= self@.reverse());
                        }
                    }
                    return r;
                },
            }
        }
    }
}

impl<A> Clone for List<A> {
    /// A new handle onto the very same nodes: the contents are identical
    /// and nothing is traversed or copied.
    fn clone(&self) -> (l: Self)
        ensures
            l@ == self@,
    {
        List { rc: self.rc.clone() }
    }
}

impl<A> Default for List<A> {
    /// The default list is the empty list.
    fn default() -> (l: Self)
        ensures
            l@ == Seq::<A>::empty(),
    {
        List::nil()
    }
}

/// A traversal of a list, yielding references to the elements from head to
/// tail. Its view is the sequence of elements not yet yielded.
pub struct Iter<'a, A> {
    list: &'a List<A>,
}

impl<'a, A> View for Iter<'a, A> {
    type V = Seq<A>;

    closed spec fn view(&self) -> Seq<A> {
        self.list.view()
    }
}

impl<'a, A> Iter<'a, A> {
    /// The next element, or `None` once the traversal is done.
    pub fn next(&mut self) -> (r: Option<&'a A>)
        ensures
            old(self)@.len() == 0 ==> r is None && final(self)@ == old(self)@,
            old(self)@.len() > 0 ==> final(self)@ == old(self)@.drop_first() && (r
                matches Some(h) && *h == old(self)@[0]),
    {
        let cur: &'a List<A> = self.list;
        match &*cur.rc {
            Node::Cons(h, t) => {
                proof {
                    assert(t@ =~= cur@.drop_first());
                }
                self.list = t;
                Some(h)
            },
            Node::Nil => None,
        }
    }
}

/// Whether duplicating a value of `A` with `Clone` always yields a value
/// equal to the original, as it does for the integer and character types.
pub open spec fn clone_is_exact<A: Clone>() -> bool {
    forall|a: A, b: A| cloned::<A>(a, b) ==> b == a
}

} // verus!
