//! Forward traversal over a list, read-only and mutable. Both views are lazy,
//! single-pass and non-restartable; an exhausted cursor stays exhausted.
use vstd::prelude::*;

use crate::{List, Node, PointerFamily};

verus! {

/// A read-only cursor over a list: the node still to visit, if any.
pub struct Iter<'b, 'a, T, P: PointerFamily> {
    pub(crate) next: Option<&'b Node<'a, T, P>>,
}

impl<'b, 'a, T, P: PointerFamily> Iter<'b, 'a, T, P> {
    /// The elements not yet yielded, in the order they will come.
    pub closed spec fn remaining(self) -> Seq<T> {
        match self.next {
            None => Seq::empty(),
            Some(n) => n.chain(),
        }
    }

    /// The cursor stands on a well-formed chain.
    pub closed spec fn wf(self) -> bool {
        match self.next {
            None => true,
            Some(n) => n.wf(),
        }
    }

    /// Yields a reference to the next element and advances, or reports
    /// exhaustion; once exhausted, every later call reports the same.
    pub fn next(&mut self) -> (r: Option<&'b T>)
        requires
            old(self).wf(),
        ensures
            final(self).wf(),
            r is None <==> old(self).remaining().len() == 0,
            match r {
                None => final(self).remaining() == old(self).remaining(),
                Some(e) => {
                    &&& *e == old(self).remaining()[0]
                    &&& final(self).remaining() == old(self).remaining().drop_first()
                },
            },
    {
        match self.next {
            None => None,
            Some(node) => {
                proof {
                    node.lemma_chain_first();
                }
                self.next = match &node.next {
                    None => None,
                    Some(h) => Some(h.node_ref()),
                };
                Some(&node.elem)
            },
        }
    }
}

/// A mutable cursor over a list: the node still to visit, if any, held
/// exclusively. Elements are handed out one at a time; the cursor gives up its
/// node before yielding, so no two live references overlap. The cursor stands
/// open so that contracts can speak of what the chain beyond it will finally
/// hold; taking it out of the iterator merely ends the traversal early.
pub struct IterMut<'b, 'a, T, P: PointerFamily> {
    pub next: Option<&'b mut Node<'a, T, P>>,
}

impl<'b, 'a, T, P: PointerFamily> IterMut<'b, 'a, T, P> {
    /// The elements not yet yielded, as they stand now, in the order they
    /// will come.
    pub open spec fn remaining(self) -> Seq<T> {
        match self.next {
            None => Seq::empty(),
            Some(n) => n.chain(),
        }
    }

    /// The cursor stands on a well-formed chain.
    pub open spec fn wf(self) -> bool {
        match self.next {
            None => true,
            Some(n) => n.wf(),
        }
    }

    /// Yields exclusive access to the next element and advances, or reports
    /// exhaustion; once exhausted, every later call reports the same. The
    /// chain the cursor stood on finally holds the final value of the yielded
    /// reference followed by whatever the advanced cursor's writes leave
    /// behind, as long as those writes keep the links, which in turn the
    /// advanced cursor guarantees of its own writes.
    pub fn next(&mut self) -> (r: Option<&'b mut T>)
        requires
            old(self).wf(),
        ensures
            final(self).wf(),
            r is None <==> old(self).remaining().len() == 0,
            match r {
                None => {
                    &&& old(self).next is None
                    &&& final(self).next is None
                },
                Some(e) => {
                    &&& *e == old(self).remaining()[0]
                    &&& final(self).remaining() == old(self).remaining().drop_first()
                    &&& old(self).next is Some
                    &&& match (old(self).next, final(self).next) {
                        (Some(n0), Some(n1)) => (*n1).keeps_links(*final(n1)) ==> {
                            &&& (*n0).keeps_links(*final(n0))
                            &&& final(n0).chain() == seq![*final(e)] + final(n1).chain()
                        },
                        (Some(n0), None) => {
                            &&& (*n0).keeps_links(*final(n0))
                            &&& final(n0).chain() == seq![*final(e)]
                        },
                        _ => false,
                    }
                },
            },
    {
        match self.next.take() {
            None => None,
            Some(node) => {
                proof {
                    node.lemma_chain_unfold();
                }
                self.next = match &mut node.next {
                    None => None,
                    Some(h) => Some(h.node_mut()),
                };
                Some(&mut node.elem)
            },
        }
    }
}

impl<'a, T, P: PointerFamily> List<'a, T, P> {
    /// A read-only forward traversal of the elements, head first. It borrows
    /// the list for its whole lifetime, so the list cannot change meanwhile.
    pub fn iter<'b>(&'b self) -> (it: Iter<'b, 'a, T, P>)
        requires
            self.wf(),
        ensures
            it.wf(),
            it.remaining() == self@,
    {
        Iter {
            next: match &self.head {
                None => None,
                Some(h) => Some(h.node_ref()),
            },
        }
    }

    /// A mutable forward traversal of the elements, head first. It borrows
    /// the list exclusively for its whole lifetime; the list finally holds
    /// exactly what the traversal's writes leave behind, and stays well
    /// formed as long as those writes keep the links, which the cursor
    /// guarantees of its own writes.
    pub fn iter_mut<'b>(&'b mut self) -> (it: IterMut<'b, 'a, T, P>)
        requires
            old(self).wf(),
        ensures
            it.wf(),
            it.remaining() == old(self)@,
            match it.next {
                None => {
                    &&& old(self)@.len() == 0
                    &&& final(self)@ == old(self)@
                    &&& final(self).wf()
                },
                Some(n) => {
                    &&& final(self)@ == final(n).chain()
                    &&& ((*n).keeps_links(*final(n)) ==> final(self).wf())
                },
            },
    {
        IterMut {
            next: match &mut self.head {
                None => None,
                Some(h) => Some(h.node_mut()),
            },
        }
    }
}

} // verus!
