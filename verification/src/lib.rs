//! A singly-linked list whose node storage strategy is pluggable: nodes may
//! live on the caller's stack, the list holding only a mutable borrow of each
//! (`RefFamily`), or on the heap, each node owned by its predecessor
//! (`BoxFamily`). The list and node logic is the same for both strategies; a
//! chain never mixes strategies, which the well-formedness invariant states.
use vstd::prelude::*;

pub mod iter;
pub mod laws;

verus! {

/// An ownership strategy for the links of a list. The strategy is chosen per
/// list instantiation; `heap_owned` tells which of the two handle shapes every
/// link of such a list must carry.
pub trait PointerFamily: Sized {
    spec fn heap_owned() -> bool;
}

/// Strategy whose handles are mutable borrows of caller-owned nodes. The list
/// performs no allocation; each node must outlive its membership in the list.
pub struct RefFamily;

impl PointerFamily for RefFamily {
    open spec fn heap_owned() -> bool {
        false
    }
}

/// Strategy whose handles own their node on the heap; a node is freed when the
/// handle that owns it is dropped.
pub struct BoxFamily;

impl PointerFamily for BoxFamily {
    open spec fn heap_owned() -> bool {
        true
    }
}

/// The indirection a list stores to reach a node: either a mutable borrow of a
/// node that lives elsewhere, or heap storage owned by the handle itself.
pub enum Handle<'a, T, P: PointerFamily> {
    Stack(&'a mut Node<'a, T, P>),
    Heap(Box<Node<'a, T, P>>),
}

/// One element together with an optional link to the next node. The link slot
/// is managed exclusively by `List`; external code reaches only the element.
pub struct Node<'a, T, P: PointerFamily> {
    pub(crate) elem: T,
    pub(crate) depth: Ghost<nat>,
    pub(crate) next: Option<Handle<'a, T, P>>,
}

/// A singly-linked list: an optional handle to the first node. The chain from
/// `head` through the `next` links is finite and ends in `None`.
pub struct List<'a, T, P: PointerFamily> {
    pub(crate) head: Option<Handle<'a, T, P>>,
}

impl<'a, T, P: PointerFamily> Handle<'a, T, P> {
    /// The node this handle reaches, whichever shape the handle has.
    pub(crate) closed spec fn node(self) -> Node<'a, T, P> {
        match self {
            Handle::Stack(n) => *n,
            Handle::Heap(b) => *b,
        }
    }

    /// The handle's shape agrees with the strategy `P`: a chain never mixes
    /// borrowed and owned links.
    pub open spec fn matches_family(self) -> bool {
        match self {
            Handle::Stack(_) => !P::heap_owned(),
            Handle::Heap(_) => P::heap_owned(),
        }
    }

    /// The node reached by this handle carries no outgoing link.
    pub closed spec fn detached(self) -> bool {
        self.node().next is None
    }

    /// The handle reaches a well-formed chain of its own strategy.
    pub closed spec fn wf(self) -> bool {
        self.matches_family() && self.node().wf()
    }

    /// Wraps a caller-owned node in a borrowed handle, for a list of the
    /// stack-borrow strategy. The node must carry no link yet.
    pub fn stack(node: &'a mut Node<'a, T, P>) -> (h: Self)
        requires
            !P::heap_owned(),
            node.detached(),
        ensures
            h.wf(),
            h.matches_family(),
            h.detached(),
            h@ == seq![old(node)@],
    {
        Handle::Stack(node)
    }

    /// Moves a node into fresh heap storage owned by the handle, for a list of
    /// the heap-owned strategy. The node must carry no link yet.
    pub fn heap(node: Node<'a, T, P>) -> (h: Self)
        requires
            P::heap_owned(),
            node.detached(),
        ensures
            h.wf(),
            h.matches_family(),
            h.detached(),
            h@ == seq![node@],
    {
        Handle::Heap(Box::new(node))
    }

    /// Read access to the element of the node this handle reaches.
    pub fn elem(&self) -> (r: &T)
        ensures
            *r == self@[0],
    {
        proof {
            self.node().lemma_chain_first();
        }
        match self {
            Handle::Stack(n) => &n.elem,
            Handle::Heap(b) => &b.elem,
        }
    }

    /// Shared access to the node, whichever shape the handle has.
    pub(crate) fn node_ref<'c>(&'c self) -> (r: &'c Node<'a, T, P>)
        ensures
            *r == self.node(),
    {
        match self {
            Handle::Stack(n) => &**n,
            Handle::Heap(b) => &**b,
        }
    }

    /// Exclusive access to the node, whichever shape the handle has. The
    /// handle keeps its shape; its node ends up as whatever is written through
    /// the borrow.
    pub(crate) fn node_mut<'c>(&'c mut self) -> (r: &'c mut Node<'a, T, P>)
        ensures
            *r == old(self).node(),
            final(self).node() == *final(r),
            final(self).matches_family() == old(self).matches_family(),
    {
        match self {
            Handle::Stack(n) => &mut **n,
            Handle::Heap(b) => &mut **b,
        }
    }
}

impl<'a, T, P: PointerFamily> View for Handle<'a, T, P> {
    type V = Seq<T>;

    /// The elements of the chain that starts at this handle's node.
    closed spec fn view(&self) -> Seq<T> {
        self.node().chain()
    }
}

impl<'a, T, P: PointerFamily> Node<'a, T, P> {
    /// The position of this node in the descending measure that bounds every
    /// chain; a node's link only ever reaches nodes of smaller measure.
    pub closed spec fn depth_of(self) -> nat {
        self.depth@
    }

    /// What a traversal's writes leave alone when they turn this node into
    /// `fin`: the links and the measure, so only the elements may differ.
    pub open spec fn keeps_links(self, fin: Self) -> bool {
        fin.wf() && fin.depth_of() == self.depth_of()
    }

    /// The chain from this node onward is well formed: the links carry the
    /// strategy `P`, and the ghost depths strictly descend, so the chain is
    /// finite and acyclic.
    pub closed spec fn wf(self) -> bool
        decreases self.depth_of(),
    {
        match self.next {
            None => true,
            Some(h) => h.matches_family() && h.node().depth@ < self.depth@ && h.node().wf(),
        }
    }

    /// The elements of the chain from this node to its last node, in link
    /// order. The descent is bounded by the ghost depth, which well-formed
    /// chains strictly decrease along.
    pub closed spec fn chain(self) -> Seq<T>
        decreases self.depth_of(),
    {
        match self.next {
            None => seq![self.elem],
            Some(h) => if h.node().depth@ < self.depth@ {
                seq![self.elem] + h.node().chain()
            } else {
                seq![self.elem]
            },
        }
    }

    /// A chain always holds at least its own node's element, first.
    pub(crate) proof fn lemma_chain_first(self)
        ensures
            self.chain().len() >= 1,
            self.chain()[0] == self.elem,
    {
    }

    /// One step of the chain: a well-formed node's chain is its element
    /// followed by the chain of the node its link reaches, which is well
    /// formed in turn.
    pub(crate) proof fn lemma_chain_unfold(self)
        requires
            self.wf(),
        ensures
            match self.next {
                None => self.chain() == seq![self.elem],
                Some(h) => {
                    &&& self.chain() == seq![self.elem] + h.node().chain()
                    &&& h.node().wf()
                    &&& h.matches_family()
                },
            },
    {
    }

    /// The node carries no outgoing link.
    pub closed spec fn detached(self) -> bool {
        self.next is None
    }

    /// Wraps an element in a fresh node; the link starts empty.
    pub fn new(elem: T) -> (n: Self)
        ensures
            n@ == elem,
            n.detached(),
    {
        Node { elem, depth: Ghost(0nat), next: None }
    }

    /// Read access to the element this node wraps.
    pub fn elem(&self) -> (r: &T)
        ensures
            *r == self@,
    {
        &self.elem
    }

    /// Write access to the element this node wraps; the node's link is not
    /// touched.
    pub fn elem_mut(&mut self) -> (r: &mut T)
        ensures
            *r == old(self)@,
            final(self)@ == *final(r),
            final(self).detached() == old(self).detached(),
    {
        &mut self.elem
    }

    /// Consumes the node and returns its element; whatever chain was still
    /// attached is discarded per the active strategy.
    pub fn into_inner(self) -> (r: T)
        ensures
            r == self@,
    {
        self.elem
    }
}

impl<'a, T, P: PointerFamily> View for Node<'a, T, P> {
    type V = T;

    /// The element this node wraps.
    closed spec fn view(&self) -> T {
        self.elem
    }
}

impl<'a, T, P: PointerFamily> List<'a, T, P> {
    /// Every link of the list carries the strategy `P` and the chain from the
    /// head is finite and acyclic.
    pub closed spec fn wf(self) -> bool {
        match self.head {
            None => true,
            Some(h) => h.wf(),
        }
    }

    /// Creates an empty list.
    pub fn new() -> (l: Self)
        ensures
            l.wf(),
            l@ == Seq::<T>::empty(),
    {
        List { head: None }
    }

    /// Reports whether the list holds no elements; exactly then will the next
    /// `pop` return nothing.
    pub fn is_empty(&self) -> (r: bool)
        ensures
            r == (self@.len() == 0),
    {
        proof {
            if let Some(h) = &self.head {
                h.node().lemma_chain_first();
            }
        }
        self.head.is_none()
    }

    /// Prepends the node the handle reaches. Whatever link that node carried
    /// before is silently overwritten, so the previous head chain becomes the
    /// pushed node's tail.
    pub fn push(&mut self, node: Handle<'a, T, P>)
        requires
            old(self).wf(),
            node.matches_family(),
        ensures
            final(self).wf(),
            final(self)@ == seq![node@[0]] + old(self)@,
    {
        proof {
            node.node().lemma_chain_first();
        }
        let old_head = self.head.take();
        let ghost d: nat = match &old_head {
            None => 0nat,
            Some(h) => h.node().depth@ + 1,
        };
        let mut node = node;
        match &mut node {
            Handle::Stack(n) => {
                n.next = old_head;
                n.depth = Ghost(d);
            },
            Handle::Heap(b) => {
                b.next = old_head;
                b.depth = Ghost(d);
            },
        }
        self.head = Some(node);
    }

    /// Removes and returns the head node's handle, or nothing when the list is
    /// empty. The returned node is fully detached: its own link slot is empty
    /// and the rest of the chain stays with the list.
    pub fn pop(&mut self) -> (r: Option<Handle<'a, T, P>>)
        requires
            old(self).wf(),
        ensures
            final(self).wf(),
            r is None <==> old(self)@.len() == 0,
            match r {
                None => final(self)@ == old(self)@,
                Some(h) => {
                    &&& h.wf()
                    &&& h.matches_family()
                    &&& h.detached()
                    &&& h@ == seq![old(self)@[0]]
                    &&& final(self)@ == old(self)@.drop_first()
                },
            },
    {
        match self.head.take() {
            None => None,
            Some(mut h) => {
                match &mut h {
                    Handle::Stack(n) => {
                        self.head = n.next.take();
                    },
                    Handle::Heap(b) => {
                        self.head = b.next.take();
                    },
                }
                Some(h)
            },
        }
    }

    /// Releases every node still linked in, one at a time, front to back. The
    /// loop unlinks each node before letting it go, so releasing a long chain
    /// never descends one call per node the way a cascading release of the
    /// whole chain would.
    pub fn clear(&mut self)
        requires
            old(self).wf(),
        ensures
            final(self).wf(),
            final(self)@.len() == 0,
    {
        while !self.is_empty()
            invariant
                self.wf(),
            decreases self@.len(),
        {
            let _ = self.pop();
        }
    }
}

impl<'a, T, P: PointerFamily> View for List<'a, T, P> {
    type V = Seq<T>;

    /// The elements of the list from head to tail, most recently pushed first.
    closed spec fn view(&self) -> Seq<T> {
        match self.head {
            None => Seq::empty(),
            Some(h) => h.node().chain(),
        }
    }
}

} // verus!
