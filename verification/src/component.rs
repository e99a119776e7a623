//! The component tree: identity, ownership-based tree structure, and
//! depth-first traversal.
//!
//! Components form a strict ownership hierarchy: every node owns its
//! children, there are no shared or back pointers. Traversal is pre-order
//! depth-first; the order of a node's `children` determines both draw order
//! (painter's algorithm) and focus order.

use vstd::prelude::*;

use crate::layout::NodeLayout;
use crate::widgets::Widget;

verus! {

/// A process-unique component identifier. The root always has the reserved
/// value `0`; all other identifiers are handed out by an [`IdAllocator`] and
/// are never reused.
#[derive(Clone, Copy, Debug, PartialEq, Eq, Hash, Structural)]
pub struct ComponentId(pub u64);

impl ComponentId {
    pub fn root() -> (r: ComponentId)
        ensures
            r.0 == 0,
    {
        ComponentId(0)
    }

    /// Draws a fresh identifier. Identifiers are strictly increasing, so no
    /// identifier is ever handed out twice.
    pub fn new(allocator: &mut IdAllocator) -> (r: ComponentId)
        requires
            old(allocator).next < u64::MAX,
        ensures
            r.0 == old(allocator).next,
            final(allocator).next == old(allocator).next + 1,
    {
        allocator.allocate()
    }
}

/// Hands out process-unique component identifiers, starting above the
/// reserved root identifier. An explicit allocator (instead of a global
/// counter) keeps identifier assignment deterministic for tests and allows
/// several independent trees in one process.
#[derive(Clone, Copy, Debug, PartialEq, Eq, Structural)]
pub struct IdAllocator {
    pub next: u64,
}

impl IdAllocator {
    pub fn new() -> (r: IdAllocator)
        ensures
            r.next == 1,
    {
        IdAllocator { next: 1 }
    }

    pub fn allocate(&mut self) -> (r: ComponentId)
        requires
            old(self).next < u64::MAX,
        ensures
            r.0 == old(self).next,
            final(self).next == old(self).next + 1,
    {
        let id = ComponentId(self.next);
        self.next = self.next + 1;
        id
    }
}

/// The path of component identifiers from (but excluding) the root to a
/// focused descendant. The empty path denotes "the root is focused".
#[derive(Clone, Debug, PartialEq)]
pub struct ComponentIdPath(pub Vec<ComponentId>);

impl ComponentIdPath {
    pub fn empty() -> (r: ComponentIdPath)
        ensures
            r.0@ == Seq::<ComponentId>::empty(),
    {
        ComponentIdPath(Vec::new())
    }
}

/// What a handler did with an event: an optional action to enqueue, and
/// whether the event was absorbed (stopping further propagation along the
/// focus path).
#[derive(Clone, Debug, PartialEq)]
pub struct HandleEventSuccess {
    pub action: Option<crate::action::Action>,
    /// `true` if the event should not be offered to further components
    /// along the dispatch path.
    pub absorb: bool,
}

impl HandleEventSuccess {
    /// The event was not handled: no action, no absorption.
    pub fn unhandled() -> (r: HandleEventSuccess)
        ensures
            r.action is None,
            !r.absorb,
    {
        HandleEventSuccess { action: None, absorb: false }
    }

    /// The event was handled and absorbed.
    pub fn handled() -> (r: HandleEventSuccess)
        ensures
            r.action is None,
            r.absorb,
    {
        HandleEventSuccess { action: None, absorb: true }
    }

    /// Attaches an action to the outcome.
    pub fn with_action(self, action: crate::action::Action) -> (r: HandleEventSuccess)
        ensures
            r.action == Some(action),
            r.absorb == self.absorb,
    {
        HandleEventSuccess { action: Some(action), absorb: self.absorb }
    }
}

/// The tri-state result of a pre-order visit: keep walking into the
/// children, skip the whole subtree, or stop the traversal with a value.
#[derive(Clone, Copy, Debug, PartialEq, Eq, Structural)]
pub enum TreeControlFlow {
    Continue,
    SkipChildren,
    Break,
}

/// A node of the component tree: its identity, its widget state, its layout
/// bookkeeping, and its owned children.
#[derive(Debug)]
#[verifier::ext_equal]
pub struct Node {
    pub id: ComponentId,
    pub widget: Widget,
    pub layout: NodeLayout,
    pub children: Vec<Node>,
}

impl Node {
    /// The nodes of this subtree in pre-order: first the node itself, then
    /// each child's subtree, in child order.
    pub open spec fn preorder(self) -> Seq<Node>
        decreases self, self.children.len() + 1,
    {
        seq![self] + Self::preorder_upto(self, self.children.len() as int)
    }

    /// The concatenated pre-orders of the first `i` children.
    pub open spec fn preorder_upto(self, i: int) -> Seq<Node>
        decreases self, i,
    {
        if i <= 0 || i > self.children.len() {
            Seq::empty()
        } else {
            Self::preorder_upto(self, i - 1) + self.children[i - 1].preorder()
        }
    }

    /// The identifier of a node, as a mapping function.
    pub open spec fn id_fn() -> spec_fn(Node) -> u64 {
        |m: Node| m.id.0
    }

    /// Focusability of a node, as a predicate.
    pub open spec fn focus_pred() -> spec_fn(Node) -> bool {
        |m: Node| m.spec_is_focusable()
    }

    /// The identifiers of this subtree in pre-order.
    pub open spec fn preorder_ids(self) -> Seq<u64> {
        self.preorder().map_values(Node::id_fn())
    }

    /// Number of nodes in this subtree.
    pub open spec fn count(self) -> nat {
        self.preorder().len()
    }

    /// Whether this node can take keyboard focus.
    pub open spec fn spec_is_focusable(self) -> bool {
        self.widget.spec_is_focusable()
    }

    pub fn is_focusable(&self) -> (r: bool)
        ensures
            r == self.spec_is_focusable(),
    {
        self.widget.is_focusable()
    }

    pub fn get_id(&self) -> (r: ComponentId)
        ensures
            r == self.id,
    {
        self.id
    }

    /// The identifiers of the focusable nodes of this subtree, in pre-order.
    pub open spec fn focusable_ids(self) -> Seq<u64> {
        self.preorder().filter(Node::focus_pred()).map_values(Node::id_fn())
    }

    /// The prefix sums of the pre-order decomposition: a later prefix of the
    /// children is never shorter.
    pub proof fn lemma_upto_len_monotone(self, i: int, j: int)
        requires
            0 <= i <= j <= self.children.len(),
        ensures
            self.preorder_upto(i).len() <= self.preorder_upto(j).len(),
        decreases j - i,
    {
        if i < j {
            self.lemma_upto_len_monotone(i, j - 1);
            assert(self.preorder_upto(j) == self.preorder_upto(j - 1)
                + self.children[j - 1].preorder());
        }
    }

    /// Every subtree is non-empty.
    pub proof fn lemma_count_pos(self)
        ensures
            self.count() >= 1,
    {
        assert(self.preorder() == seq![self]
            + self.preorder_upto(self.children.len() as int));
    }

    /// Node counts depend only on the children, not on the node's own
    /// fields.
    pub proof fn lemma_count_same_children(a: Node, b: Node)
        requires
            a.children == b.children,
        ensures
            a.count() == b.count(),
    {
        Node::lemma_upto_same(a, b, a.children.len() as int);
        assert(a.preorder() == seq![a] + a.preorder_upto(a.children.len() as int));
        assert(b.preorder() == seq![b] + b.preorder_upto(b.children.len() as int));
    }

    /// The concatenated child pre-orders only depend on the children.
    pub proof fn lemma_upto_same(a: Node, b: Node, i: int)
        requires
            a.children == b.children,
            i <= a.children.len(),
        ensures
            a.preorder_upto(i) == b.preorder_upto(i),
        decreases i,
    {
        if i > 0 {
            Node::lemma_upto_same(a, b, i - 1);
        }
    }

    /// A child's subtree is strictly smaller than its parent's.
    pub proof fn lemma_child_count_lt(self, i: int)
        requires
            0 <= i < self.children.len(),
        ensures
            self.children[i].count() < self.count(),
    {
        let len = self.children.len() as int;
        assert(self.preorder_upto(i + 1) == self.preorder_upto(i)
            + self.children[i].preorder());
        self.lemma_upto_len_monotone(i + 1, len);
        assert(self.preorder() == seq![self] + self.preorder_upto(len));
    }

    /// Pre-order traversal is complete and ordered: the traversal sequence
    /// of a subtree is exactly one contiguous block of the whole traversal,
    /// beginning at the subtree root's own position. Hence every node is
    /// listed exactly once (at its block start), and every descendant is
    /// listed strictly after its ancestor.
    pub proof fn lemma_preorder_block(self, p: int)
        requires
            0 <= p < self.preorder().len(),
        ensures
            ({
                let s = self.preorder();
                let m = s[p];
                &&& p + m.preorder().len() <= s.len()
                &&& s.subrange(p, p + m.preorder().len() as int) == m.preorder()
            }),
        decreases self, self.children.len() + 1,
    {
        let s = self.preorder();
        let len = self.children.len() as int;
        assert(s == seq![self] + self.preorder_upto(len));
        if p == 0 {
            assert(s[0] == self);
            assert(s.subrange(0, s.len() as int) =~= s);
        } else {
            let q = p - 1;
            self.lemma_preorder_block_upto(len, q);
            let u = self.preorder_upto(len);
            let m = u[q];
            assert(s[p] == m);
            assert(s.subrange(p, p + m.preorder().len() as int) =~= u.subrange(
                q,
                q + m.preorder().len() as int,
            ));
        }
    }

    /// The block property within the concatenation of the first `i`
    /// children's traversals.
    proof fn lemma_preorder_block_upto(self, i: int, p: int)
        requires
            0 <= i <= self.children.len(),
            0 <= p < self.preorder_upto(i).len(),
        ensures
            ({
                let u = self.preorder_upto(i);
                let m = u[p];
                &&& p + m.preorder().len() <= u.len()
                &&& u.subrange(p, p + m.preorder().len() as int) == m.preorder()
            }),
        decreases self, i,
    {
        let u = self.preorder_upto(i);
        let prev = self.preorder_upto(i - 1);
        let c = self.children[i - 1];
        assert(u == prev + c.preorder());
        if p < prev.len() {
            self.lemma_preorder_block_upto(i - 1, p);
            let m = prev[p];
            assert(u[p] == m);
            assert(u.subrange(p, p + m.preorder().len() as int) =~= prev.subrange(
                p,
                p + m.preorder().len() as int,
            ));
        } else {
            let off = p - prev.len();
            c.lemma_preorder_block(off);
            let m = c.preorder()[off];
            assert(u[p] == m);
            assert(u.subrange(p, p + m.preorder().len() as int) =~= c.preorder().subrange(
                off,
                off + m.preorder().len() as int,
            ));
        }
    }

    /// Identifier uniqueness over a subtree: no identifier appears twice in
    /// the traversal.
    pub open spec fn ids_unique(self) -> bool {
        self.preorder_ids().no_duplicates()
    }

    /// With unique identifiers, pre-order traversal visits every node
    /// exactly once: two distinct traversal positions always hold nodes
    /// with distinct identifiers.
    pub proof fn lemma_preorder_visits_once(self, p1: int, p2: int)
        requires
            self.ids_unique(),
            0 <= p1 < self.preorder().len(),
            0 <= p2 < self.preorder().len(),
            p1 != p2,
        ensures
            self.preorder()[p1].id != self.preorder()[p2].id,
    {
        let f = Node::id_fn();
        assert(self.preorder_ids()[p1] == f(self.preorder()[p1]));
        assert(self.preorder_ids()[p2] == f(self.preorder()[p2]));
    }

    /// A parent is visited strictly before each of its descendants: the
    /// descendant at offset `q` of the subtree rooted at position `p`
    /// stands at position `p + q` of the full traversal.
    pub proof fn lemma_parent_before_descendant(self, p: int, q: int)
        requires
            0 <= p < self.preorder().len(),
            0 < q < self.preorder()[p].preorder().len(),
        ensures
            p + q < self.preorder().len(),
            self.preorder()[p + q] == self.preorder()[p].preorder()[q],
    {
        self.lemma_preorder_block(p);
        let m = self.preorder()[p];
        assert(self.preorder().subrange(p, p + m.preorder().len() as int)[q]
            == self.preorder()[p + q]);
    }

    /// Which subtree, if any, holds the node with the given identifier:
    /// the path of identifiers leading to it (excluding this node, including
    /// the target) together with the node itself. The first match in
    /// pre-order wins.
    pub open spec fn spec_find(self, id: u64) -> Option<(Seq<u64>, Node)>
        decreases self, self.children.len() + 1,
    {
        if self.id.0 == id {
            Some((Seq::empty(), self))
        } else {
            self.spec_find_from(0, id)
        }
    }

    /// Searches the children starting at index `i`.
    pub open spec fn spec_find_from(self, i: int, id: u64) -> Option<(Seq<u64>, Node)>
        decreases self, self.children.len() - i,
    {
        if i < 0 || i >= self.children.len() {
            None
        } else {
            match self.children[i].spec_find(id) {
                Some(r) => Some((seq![self.children[i].id.0] + r.0, r.1)),
                None => self.spec_find_from(i + 1, id),
            }
        }
    }

    /// Finds the node with the given identifier, returning it together with
    /// the identifier path taken to reach it (excluding this subtree's
    /// root). Searches in pre-order; the first match wins.
    pub fn find_component_by_id(&self, id: u64) -> (r: Option<(&Node, ComponentIdPath)>)
        ensures
            match r {
                None => self.spec_find(id) is None,
                Some(found) => {
                    &&& self.spec_find(id) matches Some(sp)
                    &&& *found.0 == sp.1
                    &&& found.1.0@.map_values(|c: ComponentId| c.0) == sp.0
                },
            },
        decreases *self,
    {
        if self.id.0 == id {
            return Some((self, ComponentIdPath::empty()));
        }
        let k = self.children.len();
        for i in 0..k
            invariant
                self.id.0 != id,
                k == self.children.len(),
                self.spec_find_from(0, id) == self.spec_find_from(i as int, id),
        {
            let child_id = self.children[i].id;
            match self.children[i].find_component_by_id(id) {
                Some((m, mut path)) => {
                    let ghost prior = path.0@;
                    path.0.insert(0, child_id);
                    proof {
                        let g = |c: ComponentId| c.0;
                        assert(path.0@ =~= seq![child_id] + prior);
                        assert(path.0@.map_values(g) =~= seq![child_id.0]
                            + prior.map_values(g));
                    }
                    return Some((m, path));
                },
                None => {},
            }
        }
        None
    }

    /// Collects the identifiers of the focusable nodes of this subtree, in
    /// pre-order.
    #[verifier::loop_isolation(false)]
    pub fn collect_focusable_ids(&self, out: &mut Vec<u64>)
        ensures
            final(out)@ == old(out)@ + self.focusable_ids(),
        decreases *self,
    {
        let ghost fpred: spec_fn(Node) -> bool = Node::focus_pred();
        let ghost f: spec_fn(Node) -> u64 = Node::id_fn();
        if self.is_focusable() {
            out.push(self.id.0);
        }
        let ghost mid = out@;
        proof {
            assert(self.preorder_upto(0) == Seq::<Node>::empty());
            assert(Seq::<Node>::empty().filter(fpred) =~= Seq::<Node>::empty());
        }
        for i in 0..self.children.len()
            invariant
                out@ == mid + self.preorder_upto(i as int).filter(fpred).map_values(f),
        {
            self.children[i].collect_focusable_ids(out);
            proof {
                let a = self.preorder_upto(i as int);
                let b = self.children[i as int].preorder();
                assert(self.preorder_upto(i + 1) == a + b);
                Seq::<Node>::filter_distributes_over_add(a, b, fpred);
                assert(self.preorder_upto(i + 1).filter(fpred) == a.filter(fpred)
                    + b.filter(fpred));
                assert((a.filter(fpred) + b.filter(fpred)).map_values(f)
                    =~= a.filter(fpred).map_values(f) + b.filter(fpred).map_values(f));
                assert(b.filter(fpred).map_values(f) == self.children[i as int].focusable_ids());
                assert(out@ == (mid + a.filter(fpred).map_values(f))
                    + b.filter(fpred).map_values(f));
                assert((mid + a.filter(fpred).map_values(f)) + b.filter(fpred).map_values(f)
                    =~= mid + (a.filter(fpred).map_values(f) + b.filter(fpred).map_values(f)));
                assert(out@ =~= mid + self.preorder_upto(i + 1).filter(fpred).map_values(f));
            }
        }
        proof {
            let a = seq![*self];
            let b = self.preorder_upto(self.children.len() as int);
            assert(self.preorder() == a + b);
            Seq::<Node>::filter_distributes_over_add(a, b, fpred);
            reveal_with_fuel(Seq::filter, 2);
            assert(a.filter(fpred) =~= if self.spec_is_focusable() {
                seq![*self]
            } else {
                Seq::<Node>::empty()
            });
            assert((a.filter(fpred) + b.filter(fpred)).map_values(f)
                =~= a.filter(fpred).map_values(f) + b.filter(fpred).map_values(f));
            assert(out@ =~= old(out)@ + self.focusable_ids());
        }
    }

    /// Collects the pre-order identifier sequence of this subtree.
    pub fn collect_preorder_ids(&self, out: &mut Vec<u64>)
        ensures
            final(out)@ == old(out)@ + self.preorder_ids(),
        decreases *self,
    {
        out.push(self.id.0);
        let ghost mid = out@;
        proof {
            assert(self.preorder_upto(0) == Seq::<Node>::empty());
        }
        for i in 0..self.children.len()
            invariant
                out@ == mid + self.preorder_upto(i as int).map_values(Node::id_fn()),
        {
            self.children[i].collect_preorder_ids(out);
            proof {
                let f = Node::id_fn();
                let a = self.preorder_upto(i as int);
                let b = self.children[i as int].preorder();
                assert(self.preorder_upto(i + 1) == a + b);
                assert((a + b).map_values(f) =~= a.map_values(f) + b.map_values(f));
            }
        }
        proof {
            let f = Node::id_fn();
            let a = seq![*self];
            let b = self.preorder_upto(self.children.len() as int);
            assert(self.preorder() == a + b);
            assert((a + b).map_values(f) =~= a.map_values(f) + b.map_values(f));
            assert(a.map_values(f) =~= seq![self.id.0]);
            assert(out@ =~= old(out)@ + self.preorder_ids());
        }
    }
}

} // verus!
