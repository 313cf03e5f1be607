//! The parent links of a syntax tree, and the ascent along them.

use vstd::prelude::*;

verus! {

/// The identity of a node of the syntax tree.
pub type NodeId = u32;

/// A syntax tree as an arena of parent links. Nodes are numbered in the order
/// in which they are added, a node after its parent. A node whose parent is
/// the node itself has no parent.
pub struct SyntaxTree {
    parents: Vec<NodeId>,
}

impl View for SyntaxTree {
    type V = Seq<NodeId>;

    /// The parent link of each node, by the node's number.
    closed spec fn view(&self) -> Seq<NodeId> {
        self.parents@
    }
}

impl SyntaxTree {
    /// The node numbers fit a `NodeId`, and no link points to a later node.
    /// Every tree that exists at run time is well formed.
    #[verifier::type_invariant]
    pub open spec fn wf(&self) -> bool {
        &&& self@.len() <= NodeId::MAX
        &&& forall|i: int| 0 <= i < self@.len() ==> (#[trigger] self@[i]) <= i
    }

    /// The parent of `id`, or `id` itself where it has none. A node that the
    /// tree does not hold has none.
    pub open spec fn parent_of(&self, id: NodeId) -> NodeId {
        if id < self@.len() {
            self@[id as int]
        } else {
            id
        }
    }

    /// The node reached from `id` after `steps` steps to the parent. At a node
    /// without parent the ascent stays where it is.
    pub open spec fn ancestor(&self, id: NodeId, steps: nat) -> NodeId
        decreases steps,
    {
        if steps == 0 {
            id
        } else {
            self.parent_of(self.ancestor(id, (steps - 1) as nat))
        }
    }

    /// Whether `child` is `parent` or lies below it.
    pub open spec fn is_descendant(&self, child: NodeId, parent: NodeId) -> bool {
        exists|steps: nat| self.ancestor(child, steps) == parent
    }

    /// A tree without nodes.
    pub fn new() -> (tree: SyntaxTree)
        ensures
            tree@ == Seq::<NodeId>::empty(),
            tree.wf(),
    {
        SyntaxTree { parents: Vec::new() }
    }

    /// The number of nodes.
    pub fn len(&self) -> (n: usize)
        ensures
            n == self@.len(),
    {
        self.parents.len()
    }

    /// Add a node without parent and return its number, or `None` where the
    /// numbers are used up.
    pub fn add_root(&mut self) -> (id: Option<NodeId>)
        ensures
            final(self).wf(),
            match id {
                Some(id) => {
                    &&& id == old(self)@.len()
                    &&& final(self)@ == old(self)@.push(id)
                },
                None => {
                    &&& old(self)@.len() == NodeId::MAX
                    &&& final(self)@ == old(self)@
                },
            },
    {
        proof {
            use_type_invariant(&*self);
        }
        let n = self.parents.len();
        if n >= NodeId::MAX as usize {
            return None;
        }
        let id = n as NodeId;
        self.append_link(id);
        Some(id)
    }

    /// Add a node below `parent` and return its number, or `None` where the
    /// tree does not hold `parent` or the numbers are used up.
    pub fn add_child(&mut self, parent: NodeId) -> (id: Option<NodeId>)
        ensures
            final(self).wf(),
            match id {
                Some(id) => {
                    &&& parent < old(self)@.len()
                    &&& id == old(self)@.len()
                    &&& final(self)@ == old(self)@.push(parent)
                },
                None => {
                    &&& parent >= old(self)@.len() || old(self)@.len() == NodeId::MAX
                    &&& final(self)@ == old(self)@
                },
            },
    {
        proof {
            use_type_invariant(&*self);
        }
        let n = self.parents.len();
        if n >= NodeId::MAX as usize || parent as usize >= n {
            return None;
        }
        let id = n as NodeId;
        self.append_link(parent);
        Some(id)
    }

    /// Append the link of the next node.
    fn append_link(&mut self, link: NodeId)
        requires
            old(self)@.len() < NodeId::MAX,
            link <= old(self)@.len(),
        ensures
            final(self)@ == old(self)@.push(link),
            final(self).wf(),
    {
        proof {
            use_type_invariant(&*self);
        }
        // The links leave the tree while they grow, so that the tree is well
        // formed at every moment.
        let mut parents: Vec<NodeId> = Vec::new();
        core::mem::swap(&mut self.parents, &mut parents);
        parents.push(link);
        core::mem::swap(&mut self.parents, &mut parents);
    }

    /// The parent of `id`, or `id` itself where it has none.
    pub fn get_parent(&self, id: NodeId) -> (parent: NodeId)
        ensures
            parent == self.parent_of(id),
            parent <= id,
    {
        proof {
            use_type_invariant(self);
        }
        if (id as usize) < self.parents.len() {
            self.parents[id as usize]
        } else {
            id
        }
    }

    /// Is `child` a child of `parent` in the tree? The ascent ends on a match
    /// or at a node without parent.
    pub fn child_of(&self, child: NodeId, parent: NodeId) -> (found: bool)
        ensures
            found == self.is_descendant(child, parent),
    {
        proof {
            use_type_invariant(self);
        }
        let mut id = child;
        let ghost mut steps: nat = 0;
        loop
            invariant
                self.wf(),
                id == self.ancestor(child, steps),
                forall|k: nat| k < steps ==> self.ancestor(child, k) != parent,
            decreases id,
        {
            if id == parent {
                return true;
            }
            let next = self.get_parent(id);
            if next == id {
                proof {
                    assert forall|k: nat| self.ancestor(child, k) != parent by {
                        if k >= steps {
                            self.lemma_ascent_rests(child, steps, k);
                        }
                    }
                }
                return false;  // no parent
            }
            id = next;
            proof {
                steps = steps + 1;
            }
        }
    }

    /// The ascent never leads to a later node.
    pub proof fn lemma_ancestor_not_later(&self, id: NodeId, steps: nat)
        requires
            self.wf(),
        ensures
            self.ancestor(id, steps) <= id,
        decreases steps,
    {
        if steps > 0 {
            self.lemma_ancestor_not_later(id, (steps - 1) as nat);
        }
    }

    /// An ascent of `first + then` steps is one of `first` steps and, from
    /// where that ends, one of `then` steps.
    pub proof fn lemma_ancestor_compose(&self, id: NodeId, first: nat, then: nat)
        ensures
            self.ancestor(id, first + then) == self.ancestor(self.ancestor(id, first), then),
        decreases then,
    {
        if then > 0 {
            self.lemma_ancestor_compose(id, first, (then - 1) as nat);
            assert(first + then - 1 == first + (then - 1) as nat);
        }
    }

    /// A node lies below `parent` or is it if and only if it is `parent`, or
    /// its own parent lies below `parent` or is it.
    pub proof fn lemma_descendant_step(&self, child: NodeId, parent: NodeId)
        ensures
            self.is_descendant(child, parent) <==> (child == parent || self.is_descendant(
                self.parent_of(child),
                parent,
            )),
    {
        if self.is_descendant(child, parent) && child != parent {
            let steps = choose|steps: nat| self.ancestor(child, steps) == parent;
            assert(steps > 0);
            self.lemma_ancestor_compose(child, 1, (steps - 1) as nat);
            assert(self.ancestor(child, 1) == self.parent_of(child)) by {
                reveal_with_fuel(SyntaxTree::ancestor, 2);
            }
            assert(self.ancestor(self.parent_of(child), (steps - 1) as nat) == parent);
        }
        if child == parent {
            assert(self.ancestor(child, 0) == parent);
        }
        if self.is_descendant(self.parent_of(child), parent) {
            let steps = choose|steps: nat| self.ancestor(self.parent_of(child), steps) == parent;
            self.lemma_ancestor_compose(child, 1, steps);
            assert(self.ancestor(child, 1) == self.parent_of(child)) by {
                reveal_with_fuel(SyntaxTree::ancestor, 2);
            }
            assert(self.ancestor(child, 1 + steps) == parent);
        }
    }

    /// Two nodes of which each lies below the other or is it are one node.
    pub proof fn lemma_descendant_antisymmetric(&self, a: NodeId, b: NodeId)
        requires
            self.wf(),
            self.is_descendant(a, b),
            self.is_descendant(b, a),
        ensures
            a == b,
    {
        let up = choose|steps: nat| self.ancestor(a, steps) == b;
        let down = choose|steps: nat| self.ancestor(b, steps) == a;
        self.lemma_ancestor_not_later(a, up);
        self.lemma_ancestor_not_later(b, down);
    }

    /// The nodes above a node lie in one line: of two of them, one lies
    /// below the other or is it.
    pub proof fn lemma_ancestors_in_line(&self, id: NodeId, a: NodeId, b: NodeId)
        requires
            self.is_descendant(id, a),
            self.is_descendant(id, b),
        ensures
            self.is_descendant(a, b) || self.is_descendant(b, a),
    {
        let to_a = choose|steps: nat| self.ancestor(id, steps) == a;
        let to_b = choose|steps: nat| self.ancestor(id, steps) == b;
        if to_a <= to_b {
            self.lemma_ancestor_compose(id, to_a, (to_b - to_a) as nat);
            assert(self.ancestor(a, (to_b - to_a) as nat) == b);
        } else {
            self.lemma_ancestor_compose(id, to_b, (to_a - to_b) as nat);
            assert(self.ancestor(b, (to_a - to_b) as nat) == a);
        }
    }

    /// Two different nodes with the same parent have nothing below them in
    /// common: what lies below one of them does not lie below the other.
    pub proof fn lemma_siblings_apart(&self, a: NodeId, b: NodeId, id: NodeId)
        requires
            self.wf(),
            a != b,
            self.parent_of(a) == self.parent_of(b),
            self.parent_of(a) != a,
            self.parent_of(b) != b,
            self.is_descendant(id, b),
        ensures
            !self.is_descendant(id, a),
    {
        if self.is_descendant(id, a) {
            let above = self.parent_of(a);
            self.lemma_ancestors_in_line(id, a, b);
            self.lemma_descendant_step(a, b);
            self.lemma_descendant_step(b, a);
            self.lemma_descendant_step(a, above);
            self.lemma_descendant_step(b, above);
            assert(self.is_descendant(above, above)) by {
                assert(self.ancestor(above, 0) == above);
            }
            if self.is_descendant(a, b) {
                self.lemma_descendant_antisymmetric(above, b);
            } else {
                self.lemma_descendant_antisymmetric(above, a);
            }
        }
    }

    /// Once the ascent has reached a node without parent, it stays there.
    pub proof fn lemma_ascent_rests(&self, id: NodeId, at: nat, later: nat)
        requires
            at <= later,
            self.parent_of(self.ancestor(id, at)) == self.ancestor(id, at),
        ensures
            self.ancestor(id, later) == self.ancestor(id, at),
        decreases later,
    {
        if later > at {
            self.lemma_ascent_rests(id, at, (later - 1) as nat);
        }
    }
}

} // verus!
