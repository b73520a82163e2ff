//! The set of selected nodes.
use vstd::prelude::*;
use crate::wires::lemma_remove_to_set;

verus! {

/// Selected nodes, by identifier.
pub struct Selection {
    nodes: Vec<u64>,
}

impl View for Selection {
    type V = Set<u64>;

    closed spec fn view(&self) -> Set<u64> {
        self.nodes@.to_set()
    }
}

impl Selection {
    /// Well-formed: each node is stored once.
    pub closed spec fn wf(&self) -> bool {
        self.nodes@.no_duplicates()
    }

    /// Nothing selected.
    pub fn new() -> (r: Selection)
        ensures
            r.wf(),
            r@ == Set::<u64>::empty(),
    {
        let r = Selection { nodes: Vec::new() };
        assert(r@ =~= Set::<u64>::empty());
        r
    }

    /// The number of selected nodes.
    pub fn len(&self) -> (r: usize)
        requires
            self.wf(),
        ensures
            r == self@.len(),
    {
        proof {
            self.nodes@.unique_seq_to_set();
        }
        self.nodes.len()
    }

    /// Where `node` is stored, if selected.
    fn position(&self, node: u64) -> (r: Option<usize>)
        ensures
            match r {
                Some(i) => i < self.nodes@.len() && self.nodes@[i as int] == node,
                None => !self@.contains(node),
            },
    {
        let mut i: usize = 0;
        while i < self.nodes.len()
            invariant
                i <= self.nodes@.len(),
                forall|j: int| 0 <= j < i ==> self.nodes@[j] != node,
            decreases self.nodes@.len() - i,
        {
            if self.nodes[i] == node {
                return Some(i);
            }
            i = i + 1;
        }
        None
    }

    /// Whether `node` is selected.
    pub fn contains(&self, node: u64) -> (r: bool)
        ensures
            r == self@.contains(node),
    {
        match self.position(node) {
            Some(i) => {
                assert(self.nodes@.contains(self.nodes@[i as int]));
                true
            },
            None => false,
        }
    }

    /// Adds `node` to the selection; returns whether it was not selected before.
    pub fn select(&mut self, node: u64) -> (r: bool)
        requires
            old(self).wf(),
        ensures
            final(self).wf(),
            r == !old(self)@.contains(node),
            final(self)@ == old(self)@.insert(node),
    {
        if self.contains(node) {
            assert(self@ =~= old(self)@.insert(node));
            false
        } else {
            proof {
                self.nodes@.lemma_push_to_set_commute(node);
            }
            self.nodes.push(node);
            true
        }
    }

    /// Removes `node` from the selection; returns whether it was selected.
    pub fn deselect(&mut self, node: u64) -> (r: bool)
        requires
            old(self).wf(),
        ensures
            final(self).wf(),
            r == old(self)@.contains(node),
            final(self)@ == old(self)@.remove(node),
    {
        match self.position(node) {
            Some(i) => {
                proof {
                    lemma_remove_to_set(self.nodes@, i as int);
                    assert(self.nodes@.contains(node));
                }
                self.nodes.remove(i);
                true
            },
            None => {
                assert(self@ =~= old(self)@.remove(node));
                false
            },
        }
    }

    /// Deselects every node.
    pub fn clear(&mut self)
        ensures
            final(self).wf(),
            final(self)@ == Set::<u64>::empty(),
    {
        self.nodes.clear();
        assert(self@ =~= Set::<u64>::empty());
    }
}

} // verus!
