//! Nodes of the relay fleet: an alias plus a reachable address, compared and
//! deduplicated by full structural equality.

use vstd::prelude::*;

verus! {

/// The mathematical value of a [`Node`]: its alias and address as character
/// sequences.
pub struct NodeView {
    pub alias: Seq<char>,
    pub url: Seq<char>,
}

/// An addressable media-serving instance in the fleet.
#[derive(Debug)]
pub struct Node {
    pub alias: String,
    pub url: String,
}

impl Clone for Node {
    fn clone(&self) -> (r: Self)
        ensures
            r == *self,
    {
        Node { alias: self.alias.clone(), url: self.url.clone() }
    }
}

impl View for Node {
    type V = NodeView;

    open spec fn view(&self) -> NodeView {
        NodeView { alias: self.alias@, url: self.url@ }
    }
}

impl Node {
    /// Structural equality on both fields.
    pub fn same_as(&self, other: &Node) -> (r: bool)
        ensures
            r == (self@ == other@),
    {
        let r = self.alias == other.alias && self.url == other.url;
        proof {
            if r {
                assert(self@ =~= other@);
            }
        }
        r
    }
}

/// Whether `nodes` holds an element structurally equal to `n`.
pub open spec fn seq_contains_node(nodes: Seq<NodeView>, n: NodeView) -> bool {
    exists|i: int| 0 <= i < nodes.len() && nodes[i] == n
}

/// The views of a vector of nodes, in order.
pub open spec fn views_of(nodes: Seq<Node>) -> Seq<NodeView> {
    nodes.map(|i: int, n: Node| n@)
}

/// Linear membership scan, the executable side of [`seq_contains_node`].
pub fn contains_node(nodes: &Vec<Node>, n: &Node) -> (r: bool)
    ensures
        r == seq_contains_node(views_of(nodes@), n@),
{
    let ghost vs = views_of(nodes@);
    for i in 0..nodes.len()
        invariant
            vs == views_of(nodes@),
            forall|j: int| 0 <= j < i ==> vs[j] != n@,
    {
        if nodes[i].same_as(n) {
            assert(vs[i as int] == n@);
            return true;
        }
    }
    false
}

} // verus!
