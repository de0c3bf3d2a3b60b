//! Destination selection: given the registry's node set and the nodes
//! already serving a stream, pick an origin and a relay destination.
//!
//! The destination must lie outside the serving set; the origin is drawn
//! from the serving set. Both underlying sets are unordered in the registry,
//! so which element is picked among ties is a deliberate tie-break here:
//! the first, in the order the caller supplies.

use vstd::prelude::*;
use crate::node::{contains_node, seq_contains_node, views_of, Node};

verus! {

/// Why no destination could be selected.
#[derive(Clone, Copy, Debug, PartialEq, Eq, Structural)]
pub enum SelectError {
    /// The set of nodes already serving the stream was empty: there is no
    /// origin to relay from. The caller may resubmit with correct input.
    InvalidRequest,
    /// Every known node already serves the stream: no node is left to host
    /// the relay copy.
    NoCandidateDestination,
}

/// A successful selection: the origin to relay from and the destination to
/// host the relay copy.
#[derive(Clone, Debug)]
pub struct Selection {
    pub source: Node,
    pub destination: Node,
}

/// Whether some node of `all` lies outside `serving`: the condition under
/// which a destination exists.
pub open spec fn candidate_exists(all: Seq<crate::node::NodeView>, serving: Seq<crate::node::NodeView>) -> bool {
    exists|i: int| 0 <= i < all.len() && !seq_contains_node(serving, all[i])
}

/// Picks the origin (the first node already serving) and the destination
/// (the first known node not already serving).
///
/// Fails with `InvalidRequest` on an empty serving set and with
/// `NoCandidateDestination` when every known node already serves the
/// stream; otherwise the destination is guaranteed to lie outside the
/// serving set.
pub fn select_destination(all_nodes: &Vec<Node>, already_serving: &Vec<Node>) -> (r: Result<
    Selection,
    SelectError,
>)
    ensures
        (r matches Err(SelectError::InvalidRequest)) <==> already_serving@.len() == 0,
        (r matches Err(SelectError::NoCandidateDestination)) <==> (already_serving@.len() > 0
            && !candidate_exists(views_of(all_nodes@), views_of(already_serving@))),
        r is Ok <==> (already_serving@.len() > 0 && candidate_exists(
            views_of(all_nodes@),
            views_of(already_serving@),
        )),
        r matches Ok(sel) ==> {
            &&& sel.source@ == already_serving@[0]@
            &&& seq_contains_node(views_of(already_serving@), sel.source@)
            &&& seq_contains_node(views_of(all_nodes@), sel.destination@)
            &&& !seq_contains_node(views_of(already_serving@), sel.destination@)
        },
{
    if already_serving.len() == 0 {
        return Err(SelectError::InvalidRequest);
    }
    let ghost all_views = views_of(all_nodes@);
    let ghost serving_views = views_of(already_serving@);
    for k in 0..all_nodes.len()
        invariant
            already_serving@.len() > 0,
            all_views == views_of(all_nodes@),
            serving_views == views_of(already_serving@),
            forall|j: int| 0 <= j < k ==> seq_contains_node(serving_views, all_views[j]),
    {
        if !contains_node(already_serving, &all_nodes[k]) {
            assert(all_views[k as int] == all_nodes@[k as int]@);
            assert(views_of(already_serving@)[0] == already_serving@[0]@);
            return Ok(
                Selection {
                    source: already_serving[0].clone(),
                    destination: all_nodes[k].clone(),
                },
            );
        }
    }
    Err(SelectError::NoCandidateDestination)
}

} // verus!
