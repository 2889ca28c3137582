//! The boundary of a block as four oriented edges between its corners.
use vstd::prelude::*;
use crate::segment::ContactPlan;

verus! {

/// Number of edges (and of corners) of a block.
pub const BLOCK_EDGES: usize = 4;

/// A corner of an axis-aligned block.
#[derive(Clone, Copy, Debug, PartialEq, Eq, Structural)]
pub enum Corner {
    TopRight,
    TopLeft,
    BottomLeft,
    BottomRight,
}

/// Corner `k` in the order the boundary visits them, counter-clockwise from
/// the top right.
pub open spec fn corner_at(k: int) -> Corner {
    if k == 0 {
        Corner::TopRight
    } else if k == 1 {
        Corner::TopLeft
    } else if k == 2 {
        Corner::BottomLeft
    } else {
        Corner::BottomRight
    }
}

/// Edge `k` runs from corner `k` to the next one, the last edge back to the
/// first corner.
pub open spec fn edge_corners(k: int) -> (Corner, Corner) {
    (corner_at(k), corner_at((k + 1) % 4))
}

/// The corner a contact plan of edge `k` resolves to, when it resolves to an
/// endpoint.
pub open spec fn plan_corner(k: int, plan: ContactPlan) -> Option<Corner> {
    match plan {
        ContactPlan::EndpointA => Some(edge_corners(k).0),
        ContactPlan::EndpointB => Some(edge_corners(k).1),
        _ => None,
    }
}

/// Start and end corner of edge `k` of a block.
pub fn block_edge(k: usize) -> (r: (Corner, Corner))
    requires
        k < BLOCK_EDGES,
    ensures
        r == edge_corners(k as int),
{
    if k == 0 {
        (Corner::TopRight, Corner::TopLeft)
    } else if k == 1 {
        (Corner::TopLeft, Corner::BottomLeft)
    } else if k == 2 {
        (Corner::BottomLeft, Corner::BottomRight)
    } else {
        (Corner::BottomRight, Corner::TopRight)
    }
}

/// The edges close up around the block, each corner ending one edge and
/// starting the next, so a ball heading for a corner is resolved against the
/// same corner point by both edges that meet there: the one where the corner
/// is the end and the one where it is the start.
pub proof fn lemma_adjacent_edges_share_corner(k: int)
    requires
        0 <= k < BLOCK_EDGES,
    ensures
        plan_corner(k, ContactPlan::EndpointB) == plan_corner((k + 1) % 4, ContactPlan::EndpointA),
        edge_corners(k).0 != edge_corners(k).1,
        forall|j: int| 0 <= j < BLOCK_EDGES && j != k ==> #[trigger] edge_corners(j).0 != edge_corners(k).0,
{
}

} // verus!
