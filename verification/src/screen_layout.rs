//! Screen geometry vocabulary: which side the neighbor machine sits on,
//! which local edge hands the cursor over, and the per-machine layout.
use vstd::prelude::*;

verus! {

/// Physical side where the neighbor machine is located.
#[derive(Debug, Clone, Copy, PartialEq, Eq, Structural)]
pub enum NeighborSide {
    Left,
    Right,
    Top,
    Bottom,
}

/// The edge of the local screen that triggers a transition.
#[derive(Debug, Clone, Copy, PartialEq, Eq, Structural)]
pub enum Edge {
    Left,
    Right,
    Top,
    Bottom,
}

/// Pixel dimensions of one machine's screen.
#[derive(Debug, Clone, Copy, PartialEq, Eq, Structural)]
pub struct ScreenDimensions {
    pub width: u32,
    pub height: u32,
}

/// The edge that faces the neighbor: a right-hand neighbor is reached
/// through the right edge, and so on.
pub open spec fn spec_neighbor_side_to_edge(side: NeighborSide) -> Edge {
    match side {
        NeighborSide::Left => Edge::Left,
        NeighborSide::Right => Edge::Right,
        NeighborSide::Top => Edge::Top,
        NeighborSide::Bottom => Edge::Bottom,
    }
}

/// The edge across the screen from the given one.
pub open spec fn spec_edge_across(edge: Edge) -> Edge {
    match edge {
        Edge::Left => Edge::Right,
        Edge::Right => Edge::Left,
        Edge::Top => Edge::Bottom,
        Edge::Bottom => Edge::Top,
    }
}

/// The edge facing away from the neighbor.
pub open spec fn spec_opposite_edge(side: NeighborSide) -> Edge {
    spec_edge_across(spec_neighbor_side_to_edge(side))
}

/// Maps the side where the neighbor sits to the local screen edge that triggers a transition.
/// Right neighbor → watch the Right edge, etc.
pub fn neighbor_side_to_edge(side: NeighborSide) -> (edge: Edge)
    ensures
        edge == spec_neighbor_side_to_edge(side),
{
    match side {
        NeighborSide::Left => Edge::Left,
        NeighborSide::Right => Edge::Right,
        NeighborSide::Top => Edge::Top,
        NeighborSide::Bottom => Edge::Bottom,
    }
}

/// Returns the edge opposite to the one watched — used to detect when the cursor
/// returns to the local screen while in Remote state.
pub fn opposite_edge(side: NeighborSide) -> (edge: Edge)
    ensures
        edge == spec_opposite_edge(side),
{
    match side {
        NeighborSide::Left => Edge::Right,
        NeighborSide::Right => Edge::Left,
        NeighborSide::Top => Edge::Bottom,
        NeighborSide::Bottom => Edge::Top,
    }
}

/// Distinct neighbor sides are watched through distinct edges, and every
/// edge is watched for exactly one side.
pub proof fn lemma_neighbor_side_to_edge_bijective(a: NeighborSide, b: NeighborSide, e: Edge)
    ensures
        spec_neighbor_side_to_edge(a) == spec_neighbor_side_to_edge(b) ==> a == b,
        exists|s: NeighborSide| spec_neighbor_side_to_edge(s) == e,
{
    let s = match e {
        Edge::Left => NeighborSide::Left,
        Edge::Right => NeighborSide::Right,
        Edge::Top => NeighborSide::Top,
        Edge::Bottom => NeighborSide::Bottom,
    };
    assert(spec_neighbor_side_to_edge(s) == e);
}

/// The return edge is never the watched edge, and the two lie across the
/// screen from each other in both directions.
pub proof fn lemma_opposite_edge_faces_away(side: NeighborSide)
    ensures
        spec_opposite_edge(side) != spec_neighbor_side_to_edge(side),
        spec_edge_across(spec_opposite_edge(side)) == spec_neighbor_side_to_edge(side),
{
}

/// How the local screen relates to the neighbor's: which side it sits on and
/// both screens' dimensions. Unconfigured until the peer's dimensions arrive.
pub struct ScreenLayoutImpl {
    pub side: Option<NeighborSide>,
    pub local: ScreenDimensions,
    pub remote: ScreenDimensions,
}

impl ScreenLayoutImpl {
    /// The unconfigured layout.
    pub open spec fn spec_new() -> Self {
        ScreenLayoutImpl {
            side: None,
            local: ScreenDimensions { width: 0, height: 0 },
            remote: ScreenDimensions { width: 0, height: 0 },
        }
    }

    /// An unconfigured layout: no side, zero-sized screens.
    pub fn new() -> (layout: Self)
        ensures
            layout == Self::spec_new(),
    {
        Self {
            side: None,
            local: ScreenDimensions { width: 0, height: 0 },
            remote: ScreenDimensions { width: 0, height: 0 },
        }
    }

    /// Records the neighbor's side and both screens' dimensions.
    pub fn configure(&mut self, side: NeighborSide, local: ScreenDimensions, remote: ScreenDimensions)
        ensures
            final(self).side == Some(side),
            final(self).local == local,
            final(self).remote == remote,
    {
        self.side = Some(side);
        self.local = local;
        self.remote = remote;
    }

    /// The edge that hands the cursor over, once a side is configured.
    pub fn watched_edge(&self) -> (edge: Option<Edge>)
        ensures
            edge == (match self.side {
                Some(s) => Some(spec_neighbor_side_to_edge(s)),
                None => None,
            }),
    {
        match self.side {
            Some(s) => Some(neighbor_side_to_edge(s)),
            None => None,
        }
    }
}

/// The last valid pixel row and column of a screen: one less than each
/// dimension, or zero for an empty dimension. Injected points are clamped to
/// this so `x_norm = 1.0` does not land one past the screen.
pub fn last_pixel(dims: ScreenDimensions) -> (max: ScreenDimensions)
    ensures
        max.width == (if dims.width == 0 { 0 } else { dims.width - 1 }),
        max.height == (if dims.height == 0 { 0 } else { dims.height - 1 }),
{
    ScreenDimensions { width: dims.width.saturating_sub(1), height: dims.height.saturating_sub(1) }
}

} // verus!
