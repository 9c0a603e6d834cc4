//! Parameters of the commands the interface invokes.
use vstd::prelude::*;
use crate::screen_layout::NeighborSide;

verus! {

/// The neighbor's side as the interface names it.
#[derive(Debug, Clone, Copy, PartialEq, Eq, Structural)]
pub enum SideParam {
    Left,
    Right,
    Top,
    Bottom,
}

pub open spec fn spec_side_of(val: SideParam) -> NeighborSide {
    match val {
        SideParam::Left => NeighborSide::Left,
        SideParam::Right => NeighborSide::Right,
        SideParam::Top => NeighborSide::Top,
        SideParam::Bottom => NeighborSide::Bottom,
    }
}

impl From<SideParam> for NeighborSide {
    fn from(val: SideParam) -> (side: Self) {
        match val {
            SideParam::Left => NeighborSide::Left,
            SideParam::Right => NeighborSide::Right,
            SideParam::Top => NeighborSide::Top,
            SideParam::Bottom => NeighborSide::Bottom,
        }
    }
}

impl vstd::std_specs::convert::FromSpecImpl<SideParam> for NeighborSide {
    open spec fn obeys_from_spec() -> bool {
        true
    }

    open spec fn from_spec(val: SideParam) -> NeighborSide {
        spec_side_of(val)
    }
}

} // verus!
