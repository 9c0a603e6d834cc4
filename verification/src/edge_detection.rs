//! Edge detection: raise one crossing event each time the cursor arrives at
//! the watched edge. Whether a position lies within the threshold of the
//! edge is measured by the caller in screen coordinates; this module keeps
//! the configuration and the arrival latch.
use vstd::prelude::*;
use crate::screen_layout::{Edge, ScreenDimensions};

verus! {

/// The cursor reached `edge`; `x_norm`/`y_norm` give the crossing point
/// normalized to the local screen.
#[derive(Debug, Clone)]
pub struct EdgeCrossedEvent<F> {
    pub edge: Edge,
    pub y_norm: F,
    pub x_norm: F,
}

/// Which edge is watched on a screen of which size, and whether the cursor
/// was already at that edge at the last observation.
pub struct EdgeDetectionImpl {
    pub edge: Edge,
    pub bounds: ScreenDimensions,
    pub was_at_edge: bool,
    pub configured: bool,
}

/// One observation: whether a crossing fires, and the new latch. Nothing
/// fires before configuration; afterwards a crossing fires on arriving at the
/// edge, and leaving it re-arms the latch.
pub open spec fn spec_observe(configured: bool, was_at_edge: bool, now_at_edge: bool) -> (bool, bool) {
    if !configured {
        (false, was_at_edge)
    } else if now_at_edge && !was_at_edge {
        (true, true)
    } else if !now_at_edge {
        (false, false)
    } else {
        (false, was_at_edge)
    }
}

impl EdgeDetectionImpl {
    /// An unconfigured detector (watching the right edge of an empty screen).
    pub fn new() -> (ed: Self)
        ensures
            ed.edge == Edge::Right,
            ed.bounds == (ScreenDimensions { width: 0, height: 0 }),
            !ed.was_at_edge,
            !ed.configured,
    {
        Self { edge: Edge::Right, bounds: ScreenDimensions { width: 0, height: 0 }, was_at_edge: false, configured: false }
    }

    /// Watch `edge` of a screen of size `bounds`, starting away from it.
    pub fn configure(&mut self, edge: Edge, bounds: ScreenDimensions)
        ensures
            final(self).edge == edge,
            final(self).bounds == bounds,
            !final(self).was_at_edge,
            final(self).configured,
    {
        self.edge = edge;
        self.bounds = bounds;
        self.was_at_edge = false;
        self.configured = true;
    }

    /// Forget that the cursor was at the edge, so the next arrival fires.
    pub fn reset(&mut self)
        ensures
            *final(self) == (EdgeDetectionImpl { was_at_edge: false, ..*old(self) }),
    {
        self.was_at_edge = false;
    }

    /// Record whether the cursor is now within the threshold of the watched
    /// edge; returns whether this is an arrival that raises a crossing.
    pub fn observe(&mut self, now_at_edge: bool) -> (fire: bool)
        ensures
            (fire, final(self).was_at_edge) == spec_observe(old(self).configured, old(self).was_at_edge, now_at_edge),
            final(self).edge == old(self).edge,
            final(self).bounds == old(self).bounds,
            final(self).configured == old(self).configured,
    {
        if !self.configured {
            return false;
        }
        if now_at_edge && !self.was_at_edge {
            self.was_at_edge = true;
            true
        } else {
            if !now_at_edge {
                self.was_at_edge = false;
            }
            false
        }
    }
}

/// One crossing per arrival: once a crossing fired, staying at the edge
/// fires nothing; leaving it and coming back fires again. An unconfigured
/// detector never fires.
pub proof fn lemma_fires_once_per_arrival(configured: bool, was_at_edge: bool)
    ensures
        !configured ==> !spec_observe(configured, was_at_edge, true).0 && !spec_observe(configured, was_at_edge, false).0,
        configured && spec_observe(configured, was_at_edge, true).0 ==> {
            let latched = spec_observe(configured, was_at_edge, true).1;
            &&& !spec_observe(configured, latched, true).0
            &&& spec_observe(configured, spec_observe(configured, latched, false).1, true).0
        },
        !spec_observe(configured, was_at_edge, false).0,
{
}

/// A detector that keeps observing the cursor at the edge stays latched and
/// fires nothing: only leaving the edge re-arms it.
pub proof fn lemma_staying_at_edge_keeps_latch()
    ensures
        spec_observe(true, true, true) == (false, true),
{
}

/// The fires and the final latch of a detector that sees `obs`, one
/// observation after another, starting with latch `was_at_edge`.
pub open spec fn spec_observe_all(configured: bool, was_at_edge: bool, obs: Seq<bool>) -> (Seq<bool>, bool)
    decreases obs.len(),
{
    if obs.len() == 0 {
        (Seq::<bool>::empty(), was_at_edge)
    } else {
        let (fire, latch) = spec_observe(configured, was_at_edge, obs[0]);
        let (rest, last) = spec_observe_all(configured, latch, obs.drop_first());
        (seq![fire] + rest, last)
    }
}

/// The cursor resting at the edge for any number of observations raises at
/// most one crossing: the first observation fires exactly when the cursor
/// was not already at the edge, every later one fires nothing, and the
/// detector ends latched.
pub proof fn lemma_resting_at_edge_fires_at_most_once(was_at_edge: bool, obs: Seq<bool>)
    requires
        obs.len() > 0,
        forall|k: int| 0 <= k < obs.len() ==> #[trigger] obs[k],
    ensures
        spec_observe_all(true, was_at_edge, obs).0.len() == obs.len(),
        spec_observe_all(true, was_at_edge, obs).0[0] == !was_at_edge,
        forall|k: int| 0 < k < obs.len() ==> !#[trigger] spec_observe_all(true, was_at_edge, obs).0[k],
        spec_observe_all(true, was_at_edge, obs).1,
    decreases obs.len(),
{
    assert(obs[0]);
    let latch = spec_observe(true, was_at_edge, obs[0]).1;
    assert(latch);
    let rest = obs.drop_first();
    if rest.len() > 0 {
        assert forall|k: int| 0 <= k < rest.len() implies #[trigger] rest[k] by {
            assert(obs[k + 1]);
        }
        lemma_resting_at_edge_fires_at_most_once(latch, rest);
        let (fires, _) = spec_observe_all(true, was_at_edge, obs);
        let (rf, _) = spec_observe_all(true, latch, rest);
        assert forall|k: int| 0 < k < obs.len() implies !#[trigger] fires[k] by {
            assert(fires[k] == rf[k - 1]);
        }
    } else {
        assert(spec_observe_all(true, latch, rest).0 =~= Seq::<bool>::empty());
    }
}

} // verus!
