//! The decoder's per-edge decisions: each captured stamp goes into the
//! history, and the resulting interval is either dropped or handed on as a
//! measurement for the state estimator.

use vstd::prelude::*;
use crate::geometry::WheelGeometry;
use crate::history::{push_bounded, TriggerWheel, TICK_HISTORY_CAPACITY};
use crate::ticks::{spec_interval, CounterWidth};

verus! {

/// Where the decoder stands: before the first stamp, or after it.
#[derive(Clone, Copy, Debug, PartialEq, Eq, Structural)]
pub enum DecoderPhase {
    Idle,
    Tracking,
}

/// What the caller does with the estimator after an edge.
#[derive(Clone, Copy, Debug, PartialEq, Eq, Structural)]
pub enum EdgeAction {
    /// The first stamp: there is no interval yet, the estimator is left alone.
    Started,
    /// A zero interval, a double trigger: the sample is dropped and the
    /// estimator is left alone.
    Discarded,
    /// A valid interval in ticks, never zero: predict, then update with the
    /// velocity it gives.
    Measured(u32),
}

/// The action for a new stamp `tick` after the history `h`.
pub open spec fn spec_edge_action(h: Seq<u32>, width: CounterWidth, tick: u32) -> EdgeAction {
    if h.len() == 0 {
        EdgeAction::Started
    } else {
        let i = spec_interval(width, h.last() as int, tick as int);
        if i == 0 {
            EdgeAction::Discarded
        } else {
            EdgeAction::Measured(i as u32)
        }
    }
}

/// `n + 1`, held at the largest `u64`.
pub open spec fn saturating_inc(n: u64) -> u64 {
    if n < u64::MAX {
        (n + 1) as u64
    } else {
        n
    }
}

/// Decoder state: the stamp history of one wheel and the counts of edges
/// seen and of samples dropped.
pub struct Decoder {
    wheel: TriggerWheel,
    geometry: WheelGeometry,
    edges: u64,
    discarded: u64,
}

impl Decoder {
    pub closed spec fn history(&self) -> Seq<u32> {
        self.wheel@
    }

    pub closed spec fn counter_width(&self) -> CounterWidth {
        self.wheel.counter_width()
    }

    pub closed spec fn wheel_geometry(&self) -> WheelGeometry {
        self.geometry
    }

    pub closed spec fn edges_seen(&self) -> u64 {
        self.edges
    }

    pub closed spec fn samples_discarded(&self) -> u64 {
        self.discarded
    }

    pub open spec fn spec_phase(&self) -> DecoderPhase {
        if self.history().len() == 0 {
            DecoderPhase::Idle
        } else {
            DecoderPhase::Tracking
        }
    }

    pub open spec fn wf(&self) -> bool {
        self.history().len() <= TICK_HISTORY_CAPACITY
    }

    /// An idle decoder for a counter of the given width and a wheel of the
    /// given pattern.
    pub fn new(width: CounterWidth, geometry: WheelGeometry) -> (r: Decoder)
        ensures
            r.wf(),
            r.history() == Seq::<u32>::empty(),
            r.counter_width() == width,
            r.wheel_geometry() == geometry,
            r.edges_seen() == 0,
            r.samples_discarded() == 0,
    {
        Decoder { wheel: TriggerWheel::with_counter_width(width), geometry, edges: 0, discarded: 0 }
    }

    /// Takes the stamp of one tooth edge: records it and says what the
    /// estimator is to do. A zero interval is counted as dropped.
    pub fn on_edge(&mut self, tick: u32) -> (r: EdgeAction)
        requires
            old(self).wf(),
        ensures
            final(self).wf(),
            r == spec_edge_action(old(self).history(), old(self).counter_width(), tick),
            final(self).history() == push_bounded(
                old(self).history(),
                TICK_HISTORY_CAPACITY as nat,
                tick,
            ),
            final(self).counter_width() == old(self).counter_width(),
            final(self).wheel_geometry() == old(self).wheel_geometry(),
            final(self).spec_phase() == DecoderPhase::Tracking,
            final(self).edges_seen() == saturating_inc(old(self).edges_seen()),
            final(self).samples_discarded() == if r == EdgeAction::Discarded {
                saturating_inc(old(self).samples_discarded())
            } else {
                old(self).samples_discarded()
            },
    {
        let interval = self.wheel.add_tick(tick);
        if self.edges < u64::MAX {
            self.edges = self.edges + 1;
        }
        match interval {
            None => EdgeAction::Started,
            Some(i) => {
                if i == 0 {
                    if self.discarded < u64::MAX {
                        self.discarded = self.discarded + 1;
                    }
                    EdgeAction::Discarded
                } else {
                    EdgeAction::Measured(i)
                }
            },
        }
    }

    /// Idle before the first stamp, tracking from then on.
    pub fn phase(&self) -> (r: DecoderPhase)
        requires
            self.wf(),
        ensures
            r == self.spec_phase(),
    {
        if self.wheel.ticks_count() == 0 {
            DecoderPhase::Idle
        } else {
            DecoderPhase::Tracking
        }
    }

    /// Number of edges taken so far, held at the largest `u64`.
    pub fn edge_count(&self) -> (r: u64)
        ensures
            r == self.edges_seen(),
    {
        self.edges
    }

    /// Number of samples dropped as zero intervals, held at the largest `u64`.
    pub fn discarded_count(&self) -> (r: u64)
        ensures
            r == self.samples_discarded(),
    {
        self.discarded
    }

    /// Number of stamps in the history.
    pub fn ticks_count(&self) -> (r: usize)
        ensures
            r == self.history().len(),
            r <= TICK_HISTORY_CAPACITY,
    {
        self.wheel.ticks_count()
    }

    /// The wheel pattern the decoder was made for.
    pub fn geometry(&self) -> (r: WheelGeometry)
        ensures
            r == self.wheel_geometry(),
    {
        self.geometry
    }
}

/// A stamp equal to the last one recorded gives a zero interval, so the
/// decoder drops it and the estimator is not updated for it.
pub proof fn lemma_repeated_stamp_is_discarded(h: Seq<u32>, width: CounterWidth, tick: u32)
    requires
        h.len() <= TICK_HISTORY_CAPACITY,
    ensures
        spec_edge_action(push_bounded(h, TICK_HISTORY_CAPACITY as nat, tick), width, tick)
            == EdgeAction::Discarded,
{
}

/// An interval handed to the estimator is never zero.
pub proof fn lemma_measured_interval_is_positive(h: Seq<u32>, width: CounterWidth, tick: u32)
    ensures
        spec_edge_action(h, width, tick) matches EdgeAction::Measured(i) ==> i > 0,
{
}

} // verus!
