//! Drags of a window with the mouse modifier held, as the event tap sees
//! them: raw motion comes in, throttled motion goes out.

use crate::exact::{law_order_is_exact, law_zero_and_one_are_exact};
use crate::geometry::Point;
use crate::ids::WindowServerId;
use crate::scalar::Scalar;
use vstd::prelude::*;

verus! {

/// Modifier-drag samples arrive faster than the window can be moved, and every
/// one costs a pass of the reactor. They are coalesced to roughly one per
/// display frame: 16 ms, about 62 Hz.
pub const MODIFIER_DRAG_MIN_INTERVAL_NS: u64 = 16_000_000;

#[derive(Clone, Copy, Debug, PartialEq, Eq, Structural)]
pub enum MouseDragAction {
    Move,
    Resize { left: bool, top: bool },
}

/// An in-progress drag with the mouse modifier held.
#[derive(Clone, Copy, Debug, PartialEq, Eq, Structural)]
pub struct ModifierDrag {
    pub window: WindowServerId,
    pub action: MouseDragAction,
    pub last: Point,
    /// Motion observed but not yet handed to the reactor.
    pub pending: Point,
    pub last_emit: u64,
}

impl ModifierDrag {
    /// Too little time has passed since the last release.
    pub open spec fn throttles(self, timestamp: u64) -> bool {
        timestamp < self.last_emit + MODIFIER_DRAG_MIN_INTERVAL_NS
    }

    /// The drag after motion to `loc`, with `total` the motion then pending.
    pub open spec fn accumulated(self, loc: Point, timestamp: u64, total: Point) -> ModifierDrag {
        if self.throttles(timestamp) {
            ModifierDrag { last: loc, pending: total, ..self }
        } else {
            ModifierDrag { last: loc, pending: Point::spec_zero(), last_emit: timestamp, ..self }
        }
    }

    /// The motion that is released when `total` is pending.
    pub open spec fn release(total: Point) -> Option<Point> {
        if total.at_zero() {
            None
        } else {
            Some(total)
        }
    }

    /// Records raw motion, releasing it only once per
    /// [`MODIFIER_DRAG_MIN_INTERVAL_NS`]. Motion held back is added to the next
    /// release, so throttling changes the update rate and never the distance.
    ///
    /// `total` is the pending motion plus that from the last location to
    /// `loc`.
    pub fn accumulate(&mut self, loc: Point, timestamp: u64, total: Point) -> (r: Option<Point>)
        ensures
            *final(self) == old(self).accumulated(loc, timestamp, total),
            r == (if old(self).throttles(timestamp) {
                None
            } else {
                ModifierDrag::release(total)
            }),
    {
        self.pending = total;
        self.last = loc;
        if timestamp.saturating_sub(self.last_emit) < MODIFIER_DRAG_MIN_INTERVAL_NS {
            return None;
        }
        self.last_emit = timestamp;
        self.flush()
    }

    /// Releases accumulated motion regardless of the interval, for drag end.
    pub fn flush(&mut self) -> (r: Option<Point>)
        ensures
            *final(self) == (ModifierDrag { pending: Point::spec_zero(), ..*old(self) }),
            r == ModifierDrag::release(old(self).pending),
    {
        let delta = self.pending;
        self.pending = Point::zero();
        if delta.is_zero() {
            None
        } else {
            Some(delta)
        }
    }
}

/// A sample of a drag: where the pointer is, when, and the motion that is then
/// pending.
pub struct DragSample {
    pub loc: Point,
    pub timestamp: u64,
    pub total: Point,
}

/// The drag after one sample.
pub open spec fn stepped(drag: ModifierDrag, sample: DragSample) -> ModifierDrag {
    drag.accumulated(sample.loc, sample.timestamp, sample.total)
}

/// What one sample releases.
pub open spec fn released(drag: ModifierDrag, sample: DragSample) -> Option<Point> {
    if drag.throttles(sample.timestamp) {
        None
    } else {
        ModifierDrag::release(sample.total)
    }
}

/// The drag after samples that come one after the other.
pub open spec fn stepped_all(drag: ModifierDrag, samples: Seq<DragSample>) -> ModifierDrag
    decreases samples.len(),
{
    if samples.len() == 0 {
        drag
    } else {
        stepped(stepped_all(drag, samples.drop_last()), samples.last())
    }
}

/// The exact value of a released motion along both axes; nothing counts as
/// zero.
pub open spec fn delta_units(delta: Option<Point>) -> (int, int) {
    match delta {
        Some(delta) => (delta.x.units(), delta.y.units()),
        None => (0, 0),
    }
}

/// The exact sum of all that the samples release.
pub open spec fn released_units(drag: ModifierDrag, samples: Seq<DragSample>) -> (int, int)
    decreases samples.len(),
{
    if samples.len() == 0 {
        (0, 0)
    } else {
        let before = released_units(drag, samples.drop_last());
        let delta = delta_units(
            released(stepped_all(drag, samples.drop_last()), samples.last()),
        );
        (before.0 + delta.0, before.1 + delta.1)
    }
}

/// The total of `sample` is exactly the pending motion plus that from the last
/// location.
pub open spec fn exact_total(drag: ModifierDrag, sample: DragSample) -> bool {
    &&& sample.total.finite()
    &&& sample.total.x.units() == drag.pending.x.units() + (sample.loc.x.units()
        - drag.last.x.units())
    &&& sample.total.y.units() == drag.pending.y.units() + (sample.loc.y.units()
        - drag.last.y.units())
}

/// Every total is exact.
pub open spec fn exact_totals(drag: ModifierDrag, samples: Seq<DragSample>) -> bool
    decreases samples.len(),
{
    samples.len() > 0 ==> {
        &&& exact_totals(drag, samples.drop_last())
        &&& exact_total(stepped_all(drag, samples.drop_last()), samples.last())
    }
}

proof fn lemma_release_is_whole(total: Point)
    requires
        total.finite(),
    ensures
        delta_units(ModifierDrag::release(total)) == (total.x.units(), total.y.units()),
{
    law_zero_and_one_are_exact();
    law_order_is_exact(total.x, Scalar::spec_zero());
    law_order_is_exact(total.y, Scalar::spec_zero());
}

proof fn lemma_motion_adds_up(drag: ModifierDrag, samples: Seq<DragSample>)
    requires
        drag.pending.finite(),
        exact_totals(drag, samples),
    ensures
        ({
            let after = stepped_all(drag, samples);
            let sum = released_units(drag, samples);
            &&& after.pending.finite()
            &&& sum.0 + after.pending.x.units() == drag.pending.x.units() + (after.last.x.units()
                - drag.last.x.units())
            &&& sum.1 + after.pending.y.units() == drag.pending.y.units() + (after.last.y.units()
                - drag.last.y.units())
        }),
    decreases samples.len(),
{
    if samples.len() > 0 {
        lemma_motion_adds_up(drag, samples.drop_last());
        lemma_release_is_whole(samples.last().total);
        law_zero_and_one_are_exact();
    }
}

/// No motion is lost: where the totals are exact, what the samples of a drag
/// release, together with what is flushed at its end, adds up to the way from
/// the first location to the last. The flush releases all that is held back,
/// whatever the interval, and a second one nothing.
pub proof fn law_no_motion_is_lost(drag: ModifierDrag, samples: Seq<DragSample>)
    requires
        samples.len() > 0,
        drag.pending == Point::spec_zero(),
        exact_totals(drag, samples),
    ensures
        ({
            let after = stepped_all(drag, samples);
            let sum = released_units(drag, samples);
            let flushed = delta_units(ModifierDrag::release(after.pending));
            &&& after.last == samples.last().loc
            &&& sum.0 + flushed.0 == samples.last().loc.x.units() - drag.last.x.units()
            &&& sum.1 + flushed.1 == samples.last().loc.y.units() - drag.last.y.units()
            &&& ModifierDrag::release(after.pending) is None <==> flushed == (0int, 0int)
        }),
        ModifierDrag::release(Point::spec_zero()) is None,
{
    law_zero_and_one_are_exact();
    lemma_motion_adds_up(drag, samples);
    let after = stepped_all(drag, samples);
    lemma_release_is_whole(after.pending);
    law_order_is_exact(after.pending.x, Scalar::spec_zero());
    law_order_is_exact(after.pending.y, Scalar::spec_zero());
}

proof fn lemma_emissions_are_past(drag: ModifierDrag, samples: Seq<DragSample>, i: int)
    requires
        0 <= i < samples.len(),
        !stepped_all(drag, samples.take(i)).throttles(samples[i].timestamp),
    ensures
        samples[i].timestamp <= stepped_all(drag, samples).last_emit,
    decreases samples.len(),
{
    let before = samples.drop_last();
    if i == samples.len() - 1 {
        assert(samples.take(i) =~= before);
    } else {
        assert(before.take(i) =~= samples.take(i));
        assert(before[i] == samples[i]);
        lemma_emissions_are_past(drag, before, i);
    }
}

/// Between any two samples of a drag that are not held back, those that
/// release motion among them, at least the interval passes.
pub proof fn law_releases_keep_their_distance(
    drag: ModifierDrag,
    samples: Seq<DragSample>,
    i: int,
    j: int,
)
    requires
        0 <= i < j < samples.len(),
        !stepped_all(drag, samples.take(i)).throttles(samples[i].timestamp),
        !stepped_all(drag, samples.take(j)).throttles(samples[j].timestamp),
    ensures
        samples[j].timestamp - samples[i].timestamp >= MODIFIER_DRAG_MIN_INTERVAL_NS,
        released(stepped_all(drag, samples.take(i)), samples[i]) == ModifierDrag::release(
            samples[i].total,
        ),
{
    assert(samples.take(j).take(i) =~= samples.take(i));
    assert(samples.take(j)[i] == samples[i]);
    lemma_emissions_are_past(drag, samples.take(j), i);
}

} // verus!
