//! Latest-value transport of pointer samples with at most one outstanding
//! wake of the consumer.

use crate::geometry::Point;
use vstd::prelude::*;

verus! {

#[derive(Clone, Copy, Debug, PartialEq, Eq, Structural)]
pub struct DragMotion {
    pub point: Point,
}

/// The newest sample that nobody has consumed, and whether a wake is on its
/// way to the consumer.
#[derive(Debug)]
pub struct DragMotionPublisher {
    latest: Option<DragMotion>,
    wake_queued: bool,
}

/// A publisher as a value.
pub struct PublisherView {
    pub latest: Option<DragMotion>,
    pub wake_queued: bool,
}

impl View for DragMotionPublisher {
    type V = PublisherView;

    closed spec fn view(&self) -> PublisherView {
        PublisherView { latest: self.latest, wake_queued: self.wake_queued }
    }
}

impl PublisherView {
    /// A wake is on its way exactly when a sample waits for it.
    pub open spec fn wf(self) -> bool {
        self.latest is Some <==> self.wake_queued
    }
}

impl DragMotionPublisher {
    pub fn new() -> (r: DragMotionPublisher)
        ensures
            r@ == (PublisherView { latest: None, wake_queued: false }),
            r@.wf(),
    {
        DragMotionPublisher { latest: None, wake_queued: false }
    }

    /// Publish a sample. Returns true exactly when the caller must enqueue a
    /// wake.
    pub fn publish(&mut self, motion: DragMotion) -> (r: bool)
        ensures
            final(self)@ == (PublisherView { latest: Some(motion), wake_queued: true }),
            final(self)@.wf(),
            r == !old(self)@.wake_queued,
    {
        self.latest = Some(motion);
        let wake = !self.wake_queued;
        self.wake_queued = true;
        wake
    }

    /// Consume the newest sample and re-arm publication.
    pub fn take_latest(&mut self) -> (r: Option<DragMotion>)
        ensures
            final(self)@ == (PublisherView { latest: None, wake_queued: false }),
            final(self)@.wf(),
            r == old(self)@.latest,
    {
        let motion = self.latest;
        self.latest = None;
        self.wake_queued = false;
        motion
    }

    pub fn wake_queued(&self) -> (r: bool)
        ensures
            r == self@.wake_queued,
    {
        self.wake_queued
    }
}

impl Default for DragMotionPublisher {
    fn default() -> (r: DragMotionPublisher)
        ensures
            r@ == (PublisherView { latest: None, wake_queued: false }),
            r@.wf(),
    {
        DragMotionPublisher::new()
    }
}

/// The state after each sample of `samples` was published in turn, and how
/// many of these publications asked for a wake.
pub open spec fn published(p: PublisherView, samples: Seq<DragMotion>) -> (PublisherView, nat)
    decreases samples.len(),
{
    if samples.len() == 0 {
        (p, 0)
    } else {
        let (before, wakes) = published(p, samples.drop_last());
        (
            PublisherView { latest: Some(samples.last()), wake_queued: true },
            if before.wake_queued {
                wakes
            } else {
                wakes + 1
            },
        )
    }
}

/// However many samples are published between two consumptions, exactly one
/// wake is asked for, and the consumer finds the newest sample.
pub proof fn law_publications_coalesce(p: PublisherView, samples: Seq<DragMotion>)
    requires
        !p.wake_queued,
        samples.len() > 0,
    ensures
        published(p, samples).0.latest == Some(samples.last()),
        published(p, samples).0.wake_queued,
        published(p, samples).1 == 1,
    decreases samples.len(),
{
    if samples.len() > 1 {
        law_publications_coalesce(p, samples.drop_last());
    } else {
        assert(published(p, samples.drop_last()) == (p, 0nat));
    }
}

/// Something that happens to a publisher.
pub enum PublisherStep {
    Published(DragMotion),
    Taken,
}

/// The publisher after a history of steps.
pub open spec fn after_steps(p: PublisherView, steps: Seq<PublisherStep>) -> PublisherView
    decreases steps.len(),
{
    if steps.len() == 0 {
        p
    } else {
        match steps.last() {
            PublisherStep::Published(motion) => PublisherView {
                latest: Some(motion),
                wake_queued: true,
            },
            PublisherStep::Taken => PublisherView { latest: None, wake_queued: false },
        }
    }
}

/// Step `i` is a publication that asks for a wake.
pub open spec fn asks_for_wake(p: PublisherView, steps: Seq<PublisherStep>, i: int) -> bool {
    steps[i] is Published && !after_steps(p, steps.take(i)).wake_queued
}

/// Some step before step `n` has asked for a wake, and no sample was taken
/// between the two.
pub open spec fn asked_since_take(p: PublisherView, steps: Seq<PublisherStep>, n: int) -> bool {
    exists|i: int|
        0 <= i < n && #[trigger] asks_for_wake(p, steps, i) && forall|j: int|
            i < j < n ==> (#[trigger] steps[j]) is Published
}

proof fn lemma_queued_wake_was_asked_for(p: PublisherView, steps: Seq<PublisherStep>, n: int)
    requires
        !p.wake_queued,
        p.latest is None,
        0 <= n <= steps.len(),
    ensures
        after_steps(p, steps.take(n)).wf(),
        after_steps(p, steps.take(n)).wake_queued <==> asked_since_take(p, steps, n),
    decreases n,
{
    if n > 0 {
        lemma_queued_wake_was_asked_for(p, steps, n - 1);
        let last = steps[n - 1];
        assert(steps.take(n).last() == last);
        if last is Published {
            if asked_since_take(p, steps, n - 1) {
                let i = choose|i: int|
                    0 <= i < n - 1 && #[trigger] asks_for_wake(p, steps, i) && forall|j: int|
                        i < j < n - 1 ==> (#[trigger] steps[j]) is Published;
                assert(asks_for_wake(p, steps, i));
            } else {
                assert(asks_for_wake(p, steps, n - 1));
            }
        } else if asked_since_take(p, steps, n) {
            let i = choose|i: int|
                0 <= i < n && #[trigger] asks_for_wake(p, steps, i) && forall|j: int|
                    i < j < n ==> (#[trigger] steps[j]) is Published;
            assert(i < n - 1);
            assert(steps[n - 1] is Published);
        }
    }
}

/// No publication is stranded: whatever samples were published and taken, a
/// sample that waits has a wake on its way. A publication asks for a wake
/// exactly when none was asked for since the last time that a sample was
/// taken.
pub proof fn law_no_publication_is_stranded(
    p: PublisherView,
    steps: Seq<PublisherStep>,
    motion: DragMotion,
)
    requires
        !p.wake_queued,
        p.latest is None,
    ensures
        after_steps(p, steps).latest is Some ==> after_steps(p, steps).wake_queued,
        asks_for_wake(p, steps.push(PublisherStep::Published(motion)), steps.len() as int)
            <==> !asked_since_take(p, steps, steps.len() as int),
{
    let n = steps.len() as int;
    assert(steps.take(n) =~= steps);
    assert(steps.push(PublisherStep::Published(motion)).take(n) =~= steps);
    lemma_queued_wake_was_asked_for(p, steps, n);
}

} // verus!
