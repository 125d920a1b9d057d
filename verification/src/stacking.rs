//! Lanes: how events that are close in time are kept from colliding.
//!
//! Events are placed in the order in which they are given. The lane of an
//! event is the number of events placed before it that it overlaps. This is a
//! running count and no colouring of the overlap graph: where three events
//! overlap in a chain, the third one shares the lane of the second although a
//! free lane lies below it. The count is simple and depends on nothing but the
//! order of the events.

use vstd::prelude::*;

use crate::timeline_data::EventTime;

verus! {

/// The number of the `placed` event times that overlap `time`.
pub open spec fn overlap_count(placed: Seq<EventTime>, time: EventTime) -> nat {
    placed.filter(|earlier: EventTime| earlier.overlaps(&time)).len()
}

/// The lane of the event at index `k`: the number of events before it that
/// overlap it.
pub open spec fn lane_of(times: Seq<EventTime>, k: int) -> nat
    recommends
        0 <= k < times.len(),
{
    overlap_count(times.take(k), times[k])
}

/// Counting over one more placed event adds one exactly when that event
/// overlaps `time`; over no events the count is zero.
pub proof fn lemma_overlap_count_step(placed: Seq<EventTime>, last: EventTime, time: EventTime)
    ensures
        overlap_count(Seq::<EventTime>::empty(), time) == 0,
        overlap_count(placed.push(last), time) == overlap_count(placed, time) + if last.overlaps(
            &time,
        ) {
            1int
        } else {
            0int
        },
        overlap_count(placed, time) <= placed.len(),
{
    let pred = |earlier: EventTime| earlier.overlaps(&time);
    placed.lemma_filter_len_push(pred, last);
    placed.lemma_filter_len(pred);
    Seq::<EventTime>::empty().lemma_filter_len(pred);
}

/// The events placed so far, in the order in which they were registered.
pub struct EventStackingManager {
    already_placed: Vec<EventTime>,
}

impl View for EventStackingManager {
    type V = Seq<EventTime>;

    closed spec fn view(&self) -> Seq<EventTime> {
        self.already_placed@
    }
}

impl EventStackingManager {
    /// A manager with nothing placed yet.
    pub fn new() -> (manager: Self)
        ensures
            manager@ == Seq::<EventTime>::empty(),
    {
        Self { already_placed: Vec::new() }
    }

    /// Places `time` after the events registered so far and returns its lane:
    /// the number of those events that overlap it.
    pub fn register(&mut self, time: EventTime) -> (overlaps: u32)
        requires
            old(self)@.len() <= u32::MAX,
        ensures
            final(self)@ == old(self)@.push(time),
            overlaps == overlap_count(old(self)@, time),
    {
        let mut overlaps: u32 = 0;
        let n = self.already_placed.len();
        let mut i: usize = 0;
        proof {
            lemma_overlap_count_step(self@.take(0), time, time);
            assert(self@.take(0) =~= Seq::<EventTime>::empty());
        }
        while i < n
            invariant
                i <= n,
                n == self.already_placed@.len(),
                n <= u32::MAX,
                self.already_placed@ == old(self)@,
                overlaps == overlap_count(self.already_placed@.take(i as int), time),
                overlaps <= i,
            decreases n - i,
        {
            proof {
                let placed = self.already_placed@;
                lemma_overlap_count_step(placed.take(i as int), placed[i as int], time);
                assert(placed.take(i + 1) =~= placed.take(i as int).push(placed[i as int]));
            }
            if self.already_placed[i].overlaps(&time) {
                overlaps += 1;
            }
            i += 1;
        }
        proof {
            assert(self.already_placed@.take(n as int) =~= self.already_placed@);
        }
        self.already_placed.push(time);
        overlaps
    }
}

/// The lane of every event, in the order of the events.
pub fn assign_lanes(times: &Vec<EventTime>) -> (lanes: Vec<u32>)
    requires
        times@.len() <= u32::MAX,
    ensures
        lanes@.len() == times@.len(),
        forall|k: int| 0 <= k < times@.len() ==> #[trigger] lanes@[k] == lane_of(times@, k),
{
    let mut stacking = EventStackingManager::new();
    let mut lanes: Vec<u32> = Vec::new();
    let mut k: usize = 0;
    while k < times.len()
        invariant
            k <= times@.len(),
            times@.len() <= u32::MAX,
            stacking@ == times@.take(k as int),
            lanes@.len() == k,
            forall|j: int| 0 <= j < k ==> #[trigger] lanes@[j] == lane_of(times@, j),
        decreases times@.len() - k,
    {
        let lane = stacking.register(times[k]);
        proof {
            assert(times@.take(k + 1) =~= times@.take(k as int).push(times@[k as int]));
        }
        lanes.push(lane);
        k += 1;
    }
    lanes
}

/// Where no two events overlap, every event lies in lane 0.
pub proof fn lemma_disjoint_events_share_lane_zero(times: Seq<EventTime>)
    requires
        forall|i: int, j: int|
            #![trigger times[i], times[j]]
            0 <= i < j < times.len() ==> !times[i].overlaps(&times[j]),
    ensures
        forall|k: int| 0 <= k < times.len() ==> #[trigger] lane_of(times, k) == 0,
{
    assert forall|k: int| 0 <= k < times.len() implies #[trigger] lane_of(times, k) == 0 by {
        let time = times[k];
        let pred = |earlier: EventTime| earlier.overlaps(&time);
        let before = times.take(k);
        assert forall|i: int| 0 <= i < before.len() implies !pred(#[trigger] before[i]) by {
            assert(before[i] == times[i]);
            assert(!times[i].overlaps(&times[k]));
        }
        before.lemma_all_neg_filter_empty(pred);
    }
}

/// The lane counts overlaps with all earlier events and does not look for the
/// lowest free lane: of three events of which the middle one overlaps both
/// others, and those two do not overlap each other, the second and the third
/// both lie in lane 1.
pub proof fn lemma_chain_of_three_lanes(a: EventTime, b: EventTime, c: EventTime)
    requires
        a.overlaps(&b),
        b.overlaps(&c),
        !a.overlaps(&c),
    ensures
        lane_of(seq![a, b, c], 0) == 0,
        lane_of(seq![a, b, c], 1) == 1,
        lane_of(seq![a, b, c], 2) == 1,
{
    let times = seq![a, b, c];
    let none = Seq::<EventTime>::empty();
    assert(times.take(0) =~= none);
    assert(times.take(1) =~= none.push(a));
    assert(times.take(2) =~= none.push(a).push(b));
    lemma_overlap_count_step(none, a, a);
    lemma_overlap_count_step(none, a, b);
    lemma_overlap_count_step(none, a, c);
    lemma_overlap_count_step(none.push(a), b, c);
}

} // verus!
