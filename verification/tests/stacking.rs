use timeline_layout::{assign_lanes, EventStackingManager, EventTime, TimePeriod, Timestamp};

fn single(year: u32) -> EventTime {
    EventTime::Single(Timestamp::Year(year))
}

fn span(start: u32, end: u32) -> EventTime {
    EventTime::Period(TimePeriod::new(Timestamp::Year(start), Timestamp::Year(end)).unwrap())
}

#[test]
fn events_that_do_not_overlap_all_lie_in_lane_zero() {
    let times = vec![single(1500), single(1520), span(1540, 1560), single(1580), span(1600, 1700)];
    assert_eq!(assign_lanes(&times), vec![0, 0, 0, 0, 0]);
}

#[test]
fn a_chain_of_three_gets_lanes_zero_one_one() {
    let a = single(1900);
    let b = single(1910);
    let c = single(1920);
    assert!(a.overlaps(&b));
    assert!(b.overlaps(&c));
    assert!(!a.overlaps(&c));
    assert_eq!(assign_lanes(&vec![a, b, c]), vec![0, 1, 1]);
}

#[test]
fn three_events_that_all_overlap_climb_lane_by_lane() {
    let times = vec![single(1900), single(1905), single(1910)];
    assert_eq!(assign_lanes(&times), vec![0, 1, 2]);
}

#[test]
fn lanes_follow_the_order_of_the_input() {
    let forward = vec![single(1750), span(1760, 1770), single(1755)];
    assert_eq!(assign_lanes(&forward), vec![0, 0, 2]);
    let other = vec![single(1755), single(1750), span(1760, 1770)];
    assert_eq!(assign_lanes(&other), vec![0, 1, 1]);
}

#[test]
fn no_events_no_lanes() {
    assert_eq!(assign_lanes(&Vec::new()), Vec::<u32>::new());
}

#[test]
fn equal_events_stack() {
    let times = vec![span(1700, 1800), span(1700, 1800), span(1700, 1800), span(1700, 1800)];
    assert_eq!(assign_lanes(&times), vec![0, 1, 2, 3]);
}

#[test]
fn the_manager_counts_overlaps_with_all_earlier_events() {
    let mut stacking = EventStackingManager::new();
    assert_eq!(stacking.register(single(1900)), 0);
    assert_eq!(stacking.register(single(1950)), 0);
    assert_eq!(stacking.register(span(1895, 1960)), 2);
    assert_eq!(stacking.register(single(1905)), 2);
    assert_eq!(stacking.register(single(2000)), 0);
}

#[test]
fn the_manager_and_the_batch_agree() {
    let times = vec![single(1750), span(1760, 1770), single(1755), span(1700, 1800), single(1790)];
    let mut stacking = EventStackingManager::new();
    let one_by_one: Vec<u32> = times.iter().map(|time| stacking.register(*time)).collect();
    assert_eq!(one_by_one, assign_lanes(&times));
    assert_eq!(one_by_one, vec![0, 0, 2, 3, 1]);
}
