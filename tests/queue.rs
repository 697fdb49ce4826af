use eclipse::dispatch::plan_deliveries;
use eclipse::handoff::{absorb_taken, drain_for_frame, enqueue_all, tally_offer, QUEUE_CAPACITY};

#[test]
fn overflow_drops_only_the_newest() {
    let (tx, mut rx) = tokio::sync::mpsc::channel::<u32>(4);
    let dropped = enqueue_all(&tx, vec![1, 2, 3, 4, 5]);
    assert_eq!(dropped, 1);
    assert_eq!(drain_for_frame(&mut rx, true), vec![1, 2, 3, 4]);
    assert!(drain_for_frame(&mut rx, true).is_empty());
}

#[test]
fn full_capacity_queue_drops_nothing_then_one() {
    let (tx, mut rx) = tokio::sync::mpsc::channel::<usize>(QUEUE_CAPACITY);
    let events: Vec<usize> = (0..QUEUE_CAPACITY).collect();
    assert_eq!(enqueue_all(&tx, events.clone()), 0);
    assert_eq!(enqueue_all(&tx, vec![999]), 1);
    assert_eq!(drain_for_frame(&mut rx, true), events);
}

#[test]
fn closed_queue_drops_everything() {
    let (tx, rx) = tokio::sync::mpsc::channel::<u32>(4);
    drop(rx);
    assert_eq!(enqueue_all(&tx, vec![1, 2]), 2);
}

#[test]
fn no_subscriber_discards_one_and_keeps_the_rest() {
    let (tx, mut rx) = tokio::sync::mpsc::channel::<u32>(8);
    enqueue_all(&tx, vec![10, 11, 12]);
    let drained = drain_for_frame(&mut rx, false);
    assert!(drained.is_empty());
    assert!(plan_deliveries(drained, Vec::<Option<char>>::new()).is_empty());
    assert_eq!(drain_for_frame(&mut rx, true), vec![11, 12]);
}

#[test]
fn no_subscriber_on_empty_queue() {
    let (_tx, mut rx) = tokio::sync::mpsc::channel::<u32>(2);
    assert!(drain_for_frame(&mut rx, false).is_empty());
}

#[test]
fn single_subscriber_gets_every_event_in_order() {
    let (tx, mut rx) = tokio::sync::mpsc::channel::<u32>(8);
    enqueue_all(&tx, vec![7, 8, 9]);
    let drained = drain_for_frame(&mut rx, true);
    let answers = vec![Some('s'); drained.len()];
    let plan = plan_deliveries(drained, answers);
    assert_eq!(plan, vec![(7, 's'), (8, 's'), (9, 's')]);
}

#[test]
fn plan_without_subscriber_is_empty() {
    assert!(plan_deliveries(vec![1u8, 2, 3], vec![None::<u8>, Some(4), Some(4)]).is_empty());
}

#[test]
fn plan_of_nothing_is_empty() {
    assert!(plan_deliveries(Vec::<u8>::new(), vec![Some(1u8)]).is_empty());
}

#[test]
fn plan_stops_when_registry_empties() {
    let plan = plan_deliveries(vec![1u8, 2, 3, 4], vec![Some('a'), Some('b'), None, Some('c')]);
    assert_eq!(plan, vec![(1, 'a'), (2, 'b')]);
}

#[test]
fn plan_follows_each_answer() {
    let plan = plan_deliveries(vec![5u8, 6], vec![Some('x'), Some('y')]);
    assert_eq!(plan, vec![(5, 'x'), (6, 'y')]);
}

#[test]
fn tally_counts_refusals_only() {
    assert_eq!(tally_offer(3, true), 3);
    assert_eq!(tally_offer(3, false), 4);
    assert_eq!(tally_offer(usize::MAX - 1, false), usize::MAX);
}

#[test]
fn enqueue_nothing_drops_nothing() {
    let (tx, _rx) = tokio::sync::mpsc::channel::<u32>(1);
    assert_eq!(enqueue_all(&tx, Vec::new()), 0);
}

#[test]
fn absorb_keeps_taken_events_in_order() {
    let mut drained = vec![1u32];
    assert!(absorb_taken(&mut drained, true, Some(2)));
    assert_eq!(drained, vec![1, 2]);
    assert!(!absorb_taken(&mut drained, true, None));
    assert_eq!(drained, vec![1, 2]);
}

#[test]
fn absorb_without_subscriber_discards() {
    let mut drained: Vec<u32> = Vec::new();
    assert!(!absorb_taken(&mut drained, false, Some(9)));
    assert!(drained.is_empty());
    assert!(!absorb_taken(&mut drained, false, None));
    assert!(drained.is_empty());
}
