use shlrt::{CompletionMeta, CqEvent, LifecycleKind, OpTable, RingCore};

fn meta_ok(n: u32) -> CompletionMeta {
    CompletionMeta { result: Ok(n), flags: 0 }
}

#[test]
fn submitted_polled_completed_wakes_exactly_the_polled_waker() {
    // A slot started as Submitted, polled once, then completed, wakes
    // exactly the waker supplied at poll time; a second poll after the
    // completion returns the result without panicking.
    let mut table: OpTable<&'static str, ()> = OpTable::new();
    let i = table.insert();
    assert_eq!(table.kind_of(i), LifecycleKind::Submitted);

    assert!(table.poll_op(i, "first waker").is_none());
    assert_eq!(table.kind_of(i), LifecycleKind::Waiting);

    let wake = table.complete(i, meta_ok(5));
    assert_eq!(wake, Some("first waker"));
    assert_eq!(table.kind_of(i), LifecycleKind::Completed);

    let out = table.poll_op(i, "second waker");
    match out {
        Some(meta) => assert!(matches!(meta.result, Ok(5))),
        None => panic!("completed operation reported pending"),
    }
    assert!(!table.is_occupied(i));
}

#[test]
fn completing_an_unpolled_slot_wakes_nobody() {
    let mut table: OpTable<&'static str, ()> = OpTable::new();
    let i = table.insert();
    let wake = table.complete(i, meta_ok(0));
    assert_eq!(wake, None);
    assert_eq!(table.kind_of(i), LifecycleKind::Completed);
}

#[test]
fn polling_twice_keeps_the_latest_waker() {
    let mut table: OpTable<&'static str, ()> = OpTable::new();
    let i = table.insert();
    assert!(table.poll_op(i, "stale").is_none());
    assert!(table.poll_op(i, "fresh").is_none());
    let wake = table.complete(i, meta_ok(1));
    assert_eq!(wake, Some("fresh"));
}

#[test]
fn dropped_slot_is_freed_only_by_the_harvested_completion() {
    // A slot that is polled (Waiting) and then dropped moves to Ignored
    // and keeps its slot until a matching completion event is harvested
    // — never before.
    let mut table: OpTable<&'static str, Vec<u8>> = OpTable::new();
    let i = table.insert();
    assert!(table.poll_op(i, "waker").is_none());

    let ret = table.drop_op(i, vec![1, 2, 3]);
    assert!(ret.is_none(), "an in-flight drop must defer its payload");
    assert!(table.is_occupied(i), "the slot must stay alive");
    assert_eq!(table.kind_of(i), LifecycleKind::Ignored);

    let wake = table.complete(i, meta_ok(3));
    assert_eq!(wake, None, "nobody is waiting for an ignored slot");
    assert!(!table.is_occupied(i), "the harvested completion frees the slot");
}

#[test]
fn dropping_a_completed_slot_returns_the_payload_at_once() {
    let mut table: OpTable<&'static str, Vec<u8>> = OpTable::new();
    let i = table.insert();
    table.complete(i, meta_ok(2));
    let ret = table.drop_op(i, vec![7]);
    assert_eq!(ret, Some(vec![7]));
    assert!(!table.is_occupied(i));
}

#[test]
fn freed_indices_are_reused_but_never_while_in_flight() {
    let mut table: OpTable<u32, ()> = OpTable::new();
    let a = table.insert();
    let b = table.insert();
    assert_ne!(a, b);

    // Resolve `a`; its index becomes reusable while `b` is in flight.
    table.complete(a, meta_ok(0));
    assert!(table.poll_op(a, 1).is_some());

    let c = table.insert();
    assert_eq!(c, a, "the freed index is reused");
    assert_ne!(c, b, "an in-flight index is never handed out");
    assert_eq!(table.slot_count(), 2);
}

#[test]
fn reserved_tags_are_bookkeeping_only() {
    let mut ring: RingCore<u32, ()> = RingCore::new(4, false);
    let events = vec![
        CqEvent { user_data: shlrt::CANCEL_USERDATA, result: 0, flags: 0 },
        CqEvent { user_data: shlrt::TIMEOUT_USERDATA, result: -62, flags: 0 },
    ];
    let wakes = ring.tick(&events);
    assert!(wakes.is_empty());
    assert_eq!(ring.table_ref().slot_count(), 0);
}
