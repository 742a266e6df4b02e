use monkeys::{new_empty_stream, CoroutineId, IdCounter};

#[test]
fn coroutine_id_round_trips_through_usize() {
    let id = CoroutineId::from_usize(42);
    assert_eq!(id.as_usize(), 42);
    assert_eq!(id, CoroutineId(42));
}

#[test]
fn counter_hands_out_consecutive_ids() {
    let mut c = IdCounter::new();
    assert_eq!(c.peek(), 0);
    let a = CoroutineId::new(&mut c);
    let b = CoroutineId::new(&mut c);
    let d = CoroutineId::new(&mut c);
    assert_eq!(a, CoroutineId(0));
    assert_eq!(b, CoroutineId(1));
    assert_eq!(d, CoroutineId(2));
    assert_eq!(c.peek(), 3);
    assert!(a < b && b < d);
}

#[test]
fn empty_stream_is_external_with_fresh_id() {
    let mut c = IdCounter::new();
    let _ = CoroutineId::new(&mut c);
    let (id, stream) = new_empty_stream(&mut c);
    assert_eq!(id, CoroutineId(1));
    assert_eq!(stream.co_id(), id);
    assert!(stream.is_external());
    assert!(!stream.is_done());
    assert_eq!(c.peek(), 2);
}

#[test]
fn ids_order_as_their_numbers() {
    assert!(CoroutineId(1) < CoroutineId(2));
    assert!(CoroutineId(9) > CoroutineId(3));
    assert!(CoroutineId(4) <= CoroutineId(4));
    assert_eq!(CoroutineId(2).cmp(&CoroutineId(5)), std::cmp::Ordering::Less);
    let mut ids = vec![CoroutineId(3), CoroutineId(0), CoroutineId(2)];
    ids.sort();
    assert_eq!(ids, vec![CoroutineId(0), CoroutineId(2), CoroutineId(3)]);
}
