use valkey_module::stream::{StreamId, StreamIterator, StreamRecord};
use valkey_module::valkey_string::ValkeyString;

fn entries() -> Vec<StreamRecord> {
    [(1u64, 1u64), (1, 2), (2, 0), (3, 5)]
        .iter()
        .map(|&(ms, seq)| StreamRecord {
            id: StreamId { ms, seq },
            fields: vec![(ValkeyString::create("foo"), ValkeyString::create("bar"))],
        })
        .collect()
}

fn ids(mut it: StreamIterator) -> Vec<(u64, u64)> {
    let mut out = Vec::new();
    while let Some(r) = it.next() {
        out.push((r.id.ms, r.id.seq));
    }
    out
}

#[test]
fn walks_whole_stream() {
    let e = entries();
    let it = StreamIterator::new(&e, None, None, false, false).ok().unwrap();
    assert_eq!(ids(it), vec![(1, 1), (1, 2), (2, 0), (3, 5)]);
    let it = StreamIterator::new(&e, None, None, false, true).ok().unwrap();
    assert_eq!(ids(it), vec![(3, 5), (2, 0), (1, 2), (1, 1)]);
}

#[test]
fn walks_range() {
    let e = entries();
    let from = Some(StreamId { ms: 1, seq: 2 });
    let to = Some(StreamId { ms: 2, seq: 0 });
    assert_eq!(ids(StreamIterator::new(&e, from, to, false, false).ok().unwrap()), vec![(1, 2), (2, 0)]);
    assert_eq!(ids(StreamIterator::new(&e, from, to, true, false).ok().unwrap()), vec![]);
    let to = Some(StreamId { ms: 3, seq: 5 });
    assert_eq!(ids(StreamIterator::new(&e, from, to, true, true).ok().unwrap()), vec![(2, 0)]);
}

#[test]
fn exclusive_bound_at_the_edge_fails() {
    let e = entries();
    assert!(StreamIterator::new(&e, Some(StreamId { ms: u64::MAX, seq: u64::MAX }), None, true, false).is_err());
    assert!(StreamIterator::new(&e, None, Some(StreamId { ms: 0, seq: 0 }), true, false).is_err());
    assert!(StreamIterator::new(&e, None, Some(StreamId { ms: 0, seq: 0 }), false, false).is_ok());
}
