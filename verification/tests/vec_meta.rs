use shlrt::IoVecBufMut;
use shlrt::{IoVecEntry, IoVecMeta, VecBuf, read_vec_meta, write_vec_meta};

fn meta_of_regions() -> IoVecMeta {
    let iovec = VecBuf::from(vec![vec![0; 10], vec![0; 20], vec![0; 30]]);
    read_vec_meta(&iovec)
}

#[test]
fn test_read_vec_meta() {
    let iovec = VecBuf::from(vec![vec![0; 10], vec![0; 20], vec![0; 30]]);
    let mut meta = read_vec_meta(&iovec);
    assert_eq!(meta.len(), 60);
    assert_eq!(meta.count(), 3);
    assert_eq!(meta.entry_at(0).len, 10);
    assert_eq!(meta.entry_at(1).len, 20);
    assert_eq!(meta.entry_at(2).len, 30);
    meta.consume(15);
    assert_eq!(meta.offset(), 1);
    assert_eq!(meta.entry_at(meta.offset()).len, 15);
}

#[test]
fn test_write_vec_meta() {
    let mut iovec = VecBuf::from(vec![vec![0; 10], vec![0; 20], vec![0; 30]]);
    let mut meta = write_vec_meta(&mut iovec);
    assert_eq!(meta.len(), 60);
    assert_eq!(meta.count(), 3);
    assert_eq!(meta.entry_at(0).len, 10);
    assert_eq!(meta.entry_at(1).len, 20);
    assert_eq!(meta.entry_at(2).len, 30);
    meta.consume(15);
    assert_eq!(meta.offset(), 1);
    assert_eq!(meta.entry_at(meta.offset()).len, 15);
}

#[test]
fn consume_across_three_regions() {
    // A vectored write of three regions (10, 20, 30 bytes): consuming 15
    // passes the first region entirely, leaves the second with 15 bytes,
    // and reduces the total to 45.
    let mut meta = meta_of_regions();
    meta.consume(15);
    assert_eq!(meta.offset(), 1);
    assert_eq!(meta.entry_at(1).len, 15);
    assert_eq!(meta.len(), 45);
}

#[test]
fn consume_advances_base_of_partial_region() {
    let mut meta = meta_of_regions();
    meta.consume(15);
    // 5 bytes landed in the second region, so its base moved by 5.
    assert_eq!(meta.entry_at(1).base, 5);
    assert_eq!(meta.entry_at(0), IoVecEntry { base: 0, len: 10 });
}

#[test]
fn consume_exact_region_boundary() {
    let mut meta = meta_of_regions();
    meta.consume(10);
    assert_eq!(meta.offset(), 1);
    assert_eq!(meta.entry_at(1).len, 20);
    assert_eq!(meta.len(), 50);
}

#[test]
fn consume_zero_changes_nothing() {
    let mut meta = meta_of_regions();
    meta.consume(0);
    assert_eq!(meta.offset(), 0);
    assert_eq!(meta.len(), 60);
}

#[test]
fn consume_amounts_summing_to_total_drain_the_meta() {
    // Amounts summing to exactly the total length drive the snapshot to
    // an empty remaining state without fault.
    let mut meta = meta_of_regions();
    for k in [15usize, 5, 25, 10, 5] {
        meta.consume(k);
    }
    assert_eq!(meta.len(), 0);
    assert_eq!(meta.offset(), meta.count());
}

#[test]
fn meta_can_be_consumed_through_set_init() {
    let mut meta = meta_of_regions();
    meta.set_init(15);
    assert_eq!(meta.offset(), 1);
    assert_eq!(meta.len(), 45);
}

#[test]
fn vec_buf_round_trips_its_regions() {
    let buf = VecBuf::from(vec![vec![1, 2], vec![3]]);
    let vv = buf.into_vecs();
    assert_eq!(vv, vec![vec![1, 2], vec![3]]);
}

#[test]
fn vec_buf_set_init_distributes_through_the_capability() {
    // The writable-vectored capability itself pins the per-region
    // distribution, not just the inherent method.
    let mut buf = VecBuf::from(vec![vec![0; 10], vec![0; 20], vec![0; 30]]);
    buf.set_init(15);
    assert_eq!(buf.region_init(0), 10);
    assert_eq!(buf.region_init(1), 5);
    assert_eq!(buf.region_init(2), 30);
}

#[test]
fn vec_buf_mark_init_propagates_per_region() {
    let mut buf = VecBuf::from(vec![vec![0; 10], vec![0; 20], vec![0; 30]]);
    buf.mark_init(15);
    // The first region is covered whole, 5 bytes land in the second, and
    // the third keeps its old mark.
    assert_eq!(buf.region_init(0), 10);
    assert_eq!(buf.region_init(1), 5);
    assert_eq!(buf.region_init(2), 30);
}

#[test]
fn vec_buf_fill_first_writes_only_first_region() {
    let mut buf = VecBuf::from(vec![vec![0; 4], vec![0; 8]]);
    let n = buf.fill_first_from(&[9, 8, 7, 6, 5]);
    assert_eq!(n, 4);
    assert_eq!(buf.region_init(0), 4);
    let vv = buf.into_vecs();
    assert_eq!(vv[0], vec![9, 8, 7, 6]);
    assert_eq!(vv[1], vec![0; 8]);
}
