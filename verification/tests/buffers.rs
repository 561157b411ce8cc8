use shlrt::{
    FixedBuf, IoBuf, IoBufMut, IoVecWrapper, IoVecWrapperMut, RangeEdge, RawBuf, Slice, SliceMut,
    VecBuf, parse_range, slice, slice_mut,
};

#[test]
fn parse_range_resolves_each_edge_kind() {
    assert_eq!(parse_range(RangeEdge::Included(2), RangeEdge::Excluded(7), 10), (2, 7));
    assert_eq!(parse_range(RangeEdge::Unbounded, RangeEdge::Unbounded, 10), (0, 10));
    assert_eq!(parse_range(RangeEdge::Excluded(2), RangeEdge::Included(7), 10), (3, 8));
    assert_eq!(parse_range(RangeEdge::Included(0), RangeEdge::Unbounded, 4), (0, 4));
}

#[test]
fn slice_then_into_inner_returns_the_buffer() {
    // Slicing then immediately unwrapping gives back a buffer that
    // behaves exactly like the original.
    let buf: Vec<u8> = vec![10, 20, 30, 40, 50];
    let s = Slice::new(buf, 1, 4);
    assert_eq!(s.begin(), 1);
    assert_eq!(s.end(), 4);
    assert_eq!(s.bytes_init(), 3);
    let back = s.into_inner();
    assert_eq!(back, vec![10, 20, 30, 40, 50]);
}

#[test]
fn slice_mut_then_into_inner_returns_the_buffer() {
    let buf = FixedBuf::from_vec(vec![1, 2, 3, 4]);
    let s = SliceMut::new(buf, 0, 4);
    let back = s.into_inner();
    assert_eq!(back.bytes_init(), 4);
    assert_eq!(back.into_vec(), vec![1, 2, 3, 4]);
}

#[test]
fn slice_free_function_resolves_ranges() {
    let buf: Vec<u8> = vec![0, 1, 2, 3, 4, 5, 6, 7];
    let s = slice(buf, RangeEdge::Included(2), RangeEdge::Excluded(6));
    assert_eq!((s.begin(), s.end()), (2, 6));
    assert_eq!(s.bytes_init(), 4);
}

#[test]
fn slice_mut_set_init_forwards_with_the_offset() {
    // Marking n bytes of a [begin, end) view marks begin + n bytes of
    // the wrapped buffer.
    let mut buf = FixedBuf::with_capacity(16);
    buf.set_init(4);
    let mut s = slice_mut(buf, RangeEdge::Included(4), RangeEdge::Excluded(12));
    assert_eq!(s.bytes_total(), 8);
    assert_eq!(s.bytes_init(), 0);
    s.set_init(5);
    let buf = s.into_inner();
    assert_eq!(buf.bytes_init(), 9);
}

#[test]
fn slice_mut_clamps_to_the_buffers_initialized_length() {
    // A short read that initialized nothing leaves the view's readable
    // part clamped to what the buffer actually guarantees.
    let buf = FixedBuf::with_capacity(16);
    let s = SliceMut::new(buf, 0, 8);
    assert_eq!(s.bytes_init(), 0);
}

#[test]
fn fixed_buf_set_init_never_shrinks() {
    let mut buf = FixedBuf::with_capacity(8);
    buf.set_init(6);
    assert_eq!(buf.bytes_init(), 6);
    buf.set_init(2);
    assert_eq!(buf.bytes_init(), 6, "the mark is monotonic-safe");
    buf.set_init(8);
    assert_eq!(buf.bytes_init(), 8);
}

#[test]
fn fixed_buf_fill_from_copies_and_marks() {
    let mut buf = FixedBuf::with_capacity(4);
    let n = buf.fill_from(&[7, 8, 9, 10, 11]);
    assert_eq!(n, 4, "only what fits is copied");
    assert_eq!(buf.bytes_init(), 4);
    assert_eq!(buf.byte_at(0), 7);
    assert_eq!(buf.byte_at(3), 10);

    let mut small = FixedBuf::with_capacity(8);
    let n = small.fill_from(&[1, 2]);
    assert_eq!(n, 2);
    assert_eq!(small.bytes_init(), 2);
}

#[test]
fn raw_buf_reports_its_range() {
    let raw = RawBuf::new(4096, 512);
    assert_eq!(raw.read_base(), 4096);
    assert_eq!(raw.bytes_init(), 512);
    let empty = RawBuf::uninit();
    assert_eq!(empty.bytes_init(), 0);
}

#[test]
fn raw_buf_from_first_iovec_region() {
    let vb = VecBuf::from(vec![vec![0; 6], vec![0; 10]]);
    let raw = RawBuf::new_from_iovec(&vb).expect("two regions are there");
    assert_eq!(raw.bytes_init(), 6);

    let empty = VecBuf::from(Vec::new());
    assert!(RawBuf::new_from_iovec(&empty).is_none());
}

#[test]
fn iovec_wrappers_refuse_empty_buffers() {
    let empty = VecBuf::from(Vec::new());
    let back = match IoVecWrapper::new(empty) {
        Ok(_) => panic!("an empty vectored buffer must be handed back"),
        Err(b) => b,
    };
    assert!(matches!(IoVecWrapperMut::new(back), Err(_)));

    let vb = VecBuf::from(vec![vec![0; 5]]);
    let w = match IoVecWrapper::new(vb) {
        Ok(w) => w,
        Err(_) => panic!("one region is there"),
    };
    assert_eq!(w.bytes_init(), 5);
    let vb = w.into_inner();
    let mut wm = match IoVecWrapperMut::new(vb) {
        Ok(w) => w,
        Err(_) => panic!("one region is there"),
    };
    assert_eq!(wm.bytes_total(), 5);
    assert_eq!(wm.bytes_init(), 5);
}
