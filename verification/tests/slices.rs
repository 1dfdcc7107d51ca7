use couchbase_lite::fl_slice::{FLSlice, FLSliceResult};

#[test]
fn test_null_slice_handling() {
    let null_slice = FLSlice::default();
    let slice: &[u8] = null_slice.as_bytes();
    assert!(slice.is_empty());

    let null_slice = FLSliceResult::new(Vec::new());
    let slice: &[u8] = null_slice.as_bytes();
    assert!(slice.is_empty());

    let null_slice = FLSliceResult::default();
    let slice: &[u8] = null_slice.as_bytes();
    assert!(slice.is_empty());
}
