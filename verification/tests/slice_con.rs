use xtc::slice_con::{GetResult, SliceCon};

#[test]
fn test_slice_virtual_gaps() {
    // 0 1 2          3
    // 3 4 5 6 7      3  8
    //                3  8  8
    // 8 9            3  8  8  10
    let mut v = SliceCon::<()>::default();
    v.add_virtual_gap(3);
    v.add_virtual_gap(5);
    v.add_virtual_gap(0);
    v.add_virtual_gap(0);
    v.add_virtual_gap(0);
    v.add_virtual_gap(2);
    assert_eq!(v.get(0), GetResult::VirtualGap { id: 0, index: 0 });
    assert_eq!(v.get(1), GetResult::VirtualGap { id: 0, index: 1 });
    assert_eq!(v.get(2), GetResult::VirtualGap { id: 0, index: 2 });
    assert_eq!(v.get(3), GetResult::VirtualGap { id: 1, index: 0 });
    assert_eq!(v.get(4), GetResult::VirtualGap { id: 1, index: 1 });
    assert_eq!(v.get(5), GetResult::VirtualGap { id: 1, index: 2 });
    assert_eq!(v.get(6), GetResult::VirtualGap { id: 1, index: 3 });
    assert_eq!(v.get(7), GetResult::VirtualGap { id: 1, index: 4 });
    assert_eq!(v.get(8), GetResult::VirtualGap { id: 5, index: 0 });
    assert_eq!(v.get(9), GetResult::VirtualGap { id: 5, index: 1 });
    assert_eq!(v.get(10), GetResult::OutOfRange);
}

#[test]
fn test_slice_data() {
    let mut v = SliceCon::<u64>::default();
    v.add_slice(&[0, 1, 2, 3]);
    v.add_slice(&[4, 5]);
    v.add_slice(&[]);
    v.add_slice(&[6]);
    v.add_slice(&[7]);
    for i in 0..=7u64 {
        assert_eq!(v.get(i), GetResult::Data(&i));
    }
    assert_eq!(v.get(8), GetResult::OutOfRange);
}
