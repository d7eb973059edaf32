use wav1d::utils::math::{ceil_log2, clip3, floor_log2};

#[test]
fn floor_log2_values() {
    assert_eq!(floor_log2(1), 0);
    assert_eq!(floor_log2(2), 1);
    assert_eq!(floor_log2(3), 1);
    assert_eq!(floor_log2(8), 3);
    assert_eq!(floor_log2(9), 3);
    assert_eq!(floor_log2(u64::MAX), 63);
}

#[test]
fn ceil_log2_values() {
    assert_eq!(ceil_log2(0), 0);
    assert_eq!(ceil_log2(1), 0);
    assert_eq!(ceil_log2(2), 1);
    assert_eq!(ceil_log2(3), 2);
    assert_eq!(ceil_log2(8), 3);
    assert_eq!(ceil_log2(9), 4);
    assert_eq!(ceil_log2(u64::MAX), 64);
}

#[test]
fn clip3_values() {
    assert_eq!(clip3(0, 10, -5), 0);
    assert_eq!(clip3(0, 10, 15), 10);
    assert_eq!(clip3(0, 10, 7), 7);
    assert_eq!(clip3(-3, 3, -3), -3);
    assert_eq!(clip3(-3, 3, 3), 3);
}
