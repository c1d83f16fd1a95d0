use world_gen::vector::IVec3;

#[test]
fn new_sets_the_components() {
    assert_eq!(IVec3::new(1, -2, 3), IVec3 { x: 1, y: -2, z: 3 });
}

#[test]
fn dot_is_the_sum_of_products() {
    let a = IVec3::new(1, 2, 3);
    let b = IVec3::new(4, -5, 6);
    assert_eq!(a.dot(b), 4 - 10 + 18);
    assert_eq!(b.dot(a), 12);
    assert_eq!(a.dot(IVec3::new(0, 0, 0)), 0);
}

#[test]
fn dot_does_not_overflow_at_the_extremes() {
    let low = IVec3::new(i32::MIN, i32::MIN, i32::MIN);
    let high = IVec3::new(i32::MAX, i32::MAX, i32::MAX);
    let m = i32::MIN as i128;
    let h = i32::MAX as i128;
    assert_eq!(low.dot(low), 3 * m * m);
    assert_eq!(low.dot(high), 3 * m * h);
    assert_eq!(high.dot(high), 3 * h * h);
}
