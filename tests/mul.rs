use nvecslib::{NVec, NewNVec};

#[test]
fn mul_same_type_test() {
    let a = NVec { components: [1 as i8, 2 as i8, 3 as i8] };
    let b = NVec { components: [1 as i8, 2 as i8, 3 as i8] };
    let c = 1 as i8 * 1 as i8 + 2 as i8 * 2 as i8 + 3 as i8 * 3 as i8;
    let d = a * b;
    let e = b * a;
    assert_eq!(d, c);
    assert_eq!(e, c);

    let a = NVec { components: [1 as i16, 2 as i16, 3 as i16] };
    let b = NVec { components: [1 as i16, 2 as i16, 3 as i16] };
    let c = 1 as i16 * 1 as i16 + 2 as i16 * 2 as i16 + 3 as i16 * 3 as i16;
    let d = a * b;
    let e = b * a;
    assert_eq!(d, c);
    assert_eq!(e, c);

    let a = NVec { components: [1 as i32, 2 as i32, 3 as i32] };
    let b = NVec { components: [1 as i32, 2 as i32, 3 as i32] };
    let c = 1 as i32 * 1 as i32 + 2 as i32 * 2 as i32 + 3 as i32 * 3 as i32;
    let d = a * b;
    let e = b * a;
    assert_eq!(d, c);
    assert_eq!(e, c);

    let a = NVec { components: [1 as i64, 2 as i64, 3 as i64] };
    let b = NVec { components: [1 as i64, 2 as i64, 3 as i64] };
    let c = 1 as i64 * 1 as i64 + 2 as i64 * 2 as i64 + 3 as i64 * 3 as i64;
    let d = a * b;
    let e = b * a;
    assert_eq!(d, c);
    assert_eq!(e, c);

    let a = NVec { components: [1 as u8, 2 as u8, 3 as u8] };
    let b = NVec { components: [1 as u8, 2 as u8, 3 as u8] };
    let c = 1 as u8 * 1 as u8 + 2 as u8 * 2 as u8 + 3 as u8 * 3 as u8;
    let d = a * b;
    let e = b * a;
    assert_eq!(d, c);
    assert_eq!(e, c);

    let a = NVec { components: [1 as u16, 2 as u16, 3 as u16] };
    let b = NVec { components: [1 as u16, 2 as u16, 3 as u16] };
    let c = 1 as u16 * 1 as u16 + 2 as u16 * 2 as u16 + 3 as u16 * 3 as u16;
    let d = a * b;
    let e = b * a;
    assert_eq!(d, c);
    assert_eq!(e, c);

    let a = NVec { components: [1 as u32, 2 as u32, 3 as u32] };
    let b = NVec { components: [1 as u32, 2 as u32, 3 as u32] };
    let c = 1 as u32 * 1 as u32 + 2 as u32 * 2 as u32 + 3 as u32 * 3 as u32;
    let d = a * b;
    let e = b * a;
    assert_eq!(d, c);
    assert_eq!(e, c);

    let a = NVec { components: [1 as u64, 2 as u64, 3 as u64] };
    let b = NVec { components: [1 as u64, 2 as u64, 3 as u64] };
    let c = 1 as u64 * 1 as u64 + 2 as u64 * 2 as u64 + 3 as u64 * 3 as u64;
    let d = a * b;
    let e = b * a;
    assert_eq!(d, c);
    assert_eq!(e, c);
}

#[test]
fn dot_of_one_two_three_and_three_two_one() {
    let a: NVec<i32, 3> = NVec::new([1, 2, 3]);
    let b: NVec<i32, 3> = NVec::new([3, 2, 1]);
    assert_eq!(a * b, 10);
    assert_eq!(b * a, 10);
}

#[test]
fn dot_mixed_kinds_is_commutative() {
    let a: NVec<u32, 2> = NVec::new([4_000_000_000, 1]);
    let b: NVec<i8, 2> = NVec::new([-2, 5]);
    let ab: i64 = a * b;
    let ba: i64 = b * a;
    assert_eq!(ab, -7_999_999_995);
    assert_eq!(ab, ba);
}

#[test]
fn scalar_multiply_negates() {
    let a: NVec<i32, 3> = NVec::new([1, -2, 3]);
    let b: NVec<i32, 3> = NVec::new([-1, 2, -3]);
    assert_eq!(a, b * -1);
    assert_eq!(b * -1, a);
    assert_eq!(-1 * b, a);
}

#[test]
fn scalar_multiply_both_sides_for_every_kind() {
    let a: NVec<u8, 2> = NVec::new([3, 120]);
    assert_eq!(a * 2i8, 2i8 * a);
    assert_eq!((a * 2i8).components, [6i16, 240]);
    assert_eq!(a * 2i16, 2i16 * a);
    assert_eq!(a * 2i32, 2i32 * a);
    assert_eq!(a * 2i64, 2i64 * a);
    assert_eq!(a * 2i128, 2i128 * a);
    assert_eq!(a * 2u8, 2u8 * a);
    assert_eq!((a * 1u8).components, [3u8, 120]);
    assert_eq!(a * 2u16, 2u16 * a);
    assert_eq!(a * 2u32, 2u32 * a);
    assert_eq!(a * 2u64, 2u64 * a);
    assert_eq!(a * 2u128, 2u128 * a);
    assert_eq!((2u128 * a).components, [6u128, 240]);
}

#[test]
fn new_keeps_components() {
    let a: NVec<i64, 4> = NVec::new([5, -6, 7, 0]);
    assert_eq!(a.components, [5, -6, 7, 0]);
    assert_eq!(a, NVec { components: [5i64, -6, 7, 0] });
}
