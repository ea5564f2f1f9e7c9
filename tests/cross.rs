use nvecslib::{CrossProduct, NVec};

#[test]
fn cross_same_type_test() {
    let a = NVec { components: [1 as i8, 2 as i8, 3 as i8] };
    let b = NVec { components: [3 as i8, 2 as i8, 1 as i8] };
    let c = NVec {
        components: [
            2 as i8 * 1 as i8 - 3 as i8 * 2 as i8,
            3 as i8 * 3 as i8 - 1 as i8 * 1 as i8,
            1 as i8 * 2 as i8 - 2 as i8 * 3 as i8,
        ],
    };
    let d = a.cross(b);
    let e = b.cross(a);
    assert_eq!(d, c);
    assert_eq!(e * -1, c * 1);
    assert_eq!(-1 * e, 1 * c);

    let a = NVec { components: [1 as i16, 2 as i16, 3 as i16] };
    let b = NVec { components: [3 as i16, 2 as i16, 1 as i16] };
    let c = NVec {
        components: [
            2 as i16 * 1 as i16 - 3 as i16 * 2 as i16,
            3 as i16 * 3 as i16 - 1 as i16 * 1 as i16,
            1 as i16 * 2 as i16 - 2 as i16 * 3 as i16,
        ],
    };
    let d = a.cross(b);
    let e = b.cross(a);
    assert_eq!(d, c);
    assert_eq!(e * -1, c * 1);
    assert_eq!(-1 * e, 1 * c);

    let a = NVec { components: [1 as i32, 2 as i32, 3 as i32] };
    let b = NVec { components: [3 as i32, 2 as i32, 1 as i32] };
    let c = NVec {
        components: [
            2 as i32 * 1 as i32 - 3 as i32 * 2 as i32,
            3 as i32 * 3 as i32 - 1 as i32 * 1 as i32,
            1 as i32 * 2 as i32 - 2 as i32 * 3 as i32,
        ],
    };
    let d = a.cross(b);
    let e = b.cross(a);
    assert_eq!(d, c);
    assert_eq!(e * -1, c * 1);
    assert_eq!(-1 * e, 1 * c);

    let a = NVec { components: [1 as i64, 2 as i64, 3 as i64] };
    let b = NVec { components: [3 as i64, 2 as i64, 1 as i64] };
    let c = NVec {
        components: [
            2 as i64 * 1 as i64 - 3 as i64 * 2 as i64,
            3 as i64 * 3 as i64 - 1 as i64 * 1 as i64,
            1 as i64 * 2 as i64 - 2 as i64 * 3 as i64,
        ],
    };
    let d = a.cross(b);
    let e = b.cross(a);
    assert_eq!(d, c);
    assert_eq!(e * -1, c * 1);
    assert_eq!(-1 * e, 1 * c);
}

#[test]
fn cross_of_one_two_three_and_three_two_one() {
    let a: NVec<i32, 3> = NVec { components: [1, 2, 3] };
    let b: NVec<i32, 3> = NVec { components: [3, 2, 1] };
    assert_eq!(a.cross(b), NVec { components: [-4, 8, -4] });
}

#[test]
fn cross_mixed_kinds_is_anticommutative() {
    let a: NVec<u8, 3> = NVec { components: [4, 0, 250] };
    let b: NVec<i16, 3> = NVec { components: [-1, 7, 3] };
    let ab: NVec<i16, 3> = a.cross(b);
    let ba: NVec<i16, 3> = b.cross(a);
    assert_eq!(ab, NVec { components: [-1750, -262, 28] });
    assert_eq!(ab, ba * -1i16);
}
