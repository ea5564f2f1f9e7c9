use nvecslib::{NVec};

#[test]
fn mag_same_type_test() {
    let a = NVec { components: [1 as i8, 2 as i8, 3 as i8] };
    let b = (1 as i8 * 1 as i8 + 2 as i8 * 2 as i8 + 3 as i8 * 3 as i8) as f64;
    let c = (a.sum_of_squares() as f64).sqrt();
    assert_eq!(c, b.sqrt());
    assert_eq!(b.sqrt(), c);

    let a = NVec { components: [1 as i16, 2 as i16, 3 as i16] };
    let b = (1 as i16 * 1 as i16 + 2 as i16 * 2 as i16 + 3 as i16 * 3 as i16) as f64;
    let c = (a.sum_of_squares() as f64).sqrt();
    assert_eq!(c, b.sqrt());
    assert_eq!(b.sqrt(), c);

    let a = NVec { components: [1 as i32, 2 as i32, 3 as i32] };
    let b = (1 as i32 * 1 as i32 + 2 as i32 * 2 as i32 + 3 as i32 * 3 as i32) as f64;
    let c = (a.sum_of_squares() as f64).sqrt();
    assert_eq!(c, b.sqrt());
    assert_eq!(b.sqrt(), c);

    let a = NVec { components: [1 as u8, 2 as u8, 3 as u8] };
    let b = (1 as u8 * 1 as u8 + 2 as u8 * 2 as u8 + 3 as u8 * 3 as u8) as f64;
    let c = (a.sum_of_squares() as f64).sqrt();
    assert_eq!(c, b.sqrt());
    assert_eq!(b.sqrt(), c);

    let a = NVec { components: [1 as u16, 2 as u16, 3 as u16] };
    let b = (1 as u16 * 1 as u16 + 2 as u16 * 2 as u16 + 3 as u16 * 3 as u16) as f64;
    let c = (a.sum_of_squares() as f64).sqrt();
    assert_eq!(c, b.sqrt());
    assert_eq!(b.sqrt(), c);

    let a = NVec { components: [1 as u32, 2 as u32, 3 as u32] };
    let b = (1 as u32 * 1 as u32 + 2 as u32 * 2 as u32 + 3 as u32 * 3 as u32) as f64;
    let c = (a.sum_of_squares() as f64).sqrt();
    assert_eq!(c, b.sqrt());
    assert_eq!(b.sqrt(), c);
}

#[test]
fn sum_of_squares_of_one_two_three() {
    let a: NVec<i32, 3> = NVec { components: [1, 2, 3] };
    assert_eq!(a.sum_of_squares(), 14);
    assert_eq!((a.sum_of_squares() as f64).sqrt(), 3.7416573867739413);
}

#[test]
fn sum_of_squares_extremes() {
    let a: NVec<i32, 2> = NVec { components: [i32::MIN, i32::MAX] };
    let m = i32::MIN as i128;
    let x = i32::MAX as i128;
    assert_eq!(a.sum_of_squares(), (m * m + x * x) as u128);
    let b: NVec<u32, 3> = NVec { components: [u32::MAX, u32::MAX, u32::MAX] };
    assert_eq!(b.sum_of_squares(), 3 * (u32::MAX as u128) * (u32::MAX as u128));
    let e: NVec<u8, 0> = NVec { components: [] };
    assert_eq!(e.sum_of_squares(), 0);
}
