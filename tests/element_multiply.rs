use nvecslib::{ElementMul, NVec};

#[test]
fn element_multiply_same_type_test() {
    let a = NVec { components: [1 as i8, 2 as i8, 3 as i8] };
    let b = NVec { components: [1 as i8, 2 as i8, 3 as i8] };
    let c = NVec { components: [(1 as i8) * (1 as i8), (2 as i8) * (2 as i8), (3 as i8) * (3 as i8)] };
    let d = a.element_multiply(b);
    let e = b.element_multiply(a);
    assert_eq!(d, c);
    assert_eq!(e, c);

    let a = NVec { components: [1 as i16, 2 as i16, 3 as i16] };
    let b = NVec { components: [1 as i16, 2 as i16, 3 as i16] };
    let c = NVec { components: [(1 as i16) * (1 as i16), (2 as i16) * (2 as i16), (3 as i16) * (3 as i16)] };
    let d = a.element_multiply(b);
    let e = b.element_multiply(a);
    assert_eq!(d, c);
    assert_eq!(e, c);

    let a = NVec { components: [1 as i32, 2 as i32, 3 as i32] };
    let b = NVec { components: [1 as i32, 2 as i32, 3 as i32] };
    let c = NVec { components: [(1 as i32) * (1 as i32), (2 as i32) * (2 as i32), (3 as i32) * (3 as i32)] };
    let d = a.element_multiply(b);
    let e = b.element_multiply(a);
    assert_eq!(d, c);
    assert_eq!(e, c);

    let a = NVec { components: [1 as i64, 2 as i64, 3 as i64] };
    let b = NVec { components: [1 as i64, 2 as i64, 3 as i64] };
    let c = NVec { components: [(1 as i64) * (1 as i64), (2 as i64) * (2 as i64), (3 as i64) * (3 as i64)] };
    let d = a.element_multiply(b);
    let e = b.element_multiply(a);
    assert_eq!(d, c);
    assert_eq!(e, c);

    let a = NVec { components: [1 as u8, 2 as u8, 3 as u8] };
    let b = NVec { components: [1 as u8, 2 as u8, 3 as u8] };
    let c = NVec { components: [(1 as u8) * (1 as u8), (2 as u8) * (2 as u8), (3 as u8) * (3 as u8)] };
    let d = a.element_multiply(b);
    let e = b.element_multiply(a);
    assert_eq!(d, c);
    assert_eq!(e, c);

    let a = NVec { components: [1 as u16, 2 as u16, 3 as u16] };
    let b = NVec { components: [1 as u16, 2 as u16, 3 as u16] };
    let c = NVec { components: [(1 as u16) * (1 as u16), (2 as u16) * (2 as u16), (3 as u16) * (3 as u16)] };
    let d = a.element_multiply(b);
    let e = b.element_multiply(a);
    assert_eq!(d, c);
    assert_eq!(e, c);

    let a = NVec { components: [1 as u32, 2 as u32, 3 as u32] };
    let b = NVec { components: [1 as u32, 2 as u32, 3 as u32] };
    let c = NVec { components: [(1 as u32) * (1 as u32), (2 as u32) * (2 as u32), (3 as u32) * (3 as u32)] };
    let d = a.element_multiply(b);
    let e = b.element_multiply(a);
    assert_eq!(d, c);
    assert_eq!(e, c);

    let a = NVec { components: [1 as u64, 2 as u64, 3 as u64] };
    let b = NVec { components: [1 as u64, 2 as u64, 3 as u64] };
    let c = NVec { components: [(1 as u64) * (1 as u64), (2 as u64) * (2 as u64), (3 as u64) * (3 as u64)] };
    let d = a.element_multiply(b);
    let e = b.element_multiply(a);
    assert_eq!(d, c);
    assert_eq!(e, c);
}

#[test]
fn element_multiply_mixed_kinds_is_commutative() {
    let a: NVec<u16, 3> = NVec { components: [2, 300, 65535] };
    let b: NVec<i8, 3> = NVec { components: [-3, 4, 1] };
    let ab: NVec<i32, 3> = a.element_multiply(b);
    let ba: NVec<i32, 3> = b.element_multiply(a);
    assert_eq!(ab, NVec { components: [-6, 1200, 65535] });
    assert_eq!(ab, ba);
}
