use nvecslib::{NVec};

#[test]
fn add_same_type_test() {
    let a = NVec { components: [1 as i8, 2 as i8, 3 as i8] };
    let b = NVec { components: [1 as i8, 2 as i8, 3 as i8] };
    let c = NVec { components: [(1 as i8) + (1 as i8), (2 as i8) + (2 as i8), (3 as i8) + (3 as i8)] };
    let d = a + b;
    let e = b + a;
    assert_eq!(d, c);
    assert_eq!(e, c);

    let a = NVec { components: [1 as i16, 2 as i16, 3 as i16] };
    let b = NVec { components: [1 as i16, 2 as i16, 3 as i16] };
    let c = NVec { components: [(1 as i16) + (1 as i16), (2 as i16) + (2 as i16), (3 as i16) + (3 as i16)] };
    let d = a + b;
    let e = b + a;
    assert_eq!(d, c);
    assert_eq!(e, c);

    let a = NVec { components: [1 as i32, 2 as i32, 3 as i32] };
    let b = NVec { components: [1 as i32, 2 as i32, 3 as i32] };
    let c = NVec { components: [(1 as i32) + (1 as i32), (2 as i32) + (2 as i32), (3 as i32) + (3 as i32)] };
    let d = a + b;
    let e = b + a;
    assert_eq!(d, c);
    assert_eq!(e, c);

    let a = NVec { components: [1 as i64, 2 as i64, 3 as i64] };
    let b = NVec { components: [1 as i64, 2 as i64, 3 as i64] };
    let c = NVec { components: [(1 as i64) + (1 as i64), (2 as i64) + (2 as i64), (3 as i64) + (3 as i64)] };
    let d = a + b;
    let e = b + a;
    assert_eq!(d, c);
    assert_eq!(e, c);

    let a = NVec { components: [1 as u8, 2 as u8, 3 as u8] };
    let b = NVec { components: [1 as u8, 2 as u8, 3 as u8] };
    let c = NVec { components: [(1 as u8) + (1 as u8), (2 as u8) + (2 as u8), (3 as u8) + (3 as u8)] };
    let d = a + b;
    let e = b + a;
    assert_eq!(d, c);
    assert_eq!(e, c);

    let a = NVec { components: [1 as u16, 2 as u16, 3 as u16] };
    let b = NVec { components: [1 as u16, 2 as u16, 3 as u16] };
    let c = NVec { components: [(1 as u16) + (1 as u16), (2 as u16) + (2 as u16), (3 as u16) + (3 as u16)] };
    let d = a + b;
    let e = b + a;
    assert_eq!(d, c);
    assert_eq!(e, c);

    let a = NVec { components: [1 as u32, 2 as u32, 3 as u32] };
    let b = NVec { components: [1 as u32, 2 as u32, 3 as u32] };
    let c = NVec { components: [(1 as u32) + (1 as u32), (2 as u32) + (2 as u32), (3 as u32) + (3 as u32)] };
    let d = a + b;
    let e = b + a;
    assert_eq!(d, c);
    assert_eq!(e, c);

    let a = NVec { components: [1 as u64, 2 as u64, 3 as u64] };
    let b = NVec { components: [1 as u64, 2 as u64, 3 as u64] };
    let c = NVec { components: [(1 as u64) + (1 as u64), (2 as u64) + (2 as u64), (3 as u64) + (3 as u64)] };
    let d = a + b;
    let e = b + a;
    assert_eq!(d, c);
    assert_eq!(e, c);
}

#[test]
fn add_mixed_kinds_promote() {
    let a: NVec<i8, 3> = NVec { components: [1, -2, 127] };
    let b: NVec<u8, 3> = NVec { components: [200, 255, 255] };
    let r: NVec<i16, 3> = a + b;
    assert_eq!(r, NVec { components: [201i16, 253, 382] });
    let s: NVec<i16, 3> = b + a;
    assert_eq!(s, r);
}

#[test]
fn add_wide_kinds_promote() {
    let a: NVec<u64, 2> = NVec { components: [u64::MAX, 0] };
    let b: NVec<i64, 2> = NVec { components: [1, i64::MIN] };
    let r: NVec<i128, 2> = a + b;
    assert_eq!(r.components, [u64::MAX as i128 + 1, i64::MIN as i128]);
}

#[test]
fn add_empty_vectors() {
    let a: NVec<i32, 0> = NVec { components: [] };
    let b: NVec<u16, 0> = NVec { components: [] };
    let r: NVec<i32, 0> = a + b;
    assert_eq!(r.components.len(), 0);
}

#[test]
fn vectors_equal_only_when_all_components_match() {
    let a: NVec<i16, 3> = NVec { components: [1, 2, 3] };
    assert_eq!(a, NVec { components: [1, 2, 3] });
    assert_ne!(a, NVec { components: [1, 2, 4] });
    assert_ne!(a, NVec { components: [0, 2, 3] });
    let e: NVec<u8, 0> = NVec { components: [] };
    assert_eq!(e, NVec { components: [] });
}
