use nvecslib::Kind;

const ALL: [Kind; 12] = [
    Kind::I8,
    Kind::I16,
    Kind::I32,
    Kind::I64,
    Kind::I128,
    Kind::U8,
    Kind::U16,
    Kind::U32,
    Kind::U64,
    Kind::U128,
    Kind::F32,
    Kind::F64,
];

#[test]
fn promote_is_symmetric_and_reflexive() {
    for a in ALL {
        assert_eq!(a.promote(a), Some(a));
        for b in ALL {
            assert_eq!(a.promote(b), b.promote(a));
        }
    }
}

#[test]
fn promote_wide_integers_with_floats_is_undefined() {
    for w in [Kind::I128, Kind::U128] {
        assert_eq!(w.promote(Kind::F32), None);
        assert_eq!(w.promote(Kind::F64), None);
        assert_eq!(Kind::F64.promote(w), None);
    }
    let mut undefined = 0;
    for a in ALL {
        for b in ALL {
            if a.promote(b).is_none() {
                undefined += 1;
            }
        }
    }
    assert_eq!(undefined, 8);
}

#[test]
fn promote_table_entries() {
    assert_eq!(Kind::I8.promote(Kind::U8), Some(Kind::I16));
    assert_eq!(Kind::I32.promote(Kind::U16), Some(Kind::I32));
    assert_eq!(Kind::I16.promote(Kind::U32), Some(Kind::I64));
    assert_eq!(Kind::I64.promote(Kind::U64), Some(Kind::I128));
    assert_eq!(Kind::I8.promote(Kind::U128), Some(Kind::I128));
    assert_eq!(Kind::U8.promote(Kind::U64), Some(Kind::U64));
    assert_eq!(Kind::I16.promote(Kind::I64), Some(Kind::I64));
    assert_eq!(Kind::I32.promote(Kind::F32), Some(Kind::F32));
    assert_eq!(Kind::U32.promote(Kind::F64), Some(Kind::F64));
    assert_eq!(Kind::I64.promote(Kind::F32), Some(Kind::F64));
    assert_eq!(Kind::U64.promote(Kind::F32), Some(Kind::F64));
    assert_eq!(Kind::F32.promote(Kind::F64), Some(Kind::F64));
}
