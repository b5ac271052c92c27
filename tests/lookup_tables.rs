use plonk_core::field::Fe;
use plonk_core::lookup::{CustomSet, CustomTable, Custom1DMap, Custom2DMap, LookupError, LookupTable, TableRow};
use plonk_core::tables::{
    U16NotTable, U16XorWithConstTable, U8AndTable, U8NotAndTable, U8NotTable, U8OrTable,
    U8XorTable, U8XorWithConstTable, UintRangeTable, U8AndWithConstTable,
};

#[test]
fn range_table_elements() {
    let e = <UintRangeTable<4> as CustomSet>::collect_elements();
    assert_eq!(e, (0u64..16).collect::<Vec<u64>>());
    let rows = <UintRangeTable<2> as CustomTable>::collect_rows();
    assert_eq!(rows.len(), 4);
    assert_eq!(rows[3], TableRow::from_u64(3, 0, 0));
}

#[test]
fn range_table_contains_exactly_the_range() {
    let t = LookupTable::new();
    for v in 0u64..256 {
        assert_eq!(t.contains::<UintRangeTable<8>>(&Fe::from_u64(v)), Ok(()));
    }
    for v in [256u64, 257, 1000, u64::MAX] {
        assert_eq!(t.contains::<UintRangeTable<8>>(&Fe::from_u64(v)), Err(LookupError::NoMatch));
    }
    assert_eq!(t.contains::<UintRangeTable<8>>(&Fe::one().neg()), Err(LookupError::NoMatch));
}

#[test]
fn xor_table_on_all_byte_pairs() {
    let t = LookupTable::new();
    for x in 0u64..256 {
        for y in 0u64..256 {
            let z = t.lookup_2d::<U8XorTable>(&Fe::from_u64(x), &Fe::from_u64(y));
            assert_eq!(z, Ok(Fe::from_u64(x ^ y)));
        }
    }
    assert_eq!(t.lookup_2d::<U8XorTable>(&Fe::from_u64(256), &Fe::from_u64(1)), Err(LookupError::NoMatch));
    assert_eq!(t.lookup_2d::<U8XorTable>(&Fe::from_u64(1), &Fe::from_u64(300)), Err(LookupError::NoMatch));
}

#[test]
fn other_operation_tables() {
    let t = LookupTable::new();
    let f = Fe::from_u64;
    assert_eq!(t.lookup_2d::<U8AndTable>(&f(0b1100), &f(0b1010)), Ok(f(0b1000)));
    assert_eq!(t.lookup_2d::<U8OrTable>(&f(0b1100), &f(0b1010)), Ok(f(0b1110)));
    assert_eq!(t.lookup_2d::<U8NotAndTable>(&f(0b1100), &f(0b1010)), Ok(f(0b0010)));
    assert_eq!(t.lookup_1d::<U8NotTable>(&f(0)), Ok(f(255)));
    assert_eq!(t.lookup_1d::<U16NotTable>(&f(1)), Ok(f(65534)));
    assert_eq!(t.lookup_1d::<U8XorWithConstTable<0xff>>(&f(0x0f)), Ok(f(0xf0)));
    assert_eq!(t.lookup_1d::<U8AndWithConstTable<3>>(&f(7)), Ok(f(3)));
    assert_eq!(t.lookup_1d::<U16XorWithConstTable<0x100>>(&f(0x101)), Ok(f(1)));
    assert_eq!(t.lookup_1d::<U8NotTable>(&f(256)), Err(LookupError::NoMatch));
    assert_eq!(<U8XorTable as Custom2DMap>::lookup(5, 3), 6);
    assert_eq!(<U8NotTable as Custom1DMap>::lookup(1), 254);
}

#[test]
fn two_input_rows_are_ordered_by_first_input() {
    let rows = <U8XorTable as CustomTable>::collect_rows();
    assert_eq!(rows.len(), 65536);
    assert_eq!(rows[0], TableRow::from_u64(0, 0, 0));
    assert_eq!(rows[1], TableRow::from_u64(0, 1, 1));
    assert_eq!(rows[256 + 3], TableRow::from_u64(1, 3, 2));
    assert_eq!(rows[65535], TableRow::from_u64(255, 255, 0));
}

#[test]
fn containment_is_by_value() {
    let mut t = LookupTable::new();
    assert!(!t.contains_table::<UintRangeTable<2>>());
    assert!(t.contains_table::<UintRangeTable<0>>() == false);
    t.insert_table::<UintRangeTable<3>>();
    assert_eq!(t.rows.len(), 8);
    // a smaller range is a subset of a larger one
    assert!(t.contains_table::<UintRangeTable<2>>());
    assert!(t.contains_table::<UintRangeTable<3>>());
    assert!(!t.contains_table::<UintRangeTable<4>>());
    // rows given out of order are still found
    let rows = vec![TableRow::from_u64(5, 0, 0), TableRow::from_u64(1, 0, 0), TableRow::from_u64(7, 0, 0)];
    assert!(t.contains_rows(&rows));
    assert!(!t.contains_rows(&vec![TableRow::from_u64(1, 1, 0)]));
    assert!(t.contains_rows(&Vec::new()));
}
