use std::str::FromStr;

use h3ron::{H3Cell, Index};
use hive_core::error::HiveError;
use hive_core::geoid::Geoid;

#[test]
fn geoid_from_the_name_of_a_cell() {
    let geoid = Geoid::from_string("8f26dc934cccc69".to_string()).unwrap();
    assert_eq!(geoid.h3_cell, 0x8f26dc934cccc69);
    assert_eq!(geoid.h3_cell, H3Cell::from_str("8f26dc934cccc69").unwrap().h3index());
}

#[test]
fn geoid_from_other_text_is_refused() {
    assert_eq!(Geoid::from_string("".to_string()), Err(HiveError::InvalidGeoid));
    assert_eq!(Geoid::from_string("not a cell".to_string()), Err(HiveError::InvalidGeoid));
    assert_eq!(Geoid::from_string("0".to_string()), Err(HiveError::InvalidGeoid));
    assert_eq!(Geoid::from_string("ffffffffffffffff".to_string()), Err(HiveError::InvalidGeoid));
    assert_eq!(Geoid::from_string("8f26\u{0}".to_string()), Err(HiveError::InvalidGeoid));
}

#[test]
fn geoid_from_what_was_read() {
    assert_eq!(Geoid::from_parsed(Ok(0x8f26dc934cccc69)), Ok(Geoid { h3_cell: 0x8f26dc934cccc69 }));
    assert_eq!(Geoid::from_parsed(Ok(7)), Ok(Geoid { h3_cell: 7 }));
    assert_eq!(Geoid::from_parsed(Err(h3ron::Error::CellInvalid)), Err(HiveError::InvalidGeoid));
    assert_eq!(Geoid::from_parsed(Err(h3ron::Error::Failed)), Err(HiveError::InvalidGeoid));
}

#[test]
fn geoid_is_named_in_hexadecimal() {
    assert_eq!(Geoid { h3_cell: 0x8f26dc934cccc69 }.to_string(), "8f26dc934cccc69");
    assert_eq!(Geoid { h3_cell: 0 }.to_string(), "0");
    assert_eq!(Geoid { h3_cell: 15 }.to_string(), "f");
    assert_eq!(Geoid { h3_cell: 16 }.to_string(), "10");
    assert_eq!(Geoid { h3_cell: 255 }.to_string(), "ff");
    assert_eq!(Geoid { h3_cell: u64::MAX }.to_string(), "ffffffffffffffff");
}

#[test]
fn geoid_name_round_trip() {
    let name = "8f26dc934cc4cdb".to_string();
    let geoid = Geoid::from_string(name.clone()).unwrap();
    assert_eq!(geoid.to_string(), name);
}
