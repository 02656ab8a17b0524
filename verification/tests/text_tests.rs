use dex2smali::dex::class_def_item::ClassDefItem;
use dex2smali::dex::field_id_item::FieldIdItem;
use dex2smali::dex::header_item::HeaderItem;
use dex2smali::errors::DexParseError;
use dex2smali::text::{push_quoted, push_register, push_signed, push_text, push_unsigned};
use dex2smali::traits::parse::TryParseFromBytes;

#[test]
fn unsigned_numbers_in_decimal() {
    let mut out = String::from("n=");
    push_unsigned(&mut out, 0);
    push_text(&mut out, ",");
    push_unsigned(&mut out, 9);
    push_text(&mut out, ",");
    push_unsigned(&mut out, 10);
    push_text(&mut out, ",");
    push_unsigned(&mut out, 1234567890);
    push_text(&mut out, ",");
    push_unsigned(&mut out, u64::MAX);
    assert_eq!(out, "n=0,9,10,1234567890,18446744073709551615");
}

#[test]
fn signed_numbers_in_decimal() {
    let mut out = String::new();
    for n in [0i64, -1, 1, -10, 100, i64::MIN, i64::MAX] {
        push_signed(&mut out, n);
        push_text(&mut out, " ");
    }
    assert_eq!(
        out,
        "0 -1 1 -10 100 -9223372036854775808 9223372036854775807 "
    );
}

#[test]
fn registers_and_literals() {
    let mut out = String::new();
    push_register(&mut out, 0);
    push_register(&mut out, 65536);
    push_register(&mut out, u32::MAX);
    assert_eq!(out, "v0v65536v4294967295");
    let mut out = String::from("s=");
    push_quoted(&mut out, "");
    push_quoted(&mut out, "a\nb\tc\"d\\e\r\u{E9}");
    assert_eq!(out, "s=\"\"\"a\\nb\\tc\\\"d\\\\e\r\u{E9}\"");
}

fn parse_all<T: TryParseFromBytes>(buffer: &[u8]) -> Vec<Result<T, DexParseError>> {
    let mut out = Vec::new();
    let mut at = 0;
    while at < buffer.len() {
        out.push(T::try_parse_from_bytes(&buffer[at..]));
        at += T::SIZE;
    }
    out
}

#[test]
fn records_through_the_trait() {
    assert_eq!(FieldIdItem::SIZE, 8);
    assert_eq!(FieldIdItem::NAME, "field_id_item");
    assert_eq!(ClassDefItem::SIZE, 32);
    assert_eq!(ClassDefItem::NAME, "class_def_item");
    assert_eq!(HeaderItem::SIZE, 112);
    assert_eq!(HeaderItem::NAME, "header_item");
    let buffer = [1, 0, 2, 0, 3, 0, 0, 0, 4, 0, 5, 0, 6, 0, 0, 0, 7, 0];
    let fields: Vec<Result<FieldIdItem, DexParseError>> = parse_all(&buffer);
    assert_eq!(
        fields,
        vec![
            Ok(FieldIdItem {
                class_idx: 1,
                type_idx: 2,
                name_idx: 3
            }),
            Ok(FieldIdItem {
                class_idx: 4,
                type_idx: 5,
                name_idx: 6
            }),
            Err(DexParseError::InvalidElementSize {
                field: "field_id_item",
                expected: 8,
                actual: 2
            }),
        ]
    );
}
