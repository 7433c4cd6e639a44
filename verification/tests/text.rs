//! Numbers and bytes as text.

use nfqueue::text::{push_decimal, push_hex_byte, push_hex_colon, push_signed_decimal};

#[test]
fn decimal_numbers() {
    let mut out = String::from("n=");
    push_decimal(&mut out, 0);
    assert_eq!(out, "n=0");
    push_decimal(&mut out, 9);
    push_decimal(&mut out, 10);
    push_decimal(&mut out, 1_000_000);
    assert_eq!(out, "n=09101000000");

    let mut out = String::new();
    push_decimal(&mut out, u64::MAX);
    assert_eq!(out, "18446744073709551615");
}

#[test]
fn signed_decimal_numbers() {
    let mut out = String::new();
    push_signed_decimal(&mut out, -1);
    assert_eq!(out, "-1");

    let mut out = String::new();
    push_signed_decimal(&mut out, 0);
    assert_eq!(out, "0");

    let mut out = String::new();
    push_signed_decimal(&mut out, i64::MIN);
    assert_eq!(out, "-9223372036854775808");

    let mut out = String::new();
    push_signed_decimal(&mut out, i64::MAX);
    assert_eq!(out, "9223372036854775807");
}

#[test]
fn bytes_in_base_sixteen() {
    let mut out = String::new();
    push_hex_byte(&mut out, 0x00);
    push_hex_byte(&mut out, 0x0f);
    push_hex_byte(&mut out, 0xf0);
    push_hex_byte(&mut out, 0xff);
    push_hex_byte(&mut out, 0x9a);
    assert_eq!(out, "000ff0ff9a");

    let mut out = String::from("[");
    push_hex_colon(&mut out, &[]);
    assert_eq!(out, "[");
    push_hex_colon(&mut out, &[0xde]);
    assert_eq!(out, "[de");
    let mut out = String::new();
    push_hex_colon(&mut out, &[0xde, 0xad, 0xbe, 0xef]);
    assert_eq!(out, "de:ad:be:ef");
}
