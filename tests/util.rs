use cap_locator::{format_bytes, format_usage, parse_hex_or_dec_u16, parse_hex_or_dec_u8};

#[test]
fn parse_hex_or_dec_u16_accepts_hex() {
    assert_eq!(parse_hex_or_dec_u16("0x10").unwrap(), 0x10);
    assert_eq!(parse_hex_or_dec_u16("0Xff").unwrap(), 0xff);
}

#[test]
fn parse_hex_or_dec_u8_accepts_dec() {
    assert_eq!(parse_hex_or_dec_u8("15").unwrap(), 15);
}

#[test]
fn format_usage_outputs_dashes() {
    assert_eq!(format_usage(None, None), "-");
    assert_eq!(format_usage(Some(0x100), None), "0x0100:-");
    assert_eq!(format_usage(None, Some(0x200)), "-:0x0200");
}

#[test]
fn format_bytes_outputs_space_separated_hex() {
    assert_eq!(format_bytes(&[0, 1, 0x10, 0xff]), "00 01 10 ff");
}

#[test]
fn hex_and_decimal_give_the_same_value() {
    assert_eq!(parse_hex_or_dec_u16("0x10"), parse_hex_or_dec_u16("16"));
    assert_eq!(parse_hex_or_dec_u16("16").unwrap(), 16);
    assert_eq!(parse_hex_or_dec_u8("0xFF"), parse_hex_or_dec_u8("255"));
    assert_eq!(parse_hex_or_dec_u16("0xffff").unwrap(), 65535);
    assert_eq!(parse_hex_or_dec_u16("+0x").unwrap_err(), "invalid digit found in string");
    assert_eq!(parse_hex_or_dec_u16("0x+1f").unwrap(), 31);
    assert_eq!(parse_hex_or_dec_u16("+42").unwrap(), 42);
}

#[test]
fn parse_rejects_bad_text() {
    assert_eq!(parse_hex_or_dec_u16("").unwrap_err(), "cannot parse integer from empty string");
    assert_eq!(parse_hex_or_dec_u16("0x").unwrap_err(), "cannot parse integer from empty string");
    assert_eq!(parse_hex_or_dec_u16("12a").unwrap_err(), "invalid digit found in string");
    assert_eq!(parse_hex_or_dec_u16("+").unwrap_err(), "invalid digit found in string");
    assert_eq!(parse_hex_or_dec_u16("-1").unwrap_err(), "invalid digit found in string");
    assert_eq!(parse_hex_or_dec_u16("65536").unwrap_err(), "number too large to fit in target type");
    assert_eq!(parse_hex_or_dec_u8("0x100").unwrap_err(), "number too large to fit in target type");
    assert_eq!(parse_hex_or_dec_u8("256").unwrap_err(), "number too large to fit in target type");
}

#[test]
fn format_covers_every_shape() {
    assert_eq!(format_usage(Some(0xff00), Some(0x0001)), "0xff00:0x0001");
    assert_eq!(format_bytes(&[]), "");
    assert_eq!(format_bytes(&[0xab]), "ab");
    assert_eq!(format_bytes(&[0x0f, 0xf0]), "0f f0");
}
