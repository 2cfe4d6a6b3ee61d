use pdcan::text::{format_uid, parse_node, parse_profile, parse_u8, parse_uid, NodeTextError};
use pdcan::types::CarrierProfile;

#[test]
fn node_and_uid_parsing_are_strict() {
    assert_eq!(parse_node("254").unwrap().get(), 254);
    assert!(parse_node("0").is_err());
    assert!(parse_node("255").is_err());
    let uid = parse_uid("000102030405060708090a0b").unwrap();
    assert_eq!(format_uid(uid), "000102030405060708090a0b");
    assert!(parse_uid("short").is_err());
}

#[test]
fn uid_formatting_stays_stable() {
    let uid = parse_uid("504443414e2d53494d2d3031").unwrap();
    let mut formatted = String::new();
    for byte in uid.as_bytes() {
        formatted.push_str(&format!("{byte:02x}"));
    }
    assert_eq!(formatted, "504443414e2d53494d2d3031");
}

#[test]
fn decimal_bytes_follow_from_str() {
    for text in ["0", "7", "+9", "255", "009", "+255"] {
        assert_eq!(parse_u8(text), text.parse::<u8>().ok(), "{text}");
    }
    for text in ["", "+", "-1", "256", "1 ", " 1", "0x10", "1000"] {
        assert_eq!(parse_u8(text), None, "{text}");
        assert!(text.parse::<u8>().is_err());
    }
    assert_eq!(parse_node("x"), Err(NodeTextError::Invalid));
    assert_eq!(parse_node("255"), Err(NodeTextError::OutOfRange(255)));
}

#[test]
fn uid_text_accepts_both_cases_and_round_trips() {
    let upper = parse_uid("ABCDEF0123456789ABCDEF01").unwrap();
    assert_eq!(format_uid(upper), "abcdef0123456789abcdef01");
    assert!(parse_uid("ABCDEF0123456789ABCDEF0G").is_err());
    assert!(parse_uid("ABCDEF0123456789ABCDEF012").is_err());
    assert_eq!(parse_profile("accessory"), Ok(CarrierProfile::Accessory));
    assert_eq!(parse_profile("240w"), Ok(CarrierProfile::HighPower240W));
    assert!(parse_profile("SW3538").is_err());
}
