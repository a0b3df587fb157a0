use graux_sdk::error::GrauxError;
use graux_sdk::hex::{hex_strip_zeros, hex_value, hexlify, is_hex_string};
use graux_sdk::text::{chars_of, same_text, text_of};

#[test]
fn hex_string_without_length() {
    assert!(is_hex_string("0x", None));
    assert!(is_hex_string("0x0", None));
    assert!(is_hex_string("0xdeadBEEF", None));
    assert!(!is_hex_string("", None));
    assert!(!is_hex_string("0", None));
    assert!(!is_hex_string("0X12", None));
    assert!(!is_hex_string("12", None));
    assert!(!is_hex_string("0x12g4", None));
    assert!(!is_hex_string("0x12 ", None));
    assert!(!is_hex_string("0x\u{e9}", None));
    assert!(!is_hex_string("latest", None));
}

#[test]
fn hex_string_with_length() {
    let hash = "0x88df016429689c079f3b2f6ad39fa052532c56795b733da78a91ebe6a713944b";
    assert_eq!(hash.len(), 66);
    assert!(is_hex_string(hash, Some(32)));
    assert!(!is_hex_string(hash, Some(31)));
    assert!(!is_hex_string(hash, Some(33)));
    assert!(!is_hex_string(&hash[..65], Some(32)));
    assert!(is_hex_string("0x", Some(0)));
    assert!(is_hex_string("0x05", Some(1)));
    assert!(!is_hex_string("0x5", Some(1)));
    assert!(!is_hex_string("0x5", Some(0)));
    assert!(!is_hex_string("0x05", Some(usize::MAX)));
}

#[test]
fn strip_zeros_keeps_the_last_digit() {
    assert_eq!(hex_strip_zeros("0x05"), "0x5");
    assert_eq!(hex_strip_zeros("0x0005a0"), "0x5a0");
    assert_eq!(hex_strip_zeros("0x00"), "0x0");
    assert_eq!(hex_strip_zeros("0x0"), "0x0");
    assert_eq!(hex_strip_zeros("0x"), "0x");
    assert_eq!(hex_strip_zeros("0xAB"), "0xAB");
    assert_eq!(hex_strip_zeros("0x10"), "0x10");
}

#[test]
fn hex_value_is_the_quantity_form() {
    assert_eq!(hex_value("0x05"), Ok("0x5".to_string()));
    assert_eq!(hex_value("0x"), Ok("0x0".to_string()));
    assert_eq!(hex_value("0x000"), Ok("0x0".to_string()));
    assert_eq!(hex_value("0x00AbC"), Ok("0xabc".to_string()));
    assert_eq!(hex_value("0x1f"), Ok("0x1f".to_string()));
}

#[test]
fn hex_value_refuses_other_text() {
    assert_eq!(hex_value("latest"), Err(GrauxError::InvalidHex("latest".to_string())));
    assert_eq!(hex_value(""), Err(GrauxError::InvalidHex(String::new())));
    assert_eq!(hex_value("0xzz"), Err(GrauxError::InvalidHex("0xzz".to_string())));
    assert_eq!(hex_value("5"), Err(GrauxError::InvalidHex("5".to_string())));
}

#[test]
fn hex_value_is_idempotent() {
    for text in ["0x", "0x0", "0x00ff", "0xABCDEF", "0x1"] {
        let once = hex_value(text).unwrap();
        assert_eq!(hex_value(&once), Ok(once.clone()));
        assert_eq!(hex_strip_zeros(&once), once);
    }
}

#[test]
fn hexlify_numbers() {
    assert_eq!(hexlify(0), "0x0");
    assert_eq!(hexlify(5), "0x5");
    assert_eq!(hexlify(15), "0xf");
    assert_eq!(hexlify(16), "0x10");
    assert_eq!(hexlify(255), "0xff");
    assert_eq!(hexlify(4096), "0x1000");
    assert_eq!(hexlify(17_000_000), "0x1036640");
    assert_eq!(hexlify(u64::MAX), "0xffffffffffffffff");
}

#[test]
fn hexlify_agrees_with_std_formatting() {
    for n in [1u64, 9, 10, 99, 1 << 20, (1 << 40) + 7, u64::MAX - 1] {
        assert_eq!(hexlify(n), format!("{:#x}", n));
        assert!(is_hex_string(&hexlify(n), None));
    }
}

#[test]
fn text_round_trip() {
    let v = chars_of("h\u{e9}llo");
    assert_eq!(v, vec!['h', '\u{e9}', 'l', 'l', 'o']);
    assert_eq!(text_of(&v), "h\u{e9}llo");
    assert_eq!(text_of(&Vec::new()), "");
}

#[test]
fn same_text_compares_characters() {
    assert!(same_text("", ""));
    assert!(same_text("ws", "ws"));
    assert!(!same_text("ws", "wss"));
    assert!(!same_text("http", "httq"));
    assert!(!same_text("a", ""));
}
