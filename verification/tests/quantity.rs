use graux_sdk::error::GrauxError;
use graux_sdk::quantity::Quantity;

fn shape() -> GrauxError {
    GrauxError::Decode("expected a hexadecimal quantity".to_string())
}

#[test]
fn from_hex_reads_small_numbers() {
    assert_eq!(Quantity::from_hex("0x0").unwrap().to_u64(), Some(0));
    assert_eq!(Quantity::from_hex("0x").unwrap().to_u64(), Some(0));
    assert_eq!(Quantity::from_hex("0x000").unwrap().to_u64(), Some(0));
    assert_eq!(Quantity::from_hex("0x5").unwrap().to_u64(), Some(5));
    assert_eq!(Quantity::from_hex("0x05").unwrap().to_u64(), Some(5));
    assert_eq!(Quantity::from_hex("0xff").unwrap().to_u64(), Some(255));
    assert_eq!(Quantity::from_hex("0x100").unwrap().to_u64(), Some(256));
    assert_eq!(Quantity::from_hex("0xABCdef").unwrap().to_u64(), Some(0xabcdef));
    assert_eq!(Quantity::from_hex("0x1036640").unwrap().to_u64(), Some(17_000_000));
    assert_eq!(Quantity::from_hex("0xffffffffffffffff").unwrap().to_u64(), Some(u64::MAX));
}

#[test]
fn numbers_beyond_64_bits_are_kept_whole() {
    let big = Quantity::from_hex("0x10000000000000000").unwrap();
    assert_eq!(big.to_u64(), None);
    assert_eq!(big.to_hex(), "0x10000000000000000");
    let wei = "0x33b2e3c9fd0803ce8000000";
    let q = Quantity::from_hex(wei).unwrap();
    assert_eq!(q.to_u64(), None);
    assert_eq!(q.to_hex(), wei);
    let max256 = format!("0x{}", "f".repeat(64));
    assert_eq!(Quantity::from_hex(&max256).unwrap().to_hex(), max256);
    let beyond = format!("0x1{}", "0".repeat(80));
    assert_eq!(Quantity::from_hex(&beyond).unwrap().to_hex(), beyond);
}

#[test]
fn every_number_has_one_form() {
    assert_eq!(Quantity::from_hex("0x00ff").unwrap(), Quantity::from_hex("0xFF").unwrap());
    assert_eq!(Quantity::from_hex("0x0").unwrap(), Quantity::from_u64(0));
    assert_eq!(Quantity::from_hex("0x").unwrap(), Quantity::from_u64(0));
    assert_eq!(Quantity::from_hex("0x1234").unwrap(), Quantity::from_u64(0x1234));
    assert_eq!(Quantity::from_hex("0x01234").unwrap(), Quantity::from_u64(0x1234));
    assert_ne!(Quantity::from_hex("0x1234").unwrap(), Quantity::from_u64(0x1235));
}

#[test]
fn to_hex_is_the_quantity_encoding() {
    assert_eq!(Quantity::from_u64(0).to_hex(), "0x0");
    assert_eq!(Quantity::from_u64(1).to_hex(), "0x1");
    assert_eq!(Quantity::from_u64(15).to_hex(), "0xf");
    assert_eq!(Quantity::from_u64(16).to_hex(), "0x10");
    assert_eq!(Quantity::from_u64(255).to_hex(), "0xff");
    assert_eq!(Quantity::from_u64(256).to_hex(), "0x100");
    assert_eq!(Quantity::from_u64(0x0a0b0c).to_hex(), "0xa0b0c");
    assert_eq!(Quantity::from_u64(u64::MAX).to_hex(), "0xffffffffffffffff");
    assert_eq!(Quantity::from_hex("0x00AB0").unwrap().to_hex(), "0xab0");
}

#[test]
fn u64_round_trip() {
    for n in [0u64, 1, 255, 256, 65535, 65536, 1 << 32, (1 << 56) + 3, u64::MAX - 1, u64::MAX] {
        let q = Quantity::from_u64(n);
        assert_eq!(q.to_u64(), Some(n));
        assert_eq!(q.to_hex(), if n == 0 { "0x0".to_string() } else { format!("{:#x}", n) });
        assert_eq!(q.is_zero(), n == 0);
        assert_eq!(q.clone(), q);
    }
}

#[test]
fn other_text_is_of_the_wrong_shape() {
    for text in ["", "0", "12", "0xg1", "latest", "0X1", "-0x1", "0x 1"] {
        assert_eq!(Quantity::from_hex(text), Err(shape()));
    }
}
