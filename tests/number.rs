use chip_maximator::number::ToStrBytes;

#[test]
fn str_bytes() {
    assert_eq!(2.to_str_bytes(), [b'2', 0, 0, 0]);
    assert_eq!(12.to_str_bytes(), [b'1', b'2', 0, 0]);
    assert_eq!(123.to_str_bytes(), [b'1', b'2', b'3', 0]);
    assert_eq!(1234.to_str_bytes(), [b'1', b'2', b'3', b'4']);
    assert_eq!(9999.to_str_bytes(), [b'9', b'9', b'9', b'9']);

    assert_eq!(0x9.to_hex_str_bytes(false), [b'9', 0, 0, 0]);
    assert_eq!(0xa.to_hex_str_bytes(false), [b'A', 0, 0, 0]);
    assert_eq!(0x12.to_hex_str_bytes(false), [b'1', b'2', 0, 0]);
    assert_eq!(0xab.to_hex_str_bytes(false), [b'A', b'B', 0, 0]);
    assert_eq!(0x123.to_hex_str_bytes(false), [b'1', b'2', b'3', 0]);
    assert_eq!(0xabc.to_hex_str_bytes(false), [b'A', b'B', b'C', 0]);
    assert_eq!(0x1bc.to_hex_str_bytes(false), [b'1', b'B', b'C', 0]);
    assert_eq!(0x1b2c.to_hex_str_bytes(false), [b'1', b'B', b'2', b'C']);
    assert_eq!(0xffff.to_hex_str_bytes(false), [b'F', b'F', b'F', b'F']);
}

#[test]
fn hex_bytes_with_zeros() {
    assert_eq!(0x9u32.to_hex_str_bytes(true), [b'0', b'0', b'0', b'9']);
    assert_eq!(0xabu8.to_hex_str_bytes(true), [b'0', b'0', b'A', b'B']);
    assert_eq!(0x1b2u16.to_hex_str_bytes(true), [b'0', b'1', b'B', b'2']);
    assert_eq!(0x1b2cu32.to_hex_str_bytes(true), [b'1', b'B', b'2', b'C']);
}

#[test]
fn str_bytes_of_small_types() {
    assert_eq!(0u8.to_str_bytes(), [b'0', 0, 0, 0]);
    assert_eq!(255u8.to_str_bytes(), [b'2', b'5', b'5', 0]);
    assert_eq!(4096u16.to_str_bytes(), [b'4', b'0', b'9', b'6']);
    assert_eq!(100u32.to_str_bytes(), [b'1', b'0', b'0', 0]);
}
