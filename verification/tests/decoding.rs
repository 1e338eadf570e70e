use chip8::op_code::OpCode;

#[test]
fn from_bytes_splits_nibbles() {
    let code = OpCode::from_bytes(0xD1, 0x25);
    assert_eq!(code.op, 0xD);
    assert_eq!(code.x, 0x1);
    assert_eq!(code.y, 0x2);
    assert_eq!(code.n, 0x5);
    assert_eq!(code.nn, 0x25);
    assert_eq!(code.nnn, 0x125);
}

#[test]
fn from_bytes_of_zero() {
    let code = OpCode::from_bytes(0x00, 0x00);
    assert_eq!(code, OpCode { op: 0, x: 0, y: 0, n: 0, nn: 0, nnn: 0 });
}

#[test]
fn from_bytes_of_all_ones() {
    let code = OpCode::from_bytes(0xFF, 0xFF);
    assert_eq!(code, OpCode { op: 0xF, x: 0xF, y: 0xF, n: 0xF, nn: 0xFF, nnn: 0xFFF });
}

#[test]
fn from_bytes_keeps_every_bit() {
    for first in 0..=255u8 {
        for second in 0..=255u8 {
            let code = OpCode::from_bytes(first, second);
            assert!(code.op < 16 && code.x < 16 && code.y < 16 && code.n < 16);
            assert_eq!(code.op * 16 + code.x, first);
            assert_eq!(code.y * 16 + code.n, second);
            assert_eq!(code.nn, second);
            assert_eq!(code.nnn, u16::from(code.x) * 256 + u16::from(second));
        }
    }
}

#[test]
fn from_bytes_is_pure() {
    assert_eq!(OpCode::from_bytes(0xA2, 0xF0), OpCode::from_bytes(0xA2, 0xF0));
    assert_ne!(OpCode::from_bytes(0xA2, 0xF0), OpCode::from_bytes(0xA2, 0xF1));
}
