use position_tracking::protocol::{build_modbus_cmd_message, FunctionCode, Register, RegisterWriteMessage};

#[test]
fn register_write_message_bytes() {
    let m = RegisterWriteMessage::new(1, FunctionCode(6), Register(101), 1234);
    assert_eq!(
        m.to_bytes(),
        vec![0x00, 0x00, 0x00, 0x00, 0x00, 0x04, 0x01, 0x06, 0x00, 0x65, 0x04, 0xD2]
    );
}

#[test]
fn message_keeps_transaction_and_protocol_ids() {
    let b = build_modbus_cmd_message(0x0102, 0xA0B0, 0, 6, 11, 0xFFFF);
    assert_eq!(b, vec![0x01, 0x02, 0xA0, 0xB0, 0x00, 0x04, 0x00, 0x06, 0x00, 0x0B, 0xFF, 0xFF]);
    assert_eq!(b.len(), 12);
}

#[test]
fn register_and_function_bytes() {
    assert_eq!(Register(0x1234).be_bytes(), [0x12, 0x34]);
    assert_eq!(Register(0x1234).le_bytes(), [0x34, 0x12]);
    assert_eq!(FunctionCode(3).be_bytes(), [3]);
    assert_eq!(FunctionCode(3).le_bytes(), [3]);
}
