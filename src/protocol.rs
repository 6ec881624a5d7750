//! Register-write framing: the fixed 12-byte message that stores one 16-bit
//! value in one register of a device.

use vstd::prelude::*;

verus! {

/// The two bytes of `v`, most significant first.
pub open spec fn be16(v: u16) -> Seq<u8> {
    seq![(v / 256) as u8, (v % 256) as u8]
}

/// The two bytes of `v`, least significant first.
pub open spec fn le16(v: u16) -> Seq<u8> {
    seq![(v % 256) as u8, (v / 256) as u8]
}

/// The length field of every register write: four bytes follow the unit id
/// (function code, register, value).
pub const WRITE_LENGTH: u16 = 4;

/// The message that `build_modbus_cmd_message` frames, field by field.
pub open spec fn message_spec(
    tr_id: u16,
    pr_id: u16,
    unit: u8,
    function: u8,
    register: u16,
    value: u16,
) -> Seq<u8> {
    be16(tr_id) + be16(pr_id) + be16(WRITE_LENGTH) + seq![unit, function] + be16(register)
        + be16(value)
}

fn high_byte(v: u16) -> (r: u8)
    ensures
        r == v / 256,
{
    let r = (v >> 8u16) as u8;
    assert((v >> 8u16) as u8 == v / 256) by (bit_vector);
    r
}

fn low_byte(v: u16) -> (r: u8)
    ensures
        r == v % 256,
{
    let r = (v & 0xffu16) as u8;
    assert((v & 0xffu16) as u8 == v % 256) by (bit_vector);
    r
}

fn push_be16(out: &mut Vec<u8>, v: u16)
    ensures
        final(out)@ == old(out)@ + be16(v),
{
    out.push(high_byte(v));
    out.push(low_byte(v));
    assert(final(out)@ =~= old(out)@ + be16(v));
}

/// Frames a register write: transaction id, protocol id, the length field
/// (always 4), unit id, function code, register and value, each 16-bit field
/// big-endian.
pub fn build_modbus_cmd_message(
    tr_id: u16,
    pr_id: u16,
    unit: u8,
    function: u8,
    register: u16,
    value: u16,
) -> (bytes: Vec<u8>)
    ensures
        bytes@ == message_spec(tr_id, pr_id, unit, function, register, value),
        bytes@.len() == 12,
{
    let mut bytes: Vec<u8> = Vec::new();
    push_be16(&mut bytes, tr_id);
    push_be16(&mut bytes, pr_id);
    push_be16(&mut bytes, WRITE_LENGTH);
    bytes.push(unit);
    bytes.push(function);
    push_be16(&mut bytes, register);
    push_be16(&mut bytes, value);
    assert(bytes@ =~= message_spec(tr_id, pr_id, unit, function, register, value));
    bytes
}

/// A function code of the device protocol.
#[derive(Debug, Clone, Copy, PartialEq, Eq, Structural)]
pub struct FunctionCode(pub u8);

impl FunctionCode {
    /// The code as one byte, most significant first.
    pub fn be_bytes(&self) -> (r: [u8; 1])
        ensures
            r@ == seq![self.0],
    {
        let r = [self.0];
        assert(r@ =~= seq![self.0]);
        r
    }

    /// The code as one byte, least significant first.
    pub fn le_bytes(&self) -> (r: [u8; 1])
        ensures
            r@ == seq![self.0],
    {
        let r = [self.0];
        assert(r@ =~= seq![self.0]);
        r
    }
}

/// A register address of the device.
#[derive(Debug, Clone, Copy, PartialEq, Eq, Structural)]
pub struct Register(pub u16);

impl Register {
    /// The address as two bytes, most significant first.
    pub fn be_bytes(&self) -> (r: [u8; 2])
        ensures
            r@ == be16(self.0),
    {
        let r = [high_byte(self.0), low_byte(self.0)];
        assert(r@ =~= be16(self.0));
        r
    }

    /// The address as two bytes, least significant first.
    pub fn le_bytes(&self) -> (r: [u8; 2])
        ensures
            r@ == le16(self.0),
    {
        let r = [low_byte(self.0), high_byte(self.0)];
        assert(r@ =~= le16(self.0));
        r
    }
}

/// One register write: `value` into `register` of device `unit_id`, by
/// `function_code`. Transaction and protocol ids are always zero.
#[derive(Debug, Clone, Copy, PartialEq, Eq, Structural)]
pub struct RegisterWriteMessage {
    pub transaction_id: u16,
    pub protocol_id: u16,
    pub unit_id: u8,
    pub function_code: u8,
    pub register: u16,
    pub value: u16,
}

impl RegisterWriteMessage {
    /// A write with zero transaction and protocol ids.
    pub fn new(unit_id: u8, function_code: FunctionCode, register: Register, value: u16) -> (r: Self)
        ensures
            r.transaction_id == 0,
            r.protocol_id == 0,
            r.unit_id == unit_id,
            r.function_code == function_code.0,
            r.register == register.0,
            r.value == value,
    {
        RegisterWriteMessage {
            transaction_id: 0,
            protocol_id: 0,
            unit_id,
            function_code: function_code.0,
            register: register.0,
            value,
        }
    }

    /// The bytes of this message as they go on the wire.
    pub open spec fn bytes_spec(&self) -> Seq<u8> {
        message_spec(
            self.transaction_id,
            self.protocol_id,
            self.unit_id,
            self.function_code,
            self.register,
            self.value,
        )
    }

    /// Serialises the message into its 12 bytes.
    pub fn to_bytes(&self) -> (r: Vec<u8>)
        ensures
            r@ == self.bytes_spec(),
            r@.len() == 12,
    {
        build_modbus_cmd_message(
            self.transaction_id,
            self.protocol_id,
            self.unit_id,
            self.function_code,
            self.register,
            self.value,
        )
    }
}

} // verus!
