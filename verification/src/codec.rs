//! The wire-protocol encoding: command bytes, register addresses, and the
//! bit arithmetic behind the read-modify-write pin updates.

use vstd::prelude::*;

verus! {

/// Register addresses of the expander chip.
pub const IODIRA: u8 = 0x00;

pub const IODIRB: u8 = 0x01;

pub const GPPUB: u8 = 0x0D;

pub const GPIOA: u8 = 0x12;

pub const GPIOB: u8 = 0x13;

/// The fixed hardware address of the one chip this driver talks to.
pub const HARDWARE_ADDRESS: u8 = 0;

/// A two-valued logic level, the only value exchanged at the bit level.
#[derive(Clone, Copy, PartialEq, Eq, Structural, Debug)]
pub enum IoValue {
    Low,
    High,
}

/// One of the two 8-bit ports: `Out` drives lines, `In` senses them.
#[derive(Clone, Copy, PartialEq, Eq, Structural, Debug)]
pub enum PortLabel {
    Out,
    In,
}

impl PortLabel {
    /// The data-register address this port maps to.
    pub open spec fn spec_address(self) -> u8 {
        match self {
            PortLabel::Out => GPIOA,
            PortLabel::In => GPIOB,
        }
    }

    /// The data-register address this port maps to.
    pub fn address(&self) -> (r: u8)
        ensures
            r == self.spec_address(),
    {
        match self {
            PortLabel::Out => GPIOA,
            PortLabel::In => GPIOB,
        }
    }
}

/// Command byte of a write transaction: `0x40 | (address << 1) | 0`.
pub open spec fn spec_write_cmd() -> u8 {
    0x40 | (HARDWARE_ADDRESS << 1) | 0
}

/// Command byte of a read transaction: `0x40 | (address << 1) | 1`.
pub open spec fn spec_read_cmd() -> u8 {
    0x40 | (HARDWARE_ADDRESS << 1) | 1
}

/// Command byte sent first in every write transaction.
pub fn write_cmd() -> (r: u8)
    ensures
        r == spec_write_cmd(),
        r == 0x40,
{
    proof {
        assert(0x40u8 | (HARDWARE_ADDRESS << 1) | 0 == 0x40) by (bit_vector);
    }
    0x40 | (HARDWARE_ADDRESS << 1) | 0
}

/// Command byte sent first in every read transaction.
pub fn read_cmd() -> (r: u8)
    ensures
        r == spec_read_cmd(),
        r == 0x41,
{
    proof {
        assert(0x40u8 | (HARDWARE_ADDRESS << 1) | 1 == 0x41) by (bit_vector);
    }
    0x40 | (HARDWARE_ADDRESS << 1) | 1
}

/// The single-bit mask addressing line `num` of a port.
pub open spec fn spec_mask(num: u8) -> u8 {
    1u8 << num
}

/// Whether line `num` reads high in the register byte `byte`.
pub open spec fn spec_bit_high(byte: u8, num: u8) -> bool {
    byte & spec_mask(num) != 0
}

/// The logic level of line `num` within the register byte `byte`.
pub open spec fn spec_decode_bit(byte: u8, num: u8) -> IoValue {
    if spec_bit_high(byte, num) {
        IoValue::High
    } else {
        IoValue::Low
    }
}

/// Extract the logic level of line `num` from a full register byte.
pub fn decode_bit(byte: u8, num: u8) -> (r: IoValue)
    requires
        num < 8,
    ensures
        r == spec_decode_bit(byte, num),
{
    let mask: u8 = 1u8 << num;
    if byte & mask != 0 {
        IoValue::High
    } else {
        IoValue::Low
    }
}

/// The register byte after forcing line `num` to `value`, all other lines kept.
pub open spec fn spec_apply_bit(byte: u8, num: u8, value: IoValue) -> u8 {
    match value {
        IoValue::Low => byte & !spec_mask(num),
        IoValue::High => byte | spec_mask(num),
    }
}

/// Compute the byte to write back when line `num` is forced to `value`.
pub fn apply_bit(byte: u8, num: u8, value: IoValue) -> (r: u8)
    requires
        num < 8,
    ensures
        r == spec_apply_bit(byte, num, value),
{
    let mask: u8 = 1u8 << num;
    match value {
        IoValue::Low => byte & !mask,
        IoValue::High => byte | mask,
    }
}

/// Whether forcing line `num` to `value` changes the register byte at all;
/// when it does not, no write transaction is issued.
pub open spec fn spec_needs_write(byte: u8, num: u8, value: IoValue) -> bool {
    spec_apply_bit(byte, num, value) != byte
}

/// Decide the write of a read-modify-write update: the byte to write back,
/// or `None` exactly when the requested level already holds and no write
/// transaction is to be issued.
pub fn plan_update(did_read: u8, num: u8, value: IoValue) -> (w: Option<u8>)
    requires
        num < 8,
    ensures
        w is Some <==> spec_needs_write(did_read, num, value),
        w matches Some(b) ==> b == spec_apply_bit(did_read, num, value),
{
    let to_write = apply_bit(did_read, num, value);
    if did_read != to_write {
        Some(to_write)
    } else {
        None
    }
}

/// Forcing a line to a value and reading it back yields that value.
pub proof fn lemma_apply_then_decode(byte: u8, num: u8, value: IoValue)
    requires
        num < 8,
    ensures
        spec_decode_bit(spec_apply_bit(byte, num, value), num) == value,
{
    assert((byte | (1u8 << num)) & (1u8 << num) != 0) by (bit_vector)
        requires
            num < 8,
    ;
    assert((byte & !(1u8 << num)) & (1u8 << num) == 0) by (bit_vector)
        requires
            num < 8,
    ;
}

/// Forcing a line to a value it already holds changes nothing, so a second
/// identical update never needs a write transaction.
pub proof fn lemma_apply_idempotent(byte: u8, num: u8, value: IoValue)
    requires
        num < 8,
    ensures
        spec_apply_bit(spec_apply_bit(byte, num, value), num, value) == spec_apply_bit(
            byte,
            num,
            value,
        ),
        !spec_needs_write(spec_apply_bit(byte, num, value), num, value),
{
    assert((byte | (1u8 << num)) | (1u8 << num) == byte | (1u8 << num)) by (bit_vector);
    assert((byte & !(1u8 << num)) & !(1u8 << num) == byte & !(1u8 << num)) by (bit_vector);
}

/// Mask isolation: forcing line `i` leaves every other line `j` unchanged.
pub proof fn lemma_other_bits_unchanged(byte: u8, i: u8, j: u8, value: IoValue)
    requires
        i < 8,
        j < 8,
        i != j,
    ensures
        spec_bit_high(spec_apply_bit(byte, i, value), j) == spec_bit_high(byte, j),
        spec_decode_bit(spec_apply_bit(byte, i, value), j) == spec_decode_bit(byte, j),
{
    assert((byte | (1u8 << i)) & (1u8 << j) == byte & (1u8 << j)) by (bit_vector)
        requires
            i < 8,
            j < 8,
            i != j,
    ;
    assert((byte & !(1u8 << i)) & (1u8 << j) == byte & (1u8 << j)) by (bit_vector)
        requires
            i < 8,
            j < 8,
            i != j,
    ;
}

} // verus!
