//! A register-level model of the expander chip.
//!
//! The chip holds one byte per register; every write transaction stores its
//! data byte into the addressed register and every read transaction returns
//! the addressed register's byte.  The functions here state that semantics
//! and the laws the driver relies on: the four-step initialization leaves
//! the output port at zero, and serialized read-modify-write updates of
//! distinct lines never lose each other's work.

use vstd::prelude::*;

use crate::codec::spec_apply_bit;
use crate::codec::spec_decode_bit;
use crate::codec::apply_bit;
use crate::codec::IoValue;
use crate::codec::PortLabel;
use crate::codec::GPIOA;
use crate::codec::GPIOB;
use crate::codec::GPPUB;
use crate::codec::IODIRA;
use crate::codec::IODIRB;

verus! {

/// The register file of the chip: two direction registers, port B's
/// pull-up register, and the two data registers.
#[derive(Clone, Copy, PartialEq, Eq, Structural, Debug)]
pub struct ChipState {
    pub iodir_a: u8,
    pub iodir_b: u8,
    pub gppu_b: u8,
    pub gpio_a: u8,
    pub gpio_b: u8,
}

/// The state after a write transaction stores `byte` into the register at
/// `address`; a write to an unknown address changes nothing.
pub open spec fn spec_store(s: ChipState, address: u8, byte: u8) -> ChipState {
    if address == IODIRA {
        ChipState { iodir_a: byte, ..s }
    } else if address == IODIRB {
        ChipState { iodir_b: byte, ..s }
    } else if address == GPPUB {
        ChipState { gppu_b: byte, ..s }
    } else if address == GPIOA {
        ChipState { gpio_a: byte, ..s }
    } else if address == GPIOB {
        ChipState { gpio_b: byte, ..s }
    } else {
        s
    }
}

/// The byte a read transaction returns for the register at `address`;
/// an unknown address reads as zero.
pub open spec fn spec_load(s: ChipState, address: u8) -> u8 {
    if address == IODIRA {
        s.iodir_a
    } else if address == IODIRB {
        s.iodir_b
    } else if address == GPPUB {
        s.gppu_b
    } else if address == GPIOA {
        s.gpio_a
    } else if address == GPIOB {
        s.gpio_b
    } else {
        0
    }
}

/// Run one write transaction against the model.
pub fn store(s: ChipState, address: u8, byte: u8) -> (r: ChipState)
    ensures
        r == spec_store(s, address, byte),
{
    if address == IODIRA {
        ChipState { iodir_a: byte, ..s }
    } else if address == IODIRB {
        ChipState { iodir_b: byte, ..s }
    } else if address == GPPUB {
        ChipState { gppu_b: byte, ..s }
    } else if address == GPIOA {
        ChipState { gpio_a: byte, ..s }
    } else if address == GPIOB {
        ChipState { gpio_b: byte, ..s }
    } else {
        s
    }
}

/// Run one read transaction against the model.
pub fn load(s: ChipState, address: u8) -> (r: u8)
    ensures
        r == spec_load(s, address),
{
    if address == IODIRA {
        s.iodir_a
    } else if address == IODIRB {
        s.iodir_b
    } else if address == GPPUB {
        s.gppu_b
    } else if address == GPIOA {
        s.gpio_a
    } else if address == GPIOB {
        s.gpio_b
    } else {
        0
    }
}

/// The state after the four initialization writes: clear the output data
/// register, make port A all-output, make port B all-input, and enable
/// port B's pull-ups.
pub open spec fn spec_after_init(s: ChipState) -> ChipState {
    spec_store(
        spec_store(spec_store(spec_store(s, GPIOA, 0), IODIRA, 0), IODIRB, 0xFF),
        GPPUB,
        0xFF,
    )
}

/// Run the four initialization writes against the model.
pub fn run_init(s: ChipState) -> (r: ChipState)
    ensures
        r == spec_after_init(s),
{
    let s1 = store(s, GPIOA, 0);
    let s2 = store(s1, IODIRA, 0);
    let s3 = store(s2, IODIRB, 0xFF);
    store(s3, GPPUB, 0xFF)
}

/// Whatever state the chip was in, after initialization the output data
/// register reads zero, port A is all-output, port B is all-input with
/// pull-ups enabled, and the input data register is untouched.
pub proof fn lemma_init_out_port_zero(s: ChipState)
    ensures
        spec_load(spec_after_init(s), GPIOA) == 0,
        spec_after_init(s).gpio_a == 0,
        spec_after_init(s).iodir_a == 0,
        spec_after_init(s).iodir_b == 0xFF,
        spec_after_init(s).gppu_b == 0xFF,
        spec_after_init(s).gpio_b == s.gpio_b,
{
}

/// One read-modify-write pin update: read the port's register, force the
/// one line, and write the byte back only when it changed.  The second
/// component tells whether a write transaction was issued.
pub open spec fn spec_set_pin(s: ChipState, port: PortLabel, num: u8, value: IoValue) -> (
    ChipState,
    bool,
) {
    let read = spec_load(s, port.spec_address());
    let to_write = spec_apply_bit(read, num, value);
    if to_write != read {
        (spec_store(s, port.spec_address(), to_write), true)
    } else {
        (s, false)
    }
}

/// Run one read-modify-write pin update against the model.
pub fn set_pin(s: ChipState, port: PortLabel, num: u8, value: IoValue) -> (r: (ChipState, bool))
    requires
        num < 8,
    ensures
        r == spec_set_pin(s, port, num, value),
{
    let read = load(s, port.address());
    let to_write = apply_bit(read, num, value);
    if to_write != read {
        (store(s, port.address(), to_write), true)
    } else {
        (s, false)
    }
}

/// After a pin update, the port's register holds exactly the forced byte,
/// whether or not a write transaction was needed, and every other register
/// is untouched.
pub proof fn lemma_set_pin_register(s: ChipState, port: PortLabel, num: u8, value: IoValue)
    requires
        num < 8,
    ensures
        spec_load(spec_set_pin(s, port, num, value).0, port.spec_address()) == spec_apply_bit(
            spec_load(s, port.spec_address()),
            num,
            value,
        ),
        port == PortLabel::Out ==> spec_set_pin(s, port, num, value).0.gpio_b == s.gpio_b,
        port == PortLabel::In ==> spec_set_pin(s, port, num, value).0.gpio_a == s.gpio_a,
        spec_set_pin(s, port, num, value).0.iodir_a == s.iodir_a,
        spec_set_pin(s, port, num, value).0.iodir_b == s.iodir_b,
        spec_set_pin(s, port, num, value).0.gppu_b == s.gppu_b,
{
}

/// Setting a pin and then reading it back through the model yields the
/// value that was set.
pub proof fn lemma_set_then_read(s: ChipState, port: PortLabel, num: u8, value: IoValue)
    requires
        num < 8,
    ensures
        spec_decode_bit(
            spec_load(spec_set_pin(s, port, num, value).0, port.spec_address()),
            num,
        ) == value,
{
    lemma_set_pin_register(s, port, num, value);
    crate::codec::lemma_apply_then_decode(spec_load(s, port.spec_address()), num, value);
}

/// A repeated pin update with the same value leaves the state alone and
/// issues no second write transaction.
pub proof fn lemma_set_pin_idempotent(s: ChipState, port: PortLabel, num: u8, value: IoValue)
    requires
        num < 8,
    ensures
        spec_set_pin(spec_set_pin(s, port, num, value).0, port, num, value).0 == spec_set_pin(
            s,
            port,
            num,
            value,
        ).0,
        spec_set_pin(spec_set_pin(s, port, num, value).0, port, num, value).1 == false,
{
    crate::codec::lemma_apply_idempotent(spec_load(s, port.spec_address()), num, value);
}

/// A pin update leaves the observed value of every other line of the same
/// port unchanged.
pub proof fn lemma_set_pin_preserves_other_lines(
    s: ChipState,
    port: PortLabel,
    i: u8,
    j: u8,
    value: IoValue,
)
    requires
        i < 8,
        j < 8,
        i != j,
    ensures
        spec_decode_bit(
            spec_load(spec_set_pin(s, port, i, value).0, port.spec_address()),
            j,
        ) == spec_decode_bit(spec_load(s, port.spec_address()), j),
{
    lemma_set_pin_register(s, port, i, value);
    crate::codec::lemma_other_bits_unchanged(spec_load(s, port.spec_address()), i, j, value);
}

/// Serialized updates of two distinct lines of one port never lose each
/// other's work: after both, each line reads the value it was given, in
/// whichever order the two updates ran.
pub proof fn lemma_no_lost_update(
    s: ChipState,
    port: PortLabel,
    i: u8,
    j: u8,
    vi: IoValue,
    vj: IoValue,
)
    requires
        i < 8,
        j < 8,
        i != j,
    ensures
        ({
            let after = spec_set_pin(spec_set_pin(s, port, i, vi).0, port, j, vj).0;
            &&& spec_decode_bit(spec_load(after, port.spec_address()), j) == vj
            &&& spec_decode_bit(spec_load(after, port.spec_address()), i) == vi
        }),
{
    let s1 = spec_set_pin(s, port, i, vi).0;
    lemma_set_then_read(s1, port, j, vj);
    lemma_set_then_read(s, port, i, vi);
    lemma_set_pin_preserves_other_lines(s1, port, j, i, vj);
    lemma_set_pin_register(s, port, i, vi);
    lemma_set_pin_register(s1, port, j, vj);
}

} // verus!
