//! The shared expander handle and the pin views it issues.
//!
//! One `Expander` owns the one physical transport behind a lock; every
//! `Pin` holds only a shared reference to that lock plus its (port, line)
//! address.  Each operation acquires the lock before its first byte and
//! releases it only after its last, so the read-modify-write sequence in
//! `set_value` is atomic with respect to every other pin operation.

use std::sync::Arc;
use vstd::prelude::*;
use vstd::rwlock::RwLock;

use spidev::Spidev;

use crate::bus::clone_bus;
use crate::bus::configure_device;
use crate::bus::open_device;
use crate::bus::spi_transfer3;
use crate::bus::spi_write3;
use crate::bus::BusPred;
use crate::codec::decode_bit;
use crate::codec::plan_update;
use crate::codec::read_cmd;
use crate::codec::write_cmd;
use crate::codec::IoValue;
use crate::codec::PortLabel;
use crate::codec::GPIOA;
use crate::codec::GPPUB;
use crate::codec::IODIRA;
use crate::codec::IODIRB;
use crate::error::ExpanderError;
use crate::render::port_desc;
use crate::render::render_snapshot;
use crate::render::spec_port_desc;
use crate::render::spec_snapshot;

verus! {

/// Bus word size negotiated at open time.
pub const BITS_PER_WORD: u8 = 8;

/// Bus clock in Hz negotiated at open time.
pub const BUS_SPEED_HZ: u32 = 100_000;

/// Read-only access to one line.
pub trait Reader {
    /// Whether this view addresses one of the port's eight lines.
    spec fn wf(&self) -> bool;

    /// Read the current logic level of the line from the chip; the
    /// authoritative value lives in the chip's register, never in memory.
    fn read_value(&self) -> (r: Result<IoValue, ExpanderError>)
        requires
            self.wf(),
        ensures
            r matches Err(e) ==> e == ExpanderError::Transaction,
    ;
}

/// Read-write access to one line; meaningful only for the output port.
pub trait Writer: Reader {
    /// Force the line to `value` by a read-modify-write of the full port
    /// byte, writing back only when the byte changed.
    fn set_value(&self, value: IoValue) -> (r: Result<(), ExpanderError>)
        requires
            self.wf(),
        ensures
            r matches Err(e) ==> e == ExpanderError::Transaction,
    ;

    /// Force the line low.
    fn set_low(&self) -> (r: Result<(), ExpanderError>)
        requires
            self.wf(),
        ensures
            r matches Err(e) ==> e == ExpanderError::Transaction,
    ;

    /// Force the line high.
    fn set_high(&self) -> (r: Result<(), ExpanderError>)
        requires
            self.wf(),
        ensures
            r matches Err(e) ==> e == ExpanderError::Transaction,
    ;
}

/// The shared, lock-guarded owner of the one physical bus connection.
#[derive(Clone)]
pub struct Expander {
    bus: Arc<RwLock<Spidev, BusPred>>,
}

/// A view of one line: a shared reference to the expander's bus plus the
/// line's (port, bit-index) address.  Pins carry no state of their own.
#[derive(Clone)]
pub struct Pin {
    bus: Arc<RwLock<Spidev, BusPred>>,
    label: PortLabel,
    num: u8,
}

impl Pin {
    /// The shared bus this view operates through.
    pub closed spec fn spec_bus(&self) -> Arc<RwLock<Spidev, BusPred>> {
        self.bus
    }

    /// The port this view is bound to.
    pub closed spec fn spec_label(&self) -> PortLabel {
        self.label
    }

    /// The bit index this view is bound to.
    pub closed spec fn spec_num(&self) -> u8 {
        self.num
    }

    /// A companion read-only view of the same port and line, useful for
    /// reading back a line driven as output; no chip transaction involved.
    pub fn reader(&self) -> (r: Pin)
        ensures
            r.spec_bus() == self.spec_bus(),
            r.spec_label() == self.spec_label(),
            r.spec_num() == self.spec_num(),
    {
        Pin { bus: clone_bus(&self.bus), label: self.label, num: self.num }
    }
}

impl Expander {
    /// The shared bus this handle owns.
    pub closed spec fn spec_bus(&self) -> Arc<RwLock<Spidev, BusPred>> {
        self.bus
    }

    /// Open and configure the device, then perform the four initialization
    /// writes in order: clear the output data register, make port A
    /// all-output, make port B all-input, enable port B's pull-ups.  A
    /// failure at any step aborts construction with that step's error.
    pub fn new(device: &str) -> (r: Result<Expander, ExpanderError>)
        ensures
            r matches Err(e) ==> (e == ExpanderError::Open || e == ExpanderError::Configure
                || e == ExpanderError::Transaction),
    {
        let mut spi = open_device(device)?;
        configure_device(&mut spi, BITS_PER_WORD, BUS_SPEED_HZ)?;
        write_byte(&mut spi, GPIOA, 0)?;
        write_byte(&mut spi, IODIRA, 0)?;
        write_byte(&mut spi, IODIRB, 0xFF)?;
        write_byte(&mut spi, GPPUB, 0xFF)?;
        Ok(Expander { bus: Arc::new(RwLock::new(spi, Ghost(BusPred))) })
    }

    /// A read-write view of line `pin_num` of the output port.
    pub fn output(&self, pin_num: u8) -> (r: Pin)
        requires
            pin_num < 8,
        ensures
            r.wf(),
            r.spec_bus() == self.spec_bus(),
            r.spec_label() == PortLabel::Out,
            r.spec_num() == pin_num,
    {
        Pin { bus: clone_bus(&self.bus), label: PortLabel::Out, num: pin_num }
    }

    /// A read-only view of line `pin_num` of the input port.
    pub fn input(&self, pin_num: u8) -> (r: Pin)
        requires
            pin_num < 8,
        ensures
            r.wf(),
            r.spec_bus() == self.spec_bus(),
            r.spec_label() == PortLabel::In,
            r.spec_num() == pin_num,
    {
        Pin { bus: clone_bus(&self.bus), label: PortLabel::In, num: pin_num }
    }

    /// Read the full byte of the output port's data register.
    pub fn output_byte(&self) -> (r: Result<u8, ExpanderError>)
        ensures
            r matches Err(e) ==> e == ExpanderError::Transaction,
    {
        let (spi, handle) = self.bus.acquire_write();
        let r = read_port(&spi, PortLabel::Out);
        handle.release_write(spi);
        r
    }

    /// Read the full byte of the input port's data register.
    pub fn input_byte(&self) -> (r: Result<u8, ExpanderError>)
        ensures
            r matches Err(e) ==> e == ExpanderError::Transaction,
    {
        let (spi, handle) = self.bus.acquire_write();
        let r = read_port(&spi, PortLabel::In);
        handle.release_write(spi);
        r
    }

    /// Best-effort snapshot of both port bytes for human display; a failed
    /// read shows as the sentinel `NONE` and never propagates.  Both reads
    /// happen under one hold of the bus lock.  The result is exactly the
    /// `{ In: _, Out: _ }` frame around the rendering of the two read
    /// outcomes, whatever the transport returned.
    pub fn describe(&self) -> (s: String)
        ensures
            exists|in_r: Result<u8, ExpanderError>, out_r: Result<u8, ExpanderError>|
                s@ == spec_snapshot(spec_port_desc(in_r), spec_port_desc(out_r)),
    {
        let (spi, handle) = self.bus.acquire_write();
        let in_read = read_port(&spi, PortLabel::In);
        let out_read = read_port(&spi, PortLabel::Out);
        handle.release_write(spi);
        let in_part = port_desc(in_read);
        let out_part = port_desc(out_read);
        let s = render_snapshot(&in_part, &out_part);
        proof {
            assert(s@ == spec_snapshot(spec_port_desc(in_read), spec_port_desc(out_read)));
        }
        s
    }
}

impl Reader for Pin {
    open spec fn wf(&self) -> bool {
        self.spec_num() < 8
    }

    fn read_value(&self) -> (r: Result<IoValue, ExpanderError>) {
        let (spi, handle) = self.bus.acquire_write();
        let read = read_port(&spi, self.label);
        handle.release_write(spi);
        match read {
            Ok(byte) => Ok(decode_bit(byte, self.num)),
            Err(e) => Err(e),
        }
    }
}

impl Writer for Pin {
    fn set_value(&self, value: IoValue) -> (r: Result<(), ExpanderError>) {
        let (mut spi, handle) = self.bus.acquire_write();
        let r = set_value_locked(&mut spi, self.label, self.num, value);
        handle.release_write(spi);
        r
    }

    fn set_low(&self) -> (r: Result<(), ExpanderError>) {
        self.set_value(IoValue::Low)
    }

    fn set_high(&self) -> (r: Result<(), ExpanderError>) {
        self.set_value(IoValue::High)
    }
}

/// The read-modify-write sequence of `set_value`, run while the caller
/// holds the bus: read the port's byte and follow `plan_update`'s contracted
/// decision — write back `spec_apply_bit` of what was read exactly when
/// `spec_needs_write` holds of it, else issue no write transaction.
fn set_value_locked(spi: &mut Spidev, label: PortLabel, num: u8, value: IoValue) -> (r: Result<
    (),
    ExpanderError,
>)
    requires
        num < 8,
    ensures
        r matches Err(e) ==> e == ExpanderError::Transaction,
{
    let did_read = match read_port(spi, label) {
        Ok(b) => b,
        Err(e) => return Err(e),
    };
    match plan_update(did_read, num, value) {
        Some(to_write) => write_port(spi, label, to_write),
        None => Ok(()),
    }
}

/// Read the data register of `label`'s port.
fn read_port(spi: &Spidev, label: PortLabel) -> (r: Result<u8, ExpanderError>)
    ensures
        r matches Err(e) ==> e == ExpanderError::Transaction,
{
    read_byte(spi, label.address())
}

/// Read one register: a full-duplex (read-command, address, don't-care)
/// transaction whose reply's third byte is the register's value.
fn read_byte(spi: &Spidev, address: u8) -> (r: Result<u8, ExpanderError>)
    ensures
        r matches Err(e) ==> e == ExpanderError::Transaction,
{
    let tx: [u8; 3] = [read_cmd(), address, 0];
    match spi_transfer3(spi, &tx) {
        Ok(rx) => Ok(reply_byte(&rx)),
        Err(e) => Err(e),
    }
}

/// The register value within a full-duplex reply: its third byte, the one
/// clocked in after command and address have been shifted out.
fn reply_byte(rx: &[u8; 3]) -> (r: u8)
    ensures
        r == rx@[2],
{
    rx[2]
}

/// Write the data register of `label`'s port.
fn write_port(spi: &mut Spidev, label: PortLabel, byte: u8) -> (r: Result<(), ExpanderError>)
    ensures
        r matches Err(e) ==> e == ExpanderError::Transaction,
{
    write_byte(spi, label.address(), byte)
}

/// Write one register: a (write-command, address, value) transaction.
fn write_byte(spi: &mut Spidev, address: u8, byte: u8) -> (r: Result<(), ExpanderError>)
    ensures
        r matches Err(e) ==> e == ExpanderError::Transaction,
{
    let tx: [u8; 3] = [write_cmd(), address, byte];
    spi_write3(spi, &tx)
}

} // verus!
