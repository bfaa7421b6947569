//! The trusted transport layer: the raw SPI device handle and the few
//! byte-level calls into the `spidev` crate that the verified driver makes.
//!
//! Every function here is believed, not proved; each doc comment names the
//! outside call it relies on.

use std::io::Write;
use std::sync::Arc;
use vstd::prelude::*;
use vstd::rwlock::RwLock;
use vstd::rwlock::RwLockPredicate;

use spidev::SpiModeFlags;
use spidev::Spidev;
use spidev::SpidevOptions;
use spidev::SpidevTransfer;

use crate::error::ExpanderError;

verus! {

/// `spidev::Spidev` is the raw transport handle; its value is opaque here.
#[verifier::external_type_specification]
#[verifier::external_body]
pub struct ExSpidev(Spidev);

/// Lock predicate for the shared transport: any transport state may be
/// stored, since the handle's value is opaque.
pub struct BusPred;

impl RwLockPredicate<Spidev> for BusPred {
    open spec fn inv(self, v: Spidev) -> bool {
        true
    }
}

/// Relies on `Spidev::open`: opens the serial device at `path` for
/// read-write access, or fails without touching the bus.
#[verifier::external_body]
pub(crate) fn open_device(path: &str) -> (r: Result<Spidev, ExpanderError>)
    ensures
        r matches Err(e) ==> e == ExpanderError::Open,
{
    match Spidev::open(path) {
        Ok(spi) => Ok(spi),
        Err(_) => Err(ExpanderError::Open),
    }
}

/// Relies on `Spidev::configure`: negotiates the given word size and clock
/// speed together with clock/phase convention 0 on the open device.
#[verifier::external_body]
pub(crate) fn configure_device(spi: &mut Spidev, bits_per_word: u8, speed_hz: u32) -> (r: Result<
    (),
    ExpanderError,
>)
    ensures
        r matches Err(e) ==> e == ExpanderError::Configure,
{
    let options = SpidevOptions::new()
        .bits_per_word(bits_per_word)
        .max_speed_hz(speed_hz)
        .mode(SpiModeFlags::SPI_MODE_0)
        .build();
    match spi.configure(&options) {
        Ok(()) => Ok(()),
        Err(_) => Err(ExpanderError::Configure),
    }
}

/// Relies on the `std::io::Write` impl for `Spidev`: clocks the three bytes
/// out on the bus as one unidirectional write transaction.
#[verifier::external_body]
pub(crate) fn spi_write3(spi: &mut Spidev, tx: &[u8; 3]) -> (r: Result<(), ExpanderError>)
    ensures
        r matches Err(e) ==> e == ExpanderError::Transaction,
{
    match spi.write(tx) {
        Ok(_) => Ok(()),
        Err(_) => Err(ExpanderError::Transaction),
    }
}

/// Relies on `SpidevTransfer::read_write` and `Spidev::transfer`: one
/// full-duplex transaction that clocks the three bytes out and the three
/// reply bytes in; what comes back depends on the device alone.
#[verifier::external_body]
pub(crate) fn spi_transfer3(spi: &Spidev, tx: &[u8; 3]) -> (r: Result<[u8; 3], ExpanderError>)
    ensures
        r matches Err(e) ==> e == ExpanderError::Transaction,
{
    let mut rx: [u8; 3] = [0; 3];
    let res = {
        let mut transfer = SpidevTransfer::read_write(tx, &mut rx);
        spi.transfer(&mut transfer)
    };
    match res {
        Ok(()) => Ok(rx),
        Err(_) => Err(ExpanderError::Transaction),
    }
}

/// Relies on `Arc::clone`: the result refers to the very same shared lock
/// and transport as the argument.
#[verifier::external_body]
pub(crate) fn clone_bus(bus: &Arc<RwLock<Spidev, BusPred>>) -> (r: Arc<RwLock<Spidev, BusPred>>)
    ensures
        r == *bus,
{
    bus.clone()
}

} // verus!
