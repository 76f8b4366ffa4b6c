//! The two transports of the sensor and what each reports when it fails.
//!
//! A transport here is the part of a bus connection that needs no bus: to
//! which address the transactions go, how a failure of the bus is reported,
//! and when a status byte makes a measurement worthless. The transaction
//! itself is made by the caller, who hands its outcome in.

use core::marker::PhantomData;
use vstd::prelude::*;

use crate::registers::{integrity_bit, saturation_bit, Status};

mod private;

verus! {

/// What an operation over I2C reports when it fails; `E` is the failure of
/// the bus itself.
#[derive(Debug, PartialEq, Eq)]
pub enum MprI2cError<E> {
    /// The bus failed, in the way given.
    I2c(E),
    /// The address is none of those that the sensor family answers to.
    InvalidAddress,
    /// The status byte reports that the memory integrity test failed.
    IntegrityTest,
    /// The status byte reports that an internal calculation saturated.
    MathSaturation,
}

/// What an operation over SPI reports when it fails; `E` is the failure of
/// the bus itself.
#[derive(Debug, PartialEq, Eq)]
pub enum MprSpiError<E> {
    /// The status byte reports that the memory integrity test failed.
    IntegrityTest,
    /// The status byte reports that an internal calculation saturated.
    MathSaturation,
    /// The bus failed, in the way given.
    Spi(E),
}

/// Whether a sensor of the family can be reached at `address` over I2C: the
/// eight permitted addresses are 0x08, 0x18, 0x28, 0x38, 0x48, 0x58, 0x68 and
/// 0x78.
pub open spec fn valid_i2c_addresses() -> Set<u8> {
    set![0x08u8, 0x18u8, 0x28u8, 0x38u8, 0x48u8, 0x58u8, 0x68u8, 0x78u8]
}

/// What the status byte read with a measurement means for that measurement:
/// `Err(saturated)` if the saturation flag, bit 0, is set; else `Err(failed)`
/// if the integrity flag, bit 2, is set, which reports a failure; else `Ok`.
pub open spec fn check_status<X>(status: u8, saturated: X, failed: X) -> Result<(), X> {
    if saturation_bit(status) {
        Err(saturated)
    } else if integrity_bit(status) {
        Err(failed)
    } else {
        Ok(())
    }
}

/// One of the two transports. The trait is sealed: there is no third.
pub trait Interface: private::Sealed {
    /// What the bus reports when a transaction fails.
    type BusError;

    /// What an operation over this transport reports when it fails.
    type Error;

    /// Whether a sensor can be reached over this transport as it is set up.
    spec fn reachable(&self) -> bool;

    /// The error that stands for the bus failure `e`.
    spec fn bus_failure(e: Self::BusError) -> Self::Error;

    /// The error that stands for a failed memory integrity test.
    spec fn integrity_failure() -> Self::Error;

    /// The error that stands for a saturated calculation.
    spec fn saturation_failure() -> Self::Error;

    /// The kinds of failure can be told apart: a worthless measurement is
    /// never taken for a failure of the bus, nor one kind of worthless
    /// measurement for the other, and a failure of the bus comes back
    /// unchanged inside the error that stands for it.
    proof fn lemma_failures_differ(e: Self::BusError, other: Self::BusError)
        ensures
            Self::saturation_failure() != Self::integrity_failure(),
            Self::bus_failure(e) != Self::saturation_failure(),
            Self::bus_failure(e) != Self::integrity_failure(),
            Self::bus_failure(e) == Self::bus_failure(other) ==> e == other,
    ;

    /// Accounts for a read of `N` bytes that the caller made on the bus:
    /// the bytes are handed on as they came, a failure of the bus comes back
    /// as the transport's error for it.
    fn read_reg<const N: usize>(&self, received: Result<[u8; N], Self::BusError>) -> (bytes:
        Result<[u8; N], Self::Error>)
        ensures
            received matches Ok(buf) ==> bytes == Ok::<[u8; N], Self::Error>(buf),
            received matches Err(e) ==> bytes == Err::<[u8; N], Self::Error>(Self::bus_failure(e)),
    ;

    /// Accounts for a write that the caller made on the bus: a failure of
    /// the bus comes back as the transport's error for it.
    fn write_reg(&self, written: Result<(), Self::BusError>) -> (done: Result<(), Self::Error>)
        ensures
            written is Ok ==> done == Ok::<(), Self::Error>(()),
            written matches Err(e) ==> done == Err::<(), Self::Error>(Self::bus_failure(e)),
    ;

    /// Judges the status byte that came with a measurement. A set saturation
    /// flag is reported first, then a failed integrity test; any other byte
    /// passes, whatever its busy, power and reserved bits are.
    fn validate_status(&self, status: Status) -> (verdict: Result<(), Self::Error>)
        ensures
            verdict == check_status(status@, Self::saturation_failure(), Self::integrity_failure()),
    ;
}

// I2C ---------------------------------------------------------------------------------------------
/// The addressed transport: every transaction goes to the one address that
/// it was made with. `E` is the failure type of the bus.
#[derive(Debug)]
pub struct I2cInterface<E> {
    address: u8,
    bus: PhantomData<E>,
}

impl<E> I2cInterface<E> {
    /// The address that the transactions go to.
    pub closed spec fn spec_address(&self) -> u8 {
        self.address
    }

    /// Binds the transport to `address`. The address is taken as it is; it
    /// is the driver that takes the permitted ones only.
    pub fn new(address: u8) -> (interface: Self)
        ensures
            interface.address() == address,
            interface.reachable() <==> valid_i2c_addresses().contains(address),
    {
        Self { address, bus: PhantomData }
    }

    /// The address that the transactions go to.
    #[verifier::when_used_as_spec(spec_address)]
    pub fn address(&self) -> (address: u8)
        ensures
            address == self.spec_address(),
    {
        self.address
    }
}

impl<E> private::Sealed for I2cInterface<E> {

}

impl<E> Interface for I2cInterface<E> {
    type BusError = E;

    type Error = MprI2cError<E>;

    open spec fn reachable(&self) -> bool {
        valid_i2c_addresses().contains(self.address())
    }

    open spec fn bus_failure(e: E) -> MprI2cError<E> {
        MprI2cError::I2c(e)
    }

    open spec fn integrity_failure() -> MprI2cError<E> {
        MprI2cError::IntegrityTest
    }

    open spec fn saturation_failure() -> MprI2cError<E> {
        MprI2cError::MathSaturation
    }

    proof fn lemma_failures_differ(e: E, other: E) {
    }

    fn read_reg<const N: usize>(&self, received: Result<[u8; N], E>) -> (bytes: Result<
        [u8; N],
        MprI2cError<E>,
    >)
        ensures
            received matches Ok(buf) ==> bytes == Ok::<[u8; N], MprI2cError<E>>(buf),
            received matches Err(e) ==> bytes == Err::<[u8; N], MprI2cError<E>>(MprI2cError::I2c(e)),
    {
        match received {
            Ok(buf) => Ok(buf),
            Err(e) => Err(MprI2cError::I2c(e)),
        }
    }

    fn write_reg(&self, written: Result<(), E>) -> (done: Result<(), MprI2cError<E>>)
        ensures
            written is Ok ==> done == Ok::<(), MprI2cError<E>>(()),
            written matches Err(e) ==> done == Err::<(), MprI2cError<E>>(MprI2cError::I2c(e)),
    {
        match written {
            Ok(()) => Ok(()),
            Err(e) => Err(MprI2cError::I2c(e)),
        }
    }

    fn validate_status(&self, status: Status) -> (verdict: Result<(), MprI2cError<E>>)
        ensures
            status.math_saturation_occurred() ==> verdict == Err::<(), MprI2cError<E>>(
                MprI2cError::MathSaturation,
            ),
            !status.math_saturation_occurred() && !status.integrity_test_passed() ==> verdict
                == Err::<(), MprI2cError<E>>(MprI2cError::IntegrityTest),
            !status.math_saturation_occurred() && status.integrity_test_passed() ==> verdict
                == Ok::<(), MprI2cError<E>>(()),
    {
        if status.math_saturation_occurred() {
            return Err(MprI2cError::MathSaturation)
        }
        if !status.integrity_test_passed() {
            return Err(MprI2cError::IntegrityTest)
        }
        Ok(())
    }
}

// SPI ---------------------------------------------------------------------------------------------
/// The addressless transport: the bus handle selects the device. `E` is the
/// failure type of the bus.
#[derive(Debug)]
pub struct SpiInterface<E> {
    bus: PhantomData<E>,
}

impl<E> SpiInterface<E> {
    /// The transport; there is nothing to bind it to, and it reaches the
    /// sensor that the bus handle selects.
    pub fn new() -> (interface: Self)
        ensures
            interface.reachable(),
    {
        Self { bus: PhantomData }
    }
}

impl<E> private::Sealed for SpiInterface<E> {

}

impl<E> Interface for SpiInterface<E> {
    type BusError = E;

    type Error = MprSpiError<E>;

    open spec fn reachable(&self) -> bool {
        true
    }

    open spec fn bus_failure(e: E) -> MprSpiError<E> {
        MprSpiError::Spi(e)
    }

    open spec fn integrity_failure() -> MprSpiError<E> {
        MprSpiError::IntegrityTest
    }

    open spec fn saturation_failure() -> MprSpiError<E> {
        MprSpiError::MathSaturation
    }

    proof fn lemma_failures_differ(e: E, other: E) {
    }

    fn read_reg<const N: usize>(&self, received: Result<[u8; N], E>) -> (bytes: Result<
        [u8; N],
        MprSpiError<E>,
    >)
        ensures
            received matches Ok(buf) ==> bytes == Ok::<[u8; N], MprSpiError<E>>(buf),
            received matches Err(e) ==> bytes == Err::<[u8; N], MprSpiError<E>>(MprSpiError::Spi(e)),
    {
        match received {
            Ok(buf) => Ok(buf),
            Err(e) => Err(MprSpiError::Spi(e)),
        }
    }

    fn write_reg(&self, written: Result<(), E>) -> (done: Result<(), MprSpiError<E>>)
        ensures
            written is Ok ==> done == Ok::<(), MprSpiError<E>>(()),
            written matches Err(e) ==> done == Err::<(), MprSpiError<E>>(MprSpiError::Spi(e)),
    {
        match written {
            Ok(()) => Ok(()),
            Err(e) => Err(MprSpiError::Spi(e)),
        }
    }

    fn validate_status(&self, status: Status) -> (verdict: Result<(), MprSpiError<E>>)
        ensures
            status.math_saturation_occurred() ==> verdict == Err::<(), MprSpiError<E>>(
                MprSpiError::MathSaturation,
            ),
            !status.math_saturation_occurred() && !status.integrity_test_passed() ==> verdict
                == Err::<(), MprSpiError<E>>(MprSpiError::IntegrityTest),
            !status.math_saturation_occurred() && status.integrity_test_passed() ==> verdict
                == Ok::<(), MprSpiError<E>>(()),
    {
        if status.math_saturation_occurred() {
            return Err(MprSpiError::MathSaturation)
        }
        if !status.integrity_test_passed() {
            return Err(MprSpiError::IntegrityTest)
        }
        Ok(())
    }
}

} // verus!
