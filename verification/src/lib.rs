//! Protocol core of a driver for Honeywell MPR pressure sensors.
//!
//! The crate holds no bus handle and performs no transaction. It decides what
//! goes on the wire and what the bytes that come back mean; the caller owns
//! the bus, carries out each transaction and hands the outcome in.

use vstd::prelude::*;

pub mod driver;
pub mod interface;
pub mod registers;
pub mod typedefs;

pub use crate::driver::{Action, Event, Mpr};
pub use crate::interface::{I2cInterface, Interface, MprI2cError, MprSpiError, SpiInterface};
pub use crate::registers::Status;
pub use crate::typedefs::{Ratio, Reading, TransferFunction};

verus! {

// COMMON ------------------------------------------------------------------------------------------
/// What is known of one device: the two ends of its pressure range, in psi,
/// and its calibration curve. Nothing asks the lower end to be below the
/// upper one.
#[derive(Clone, Copy, Debug, PartialEq, Eq)]
pub struct MprConfig {
    pressure_min: u8,
    pressure_max: u8,
    transfer_function: TransferFunction,
}

impl MprConfig {
    /// Lower end of the pressure range.
    pub closed spec fn spec_pressure_min(&self) -> u8 {
        self.pressure_min
    }

    /// Upper end of the pressure range.
    pub closed spec fn spec_pressure_max(&self) -> u8 {
        self.pressure_max
    }

    /// The calibration curve.
    pub closed spec fn spec_transfer_function(&self) -> TransferFunction {
        self.transfer_function
    }

    /// The configuration with these three parts, whatever they are.
    pub fn new(pressure_min: u8, pressure_max: u8, transfer_function: TransferFunction) -> (config:
        Self)
        ensures
            config.pressure_min() == pressure_min,
            config.pressure_max() == pressure_max,
            config.transfer_function() == transfer_function,
    {
        Self { pressure_min, pressure_max, transfer_function }
    }

    /// Lower end of the pressure range.
    #[verifier::when_used_as_spec(spec_pressure_min)]
    pub fn pressure_min(&self) -> (bound: u8)
        ensures
            bound == self.spec_pressure_min(),
    {
        self.pressure_min
    }

    /// Upper end of the pressure range.
    #[verifier::when_used_as_spec(spec_pressure_max)]
    pub fn pressure_max(&self) -> (bound: u8)
        ensures
            bound == self.spec_pressure_max(),
    {
        self.pressure_max
    }

    /// The calibration curve.
    #[verifier::when_used_as_spec(spec_transfer_function)]
    pub fn transfer_function(&self) -> (curve: TransferFunction)
        ensures
            curve == self.spec_transfer_function(),
    {
        self.transfer_function
    }

    /// A configuration is its three parts and nothing else.
    pub proof fn lemma_config_is_its_parts(a: MprConfig, b: MprConfig)
        requires
            a.pressure_min() == b.pressure_min(),
            a.pressure_max() == b.pressure_max(),
            a.transfer_function() == b.transfer_function(),
        ensures
            a == b,
    {
    }
}

} // verus!
