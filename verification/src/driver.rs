//! The measurement protocol: trigger, wait, read.
//!
//! The sensor sleeps until it is told to measure. It then converts for about
//! five milliseconds, during which its busy flag is set, and holds the result
//! until it is read. Nothing here waits or looks at the busy flag: a caller
//! that reads too early gets stale data or data of a conversion in progress.
//!
//! Every operation is a function of what the bus gave. The operations that
//! are one transaction take its outcome. The two that write, wait and read
//! are made of steps: each call takes what has last happened and returns
//! what to do next.

use vstd::prelude::*;

use crate::interface::{
    check_status,
    valid_i2c_addresses,
    I2cInterface,
    Interface,
    MprI2cError,
    MprSpiError,
    SpiInterface,
};
use crate::registers::{integrity_bit, saturation_bit, Status};
use crate::typedefs::Reading;
use crate::MprConfig;

verus! {

/// Milliseconds to wait between the command and the read of its result.
pub const EXIT_STANDBY_DELAY_MS: u32 = 10;

/// The command that starts a measurement.
pub const OUTPUT_MEASUREMENT_CMD: [u8; 3] = [0xaa, 0x00, 0x00];

/// The addresses at which a sensor of the family answers.
pub const VALID_I2C_ADDRESSES: [u8; 8] = [0x08, 0x18, 0x28, 0x38, 0x48, 0x58, 0x68, 0x78];

/// The permitted addresses are the eight elements of `VALID_I2C_ADDRESSES`
/// and no others. They are the 7-bit addresses whose low four bits are 1000.
pub proof fn lemma_valid_i2c_addresses(address: u8)
    ensures
        valid_i2c_addresses().contains(address) <==> exists|i: int|
            0 <= i < 8 && VALID_I2C_ADDRESSES[i] == address,
        valid_i2c_addresses().contains(address) <==> address & 0x8f == 0x08,
        valid_i2c_addresses().finite(),
        valid_i2c_addresses().len() == 8,
{
    if valid_i2c_addresses().contains(address) {
        let i: int = (address as int - 8) / 16;
        assert(0 <= i < 8 && VALID_I2C_ADDRESSES[i] == address);
    }
    assert(address & 0x8f == 0x08 <==> (address == 0x08 || address == 0x18 || address == 0x28
        || address == 0x38 || address == 0x48 || address == 0x58 || address == 0x68 || address
        == 0x78)) by (bit_vector);
}

/// The count that three bytes stand for, the most significant byte first.
pub open spec fn raw_count(hi: u8, mid: u8, lo: u8) -> int {
    hi * 0x1_0000 + mid * 0x100 + lo
}

/// A count is below 2**24, so that it fits the low 24 bits of a `u32` and
/// leaves the top 8 bits zero, and it is the three bytes put side by side:
/// `(hi << 16) | (mid << 8) | lo`. Each byte can be had back from it.
pub proof fn lemma_raw_count_is_big_endian(hi: u8, mid: u8, lo: u8)
    ensures
        0 <= raw_count(hi, mid, lo) < 0x100_0000,
        raw_count(hi, mid, lo) == ((hi as u32) << 16) | ((mid as u32) << 8) | (lo as u32),
        raw_count(hi, mid, lo) as u32 >> 24 == 0,
        (raw_count(hi, mid, lo) as u32 >> 16) & 0xff == hi,
        (raw_count(hi, mid, lo) as u32 >> 8) & 0xff == mid,
        raw_count(hi, mid, lo) as u32 & 0xff == lo,
{
    let h: u32 = hi as u32;
    let m: u32 = mid as u32;
    let l: u32 = lo as u32;
    let count: u32 = raw_count(hi, mid, lo) as u32;
    assert(count == (h << 16) | (m << 8) | l && count >> 24 == 0 && (count >> 16) & 0xff == h && (
    count >> 8) & 0xff == m && count & 0xff == l) by (bit_vector)
        requires
            h < 0x100,
            m < 0x100,
            l < 0x100,
            count == h * 0x1_0000 + m * 0x100 + l,
    ;
}

/// What has last happened in the course of a measurement with a wait.
///
/// The steps are taken in a fixed order, so the last outcome tells how far
/// the measurement has come: it is all the state there is.
#[derive(Debug, PartialEq, Eq)]
pub enum Event<B> {
    /// Nothing yet: the measurement is to begin.
    Started,
    /// The command was written, with this outcome.
    Written(Result<(), B>),
    /// The wait is over.
    Waited,
    /// Four bytes were read, with this outcome.
    Received(Result<[u8; 4], B>),
}

/// What the caller is to do next in the course of a measurement with a wait.
#[derive(Debug, PartialEq, Eq)]
pub enum Action<T, X> {
    /// Write these bytes to the device and hand in `Event::Written`.
    Write([u8; 3]),
    /// Wait for this number of milliseconds and hand in `Event::Waited`.
    Delay(u32),
    /// Read four bytes from the device and hand in `Event::Received`.
    Read,
    /// Nothing: the measurement has ended, with this result.
    Done(Result<T, X>),
}

/// MPR driver instance consisting of configuration and a I2C or SPI interface.
#[derive(Debug)]
pub struct Mpr<I: Interface> {
    config: MprConfig,
    interface: I,
}

/// Looks `address` up among the permitted ones.
fn is_valid_i2c_address(address: u8) -> (valid: bool)
    ensures
        valid == valid_i2c_addresses().contains(address),
{
    let mut i: usize = 0;
    while i < 8
        invariant
            i <= 8,
            forall|j: int| 0 <= j < i ==> VALID_I2C_ADDRESSES[j] != address,
        decreases 8 - i,
    {
        if VALID_I2C_ADDRESSES[i] == address {
            return true;
        }
        i += 1;
    }
    false
}

/// Constructs a MPR driver instance using the I2C interface.
impl<E> Mpr<I2cInterface<E>> {
    /// The driver for the sensor at `address`, if a sensor can be there:
    /// any other address is refused with `InvalidAddress`.
    pub fn new_i2c(address: u8, config: MprConfig) -> (made: Result<
        Mpr<I2cInterface<E>>,
        MprI2cError<E>,
    >)
        ensures
            valid_i2c_addresses().contains(address) ==> made is Ok && made->Ok_0.config() == config
                && made->Ok_0.spec_interface().address() == address,
            !valid_i2c_addresses().contains(address) ==> made == Err::<
                Mpr<I2cInterface<E>>,
                MprI2cError<E>,
            >(MprI2cError::InvalidAddress),
    {
        if !is_valid_i2c_address(address) {
            return Err(MprI2cError::InvalidAddress)
        }
        Ok(Mpr { config, interface: I2cInterface::new(address) })
    }

    /// `InvalidAddress` belongs to the making of a driver: no operation of a
    /// driver reports it, whatever the bus gave.
    pub proof fn lemma_invalid_address_at_construction_only(
        &self,
        event: Event<E>,
        received: Result<[u8; 4], E>,
        byte: Result<[u8; 1], E>,
    )
        ensures
            Self::spec_read_raw(received) != Err::<u32, MprI2cError<E>>(
                MprI2cError::InvalidAddress,
            ),
            self.spec_read(received) != Err::<Reading, MprI2cError<E>>(
                MprI2cError::InvalidAddress,
            ),
            Self::spec_status(byte) != Err::<Status, MprI2cError<E>>(MprI2cError::InvalidAddress),
            Self::spec_read_raw_with_delay(event) != Action::<u32, MprI2cError<E>>::Done(
                Err(MprI2cError::InvalidAddress),
            ),
            self.spec_read_with_delay(event) != Action::<Reading, MprI2cError<E>>::Done(
                Err(MprI2cError::InvalidAddress),
            ),
    {
    }
}

/// Constructs a MPR driver instance using the SPI interface.
impl<E> Mpr<SpiInterface<E>> {
    /// The driver for the sensor that the bus handle selects. It never
    /// fails.
    pub fn new_spi(config: MprConfig) -> (made: Result<Mpr<SpiInterface<E>>, MprSpiError<E>>)
        ensures
            made is Ok,
            made->Ok_0.config() == config,
    {
        Ok(Mpr { config, interface: SpiInterface::new() })
    }
}

impl<I: Interface> Mpr<I> {
    /// A driver is only ever made over a transport that reaches a sensor.
    #[verifier::type_invariant]
    spec fn reaches_a_sensor(self) -> bool {
        self.interface.reachable()
    }

    /// The configuration that the driver was made with.
    pub closed spec fn spec_config(&self) -> &MprConfig {
        &self.config
    }

    /// The transport that the driver was made with.
    pub closed spec fn spec_interface(&self) -> &I {
        &self.interface
    }

    /// What a read of a measurement comes to. A failure of the bus is
    /// reported as such. Else the first byte is judged as a status, and a
    /// measurement that it makes worthless is reported so. Else the other
    /// three bytes are the count.
    pub open spec fn spec_read_raw(received: Result<[u8; 4], I::BusError>) -> Result<
        u32,
        I::Error,
    > {
        match received {
            Err(e) => Err(I::bus_failure(e)),
            Ok(buf) => match check_status(buf[0], I::saturation_failure(), I::integrity_failure()) {
                Err(x) => Err(x),
                Ok(()) => Ok(raw_count(buf[1], buf[2], buf[3]) as u32),
            },
        }
    }

    /// The reading that the driver makes of a raw count: the count with the
    /// range and the curve of the configuration.
    pub open spec fn reading_of(&self, raw_data: u32) -> Reading {
        Reading {
            range_min: self.config().pressure_min() as i32,
            range_max: self.config().pressure_max() as i32,
            raw_data,
            transfer_function: self.config().transfer_function(),
        }
    }

    /// What a read of a measurement comes to, as a reading.
    pub open spec fn spec_read(&self, received: Result<[u8; 4], I::BusError>) -> Result<
        Reading,
        I::Error,
    > {
        match Self::spec_read_raw(received) {
            Err(x) => Err(x),
            Ok(raw_data) => Ok(self.reading_of(raw_data)),
        }
    }

    /// What a read of the status comes to: the byte as it is, whatever its
    /// flags are, or the failure of the bus.
    pub open spec fn spec_status(received: Result<[u8; 1], I::BusError>) -> Result<
        Status,
        I::Error,
    > {
        match received {
            Err(e) => Err(I::bus_failure(e)),
            Ok(buf) => Ok(Status::from_bits(buf[0])),
        }
    }

    /// The next step of a measurement with a wait, where `finish` says what
    /// the four bytes come to. The command is written first. If that fails
    /// the measurement ends with the failure; else comes the wait, then the
    /// read, and the measurement ends with what the read comes to.
    pub open spec fn next_action<T>(
        event: Event<I::BusError>,
        finish: spec_fn(Result<[u8; 4], I::BusError>) -> Result<T, I::Error>,
    ) -> Action<T, I::Error> {
        match event {
            Event::Started => Action::Write(OUTPUT_MEASUREMENT_CMD),
            Event::Written(Ok(())) => Action::Delay(EXIT_STANDBY_DELAY_MS),
            Event::Written(Err(e)) => Action::Done(Err(I::bus_failure(e))),
            Event::Waited => Action::Read,
            Event::Received(received) => Action::Done(finish(received)),
        }
    }

    /// The next step of a measurement with a wait that ends with a count.
    pub open spec fn spec_read_raw_with_delay(event: Event<I::BusError>) -> Action<u32, I::Error> {
        Self::next_action(
            event,
            |received: Result<[u8; 4], I::BusError>| Self::spec_read_raw(received),
        )
    }

    /// The next step of a measurement with a wait that ends with a reading.
    pub open spec fn spec_read_with_delay(&self, event: Event<I::BusError>) -> Action<
        Reading,
        I::Error,
    > {
        Self::next_action(event, |received: Result<[u8; 4], I::BusError>| self.spec_read(received))
    }

    /// The configuration that the driver was made with.
    #[verifier::when_used_as_spec(spec_config)]
    pub fn config(&self) -> (config: &MprConfig)
        ensures
            config == self.spec_config(),
    {
        &self.config
    }

    /// The transport that the driver was made with. It reaches a sensor:
    /// over I2C its address is one of the permitted ones.
    pub fn interface(&self) -> (interface: &I)
        ensures
            interface == self.spec_interface(),
            interface.reachable(),
    {
        proof {
            use_type_invariant(self);
        }
        &self.interface
    }

    /// Exits sensor standby mode and enters operating mode in preparation for measurement.
    ///
    /// Returns the three bytes to write to the device. App should delay >=5ms or wait for
    /// rising edge on EOC line after they are written and before reading measurement data
    /// via any `read_raw*` method. What the bus says of the write goes to the transport's
    /// `write_reg`.
    pub fn exit_standby(&self) -> (command: [u8; 3])
        ensures
            command == OUTPUT_MEASUREMENT_CMD,
            command@ == seq![0xaau8, 0x00u8, 0x00u8],
    {
        OUTPUT_MEASUREMENT_CMD
    }

    /// Reads 24-bits of raw pressure data.
    ///
    /// `received` is the outcome of a read of four bytes from the device:
    /// the status byte, then the count with its most significant byte first.
    /// The count that comes back has its top 8 bits zero.
    pub fn read_raw(&self, received: Result<[u8; 4], I::BusError>) -> (count: Result<
        u32,
        I::Error,
    >)
        ensures
            count == Self::spec_read_raw(received),
            received matches Err(e) ==> count == Err::<u32, I::Error>(I::bus_failure(e)),
            received matches Ok(buf) ==> (saturation_bit(buf[0]) ==> count == Err::<u32, I::Error>(
                I::saturation_failure(),
            )),
            received matches Ok(buf) ==> (!saturation_bit(buf[0]) && integrity_bit(buf[0])
                ==> count == Err::<u32, I::Error>(I::integrity_failure())),
            received matches Ok(buf) ==> (!saturation_bit(buf[0]) && !integrity_bit(buf[0])
                ==> count == Ok::<u32, I::Error>(raw_count(buf[1], buf[2], buf[3]) as u32)),
            count matches Ok(raw) ==> raw < 0x100_0000,
    {
        let buf = match self.interface.read_reg(received) {
            Ok(buf) => buf,
            Err(e) => return Err(e),
        };

        let status = Status::from_bits(buf[0]);
        match self.interface.validate_status(status) {
            Ok(()) => {},
            Err(e) => return Err(e),
        }
        let hi: u32 = buf[1] as u32;
        let mid: u32 = buf[2] as u32;
        let lo: u32 = buf[3] as u32;
        assert(hi << 16 == hi * 0x1_0000 && mid << 8 == mid * 0x100) by (bit_vector)
            requires
                hi < 0x100,
                mid < 0x100,
        ;
        Ok((hi << 16) + (mid << 8) + lo)
    }

    /// Exits standby, waits and then reads raw pressure data.
    ///
    /// One call is one step: it takes what has last happened and says what
    /// to do next, until the measurement is done.
    pub fn read_raw_with_delay(&self, event: Event<I::BusError>) -> (action: Action<u32, I::Error>)
        ensures
            action == Self::spec_read_raw_with_delay(event),
    {
        match event {
            Event::Started => Action::Write(self.exit_standby()),
            Event::Written(written) => match self.interface.write_reg(written) {
                Ok(()) => Action::Delay(EXIT_STANDBY_DELAY_MS),
                Err(e) => Action::Done(Err(e)),
            },
            Event::Waited => Action::Read,
            Event::Received(received) => Action::Done(self.read_raw(received)),
        }
    }

    /// Reads 24-bits of raw pressure data as a Reading.
    ///
    /// `received` is the outcome of a read of four bytes from the device.
    /// It is taken as `read_raw` takes it, and the count is put together
    /// with the range and the curve of the configuration.
    pub fn read(&self, received: Result<[u8; 4], I::BusError>) -> (reading: Result<
        Reading,
        I::Error,
    >)
        ensures
            reading == self.spec_read(received),
            Self::spec_read_raw(received) matches Err(x) ==> reading == Err::<Reading, I::Error>(x),
            Self::spec_read_raw(received) matches Ok(raw_data) ==> reading == Ok::<
                Reading,
                I::Error,
            >(
                Reading {
                    range_min: self.config().pressure_min() as i32,
                    range_max: self.config().pressure_max() as i32,
                    raw_data,
                    transfer_function: self.config().transfer_function(),
                },
            ),
    {
        let raw_data = match self.read_raw(received) {
            Ok(raw_data) => raw_data,
            Err(e) => return Err(e),
        };
        Ok(
            Reading {
                range_min: self.config.pressure_min() as i32,
                range_max: self.config.pressure_max() as i32,
                raw_data,
                transfer_function: self.config.transfer_function(),
            },
        )
    }

    /// Exits standby, waits and then reads raw pressure data as a Reading.
    ///
    /// One call is one step: it takes what has last happened and says what
    /// to do next, until the measurement is done.
    pub fn read_with_delay(&self, event: Event<I::BusError>) -> (action: Action<Reading, I::Error>)
        ensures
            action == self.spec_read_with_delay(event),
    {
        match event {
            Event::Started => Action::Write(self.exit_standby()),
            Event::Written(written) => match self.interface.write_reg(written) {
                Ok(()) => Action::Delay(EXIT_STANDBY_DELAY_MS),
                Err(e) => Action::Done(Err(e)),
            },
            Event::Waited => Action::Read,
            Event::Received(received) => Action::Done(self.read(received)),
        }
    }

    /// Reads the sensor status byte.
    ///
    /// `received` is the outcome of a read of one byte from the device. The
    /// byte is not judged: whatever its flags are, it is handed back, so
    /// that the state of the device can be seen where a measurement would
    /// be refused.
    pub fn status(&self, received: Result<[u8; 1], I::BusError>) -> (status: Result<
        Status,
        I::Error,
    >)
        ensures
            status == Self::spec_status(received),
            received matches Ok(buf) ==> status == Ok::<Status, I::Error>(Status::from_bits(buf[0])),
            received matches Ok(buf) ==> status is Ok && status->Ok_0@ == buf[0],
            received matches Err(e) ==> status == Err::<Status, I::Error>(I::bus_failure(e)),
    {
        let buf = match self.interface.read_reg(received) {
            Ok(buf) => buf,
            Err(e) => return Err(e),
        };
        Ok(Status::from_bits(buf[0]))
    }

    /// The steps of a measurement with a wait come in one order. The command
    /// is asked for at the start and only there, the wait of ten
    /// milliseconds after the command was written and only there, the read
    /// after the wait and only there. The measurement ends where a
    /// transaction has failed or the four bytes are in.
    pub proof fn lemma_steps_come_in_order<T>(
        event: Event<I::BusError>,
        finish: spec_fn(Result<[u8; 4], I::BusError>) -> Result<T, I::Error>,
    )
        ensures
            Self::next_action(event, finish) is Write <==> event is Started,
            Self::next_action(event, finish) is Delay <==> (event is Written
                && event->Written_0 is Ok),
            Self::next_action(event, finish) is Read <==> event is Waited,
            Self::next_action(event, finish) is Done <==> (event is Received || (event is Written
                && event->Written_0 is Err)),
            Self::next_action(event, finish) matches Action::Write(bytes) ==> bytes@ == seq![
                0xaau8,
                0x00u8,
                0x00u8,
            ],
            Self::next_action(event, finish) matches Action::Delay(ms) ==> ms == 10,
    {
    }
}

} // verus!
