use honeywell_mpr::interface::{
    I2cInterface, Interface, MprI2cError, MprSpiError, SpiInterface,
};
use honeywell_mpr::registers::Status;

#[test]
fn i2c_interface_keeps_its_address() {
    let interface: I2cInterface<u8> = I2cInterface::new(0x28);
    assert_eq!(interface.address(), 0x28);
    // the transport itself takes any address
    let interface: I2cInterface<u8> = I2cInterface::new(0x19);
    assert_eq!(interface.address(), 0x19);
}

#[test]
fn i2c_validate_status() {
    let interface: I2cInterface<u8> = I2cInterface::new(0x18);
    assert_eq!(interface.validate_status(Status::from_bits(0b0000_0000)), Ok(()));
    assert_eq!(
        interface.validate_status(Status::from_bits(0b0000_0001)),
        Err(MprI2cError::MathSaturation)
    );
    assert_eq!(
        interface.validate_status(Status::from_bits(0b0000_0100)),
        Err(MprI2cError::IntegrityTest)
    );
    // saturation is reported before a failed integrity test
    assert_eq!(
        interface.validate_status(Status::from_bits(0b0000_0101)),
        Err(MprI2cError::MathSaturation)
    );
    // busy, powered and reserved bits do not count
    assert_eq!(interface.validate_status(Status::from_bits(0b1111_1010)), Ok(()));
}

#[test]
fn spi_validate_status() {
    let interface: SpiInterface<u8> = SpiInterface::new();
    assert_eq!(interface.validate_status(Status::from_bits(0b0100_0000)), Ok(()));
    assert_eq!(
        interface.validate_status(Status::from_bits(0b0100_0001)),
        Err(MprSpiError::MathSaturation)
    );
    assert_eq!(
        interface.validate_status(Status::from_bits(0b0100_0100)),
        Err(MprSpiError::IntegrityTest)
    );
    assert_eq!(
        interface.validate_status(Status::from_bits(0b1111_1111)),
        Err(MprSpiError::MathSaturation)
    );
    assert_eq!(interface.validate_status(Status::from_bits(0b1111_1010)), Ok(()));
}

#[test]
fn validate_status_on_every_byte() {
    let i2c: I2cInterface<u8> = I2cInterface::new(0x18);
    let spi: SpiInterface<u8> = SpiInterface::new();
    for bits in 0..=255u8 {
        let status = Status::from_bits(bits);
        if bits & 1 != 0 {
            assert_eq!(i2c.validate_status(status), Err(MprI2cError::MathSaturation));
            assert_eq!(spi.validate_status(status), Err(MprSpiError::MathSaturation));
        } else if bits & 4 != 0 {
            assert_eq!(i2c.validate_status(status), Err(MprI2cError::IntegrityTest));
            assert_eq!(spi.validate_status(status), Err(MprSpiError::IntegrityTest));
        } else {
            assert_eq!(i2c.validate_status(status), Ok(()));
            assert_eq!(spi.validate_status(status), Ok(()));
        }
    }
}

#[test]
fn read_reg_hands_bytes_on_and_wraps_failures() {
    let i2c: I2cInterface<u8> = I2cInterface::new(0x18);
    assert_eq!(i2c.read_reg(Ok([1u8, 2, 3, 4])), Ok([1u8, 2, 3, 4]));
    assert_eq!(i2c.read_reg(Ok([0x60u8])), Ok([0x60u8]));
    assert_eq!(i2c.read_reg::<4>(Err(9)), Err(MprI2cError::I2c(9)));

    let spi: SpiInterface<&str> = SpiInterface::new();
    assert_eq!(spi.read_reg(Ok([1u8, 2, 3, 4])), Ok([1u8, 2, 3, 4]));
    assert_eq!(spi.read_reg::<1>(Err("mode fault")), Err(MprSpiError::Spi("mode fault")));
}

#[test]
fn write_reg_wraps_failures() {
    let i2c: I2cInterface<u8> = I2cInterface::new(0x18);
    assert_eq!(i2c.write_reg(Ok(())), Ok(()));
    assert_eq!(i2c.write_reg(Err(2)), Err(MprI2cError::I2c(2)));

    let spi: SpiInterface<&str> = SpiInterface::new();
    assert_eq!(spi.write_reg(Ok(())), Ok(()));
    assert_eq!(spi.write_reg(Err("overrun")), Err(MprSpiError::Spi("overrun")));
}
