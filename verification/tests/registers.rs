use honeywell_mpr::registers::Status;

#[test]
fn is_busy_false() {
    let status = Status::from_bits(0b1101_1111);
    assert!(!status.is_busy());
}

#[test]
fn is_busy_true() {
    let status = Status::from_bits(0b0010_0000);
    assert!(status.is_busy());
}

#[test]
fn is_powered_false() {
    let status = Status::from_bits(0b1011_1111);
    assert!(!status.is_powered());
}

#[test]
fn is_powered_true() {
    let status = Status::from_bits(0b0100_0000);
    assert!(status.is_powered());
}

#[test]
fn integrity_test_passed_false() {
    let status = Status::from_bits(0b0000_0100);
    assert!(!status.integrity_test_passed());
}

#[test]
fn integrity_test_passed_true() {
    let status = Status::from_bits(0b1111_1011);
    assert!(status.integrity_test_passed());
}

#[test]
fn math_saturation_occurred_false() {
    let status = Status::from_bits(0b1111_1110);
    assert!(!status.math_saturation_occurred());
}

#[test]
fn math_saturation_occurred_true() {
    let status = Status::from_bits(0b0000_0001);
    assert!(status.math_saturation_occurred());
}

#[test]
fn every_byte_keeps_all_its_bits() {
    for bits in 0..=255u8 {
        assert_eq!(Status::from_bits(bits).into_bits(), bits);
    }
}

#[test]
fn every_flag_is_its_bit_in_every_byte() {
    for bits in 0..=255u8 {
        let status = Status::from_bits(bits);
        assert_eq!(status.math_saturation_occurred(), bits & 0b0000_0001 != 0);
        assert_eq!(status.integrity_test_passed(), bits & 0b0000_0100 == 0);
        assert_eq!(status.is_busy(), bits & 0b0010_0000 != 0);
        assert_eq!(status.is_powered(), bits & 0b0100_0000 != 0);
    }
}

#[test]
fn reserved_bits_change_no_flag() {
    let flags = Status::from_bits(0b0110_0101);
    let all = Status::from_bits(0b1111_1111);
    assert_eq!(all.math_saturation_occurred(), flags.math_saturation_occurred());
    assert_eq!(all.integrity_test_passed(), flags.integrity_test_passed());
    assert_eq!(all.is_busy(), flags.is_busy());
    assert_eq!(all.is_powered(), flags.is_powered());

    let none = Status::from_bits(0b0000_0000);
    let reserved = Status::from_bits(0b1001_1010);
    assert!(!reserved.math_saturation_occurred() && !none.math_saturation_occurred());
    assert!(reserved.integrity_test_passed() && none.integrity_test_passed());
    assert!(!reserved.is_busy() && !none.is_busy());
    assert!(!reserved.is_powered() && !none.is_powered());
}

#[test]
fn statuses_compare_by_their_byte() {
    assert_eq!(Status::from_bits(0x40), Status::from_bits(0x40));
    assert_ne!(Status::from_bits(0x40), Status::from_bits(0x60));
    assert_ne!(Status::from_bits(0x40), Status::from_bits(0xc0));
}
