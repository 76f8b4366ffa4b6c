//! The status byte of the sensor.
//!
//! Four of its bits carry a flag, the other four are reserved:
//!
//! | bit | meaning                                        |
//! |-----|------------------------------------------------|
//! | 0   | math saturation occurred                       |
//! | 1   | reserved                                       |
//! | 2   | memory integrity test failed (0 where it passed) |
//! | 3-4 | reserved                                       |
//! | 5   | busy, a conversion is in progress              |
//! | 6   | powered (0 while unpowered or in reset)        |
//! | 7   | reserved                                       |
//!
//! Bit 0 is the least significant. A bit is stated here as a digit of the
//! byte written in base two: bit `n` of `b` is `(b / 2**n) % 2`.

use vstd::prelude::*;

verus! {

/// Position of the math saturation flag, counted from the least significant bit.
pub const MATH_SATURATION_BIT: u8 = 0;

/// Position of the memory integrity flag.
pub const MEMORY_INTEGRITY_BIT: u8 = 2;

/// Position of the busy flag.
pub const BUSY_FLAG_BIT: u8 = 5;

/// Position of the power indication flag.
pub const POWER_INDICATION_BIT: u8 = 6;

/// Whether bit 0 of `byte`, the math saturation flag, is 1.
pub open spec fn saturation_bit(byte: u8) -> bool {
    byte % 2 == 1
}

/// Whether bit 2 of `byte`, the memory integrity flag, is 1. The flag is
/// inverted: 1 reports a failed test.
pub open spec fn integrity_bit(byte: u8) -> bool {
    (byte / 4) % 2 == 1
}

/// Whether bit 5 of `byte`, the busy flag, is 1.
pub open spec fn busy_bit(byte: u8) -> bool {
    (byte / 32) % 2 == 1
}

/// Whether bit 6 of `byte`, the power indication flag, is 1.
pub open spec fn power_bit(byte: u8) -> bool {
    (byte / 64) % 2 == 1
}

/// The four bits above are the bits that a shift and a mask pick at the
/// positions of the flags, and the bits that a mask alone tests.
pub proof fn lemma_flag_bits(byte: u8)
    ensures
        saturation_bit(byte) == ((byte >> MATH_SATURATION_BIT) & 1 == 1),
        integrity_bit(byte) == ((byte >> MEMORY_INTEGRITY_BIT) & 1 == 1),
        busy_bit(byte) == ((byte >> BUSY_FLAG_BIT) & 1 == 1),
        power_bit(byte) == ((byte >> POWER_INDICATION_BIT) & 1 == 1),
        saturation_bit(byte) == (byte & 0b0000_0001 != 0),
        integrity_bit(byte) == (byte & 0b0000_0100 != 0),
        busy_bit(byte) == (byte & 0b0010_0000 != 0),
        power_bit(byte) == (byte & 0b0100_0000 != 0),
{
    assert((byte % 2 == 1) == ((byte >> 0u8) & 1 == 1)) by (bit_vector);
    assert(((byte / 4) % 2 == 1) == ((byte >> 2u8) & 1 == 1)) by (bit_vector);
    assert(((byte / 32) % 2 == 1) == ((byte >> 5u8) & 1 == 1)) by (bit_vector);
    assert(((byte / 64) % 2 == 1) == ((byte >> 6u8) & 1 == 1)) by (bit_vector);
    assert((byte % 2 == 1) == (byte & 0b0000_0001 != 0)) by (bit_vector);
    assert(((byte / 4) % 2 == 1) == (byte & 0b0000_0100 != 0)) by (bit_vector);
    assert(((byte / 32) % 2 == 1) == (byte & 0b0010_0000 != 0)) by (bit_vector);
    assert(((byte / 64) % 2 == 1) == (byte & 0b0100_0000 != 0)) by (bit_vector);
}

/// One status byte as the sensor reports it.
///
/// All eight bits are kept as they were read: the view of a `Status` is the
/// byte itself.
#[derive(Clone, Copy, Debug, PartialEq, Eq)]
pub struct Status {
    bits: u8,
}

impl View for Status {
    type V = u8;

    closed spec fn view(&self) -> u8 {
        self.bits
    }
}

impl Status {
    /// The status that stands for the byte `bits`.
    pub closed spec fn spec_from_bits(bits: u8) -> Status {
        Status { bits }
    }

    /// Whether bit 5 is 1.
    pub open spec fn spec_is_busy(&self) -> bool {
        busy_bit(self@)
    }

    /// Whether bit 6 is 1.
    pub open spec fn spec_is_powered(&self) -> bool {
        power_bit(self@)
    }

    /// Whether bit 2 is 0.
    pub open spec fn spec_integrity_test_passed(&self) -> bool {
        !integrity_bit(self@)
    }

    /// Whether bit 0 is 1.
    pub open spec fn spec_math_saturation_occurred(&self) -> bool {
        saturation_bit(self@)
    }

    /// Takes a byte as the sensor sent it. Every byte is a status, and no bit
    /// is dropped or changed.
    #[verifier::when_used_as_spec(spec_from_bits)]
    pub fn from_bits(bits: u8) -> (status: Status)
        ensures
            status == Status::spec_from_bits(bits),
            status@ == bits,
    {
        Status { bits }
    }

    /// The byte that this status was made from.
    pub fn into_bits(self) -> (bits: u8)
        ensures
            bits == self@,
    {
        self.bits
    }

    /// The math saturation field: 1 if an internal calculation saturated.
    fn math_saturation(&self) -> (field: u8)
        ensures
            field == (if saturation_bit(self@) { 1u8 } else { 0u8 }),
    {
        proof {
            lemma_flag_bits(self.bits);
            lemma_field_is_a_bit(self.bits, MATH_SATURATION_BIT);
        }
        (self.bits >> MATH_SATURATION_BIT) & 1
    }

    /// The memory integrity field: 0 if the checksum test at power-up passed.
    fn memory_integrity(&self) -> (field: u8)
        ensures
            field == (if integrity_bit(self@) { 1u8 } else { 0u8 }),
    {
        proof {
            lemma_flag_bits(self.bits);
            lemma_field_is_a_bit(self.bits, MEMORY_INTEGRITY_BIT);
        }
        (self.bits >> MEMORY_INTEGRITY_BIT) & 1
    }

    /// The busy field: 1 while the data for the last command is not yet available.
    fn busy_flag(&self) -> (field: u8)
        ensures
            field == (if busy_bit(self@) { 1u8 } else { 0u8 }),
    {
        proof {
            lemma_flag_bits(self.bits);
            lemma_field_is_a_bit(self.bits, BUSY_FLAG_BIT);
        }
        (self.bits >> BUSY_FLAG_BIT) & 1
    }

    /// The power indication field: 0 while the device is unpowered or in reset.
    fn power_indication(&self) -> (field: u8)
        ensures
            field == (if power_bit(self@) { 1u8 } else { 0u8 }),
    {
        proof {
            lemma_flag_bits(self.bits);
            lemma_field_is_a_bit(self.bits, POWER_INDICATION_BIT);
        }
        (self.bits >> POWER_INDICATION_BIT) & 1
    }

    /// Whether a conversion is in progress, so that the data for the last
    /// command is not yet available: bit 5 is 1.
    #[verifier::when_used_as_spec(spec_is_busy)]
    pub fn is_busy(&self) -> (busy: bool)
        ensures
            busy == ((self@ / 32) % 2 == 1),
            busy == self.spec_is_busy(),
    {
        self.busy_flag() == 1
    }

    /// Whether the device reports power: bit 6 is 1. It is 0 while the device
    /// is unpowered or in power-on reset.
    #[verifier::when_used_as_spec(spec_is_powered)]
    pub fn is_powered(&self) -> (powered: bool)
        ensures
            powered == ((self@ / 64) % 2 == 1),
            powered == self.spec_is_powered(),
    {
        self.power_indication() == 1
    }

    /// Whether the memory integrity test passed: bit 2 is 0. The flag is
    /// inverted, a set bit reports a failure.
    #[verifier::when_used_as_spec(spec_integrity_test_passed)]
    pub fn integrity_test_passed(&self) -> (passed: bool)
        ensures
            passed == ((self@ / 4) % 2 == 0),
            passed == self.spec_integrity_test_passed(),
    {
        self.memory_integrity() == 0
    }

    /// Whether an internal calculation saturated: bit 0 is 1.
    #[verifier::when_used_as_spec(spec_math_saturation_occurred)]
    pub fn math_saturation_occurred(&self) -> (occurred: bool)
        ensures
            occurred == (self@ % 2 == 1),
            occurred == self.spec_math_saturation_occurred(),
    {
        self.math_saturation() == 1
    }

    /// A status is the byte it was made from and nothing else: two statuses
    /// with the same byte are equal, and making a status from the byte of
    /// another gives that one back.
    pub proof fn lemma_status_is_its_byte(a: Status, b: Status)
        ensures
            Status::from_bits(a@) == a,
            a@ == b@ ==> a == b,
            forall|bits: u8| #[trigger] Status::from_bits(bits)@ == bits,
    {
    }

    /// Each flag reads one bit of the byte: the busy flag bit 5, the power
    /// flag bit 6, the integrity flag the inverse of bit 2 and the
    /// saturation flag bit 0, whether the bit is picked by a shift or
    /// tested by a mask.
    pub proof fn lemma_flags_are_bits(status: Status)
        ensures
            status.is_busy() == ((status@ >> 5u8) & 1 == 1),
            status.is_powered() == ((status@ >> 6u8) & 1 == 1),
            status.integrity_test_passed() == ((status@ >> 2u8) & 1 == 0),
            status.math_saturation_occurred() == ((status@ >> 0u8) & 1 == 1),
            status.is_busy() == (status@ & 0b0010_0000 != 0),
            status.is_powered() == (status@ & 0b0100_0000 != 0),
            status.integrity_test_passed() == (status@ & 0b0000_0100 == 0),
            status.math_saturation_occurred() == (status@ & 0b0000_0001 != 0),
    {
        lemma_flag_bits(status@);
        let b: u8 = status@;
        assert((b >> 2u8) & 1 == 0 || (b >> 2u8) & 1 == 1) by (bit_vector);
    }

    /// The reserved bits 1, 3, 4 and 7 carry no flag: two statuses whose
    /// bytes differ in reserved bits only agree on all four flags.
    pub proof fn lemma_reserved_bits_carry_no_flag(a: Status, b: Status)
        requires
            (a@ ^ b@) & 0b0110_0101 == 0,
        ensures
            a.is_busy() == b.is_busy(),
            a.is_powered() == b.is_powered(),
            a.integrity_test_passed() == b.integrity_test_passed(),
            a.math_saturation_occurred() == b.math_saturation_occurred(),
    {
        let x: u8 = a@;
        let y: u8 = b@;
        assert((x ^ y) & 0b0110_0101 == 0 ==> (x / 32) % 2 == (y / 32) % 2) by (bit_vector);
        assert((x ^ y) & 0b0110_0101 == 0 ==> (x / 64) % 2 == (y / 64) % 2) by (bit_vector);
        assert((x ^ y) & 0b0110_0101 == 0 ==> (x / 4) % 2 == (y / 4) % 2) by (bit_vector);
        assert((x ^ y) & 0b0110_0101 == 0 ==> x % 2 == y % 2) by (bit_vector);
    }
}

/// A field of one bit is 0 or 1.
proof fn lemma_field_is_a_bit(byte: u8, index: u8)
    ensures
        (byte >> index) & 1 == 0 || (byte >> index) & 1 == 1,
{
    assert((byte >> index) & 1 == 0 || (byte >> index) & 1 == 1) by (bit_vector);
}

} // verus!
