//! Calibration curves and readings.
//!
//! A reading turns into a pressure by a straight line through two points: at
//! the lower end of the curve's window of counts the pressure is the lower
//! bound of the device's range, at the upper end it is the upper bound. All
//! of it is exact arithmetic on integers: counts are held in tenths, where
//! the ends of every window are whole numbers, and a pressure is a quotient
//! of two integers.

use vstd::prelude::*;

verus! {

/// Number of counts in the full scale of the converter, 2 to the power 24.
pub const FULL_SCALE_COUNTS: u32 = 0x100_0000;

/// Numerator of the number of psi in one bar, 14.50377.
pub const PSI_IN_BAR_NUM: i128 = 1_450_377;

/// Denominator of the number of psi in one bar.
pub const PSI_IN_BAR_DEN: i128 = 100_000;

/// Numerator of the number of kPa in one psi, 6.894757.
pub const KPA_IN_PSI_NUM: i128 = 6_894_757;

/// Denominator of the number of kPa in one psi.
pub const KPA_IN_PSI_DEN: i128 = 1_000_000;

/// A quotient of two integers, `num / den`. Those that the conversions give
/// have `den` above zero; they are not in lowest terms.
#[derive(Clone, Copy, Debug, PartialEq, Eq)]
pub struct Ratio {
    /// The number above the line.
    pub num: i128,
    /// The number below the line.
    pub den: i128,
}

/// One of the three calibration curves of the sensor family.
#[derive(Clone, Copy, Debug, PartialEq, Eq)]
pub enum TransferFunction {
    /// 10% to 90% of 2**24 counts
    A,
    /// 2.5% to 22.5% of 2**24 counts
    B,
    /// 20% to 80% of 2**24 counts
    C,
}

impl TransferFunction {
    /// Lower end of the window, in thousandths of the full scale.
    pub open spec fn min_permille(self) -> int {
        match self {
            TransferFunction::A => 100,
            TransferFunction::B => 25,
            TransferFunction::C => 200,
        }
    }

    /// Upper end of the window, in thousandths of the full scale.
    pub open spec fn max_permille(self) -> int {
        match self {
            TransferFunction::A => 900,
            TransferFunction::B => 225,
            TransferFunction::C => 800,
        }
    }

    /// Lower end of the window, in tenths of a count.
    pub open spec fn spec_min_counts(self) -> int {
        match self {
            TransferFunction::A => 16_777_216,
            TransferFunction::B => 4_194_304,
            TransferFunction::C => 33_554_432,
        }
    }

    /// Upper end of the window, in tenths of a count.
    pub open spec fn spec_max_counts(self) -> int {
        match self {
            TransferFunction::A => 150_994_944,
            TransferFunction::B => 37_748_736,
            TransferFunction::C => 134_217_728,
        }
    }

    /// The count at which the output is the lower bound of the range, in
    /// tenths of a count: the curve's lower percentage of 2**24.
    pub fn min_counts(&self) -> (tenths: u32)
        ensures
            tenths == self.spec_min_counts(),
            tenths * 100 == FULL_SCALE_COUNTS * self.min_permille(),
    {
        match self {
            // precomputed percentages
            TransferFunction::A => 16_777_216,
            TransferFunction::B => 4_194_304,
            TransferFunction::C => 33_554_432,
        }
    }

    /// The count at which the output is the upper bound of the range, in
    /// tenths of a count: the curve's upper percentage of 2**24.
    pub fn max_counts(&self) -> (tenths: u32)
        ensures
            tenths == self.spec_max_counts(),
            tenths * 100 == FULL_SCALE_COUNTS * self.max_permille(),
    {
        match self {
            // precomputed percentages
            TransferFunction::A => 150_994_944,
            TransferFunction::B => 37_748_736,
            TransferFunction::C => 134_217_728,
        }
    }

    /// Every window lies inside the full scale, with its lower end below its
    /// upper end: the line through its two ends has a slope.
    pub proof fn lemma_window_is_proper(self)
        ensures
            0 < self.min_permille() < self.max_permille() < 1000,
            0 < self.spec_min_counts() < self.spec_max_counts() < 10 * FULL_SCALE_COUNTS,
            self.spec_min_counts() * 100 == FULL_SCALE_COUNTS * self.min_permille(),
            self.spec_max_counts() * 100 == FULL_SCALE_COUNTS * self.max_permille(),
    {
    }
}

/// Wraps raw measurement data for easy unit conversions.
#[derive(Clone, Copy, Debug, PartialEq, Eq)]
pub struct Reading {
    /// Lower bound of the device's pressure range, in psi.
    pub range_min: i32,
    /// Upper bound of the device's pressure range, in psi.
    pub range_max: i32,
    /// The count as the sensor sent it.
    pub raw_data: u32,
    /// The calibration curve of the device.
    pub transfer_function: TransferFunction,
}

impl Reading {
    /// Denominator of the pressure in psi: the width of the window, in
    /// tenths of a count.
    pub open spec fn psi_den(&self) -> int {
        self.transfer_function.spec_max_counts() - self.transfer_function.spec_min_counts()
    }

    /// Numerator of the pressure in psi over `psi_den`. With `raw`, `min` and
    /// `max` in counts the pressure is
    /// `(raw - min) * (range_max - range_min) / (max - min) + range_min`;
    /// here `raw`, `min` and `max` are all taken ten times, which changes
    /// nothing, and the sum is brought over the one denominator.
    pub open spec fn psi_num(&self) -> int {
        (10 * self.raw_data - self.transfer_function.spec_min_counts()) * (self.range_max
            - self.range_min) + self.range_min * self.psi_den()
    }

    /// The pressure in psi.
    pub open spec fn spec_psi(&self) -> Ratio {
        Ratio { num: self.psi_num() as i128, den: self.psi_den() as i128 }
    }

    /// The pressure in bar: that in psi divided by 14.50377.
    pub open spec fn spec_bar(&self) -> Ratio {
        Ratio {
            num: (self.psi_num() * PSI_IN_BAR_DEN) as i128,
            den: (self.psi_den() * PSI_IN_BAR_NUM) as i128,
        }
    }

    /// The pressure in kPa: that in psi times 6.894757.
    pub open spec fn spec_kpa(&self) -> Ratio {
        Ratio {
            num: (self.psi_num() * KPA_IN_PSI_NUM) as i128,
            den: (self.psi_den() * KPA_IN_PSI_DEN) as i128,
        }
    }

    /// Puts a raw count together with the range and the curve of the device
    /// it came from. Nothing is checked: any count and any bounds are taken.
    pub fn new(
        range_min: i32,
        range_max: i32,
        raw_data: u32,
        transfer_function: TransferFunction,
    ) -> (reading: Reading)
        ensures
            reading == (Reading { range_min, range_max, raw_data, transfer_function }),
    {
        Self { range_min, range_max, raw_data, transfer_function }
    }

    /// Converts raw measurement data to bar.
    pub fn bar(&self) -> (bar: Ratio)
        ensures
            bar == self.spec_bar(),
            bar.num == self.psi_num() * 100_000,
            bar.den == self.psi_den() * 1_450_377,
            bar.den > 0,
    {
        proof {
            self.lemma_psi_is_bounded();
        }
        let psi: Ratio = self.psi();
        Ratio { num: psi.num * PSI_IN_BAR_DEN, den: psi.den * PSI_IN_BAR_NUM }
    }

    /// Converts raw measurement data to kPa.
    pub fn kpa(&self) -> (kpa: Ratio)
        ensures
            kpa == self.spec_kpa(),
            kpa.num == self.psi_num() * 6_894_757,
            kpa.den == self.psi_den() * 1_000_000,
            kpa.den > 0,
    {
        proof {
            self.lemma_psi_is_bounded();
        }
        let psi: Ratio = self.psi();
        Ratio { num: psi.num * KPA_IN_PSI_NUM, den: psi.den * KPA_IN_PSI_DEN }
    }

    /// Converts raw measurement data to PSI.
    ///
    /// The result is exact and depends on the four parts of the reading
    /// alone. Nothing is clamped: a count outside the window gives a pressure
    /// outside the range.
    pub fn psi(&self) -> (psi: Ratio)
        ensures
            psi == self.spec_psi(),
            psi.num == self.psi_num(),
            psi.den == self.psi_den(),
            psi.den > 0,
    {
        proof {
            self.lemma_psi_is_bounded();
        }
        let min: i128 = self.transfer_function.min_counts() as i128;
        let max: i128 = self.transfer_function.max_counts() as i128;
        let above_min: i128 = 10 * (self.raw_data as i128) - min;
        let span: i128 = self.range_max as i128 - self.range_min as i128;
        let low: i128 = self.range_min as i128;
        Ratio { num: above_min * span + low * (max - min), den: max - min }
    }

    /// The two parts of a pressure in psi, and each of the products from
    /// which the numerator is made, are far inside 128 bits.
    pub proof fn lemma_psi_is_bounded(&self)
        ensures
            0 < self.psi_den() < 0x1000_0000,
            -0x1_0000_0000_0000_0000_0000 < self.psi_num() < 0x1_0000_0000_0000_0000_0000,
            -0x8000_0000_0000_0000_0000 < (10 * self.raw_data
                - self.transfer_function.spec_min_counts()) * (self.range_max - self.range_min)
                < 0x8000_0000_0000_0000_0000,
            -0x1_0000_0000_0000_0000 < self.range_min * self.psi_den() < 0x1_0000_0000_0000_0000,
    {
        let above_min: int = 10 * self.raw_data - self.transfer_function.spec_min_counts();
        let span: int = self.range_max - self.range_min;
        let low: int = self.range_min as int;
        let den: int = self.psi_den();
        assert(-0x8000_0000_0000_0000_0000 < above_min * span < 0x8000_0000_0000_0000_0000)
            by (nonlinear_arith)
            requires
                -0x1000_0000 < above_min < 0x10_0000_0000,
                -0x1_0000_0000 < span < 0x1_0000_0000,
        ;
        assert(-0x1_0000_0000_0000_0000 < low * den < 0x1_0000_0000_0000_0000)
            by (nonlinear_arith)
            requires
                -0x1_0000_0000 < low < 0x1_0000_0000,
                0 < den < 0x1000_0000,
        ;
    }

    /// A conversion depends on the four parts of the reading and on nothing
    /// else: asked again it gives the same, and readings with the same parts
    /// give the same pressure in every unit.
    pub proof fn lemma_conversions_repeat(first: Reading, second: Reading)
        requires
            first.range_min == second.range_min,
            first.range_max == second.range_max,
            first.raw_data == second.raw_data,
            first.transfer_function == second.transfer_function,
        ensures
            first.spec_psi() == second.spec_psi(),
            first.spec_bar() == second.spec_bar(),
            first.spec_kpa() == second.spec_kpa(),
    {
    }

    /// The line goes through the two ends of the window and rises between
    /// them: where the lower bound of the range is not above the upper one
    /// and the count is inside the window, the pressure is inside the range.
    /// Below the window it is not above the lower bound, and above the window
    /// it is not below the upper bound.
    pub proof fn lemma_psi_follows_the_window(&self)
        requires
            self.range_min <= self.range_max,
        ensures
            10 * self.raw_data <= self.transfer_function.spec_min_counts() ==> self.psi_num()
                <= self.range_min * self.psi_den(),
            10 * self.raw_data >= self.transfer_function.spec_min_counts() ==> self.psi_num()
                >= self.range_min * self.psi_den(),
            10 * self.raw_data <= self.transfer_function.spec_max_counts() ==> self.psi_num()
                <= self.range_max * self.psi_den(),
            10 * self.raw_data >= self.transfer_function.spec_max_counts() ==> self.psi_num()
                >= self.range_max * self.psi_den(),
    {
        let above_min: int = 10 * self.raw_data - self.transfer_function.spec_min_counts();
        let span: int = self.range_max - self.range_min;
        let den: int = self.psi_den();
        assert(above_min <= 0 ==> above_min * span <= 0) by (nonlinear_arith)
            requires
                span >= 0,
        ;
        assert(above_min >= 0 ==> above_min * span >= 0) by (nonlinear_arith)
            requires
                span >= 0,
        ;
        assert(above_min <= den ==> above_min * span <= den * span) by (nonlinear_arith)
            requires
                span >= 0,
        ;
        assert(above_min >= den ==> above_min * span >= den * span) by (nonlinear_arith)
            requires
                span >= 0,
        ;
        assert(self.range_max * den == self.range_min * den + den * span) by (nonlinear_arith)
            requires
                span == self.range_max - self.range_min,
        ;
    }
}

} // verus!
