use honeywell_mpr::typedefs::{
    Ratio, Reading, TransferFunction, FULL_SCALE_COUNTS, KPA_IN_PSI_DEN, KPA_IN_PSI_NUM,
    PSI_IN_BAR_DEN, PSI_IN_BAR_NUM,
};

fn value(ratio: Ratio) -> f64 {
    ratio.num as f64 / ratio.den as f64
}

#[test]
fn reading_bar_ok() {
    let reading = Reading::new(-1, 1, 14260634, TransferFunction::A);
    let bar = reading.bar();
    assert!((value(bar) - 0.0603).abs() < 0.00005);
    assert_eq!(bar, Ratio { num: 117_440_520 * 100_000, den: 134_217_728 * 1_450_377 });
}

#[test]
fn reading_kpa_ok() {
    let reading = Reading::new(-1, 1, 14260634, TransferFunction::A);
    let kpa = reading.kpa();
    assert!((value(kpa) - 6.0329).abs() < 0.00005);
    assert_eq!(kpa, Ratio { num: 117_440_520 * 6_894_757, den: 134_217_728 * 1_000_000 });
}

#[test]
fn reading_psi_ok() {
    let reading = Reading::new(-1, 1, 14260634, TransferFunction::A);
    let psi = reading.psi();
    assert!((value(psi) - 0.875).abs() < 0.000001);
    assert_eq!(psi, Ratio { num: 117_440_520, den: 134_217_728 });
}

#[test]
fn windows_are_the_percentages_of_full_scale() {
    assert_eq!(FULL_SCALE_COUNTS, 1 << 24);
    let full = FULL_SCALE_COUNTS as u64;
    // in tenths of a count: 10% and 90%, 2.5% and 22.5%, 20% and 80%
    assert_eq!(TransferFunction::A.min_counts() as u64 * 1000, full * 10 * 100);
    assert_eq!(TransferFunction::A.max_counts() as u64 * 1000, full * 10 * 900);
    assert_eq!(TransferFunction::B.min_counts() as u64 * 1000, full * 10 * 25);
    assert_eq!(TransferFunction::B.max_counts() as u64 * 1000, full * 10 * 225);
    assert_eq!(TransferFunction::C.min_counts() as u64 * 1000, full * 10 * 200);
    assert_eq!(TransferFunction::C.max_counts() as u64 * 1000, full * 10 * 800);
}

#[test]
fn windows_in_tenths_of_a_count() {
    assert_eq!(TransferFunction::A.min_counts(), 16_777_216);
    assert_eq!(TransferFunction::A.max_counts(), 150_994_944);
    assert_eq!(TransferFunction::B.min_counts(), 4_194_304);
    assert_eq!(TransferFunction::B.max_counts(), 37_748_736);
    assert_eq!(TransferFunction::C.min_counts(), 33_554_432);
    assert_eq!(TransferFunction::C.max_counts(), 134_217_728);
    // the same ends in counts, as they are usually written
    assert!((TransferFunction::A.min_counts() as f64 / 10.0 - 1677721.6).abs() < 1e-6);
    assert!((TransferFunction::A.max_counts() as f64 / 10.0 - 15099494.4).abs() < 1e-6);
    assert!((TransferFunction::B.min_counts() as f64 / 10.0 - 419430.4).abs() < 1e-6);
    assert!((TransferFunction::B.max_counts() as f64 / 10.0 - 3774873.6).abs() < 1e-6);
    assert!((TransferFunction::C.min_counts() as f64 / 10.0 - 3355443.2).abs() < 1e-6);
    assert!((TransferFunction::C.max_counts() as f64 / 10.0 - 13421772.8).abs() < 1e-6);
}

#[test]
fn unit_factors() {
    assert_eq!((PSI_IN_BAR_NUM, PSI_IN_BAR_DEN), (1_450_377, 100_000));
    assert_eq!((KPA_IN_PSI_NUM, KPA_IN_PSI_DEN), (6_894_757, 1_000_000));
    assert!((PSI_IN_BAR_NUM as f64 / PSI_IN_BAR_DEN as f64 - 14.50377).abs() < 1e-12);
    assert!((KPA_IN_PSI_NUM as f64 / KPA_IN_PSI_DEN as f64 - 6.894757).abs() < 1e-12);
}

#[test]
fn new_keeps_its_four_parts() {
    let reading = Reading::new(-3, 7, 0x00ab_cdef, TransferFunction::B);
    assert_eq!(reading.range_min, -3);
    assert_eq!(reading.range_max, 7);
    assert_eq!(reading.raw_data, 0x00ab_cdef);
    assert_eq!(reading.transfer_function, TransferFunction::B);
}

#[test]
fn psi_is_the_line_through_the_ends_of_the_window() {
    // curve C, 0 to 25 psi, half way up the window: 50% of full scale
    let reading = Reading::new(0, 25, 8_388_608, TransferFunction::C);
    let psi = reading.psi();
    assert_eq!(psi.den, 134_217_728 - 33_554_432);
    assert_eq!(psi.num, (83_886_080 - 33_554_432) * 25);
    assert_eq!(psi.num * 2, psi.den * 25);
    assert!((value(psi) - 12.5).abs() < 1e-12);

    // curve B, 1 to 15 psi
    let reading = Reading::new(1, 15, 1_000_000, TransferFunction::B);
    let psi = reading.psi();
    assert_eq!(psi.den, 37_748_736 - 4_194_304);
    assert_eq!(psi.num, (10_000_000 - 4_194_304) * 14 + 33_554_432);
    let expected = (1_000_000.0 - 419430.4) * 14.0 / (3774873.6 - 419430.4) + 1.0;
    assert!((value(psi) - expected).abs() < 1e-9);
}

#[test]
fn bar_and_kpa_follow_psi() {
    let reading = Reading::new(0, 25, 8_388_608, TransferFunction::C);
    let psi = reading.psi();
    let bar = reading.bar();
    let kpa = reading.kpa();
    assert_eq!(bar, Ratio { num: psi.num * 100_000, den: psi.den * 1_450_377 });
    assert_eq!(kpa, Ratio { num: psi.num * 6_894_757, den: psi.den * 1_000_000 });
    assert!((value(bar) - 12.5 / 14.50377).abs() < 1e-12);
    assert!((value(kpa) - 12.5 * 6.894757).abs() < 1e-12);
}

#[test]
fn conversions_repeat() {
    let reading = Reading::new(-1, 1, 14260634, TransferFunction::A);
    assert_eq!(reading.psi(), reading.psi());
    assert_eq!(reading.bar(), reading.bar());
    assert_eq!(reading.kpa(), reading.kpa());
    let same = Reading::new(-1, 1, 14260634, TransferFunction::A);
    assert_eq!(reading.psi(), same.psi());
    assert_eq!(reading.bar(), same.bar());
    assert_eq!(reading.kpa(), same.kpa());
}

#[test]
fn counts_outside_the_window_are_not_clamped() {
    let below = Reading::new(0, 25, 0, TransferFunction::A);
    assert!(value(below.psi()) < 0.0);
    assert_eq!(below.psi(), Ratio { num: -16_777_216 * 25, den: 134_217_728 });
    assert!((value(below.psi()) + 3.125).abs() < 1e-12);

    let above = Reading::new(0, 25, 0x00ff_ffff, TransferFunction::A);
    assert!(value(above.psi()) > 25.0);

    // a count that no 24 bit converter gives is still converted
    let far = Reading::new(0, 25, u32::MAX, TransferFunction::B);
    assert_eq!(far.psi().num, (42_949_672_950 - 4_194_304) * 25);
    assert!(value(far.psi()) > 25.0);
}

#[test]
fn degenerate_and_reversed_ranges_are_taken() {
    let flat = Reading::new(5, 5, 9_000_000, TransferFunction::A);
    assert_eq!(flat.psi().num, 5 * flat.psi().den);
    let reversed = Reading::new(25, 0, 1_677_722, TransferFunction::A);
    assert!(value(reversed.psi()) < 25.0);
    assert!(value(reversed.psi()) > 24.9);
}

#[test]
fn widest_reading_does_not_overflow() {
    let reading = Reading::new(i32::MIN, i32::MAX, u32::MAX, TransferFunction::B);
    let psi = reading.psi();
    let above_min: i128 = 10 * (u32::MAX as i128) - 4_194_304;
    let span: i128 = i32::MAX as i128 - i32::MIN as i128;
    assert_eq!(psi.den, 33_554_432);
    assert_eq!(psi.num, above_min * span + (i32::MIN as i128) * 33_554_432);
    assert_eq!(reading.bar().num, psi.num * 100_000);
    assert_eq!(reading.kpa().num, psi.num * 6_894_757);

    let reading = Reading::new(i32::MAX, i32::MIN, u32::MAX, TransferFunction::B);
    let psi = reading.psi();
    assert_eq!(psi.num, -above_min * span + (i32::MAX as i128) * 33_554_432);
    assert_eq!(reading.kpa().num, psi.num * 6_894_757);
}
