use lvdt::iq::{
    demodulate_block, pack_dual_adc, unpack_dual_adc, Accumulator, Iq, REFERENCE_MAGNITUDE_I64,
};
use lvdt::lut::{DAC_SINE_LUT, LUT_LEN, SINE_LUT_I16};

/// Magnitude as a percentage of the full-loopback reference.
fn mag_pct(iq: Iq) -> f32 {
    let i = iq.i as f32;
    let q = iq.q as f32;
    (i * i + q * q).sqrt() * (100.0 / REFERENCE_MAGNITUDE_I64 as f32)
}

fn loopback_block() -> [u32; LUT_LEN] {
    let mut block = [0_u32; LUT_LEN];
    for (k, sample) in block.iter_mut().enumerate() {
        *sample = pack_dual_adc(DAC_SINE_LUT[k], DAC_SINE_LUT[k]);
    }
    block
}

#[test]
fn unpack_dual_adc_subtracts_midscale() {
    assert_eq!(unpack_dual_adc(pack_dual_adc(2048, 2048)), (0, 0));
    assert_eq!(unpack_dual_adc(pack_dual_adc(4095, 1)), (2047, -2047));
}

#[test]
fn demodulates_in_phase_sine_into_i_axis() {
    let block = loopback_block();

    let iq = demodulate_block(&block, 7);
    let expected_i: i32 = SINE_LUT_I16
        .iter()
        .map(|sample| *sample as i32 * *sample as i32)
        .sum();

    assert_eq!(iq.sequence, 7);
    assert_eq!(iq.a.i, expected_i);
    assert!(iq.a.q.abs() < 10_000);
    assert!((iq.b.i - expected_i).abs() < 50_000);
    assert!(iq.b.q.abs() < 10_000);
}

#[test]
fn reference_constant_matches_lut_sum_of_squares() {
    let expected: i64 = SINE_LUT_I16.iter().map(|s| (*s as i64).pow(2)).sum();
    assert_eq!(REFERENCE_MAGNITUDE_I64, expected);
    assert_eq!(REFERENCE_MAGNITUDE_I64, 268_162_574);
}

#[test]
fn accumulator_average_matches_single_block() {
    let block = loopback_block();
    let single = demodulate_block(&block, 0);

    let mut acc = Accumulator::new();
    for _ in 0..64 {
        acc.push(&single);
    }
    assert_eq!(acc.count(), 64);

    let avg = acc.drain_average(7);
    assert_eq!(acc.count(), 0);
    assert_eq!(avg.sequence, 7);
    assert!((avg.a.i - single.a.i).abs() <= 1);
    assert!((avg.a.q - single.a.q).abs() <= 1);
    assert!((avg.b.i - single.b.i).abs() <= 1);
    assert!((avg.b.q - single.b.q).abs() <= 1);
    let pct = mag_pct(avg.a);
    assert!((pct - 100.0).abs() < 0.05, "mag_pct={}", pct);
}

#[test]
fn loopback_reaches_reference_on_both_channels() {
    let demod = demodulate_block(&loopback_block(), 0);
    assert_eq!(demod.a.i as i64, REFERENCE_MAGNITUDE_I64);
    assert_eq!(demod.b.i as i64, REFERENCE_MAGNITUDE_I64);
    assert_eq!(demod.stats_a.sq_sum, REFERENCE_MAGNITUDE_I64);
    let abs: i64 = SINE_LUT_I16.iter().map(|s| (*s as i64).abs()).sum();
    assert_eq!(demod.stats_b.abs_sum, abs);
    // 4093, 4095, 4093 near the top rail and 1 near the bottom one.
    assert_eq!(demod.stats_a.sat_count, 4);
    assert_eq!(demod.stats_b.sat_count, 4);
}

#[test]
fn pack_puts_adc2_in_high_half_word() {
    assert_eq!(pack_dual_adc(1, 2), 0x0002_0001);
    assert_eq!(pack_dual_adc(0x0fff, 0x0abc), 0x0abc_0fff);
}

#[test]
fn unpack_keeps_twelve_bits_of_each_half() {
    assert_eq!(unpack_dual_adc(pack_dual_adc(0xffff, 0x1fff)), (2047, 2047));
    assert_eq!(unpack_dual_adc(0xf000_f000), (-2048, -2048));
    for x in [0u16, 1, 2047, 2048, 4094, 4095] {
        assert_eq!(unpack_dual_adc(pack_dual_adc(x, 4095 - x)), (x as i32 - 2048, 2047 - x as i32));
    }
}

#[test]
fn accumulator_drains_empty_as_zero() {
    let mut acc = Accumulator::new();
    let out = acc.drain_average(5);
    assert_eq!(out.sequence, 5);
    assert_eq!(out.a, Iq { i: 0, q: 0 });
    assert_eq!(out.b, Iq { i: 0, q: 0 });
    assert_eq!(out.stats_a.sat_count, 0);
    assert_eq!(acc.count(), 0);
}

#[test]
fn accumulator_keeps_rail_hits_as_total() {
    let clipped = demodulate_block(&loopback_block(), 0);
    let mut quiet_block = [0_u32; LUT_LEN];
    for sample in quiet_block.iter_mut() {
        *sample = pack_dual_adc(2048, 2048);
    }
    let quiet = demodulate_block(&quiet_block, 0);
    let mut acc = Accumulator::new();
    acc.push(&clipped);
    for _ in 0..63 {
        acc.push(&quiet);
    }
    let avg = acc.drain_average(1);
    assert_eq!(avg.stats_a.sat_count, 4);
    assert_eq!(avg.stats_b.sat_count, 4);
    assert_eq!(avg.stats_a.sq_sum, REFERENCE_MAGNITUDE_I64 / 64);
    assert_eq!(avg.a.i as i64, REFERENCE_MAGNITUDE_I64 / 64);
}

#[test]
fn accumulator_average_rounds_toward_zero() {
    let mut acc = Accumulator::new();
    let mut s = demodulate_block(&[pack_dual_adc(2048, 2048); LUT_LEN], 0);
    s.a = Iq { i: -3, q: 3 };
    acc.push(&s);
    s.a = Iq { i: 0, q: 0 };
    acc.push(&s);
    assert_eq!(acc.count(), 2);
    let avg = acc.drain_average(0);
    assert_eq!(avg.a, Iq { i: -1, q: 1 });
}

#[test]
fn in_phase_loopback_has_zero_quadrature() {
    let demod = demodulate_block(&loopback_block(), 0);
    assert_eq!(demod.a.q, 0);
    assert_eq!(demod.b.q, 0);
}

#[test]
fn quarter_period_loopback_is_pure_quadrature() {
    let mut block = [0_u32; LUT_LEN];
    for k in 0..LUT_LEN {
        let shifted = (k + LUT_LEN / 4) & (LUT_LEN - 1);
        block[k] = pack_dual_adc(DAC_SINE_LUT[shifted], DAC_SINE_LUT[shifted]);
    }
    let demod = demodulate_block(&block, 0);
    assert_eq!(demod.a, Iq { i: 0, q: REFERENCE_MAGNITUDE_I64 as i32 });
    assert_eq!(demod.b, Iq { i: 0, q: REFERENCE_MAGNITUDE_I64 as i32 });
}
