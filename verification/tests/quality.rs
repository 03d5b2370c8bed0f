use lvdt::iq::{
    channel_quality, demodulate_block, pack_dual_adc, ChannelQuality, ChannelStats, Iq,
    REFERENCE_MAGNITUDE_I64,
};
use lvdt::lut::{ADC_MID_SCALE, DAC_SINE_LUT, LUT_LEN, SINE_LUT_I16};

fn quiet_stats() -> ChannelStats {
    ChannelStats { abs_sum: 0, sq_sum: 0, sat_count: 0 }
}

#[test]
fn full_swing_loopback_is_clipping() {
    let mut block = [0_u32; LUT_LEN];
    for (k, sample) in block.iter_mut().enumerate() {
        *sample = pack_dual_adc(DAC_SINE_LUT[k], DAC_SINE_LUT[k]);
    }
    let demod = demodulate_block(&block, 0);
    let q = channel_quality(demod.a, demod.stats_a);
    assert!(q.clipping);
    assert!(!q.low_signal);
    assert_eq!(q.symbol(), 'S');
}

#[test]
fn clean_ninety_percent_sine_is_ok() {
    let mut block = [0_u32; LUT_LEN];
    for (k, sample) in block.iter_mut().enumerate() {
        let centred = (SINE_LUT_I16[k] as i32 * 9 / 10 + ADC_MID_SCALE) as u16;
        *sample = pack_dual_adc(centred, centred);
    }
    let demod = demodulate_block(&block, 0);
    let q = channel_quality(demod.b, demod.stats_b);
    assert_eq!(q, ChannelQuality { clipping: false, low_signal: false, distorted: false });
    assert_eq!(q.symbol(), '.');
}

#[test]
fn square_wave_is_distorted() {
    let mut block = [0_u32; LUT_LEN];
    let amp: i32 = 1638;
    for (k, sample) in block.iter_mut().enumerate() {
        let sign: i32 = if SINE_LUT_I16[k] >= 0 { 1 } else { -1 };
        let centred = (amp * sign + ADC_MID_SCALE) as u16;
        *sample = pack_dual_adc(centred, centred);
    }
    let demod = demodulate_block(&block, 0);
    assert_eq!(demod.stats_a.sat_count, 0);
    let q = channel_quality(demod.a, demod.stats_a);
    assert!(q.distorted);
    assert!(!q.low_signal);
    assert_eq!(q.symbol(), 'H');
}

#[test]
fn low_signal_threshold_is_one_percent_of_reference_squared() {
    // 100 * i^2 < REF^2  <=>  10 * i < REF
    let below = REFERENCE_MAGNITUDE_I64 as i32 / 10;
    let q = channel_quality(Iq { i: below, q: 0 }, quiet_stats());
    assert!(q.low_signal);
    assert_eq!(q.symbol(), 'L');
    let q = channel_quality(Iq { i: below + 1, q: 0 }, quiet_stats());
    assert!(!q.low_signal);
    assert_eq!(q.symbol(), '.');
}

#[test]
fn extreme_iq_values_do_not_overflow() {
    let q = channel_quality(Iq { i: i32::MIN, q: i32::MIN }, quiet_stats());
    assert!(!q.low_signal);
}

#[test]
fn symbol_priority_is_clip_low_harmonic_ok() {
    let all = ChannelQuality { clipping: true, low_signal: true, distorted: true };
    assert_eq!(all.symbol(), 'S');
    let low = ChannelQuality { clipping: false, low_signal: true, distorted: true };
    assert_eq!(low.symbol(), 'L');
    let harm = ChannelQuality { clipping: false, low_signal: false, distorted: true };
    assert_eq!(harm.symbol(), 'H');
    let ok = ChannelQuality { clipping: false, low_signal: false, distorted: false };
    assert_eq!(ok.symbol(), '.');
}
