use lvdt::agc::{decide, tick, Agc, AgcAction, GainControl};
use lvdt::iq::{
    demodulate_block, pack_dual_adc, ChannelStats, DemodulatedSample, Iq, REFERENCE_MAGNITUDE_I64,
};
use lvdt::lut::{ADC_MID_SCALE, DAC_SINE_LUT, LUT_LEN, SINE_LUT_I16};
use lvdt::pga::PgaGain;

#[derive(Debug)]
struct MockPga {
    a: PgaGain,
    b: PgaGain,
}

impl MockPga {
    fn new(a: PgaGain, b: PgaGain) -> Self {
        Self { a, b }
    }
}

impl GainControl for MockPga {
    fn current_gain_a(&self) -> PgaGain {
        self.a
    }

    fn current_gain_b(&self) -> PgaGain {
        self.b
    }

    fn gain_a(&self) -> PgaGain {
        self.a
    }

    fn gain_b(&self) -> PgaGain {
        self.b
    }

    fn set_gain_a(&mut self, gain: PgaGain) {
        self.a = gain;
    }

    fn set_gain_b(&mut self, gain: PgaGain) {
        self.b = gain;
    }
}

fn demod_for_amplitude(num: i32, den: i32) -> DemodulatedSample {
    let mut block = [0_u32; LUT_LEN];
    for (k, sample) in block.iter_mut().enumerate() {
        let centered = (SINE_LUT_I16[k] as i32 * num / den + ADC_MID_SCALE) as u16;
        *sample = pack_dual_adc(centered, centered);
    }
    demodulate_block(&block, 0)
}

fn mixed_sample(a: DemodulatedSample, b: DemodulatedSample) -> DemodulatedSample {
    DemodulatedSample {
        a: a.a,
        b: b.b,
        stats_a: a.stats_a,
        stats_b: b.stats_b,
        sequence: 0,
    }
}

#[test]
fn clipped_signal_steps_down() {
    let mut block = [0_u32; LUT_LEN];
    for (k, sample) in block.iter_mut().enumerate() {
        *sample = pack_dual_adc(DAC_SINE_LUT[k], DAC_SINE_LUT[k]);
    }
    let demod = demodulate_block(&block, 0);
    assert_eq!(decide(demod.a, demod.stats_a), AgcAction::StepDown);
}

#[test]
fn weak_signal_steps_up() {
    let mut block = [0_u32; LUT_LEN];
    for (k, sample) in block.iter_mut().enumerate() {
        let centered = (SINE_LUT_I16[k] as i32 / 10 + ADC_MID_SCALE) as u16;
        *sample = pack_dual_adc(centered, centered);
    }
    let demod = demodulate_block(&block, 0);
    assert_eq!(decide(demod.a, demod.stats_a), AgcAction::StepUp);
}

#[test]
fn medium_signal_holds() {
    let mut block = [0_u32; LUT_LEN];
    for (k, sample) in block.iter_mut().enumerate() {
        let centered = (SINE_LUT_I16[k] as i32 / 2 + ADC_MID_SCALE) as u16;
        *sample = pack_dual_adc(centered, centered);
    }
    let demod = demodulate_block(&block, 0);
    assert_eq!(decide(demod.a, demod.stats_a), AgcAction::Hold);
}

#[test]
fn hot_signal_steps_down() {
    let mut block = [0_u32; LUT_LEN];
    for (k, sample) in block.iter_mut().enumerate() {
        let centered = (SINE_LUT_I16[k] as i32 * 4 / 5 + ADC_MID_SCALE) as u16;
        *sample = pack_dual_adc(centered, centered);
    }
    let demod = demodulate_block(&block, 0);
    assert!(demod.stats_a.sat_count == 0, "shouldn't clip at 80%");
    assert_eq!(decide(demod.a, demod.stats_a), AgcAction::StepDown);
}

#[test]
fn tick_steps_both_channels_up_when_both_are_weak() {
    let sample = demod_for_amplitude(1, 10);
    let mut agc = Agc::new();
    let mut pga = MockPga::new(PgaGain::X2, PgaGain::X2);

    assert_eq!(tick(&mut agc, &sample, &mut pga), (true, true));
    assert_eq!((pga.gain_a(), pga.gain_b()), (PgaGain::X4, PgaGain::X4));

    assert_eq!(tick(&mut agc, &sample, &mut pga), (false, false));
    assert_eq!((pga.gain_a(), pga.gain_b()), (PgaGain::X4, PgaGain::X4));
}

#[test]
fn tick_holds_common_gain_when_only_one_channel_is_weak() {
    let weak = demod_for_amplitude(1, 10);
    let medium = demod_for_amplitude(1, 2);
    let sample = mixed_sample(weak, medium);
    let mut agc = Agc::new();
    let mut pga = MockPga::new(PgaGain::X8, PgaGain::X8);

    assert_eq!(tick(&mut agc, &sample, &mut pga), (false, false));
    assert_eq!((pga.gain_a(), pga.gain_b()), (PgaGain::X8, PgaGain::X8));
}

#[test]
fn tick_steps_both_channels_down_if_either_channel_is_hot() {
    let hot = demod_for_amplitude(4, 5);
    let weak = demod_for_amplitude(1, 10);
    let sample = mixed_sample(hot, weak);
    let mut agc = Agc::new();
    let mut pga = MockPga::new(PgaGain::X8, PgaGain::X8);

    assert_eq!(tick(&mut agc, &sample, &mut pga), (true, true));
    assert_eq!((pga.gain_a(), pga.gain_b()), (PgaGain::X4, PgaGain::X4));
}

#[test]
fn tick_heals_mismatched_gains_to_lower_common_step() {
    let sample = demod_for_amplitude(1, 2);
    let mut agc = Agc::new();
    let mut pga = MockPga::new(PgaGain::X4, PgaGain::X16);

    assert_eq!(tick(&mut agc, &sample, &mut pga), (false, true));
    assert_eq!((pga.gain_a(), pga.gain_b()), (PgaGain::X4, PgaGain::X4));
}

#[test]
fn lockout_skips_exactly_one_window() {
    let sample = demod_for_amplitude(1, 10);
    let mut agc = Agc::new();
    let mut pga = MockPga::new(PgaGain::X2, PgaGain::X2);

    assert_eq!(tick(&mut agc, &sample, &mut pga), (true, true));
    assert_eq!(tick(&mut agc, &sample, &mut pga), (false, false));
    assert_eq!(tick(&mut agc, &sample, &mut pga), (true, true));
    assert_eq!((pga.gain_a(), pga.gain_b()), (PgaGain::X8, PgaGain::X8));
}

#[test]
fn weak_pair_at_top_step_stays_and_does_not_lock() {
    let sample = demod_for_amplitude(1, 10);
    let mut agc = Agc::default();
    let mut pga = MockPga::new(PgaGain::X64, PgaGain::X64);

    assert_eq!(tick(&mut agc, &sample, &mut pga), (false, false));
    assert_eq!(tick(&mut agc, &sample, &mut pga), (false, false));
    assert_eq!((pga.gain_a(), pga.gain_b()), (PgaGain::X64, PgaGain::X64));
    // No lockout was started, so a hot sample acts at once.
    let hot = demod_for_amplitude(4, 5);
    assert_eq!(tick(&mut agc, &hot, &mut pga), (true, true));
    assert_eq!((pga.gain_a(), pga.gain_b()), (PgaGain::X32, PgaGain::X32));
}

#[test]
fn decide_window_edges_are_quarter_and_three_quarters() {
    let quiet = ChannelStats { abs_sum: 0, sq_sum: 0, sat_count: 0 };
    let r = REFERENCE_MAGNITUDE_I64;
    // 16 * i^2 < r^2  <=>  4 * i < r
    let quarter = (r / 4) as i32;
    assert_eq!(decide(Iq { i: quarter, q: 0 }, quiet), AgcAction::StepUp);
    assert_eq!(decide(Iq { i: quarter + 1, q: 0 }, quiet), AgcAction::Hold);
    // 16 * i^2 > 9 * r^2  <=>  4 * i > 3 * r
    let three_quarters = (3 * r / 4) as i32;
    assert_eq!(decide(Iq { i: three_quarters, q: 0 }, quiet), AgcAction::Hold);
    assert_eq!(decide(Iq { i: 0, q: three_quarters + 1 }, quiet), AgcAction::StepDown);
    // Any rail hit steps down whatever the magnitude.
    let clipped = ChannelStats { abs_sum: 0, sq_sum: 0, sat_count: 1 };
    assert_eq!(decide(Iq { i: 0, q: 0 }, clipped), AgcAction::StepDown);
}
