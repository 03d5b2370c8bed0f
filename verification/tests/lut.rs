use lvdt::lut::{
    cos_from_sine_index, DAC_MID_SCALE, DAC_SINE_LUT, EXCITATION_HZ, IQ_AMPLITUDE, SAMPLE_HZ,
    SINE_LUT_I16, SYSCLK_HZ, TIM6_ARR,
};

#[test]
fn dac_lut_is_unsigned_midscale_sine() {
    assert_eq!(DAC_SINE_LUT[0], DAC_MID_SCALE);
    assert_eq!(DAC_SINE_LUT[32], 4095);
    assert_eq!(DAC_SINE_LUT[64], DAC_MID_SCALE);
    assert_eq!(DAC_SINE_LUT[96], 1);
}

#[test]
fn cosine_is_quarter_cycle_shift() {
    assert_eq!(cos_from_sine_index(0), 32);
    assert_eq!(cos_from_sine_index(96), 0);
    assert_eq!(SINE_LUT_I16[cos_from_sine_index(0)], IQ_AMPLITUDE);
}

#[test]
fn dac_table_is_sine_plus_midscale() {
    for k in 0..lvdt::lut::LUT_LEN {
        assert_eq!(DAC_SINE_LUT[k] as i32, SINE_LUT_I16[k] as i32 + DAC_MID_SCALE as i32);
    }
}

#[test]
fn timer_plan_gives_table_length_samples_per_period() {
    assert_eq!(SAMPLE_HZ, 320_000);
    assert_eq!(SAMPLE_HZ, EXCITATION_HZ * 128);
    assert_eq!(TIM6_ARR as u32, SYSCLK_HZ / SAMPLE_HZ - 1);
    assert_eq!(TIM6_ARR, 530);
}

#[test]
fn cosine_index_wraps_for_any_index() {
    assert_eq!(cos_from_sine_index(127), 31);
    assert_eq!(cos_from_sine_index(200), 104);
    assert_eq!(cos_from_sine_index(usize::MAX), 31);
}

#[test]
fn excitation_plan_streams_the_dac_table() {
    let plan = lvdt::excitation::plan();
    assert_eq!(plan.tim6_arr, TIM6_ARR);
    assert_eq!(*plan.lut, DAC_SINE_LUT);
}
