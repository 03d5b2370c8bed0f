use lvdt::pga::PgaGain;

#[test]
fn gain_numbers_and_field_bits() {
    let nums = [2u8, 4, 8, 16, 32, 64];
    for (k, g) in PgaGain::ALL.iter().enumerate() {
        assert_eq!(g.as_num(), nums[k]);
        assert_eq!(g.as_bits(), k as u8);
    }
}

#[test]
fn step_up_saturates_at_x64() {
    assert_eq!(PgaGain::X2.step_up(), PgaGain::X4);
    assert_eq!(PgaGain::X32.step_up(), PgaGain::X64);
    assert_eq!(PgaGain::X64.step_up(), PgaGain::X64);
}

#[test]
fn step_down_saturates_at_x2() {
    assert_eq!(PgaGain::X64.step_down(), PgaGain::X32);
    assert_eq!(PgaGain::X4.step_down(), PgaGain::X2);
    assert_eq!(PgaGain::X2.step_down(), PgaGain::X2);
}

#[test]
fn steps_undo_each_other_inside_the_scale() {
    for g in PgaGain::ALL {
        if g != PgaGain::X64 {
            assert_eq!(g.step_up().step_down(), g);
            assert_eq!(g.step_up().as_num(), 2 * g.as_num());
        }
        if g != PgaGain::X2 {
            assert_eq!(g.step_down().step_up(), g);
        }
    }
}
