//! Excitation tables and timing: one excitation period is `LUT_LEN`
//! samples of a +-2047 sine, streamed to the DAC around mid-scale and used
//! as the demodulation reference.

use vstd::prelude::*;

verus! {

pub const LUT_LEN: usize = 128;
pub const LUT_QUARTER: usize = LUT_LEN / 4;

pub const ADC_MID_SCALE: i32 = 2048;
pub const DAC_MID_SCALE: u16 = 2048;
pub const DAC_AMPLITUDE: u16 = 2047;
pub const IQ_AMPLITUDE: i16 = 2047;

pub const EXCITATION_HZ: u32 = 2_500;
pub const SAMPLE_HZ: u32 = EXCITATION_HZ * 128;

pub const SYSCLK_HZ: u32 = 170_000_000;
pub const TIM6_ARR: u16 = 530;

/// TIM6 divides the system clock down to one DAC/ADC sample per update:
/// `LUT_LEN` samples per excitation period.
pub proof fn lemma_timer_plan()
    ensures
        SAMPLE_HZ == EXCITATION_HZ * LUT_LEN,
        TIM6_ARR == SYSCLK_HZ / SAMPLE_HZ - 1,
{
}

pub const SINE_LUT_I16: [i16; LUT_LEN] = [
    0, 100, 201, 300, 399, 497, 594, 690, 783, 875, 965, 1052, 1137, 1219, 1299, 1375, 1447, 1517, 1582,
    1644, 1702, 1756, 1805, 1850, 1891, 1927, 1959, 1986, 2008, 2025, 2037, 2045, 2047, 2045, 2037, 2025,
    2008, 1986, 1959, 1927, 1891, 1850, 1805, 1756, 1702, 1644, 1582, 1517, 1447, 1375, 1299, 1219, 1137,
    1052, 965, 875, 783, 690, 594, 497, 399, 300, 201, 100, 0, -100, -201, -300, -399, -497, -594, -690,
    -783, -875, -965, -1052, -1137, -1219, -1299, -1375, -1447, -1517, -1582, -1644, -1702, -1756, -1805,
    -1850, -1891, -1927, -1959, -1986, -2008, -2025, -2037, -2045, -2047, -2045, -2037, -2025, -2008, -1986,
    -1959, -1927, -1891, -1850, -1805, -1756, -1702, -1644, -1582, -1517, -1447, -1375, -1299, -1219, -1137,
    -1052, -965, -875, -783, -690, -594, -497, -399, -300, -201, -100,
];

pub const DAC_SINE_LUT: [u16; LUT_LEN] = [
    2048, 2148, 2249, 2348, 2447, 2545, 2642, 2738, 2831, 2923, 3013, 3100, 3185, 3267, 3347, 3423, 3495,
    3565, 3630, 3692, 3750, 3804, 3853, 3898, 3939, 3975, 4007, 4034, 4056, 4073, 4085, 4093, 4095, 4093,
    4085, 4073, 4056, 4034, 4007, 3975, 3939, 3898, 3853, 3804, 3750, 3692, 3630, 3565, 3495, 3423, 3347,
    3267, 3185, 3100, 3013, 2923, 2831, 2738, 2642, 2545, 2447, 2348, 2249, 2148, 2048, 1948, 1847, 1748,
    1649, 1551, 1454, 1358, 1265, 1173, 1083, 996, 911, 829, 749, 673, 601, 531, 466, 404, 346, 292, 243,
    198, 157, 121, 89, 62, 40, 23, 11, 3, 1, 3, 11, 23, 40, 62, 89, 121, 157, 198, 243, 292, 346, 404, 466,
    531, 601, 673, 749, 829, 911, 996, 1083, 1173, 1265, 1358, 1454, 1551, 1649, 1748, 1847, 1948,
];

/// The DAC table is the signed sine table shifted to DAC mid-scale.
pub proof fn lemma_dac_is_midscale_sine(k: int)
    requires
        0 <= k < LUT_LEN,
    ensures
        DAC_SINE_LUT@[k] as int == SINE_LUT_I16@[k] as int + DAC_MID_SCALE as int,
        1 <= DAC_SINE_LUT@[k] <= 4095,
{
}

/// Every sine entry lies within the +-`IQ_AMPLITUDE` swing.
pub proof fn lemma_sine_bounded(k: int)
    requires 0 <= k < LUT_LEN,
    ensures -2047 <= SINE_LUT_I16@[k] <= 2047,
{
}

/// Sine table entry `k` as an integer.
pub open spec fn sine_at(k: int) -> int {
    SINE_LUT_I16@[k] as int
}

/// Sum of squares of the first `n` sine table entries.
pub open spec fn sine_energy(n: int) -> int
    decreases n,
{
    if n <= 0 {
        0
    } else {
        sine_energy(n - 1) + sine_at(n - 1) * sine_at(n - 1)
    }
}

proof fn lemma_energy_step(n: int, v: int)
    requires
        0 < n <= LUT_LEN,
        sine_at(n - 1) == v,
    ensures
        sine_energy(n) == sine_energy(n - 1) + v * v,
{
    let s = sine_at(n - 1);
    assert(s * s == v * v) by (nonlinear_arith)
        requires
            s == v,
    ;
}

/// Total energy of one period of the sine table, summed entry by entry.
pub proof fn lemma_sine_energy_value()
    ensures
        sine_energy(LUT_LEN as int) == 268_162_574,
{
    assert(sine_energy(0) == 0);
    lemma_energy_step(1, 0);
    assert(sine_energy(1) == 0);
    lemma_energy_step(2, 100);
    assert(sine_energy(2) == 10000);
    lemma_energy_step(3, 201);
    assert(sine_energy(3) == 50401);
    lemma_energy_step(4, 300);
    assert(sine_energy(4) == 140401);
    lemma_energy_step(5, 399);
    assert(sine_energy(5) == 299602);
    lemma_energy_step(6, 497);
    assert(sine_energy(6) == 546611);
    lemma_energy_step(7, 594);
    assert(sine_energy(7) == 899447);
    lemma_energy_step(8, 690);
    assert(sine_energy(8) == 1375547);
    lemma_energy_step(9, 783);
    assert(sine_energy(9) == 1988636);
    lemma_energy_step(10, 875);
    assert(sine_energy(10) == 2754261);
    lemma_energy_step(11, 965);
    assert(sine_energy(11) == 3685486);
    lemma_energy_step(12, 1052);
    assert(sine_energy(12) == 4792190);
    lemma_energy_step(13, 1137);
    assert(sine_energy(13) == 6084959);
    lemma_energy_step(14, 1219);
    assert(sine_energy(14) == 7570920);
    lemma_energy_step(15, 1299);
    assert(sine_energy(15) == 9258321);
    lemma_energy_step(16, 1375);
    assert(sine_energy(16) == 11148946);
    lemma_energy_step(17, 1447);
    assert(sine_energy(17) == 13242755);
    lemma_energy_step(18, 1517);
    assert(sine_energy(18) == 15544044);
    lemma_energy_step(19, 1582);
    assert(sine_energy(19) == 18046768);
    lemma_energy_step(20, 1644);
    assert(sine_energy(20) == 20749504);
    lemma_energy_step(21, 1702);
    assert(sine_energy(21) == 23646308);
    lemma_energy_step(22, 1756);
    assert(sine_energy(22) == 26729844);
    lemma_energy_step(23, 1805);
    assert(sine_energy(23) == 29987869);
    lemma_energy_step(24, 1850);
    assert(sine_energy(24) == 33410369);
    lemma_energy_step(25, 1891);
    assert(sine_energy(25) == 36986250);
    lemma_energy_step(26, 1927);
    assert(sine_energy(26) == 40699579);
    lemma_energy_step(27, 1959);
    assert(sine_energy(27) == 44537260);
    lemma_energy_step(28, 1986);
    assert(sine_energy(28) == 48481456);
    lemma_energy_step(29, 2008);
    assert(sine_energy(29) == 52513520);
    lemma_energy_step(30, 2025);
    assert(sine_energy(30) == 56614145);
    lemma_energy_step(31, 2037);
    assert(sine_energy(31) == 60763514);
    lemma_energy_step(32, 2045);
    assert(sine_energy(32) == 64945539);
    lemma_energy_step(33, 2047);
    assert(sine_energy(33) == 69135748);
    lemma_energy_step(34, 2045);
    assert(sine_energy(34) == 73317773);
    lemma_energy_step(35, 2037);
    assert(sine_energy(35) == 77467142);
    lemma_energy_step(36, 2025);
    assert(sine_energy(36) == 81567767);
    lemma_energy_step(37, 2008);
    assert(sine_energy(37) == 85599831);
    lemma_energy_step(38, 1986);
    assert(sine_energy(38) == 89544027);
    lemma_energy_step(39, 1959);
    assert(sine_energy(39) == 93381708);
    lemma_energy_step(40, 1927);
    assert(sine_energy(40) == 97095037);
    lemma_energy_step(41, 1891);
    assert(sine_energy(41) == 100670918);
    lemma_energy_step(42, 1850);
    assert(sine_energy(42) == 104093418);
    lemma_energy_step(43, 1805);
    assert(sine_energy(43) == 107351443);
    lemma_energy_step(44, 1756);
    assert(sine_energy(44) == 110434979);
    lemma_energy_step(45, 1702);
    assert(sine_energy(45) == 113331783);
    lemma_energy_step(46, 1644);
    assert(sine_energy(46) == 116034519);
    lemma_energy_step(47, 1582);
    assert(sine_energy(47) == 118537243);
    lemma_energy_step(48, 1517);
    assert(sine_energy(48) == 120838532);
    lemma_energy_step(49, 1447);
    assert(sine_energy(49) == 122932341);
    lemma_energy_step(50, 1375);
    assert(sine_energy(50) == 124822966);
    lemma_energy_step(51, 1299);
    assert(sine_energy(51) == 126510367);
    lemma_energy_step(52, 1219);
    assert(sine_energy(52) == 127996328);
    lemma_energy_step(53, 1137);
    assert(sine_energy(53) == 129289097);
    lemma_energy_step(54, 1052);
    assert(sine_energy(54) == 130395801);
    lemma_energy_step(55, 965);
    assert(sine_energy(55) == 131327026);
    lemma_energy_step(56, 875);
    assert(sine_energy(56) == 132092651);
    lemma_energy_step(57, 783);
    assert(sine_energy(57) == 132705740);
    lemma_energy_step(58, 690);
    assert(sine_energy(58) == 133181840);
    lemma_energy_step(59, 594);
    assert(sine_energy(59) == 133534676);
    lemma_energy_step(60, 497);
    assert(sine_energy(60) == 133781685);
    lemma_energy_step(61, 399);
    assert(sine_energy(61) == 133940886);
    lemma_energy_step(62, 300);
    assert(sine_energy(62) == 134030886);
    lemma_energy_step(63, 201);
    assert(sine_energy(63) == 134071287);
    lemma_energy_step(64, 100);
    assert(sine_energy(64) == 134081287);
    lemma_energy_step(65, 0);
    assert(sine_energy(65) == 134081287);
    lemma_energy_step(66, -100);
    assert(sine_energy(66) == 134091287);
    lemma_energy_step(67, -201);
    assert(sine_energy(67) == 134131688);
    lemma_energy_step(68, -300);
    assert(sine_energy(68) == 134221688);
    lemma_energy_step(69, -399);
    assert(sine_energy(69) == 134380889);
    lemma_energy_step(70, -497);
    assert(sine_energy(70) == 134627898);
    lemma_energy_step(71, -594);
    assert(sine_energy(71) == 134980734);
    lemma_energy_step(72, -690);
    assert(sine_energy(72) == 135456834);
    lemma_energy_step(73, -783);
    assert(sine_energy(73) == 136069923);
    lemma_energy_step(74, -875);
    assert(sine_energy(74) == 136835548);
    lemma_energy_step(75, -965);
    assert(sine_energy(75) == 137766773);
    lemma_energy_step(76, -1052);
    assert(sine_energy(76) == 138873477);
    lemma_energy_step(77, -1137);
    assert(sine_energy(77) == 140166246);
    lemma_energy_step(78, -1219);
    assert(sine_energy(78) == 141652207);
    lemma_energy_step(79, -1299);
    assert(sine_energy(79) == 143339608);
    lemma_energy_step(80, -1375);
    assert(sine_energy(80) == 145230233);
    lemma_energy_step(81, -1447);
    assert(sine_energy(81) == 147324042);
    lemma_energy_step(82, -1517);
    assert(sine_energy(82) == 149625331);
    lemma_energy_step(83, -1582);
    assert(sine_energy(83) == 152128055);
    lemma_energy_step(84, -1644);
    assert(sine_energy(84) == 154830791);
    lemma_energy_step(85, -1702);
    assert(sine_energy(85) == 157727595);
    lemma_energy_step(86, -1756);
    assert(sine_energy(86) == 160811131);
    lemma_energy_step(87, -1805);
    assert(sine_energy(87) == 164069156);
    lemma_energy_step(88, -1850);
    assert(sine_energy(88) == 167491656);
    lemma_energy_step(89, -1891);
    assert(sine_energy(89) == 171067537);
    lemma_energy_step(90, -1927);
    assert(sine_energy(90) == 174780866);
    lemma_energy_step(91, -1959);
    assert(sine_energy(91) == 178618547);
    lemma_energy_step(92, -1986);
    assert(sine_energy(92) == 182562743);
    lemma_energy_step(93, -2008);
    assert(sine_energy(93) == 186594807);
    lemma_energy_step(94, -2025);
    assert(sine_energy(94) == 190695432);
    lemma_energy_step(95, -2037);
    assert(sine_energy(95) == 194844801);
    lemma_energy_step(96, -2045);
    assert(sine_energy(96) == 199026826);
    lemma_energy_step(97, -2047);
    assert(sine_energy(97) == 203217035);
    lemma_energy_step(98, -2045);
    assert(sine_energy(98) == 207399060);
    lemma_energy_step(99, -2037);
    assert(sine_energy(99) == 211548429);
    lemma_energy_step(100, -2025);
    assert(sine_energy(100) == 215649054);
    lemma_energy_step(101, -2008);
    assert(sine_energy(101) == 219681118);
    lemma_energy_step(102, -1986);
    assert(sine_energy(102) == 223625314);
    lemma_energy_step(103, -1959);
    assert(sine_energy(103) == 227462995);
    lemma_energy_step(104, -1927);
    assert(sine_energy(104) == 231176324);
    lemma_energy_step(105, -1891);
    assert(sine_energy(105) == 234752205);
    lemma_energy_step(106, -1850);
    assert(sine_energy(106) == 238174705);
    lemma_energy_step(107, -1805);
    assert(sine_energy(107) == 241432730);
    lemma_energy_step(108, -1756);
    assert(sine_energy(108) == 244516266);
    lemma_energy_step(109, -1702);
    assert(sine_energy(109) == 247413070);
    lemma_energy_step(110, -1644);
    assert(sine_energy(110) == 250115806);
    lemma_energy_step(111, -1582);
    assert(sine_energy(111) == 252618530);
    lemma_energy_step(112, -1517);
    assert(sine_energy(112) == 254919819);
    lemma_energy_step(113, -1447);
    assert(sine_energy(113) == 257013628);
    lemma_energy_step(114, -1375);
    assert(sine_energy(114) == 258904253);
    lemma_energy_step(115, -1299);
    assert(sine_energy(115) == 260591654);
    lemma_energy_step(116, -1219);
    assert(sine_energy(116) == 262077615);
    lemma_energy_step(117, -1137);
    assert(sine_energy(117) == 263370384);
    lemma_energy_step(118, -1052);
    assert(sine_energy(118) == 264477088);
    lemma_energy_step(119, -965);
    assert(sine_energy(119) == 265408313);
    lemma_energy_step(120, -875);
    assert(sine_energy(120) == 266173938);
    lemma_energy_step(121, -783);
    assert(sine_energy(121) == 266787027);
    lemma_energy_step(122, -690);
    assert(sine_energy(122) == 267263127);
    lemma_energy_step(123, -594);
    assert(sine_energy(123) == 267615963);
    lemma_energy_step(124, -497);
    assert(sine_energy(124) == 267862972);
    lemma_energy_step(125, -399);
    assert(sine_energy(125) == 268022173);
    lemma_energy_step(126, -300);
    assert(sine_energy(126) == 268112173);
    lemma_energy_step(127, -201);
    assert(sine_energy(127) == 268152574);
    lemma_energy_step(128, -100);
    assert(sine_energy(128) == 268162574);
}

/// `sum_{k < n} sin[k] * sin[k + LUT_QUARTER]`: sine against cosine.
pub open spec fn cross_energy(n: int) -> int
    decreases n,
{
    if n <= 0 {
        0
    } else {
        cross_energy(n - 1) + sine_at(n - 1) * sine_at((n - 1 + 32) % 128)
    }
}

/// `sum_{k < n} sin[k + LUT_QUARTER]^2`: energy of the cosine.
pub open spec fn shifted_energy(n: int) -> int
    decreases n,
{
    if n <= 0 {
        0
    } else {
        shifted_energy(n - 1) + sine_at((n - 1 + 32) % 128) * sine_at((n - 1 + 32) % 128)
    }
}

proof fn lemma_cross_step(n: int, s: int, c: int)
    requires
        0 < n <= LUT_LEN,
        sine_at(n - 1) == s,
        sine_at((n - 1 + 32) % 128) == c,
    ensures
        cross_energy(n) == cross_energy(n - 1) + s * c,
{
    let x = sine_at(n - 1);
    let y = sine_at((n - 1 + 32) % 128);
    assert(x * y == s * c) by (nonlinear_arith)
        requires
            x == s,
            y == c,
    ;
}

proof fn lemma_shifted_step(n: int, c: int)
    requires
        0 < n <= LUT_LEN,
        sine_at((n - 1 + 32) % 128) == c,
    ensures
        shifted_energy(n) == shifted_energy(n - 1) + c * c,
{
    let y = sine_at((n - 1 + 32) % 128);
    assert(y * y == c * c) by (nonlinear_arith)
        requires
            y == c,
    ;
}

/// Over one period the sine table is orthogonal to its quarter-period
/// shift, and the shift has the same energy.
pub proof fn lemma_sine_cosine_orthogonal()
    ensures
        cross_energy(LUT_LEN as int) == 0,
        shifted_energy(LUT_LEN as int) == 268_162_574,
{
    assert(cross_energy(0) == 0);
    lemma_cross_step(1, 0, 2047);
    assert(cross_energy(1) == 0);
    lemma_cross_step(2, 100, 2045);
    assert(cross_energy(2) == 204500);
    lemma_cross_step(3, 201, 2037);
    assert(cross_energy(3) == 613937);
    lemma_cross_step(4, 300, 2025);
    assert(cross_energy(4) == 1221437);
    lemma_cross_step(5, 399, 2008);
    assert(cross_energy(5) == 2022629);
    lemma_cross_step(6, 497, 1986);
    assert(cross_energy(6) == 3009671);
    lemma_cross_step(7, 594, 1959);
    assert(cross_energy(7) == 4173317);
    lemma_cross_step(8, 690, 1927);
    assert(cross_energy(8) == 5502947);
    lemma_cross_step(9, 783, 1891);
    assert(cross_energy(9) == 6983600);
    lemma_cross_step(10, 875, 1850);
    assert(cross_energy(10) == 8602350);
    lemma_cross_step(11, 965, 1805);
    assert(cross_energy(11) == 10344175);
    lemma_cross_step(12, 1052, 1756);
    assert(cross_energy(12) == 12191487);
    lemma_cross_step(13, 1137, 1702);
    assert(cross_energy(13) == 14126661);
    lemma_cross_step(14, 1219, 1644);
    assert(cross_energy(14) == 16130697);
    lemma_cross_step(15, 1299, 1582);
    assert(cross_energy(15) == 18185715);
    lemma_cross_step(16, 1375, 1517);
    assert(cross_energy(16) == 20271590);
    lemma_cross_step(17, 1447, 1447);
    assert(cross_energy(17) == 22365399);
    lemma_cross_step(18, 1517, 1375);
    assert(cross_energy(18) == 24451274);
    lemma_cross_step(19, 1582, 1299);
    assert(cross_energy(19) == 26506292);
    lemma_cross_step(20, 1644, 1219);
    assert(cross_energy(20) == 28510328);
    lemma_cross_step(21, 1702, 1137);
    assert(cross_energy(21) == 30445502);
    lemma_cross_step(22, 1756, 1052);
    assert(cross_energy(22) == 32292814);
    lemma_cross_step(23, 1805, 965);
    assert(cross_energy(23) == 34034639);
    lemma_cross_step(24, 1850, 875);
    assert(cross_energy(24) == 35653389);
    lemma_cross_step(25, 1891, 783);
    assert(cross_energy(25) == 37134042);
    lemma_cross_step(26, 1927, 690);
    assert(cross_energy(26) == 38463672);
    lemma_cross_step(27, 1959, 594);
    assert(cross_energy(27) == 39627318);
    lemma_cross_step(28, 1986, 497);
    assert(cross_energy(28) == 40614360);
    lemma_cross_step(29, 2008, 399);
    assert(cross_energy(29) == 41415552);
    lemma_cross_step(30, 2025, 300);
    assert(cross_energy(30) == 42023052);
    lemma_cross_step(31, 2037, 201);
    assert(cross_energy(31) == 42432489);
    lemma_cross_step(32, 2045, 100);
    assert(cross_energy(32) == 42636989);
    lemma_cross_step(33, 2047, 0);
    assert(cross_energy(33) == 42636989);
    lemma_cross_step(34, 2045, -100);
    assert(cross_energy(34) == 42432489);
    lemma_cross_step(35, 2037, -201);
    assert(cross_energy(35) == 42023052);
    lemma_cross_step(36, 2025, -300);
    assert(cross_energy(36) == 41415552);
    lemma_cross_step(37, 2008, -399);
    assert(cross_energy(37) == 40614360);
    lemma_cross_step(38, 1986, -497);
    assert(cross_energy(38) == 39627318);
    lemma_cross_step(39, 1959, -594);
    assert(cross_energy(39) == 38463672);
    lemma_cross_step(40, 1927, -690);
    assert(cross_energy(40) == 37134042);
    lemma_cross_step(41, 1891, -783);
    assert(cross_energy(41) == 35653389);
    lemma_cross_step(42, 1850, -875);
    assert(cross_energy(42) == 34034639);
    lemma_cross_step(43, 1805, -965);
    assert(cross_energy(43) == 32292814);
    lemma_cross_step(44, 1756, -1052);
    assert(cross_energy(44) == 30445502);
    lemma_cross_step(45, 1702, -1137);
    assert(cross_energy(45) == 28510328);
    lemma_cross_step(46, 1644, -1219);
    assert(cross_energy(46) == 26506292);
    lemma_cross_step(47, 1582, -1299);
    assert(cross_energy(47) == 24451274);
    lemma_cross_step(48, 1517, -1375);
    assert(cross_energy(48) == 22365399);
    lemma_cross_step(49, 1447, -1447);
    assert(cross_energy(49) == 20271590);
    lemma_cross_step(50, 1375, -1517);
    assert(cross_energy(50) == 18185715);
    lemma_cross_step(51, 1299, -1582);
    assert(cross_energy(51) == 16130697);
    lemma_cross_step(52, 1219, -1644);
    assert(cross_energy(52) == 14126661);
    lemma_cross_step(53, 1137, -1702);
    assert(cross_energy(53) == 12191487);
    lemma_cross_step(54, 1052, -1756);
    assert(cross_energy(54) == 10344175);
    lemma_cross_step(55, 965, -1805);
    assert(cross_energy(55) == 8602350);
    lemma_cross_step(56, 875, -1850);
    assert(cross_energy(56) == 6983600);
    lemma_cross_step(57, 783, -1891);
    assert(cross_energy(57) == 5502947);
    lemma_cross_step(58, 690, -1927);
    assert(cross_energy(58) == 4173317);
    lemma_cross_step(59, 594, -1959);
    assert(cross_energy(59) == 3009671);
    lemma_cross_step(60, 497, -1986);
    assert(cross_energy(60) == 2022629);
    lemma_cross_step(61, 399, -2008);
    assert(cross_energy(61) == 1221437);
    lemma_cross_step(62, 300, -2025);
    assert(cross_energy(62) == 613937);
    lemma_cross_step(63, 201, -2037);
    assert(cross_energy(63) == 204500);
    lemma_cross_step(64, 100, -2045);
    assert(cross_energy(64) == 0);
    lemma_cross_step(65, 0, -2047);
    assert(cross_energy(65) == 0);
    lemma_cross_step(66, -100, -2045);
    assert(cross_energy(66) == 204500);
    lemma_cross_step(67, -201, -2037);
    assert(cross_energy(67) == 613937);
    lemma_cross_step(68, -300, -2025);
    assert(cross_energy(68) == 1221437);
    lemma_cross_step(69, -399, -2008);
    assert(cross_energy(69) == 2022629);
    lemma_cross_step(70, -497, -1986);
    assert(cross_energy(70) == 3009671);
    lemma_cross_step(71, -594, -1959);
    assert(cross_energy(71) == 4173317);
    lemma_cross_step(72, -690, -1927);
    assert(cross_energy(72) == 5502947);
    lemma_cross_step(73, -783, -1891);
    assert(cross_energy(73) == 6983600);
    lemma_cross_step(74, -875, -1850);
    assert(cross_energy(74) == 8602350);
    lemma_cross_step(75, -965, -1805);
    assert(cross_energy(75) == 10344175);
    lemma_cross_step(76, -1052, -1756);
    assert(cross_energy(76) == 12191487);
    lemma_cross_step(77, -1137, -1702);
    assert(cross_energy(77) == 14126661);
    lemma_cross_step(78, -1219, -1644);
    assert(cross_energy(78) == 16130697);
    lemma_cross_step(79, -1299, -1582);
    assert(cross_energy(79) == 18185715);
    lemma_cross_step(80, -1375, -1517);
    assert(cross_energy(80) == 20271590);
    lemma_cross_step(81, -1447, -1447);
    assert(cross_energy(81) == 22365399);
    lemma_cross_step(82, -1517, -1375);
    assert(cross_energy(82) == 24451274);
    lemma_cross_step(83, -1582, -1299);
    assert(cross_energy(83) == 26506292);
    lemma_cross_step(84, -1644, -1219);
    assert(cross_energy(84) == 28510328);
    lemma_cross_step(85, -1702, -1137);
    assert(cross_energy(85) == 30445502);
    lemma_cross_step(86, -1756, -1052);
    assert(cross_energy(86) == 32292814);
    lemma_cross_step(87, -1805, -965);
    assert(cross_energy(87) == 34034639);
    lemma_cross_step(88, -1850, -875);
    assert(cross_energy(88) == 35653389);
    lemma_cross_step(89, -1891, -783);
    assert(cross_energy(89) == 37134042);
    lemma_cross_step(90, -1927, -690);
    assert(cross_energy(90) == 38463672);
    lemma_cross_step(91, -1959, -594);
    assert(cross_energy(91) == 39627318);
    lemma_cross_step(92, -1986, -497);
    assert(cross_energy(92) == 40614360);
    lemma_cross_step(93, -2008, -399);
    assert(cross_energy(93) == 41415552);
    lemma_cross_step(94, -2025, -300);
    assert(cross_energy(94) == 42023052);
    lemma_cross_step(95, -2037, -201);
    assert(cross_energy(95) == 42432489);
    lemma_cross_step(96, -2045, -100);
    assert(cross_energy(96) == 42636989);
    lemma_cross_step(97, -2047, 0);
    assert(cross_energy(97) == 42636989);
    lemma_cross_step(98, -2045, 100);
    assert(cross_energy(98) == 42432489);
    lemma_cross_step(99, -2037, 201);
    assert(cross_energy(99) == 42023052);
    lemma_cross_step(100, -2025, 300);
    assert(cross_energy(100) == 41415552);
    lemma_cross_step(101, -2008, 399);
    assert(cross_energy(101) == 40614360);
    lemma_cross_step(102, -1986, 497);
    assert(cross_energy(102) == 39627318);
    lemma_cross_step(103, -1959, 594);
    assert(cross_energy(103) == 38463672);
    lemma_cross_step(104, -1927, 690);
    assert(cross_energy(104) == 37134042);
    lemma_cross_step(105, -1891, 783);
    assert(cross_energy(105) == 35653389);
    lemma_cross_step(106, -1850, 875);
    assert(cross_energy(106) == 34034639);
    lemma_cross_step(107, -1805, 965);
    assert(cross_energy(107) == 32292814);
    lemma_cross_step(108, -1756, 1052);
    assert(cross_energy(108) == 30445502);
    lemma_cross_step(109, -1702, 1137);
    assert(cross_energy(109) == 28510328);
    lemma_cross_step(110, -1644, 1219);
    assert(cross_energy(110) == 26506292);
    lemma_cross_step(111, -1582, 1299);
    assert(cross_energy(111) == 24451274);
    lemma_cross_step(112, -1517, 1375);
    assert(cross_energy(112) == 22365399);
    lemma_cross_step(113, -1447, 1447);
    assert(cross_energy(113) == 20271590);
    lemma_cross_step(114, -1375, 1517);
    assert(cross_energy(114) == 18185715);
    lemma_cross_step(115, -1299, 1582);
    assert(cross_energy(115) == 16130697);
    lemma_cross_step(116, -1219, 1644);
    assert(cross_energy(116) == 14126661);
    lemma_cross_step(117, -1137, 1702);
    assert(cross_energy(117) == 12191487);
    lemma_cross_step(118, -1052, 1756);
    assert(cross_energy(118) == 10344175);
    lemma_cross_step(119, -965, 1805);
    assert(cross_energy(119) == 8602350);
    lemma_cross_step(120, -875, 1850);
    assert(cross_energy(120) == 6983600);
    lemma_cross_step(121, -783, 1891);
    assert(cross_energy(121) == 5502947);
    lemma_cross_step(122, -690, 1927);
    assert(cross_energy(122) == 4173317);
    lemma_cross_step(123, -594, 1959);
    assert(cross_energy(123) == 3009671);
    lemma_cross_step(124, -497, 1986);
    assert(cross_energy(124) == 2022629);
    lemma_cross_step(125, -399, 2008);
    assert(cross_energy(125) == 1221437);
    lemma_cross_step(126, -300, 2025);
    assert(cross_energy(126) == 613937);
    lemma_cross_step(127, -201, 2037);
    assert(cross_energy(127) == 204500);
    lemma_cross_step(128, -100, 2045);
    assert(cross_energy(128) == 0);
    assert(shifted_energy(0) == 0);
    lemma_shifted_step(1, 2047);
    assert(shifted_energy(1) == 4190209);
    lemma_shifted_step(2, 2045);
    assert(shifted_energy(2) == 8372234);
    lemma_shifted_step(3, 2037);
    assert(shifted_energy(3) == 12521603);
    lemma_shifted_step(4, 2025);
    assert(shifted_energy(4) == 16622228);
    lemma_shifted_step(5, 2008);
    assert(shifted_energy(5) == 20654292);
    lemma_shifted_step(6, 1986);
    assert(shifted_energy(6) == 24598488);
    lemma_shifted_step(7, 1959);
    assert(shifted_energy(7) == 28436169);
    lemma_shifted_step(8, 1927);
    assert(shifted_energy(8) == 32149498);
    lemma_shifted_step(9, 1891);
    assert(shifted_energy(9) == 35725379);
    lemma_shifted_step(10, 1850);
    assert(shifted_energy(10) == 39147879);
    lemma_shifted_step(11, 1805);
    assert(shifted_energy(11) == 42405904);
    lemma_shifted_step(12, 1756);
    assert(shifted_energy(12) == 45489440);
    lemma_shifted_step(13, 1702);
    assert(shifted_energy(13) == 48386244);
    lemma_shifted_step(14, 1644);
    assert(shifted_energy(14) == 51088980);
    lemma_shifted_step(15, 1582);
    assert(shifted_energy(15) == 53591704);
    lemma_shifted_step(16, 1517);
    assert(shifted_energy(16) == 55892993);
    lemma_shifted_step(17, 1447);
    assert(shifted_energy(17) == 57986802);
    lemma_shifted_step(18, 1375);
    assert(shifted_energy(18) == 59877427);
    lemma_shifted_step(19, 1299);
    assert(shifted_energy(19) == 61564828);
    lemma_shifted_step(20, 1219);
    assert(shifted_energy(20) == 63050789);
    lemma_shifted_step(21, 1137);
    assert(shifted_energy(21) == 64343558);
    lemma_shifted_step(22, 1052);
    assert(shifted_energy(22) == 65450262);
    lemma_shifted_step(23, 965);
    assert(shifted_energy(23) == 66381487);
    lemma_shifted_step(24, 875);
    assert(shifted_energy(24) == 67147112);
    lemma_shifted_step(25, 783);
    assert(shifted_energy(25) == 67760201);
    lemma_shifted_step(26, 690);
    assert(shifted_energy(26) == 68236301);
    lemma_shifted_step(27, 594);
    assert(shifted_energy(27) == 68589137);
    lemma_shifted_step(28, 497);
    assert(shifted_energy(28) == 68836146);
    lemma_shifted_step(29, 399);
    assert(shifted_energy(29) == 68995347);
    lemma_shifted_step(30, 300);
    assert(shifted_energy(30) == 69085347);
    lemma_shifted_step(31, 201);
    assert(shifted_energy(31) == 69125748);
    lemma_shifted_step(32, 100);
    assert(shifted_energy(32) == 69135748);
    lemma_shifted_step(33, 0);
    assert(shifted_energy(33) == 69135748);
    lemma_shifted_step(34, -100);
    assert(shifted_energy(34) == 69145748);
    lemma_shifted_step(35, -201);
    assert(shifted_energy(35) == 69186149);
    lemma_shifted_step(36, -300);
    assert(shifted_energy(36) == 69276149);
    lemma_shifted_step(37, -399);
    assert(shifted_energy(37) == 69435350);
    lemma_shifted_step(38, -497);
    assert(shifted_energy(38) == 69682359);
    lemma_shifted_step(39, -594);
    assert(shifted_energy(39) == 70035195);
    lemma_shifted_step(40, -690);
    assert(shifted_energy(40) == 70511295);
    lemma_shifted_step(41, -783);
    assert(shifted_energy(41) == 71124384);
    lemma_shifted_step(42, -875);
    assert(shifted_energy(42) == 71890009);
    lemma_shifted_step(43, -965);
    assert(shifted_energy(43) == 72821234);
    lemma_shifted_step(44, -1052);
    assert(shifted_energy(44) == 73927938);
    lemma_shifted_step(45, -1137);
    assert(shifted_energy(45) == 75220707);
    lemma_shifted_step(46, -1219);
    assert(shifted_energy(46) == 76706668);
    lemma_shifted_step(47, -1299);
    assert(shifted_energy(47) == 78394069);
    lemma_shifted_step(48, -1375);
    assert(shifted_energy(48) == 80284694);
    lemma_shifted_step(49, -1447);
    assert(shifted_energy(49) == 82378503);
    lemma_shifted_step(50, -1517);
    assert(shifted_energy(50) == 84679792);
    lemma_shifted_step(51, -1582);
    assert(shifted_energy(51) == 87182516);
    lemma_shifted_step(52, -1644);
    assert(shifted_energy(52) == 89885252);
    lemma_shifted_step(53, -1702);
    assert(shifted_energy(53) == 92782056);
    lemma_shifted_step(54, -1756);
    assert(shifted_energy(54) == 95865592);
    lemma_shifted_step(55, -1805);
    assert(shifted_energy(55) == 99123617);
    lemma_shifted_step(56, -1850);
    assert(shifted_energy(56) == 102546117);
    lemma_shifted_step(57, -1891);
    assert(shifted_energy(57) == 106121998);
    lemma_shifted_step(58, -1927);
    assert(shifted_energy(58) == 109835327);
    lemma_shifted_step(59, -1959);
    assert(shifted_energy(59) == 113673008);
    lemma_shifted_step(60, -1986);
    assert(shifted_energy(60) == 117617204);
    lemma_shifted_step(61, -2008);
    assert(shifted_energy(61) == 121649268);
    lemma_shifted_step(62, -2025);
    assert(shifted_energy(62) == 125749893);
    lemma_shifted_step(63, -2037);
    assert(shifted_energy(63) == 129899262);
    lemma_shifted_step(64, -2045);
    assert(shifted_energy(64) == 134081287);
    lemma_shifted_step(65, -2047);
    assert(shifted_energy(65) == 138271496);
    lemma_shifted_step(66, -2045);
    assert(shifted_energy(66) == 142453521);
    lemma_shifted_step(67, -2037);
    assert(shifted_energy(67) == 146602890);
    lemma_shifted_step(68, -2025);
    assert(shifted_energy(68) == 150703515);
    lemma_shifted_step(69, -2008);
    assert(shifted_energy(69) == 154735579);
    lemma_shifted_step(70, -1986);
    assert(shifted_energy(70) == 158679775);
    lemma_shifted_step(71, -1959);
    assert(shifted_energy(71) == 162517456);
    lemma_shifted_step(72, -1927);
    assert(shifted_energy(72) == 166230785);
    lemma_shifted_step(73, -1891);
    assert(shifted_energy(73) == 169806666);
    lemma_shifted_step(74, -1850);
    assert(shifted_energy(74) == 173229166);
    lemma_shifted_step(75, -1805);
    assert(shifted_energy(75) == 176487191);
    lemma_shifted_step(76, -1756);
    assert(shifted_energy(76) == 179570727);
    lemma_shifted_step(77, -1702);
    assert(shifted_energy(77) == 182467531);
    lemma_shifted_step(78, -1644);
    assert(shifted_energy(78) == 185170267);
    lemma_shifted_step(79, -1582);
    assert(shifted_energy(79) == 187672991);
    lemma_shifted_step(80, -1517);
    assert(shifted_energy(80) == 189974280);
    lemma_shifted_step(81, -1447);
    assert(shifted_energy(81) == 192068089);
    lemma_shifted_step(82, -1375);
    assert(shifted_energy(82) == 193958714);
    lemma_shifted_step(83, -1299);
    assert(shifted_energy(83) == 195646115);
    lemma_shifted_step(84, -1219);
    assert(shifted_energy(84) == 197132076);
    lemma_shifted_step(85, -1137);
    assert(shifted_energy(85) == 198424845);
    lemma_shifted_step(86, -1052);
    assert(shifted_energy(86) == 199531549);
    lemma_shifted_step(87, -965);
    assert(shifted_energy(87) == 200462774);
    lemma_shifted_step(88, -875);
    assert(shifted_energy(88) == 201228399);
    lemma_shifted_step(89, -783);
    assert(shifted_energy(89) == 201841488);
    lemma_shifted_step(90, -690);
    assert(shifted_energy(90) == 202317588);
    lemma_shifted_step(91, -594);
    assert(shifted_energy(91) == 202670424);
    lemma_shifted_step(92, -497);
    assert(shifted_energy(92) == 202917433);
    lemma_shifted_step(93, -399);
    assert(shifted_energy(93) == 203076634);
    lemma_shifted_step(94, -300);
    assert(shifted_energy(94) == 203166634);
    lemma_shifted_step(95, -201);
    assert(shifted_energy(95) == 203207035);
    lemma_shifted_step(96, -100);
    assert(shifted_energy(96) == 203217035);
    lemma_shifted_step(97, 0);
    assert(shifted_energy(97) == 203217035);
    lemma_shifted_step(98, 100);
    assert(shifted_energy(98) == 203227035);
    lemma_shifted_step(99, 201);
    assert(shifted_energy(99) == 203267436);
    lemma_shifted_step(100, 300);
    assert(shifted_energy(100) == 203357436);
    lemma_shifted_step(101, 399);
    assert(shifted_energy(101) == 203516637);
    lemma_shifted_step(102, 497);
    assert(shifted_energy(102) == 203763646);
    lemma_shifted_step(103, 594);
    assert(shifted_energy(103) == 204116482);
    lemma_shifted_step(104, 690);
    assert(shifted_energy(104) == 204592582);
    lemma_shifted_step(105, 783);
    assert(shifted_energy(105) == 205205671);
    lemma_shifted_step(106, 875);
    assert(shifted_energy(106) == 205971296);
    lemma_shifted_step(107, 965);
    assert(shifted_energy(107) == 206902521);
    lemma_shifted_step(108, 1052);
    assert(shifted_energy(108) == 208009225);
    lemma_shifted_step(109, 1137);
    assert(shifted_energy(109) == 209301994);
    lemma_shifted_step(110, 1219);
    assert(shifted_energy(110) == 210787955);
    lemma_shifted_step(111, 1299);
    assert(shifted_energy(111) == 212475356);
    lemma_shifted_step(112, 1375);
    assert(shifted_energy(112) == 214365981);
    lemma_shifted_step(113, 1447);
    assert(shifted_energy(113) == 216459790);
    lemma_shifted_step(114, 1517);
    assert(shifted_energy(114) == 218761079);
    lemma_shifted_step(115, 1582);
    assert(shifted_energy(115) == 221263803);
    lemma_shifted_step(116, 1644);
    assert(shifted_energy(116) == 223966539);
    lemma_shifted_step(117, 1702);
    assert(shifted_energy(117) == 226863343);
    lemma_shifted_step(118, 1756);
    assert(shifted_energy(118) == 229946879);
    lemma_shifted_step(119, 1805);
    assert(shifted_energy(119) == 233204904);
    lemma_shifted_step(120, 1850);
    assert(shifted_energy(120) == 236627404);
    lemma_shifted_step(121, 1891);
    assert(shifted_energy(121) == 240203285);
    lemma_shifted_step(122, 1927);
    assert(shifted_energy(122) == 243916614);
    lemma_shifted_step(123, 1959);
    assert(shifted_energy(123) == 247754295);
    lemma_shifted_step(124, 1986);
    assert(shifted_energy(124) == 251698491);
    lemma_shifted_step(125, 2008);
    assert(shifted_energy(125) == 255730555);
    lemma_shifted_step(126, 2025);
    assert(shifted_energy(126) == 259831180);
    lemma_shifted_step(127, 2037);
    assert(shifted_energy(127) == 263980549);
    lemma_shifted_step(128, 2045);
    assert(shifted_energy(128) == 268162574);
}

/// Index of the cosine sample for sine index `k`: a quarter cycle ahead,
/// wrapped into the table.
pub fn cos_from_sine_index(k: usize) -> (r: usize)
    ensures
        r == (k as int + LUT_QUARTER as int) % (LUT_LEN as int),
{
    let r = k.wrapping_add(LUT_QUARTER) & (LUT_LEN - 1);
    proof {
        let w = k.wrapping_add(32usize);
        assert(w == (k as int + 32) % (usize::MAX as int + 1));
        assert((w & 127usize) == w % 128) by (bit_vector);
        assert(usize::MAX as int + 1 == 128 * ((usize::MAX as int + 1) / 128));
        vstd::arithmetic::div_mod::lemma_mod_mod(k as int + 32, 128, (usize::MAX as int + 1) / 128);
    }
    r
}

} // verus!
