//! Coherent I/Q demodulation of dual-ADC blocks, per-channel quality, and
//! block averaging.
//!
//! One DMA block holds `LUT_LEN` packed words, exactly one excitation
//! period. Each channel is correlated with the sine table (I) and with the
//! table a quarter period on (Q); a full-swing, zero-phase loopback gives
//! `I == REFERENCE_MAGNITUDE_I64`, `Q` near 0.

use vstd::prelude::*;

use crate::lut::{
    cos_from_sine_index, cross_energy, lemma_dac_is_midscale_sine, lemma_sine_cosine_orthogonal,
    shifted_energy, lemma_sine_bounded, lemma_sine_energy_value,
    sine_at, sine_energy, ADC_MID_SCALE, DAC_SINE_LUT, IQ_AMPLITUDE, LUT_LEN, SINE_LUT_I16,
};

verus! {

/// One channel's coherent projection onto the excitation: `i` against sine,
/// `q` against cosine.
#[derive(Clone, Copy, Debug, Default, PartialEq, Eq, Structural)]
pub struct Iq {
    pub i: i32,
    pub q: i32,
}

/// Per-block statistics of one channel's centred samples, gathered in the
/// same pass as the I/Q projection.
#[derive(Clone, Copy, Debug, Default, PartialEq, Eq, Structural)]
pub struct ChannelStats {
    /// Sum of absolute centred sample values.
    pub abs_sum: i64,
    /// Sum of squared centred sample values (total signal energy).
    pub sq_sum: i64,
    /// Number of raw samples within `SAT_MARGIN_LSB` of either ADC rail.
    pub sat_count: u32,
}

/// Demodulated result of one block (or of an averaged window) for both
/// channels.
#[derive(Clone, Copy, Debug, Default, PartialEq, Eq, Structural)]
pub struct DemodulatedSample {
    pub a: Iq,
    pub b: Iq,
    pub stats_a: ChannelStats,
    pub stats_b: ChannelStats,
    pub sequence: u32,
}

/// Quality flags of one channel. Display priority: clipping, then low
/// signal, then distortion.
#[derive(Clone, Copy, Debug, Default, PartialEq, Eq, Structural)]
pub struct ChannelQuality {
    /// At least one raw sample sat on an ADC rail.
    pub clipping: bool,
    /// `|Iq|^2` below 1% of `REFERENCE^2`.
    pub low_signal: bool,
    /// More than 2% of the block energy lies outside the fundamental.
    pub distorted: bool,
}

/// Raw samples this close (in LSB) to 0 or to `ADC_FULL_SCALE` count as
/// saturated.
pub const SAT_MARGIN_LSB: i32 = 2;
pub const ADC_FULL_SCALE: i32 = 4095;
/// `IQ_AMPLITUDE^2 * LUT_LEN / 2`: divides `|Iq|^2` down to the energy of
/// the fundamental in sample units (Parseval).
pub const FUNDAMENTAL_DENOM: i64 = 268_173_376;

/// Sum of squares of `SINE_LUT_I16`: the in-phase correlation of a perfect
/// full-swing, zero-phase, mid-scale-centred loopback block.
pub const REFERENCE_MAGNITUDE_I64: i64 = 268_162_574;

/// Raw 12-bit ADC1 code held in a packed dual-ADC word.
pub open spec fn adc1_raw(packed: u32) -> int {
    (packed % 4096) as int
}

/// Raw 12-bit ADC2 code held in a packed dual-ADC word.
pub open spec fn adc2_raw(packed: u32) -> int {
    ((packed / 65536) % 4096) as int
}

/// Raw ADC1 codes of a block.
pub open spec fn raw_a(samples: Seq<u32>) -> Seq<int> {
    samples.map_values(|p: u32| adc1_raw(p))
}

/// Raw ADC2 codes of a block.
pub open spec fn raw_b(samples: Seq<u32>) -> Seq<int> {
    samples.map_values(|p: u32| adc2_raw(p))
}

/// Mid-scale-centred values of a raw code sequence.
pub open spec fn centred(raw: Seq<int>) -> Seq<int> {
    raw.map_values(|r: int| r - ADC_MID_SCALE)
}

/// The in-phase reference: the sine table.
pub open spec fn sine_seq() -> Seq<int> {
    Seq::new(LUT_LEN as nat, |k: int| sine_at(k))
}

/// The quadrature reference: the sine table a quarter period on.
pub open spec fn cosine_seq() -> Seq<int> {
    Seq::new(LUT_LEN as nat, |k: int| sine_at((k + 32) % 128))
}

/// `sum_{k < n} x[k] * w[k]`.
pub open spec fn correlation(x: Seq<int>, w: Seq<int>, n: int) -> int
    decreases n,
{
    if n <= 0 {
        0
    } else {
        correlation(x, w, n - 1) + x[n - 1] * w[n - 1]
    }
}

/// `sum_{k < n} |x[k]|`.
pub open spec fn abs_total(x: Seq<int>, n: int) -> int
    decreases n,
{
    if n <= 0 {
        0
    } else {
        abs_total(x, n - 1) + if x[n - 1] < 0 { -x[n - 1] } else { x[n - 1] }
    }
}

/// `sum_{k < n} x[k]^2`.
pub open spec fn sq_total(x: Seq<int>, n: int) -> int
    decreases n,
{
    if n <= 0 {
        0
    } else {
        sq_total(x, n - 1) + x[n - 1] * x[n - 1]
    }
}

/// A raw code within `SAT_MARGIN_LSB` of either rail.
pub open spec fn is_saturated(raw: int) -> bool {
    raw <= SAT_MARGIN_LSB || raw >= ADC_FULL_SCALE - SAT_MARGIN_LSB
}

/// Number of saturated codes among `raw[..n]`.
pub open spec fn sat_total(raw: Seq<int>, n: int) -> int
    decreases n,
{
    if n <= 0 {
        0
    } else {
        sat_total(raw, n - 1) + if is_saturated(raw[n - 1]) { 1int } else { 0int }
    }
}

/// `|Iq|^2` in exact arithmetic.
pub open spec fn magnitude_sq(iq: Iq) -> int {
    iq.i * iq.i + iq.q * iq.q
}

/// `REFERENCE_MAGNITUDE_I64^2`.
pub open spec fn reference_sq() -> int {
    REFERENCE_MAGNITUDE_I64 * REFERENCE_MAGNITUDE_I64
}

/// Energy of the fundamental, in the units of `ChannelStats::sq_sum`.
pub open spec fn fundamental_energy(iq: Iq) -> int {
    magnitude_sq(iq) / (FUNDAMENTAL_DENOM as int)
}

/// Quality flags of a channel from its I/Q and block statistics.
pub open spec fn quality_of(iq: Iq, stats: ChannelStats) -> ChannelQuality {
    ChannelQuality {
        clipping: stats.sat_count > 0,
        low_signal: 100 * magnitude_sq(iq) < reference_sq(),
        distorted: stats.sq_sum > 0 && 50 * (stats.sq_sum - fundamental_energy(iq)) > stats.sq_sum,
    }
}

/// The one-character tag shown next to a channel.
pub open spec fn symbol_of(q: ChannelQuality) -> char {
    if q.clipping {
        'S'
    } else if q.low_signal {
        'L'
    } else if q.distorted {
        'H'
    } else {
        '.'
    }
}

/// `FUNDAMENTAL_DENOM` is `IQ_AMPLITUDE^2 * LUT_LEN / 2`.
pub proof fn lemma_fundamental_denom()
    ensures
        FUNDAMENTAL_DENOM == IQ_AMPLITUDE * IQ_AMPLITUDE * LUT_LEN / 2,
{
}

/// `REFERENCE_MAGNITUDE_I64` is the energy of one period of the sine table.
pub proof fn lemma_reference_is_sine_energy()
    ensures
        REFERENCE_MAGNITUDE_I64 as int == sine_energy(LUT_LEN as int),
{
    lemma_sine_energy_value();
}

/// Packs two 12-bit conversions the way the dual-ADC common data register
/// lays them out: ADC1 in the low half-word, ADC2 in the high one.
pub fn pack_dual_adc(adc1: u16, adc2: u16) -> (r: u32)
    ensures
        r == adc2 as int * 65536 + adc1 as int,
{
    let r = ((adc2 as u32) << 16) | adc1 as u32;
    assert(((adc2 as u32) << 16) | (adc1 as u32) == (adc2 as u32) * 65536 + (adc1 as u32)) by (bit_vector)
        requires
            adc1 < 65536,
            adc2 < 65536,
    ;
    r
}

/// Splits a packed dual-ADC word into mid-scale-centred ADC1 and ADC2 values.
pub fn unpack_dual_adc(packed: u32) -> (r: (i32, i32))
    ensures
        r.0 == adc1_raw(packed) - ADC_MID_SCALE,
        r.1 == adc2_raw(packed) - ADC_MID_SCALE,
{
    assert((packed & 0x0fff) == packed % 4096) by (bit_vector);
    assert(((packed >> 16) & 0x0fff) == (packed / 65536) % 4096) by (bit_vector);
    let adc1 = (packed & 0x0fff) as i32 - ADC_MID_SCALE;
    let adc2 = ((packed >> 16) & 0x0fff) as i32 - ADC_MID_SCALE;
    (adc1, adc2)
}

/// Unpacking a packed pair gives back the low 12 bits of each conversion,
/// centred on mid-scale: a 12-bit pair comes back unchanged.
pub proof fn lemma_unpack_of_pack(adc1: u16, adc2: u16)
    ensures
        ({
            let p = adc2 as int * 65536 + adc1 as int;
            &&& 0 <= p <= u32::MAX
            &&& adc1_raw(p as u32) == adc1 as int % 4096
            &&& adc2_raw(p as u32) == adc2 as int % 4096
        }),
{
    let x = adc1 as u32;
    let y = adc2 as u32;
    assert((y * 65536 + x) % 4096 == x % 4096 && ((y * 65536 + x) / 65536) % 4096 == y % 4096)
        by (bit_vector)
        requires
            x < 65536,
            y < 65536,
    ;
}

proof fn lemma_product_bounds(x: int, w: int)
    requires
        -2048 <= x <= 2047,
        -2047 <= w <= 2047,
    ensures
        -4_192_256 <= x * w <= 4_192_256,
        0 <= x * x <= 4_194_304,
{
    assert(-4_192_256 <= x * w <= 4_192_256) by (nonlinear_arith)
        requires
            -2048 <= x <= 2047,
            -2047 <= w <= 2047,
    ;
    assert(0 <= x * x <= 4_194_304) by (nonlinear_arith)
        requires
            -2048 <= x <= 2047,
    ;
}

/// Coherent I/Q demodulation of one block of `LUT_LEN` packed dual-ADC
/// words, one excitation period long. Each channel is centred, correlated
/// with the sine table (I) and with the table shifted a quarter period (Q),
/// and its absolute sum, energy and rail hits are gathered in the same pass.
pub fn demodulate_block(samples: &[u32; LUT_LEN], sequence: u32) -> (r: DemodulatedSample)
    ensures
        r.sequence == sequence,
        r.a.i == correlation(centred(raw_a(samples@)), sine_seq(), LUT_LEN as int),
        r.a.q == correlation(centred(raw_a(samples@)), cosine_seq(), LUT_LEN as int),
        r.b.i == correlation(centred(raw_b(samples@)), sine_seq(), LUT_LEN as int),
        r.b.q == correlation(centred(raw_b(samples@)), cosine_seq(), LUT_LEN as int),
        r.stats_a.abs_sum == abs_total(centred(raw_a(samples@)), LUT_LEN as int),
        r.stats_a.sq_sum == sq_total(centred(raw_a(samples@)), LUT_LEN as int),
        r.stats_a.sat_count == sat_total(raw_a(samples@), LUT_LEN as int),
        r.stats_b.abs_sum == abs_total(centred(raw_b(samples@)), LUT_LEN as int),
        r.stats_b.sq_sum == sq_total(centred(raw_b(samples@)), LUT_LEN as int),
        r.stats_b.sat_count == sat_total(raw_b(samples@), LUT_LEN as int),
{
    let ghost xa = centred(raw_a(samples@));
    let ghost xb = centred(raw_b(samples@));
    let ghost ra = raw_a(samples@);
    let ghost rb = raw_b(samples@);
    let mut ai: i32 = 0;
    let mut aq: i32 = 0;
    let mut bi: i32 = 0;
    let mut bq: i32 = 0;
    let mut a_abs: i64 = 0;
    let mut a_sq: i64 = 0;
    let mut a_sat: u32 = 0;
    let mut b_abs: i64 = 0;
    let mut b_sq: i64 = 0;
    let mut b_sat: u32 = 0;
    let mut k: usize = 0;
    while k < LUT_LEN
        invariant
            0 <= k <= LUT_LEN,
            xa == centred(raw_a(samples@)),
            xb == centred(raw_b(samples@)),
            ra == raw_a(samples@),
            rb == raw_b(samples@),
            ai == correlation(xa, sine_seq(), k as int),
            aq == correlation(xa, cosine_seq(), k as int),
            bi == correlation(xb, sine_seq(), k as int),
            bq == correlation(xb, cosine_seq(), k as int),
            a_abs == abs_total(xa, k as int),
            a_sq == sq_total(xa, k as int),
            a_sat == sat_total(ra, k as int),
            b_abs == abs_total(xb, k as int),
            b_sq == sq_total(xb, k as int),
            b_sat == sat_total(rb, k as int),
            -4_192_256 * k <= ai <= 4_192_256 * k,
            -4_192_256 * k <= aq <= 4_192_256 * k,
            -4_192_256 * k <= bi <= 4_192_256 * k,
            -4_192_256 * k <= bq <= 4_192_256 * k,
            0 <= a_abs <= 2048 * k,
            0 <= b_abs <= 2048 * k,
            0 <= a_sq <= 4_194_304 * k,
            0 <= b_sq <= 4_194_304 * k,
            a_sat <= k,
            b_sat <= k,
        decreases LUT_LEN - k,
    {
        let packed = samples[k];
        let (a, b) = unpack_dual_adc(packed);
        let s = SINE_LUT_I16[k] as i32;
        let ck = cos_from_sine_index(k);
        let c = SINE_LUT_I16[ck] as i32;
        proof {
            lemma_sine_bounded(k as int);
            lemma_sine_bounded(ck as int);
            assert(xa[k as int] == a);
            assert(xb[k as int] == b);
            assert(sine_seq()[k as int] == s);
            assert(cosine_seq()[k as int] == c);
            lemma_product_bounds(a as int, s as int);
            lemma_product_bounds(a as int, c as int);
            lemma_product_bounds(b as int, s as int);
            lemma_product_bounds(b as int, c as int);
        }
        ai = ai + a * s;
        aq = aq + a * c;
        bi = bi + b * s;
        bq = bq + b * c;
        let a_mag: i64 = if a < 0 { -(a as i64) } else { a as i64 };
        let b_mag: i64 = if b < 0 { -(b as i64) } else { b as i64 };
        a_abs = a_abs + a_mag;
        b_abs = b_abs + b_mag;
        a_sq = a_sq + (a * a) as i64;
        b_sq = b_sq + (b * b) as i64;
        let a_raw = a + ADC_MID_SCALE;
        let b_raw = b + ADC_MID_SCALE;
        if a_raw <= SAT_MARGIN_LSB || a_raw >= ADC_FULL_SCALE - SAT_MARGIN_LSB {
            a_sat = a_sat + 1;
        }
        if b_raw <= SAT_MARGIN_LSB || b_raw >= ADC_FULL_SCALE - SAT_MARGIN_LSB {
            b_sat = b_sat + 1;
        }
        proof {
            assert(ra[k as int] == a_raw);
            assert(rb[k as int] == b_raw);
        }
        k = k + 1;
    }
    DemodulatedSample {
        a: Iq { i: ai, q: aq },
        b: Iq { i: bi, q: bq },
        stats_a: ChannelStats { abs_sum: a_abs, sq_sum: a_sq, sat_count: a_sat },
        stats_b: ChannelStats { abs_sum: b_abs, sq_sum: b_sq, sat_count: b_sat },
        sequence,
    }
}

/// Integer division rounding toward zero, as Rust's `/` does.
pub open spec fn div_toward_zero(x: int, n: int) -> int {
    if x >= 0 {
        x / n
    } else {
        -((-x) / n)
    }
}

/// Coherent I/Q accumulator over consecutive blocks. One block is exactly
/// one excitation period, so adding I/Q across blocks is the same as
/// demodulating one window `N` blocks long with the table repeated `N`
/// times: coherent averaging that narrows the detector bandwidth `N`-fold.
/// `drain_average` returns the average in single-block scale and resets.
#[derive(Clone, Copy, Debug, Default, PartialEq, Eq, Structural)]
pub struct Accumulator {
    a_i: i64,
    a_q: i64,
    b_i: i64,
    b_q: i64,
    a_abs: i64,
    a_sq: i64,
    b_abs: i64,
    b_sq: i64,
    a_sat: u32,
    b_sat: u32,
    count: u32,
}

impl Accumulator {
    /// Running I/Q sums `(a.i, a.q, b.i, b.q)`.
    pub closed spec fn iq_sums(self) -> (int, int, int, int) {
        (self.a_i as int, self.a_q as int, self.b_i as int, self.b_q as int)
    }

    /// Running stats sums `(a.abs, a.sq, b.abs, b.sq)`.
    pub closed spec fn stat_sums(self) -> (int, int, int, int) {
        (self.a_abs as int, self.a_sq as int, self.b_abs as int, self.b_sq as int)
    }

    /// Total rail hits `(a, b)`, saturating at `u32::MAX`.
    pub closed spec fn sat_totals(self) -> (u32, u32) {
        (self.a_sat, self.b_sat)
    }

    /// Number of pushed blocks, wrapping at `u32::MAX`.
    pub closed spec fn pushed(self) -> u32 {
        self.count
    }

    pub open spec fn is_empty_state(self) -> bool {
        &&& self.iq_sums() == (0int, 0int, 0int, 0int)
        &&& self.stat_sums() == (0int, 0int, 0int, 0int)
        &&& self.sat_totals() == (0u32, 0u32)
        &&& self.pushed() == 0
    }

    /// Every running sum stays within `i64` after adding `s`.
    pub open spec fn can_push(self, s: DemodulatedSample) -> bool {
        &&& i64::MIN <= self.iq_sums().0 + s.a.i <= i64::MAX
        &&& i64::MIN <= self.iq_sums().1 + s.a.q <= i64::MAX
        &&& i64::MIN <= self.iq_sums().2 + s.b.i <= i64::MAX
        &&& i64::MIN <= self.iq_sums().3 + s.b.q <= i64::MAX
        &&& i64::MIN <= self.stat_sums().0 + s.stats_a.abs_sum <= i64::MAX
        &&& i64::MIN <= self.stat_sums().1 + s.stats_a.sq_sum <= i64::MAX
        &&& i64::MIN <= self.stat_sums().2 + s.stats_b.abs_sum <= i64::MAX
        &&& i64::MIN <= self.stat_sums().3 + s.stats_b.sq_sum <= i64::MAX
    }

    pub fn new() -> (r: Self)
        ensures
            r.is_empty_state(),
    {
        Self {
            a_i: 0,
            a_q: 0,
            b_i: 0,
            b_q: 0,
            a_abs: 0,
            a_sq: 0,
            b_abs: 0,
            b_sq: 0,
            a_sat: 0,
            b_sat: 0,
            count: 0,
        }
    }

    /// Adds one block: I/Q and energy sums add up, rail hits add up
    /// (saturating), the block count goes up by one (wrapping).
    pub fn push(&mut self, sample: &DemodulatedSample)
        requires
            old(self).can_push(*sample),
        ensures
            final(self).iq_sums() == (
                old(self).iq_sums().0 + sample.a.i,
                old(self).iq_sums().1 + sample.a.q,
                old(self).iq_sums().2 + sample.b.i,
                old(self).iq_sums().3 + sample.b.q,
            ),
            final(self).stat_sums() == (
                old(self).stat_sums().0 + sample.stats_a.abs_sum,
                old(self).stat_sums().1 + sample.stats_a.sq_sum,
                old(self).stat_sums().2 + sample.stats_b.abs_sum,
                old(self).stat_sums().3 + sample.stats_b.sq_sum,
            ),
            final(self).sat_totals().0 == saturating_u32(
                old(self).sat_totals().0 + sample.stats_a.sat_count,
            ),
            final(self).sat_totals().1 == saturating_u32(
                old(self).sat_totals().1 + sample.stats_b.sat_count,
            ),
            final(self).pushed() == (old(self).pushed() as int + 1) % 0x1_0000_0000,
    {
        self.a_i = self.a_i + sample.a.i as i64;
        self.a_q = self.a_q + sample.a.q as i64;
        self.b_i = self.b_i + sample.b.i as i64;
        self.b_q = self.b_q + sample.b.q as i64;
        self.a_abs = self.a_abs + sample.stats_a.abs_sum;
        self.a_sq = self.a_sq + sample.stats_a.sq_sum;
        self.b_abs = self.b_abs + sample.stats_b.abs_sum;
        self.b_sq = self.b_sq + sample.stats_b.sq_sum;
        self.a_sat = self.a_sat.saturating_add(sample.stats_a.sat_count);
        self.b_sat = self.b_sat.saturating_add(sample.stats_b.sat_count);
        self.count = self.count.wrapping_add(1);
    }

    pub fn count(&self) -> (r: u32)
        ensures
            r == self.pushed(),
    {
        self.count
    }

    /// Returns the average of the pushed blocks (sums divided by the block
    /// count, or by 1 when nothing was pushed, rounding toward zero; rail
    /// hits as a total) and resets the accumulator.
    pub fn drain_average(&mut self, sequence: u32) -> (r: DemodulatedSample)
        ensures
            final(self).is_empty_state(),
            ({
                let n = if old(self).pushed() == 0 { 1int } else { old(self).pushed() as int };
                &&& r.sequence == sequence
                &&& r.a.i == div_toward_zero(old(self).iq_sums().0, n) as i32
                &&& r.a.q == div_toward_zero(old(self).iq_sums().1, n) as i32
                &&& r.b.i == div_toward_zero(old(self).iq_sums().2, n) as i32
                &&& r.b.q == div_toward_zero(old(self).iq_sums().3, n) as i32
                &&& r.stats_a.abs_sum == div_toward_zero(old(self).stat_sums().0, n)
                &&& r.stats_a.sq_sum == div_toward_zero(old(self).stat_sums().1, n)
                &&& r.stats_b.abs_sum == div_toward_zero(old(self).stat_sums().2, n)
                &&& r.stats_b.sq_sum == div_toward_zero(old(self).stat_sums().3, n)
                &&& r.stats_a.sat_count == old(self).sat_totals().0
                &&& r.stats_b.sat_count == old(self).sat_totals().1
            }),
    {
        let n: i64 = if self.count == 0 { 1 } else { self.count as i64 };
        let out = DemodulatedSample {
            a: Iq { i: (self.a_i / n) as i32, q: (self.a_q / n) as i32 },
            b: Iq { i: (self.b_i / n) as i32, q: (self.b_q / n) as i32 },
            stats_a: ChannelStats {
                abs_sum: self.a_abs / n,
                sq_sum: self.a_sq / n,
                sat_count: self.a_sat,
            },
            stats_b: ChannelStats {
                abs_sum: self.b_abs / n,
                sq_sum: self.b_sq / n,
                sat_count: self.b_sat,
            },
            sequence,
        };
        *self = Self::new();
        out
    }
}

proof fn lemma_square_bound(x: int)
    requires
        i32::MIN <= x <= i32::MAX,
    ensures
        0 <= x * x <= 0x4000_0000_0000_0000,
{
    assert(0 <= x * x <= 0x4000_0000_0000_0000) by (nonlinear_arith)
        requires
            -0x8000_0000 <= x <= 0x7fff_ffff,
    ;
}

/// `|Iq|^2` in exact arithmetic.
fn magnitude_squared(iq: Iq) -> (r: i128)
    ensures
        r == magnitude_sq(iq),
        0 <= r <= 0x8000_0000_0000_0000,
{
    proof {
        lemma_square_bound(iq.i as int);
        lemma_square_bound(iq.q as int);
    }
    let i = iq.i as i128;
    let q = iq.q as i128;
    i * i + q * q
}

/// Classifies one channel: clipping when any raw sample hit a rail, low
/// signal when `|Iq|^2 < 1% * REFERENCE^2`, distortion when the energy
/// outside the fundamental exceeds 2% of the total (`sq_sum`).
pub fn channel_quality(iq: Iq, stats: ChannelStats) -> (r: ChannelQuality)
    ensures
        r == quality_of(iq, stats),
{
    let mag_sq = magnitude_squared(iq);
    let reference = REFERENCE_MAGNITUDE_I64 as i128;
    let ref_sq = reference * reference;
    let total = stats.sq_sum as i128;
    let fund = mag_sq / (FUNDAMENTAL_DENOM as i128);
    let distorted = total > 0 && 50 * (total - fund) > total;
    ChannelQuality {
        clipping: stats.sat_count > 0,
        low_signal: 100 * mag_sq < ref_sq,
        distorted,
    }
}

/// Low signal is `100 * (i^2 + q^2) < REF^2`: it depends on the I/Q only
/// through the magnitude, so it is the same for any phase, in particular
/// when I and Q swap or change sign.
pub proof fn lemma_low_signal_is_magnitude_threshold(iq: Iq, stats: ChannelStats)
    ensures
        quality_of(iq, stats).low_signal == (100 * (iq.i * iq.i + iq.q * iq.q) < REFERENCE_MAGNITUDE_I64
            * REFERENCE_MAGNITUDE_I64),
        quality_of(iq, stats).low_signal == quality_of(Iq { i: iq.q, q: iq.i }, stats).low_signal,
        quality_of(iq, stats).clipping == (stats.sat_count > 0),
{
    assert(iq.i * iq.i + iq.q * iq.q == iq.q * iq.q + iq.i * iq.i);
}

/// Tag priority: any rail hit shows `S` whatever the other flags; otherwise
/// low signal shows `L`; otherwise distortion shows `H`; a clean channel
/// shows `.`.
pub proof fn lemma_symbol_priority(q: ChannelQuality)
    ensures
        q.clipping ==> symbol_of(q) == 'S',
        !q.clipping && q.low_signal ==> symbol_of(q) == 'L',
        !q.clipping && !q.low_signal && q.distorted ==> symbol_of(q) == 'H',
        !q.clipping && !q.low_signal && !q.distorted ==> symbol_of(q) == '.',
        symbol_of(q) == 'S' ==> q.clipping,
{
}

impl ChannelQuality {
    /// One-character tag: `S` clipping, `L` low signal, `H` distorted,
    /// `.` clean, in that priority.
    pub fn symbol(self) -> (c: char)
        ensures
            c == symbol_of(self),
    {
        if self.clipping {
            'S'
        } else if self.low_signal {
            'L'
        } else if self.distorted {
            'H'
        } else {
            '.'
        }
    }
}

pub open spec fn saturating_u32(x: int) -> u32 {
    if x > u32::MAX { u32::MAX } else { x as u32 }
}

proof fn lemma_correlation_with_sine(x: Seq<int>, n: int)
    requires
        0 <= n <= LUT_LEN,
        forall|k: int| 0 <= k < n ==> x[k] == sine_at(k),
    ensures
        correlation(x, sine_seq(), n) == sine_energy(n),
    decreases n,
{
    if n > 0 {
        lemma_correlation_with_sine(x, n - 1);
    }
}

proof fn lemma_correlation_terms(x: Seq<int>, n: int)
    requires
        0 <= n <= LUT_LEN,
        forall|k: int| 0 <= k < n ==> x[k] == sine_at(k),
    ensures
        correlation(x, cosine_seq(), n) == cross_energy(n),
    decreases n,
{
    if n > 0 {
        lemma_correlation_terms(x, n - 1);
    }
}

proof fn lemma_shifted_correlation_terms(x: Seq<int>, n: int)
    requires
        0 <= n <= LUT_LEN,
        forall|k: int| 0 <= k < n ==> x[k] == sine_at((k + 32) % 128),
    ensures
        correlation(x, sine_seq(), n) == cross_energy(n),
        correlation(x, cosine_seq(), n) == shifted_energy(n),
    decreases n,
{
    if n > 0 {
        lemma_shifted_correlation_terms(x, n - 1);
        let a = sine_at((n - 1 + 32) % 128);
        let b = sine_at(n - 1);
        assert(a * b == b * a) by (nonlinear_arith);
    }
}

/// A block in which both ADCs reproduce the DAC table exactly (full-swing,
/// zero-phase, mid-scale-centred loopback) has in-phase correlation
/// `REFERENCE_MAGNITUDE_I64` and quadrature correlation 0 on both channels.
pub proof fn lemma_loopback_reaches_reference(samples: Seq<u32>)
    requires
        samples.len() == LUT_LEN,
        forall|k: int|
            0 <= k < LUT_LEN ==> samples[k] as int == DAC_SINE_LUT@[k] as int * 65536
                + DAC_SINE_LUT@[k] as int,
    ensures
        correlation(centred(raw_a(samples)), sine_seq(), LUT_LEN as int) == REFERENCE_MAGNITUDE_I64,
        correlation(centred(raw_b(samples)), sine_seq(), LUT_LEN as int) == REFERENCE_MAGNITUDE_I64,
        correlation(centred(raw_a(samples)), cosine_seq(), LUT_LEN as int) == 0,
        correlation(centred(raw_b(samples)), cosine_seq(), LUT_LEN as int) == 0,
{
    let xa = centred(raw_a(samples));
    let xb = centred(raw_b(samples));
    assert forall|k: int| 0 <= k < LUT_LEN implies xa[k] == sine_at(k) && xb[k] == sine_at(k) by {
        lemma_dac_is_midscale_sine(k);
        lemma_unpack_of_pack(DAC_SINE_LUT@[k], DAC_SINE_LUT@[k]);
    }
    lemma_correlation_with_sine(xa, LUT_LEN as int);
    lemma_correlation_with_sine(xb, LUT_LEN as int);
    lemma_correlation_terms(xa, LUT_LEN as int);
    lemma_correlation_terms(xb, LUT_LEN as int);
    lemma_reference_is_sine_energy();
    lemma_sine_cosine_orthogonal();
}

/// A loopback a quarter period ahead of the excitation projects entirely
/// onto Q: in-phase correlation 0 and quadrature correlation
/// `REFERENCE_MAGNITUDE_I64` on both channels (phase +pi/2).
pub proof fn lemma_quarter_period_loopback_is_quadrature(samples: Seq<u32>)
    requires
        samples.len() == LUT_LEN,
        forall|k: int|
            0 <= k < LUT_LEN ==> samples[k] as int == DAC_SINE_LUT@[(k + 32) % 128] as int * 65536
                + DAC_SINE_LUT@[(k + 32) % 128] as int,
    ensures
        correlation(centred(raw_a(samples)), sine_seq(), LUT_LEN as int) == 0,
        correlation(centred(raw_b(samples)), sine_seq(), LUT_LEN as int) == 0,
        correlation(centred(raw_a(samples)), cosine_seq(), LUT_LEN as int) == REFERENCE_MAGNITUDE_I64,
        correlation(centred(raw_b(samples)), cosine_seq(), LUT_LEN as int) == REFERENCE_MAGNITUDE_I64,
{
    let xa = centred(raw_a(samples));
    let xb = centred(raw_b(samples));
    assert forall|k: int| 0 <= k < LUT_LEN implies xa[k] == sine_at((k + 32) % 128) && xb[k]
        == sine_at((k + 32) % 128) by {
        lemma_dac_is_midscale_sine((k + 32) % 128);
        lemma_unpack_of_pack(DAC_SINE_LUT@[(k + 32) % 128], DAC_SINE_LUT@[(k + 32) % 128]);
    }
    lemma_shifted_correlation_terms(xa, LUT_LEN as int);
    lemma_shifted_correlation_terms(xb, LUT_LEN as int);
    lemma_sine_cosine_orthogonal();
}

/// Averaging identical blocks gives the block back: an accumulator whose
/// sums are those of `n` copies of `s` drains to the I/Q and energy values
/// of `s`.
pub proof fn lemma_identical_blocks_average_back(acc: Accumulator, s: DemodulatedSample, n: u32)
    requires
        n >= 1,
        acc.pushed() == n,
        acc.iq_sums() == (n * s.a.i, n * s.a.q, n * s.b.i, n * s.b.q),
        acc.stat_sums() == (
            n * s.stats_a.abs_sum,
            n * s.stats_a.sq_sum,
            n * s.stats_b.abs_sum,
            n * s.stats_b.sq_sum,
        ),
    ensures
        div_toward_zero(acc.iq_sums().0, n as int) as i32 == s.a.i,
        div_toward_zero(acc.iq_sums().1, n as int) as i32 == s.a.q,
        div_toward_zero(acc.iq_sums().2, n as int) as i32 == s.b.i,
        div_toward_zero(acc.iq_sums().3, n as int) as i32 == s.b.q,
        div_toward_zero(acc.stat_sums().0, n as int) == s.stats_a.abs_sum,
        div_toward_zero(acc.stat_sums().1, n as int) == s.stats_a.sq_sum,
        div_toward_zero(acc.stat_sums().2, n as int) == s.stats_b.abs_sum,
        div_toward_zero(acc.stat_sums().3, n as int) == s.stats_b.sq_sum,
{
    lemma_div_of_multiple(s.a.i as int, n as int);
    lemma_div_of_multiple(s.a.q as int, n as int);
    lemma_div_of_multiple(s.b.i as int, n as int);
    lemma_div_of_multiple(s.b.q as int, n as int);
    lemma_div_of_multiple(s.stats_a.abs_sum as int, n as int);
    lemma_div_of_multiple(s.stats_a.sq_sum as int, n as int);
    lemma_div_of_multiple(s.stats_b.abs_sum as int, n as int);
    lemma_div_of_multiple(s.stats_b.sq_sum as int, n as int);
}

proof fn lemma_div_of_multiple(x: int, n: int)
    requires
        n >= 1,
    ensures
        div_toward_zero(n * x, n) == x,
{
    if x >= 0 {
        assert(n * x >= 0) by (nonlinear_arith)
            requires
                n >= 1,
                x >= 0,
        ;
        vstd::arithmetic::div_mod::lemma_div_multiples_vanish(x, n);
    } else {
        assert(n * x < 0 && -(n * x) == n * (-x)) by (nonlinear_arith)
            requires
                n >= 1,
                x < 0,
        ;
        vstd::arithmetic::div_mod::lemma_div_multiples_vanish(-x, n);
    }
}

} // verus!
