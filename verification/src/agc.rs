//! Automatic gain control: keeps the I/Q magnitude inside 25-75% of
//! `REFERENCE_MAGNITUDE_I64` by stepping the PGA.
//!
//! Once per averaging window a decision is made for each channel, but one
//! common step is applied to A and B: if either channel clips or runs hot
//! both step down, and both step up only when both are weak. After a change
//! the next `LOCKOUT_WINDOWS` windows are skipped, so the accumulator holds
//! only blocks taken at the new gain. Each step is a factor of two, the
//! hold window a factor of three, so the loop does not oscillate.

use vstd::prelude::*;

use crate::iq::{
    channel_quality, magnitude_sq, quality_of, reference_sq, ChannelStats, DemodulatedSample, Iq,
    REFERENCE_MAGNITUDE_I64,
};
use crate::pga::{step_index, stepped_down, stepped_up, PgaGain};

verus! {

#[derive(Debug, Clone, Copy, Eq, PartialEq, Structural)]
pub enum AgcAction {
    Hold,
    StepUp,
    StepDown,
}

/// `|Iq|^2 < (25%)^2 * REFERENCE^2`, i.e. `mag_sq * 16 < ref_sq * 1`.
const LOW_NUM: i128 = 1;
const LOW_DEN: i128 = 16;
/// `|Iq|^2 > (75%)^2 * REFERENCE^2`, i.e. `mag_sq * 16 > ref_sq * 9`.
const HIGH_NUM: i128 = 9;
const HIGH_DEN: i128 = 16;
/// Averaging windows skipped after each gain change.
const LOCKOUT_WINDOWS: u8 = 1;

/// The per-channel AGC rule: clipping steps down whatever the magnitude
/// (a clipped magnitude reads low); otherwise below 25% of the reference
/// steps up, above 75% steps down, and in between holds.
pub open spec fn decision(iq: Iq, stats: ChannelStats) -> AgcAction {
    if quality_of(iq, stats).clipping {
        AgcAction::StepDown
    } else if 16 * magnitude_sq(iq) < reference_sq() {
        AgcAction::StepUp
    } else if 16 * magnitude_sq(iq) > 9 * reference_sq() {
        AgcAction::StepDown
    } else {
        AgcAction::Hold
    }
}

/// One action for both channels: down if either asks down, up only if both
/// ask up, hold otherwise.
pub open spec fn joint_action(a: AgcAction, b: AgcAction) -> AgcAction {
    if a == AgcAction::StepDown || b == AgcAction::StepDown {
        AgcAction::StepDown
    } else if a == AgcAction::StepUp && b == AgcAction::StepUp {
        AgcAction::StepUp
    } else {
        AgcAction::Hold
    }
}

/// The lower of two steps (the first one on a tie).
pub open spec fn lower_of(a: PgaGain, b: PgaGain) -> PgaGain {
    if step_index(a) <= step_index(b) {
        a
    } else {
        b
    }
}

/// The common step both channels move to: the lower of the two current
/// steps, moved by `action`.
pub open spec fn joint_target(a: PgaGain, b: PgaGain, action: AgcAction) -> PgaGain {
    let common = lower_of(a, b);
    match action {
        AgcAction::Hold => common,
        AgcAction::StepUp => stepped_up(common),
        AgcAction::StepDown => stepped_down(common),
    }
}

/// Per-channel AGC decision. It does not look at the current gain: the PGA
/// saturates at both ends of its scale.
pub fn decide(iq: Iq, stats: ChannelStats) -> (r: AgcAction)
    ensures
        r == decision(iq, stats),
{
    let q = channel_quality(iq, stats);
    if q.clipping {
        return AgcAction::StepDown;
    }
    proof {
        assert(0 <= iq.i * iq.i <= 0x4000_0000_0000_0000) by (nonlinear_arith)
            requires
                i32::MIN <= iq.i <= i32::MAX,
        ;
        assert(0 <= iq.q * iq.q <= 0x4000_0000_0000_0000) by (nonlinear_arith)
            requires
                i32::MIN <= iq.q <= i32::MAX,
        ;
    }
    let i = iq.i as i128;
    let qq = iq.q as i128;
    let mag_sq = i * i + qq * qq;
    let reference = REFERENCE_MAGNITUDE_I64 as i128;
    let ref_sq = reference * reference;
    if mag_sq * LOW_DEN < ref_sq * LOW_NUM {
        return AgcAction::StepUp;
    }
    if mag_sq * HIGH_DEN > ref_sq * HIGH_NUM {
        return AgcAction::StepDown;
    }
    AgcAction::Hold
}

/// Per-channel lockout counters of the gain loop.
#[derive(Clone, Copy, Debug)]
pub struct Agc {
    lock_a: u8,
    lock_b: u8,
}

impl Agc {
    /// Remaining lockout windows `(a, b)`.
    pub closed spec fn locks(self) -> (u8, u8) {
        (self.lock_a, self.lock_b)
    }

    pub fn new() -> (r: Self)
        ensures
            r.locks() == (0u8, 0u8),
    {
        Self { lock_a: 0, lock_b: 0 }
    }
}

impl Default for Agc {
    fn default() -> (r: Self)
        ensures
            r.locks() == (0u8, 0u8),
    {
        Self::new()
    }
}

/// Access to the two PGA channels. The hardware driver implements it by
/// writing the op-amp gain registers; anything that holds two gains can.
pub trait GainControl {
    /// The gain currently set on channel A.
    spec fn current_gain_a(&self) -> PgaGain;

    /// The gain currently set on channel B.
    spec fn current_gain_b(&self) -> PgaGain;

    fn gain_a(&self) -> (g: PgaGain)
        ensures
            g == self.current_gain_a(),
    ;

    fn gain_b(&self) -> (g: PgaGain)
        ensures
            g == self.current_gain_b(),
    ;

    /// Sets channel A, leaving channel B alone.
    fn set_gain_a(&mut self, gain: PgaGain)
        ensures
            final(self).current_gain_a() == gain,
            final(self).current_gain_b() == old(self).current_gain_b(),
    ;

    /// Sets channel B, leaving channel A alone.
    fn set_gain_b(&mut self, gain: PgaGain)
        ensures
            final(self).current_gain_b() == gain,
            final(self).current_gain_a() == old(self).current_gain_a(),
    ;
}

/// The effect of one AGC step from lockouts `locks` and gains `ga`, `gb`:
/// new lockouts, new gains and which channels changed.
///
/// While a lockout is running both counters count down (saturating at 0)
/// and nothing changes. Otherwise both channels move to `joint_target` of
/// their current steps and the joint action; if either changed, both
/// lockouts restart at `LOCKOUT_WINDOWS`.
pub open spec fn tick_outcome(locks: (u8, u8), sample: DemodulatedSample, ga: PgaGain, gb: PgaGain) -> (
    (u8, u8),
    PgaGain,
    PgaGain,
    (bool, bool),
) {
    let (la, lb) = locks;
    if la > 0 || lb > 0 {
        (
            ((if la > 0 { la - 1 } else { 0 }) as u8, (if lb > 0 { lb - 1 } else { 0 }) as u8),
            ga,
            gb,
            (false, false),
        )
    } else {
        let action = joint_action(decision(sample.a, sample.stats_a), decision(sample.b, sample.stats_b));
        let target = joint_target(ga, gb, action);
        let changed = (ga != target, gb != target);
        (if changed.0 || changed.1 { (1u8, 1u8) } else { (0u8, 0u8) }, target, target, changed)
    }
}

/// One AGC step over both channels; returns `(changed_a, changed_b)` for
/// the caller's log.
///
/// The LVDT pair runs on one common PGA step: if either channel asks down
/// both go down, they go up only when both are weak. So `(B-A)/(B+A)` does
/// not drift from unequal gains, and a hot channel is not driven into
/// clipping for the sake of a weak neighbour.
pub fn tick<G: GainControl>(state: &mut Agc, sample: &DemodulatedSample, pga: &mut G) -> (r: (bool, bool))
    ensures
        ({
            let (locks, ga, gb, changed) = tick_outcome(
                old(state).locks(),
                *sample,
                old(pga).current_gain_a(),
                old(pga).current_gain_b(),
            );
            &&& r == changed
            &&& final(state).locks() == locks
            &&& final(pga).current_gain_a() == ga
            &&& final(pga).current_gain_b() == gb
        }),
{
    if state.lock_a > 0 || state.lock_b > 0 {
        state.lock_a = state.lock_a.saturating_sub(1);
        state.lock_b = state.lock_b.saturating_sub(1);
        return (false, false);
    }
    let action = common_action(decide(sample.a, sample.stats_a), decide(sample.b, sample.stats_b));
    let target = common_target_gain(pga.gain_a(), pga.gain_b(), action);
    let ca = pga.gain_a() != target;
    let cb = pga.gain_b() != target;
    if ca {
        pga.set_gain_a(target);
    }
    if cb {
        pga.set_gain_b(target);
    }
    if ca || cb {
        state.lock_a = LOCKOUT_WINDOWS;
        state.lock_b = LOCKOUT_WINDOWS;
    }
    (ca, cb)
}

fn common_action(a: AgcAction, b: AgcAction) -> (r: AgcAction)
    ensures
        r == joint_action(a, b),
{
    match (a, b) {
        (AgcAction::StepDown, _) | (_, AgcAction::StepDown) => AgcAction::StepDown,
        (AgcAction::StepUp, AgcAction::StepUp) => AgcAction::StepUp,
        _ => AgcAction::Hold,
    }
}

fn common_target_gain(a: PgaGain, b: PgaGain, action: AgcAction) -> (r: PgaGain)
    ensures
        r == joint_target(a, b, action),
{
    let common = lower_gain(a, b);
    match action {
        AgcAction::Hold => common,
        AgcAction::StepUp => common.step_up(),
        AgcAction::StepDown => common.step_down(),
    }
}

fn lower_gain(a: PgaGain, b: PgaGain) -> (r: PgaGain)
    ensures
        r == lower_of(a, b),
{
    proof {
        crate::pga::lemma_gain_factor_monotonic(a, b);
        crate::pga::lemma_gain_factor_monotonic(b, a);
    }
    if a.as_num() <= b.as_num() {
        a
    } else {
        b
    }
}

/// After a tick that changed either gain, the next tick changes nothing and
/// reports no change, whatever sample it sees.
pub proof fn lemma_change_starts_lockout(
    locks: (u8, u8),
    first: DemodulatedSample,
    second: DemodulatedSample,
    ga: PgaGain,
    gb: PgaGain,
)
    requires
        tick_outcome(locks, first, ga, gb).3.0 || tick_outcome(locks, first, ga, gb).3.1,
    ensures
        ({
            let (l1, ga1, gb1, _c1) = tick_outcome(locks, first, ga, gb);
            let (_l2, ga2, gb2, c2) = tick_outcome(l1, second, ga1, gb1);
            &&& c2 == (false, false)
            &&& ga2 == ga1
            &&& gb2 == gb1
        }),
{
}

/// A tick outside a lockout leaves both channels on the same step.
pub proof fn lemma_unlocked_tick_equalises(sample: DemodulatedSample, ga: PgaGain, gb: PgaGain)
    ensures
        tick_outcome((0u8, 0u8), sample, ga, gb).1 == tick_outcome((0u8, 0u8), sample, ga, gb).2,
{
}

/// No gain goes up while either channel clips or runs hot; a gain goes up
/// only when both channels are weak.
pub proof fn lemma_no_raise_unless_both_weak(
    locks: (u8, u8),
    sample: DemodulatedSample,
    ga: PgaGain,
    gb: PgaGain,
)
    ensures
        ({
            let (_l, ga1, gb1, _c) = tick_outcome(locks, sample, ga, gb);
            let da = decision(sample.a, sample.stats_a);
            let db = decision(sample.b, sample.stats_b);
            &&& (da == AgcAction::StepDown || db == AgcAction::StepDown) ==> step_index(ga1) <= step_index(ga)
                && step_index(gb1) <= step_index(gb)
            &&& (step_index(ga1) > step_index(ga) || step_index(gb1) > step_index(gb)) ==> da
                == AgcAction::StepUp && db == AgcAction::StepUp
        }),
{
    crate::pga::lemma_step_index_injective(ga, gb);
    crate::pga::lemma_step_index_injective(lower_of(ga, gb), ga);
    crate::pga::lemma_step_index_injective(lower_of(ga, gb), gb);
}

/// Outside a lockout, a channel asking down lowers both channels: when
/// either decision is `StepDown` and the lower of the two gains is above
/// x2, both gains end exactly one step below that lower gain, equal to each
/// other, and both channels are reported changed.
pub proof fn lemma_either_down_lowers_both(sample: DemodulatedSample, ga: PgaGain, gb: PgaGain)
    requires
        decision(sample.a, sample.stats_a) == AgcAction::StepDown || decision(sample.b, sample.stats_b)
            == AgcAction::StepDown,
        step_index(ga) > 0,
        step_index(gb) > 0,
    ensures
        ({
            let (locks, ga1, gb1, changed) = tick_outcome((0u8, 0u8), sample, ga, gb);
            let low = if step_index(ga) <= step_index(gb) { step_index(ga) } else { step_index(gb) };
            &&& step_index(ga1) == low - 1
            &&& step_index(gb1) == low - 1
            &&& step_index(ga1) < step_index(ga) && step_index(gb1) < step_index(gb)
            &&& changed == (true, true)
            &&& locks == (1u8, 1u8)
        }),
{
    let (_l, ga1, gb1, _c) = tick_outcome((0u8, 0u8), sample, ga, gb);
    crate::pga::lemma_step_index_injective(ga1, ga);
    crate::pga::lemma_step_index_injective(gb1, gb);
}

/// Outside a lockout, both gains go up one step above the lower gain
/// exactly when both channels are weak (and the lower gain is below x64);
/// when one channel is weak and the other holds, both stay on the lower
/// gain.
pub proof fn lemma_both_weak_raise_both(sample: DemodulatedSample, ga: PgaGain, gb: PgaGain)
    ensures
        ({
            let (_locks, ga1, gb1, _changed) = tick_outcome((0u8, 0u8), sample, ga, gb);
            let da = decision(sample.a, sample.stats_a);
            let db = decision(sample.b, sample.stats_b);
            let low = if step_index(ga) <= step_index(gb) { step_index(ga) } else { step_index(gb) };
            &&& (da == AgcAction::StepUp && db == AgcAction::StepUp && low < 5) ==> step_index(ga1) == low
                + 1 && step_index(gb1) == low + 1
            &&& ((da == AgcAction::StepUp && db == AgcAction::Hold) || (da == AgcAction::Hold && db
                == AgcAction::StepUp) || (da == AgcAction::Hold && db == AgcAction::Hold)) ==> step_index(ga1)
                == low && step_index(gb1) == low
        }),
{
}

/// One gain step (a factor of two in magnitude, four in `|Iq|^2`) never
/// carries a signal across the whole hold window: a weak signal raised one
/// step is not hot, and a hot signal lowered one step is not weak.
pub proof fn lemma_step_stays_inside_window(mag_sq: int)
    requires
        mag_sq >= 0,
    ensures
        16 * mag_sq < reference_sq() ==> !(16 * (4 * mag_sq) > 9 * reference_sq()),
        16 * mag_sq > 9 * reference_sq() ==> !(16 * mag_sq < 4 * reference_sq()),
{
}

} // verus!
