//! Gain steps of the on-chip op-amps in programmable-gain mode.
//!
//! Channel A runs PA3 -> OPAMP1 -> ADC1_IN13, channel B runs PB14 -> OPAMP2
//! -> ADC2_IN16. The gain is one of six fixed steps, x2 to x64; each step is
//! a factor of two.

use vstd::prelude::*;

verus! {

/// The six PGA steps. `as_num` is the actual gain, `as_bits` the PGA_GAIN
/// field encoding in plain PGA mode.
#[derive(Clone, Copy, Debug, PartialEq, Eq, Structural)]
pub enum PgaGain {
    X2,
    X4,
    X8,
    X16,
    X32,
    X64,
}

/// Position of a step on the scale, 0 for x2 up to 5 for x64.
pub open spec fn step_index(g: PgaGain) -> nat {
    match g {
        PgaGain::X2 => 0,
        PgaGain::X4 => 1,
        PgaGain::X8 => 2,
        PgaGain::X16 => 3,
        PgaGain::X32 => 4,
        PgaGain::X64 => 5,
    }
}

pub open spec fn gain_at(index: nat) -> PgaGain {
    if index == 0 {
        PgaGain::X2
    } else if index == 1 {
        PgaGain::X4
    } else if index == 2 {
        PgaGain::X8
    } else if index == 3 {
        PgaGain::X16
    } else if index == 4 {
        PgaGain::X32
    } else {
        PgaGain::X64
    }
}

/// One step up the scale, saturating at x64.
pub open spec fn stepped_up(g: PgaGain) -> PgaGain {
    gain_at(if step_index(g) < 5 { step_index(g) + 1 } else { 5 })
}

/// One step down the scale, saturating at x2.
pub open spec fn stepped_down(g: PgaGain) -> PgaGain {
    gain_at(if step_index(g) > 0 { (step_index(g) - 1) as nat } else { 0 })
}

/// The gain factor: `2^(index + 1)`.
pub open spec fn gain_factor(g: PgaGain) -> nat {
    vstd::arithmetic::power2::pow2(step_index(g) + 1)
}



impl PgaGain {
    pub const ALL: [PgaGain; 6] = [
        PgaGain::X2,
        PgaGain::X4,
        PgaGain::X8,
        PgaGain::X16,
        PgaGain::X32,
        PgaGain::X64,
    ];

    pub fn as_num(self) -> (r: u8)
        ensures
            r == gain_factor(self),
    {
        proof {
            vstd::arithmetic::power2::lemma2_to64();
        }
        match self {
            PgaGain::X2 => 2,
            PgaGain::X4 => 4,
            PgaGain::X8 => 8,
            PgaGain::X16 => 16,
            PgaGain::X32 => 32,
            PgaGain::X64 => 64,
        }
    }

    pub fn as_bits(self) -> (r: u8)
        ensures
            r == step_index(self),
    {
        match self {
            PgaGain::X2 => 0,
            PgaGain::X4 => 1,
            PgaGain::X8 => 2,
            PgaGain::X16 => 3,
            PgaGain::X32 => 4,
            PgaGain::X64 => 5,
        }
    }

    /// One step up the scale, saturating at x64.
    pub fn step_up(self) -> (r: PgaGain)
        ensures
            r == stepped_up(self),
    {
        match self {
            PgaGain::X2 => PgaGain::X4,
            PgaGain::X4 => PgaGain::X8,
            PgaGain::X8 => PgaGain::X16,
            PgaGain::X16 => PgaGain::X32,
            PgaGain::X32 => PgaGain::X64,
            PgaGain::X64 => PgaGain::X64,
        }
    }

    /// One step down the scale, saturating at x2.
    pub fn step_down(self) -> (r: PgaGain)
        ensures
            r == stepped_down(self),
    {
        match self {
            PgaGain::X2 => PgaGain::X2,
            PgaGain::X4 => PgaGain::X2,
            PgaGain::X8 => PgaGain::X4,
            PgaGain::X16 => PgaGain::X8,
            PgaGain::X32 => PgaGain::X16,
            PgaGain::X64 => PgaGain::X32,
        }
    }
}

/// A step is determined by its index.
pub proof fn lemma_step_index_injective(g: PgaGain, h: PgaGain)
    ensures
        step_index(g) == step_index(h) <==> g == h,
        step_index(g) <= 5,
        gain_at(step_index(g)) == g,
{
}

/// Each step up doubles the gain, except at the top of the scale.
pub proof fn lemma_step_up_doubles(g: PgaGain)
    requires
        g != PgaGain::X64,
    ensures
        gain_factor(gain_at(step_index(g) + 1)) == 2 * gain_factor(g),
{
    vstd::arithmetic::power2::lemma2_to64();
}

/// The gain factor grows strictly with the step index.
pub proof fn lemma_gain_factor_monotonic(g: PgaGain, h: PgaGain)
    ensures
        step_index(g) < step_index(h) <==> gain_factor(g) < gain_factor(h),
{
    vstd::arithmetic::power2::lemma2_to64();
}

/// Stepping up then down returns to the same gain below the top of the
/// scale, and stepping down then up returns to it above the bottom; the
/// ends saturate.
pub proof fn lemma_steps_undo(g: PgaGain)
    ensures
        g != PgaGain::X64 ==> stepped_down(stepped_up(g)) == g,
        g != PgaGain::X2 ==> stepped_up(stepped_down(g)) == g,
        stepped_up(PgaGain::X64) == PgaGain::X64,
        stepped_down(PgaGain::X2) == PgaGain::X2,
{
}

} // verus!
