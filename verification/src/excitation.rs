//! What the DAC excitation runs on: TIM6 reload value and the sample table
//! streamed to DAC1 channel 1 by circular DMA.

use vstd::prelude::*;

use crate::lut::{DAC_SINE_LUT, LUT_LEN, TIM6_ARR};

verus! {

pub struct ExcitationPlan {
    pub tim6_arr: u16,
    pub lut: &'static [u16; LUT_LEN],
}

/// The excitation plan: TIM6 reloads at `TIM6_ARR` and each update trigger
/// moves the next `DAC_SINE_LUT` sample to the DAC.
pub fn plan() -> (p: ExcitationPlan)
    ensures
        p.tim6_arr == TIM6_ARR,
        p.lut@ == DAC_SINE_LUT@,
{
    ExcitationPlan { tim6_arr: TIM6_ARR, lut: &DAC_SINE_LUT }
}

} // verus!
