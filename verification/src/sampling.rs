//! Decisions of the ADC DMA transfer-complete interrupt.
//!
//! The dual ADC fills one `AdcSampleBuffer` per excitation period by
//! circular DMA. The interrupt counts completed blocks and demodulates and
//! logs one block in `LOG_EVERY_BLOCKS`; a transfer error is reported and
//! nothing else happens.

use vstd::prelude::*;

use crate::lut::LUT_LEN;

verus! {

/// One DMA block: `LUT_LEN` packed dual-ADC words.
pub type AdcSampleBuffer = [u32; LUT_LEN];

/// Blocks per demodulated-and-logged block (a power of two).
pub const LOG_EVERY_BLOCKS: u32 = 1024;

#[derive(Debug, Clone, Copy, PartialEq, Eq, Structural)]
pub enum DmaVerdict {
    /// The channel flagged a transfer error: report it.
    TransferError,
    /// The interrupt was not a transfer-complete: nothing to do.
    NotComplete,
    /// A block completed but is not one to process.
    Skip,
    /// A block completed and is the `LOG_EVERY_BLOCKS`-th: demodulate it.
    Process,
}

/// Block counter and verdict after an interrupt with the given flags.
pub open spec fn dma_outcome(count: u32, transfer_complete: bool, transfer_error: bool) -> (u32, DmaVerdict) {
    if transfer_error {
        (count, DmaVerdict::TransferError)
    } else if !transfer_complete {
        (count, DmaVerdict::NotComplete)
    } else {
        let next = ((count as int + 1) % 0x1_0000_0000) as u32;
        (next, if next % LOG_EVERY_BLOCKS == 0 { DmaVerdict::Process } else { DmaVerdict::Skip })
    }
}

/// Updates the completed-block counter (wrapping) from the interrupt
/// flags and says what to do with the buffer.
pub fn on_dma_interrupt(count: u32, transfer_complete: bool, transfer_error: bool) -> (r: (u32, DmaVerdict))
    ensures
        r == dma_outcome(count, transfer_complete, transfer_error),
{
    if transfer_error {
        return (count, DmaVerdict::TransferError);
    }
    if !transfer_complete {
        return (count, DmaVerdict::NotComplete);
    }
    let next = count.wrapping_add(1);
    assert(next & 0x3ff == next % 1024) by (bit_vector);
    if next & 0x3ff != 0 {
        (next, DmaVerdict::Skip)
    } else {
        (next, DmaVerdict::Process)
    }
}

/// Exactly one completed block in `LOG_EVERY_BLOCKS` is processed: starting
/// from a counter that is a multiple of it, the next `LOG_EVERY_BLOCKS - 1`
/// completions are skipped and the one after is processed.
pub proof fn lemma_one_block_in_log_every(count: u32, k: u32)
    requires
        count % LOG_EVERY_BLOCKS == 0,
        1 <= k <= LOG_EVERY_BLOCKS,
        count as int + k <= u32::MAX,
    ensures
        dma_outcome((count + k - 1) as u32, true, false).1 == (if k == LOG_EVERY_BLOCKS {
            DmaVerdict::Process
        } else {
            DmaVerdict::Skip
        }),
{
}

} // verus!
