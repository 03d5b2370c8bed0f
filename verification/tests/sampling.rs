use lvdt::sampling::{on_dma_interrupt, DmaVerdict, LOG_EVERY_BLOCKS};

#[test]
fn transfer_error_wins_and_keeps_count() {
    assert_eq!(on_dma_interrupt(7, true, true), (7, DmaVerdict::TransferError));
    assert_eq!(on_dma_interrupt(7, false, true), (7, DmaVerdict::TransferError));
}

#[test]
fn no_transfer_complete_keeps_count() {
    assert_eq!(on_dma_interrupt(7, false, false), (7, DmaVerdict::NotComplete));
}

#[test]
fn every_1024th_block_is_processed() {
    let mut count = 0u32;
    let mut processed = 0;
    for _ in 0..(3 * LOG_EVERY_BLOCKS) {
        let (next, verdict) = on_dma_interrupt(count, true, false);
        assert_eq!(next, count + 1);
        if verdict == DmaVerdict::Process {
            processed += 1;
            assert_eq!(next % LOG_EVERY_BLOCKS, 0);
        } else {
            assert_eq!(verdict, DmaVerdict::Skip);
        }
        count = next;
    }
    assert_eq!(processed, 3);
}

#[test]
fn counter_wraps_into_a_processed_block() {
    assert_eq!(on_dma_interrupt(u32::MAX, true, false), (0, DmaVerdict::Process));
    assert_eq!(on_dma_interrupt(1022, true, false), (1023, DmaVerdict::Skip));
}
