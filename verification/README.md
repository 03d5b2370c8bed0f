# lvdt

Signal-path logic of an STM32G474 LVDT conditioner, with its behaviour
stated in Verus contracts and proved.

- `src/lut.rs`: the 128-point excitation tables and timing constants.
- `src/iq.rs`: packed dual-ADC words, coherent I/Q demodulation, block
  statistics, channel quality, block averaging.
- `src/pga.rs`: the op-amp gain steps.
- `src/agc.rs`: the per-channel gain decision and the joint AGC step.
- `src/button.rs`: the one-button click-pattern decoder.
- `src/sampling.rs`, `src/excitation.rs`: decisions and plans of the DMA
  paths.
- `tests/`: host tests of the library.
- `app/`: the firmware around it (RTIC tasks, register-level peripheral
  setup, floating-point display and USB formatting).
