//! Signal-path logic of an LVDT conditioner: excitation tables, coherent
//! I/Q demodulation of dual-ADC blocks, channel quality, PGA gain steps, AGC
//! decisions and the one-button pattern decoder.

pub mod lut;
pub mod iq;
pub mod pga;
pub mod agc;
pub mod button;
pub mod excitation;
pub mod sampling;
