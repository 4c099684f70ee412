//! Driver for the analog-output (DAC) peripheral.
//!
//! Pin tokens of the GPIO layer are mapped at compile time to channel
//! identities (`C1`, `C2`); `dac` brings the peripheral up once and hands
//! those identities out; each identity then enables its output and writes or
//! reads back its data-holding register.

mod dac;
mod gpio;
mod registers;

pub use crate::dac::{
    bring_up_order, brought_up, dac, enable_sets_only_own_bit, narrow_round_trip_unscaled,
    no_cross_talk, proportional_12, read_back, wide_round_trip, written, DacChannel, DacExt,
    DacOut, DacPin, DacValue, Pins, C1, C2,
};
pub use crate::gpio::{Floating, Input, PA4, PA5};
pub use crate::registers::{
    enable_bit, held_bits, other_rcc_reg, Channel, Dac, DacRegisters, RccReg, RccRegisters,
    DACEN, DACRST, DHR12_MASK, EN1, EN2,
};
