//! Hardware-access layer for a small microcontroller family: the GPIO
//! pin-direction ownership and state-switching mechanism, and the low-power
//! sleep subsystem built on a countdown wake timer.
//!
//! The hardware side (bit-addressed register groups, the wake timer, the
//! interrupt controller and the power-management handle) is modeled as plain
//! register words, so that every pin transition, level access and sleep
//! strategy is verified against an exact statement of what it does to those
//! words.

pub mod bits;
pub mod direction;
pub mod gpio;
pub mod init_state;
pub mod pins;
pub mod registers;
pub mod sleep;
pub mod wkt;
