//! Types that indicate the direction of GPIO pins.
//!
//! A pin handle is parameterized by one of these types, so that level reads
//! exist only where they are electrically meaningful and level writes only
//! where the pin drives its line. `Dynamic` trades that static guarantee for
//! a runtime tag that may change after construction.

use vstd::prelude::*;

use crate::pins::DynamicPinDirection;

verus! {

/// Implemented by the types that indicate GPIO pin direction. The pin handle
/// uses this trait as a bound on its type parameter, to show which types can
/// stand there.
pub trait Direction {

}

/// Marks a GPIO pin as configured for input: the pin senses its line.
pub struct Input(pub (crate) ());

impl Direction for Input {

}

/// Marks a GPIO pin as configured for output: the pin drives its line.
pub struct Output(pub (crate) ());

impl Direction for Output {

}

/// Marks a GPIO pin as run-time configurable for input or output, carrying
/// the pin's current electrical direction as a runtime tag.
pub struct Dynamic {
    pub (crate) current_direction: DynamicPinDirection,
}

impl Direction for Dynamic {

}

/// Error raised by operations on a dynamically directed pin.
#[derive(Clone, Copy, PartialEq, Eq, Structural, Debug)]
pub enum DynamicPinErr {
    /// The operation demands a direction other than the pin's current one.
    WrongDirection,
}

} // verus!
