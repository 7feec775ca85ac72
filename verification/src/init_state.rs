//! Initialization-state markers for peripherals.
//!
//! A peripheral interface is parameterized by one of these zero-sized types,
//! so that operations that only make sense while the peripheral clock is
//! running (or stopped) exist only on the matching instantiation.

use vstd::prelude::*;

verus! {

/// Marks a peripheral as enabled: its clock is running.
pub struct Enabled;

/// Marks a peripheral as disabled: its clock is gated off.
pub struct Disabled;

/// Implemented by the initialization-state markers, as a documentation bound.
pub trait InitState {

}

impl InitState for Enabled {

}

impl InitState for Disabled {

}

} // verus!
