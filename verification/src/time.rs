//! Units of time used by the serial port configuration.

use vstd::prelude::*;

verus! {

/// Bits per second.
#[derive(Clone, Copy, PartialEq, Eq, Structural, Debug)]
pub struct Bps(pub u32);

/// Hertz.
#[derive(Clone, Copy, PartialEq, Eq, Structural, Debug)]
pub struct Hertz(pub u32);

} // verus!
